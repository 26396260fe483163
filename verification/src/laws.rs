//! The laws the ledger obeys, each stated over the same spec-level
//! transitions that the executable operations are proved against.

use vstd::prelude::*;

use crate::contract::{address_of_key, consent_id, digest_of, hrp_chars, lemma_found_is_nft_idx,
    spec_give, spec_mint, spec_take, spec_unequip, spec_equip};
use crate::crypto::secp256k1_recovered_key;
use crate::error::ContractError;
use crate::state::{AttrV, NftInfoV, StateV, equipped_of, has_nft, nft_at, nft_idx, unequipped_of,
    wf_nfts};

verus! {

/// The agreement digest is a function of its three inputs alone: the same
/// active party, passive party and URI always give the same digest.
pub proof fn lemma_digest_deterministic(
    a1: Seq<char>,
    p1: Seq<char>,
    u1: Seq<char>,
    a2: Seq<char>,
    p2: Seq<char>,
    u2: Seq<char>,
)
    requires
        a1 == a2,
        p1 == p2,
        u1 == u2,
    ensures
        digest_of(a1, p1, u1) == digest_of(a2, p2, u2),
{
}

/// A give whose signature was not produced by the recipient's key — it
/// recovers to no key at all, or to a key whose derived chain address is not
/// the recipient — always fails with the give-consent error. By the contract
/// of the executable give, that error leaves the ledger, its issuance counter
/// included, unchanged.
pub proof fn lemma_give_without_consent_rejected(
    v: StateV,
    to: Seq<char>,
    uri: Seq<char>,
    signature: Seq<u8>,
)
    requires
        match secp256k1_recovered_key(digest_of(v.minter, to, uri), signature, 1) {
            Option::None => true,
            Option::Some(pk) => address_of_key(hrp_chars(), pk) != to,
        },
    ensures
        spec_give(v, v.minter, to, uri, signature) == Err::<(StateV, Seq<AttrV>), ContractError>(
            ContractError::To {},
        ),
{
    assert(consent_id(v.minter, to, uri, signature) is None);
}

/// A take whose signature was not produced by the minter's key always fails
/// with the take-consent error; by the contract of the executable take, the
/// ledger and its counter are unchanged.
pub proof fn lemma_take_without_consent_rejected(
    v: StateV,
    sender: Seq<char>,
    from: Seq<char>,
    uri: Seq<char>,
    signature: Seq<u8>,
)
    requires
        crate::crypto::addr_valid(from),
        from == v.minter,
        match secp256k1_recovered_key(digest_of(sender, from, uri), signature, 1) {
            Option::None => true,
            Option::Some(pk) => address_of_key(hrp_chars(), pk) != from,
        },
    ensures
        spec_take(v, sender, from, uri, signature) == Err::<(StateV, Seq<AttrV>), ContractError>(
            ContractError::From {},
        ),
{
    assert(consent_id(sender, from, uri, signature) is None);
}

/// After a successful mint the issuance counter is exactly one higher, the
/// ledger stays well-formed, and the new record is retrievable by its id:
/// equipped, not revoked, with the given owner and URI.
pub proof fn lemma_mint_effects(
    v: StateV,
    sender: Seq<char>,
    id: Seq<char>,
    owner: Seq<char>,
    uri: Seq<char>,
    v2: StateV,
    attrs: Seq<AttrV>,
)
    requires
        wf_nfts(v.nfts),
        v.nft_count == v.nfts.len(),
        spec_mint(v, sender, id, owner, uri) == Ok::<(StateV, Seq<AttrV>), ContractError>(
            (v2, attrs),
        ),
    ensures
        v2.nft_count == v.nft_count + 1,
        has_nft(v2.nfts, id),
        nft_at(v2.nfts, id) == (NftInfoV {
            id,
            owner,
            nft_uri: uri,
            equiped: true,
            revoked: false,
        }),
        wf_nfts(v2.nfts),
        v2.nft_count == v2.nfts.len(),
{
    let new = NftInfoV { id, owner, nft_uri: uri, equiped: true, revoked: false };
    assert(v2.nfts == v.nfts.push(new));
    let n = v.nfts.len() as int;
    assert(v2.nfts[n] == new);
    assert forall|a: int, b: int| 0 <= a < b < v2.nfts.len() implies v2.nfts[a].id
        != v2.nfts[b].id by {
        if b < n {
            assert(v.nfts[a].id != v.nfts[b].id);
        } else {
            assert(v2.nfts[a] == v.nfts[a]);
            if v.nfts[a].id == id {
                assert(has_nft(v.nfts, id));
            }
        }
    }
    lemma_found_is_nft_idx(v2.nfts, id, n);
}

/// Equip undoes a successful unequip exactly — the ledger returns to the
/// very state it had — and a second unequip in a row fails as already
/// unequipped.
pub proof fn lemma_unequip_then_equip(
    v: StateV,
    sender: Seq<char>,
    id: Seq<char>,
    v1: StateV,
    attrs: Seq<AttrV>,
)
    requires
        wf_nfts(v.nfts),
        spec_unequip(v, sender, id) == Ok::<(StateV, Seq<AttrV>), ContractError>((v1, attrs)),
    ensures
        spec_unequip(v1, sender, id) == Err::<(StateV, Seq<AttrV>), ContractError>(
            ContractError::NftAlreadyUnequipped {},
        ),
        spec_equip(v1, sender, id) is Ok,
        spec_equip(v1, sender, id).unwrap().0 == v,
{
    let k = nft_idx(v.nfts, id);
    let n = nft_at(v.nfts, id);
    assert(0 <= k < v.nfts.len() && v.nfts[k].id == id);
    assert(v1.nfts == v.nfts.update(k, NftInfoV { equiped: false, ..n }));
    lemma_found_is_nft_idx(v1.nfts, id, k);
    let back = NftInfoV { equiped: true, ..nft_at(v1.nfts, id) };
    assert(back == n);
    assert(v1.nfts.update(k, back) =~= v.nfts);
    assert(spec_equip(v1, sender, id).unwrap().0 =~~= v);
}

/// Unequip undoes a successful equip exactly, and a second equip in a row
/// fails as already equipped.
pub proof fn lemma_equip_then_unequip(
    v: StateV,
    sender: Seq<char>,
    id: Seq<char>,
    v1: StateV,
    attrs: Seq<AttrV>,
)
    requires
        wf_nfts(v.nfts),
        spec_equip(v, sender, id) == Ok::<(StateV, Seq<AttrV>), ContractError>((v1, attrs)),
    ensures
        spec_equip(v1, sender, id) == Err::<(StateV, Seq<AttrV>), ContractError>(
            ContractError::NftAlreadyEquipped {},
        ),
        spec_unequip(v1, sender, id) is Ok,
        spec_unequip(v1, sender, id).unwrap().0 == v,
{
    let k = nft_idx(v.nfts, id);
    let n = nft_at(v.nfts, id);
    assert(0 <= k < v.nfts.len() && v.nfts[k].id == id);
    assert(v1.nfts == v.nfts.update(k, NftInfoV { equiped: true, ..n }));
    lemma_found_is_nft_idx(v1.nfts, id, k);
    let back = NftInfoV { equiped: false, ..nft_at(v1.nfts, id) };
    assert(back == n);
    assert(v1.nfts.update(k, back) =~= v.nfts);
    assert(spec_unequip(v1, sender, id).unwrap().0 =~~= v);
}

/// No token whose records all carry the revoked mark for a given id shows up
/// under that id in the unequipped enumeration of any owner.
proof fn lemma_revoked_not_in_unequipped(nfts: Seq<NftInfoV>, owner: Seq<char>, id: Seq<char>)
    requires
        forall|j: int| 0 <= j < nfts.len() && #[trigger] nfts[j].id == id ==> nfts[j].revoked,
    ensures
        forall|i: int|
            0 <= i < unequipped_of(nfts, owner).len() ==> #[trigger] unequipped_of(
                nfts,
                owner,
            )[i].id != id,
    decreases nfts.len(),
{
    reveal(Seq::filter);
    if nfts.len() > 0 {
        assert forall|j: int|
            0 <= j < nfts.drop_last().len() && #[trigger] nfts.drop_last()[j].id
                == id implies nfts.drop_last()[j].revoked by {
            assert(nfts.drop_last()[j] == nfts[j]);
        }
        lemma_revoked_not_in_unequipped(nfts.drop_last(), owner, id);
        let sub = unequipped_of(nfts.drop_last(), owner);
        let whole = unequipped_of(nfts, owner);
        let last = nfts.last();
        assert forall|i: int| 0 <= i < whole.len() implies #[trigger] whole[i].id != id by {
            if last.owner == owner && !last.equiped && !last.revoked {
                assert(whole == sub.push(last));
                if i < sub.len() {
                    assert(whole[i] == sub[i]);
                } else {
                    assert(whole[i] == last);
                    if last.id == id {
                        assert(nfts[nfts.len() - 1].id == id);
                    }
                }
            } else {
                assert(whole == sub);
            }
        }
    }
}

/// No token whose records all carry the revoked mark for a given id shows up
/// under that id in the equipped enumeration of any owner.
proof fn lemma_revoked_not_in_equipped(nfts: Seq<NftInfoV>, owner: Seq<char>, id: Seq<char>)
    requires
        forall|j: int| 0 <= j < nfts.len() && #[trigger] nfts[j].id == id ==> nfts[j].revoked,
    ensures
        forall|i: int|
            0 <= i < equipped_of(nfts, owner).len() ==> #[trigger] equipped_of(nfts, owner)[i].id
                != id,
    decreases nfts.len(),
{
    reveal(Seq::filter);
    if nfts.len() > 0 {
        assert forall|j: int|
            0 <= j < nfts.drop_last().len() && #[trigger] nfts.drop_last()[j].id
                == id implies nfts.drop_last()[j].revoked by {
            assert(nfts.drop_last()[j] == nfts[j]);
        }
        lemma_revoked_not_in_equipped(nfts.drop_last(), owner, id);
        let sub = equipped_of(nfts.drop_last(), owner);
        let whole = equipped_of(nfts, owner);
        let last = nfts.last();
        assert forall|i: int| 0 <= i < whole.len() implies #[trigger] whole[i].id != id by {
            if last.owner == owner && last.equiped && !last.revoked {
                assert(whole == sub.push(last));
                if i < sub.len() {
                    assert(whole[i] == sub[i]);
                } else {
                    assert(whole[i] == last);
                    if last.id == id {
                        assert(nfts[nfts.len() - 1].id == id);
                    }
                }
            } else {
                assert(whole == sub);
            }
        }
    }
}

/// The equipped enumeration of an owner holds exactly the ledger's records
/// that belong to that owner, are equipped and are not revoked: every listed
/// record is such a record, and every such record is listed.
pub proof fn lemma_equipped_of_characterized(nfts: Seq<NftInfoV>, owner: Seq<char>)
    ensures
        forall|i: int|
            0 <= i < equipped_of(nfts, owner).len() ==> {
                let n = #[trigger] equipped_of(nfts, owner)[i];
                n.owner == owner && n.equiped && !n.revoked
            },
        forall|j: int|
            0 <= j < nfts.len() && #[trigger] nfts[j].owner == owner && nfts[j].equiped
                && !nfts[j].revoked ==> equipped_of(nfts, owner).contains(nfts[j]),
{
    broadcast use vstd::seq_lib::group_filter_ensures;

}

/// The unequipped enumeration of an owner holds exactly the ledger's records
/// that belong to that owner, are unequipped and are not revoked.
pub proof fn lemma_unequipped_of_characterized(nfts: Seq<NftInfoV>, owner: Seq<char>)
    ensures
        forall|i: int|
            0 <= i < unequipped_of(nfts, owner).len() ==> {
                let n = #[trigger] unequipped_of(nfts, owner)[i];
                n.owner == owner && !n.equiped && !n.revoked
            },
        forall|j: int|
            0 <= j < nfts.len() && #[trigger] nfts[j].owner == owner && !nfts[j].equiped
                && !nfts[j].revoked ==> unequipped_of(nfts, owner).contains(nfts[j]),
{
    broadcast use vstd::seq_lib::group_filter_ensures;

}

/// Once a token is revoked, its id appears in neither the equipped nor the
/// unequipped enumeration of any owner, whatever its equip flag says.
pub proof fn lemma_revoked_hidden(nfts: Seq<NftInfoV>, id: Seq<char>, owner: Seq<char>)
    requires
        wf_nfts(nfts),
        has_nft(nfts, id),
        nft_at(nfts, id).revoked,
    ensures
        forall|i: int|
            0 <= i < equipped_of(nfts, owner).len() ==> #[trigger] equipped_of(nfts, owner)[i].id
                != id,
        forall|i: int|
            0 <= i < unequipped_of(nfts, owner).len() ==> #[trigger] unequipped_of(
                nfts,
                owner,
            )[i].id != id,
{
    assert forall|j: int| 0 <= j < nfts.len() && #[trigger] nfts[j].id == id implies
        nfts[j].revoked by {
        lemma_found_is_nft_idx(nfts, id, j);
    }
    lemma_revoked_not_in_equipped(nfts, owner, id);
    lemma_revoked_not_in_unequipped(nfts, owner, id);
}

} // verus!
