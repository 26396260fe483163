//! The token ledger's data model: the token record, the ledger state with its
//! mathematical view, and the small response types of the query surface.

use vstd::prelude::*;

verus! {

/// One token record. A record exists in the ledger exactly when it was
/// produced by a successful mint; it is never deleted.
#[derive(Debug, Clone, PartialEq, Eq)]
pub struct NftInfo {
    /// Identifier, fixed at mint time.
    pub id: String,
    /// Owning address, fixed at mint time.
    pub owner: String,
    /// Metadata pointer, fixed at mint time.
    pub nft_uri: String,
    /// Whether the token is currently worn in the owner's active set.
    pub equiped: bool,
    /// Whether the minter has revoked the token. A revoked token is kept in
    /// the ledger but excluded from both filtered enumerations.
    pub revoked: bool,
}

/// The mathematical value of a token record.
#[verifier::ext_equal]
pub ghost struct NftInfoV {
    pub id: Seq<char>,
    pub owner: Seq<char>,
    pub nft_uri: Seq<char>,
    pub equiped: bool,
    pub revoked: bool,
}

impl View for NftInfo {
    type V = NftInfoV;

    open spec fn view(&self) -> NftInfoV {
        NftInfoV {
            id: self.id@,
            owner: self.owner@,
            nft_uri: self.nft_uri@,
            equiped: self.equiped,
            revoked: self.revoked,
        }
    }
}

/// The records of a vector of tokens, as mathematical values in the same
/// order.
pub open spec fn nfts_view(nfts: Seq<NftInfo>) -> Seq<NftInfoV> {
    nfts.map_values(|n: NftInfo| n@)
}

/// The whole ledger: metadata, the registered minter, the issuance counter
/// and every token record in mint order.
#[derive(Debug)]
pub struct Aura4973 {
    contract_info: ContractInfoResponse,
    minter: String,
    nft_count: u64,
    nfts: Vec<NftInfo>,
}

/// The mathematical value of the ledger.
#[verifier::ext_equal]
pub ghost struct StateV {
    pub name: Seq<char>,
    pub symbol: Seq<char>,
    pub minter: Seq<char>,
    pub nft_count: nat,
    pub nfts: Seq<NftInfoV>,
}

impl View for Aura4973 {
    type V = StateV;

    closed spec fn view(&self) -> StateV {
        StateV {
            name: self.contract_info.name@,
            symbol: self.contract_info.symbol@,
            minter: self.minter@,
            nft_count: self.nft_count as nat,
            nfts: nfts_view(self.nfts@),
        }
    }
}

/// Token ids are unique across the ledger.
pub open spec fn wf_nfts(nfts: Seq<NftInfoV>) -> bool {
    forall|i: int, j: int|
        #![trigger nfts[i], nfts[j]]
        0 <= i < j < nfts.len() ==> nfts[i].id != nfts[j].id
}

/// Whether a token with the given id is in the ledger.
pub open spec fn has_nft(nfts: Seq<NftInfoV>, id: Seq<char>) -> bool {
    exists|i: int| #![trigger nfts[i]] 0 <= i < nfts.len() && nfts[i].id == id
}

/// The position of the token with the given id.
pub open spec fn nft_idx(nfts: Seq<NftInfoV>, id: Seq<char>) -> int {
    choose|i: int| #![trigger nfts[i]] 0 <= i < nfts.len() && nfts[i].id == id
}

/// The record of the token with the given id.
pub open spec fn nft_at(nfts: Seq<NftInfoV>, id: Seq<char>) -> NftInfoV {
    nfts[nft_idx(nfts, id)]
}

/// The owner's tokens that are equipped and not revoked, in mint order.
pub open spec fn equipped_of(nfts: Seq<NftInfoV>, owner: Seq<char>) -> Seq<NftInfoV> {
    nfts.filter(|n: NftInfoV| n.owner == owner && n.equiped && !n.revoked)
}

/// The owner's tokens that are unequipped and not revoked, in mint order.
pub open spec fn unequipped_of(nfts: Seq<NftInfoV>, owner: Seq<char>) -> Seq<NftInfoV> {
    nfts.filter(|n: NftInfoV| n.owner == owner && !n.equiped && !n.revoked)
}

impl Aura4973 {
    /// The ledger's internal invariant: the issuance counter equals the
    /// number of records ever minted, and token ids are unique.
    pub open spec fn wf(&self) -> bool {
        &&& self@.nft_count == self@.nfts.len()
        &&& wf_nfts(self@.nfts)
    }

    /// The number of tokens ever minted.
    pub fn nft_count(&self) -> (r: u64)
        ensures
            r == self@.nft_count,
    {
        self.nft_count
    }

    /// Step the issuance counter. Only mint calls this, right after it has
    /// written the new record.
    pub(crate) fn increment_nfts(&mut self) -> (r: u64)
        requires
            old(self)@.nft_count < u64::MAX,
        ensures
            final(self)@ == (StateV { nft_count: old(self)@.nft_count + 1, ..old(self)@ }),
            r == final(self)@.nft_count,
    {
        self.nft_count = self.nft_count + 1;
        self.nft_count
    }

    pub(crate) fn new_state(contract_info: ContractInfoResponse, minter: String) -> (r: Aura4973)
        ensures
            r@ == (StateV {
                name: contract_info.name@,
                symbol: contract_info.symbol@,
                minter: minter@,
                nft_count: 0,
                nfts: Seq::<NftInfoV>::empty(),
            }),
            r.wf(),
    {
        let r = Aura4973 { contract_info, minter, nft_count: 0, nfts: Vec::new() };
        proof {
            assert(r@.nfts =~= Seq::<NftInfoV>::empty());
        }
        r
    }

    pub(crate) fn minter_ref(&self) -> (r: &String)
        ensures
            r@ == self@.minter,
    {
        &self.minter
    }

    pub(crate) fn contract_info_ref(&self) -> (r: &ContractInfoResponse)
        ensures
            r.name@ == self@.name,
            r.symbol@ == self@.symbol,
    {
        &self.contract_info
    }

    pub(crate) fn nfts_ref(&self) -> (r: &Vec<NftInfo>)
        ensures
            nfts_view(r@) == self@.nfts,
    {
        &self.nfts
    }

    pub(crate) fn nft_at_idx(&self, i: usize) -> (r: &NftInfo)
        requires
            i < self@.nfts.len(),
        ensures
            r@ == self@.nfts[i as int],
    {
        &self.nfts[i]
    }

    pub(crate) fn push_nft(&mut self, nft: NftInfo)
        ensures
            final(self)@ == (StateV {
                nfts: old(self)@.nfts.push(nft@),
                ..old(self)@
            }),
    {
        self.nfts.push(nft);
        proof {
            assert(final(self)@.nfts =~= old(self)@.nfts.push(nft@));
        }
    }

    pub(crate) fn set_equiped(&mut self, i: usize, value: bool)
        requires
            i < old(self)@.nfts.len(),
        ensures
            final(self)@ == (StateV {
                nfts: old(self)@.nfts.update(
                    i as int,
                    NftInfoV { equiped: value, ..old(self)@.nfts[i as int] },
                ),
                ..old(self)@
            }),
    {
        let nft = &self.nfts[i];
        let updated = NftInfo {
            id: nft.id.clone(),
            owner: nft.owner.clone(),
            nft_uri: nft.nft_uri.clone(),
            equiped: value,
            revoked: nft.revoked,
        };
        self.nfts.set(i, updated);
        proof {
            assert(final(self)@.nfts =~= old(self)@.nfts.update(
                i as int,
                NftInfoV { equiped: value, ..old(self)@.nfts[i as int] },
            ));
        }
    }

    pub(crate) fn set_revoked(&mut self, i: usize, value: bool)
        requires
            i < old(self)@.nfts.len(),
        ensures
            final(self)@ == (StateV {
                nfts: old(self)@.nfts.update(
                    i as int,
                    NftInfoV { revoked: value, ..old(self)@.nfts[i as int] },
                ),
                ..old(self)@
            }),
    {
        let nft = &self.nfts[i];
        let updated = NftInfo {
            id: nft.id.clone(),
            owner: nft.owner.clone(),
            nft_uri: nft.nft_uri.clone(),
            equiped: nft.equiped,
            revoked: value,
        };
        self.nfts.set(i, updated);
        proof {
            assert(final(self)@.nfts =~= old(self)@.nfts.update(
                i as int,
                NftInfoV { revoked: value, ..old(self)@.nfts[i as int] },
            ));
        }
    }
}

impl Aura4973 {
    /// The registered minter.
    pub fn minter(&self) -> (r: String)
        ensures
            r@ == self@.minter,
    {
        self.minter.clone()
    }

    /// Every record in the ledger, in mint order.
    pub fn all_nfts(&self) -> (r: Vec<NftInfo>)
        ensures
            nfts_view(r@) == self@.nfts,
    {
        let ghost s = nfts_view(self.nfts@);
        let mut out: Vec<NftInfo> = Vec::new();
        let n = self.nfts.len();
        proof {
            assert(nfts_view(out@) =~= s.take(0));
        }
        for i in 0..n
            invariant
                n == self.nfts@.len(),
                s == nfts_view(self.nfts@),
                s == self@.nfts,
                nfts_view(out@) == s.take(i as int),
        {
            let ghost out_before = nfts_view(out@);
            let rec = &self.nfts[i];
            out.push(
                NftInfo {
                    id: rec.id.clone(),
                    owner: rec.owner.clone(),
                    nft_uri: rec.nft_uri.clone(),
                    equiped: rec.equiped,
                    revoked: rec.revoked,
                },
            );
            proof {
                assert(nfts_view(out@) =~= out_before.push(s[i as int]));
                assert(s.take(i + 1) =~= s.take(i as int).push(s[i as int]));
            }
        }
        proof {
            assert(s.take(n as int) =~= s);
        }
        out
    }

    /// Rebuild a ledger from its plain parts, as a host that persisted them
    /// hands them back. Refused when the records' ids are not unique: such a
    /// collection cannot have come from this ledger.
    pub fn from_parts(name: String, symbol: String, minter: String, nfts: Vec<NftInfo>) -> (r:
        Option<Aura4973>)
        ensures
            match r {
                Some(s) => {
                    &&& s.wf()
                    &&& s@.name == name@
                    &&& s@.symbol == symbol@
                    &&& s@.minter == minter@
                    &&& s@.nfts == nfts_view(nfts@)
                },
                None => !wf_nfts(nfts_view(nfts@)),
            },
    {
        let ghost s = nfts_view(nfts@);
        let n = nfts.len();
        for i in 0..n
            invariant
                n == nfts@.len(),
                s == nfts_view(nfts@),
                forall|a: int, b: int|
                    #![trigger s[a], s[b]]
                    0 <= a < b < n && a < i ==> s[a].id != s[b].id,
        {
            for j in (i + 1)..n
                invariant
                    i < n == nfts@.len(),
                    s == nfts_view(nfts@),
                    i + 1 <= j <= n,
                    forall|a: int, b: int|
                        #![trigger s[a], s[b]]
                        0 <= a < b < n && a < i ==> s[a].id != s[b].id,
                    forall|b: int| i < b < j ==> s[i as int].id != #[trigger] s[b].id,
            {
                if nfts[i].id == nfts[j].id {
                    proof {
                        assert(s[i as int].id == s[j as int].id);
                        assert(!wf_nfts(s)) by {
                            if wf_nfts(s) {
                                assert(s[i as int].id != s[j as int].id);
                            }
                        }
                    }
                    return None;
                }
            }
        }
        let count: u64 = n as u64;
        Some(
            Aura4973 {
                contract_info: ContractInfoResponse { name, symbol },
                minter,
                nft_count: count,
                nfts,
            },
        )
    }
}

/// The owner of a record, as the owner index files it. The primary key is
/// not part of the index key.
pub fn token_owner_idx(_pk: &[u8], d: &NftInfo) -> (r: String)
    ensures
        r@ == d@.owner,
{
    d.owner.clone()
}

/// One observable attribute of an operation's outcome.
#[derive(Debug, Clone, PartialEq, Eq)]
pub struct Attribute {
    pub key: String,
    pub value: String,
}

/// The mathematical value of an attribute.
#[verifier::ext_equal]
pub ghost struct AttrV {
    pub key: Seq<char>,
    pub value: Seq<char>,
}

impl View for Attribute {
    type V = AttrV;

    open spec fn view(&self) -> AttrV {
        AttrV { key: self.key@, value: self.value@ }
    }
}

/// What a mutating operation reports back: a list of key/value attributes
/// for observability, nothing more.
#[derive(Debug, Clone, PartialEq, Eq)]
pub struct Response {
    pub attributes: Vec<Attribute>,
}

impl View for Response {
    type V = Seq<AttrV>;

    open spec fn view(&self) -> Seq<AttrV> {
        self.attributes@.map_values(|a: Attribute| a@)
    }
}

impl Default for Response {
    /// An empty response, with no attributes.
    fn default() -> (r: Response)
        ensures
            r@ == Seq::<AttrV>::empty(),
    {
        let r = Response { attributes: Vec::new() };
        proof {
            assert(r@ =~= Seq::<AttrV>::empty());
        }
        r
    }
}

/// Total number of tokens ever minted.
#[derive(Debug, Clone, PartialEq, Eq)]
pub struct NumNftsResponse {
    pub count: u64,
}

/// The immutable name/symbol pair set at initialization.
#[derive(Debug, Clone, PartialEq, Eq)]
pub struct ContractInfoResponse {
    pub name: String,
    pub symbol: String,
}

/// The contract's name alone.
#[derive(Debug, Clone, PartialEq, Eq)]
pub struct NameResponse {
    pub name: String,
}

/// The contract's symbol alone.
#[derive(Debug, Clone, PartialEq, Eq)]
pub struct SymbolResponse {
    pub symbol: String,
}

/// The owner of one token.
#[derive(Debug, Clone, PartialEq, Eq)]
pub struct OwnerOfResponse {
    pub owner: String,
}

/// One coin of a fee; the signable document always carries an empty list of
/// these.
#[derive(Debug, Clone, PartialEq, Eq)]
pub struct Coin {
    pub denom: String,
    pub amount: String,
}

/// The fee block of the signable document: zero gas, no coins.
#[derive(Debug, Clone, PartialEq, Eq)]
pub struct Fee {
    pub gas: String,
    pub amount: Vec<Coin>,
}

/// The payload of an arbitrary-data signing message: who signs, and over
/// which bytes.
#[derive(Debug, Clone, PartialEq, Eq)]
pub struct MsgSignDataValue {
    pub signer: String,
    pub data: Vec<u8>,
}

/// One arbitrary-data signing message.
#[derive(Debug, Clone, PartialEq, Eq)]
pub struct MsgSignData {
    /// The message's type tag, always "sign/MsgSignData".
    pub msg_type: String,
    pub value: MsgSignDataValue,
}

/// The signable document of the chain's arbitrary-data signing convention:
/// account fields are zeroed so the signature binds nothing but the data.
#[derive(Debug, Clone, PartialEq, Eq)]
pub struct ADR36SignDoc {
    pub chain_id: String,
    pub account_number: String,
    pub sequence: String,
    pub fee: Fee,
    pub msgs: Vec<MsgSignData>,
    pub memo: String,
}

} // verus!
