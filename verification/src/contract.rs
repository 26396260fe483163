//! The ledger's operations: the consent-verification protocol, the issuance
//! paths that it gates, the per-token lifecycle transitions and the read-only
//! query surface. Every public function's effect is pinned down against the
//! spec-level transition functions defined here.

use vstd::prelude::*;
use vstd::string::StringExecFns;

use crate::crypto::{addr_valid, addr_validate, bech32_of, bech32_encode, hex_of,
    ripemd160_digest, ripemd160_of, secp256k1_recover, secp256k1_recovered_key, sha256_digest,
    sha256_of, to_hex, valid_hrp};
use crate::error::ContractError;
use crate::msg::{ExecuteMsg, ExecuteMsgV, InstantiateMsg, QueryMsg, QueryMsgV, QueryResponse,
    QueryResponseV};
use crate::state::{ADR36SignDoc, Attribute, AttrV, Aura4973, ContractInfoResponse, Fee,
    MsgSignData, MsgSignDataValue, NameResponse, NftInfo, NftInfoV, NumNftsResponse,
    OwnerOfResponse, Response, StateV, SymbolResponse, equipped_of, has_nft, nft_at, nft_idx,
    nfts_view, unequipped_of, wf_nfts};

verus! {

/// The fixed schema string the agreement digest starts with: it names the
/// three logical fields of the agreement.
pub open spec fn agreement_chars() -> Seq<char> {
    "Agreement(address active,address passive,string tokenURI)"@
}

/// The human-readable network prefix of chain addresses.
pub open spec fn hrp_chars() -> Seq<char> {
    "aura"@
}

/// The agreement digest: SHA-256 over the schema string followed by the
/// active address, the passive address and the token URI, in that order.
pub open spec fn digest_of(active: Seq<char>, passive: Seq<char>, uri: Seq<char>) -> Seq<u8> {
    sha256_of(vstd::utf8::encode_utf8(agreement_chars() + active + passive + uri))
}

/// The chain address derived from a public key: RIPEMD-160 of SHA-256 of the
/// key bytes, rendered as Bech32 text under the given prefix.
pub open spec fn address_of_key(hrp: Seq<char>, pubkey: Seq<u8>) -> Seq<char> {
    bech32_of(hrp, ripemd160_of(sha256_of(pubkey)))
}

/// The outcome of the consent check: the id of the token to mint, when the
/// signature over the agreement digest recovers to a key whose derived chain
/// address is exactly the passive party; `None` for a malformed signature,
/// a signature that recovers to no key, or a derived-address mismatch.
///
/// The token id is the hexadecimal text of the SHA-256 digest of the
/// agreement digest itself, so it is reproducible only from the same
/// agreement. The recovery parameter is fixed at 1.
pub open spec fn consent_id(
    active: Seq<char>,
    passive: Seq<char>,
    uri: Seq<char>,
    signature: Seq<u8>,
) -> Option<Seq<char>> {
    let digest = digest_of(active, passive, uri);
    match secp256k1_recovered_key(digest, signature, 1) {
        Option::None => Option::None,
        Option::Some(pk) => if address_of_key(hrp_chars(), pk) == passive {
            Option::Some(hex_of(sha256_of(digest)))
        } else {
            Option::None
        },
    }
}

/// The network prefix is one the Bech32 encoder always accepts.
pub proof fn lemma_hrp_valid()
    ensures
        valid_hrp(hrp_chars()),
{
    reveal_strlit("aura");
    assert(hrp_chars().len() == 4);
    assert forall|i: int| 0 <= i < hrp_chars().len() implies 33 <= #[trigger] (
    hrp_chars()[i] as u32) <= 126 && !(65 <= hrp_chars()[i] as u32 <= 90) by {
        if i == 0 {
            assert(hrp_chars()[0] == 'a');
        } else if i == 1 {
            assert(hrp_chars()[1] == 'u');
        } else if i == 2 {
            assert(hrp_chars()[2] == 'r');
        } else {
            assert(hrp_chars()[3] == 'a');
        }
    }
}

impl Aura4973 {
    /// Build the agreement digest for an (active, passive, uri) triple.
    pub fn _get_hash(active: &String, passive: &String, uri: &String) -> (r: Vec<u8>)
        ensures
            r@ == digest_of(active@, passive@, uri@),
            r@.len() == 32,
    {
        let mut s = String::from_str(
            "Agreement(address active,address passive,string tokenURI)",
        );
        s.append(active.as_str());
        s.append(passive.as_str());
        s.append(uri.as_str());
        sha256_digest(s.as_str().as_bytes())
    }

    /// Derive the chain address of a public key under the given prefix.
    fn _get_bech32_address(&self, hrp: &str, pubkey: Vec<u8>) -> (r: Result<String, ContractError>)
        ensures
            valid_hrp(hrp@) ==> r is Ok,
            r is Ok ==> r.unwrap()@ == address_of_key(hrp@, pubkey@),
    {
        let pk_hash = sha256_digest(pubkey.as_slice());
        let rip = ripemd160_digest(pk_hash.as_slice());
        match bech32_encode(hrp, &rip) {
            Ok(addr) => Ok(addr),
            Err(m) => Err(ContractError::Hrp(m)),
        }
    }

    /// Run the consent check and, when it passes, hand back the token id it
    /// fixes. A malformed signature, a signature no key can be recovered
    /// from, and a recovered key whose address is not the passive party all
    /// come back as `None`, never as a crash.
    fn _safe_check_agreement(
        &self,
        active: &String,
        passive: &String,
        uri: &String,
        signature: &Vec<u8>,
    ) -> (r: Option<String>)
        ensures
            match consent_id(active@, passive@, uri@, signature@) {
                Option::Some(id) => r is Some && r.unwrap()@ == id,
                Option::None => r is None,
            },
    {
        let hash = Self::_get_hash(active, passive, uri);
        match secp256k1_recover(&hash, signature, 1) {
            Option::None => None,
            Option::Some(pubkey) => {
                match self._get_bech32_address("aura", pubkey) {
                    Result::Err(_) => {
                        proof {
                            lemma_hrp_valid();
                        }
                        None
                    },
                    Result::Ok(signer_address) => {
                        if signer_address == *passive {
                            let digest2 = sha256_digest(hash.as_slice());
                            Some(to_hex(&digest2))
                        } else {
                            None
                        }
                    },
                }
            },
        }
    }
}

// ---------------------------------------------------------------------------
// The spec-level transitions. Each mutating operation of the ledger is the
// image of one of these, and every executable method's contract says exactly
// that: on the Ok outcome the new state and the reported attributes are the
// transition's, on the Err outcome the state is unchanged and the error is
// the transition's.
// ---------------------------------------------------------------------------

/// The attributes an operation reports: its action, the token id, and the
/// party it concerned.
pub open spec fn op_attrs(
    action: Seq<char>,
    id: Seq<char>,
    party_key: Seq<char>,
    party: Seq<char>,
) -> Seq<AttrV> {
    seq![
        AttrV { key: "action"@, value: action },
        AttrV { key: "nft_id"@, value: id },
        AttrV { key: party_key, value: party },
    ]
}

/// The attributes a successful mint reports.
pub open spec fn mint_attrs(id: Seq<char>, owner: Seq<char>) -> Seq<AttrV> {
    op_attrs("mint"@, id, "owner"@, owner)
}

/// Initialization: the authority address must pass validation; the ledger
/// starts empty with a zero counter.
pub open spec fn spec_instantiate(name: Seq<char>, symbol: Seq<char>, minter: Seq<char>) -> Result<
    StateV,
    ContractError,
> {
    if !addr_valid(minter) {
        Err(ContractError::InvalidAddress {})
    } else {
        Ok(
            StateV {
                name,
                symbol,
                minter,
                nft_count: 0,
                nfts: Seq::<NftInfoV>::empty(),
            },
        )
    }
}

/// Insertion into the ledger, shared by all three issuance paths: the owner
/// must pass address validation and the id must be fresh; then the record is
/// appended equipped and unrevoked, and the counter steps by exactly one.
pub open spec fn spec_insert(v: StateV, id: Seq<char>, owner: Seq<char>, uri: Seq<char>) -> Result<
    (StateV, Seq<AttrV>),
    ContractError,
> {
    if !addr_valid(owner) {
        Err(ContractError::InvalidAddress {})
    } else if has_nft(v.nfts, id) {
        Err(ContractError::NftAlreadyMinted {})
    } else {
        Ok(
            (
                StateV {
                    nft_count: v.nft_count + 1,
                    nfts: v.nfts.push(
                        NftInfoV { id, owner, nft_uri: uri, equiped: true, revoked: false },
                    ),
                    ..v
                },
                mint_attrs(id, owner),
            ),
        )
    }
}

/// The administrative issuance path: only the minter may call it, and no
/// signature is asked for.
pub open spec fn spec_mint(
    v: StateV,
    sender: Seq<char>,
    id: Seq<char>,
    owner: Seq<char>,
    uri: Seq<char>,
) -> Result<(StateV, Seq<AttrV>), ContractError> {
    if sender != v.minter {
        Err(ContractError::Unauthorized {})
    } else {
        spec_insert(v, id, owner, uri)
    }
}

/// The give path: the minter is the active party and must be the caller; the
/// signature must prove the recipient's consent, or the whole operation is
/// refused with no change.
pub open spec fn spec_give(
    v: StateV,
    sender: Seq<char>,
    to: Seq<char>,
    uri: Seq<char>,
    signature: Seq<u8>,
) -> Result<(StateV, Seq<AttrV>), ContractError> {
    if sender != v.minter {
        Err(ContractError::Unauthorized {})
    } else {
        match consent_id(v.minter, to, uri, signature) {
            Option::None => Err(ContractError::To {}),
            Option::Some(id) => spec_insert(v, id, to, uri),
        }
    }
}

/// The take path: the caller is the active party; the named counter-party
/// must validate and be the minter, and the signature must prove the
/// minter's consent.
pub open spec fn spec_take(
    v: StateV,
    sender: Seq<char>,
    from: Seq<char>,
    uri: Seq<char>,
    signature: Seq<u8>,
) -> Result<(StateV, Seq<AttrV>), ContractError> {
    if !addr_valid(from) {
        Err(ContractError::InvalidAddress {})
    } else if from != v.minter {
        Err(ContractError::Unauthorized {})
    } else {
        match consent_id(sender, from, uri, signature) {
            Option::None => Err(ContractError::From {}),
            Option::Some(id) => spec_insert(v, id, sender, uri),
        }
    }
}

/// Unequip: only the owner, and only from the equipped state.
pub open spec fn spec_unequip(v: StateV, sender: Seq<char>, id: Seq<char>) -> Result<
    (StateV, Seq<AttrV>),
    ContractError,
> {
    if !has_nft(v.nfts, id) {
        Err(ContractError::NftNotFound {})
    } else {
        let n = nft_at(v.nfts, id);
        if n.owner != sender {
            Err(ContractError::Unauthorized {})
        } else if !n.equiped {
            Err(ContractError::NftAlreadyUnequipped {})
        } else {
            Ok(
                (
                    StateV {
                        nfts: v.nfts.update(
                            nft_idx(v.nfts, id),
                            NftInfoV { equiped: false, ..n },
                        ),
                        ..v
                    },
                    op_attrs("unequip"@, id, "owner"@, sender),
                ),
            )
        }
    }
}

/// Equip: only the owner, and only from the unequipped state.
pub open spec fn spec_equip(v: StateV, sender: Seq<char>, id: Seq<char>) -> Result<
    (StateV, Seq<AttrV>),
    ContractError,
> {
    if !has_nft(v.nfts, id) {
        Err(ContractError::NftNotFound {})
    } else {
        let n = nft_at(v.nfts, id);
        if n.owner != sender {
            Err(ContractError::Unauthorized {})
        } else if n.equiped {
            Err(ContractError::NftAlreadyEquipped {})
        } else {
            Ok(
                (
                    StateV {
                        nfts: v.nfts.update(nft_idx(v.nfts, id), NftInfoV { equiped: true, ..n }),
                        ..v
                    },
                    op_attrs("equip"@, id, "owner"@, sender),
                ),
            )
        }
    }
}

/// Revocation: only the minter, and only once per token. There is no
/// transition out of the revoked state.
pub open spec fn spec_unadmit(v: StateV, sender: Seq<char>, id: Seq<char>) -> Result<
    (StateV, Seq<AttrV>),
    ContractError,
> {
    if sender != v.minter {
        Err(ContractError::NotMinter {})
    } else if !has_nft(v.nfts, id) {
        Err(ContractError::NftNotFound {})
    } else {
        let n = nft_at(v.nfts, id);
        if n.revoked {
            Err(ContractError::NftAlreadyUnadmitted {})
        } else {
            Ok(
                (
                    StateV {
                        nfts: v.nfts.update(nft_idx(v.nfts, id), NftInfoV { revoked: true, ..n }),
                        ..v
                    },
                    op_attrs("unadmit"@, id, "minter"@, sender),
                ),
            )
        }
    }
}

/// Dispatch over the closed set of mutating operations.
pub open spec fn spec_execute(v: StateV, sender: Seq<char>, msg: ExecuteMsgV) -> Result<
    (StateV, Seq<AttrV>),
    ContractError,
> {
    match msg {
        ExecuteMsgV::Mint { nft_id, owner, nft_uri } => spec_mint(v, sender, nft_id, owner, nft_uri),
        ExecuteMsgV::Give { to, uri, signature } => spec_give(v, sender, to, uri, signature),
        ExecuteMsgV::Take { from, uri, signature } => spec_take(v, sender, from, uri, signature),
        ExecuteMsgV::UnEquip { nft_id } => spec_unequip(v, sender, nft_id),
        ExecuteMsgV::Equip { nft_id } => spec_equip(v, sender, nft_id),
        ExecuteMsgV::UnAdmit { nft_id } => spec_unadmit(v, sender, nft_id),
    }
}

/// Find the position of a token by id.
fn find_nft(nfts: &Vec<NftInfo>, id: &String) -> (r: Option<usize>)
    ensures
        match r {
            Option::Some(i) => i < nfts@.len() && nfts_view(nfts@)[i as int].id == id@ && has_nft(
                nfts_view(nfts@),
                id@,
            ),
            Option::None => !has_nft(nfts_view(nfts@), id@),
        },
{
    let n = nfts.len();
    for i in 0..n
        invariant
            n == nfts@.len(),
            forall|j: int| 0 <= j < i ==> #[trigger] nfts_view(nfts@)[j].id != id@,
    {
        if nfts[i].id == *id {
            return Some(i);
        }
    }
    None
}

/// Build the attribute list an operation reports.
fn make_response(action: &str, nft_id: String, party_key: &str, party: String) -> (r: Response)
    ensures
        r@ == op_attrs(action@, nft_id@, party_key@, party@),
{
    let mut attributes: Vec<Attribute> = Vec::new();
    attributes.push(
        Attribute { key: String::from_str("action"), value: String::from_str(action) },
    );
    attributes.push(Attribute { key: String::from_str("nft_id"), value: nft_id });
    attributes.push(Attribute { key: String::from_str(party_key), value: party });
    let r = Response { attributes };
    proof {
        assert(r@ =~~= op_attrs(action@, nft_id@, party_key@, party@));
    }
    r
}

impl Aura4973 {
    /// Initialize a fresh ledger: set the metadata, validate and register the
    /// authority, zero the counter.
    pub fn instantiate(msg: InstantiateMsg) -> (r: Result<(Aura4973, Response), ContractError>)
        ensures
            match spec_instantiate(msg.name@, msg.symbol@, msg.minter@) {
                Ok(v) => r is Ok && r.unwrap().0@ == v && r.unwrap().0.wf() && r.unwrap().1@
                    == Seq::<AttrV>::empty(),
                Err(e) => r == Err::<(Aura4973, Response), ContractError>(e),
            },
    {
        let minter = match addr_validate(msg.minter.as_str()) {
            Option::None => {
                return Err(ContractError::InvalidAddress {});
            },
            Option::Some(a) => a,
        };
        let contract_info = ContractInfoResponse { name: msg.name, symbol: msg.symbol };
        let state = Aura4973::new_state(contract_info, minter);
        Ok((state, Response::default()))
    }

    /// Apply one mutating operation.
    pub fn execute(&mut self, sender: String, msg: ExecuteMsg) -> (r: Result<
        Response,
        ContractError,
    >)
        requires
            old(self).wf(),
            old(self)@.nft_count < u64::MAX,
        ensures
            final(self).wf(),
            match spec_execute(old(self)@, sender@, msg@) {
                Ok((v2, attrs)) => r is Ok && final(self)@ == v2 && r.unwrap()@ == attrs,
                Err(e) => r == Err::<Response, ContractError>(e) && final(self)@ == old(self)@,
            },
    {
        match msg {
            ExecuteMsg::Mint { nft_id, owner, nft_uri } => self.execute_mint(
                sender,
                nft_id,
                owner,
                nft_uri,
            ),
            ExecuteMsg::Give { to, uri, signature } => self.execute_give(sender, to, uri, signature),
            ExecuteMsg::Take { from, uri, signature } => self.execute_take(
                sender,
                from,
                uri,
                signature,
            ),
            ExecuteMsg::UnEquip { nft_id } => self.execute_unequip(sender, nft_id),
            ExecuteMsg::Equip { nft_id } => self.execute_equip(sender, nft_id),
            ExecuteMsg::UnAdmit { nft_id } => self.execute_unadmit(sender, nft_id),
        }
    }

    /// The administrative issuance path: the minter names id, owner and URI.
    pub fn execute_mint(
        &mut self,
        sender: String,
        nft_id: String,
        owner: String,
        nft_uri: String,
    ) -> (r: Result<Response, ContractError>)
        requires
            old(self).wf(),
            old(self)@.nft_count < u64::MAX,
        ensures
            final(self).wf(),
            match spec_mint(old(self)@, sender@, nft_id@, owner@, nft_uri@) {
                Ok((v2, attrs)) => r is Ok && final(self)@ == v2 && r.unwrap()@ == attrs,
                Err(e) => r == Err::<Response, ContractError>(e) && final(self)@ == old(self)@,
            },
    {
        if !(sender == *self.minter_ref()) {
            return Err(ContractError::Unauthorized {});
        }
        self._mint(nft_id, owner, nft_uri)
    }

    /// The give path: the minter hands a token to `to`, who must have signed
    /// the agreement.
    pub fn execute_give(
        &mut self,
        sender: String,
        to: String,
        uri: String,
        signature: Vec<u8>,
    ) -> (r: Result<Response, ContractError>)
        requires
            old(self).wf(),
            old(self)@.nft_count < u64::MAX,
        ensures
            final(self).wf(),
            match spec_give(old(self)@, sender@, to@, uri@, signature@) {
                Ok((v2, attrs)) => r is Ok && final(self)@ == v2 && r.unwrap()@ == attrs,
                Err(e) => r == Err::<Response, ContractError>(e) && final(self)@ == old(self)@,
            },
    {
        if !(sender == *self.minter_ref()) {
            return Err(ContractError::Unauthorized {});
        }
        let minter = self.minter_ref().clone();
        match self._safe_check_agreement(&minter, &to, &uri, &signature) {
            Option::None => Err(ContractError::To {}),
            Option::Some(nft_id) => self._mint(nft_id, to, uri),
        }
    }

    /// The take path: the caller pulls a token from the minter, who must have
    /// signed the agreement.
    pub fn execute_take(
        &mut self,
        sender: String,
        from: String,
        uri: String,
        signature: Vec<u8>,
    ) -> (r: Result<Response, ContractError>)
        requires
            old(self).wf(),
            old(self)@.nft_count < u64::MAX,
        ensures
            final(self).wf(),
            match spec_take(old(self)@, sender@, from@, uri@, signature@) {
                Ok((v2, attrs)) => r is Ok && final(self)@ == v2 && r.unwrap()@ == attrs,
                Err(e) => r == Err::<Response, ContractError>(e) && final(self)@ == old(self)@,
            },
    {
        let from_addr = match addr_validate(from.as_str()) {
            Option::None => {
                return Err(ContractError::InvalidAddress {});
            },
            Option::Some(a) => a,
        };
        if !(from_addr == *self.minter_ref()) {
            return Err(ContractError::Unauthorized {});
        }
        match self._safe_check_agreement(&sender, &from, &uri, &signature) {
            Option::None => Err(ContractError::From {}),
            Option::Some(nft_id) => self._mint(nft_id, sender, uri),
        }
    }

    /// Commit a new record: validate the owner, refuse a duplicate id, then
    /// write the record and step the counter in one operation.
    pub fn _mint(&mut self, nft_id: String, owner: String, nft_uri: String) -> (r: Result<
        Response,
        ContractError,
    >)
        requires
            old(self).wf(),
            old(self)@.nft_count < u64::MAX,
        ensures
            final(self).wf(),
            match spec_insert(old(self)@, nft_id@, owner@, nft_uri@) {
                Ok((v2, attrs)) => r is Ok && final(self)@ == v2 && r.unwrap()@ == attrs,
                Err(e) => r == Err::<Response, ContractError>(e) && final(self)@ == old(self)@,
            },
    {
        let owner_addr = match addr_validate(owner.as_str()) {
            Option::None => {
                return Err(ContractError::InvalidAddress {});
            },
            Option::Some(a) => a,
        };
        match find_nft(self.nfts_ref(), &nft_id) {
            Option::Some(_) => Err(ContractError::NftAlreadyMinted {}),
            Option::None => {
                let nft = NftInfo {
                    id: nft_id.clone(),
                    owner: owner_addr,
                    nft_uri,
                    equiped: true,
                    revoked: false,
                };
                self.push_nft(nft);
                self.increment_nfts();
                proof {
                    let nv = old(self)@.nfts;
                    let n2 = final(self)@.nfts;
                    assert forall|a: int, b: int| 0 <= a < b < n2.len() implies n2[a].id
                        != n2[b].id by {
                        if b < nv.len() {
                            assert(nv[a].id != nv[b].id);
                        } else {
                            assert(n2[b].id == nft_id@);
                            assert(n2[a] == nv[a]);
                            if nv[a].id == nft_id@ {
                                assert(has_nft(nv, nft_id@));
                            }
                        }
                    }
                }
                Ok(make_response("mint", nft_id, "owner", owner))
            },
        }
    }

    /// The owner takes the token out of its active set.
    pub fn execute_unequip(&mut self, sender: String, nft_id: String) -> (r: Result<
        Response,
        ContractError,
    >)
        requires
            old(self).wf(),
        ensures
            final(self).wf(),
            match spec_unequip(old(self)@, sender@, nft_id@) {
                Ok((v2, attrs)) => r is Ok && final(self)@ == v2 && r.unwrap()@ == attrs,
                Err(e) => r == Err::<Response, ContractError>(e) && final(self)@ == old(self)@,
            },
    {
        match find_nft(self.nfts_ref(), &nft_id) {
            Option::None => Err(ContractError::NftNotFound {}),
            Option::Some(i) => {
                proof {
                    lemma_found_is_nft_idx(old(self)@.nfts, nft_id@, i as int);
                }
                let rec = self.nft_at_idx(i);
                let owner_ok = rec.owner == sender;
                let is_equiped = rec.equiped;
                if !owner_ok {
                    Err(ContractError::Unauthorized {})
                } else if !is_equiped {
                    Err(ContractError::NftAlreadyUnequipped {})
                } else {
                    self.set_equiped(i, false);
                    proof {
                        lemma_update_keeps_wf(old(self)@, final(self)@, i as int);
                    }
                    Ok(make_response("unequip", nft_id, "owner", sender))
                }
            },
        }
    }

    /// The owner returns the token to its active set.
    pub fn execute_equip(&mut self, sender: String, nft_id: String) -> (r: Result<
        Response,
        ContractError,
    >)
        requires
            old(self).wf(),
        ensures
            final(self).wf(),
            match spec_equip(old(self)@, sender@, nft_id@) {
                Ok((v2, attrs)) => r is Ok && final(self)@ == v2 && r.unwrap()@ == attrs,
                Err(e) => r == Err::<Response, ContractError>(e) && final(self)@ == old(self)@,
            },
    {
        match find_nft(self.nfts_ref(), &nft_id) {
            Option::None => Err(ContractError::NftNotFound {}),
            Option::Some(i) => {
                proof {
                    lemma_found_is_nft_idx(old(self)@.nfts, nft_id@, i as int);
                }
                let rec = self.nft_at_idx(i);
                let owner_ok = rec.owner == sender;
                let is_equiped = rec.equiped;
                if !owner_ok {
                    Err(ContractError::Unauthorized {})
                } else if is_equiped {
                    Err(ContractError::NftAlreadyEquipped {})
                } else {
                    self.set_equiped(i, true);
                    proof {
                        lemma_update_keeps_wf(old(self)@, final(self)@, i as int);
                    }
                    Ok(make_response("equip", nft_id, "owner", sender))
                }
            },
        }
    }

    /// The minter revokes the token: it keeps its record but leaves both
    /// filtered enumerations for good.
    pub fn execute_unadmit(&mut self, sender: String, nft_id: String) -> (r: Result<
        Response,
        ContractError,
    >)
        requires
            old(self).wf(),
        ensures
            final(self).wf(),
            match spec_unadmit(old(self)@, sender@, nft_id@) {
                Ok((v2, attrs)) => r is Ok && final(self)@ == v2 && r.unwrap()@ == attrs,
                Err(e) => r == Err::<Response, ContractError>(e) && final(self)@ == old(self)@,
            },
    {
        if !(sender == *self.minter_ref()) {
            return Err(ContractError::NotMinter {});
        }
        match find_nft(self.nfts_ref(), &nft_id) {
            Option::None => Err(ContractError::NftNotFound {}),
            Option::Some(i) => {
                proof {
                    lemma_found_is_nft_idx(old(self)@.nfts, nft_id@, i as int);
                }
                let is_revoked = self.nft_at_idx(i).revoked;
                if is_revoked {
                    Err(ContractError::NftAlreadyUnadmitted {})
                } else {
                    self.set_revoked(i, true);
                    proof {
                        lemma_update_keeps_wf(old(self)@, final(self)@, i as int);
                    }
                    Ok(make_response("unadmit", nft_id, "minter", sender))
                }
            },
        }
    }
}

/// What each read-only query answers on a given ledger.
pub open spec fn spec_query(v: StateV, msg: QueryMsgV) -> Result<QueryResponseV, ContractError> {
    match msg {
        QueryMsgV::ContractInfo => Ok(
            QueryResponseV::ContractInfo { name: v.name, symbol: v.symbol },
        ),
        QueryMsgV::NumNfts => Ok(QueryResponseV::NumNfts { count: v.nft_count }),
        QueryMsgV::OwnerOf { nft_id } => if has_nft(v.nfts, nft_id) {
            Ok(QueryResponseV::OwnerOf { owner: nft_at(v.nfts, nft_id).owner })
        } else {
            Err(ContractError::NftNotFound {})
        },
        QueryMsgV::NftInfo { nft_id } => if has_nft(v.nfts, nft_id) {
            Ok(QueryResponseV::NftInfo(nft_at(v.nfts, nft_id)))
        } else {
            Err(ContractError::NftNotFound {})
        },
        QueryMsgV::AllEquippedNftOf { owner } => Ok(
            QueryResponseV::Nfts(equipped_of(v.nfts, owner)),
        ),
        QueryMsgV::AllUnequippedNftOf { owner } => Ok(
            QueryResponseV::Nfts(unequipped_of(v.nfts, owner)),
        ),
    }
}

/// One step of scanning for unequipped tokens: extending the scanned prefix
/// by one record keeps or drops it according to the filter.
proof fn lemma_unequipped_step(s: Seq<NftInfoV>, owner: Seq<char>, i: int)
    requires
        0 <= i < s.len(),
    ensures
        unequipped_of(s.take(i + 1), owner) == (if s[i].owner == owner && !s[i].equiped
            && !s[i].revoked {
            unequipped_of(s.take(i), owner).push(s[i])
        } else {
            unequipped_of(s.take(i), owner)
        }),
{
    reveal(Seq::filter);
    let t = s.take(i + 1);
    assert(t.len() == i + 1);
    assert(t.drop_last() =~= s.take(i));
    assert(t.last() == s[i]);
}

/// One step of scanning for equipped tokens.
proof fn lemma_equipped_step(s: Seq<NftInfoV>, owner: Seq<char>, i: int)
    requires
        0 <= i < s.len(),
    ensures
        equipped_of(s.take(i + 1), owner) == (if s[i].owner == owner && s[i].equiped
            && !s[i].revoked {
            equipped_of(s.take(i), owner).push(s[i])
        } else {
            equipped_of(s.take(i), owner)
        }),
{
    reveal(Seq::filter);
    let t = s.take(i + 1);
    assert(t.len() == i + 1);
    assert(t.drop_last() =~= s.take(i));
    assert(t.last() == s[i]);
}

/// Copy one record field by field.
fn copy_nft(rec: &NftInfo) -> (r: NftInfo)
    ensures
        r@ == rec@,
{
    NftInfo {
        id: rec.id.clone(),
        owner: rec.owner.clone(),
        nft_uri: rec.nft_uri.clone(),
        equiped: rec.equiped,
        revoked: rec.revoked,
    }
}

impl Aura4973 {
    /// Answer one read-only query.
    pub fn query(&self, msg: QueryMsg) -> (r: Result<QueryResponse, ContractError>)
        requires
            self.wf(),
        ensures
            match spec_query(self@, msg@) {
                Ok(qv) => r is Ok && r.unwrap()@ == qv,
                Err(e) => r == Err::<QueryResponse, ContractError>(e),
            },
    {
        match msg {
            QueryMsg::ContractInfo {  } => Ok(QueryResponse::ContractInfo(self.contract_info())),
            QueryMsg::NumNfts {  } => Ok(QueryResponse::NumNfts(self.num_nfts())),
            QueryMsg::OwnerOf { nft_id } => match self.owner_of(nft_id) {
                Ok(o) => Ok(QueryResponse::OwnerOf(o)),
                Err(e) => Err(e),
            },
            QueryMsg::NftInfo { nft_id } => match self.nft_info(nft_id) {
                Ok(n) => Ok(QueryResponse::NftInfo(n)),
                Err(e) => Err(e),
            },
            QueryMsg::AllEquippedNftOf { owner } => Ok(
                QueryResponse::Nfts(self.all_equipped_nft_of(owner)),
            ),
            QueryMsg::AllUnequippedNftOf { owner } => Ok(
                QueryResponse::Nfts(self.all_unequipped_nft_of(owner)),
            ),
        }
    }

    /// The name/symbol pair set at initialization.
    pub fn contract_info(&self) -> (r: ContractInfoResponse)
        ensures
            r.name@ == self@.name,
            r.symbol@ == self@.symbol,
    {
        let info = self.contract_info_ref();
        ContractInfoResponse { name: info.name.clone(), symbol: info.symbol.clone() }
    }

    /// Total number of tokens ever minted.
    pub fn num_nfts(&self) -> (r: NumNftsResponse)
        ensures
            r.count == self@.nft_count,
    {
        NumNftsResponse { count: self.nft_count() }
    }

    /// The contract's name alone.
    pub fn name(&self) -> (r: NameResponse)
        ensures
            r.name@ == self@.name,
    {
        NameResponse { name: self.contract_info_ref().name.clone() }
    }

    /// The contract's symbol alone.
    pub fn symbol(&self) -> (r: SymbolResponse)
        ensures
            r.symbol@ == self@.symbol,
    {
        SymbolResponse { symbol: self.contract_info_ref().symbol.clone() }
    }

    /// The owner of the token with the given id; an error when it does not
    /// exist.
    pub fn owner_of(&self, nft_id: String) -> (r: Result<OwnerOfResponse, ContractError>)
        requires
            self.wf(),
        ensures
            has_nft(self@.nfts, nft_id@) ==> r is Ok && r.unwrap().owner@ == nft_at(
                self@.nfts,
                nft_id@,
            ).owner,
            !has_nft(self@.nfts, nft_id@) ==> r == Err::<OwnerOfResponse, ContractError>(
                ContractError::NftNotFound {},
            ),
    {
        match find_nft(self.nfts_ref(), &nft_id) {
            Option::None => Err(ContractError::NftNotFound {}),
            Option::Some(i) => {
                proof {
                    lemma_found_is_nft_idx(self@.nfts, nft_id@, i as int);
                }
                Ok(OwnerOfResponse { owner: self.nft_at_idx(i).owner.clone() })
            },
        }
    }

    /// The full record of the token with the given id; an error when it does
    /// not exist.
    pub fn nft_info(&self, nft_id: String) -> (r: Result<NftInfo, ContractError>)
        requires
            self.wf(),
        ensures
            has_nft(self@.nfts, nft_id@) ==> r is Ok && r.unwrap()@ == nft_at(
                self@.nfts,
                nft_id@,
            ),
            !has_nft(self@.nfts, nft_id@) ==> r == Err::<NftInfo, ContractError>(
                ContractError::NftNotFound {},
            ),
    {
        match find_nft(self.nfts_ref(), &nft_id) {
            Option::None => Err(ContractError::NftNotFound {}),
            Option::Some(i) => {
                proof {
                    lemma_found_is_nft_idx(self@.nfts, nft_id@, i as int);
                }
                Ok(copy_nft(self.nft_at_idx(i)))
            },
        }
    }

    /// Every token of the owner that is unequipped and not revoked, in mint
    /// order.
    pub fn all_unequipped_nft_of(&self, owner: String) -> (r: Vec<NftInfo>)
        ensures
            nfts_view(r@) == unequipped_of(self@.nfts, owner@),
    {
        let nfts = self.nfts_ref();
        let ghost s = nfts_view(nfts@);
        let mut out: Vec<NftInfo> = Vec::new();
        let n = nfts.len();
        proof {
            assert(s.take(0) =~= Seq::<NftInfoV>::empty());
            assert(nfts_view(out@) =~= Seq::<NftInfoV>::empty());
        }
        for i in 0..n
            invariant
                n == nfts@.len(),
                s == nfts_view(nfts@),
                s == self@.nfts,
                nfts_view(out@) == unequipped_of(s.take(i as int), owner@),
        {
            let ghost out_before = nfts_view(out@);
            let rec = &nfts[i];
            if !rec.equiped && !rec.revoked && rec.owner == owner {
                out.push(copy_nft(rec));
                proof {
                    assert(nfts_view(out@) =~= out_before.push(s[i as int]));
                }
            }
            proof {
                lemma_unequipped_step(s, owner@, i as int);
            }
        }
        proof {
            assert(s.take(n as int) =~= s);
        }
        out
    }

    /// Every token of the owner that is equipped and not revoked, in mint
    /// order.
    pub fn all_equipped_nft_of(&self, owner: String) -> (r: Vec<NftInfo>)
        ensures
            nfts_view(r@) == equipped_of(self@.nfts, owner@),
    {
        let nfts = self.nfts_ref();
        let ghost s = nfts_view(nfts@);
        let mut out: Vec<NftInfo> = Vec::new();
        let n = nfts.len();
        proof {
            assert(s.take(0) =~= Seq::<NftInfoV>::empty());
            assert(nfts_view(out@) =~= Seq::<NftInfoV>::empty());
        }
        for i in 0..n
            invariant
                n == nfts@.len(),
                s == nfts_view(nfts@),
                s == self@.nfts,
                nfts_view(out@) == equipped_of(s.take(i as int), owner@),
        {
            let ghost out_before = nfts_view(out@);
            let rec = &nfts[i];
            if rec.equiped && !rec.revoked && rec.owner == owner {
                out.push(copy_nft(rec));
                proof {
                    assert(nfts_view(out@) =~= out_before.push(s[i as int]));
                }
            }
            proof {
                lemma_equipped_step(s, owner@, i as int);
            }
        }
        proof {
            assert(s.take(n as int) =~= s);
        }
        out
    }
}

/// In a well-formed ledger the position a search finds is the position the
/// spec-level lookup names.
pub(crate) proof fn lemma_found_is_nft_idx(nfts: Seq<NftInfoV>, id: Seq<char>, i: int)
    requires
        wf_nfts(nfts),
        0 <= i < nfts.len(),
        nfts[i].id == id,
    ensures
        has_nft(nfts, id),
        nft_idx(nfts, id) == i,
        nft_at(nfts, id) == nfts[i],
{
    assert(has_nft(nfts, id));
    let k = nft_idx(nfts, id);
    assert(0 <= k < nfts.len() && nfts[k].id == id);
    if k < i {
        assert(nfts[k].id != nfts[i].id);
    } else if i < k {
        assert(nfts[i].id != nfts[k].id);
    }
}

/// Updating a record in place, with its id unchanged, keeps the ledger
/// well-formed.
proof fn lemma_update_keeps_wf(v: StateV, v2: StateV, i: int)
    requires
        wf_nfts(v.nfts),
        v.nft_count == v.nfts.len(),
        0 <= i < v.nfts.len(),
        v2.nft_count == v.nft_count,
        v2.nfts.len() == v.nfts.len(),
        forall|a: int| 0 <= a < v.nfts.len() ==> #[trigger] v2.nfts[a].id == v.nfts[a].id,
    ensures
        wf_nfts(v2.nfts),
        v2.nft_count == v2.nfts.len(),
{
    assert forall|a: int, b: int| 0 <= a < b < v2.nfts.len() implies v2.nfts[a].id
        != v2.nfts[b].id by {
        assert(v.nfts[a].id != v.nfts[b].id);
    }
}

/// Build the signable document a counter-party is asked to sign over an
/// agreement: a single sign/MsgSignData message with zeroed account fields,
/// as the chain's arbitrary-data signing convention lays it out.
pub fn get_sign_doc(signer: String, data: String, chain_id: String) -> (doc: ADR36SignDoc)
    ensures
        doc.chain_id@ == chain_id@,
        doc.account_number@ == "0"@,
        doc.sequence@ == "0"@,
        doc.fee.gas@ == "0"@,
        doc.fee.amount@.len() == 0,
        doc.memo@ == ""@,
        doc.msgs@.len() == 1,
        doc.msgs@[0].msg_type@ == "sign/MsgSignData"@,
        doc.msgs@[0].value.signer@ == signer@,
        doc.msgs@[0].value.data@ == vstd::utf8::encode_utf8(data@),
{
    let data_bytes = vstd::slice::slice_to_vec(data.as_str().as_bytes());
    let mut msgs: Vec<MsgSignData> = Vec::new();
    msgs.push(
        MsgSignData {
            msg_type: String::from_str("sign/MsgSignData"),
            value: MsgSignDataValue { signer, data: data_bytes },
        },
    );
    ADR36SignDoc {
        chain_id,
        account_number: String::from_str("0"),
        sequence: String::from_str("0"),
        fee: Fee { gas: String::from_str("0"), amount: Vec::new() },
        msgs,
        memo: String::from_str(""),
    }
}

} // verus!
