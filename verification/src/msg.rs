//! The closed set of requests the ledger answers: one initialization message,
//! one tagged union of mutating operations and one of read-only queries.

use vstd::prelude::*;

use crate::state::{ContractInfoResponse, NftInfo, NftInfoV, NumNftsResponse, OwnerOfResponse,
    nfts_view};

verus! {

/// What initialization takes.
#[derive(Debug, Clone, PartialEq, Eq)]
pub struct InstantiateMsg {
    /// Name of the token collection.
    pub name: String,
    /// Symbol of the token collection.
    pub symbol: String,
    /// The only address permitted to mint directly and to revoke.
    pub minter: String,
}

/// A mutating operation.
#[derive(Debug, Clone, PartialEq, Eq)]
pub enum ExecuteMsg {
    /// The minter mints a token with an explicit id, owner and URI; no
    /// signature is required on this administrative path.
    Mint { nft_id: String, owner: String, nft_uri: String },
    /// The minter gives a token to `to`; the signature must prove that `to`
    /// consented to receive it.
    Give { to: String, uri: String, signature: Vec<u8> },
    /// The caller takes a token from the minter `from`; the signature must
    /// prove that the minter consented to hand it out.
    Take { from: String, uri: String, signature: Vec<u8> },
    /// The owner removes the token from its active set.
    UnEquip { nft_id: String },
    /// The owner returns the token to its active set.
    Equip { nft_id: String },
    /// The minter revokes the token: it stays in the ledger but leaves both
    /// filtered enumerations for good.
    UnAdmit { nft_id: String },
}

/// The mathematical value of a mutating operation.
pub ghost enum ExecuteMsgV {
    Mint { nft_id: Seq<char>, owner: Seq<char>, nft_uri: Seq<char> },
    Give { to: Seq<char>, uri: Seq<char>, signature: Seq<u8> },
    Take { from: Seq<char>, uri: Seq<char>, signature: Seq<u8> },
    UnEquip { nft_id: Seq<char> },
    Equip { nft_id: Seq<char> },
    UnAdmit { nft_id: Seq<char> },
}

impl View for ExecuteMsg {
    type V = ExecuteMsgV;

    open spec fn view(&self) -> ExecuteMsgV {
        match self {
            ExecuteMsg::Mint { nft_id, owner, nft_uri } => ExecuteMsgV::Mint {
                nft_id: nft_id@,
                owner: owner@,
                nft_uri: nft_uri@,
            },
            ExecuteMsg::Give { to, uri, signature } => ExecuteMsgV::Give {
                to: to@,
                uri: uri@,
                signature: signature@,
            },
            ExecuteMsg::Take { from, uri, signature } => ExecuteMsgV::Take {
                from: from@,
                uri: uri@,
                signature: signature@,
            },
            ExecuteMsg::UnEquip { nft_id } => ExecuteMsgV::UnEquip { nft_id: nft_id@ },
            ExecuteMsg::Equip { nft_id } => ExecuteMsgV::Equip { nft_id: nft_id@ },
            ExecuteMsg::UnAdmit { nft_id } => ExecuteMsgV::UnAdmit { nft_id: nft_id@ },
        }
    }
}

/// A read-only query.
#[derive(Debug, Clone, PartialEq, Eq)]
pub enum QueryMsg {
    /// Top-level metadata: name and symbol.
    ContractInfo {},
    /// Total number of tokens ever minted.
    NumNfts {},
    /// The owner of the given token; an error if it does not exist.
    OwnerOf { nft_id: String },
    /// The full record of the given token; an error if it does not exist.
    NftInfo { nft_id: String },
    /// Every token of the owner that is equipped and not revoked.
    AllEquippedNftOf { owner: String },
    /// Every token of the owner that is unequipped and not revoked.
    AllUnequippedNftOf { owner: String },
}

/// The mathematical value of a query.
pub ghost enum QueryMsgV {
    ContractInfo,
    NumNfts,
    OwnerOf { nft_id: Seq<char> },
    NftInfo { nft_id: Seq<char> },
    AllEquippedNftOf { owner: Seq<char> },
    AllUnequippedNftOf { owner: Seq<char> },
}

impl View for QueryMsg {
    type V = QueryMsgV;

    open spec fn view(&self) -> QueryMsgV {
        match self {
            QueryMsg::ContractInfo {  } => QueryMsgV::ContractInfo,
            QueryMsg::NumNfts {  } => QueryMsgV::NumNfts,
            QueryMsg::OwnerOf { nft_id } => QueryMsgV::OwnerOf { nft_id: nft_id@ },
            QueryMsg::NftInfo { nft_id } => QueryMsgV::NftInfo { nft_id: nft_id@ },
            QueryMsg::AllEquippedNftOf { owner } => QueryMsgV::AllEquippedNftOf { owner: owner@ },
            QueryMsg::AllUnequippedNftOf { owner } => QueryMsgV::AllUnequippedNftOf {
                owner: owner@,
            },
        }
    }
}

/// What a query answers with.
#[derive(Debug, Clone, PartialEq, Eq)]
pub enum QueryResponse {
    ContractInfo(ContractInfoResponse),
    NumNfts(NumNftsResponse),
    OwnerOf(OwnerOfResponse),
    NftInfo(NftInfo),
    Nfts(Vec<NftInfo>),
}

/// The mathematical value of a query's answer.
pub ghost enum QueryResponseV {
    ContractInfo { name: Seq<char>, symbol: Seq<char> },
    NumNfts { count: nat },
    OwnerOf { owner: Seq<char> },
    NftInfo(NftInfoV),
    Nfts(Seq<NftInfoV>),
}

impl View for QueryResponse {
    type V = QueryResponseV;

    open spec fn view(&self) -> QueryResponseV {
        match self {
            QueryResponse::ContractInfo(info) => QueryResponseV::ContractInfo {
                name: info.name@,
                symbol: info.symbol@,
            },
            QueryResponse::NumNfts(n) => QueryResponseV::NumNfts { count: n.count as nat },
            QueryResponse::OwnerOf(o) => QueryResponseV::OwnerOf { owner: o.owner@ },
            QueryResponse::NftInfo(n) => QueryResponseV::NftInfo(n@),
            QueryResponse::Nfts(nfts) => QueryResponseV::Nfts(nfts_view(nfts@)),
        }
    }
}

} // verus!
