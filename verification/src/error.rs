use vstd::prelude::*;

verus! {

/// Every way an operation of the ledger can be refused. No partial state is
/// ever committed when one of these is returned.
#[derive(Debug, PartialEq, Eq, Clone)]
pub enum ContractError {
    /// The caller lacks the role the operation demands.
    Unauthorized {},
    /// The caller of a revocation is not the registered minter.
    NotMinter {},
    /// An unequip was attempted on a token that is already unequipped.
    NftAlreadyUnequipped {},
    /// An equip was attempted on a token that is already equipped.
    NftAlreadyEquipped {},
    /// A revocation was attempted on a token that is already revoked.
    NftAlreadyUnadmitted {},
    /// A mint was attempted with a token id that already exists.
    NftAlreadyMinted {},
    /// The named token id is not in the ledger.
    NftNotFound {},
    /// The host's address validation refused an address string.
    InvalidAddress {},
    /// A give was attempted whose consent check failed: the signature does
    /// not prove that the recipient agreed.
    To {},
    /// A take was attempted whose consent check failed: the signature does
    /// not prove that the authority agreed.
    From {},
    /// The human-readable prefix handed to the address encoder was invalid.
    Hrp(String),
}

} // verus!
