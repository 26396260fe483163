//! A non-transferable token ledger whose issuance asks for cryptographically
//! verified mutual consent: an agreement digest is built over the two parties
//! and the token URI, a public key is recovered from a signature over that
//! digest, a chain address is derived from the key, and the token is minted
//! only when that address is the expected counter-party.

pub mod contract;
pub mod crypto;
pub mod error;
pub mod laws;
pub mod msg;
pub mod state;
