//! Deterministic account derivation and balance bookkeeping for a small
//! read-only wallet.
//!
//! Key pairs come from a seeded generator, addresses are the low twenty bytes
//! of the Keccak-256 digest of a public key, and balances are the low 64 bits
//! of whatever amount a node reports for an address.

pub mod address;
pub mod balance;
pub mod keys;
pub mod refresh;
pub mod wallet;

pub use crate::address::public_key_address;
pub use crate::keys::generate_key_pair;
pub use crate::refresh::updated_with_amount;
pub use crate::wallet::load_wallet;
