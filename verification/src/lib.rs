//! Key management for a hierarchical-deterministic wallet.
//!
//! A recovery phrase is turned into a seed, the seed into a master extended key,
//! and the master key into child keys along a derivation path; a derived key
//! signs messages, and a vault seals the phrase under a password.
//!
//! The cryptographic primitives come from `bip39`, `bitcoin`, `secp256k1` and
//! `ring`. Module [`primitives`] holds the only code that calls them, together
//! with the names under which the contracts of this crate speak of their results.

pub mod error;
pub mod extended_key;
pub mod hex;
pub mod key_manager;
pub mod mnemonic;
pub mod path;
pub mod primitives;
pub mod signing;
pub mod vault;

pub use error::KeyError;
pub use extended_key::ExtendedKey;
pub use key_manager::KeyManager;
pub use mnemonic::RecoveryPhrase;
pub use path::DerivationPath;
pub use signing::Signature;
