//! Deterministic derivation of ML-DSA signing keys from a BIP39 seed.
//!
//! One mnemonic gives one 64-byte seed, and that seed gives as many key
//! pairs as there are derivation paths `m/purpose'/coin'/account'/0/index`,
//! at each of the three ML-DSA levels.

use vstd::prelude::*;

pub mod backend_rustcrypto;
pub mod derivation;
pub mod error;
pub mod level;
pub mod primitives;
pub mod text;
pub mod types;

pub use derivation::{derive_keypair, derive_keypair_with_coin, mnemonic_to_seed};
pub use error::Error;
pub use level::MlDsaLevel;
pub use types::{MlDsaKeyPair, MlDsaSignature};

verus! {

/// The coin type that `derive_keypair` puts into the path.
pub const SILICA_COIN_TYPE: u32 = 1337;

} // verus!
