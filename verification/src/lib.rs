//! One party's side of a two-party threshold ECDSA scheme: distributed key
//! generation, interactive signing, share rotation and child-key derivation.
//!
//! Curve points, scalars and big numbers are held as byte strings, so that
//! every message is a plain value and every contract speaks of its bytes.
//! The group arithmetic, the Paillier cryptosystem and the proof systems are
//! those of the `curv`, `paillier` and `multi_party_ecdsa` crates; each call
//! into them stands behind a function whose contract is believed, not proved.
#![allow(non_snake_case)]

pub mod bytes;
pub mod commitment;
pub mod derive;
pub mod error;
pub mod keygen;
pub mod keygen_calls;
pub mod master_key;
pub mod number;
pub mod ordered;
pub mod point;
mod raw;
pub mod rotation;
pub mod scalar;
pub mod session;
pub mod sign;
pub mod sign_calls;
pub mod types;
