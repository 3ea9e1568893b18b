//! Winternitz One-Time Signature (WOTS) scheme.
//!
//! A hash-chain-based digital signature usable exactly once per key pair.
//! Its security rests solely on the one-wayness of a cryptographic hash
//! function, with no number-theoretic assumptions.
//!
//! Each key pair must be used to sign at most ONE message: revealing two
//! signatures under the same key leaks intermediate chain values and with
//! them private key material.

pub mod hash;
pub mod winternitz;

pub use winternitz::Winternitz;
pub use winternitz::WotsError;
