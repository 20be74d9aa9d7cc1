//! A key bundle: one signing key pair and one encrypting key pair that
//! stand for a single identity.
//!
//! The cryptographic primitives themselves (seeded key derivation, signing,
//! signature verification, authenticated encryption) are run by a provider
//! outside this crate. For every operation the crate says what the provider
//! is to be asked, as a request that names the key and the buffer sizes, and
//! then checks and assembles what the provider handed back.

pub mod codec;
pub mod error;
pub mod key_bundle;
pub mod keypair;
pub mod laws;
pub mod provider;
pub mod secret;
pub mod seed;
pub mod sizes;
