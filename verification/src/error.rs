//! The failures that the key bundle reports.

use vstd::prelude::*;

verus! {

/// Why an operation of the key bundle gave no result.
#[derive(Clone, Copy, Debug, PartialEq, Eq, Structural)]
pub enum KeyError {
    /// No key pair could be made: the seed has the wrong length, the provider
    /// gave no key material or material of the wrong size, or the public key
    /// could not be encoded.
    Derivation,
    /// No signature could be made: the signing key has the wrong length, or
    /// the provider gave no signature or one of the wrong size.
    Signing,
    /// No ciphertext could be made: the encrypting key has the wrong length,
    /// the ciphertext would not fit in memory, or the provider gave no sealed
    /// message or one of the wrong size.
    Encryption,
    /// No plaintext could be recovered: the encrypting key has the wrong
    /// length, the ciphertext is too short to hold a nonce and a tag, or the
    /// provider gave no plaintext or one of the wrong size.
    Decryption,
}

} // verus!
