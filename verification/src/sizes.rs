//! The buffer sizes that the key bundle and its primitive provider agree on.

use vstd::prelude::*;

verus! {

/// Bytes in a seed.
pub const SEED_SIZE: usize = 32;

/// Bytes in a detached signature.
pub const SIGNATURE_SIZE: usize = 64;

/// Bytes in a signing public key, before it is encoded as an identifier.
pub const SIGN_PUBLIC_KEY_SIZE: usize = 32;

/// Bytes in a signing private key.
pub const SIGN_SECRET_KEY_SIZE: usize = 64;

/// Bytes in an encrypting public key, before it is encoded.
pub const ENC_PUBLIC_KEY_SIZE: usize = 32;

/// Bytes in an encrypting private key.
pub const ENC_SECRET_KEY_SIZE: usize = 32;

/// Bytes that the authentication tag adds to a sealed message.
pub const AEAD_TAG_SIZE: usize = 16;

/// Bytes in the nonce that is stored in front of a sealed message.
pub const AEAD_NONCE_SIZE: usize = 24;

/// Length of the ciphertext that belongs to a plaintext of `plain_len` bytes:
/// the nonce, the plaintext and the tag.
pub open spec fn ciphertext_len(plain_len: nat) -> nat {
    plain_len + AEAD_TAG_SIZE as nat + AEAD_NONCE_SIZE as nat
}

} // verus!
