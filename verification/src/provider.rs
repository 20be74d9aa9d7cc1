//! What passes between the key bundle and the primitive provider.
//!
//! A request tells the provider which primitive to run, on which key and
//! message, and how long each output buffer has to be. The provider's answer
//! comes back as plain bytes; `None` stands for a primitive that failed.

use crate::secret::SecretBuf;
use vstd::prelude::*;

verus! {

/// The two kinds of key pair in a bundle.
#[derive(Clone, Copy, Debug, PartialEq, Eq, Structural)]
pub enum KeyKind {
    /// A pair for signing and verifying.
    Signing,
    /// A pair for authenticated encryption.
    Encrypting,
}

/// Asks for the key pair of one kind that belongs to a seed.
pub struct DeriveRequest<'a> {
    /// Which derivation to run.
    pub kind: KeyKind,
    /// The seed to derive from.
    pub seed: &'a SecretBuf,
    /// Length of the buffer for the public key.
    pub public_len: usize,
    /// Length of the buffer for the private key.
    pub secret_len: usize,
}

/// Key material as the provider hands it back from one derivation.
pub struct RawKeyPair {
    /// The public key, not yet encoded.
    pub public: Vec<u8>,
    /// The private key.
    pub secret: SecretBuf,
}

/// What the contracts see of a [`RawKeyPair`].
pub struct RawKeyPairView {
    pub public: Seq<u8>,
    pub secret: Seq<u8>,
}

impl View for RawKeyPair {
    type V = RawKeyPairView;

    open spec fn view(&self) -> RawKeyPairView {
        RawKeyPairView { public: self.public@, secret: self.secret@ }
    }
}

/// What the contracts see of a provider's answer to a [`DeriveRequest`].
pub open spec fn raw_view(reply: Option<RawKeyPair>) -> Option<RawKeyPairView> {
    match reply {
        Some(raw) => Some(raw@),
        None => None,
    }
}

/// Asks for a detached signature over a message.
pub struct SignRequest<'a> {
    /// The signing private key.
    pub secret_key: &'a SecretBuf,
    /// The message to sign.
    pub message: &'a SecretBuf,
    /// Length of the buffer for the signature.
    pub signature_len: usize,
}

/// Asks whether a signature belongs to a message under a public key.
pub struct VerifyRequest<'a> {
    /// The identifier of the signing public key.
    pub public: &'a String,
    /// The message that was signed.
    pub message: &'a SecretBuf,
    /// The signature to check.
    pub signature: &'a SecretBuf,
}

/// Asks for a message to be sealed under a fresh nonce.
pub struct SealRequest<'a> {
    /// The encrypting private key.
    pub key: &'a SecretBuf,
    /// The message to seal.
    pub message: &'a SecretBuf,
    /// Length of the nonce to draw.
    pub nonce_len: usize,
    /// Length of the buffer for the sealed message: the message and its tag.
    pub sealed_len: usize,
}

/// A sealed message together with the nonce it was sealed under.
pub struct SealReply {
    /// The nonce that the provider drew.
    pub nonce: Vec<u8>,
    /// The encrypted message followed by its tag.
    pub sealed: Vec<u8>,
}

/// What the contracts see of a [`SealReply`].
pub struct SealReplyView {
    pub nonce: Seq<u8>,
    pub sealed: Seq<u8>,
}

impl View for SealReply {
    type V = SealReplyView;

    open spec fn view(&self) -> SealReplyView {
        SealReplyView { nonce: self.nonce@, sealed: self.sealed@ }
    }
}

/// What the contracts see of a provider's answer to a [`SealRequest`].
pub open spec fn seal_view(reply: Option<SealReply>) -> Option<SealReplyView> {
    match reply {
        Some(sealed) => Some(sealed@),
        None => None,
    }
}

/// Asks for a sealed message to be opened.
pub struct OpenRequest<'a> {
    /// The encrypting private key.
    pub key: &'a SecretBuf,
    /// The nonce that stands in front of the ciphertext.
    pub nonce: Vec<u8>,
    /// The encrypted message followed by its tag.
    pub sealed: Vec<u8>,
    /// Length of the buffer for the plaintext.
    pub plain_len: usize,
}

/// What the contracts see of secret bytes that the provider may have handed
/// back.
pub open spec fn secret_view(reply: Option<SecretBuf>) -> Option<Seq<u8>> {
    match reply {
        Some(buf) => Some(buf@),
        None => None,
    }
}

} // verus!
