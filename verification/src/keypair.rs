//! The two key pairs of a bundle.
//!
//! Each pair holds its public key as an identifier string and its private key
//! as secret bytes. The pairs share no interface type, only a pattern: a pair
//! is made from what the provider derived from a seed, it builds the request
//! for each primitive that uses its key, and it checks the provider's answer.

use crate::codec::{encode_encrypting_key, encode_signing_key, encrypting_id, signing_id};
use crate::error::KeyError;
use crate::provider::{
    raw_view, seal_view, secret_view, DeriveRequest, KeyKind, OpenRequest, RawKeyPair,
    RawKeyPairView, SealReply, SealReplyView, SealRequest, SignRequest, VerifyRequest,
};
use crate::secret::SecretBuf;
use crate::sizes::{
    ciphertext_len, AEAD_NONCE_SIZE, AEAD_TAG_SIZE, ENC_PUBLIC_KEY_SIZE, ENC_SECRET_KEY_SIZE, SEED_SIZE,
    SIGNATURE_SIZE, SIGN_PUBLIC_KEY_SIZE, SIGN_SECRET_KEY_SIZE,
};
use vstd::prelude::*;
use vstd::slice::{slice_subrange, slice_to_vec};

verus! {

/// What the contracts see of a key pair: the characters of the public
/// identifier and the bytes of the private key.
pub struct KeyPairView {
    pub public: Seq<char>,
    pub private: Seq<u8>,
}

/// A key pair for signing messages and verifying signatures.
pub struct SigningKeyPair {
    /// The identifier of the public key.
    pub public: String,
    /// The private key.
    pub private: SecretBuf,
}

impl View for SigningKeyPair {
    type V = KeyPairView;

    open spec fn view(&self) -> KeyPairView {
        KeyPairView { public: self.public@, private: self.private@ }
    }
}

/// The signing pair that comes of a provider's answer to a derivation: the
/// public key must have its 32 bytes, the private key its 64, and the public
/// key must have an identifier.
pub open spec fn derived_signing_pair(reply: Option<RawKeyPairView>) -> Option<KeyPairView> {
    match reply {
        Some(raw) => if raw.public.len() == SIGN_PUBLIC_KEY_SIZE && raw.secret.len()
            == SIGN_SECRET_KEY_SIZE {
            match signing_id(raw.public) {
                Some(id) => Some(KeyPairView { public: id, private: raw.secret }),
                None => None,
            }
        } else {
            None
        },
        None => None,
    }
}

/// The signature that comes of a provider's answer to a signing request made
/// with a key whose soundness is `key_ok`: the answer itself, if it has the
/// length of a signature.
pub open spec fn accepted_signature(key_ok: bool, reply: Option<Seq<u8>>) -> Option<Seq<u8>> {
    match reply {
        Some(signature) => if key_ok && signature.len() == SIGNATURE_SIZE {
            Some(signature)
        } else {
            None
        },
        None => None,
    }
}

/// The outcome of a verification: a signature is valid if it has the length
/// of a signature and the provider accepted it.
pub open spec fn verdict(signature_len: nat, accepted: bool) -> bool {
    signature_len == SIGNATURE_SIZE && accepted
}

impl SigningKeyPair {
    /// A pair is sound if its private key has the length of a signing key.
    pub open spec fn wf(&self) -> bool {
        self.private@.len() == SIGN_SECRET_KEY_SIZE
    }

    /// Puts a public identifier and a private key together. Nothing is
    /// checked: the two need not belong together.
    pub fn new(public: String, private: SecretBuf) -> (pair: SigningKeyPair)
        ensures
            pair.public == public,
            pair.private == private,
    {
        SigningKeyPair { public, private }
    }

    /// What to ask the provider in order to derive this kind of pair from
    /// `seed`.
    pub fn derive_request(seed: &SecretBuf) -> (request: DeriveRequest<'_>)
        requires
            seed@.len() == SEED_SIZE,
        ensures
            request.kind == KeyKind::Signing,
            request.seed == seed,
            request.public_len == SIGN_PUBLIC_KEY_SIZE,
            request.secret_len == SIGN_SECRET_KEY_SIZE,
    {
        DeriveRequest {
            kind: KeyKind::Signing,
            seed,
            public_len: SIGN_PUBLIC_KEY_SIZE,
            secret_len: SIGN_SECRET_KEY_SIZE,
        }
    }

    /// Makes the pair from the provider's answer to [`Self::derive_request`].
    pub fn new_from_seed(seed: &SecretBuf, reply: Option<RawKeyPair>) -> (r: Result<
        SigningKeyPair,
        KeyError,
    >)
        requires
            seed@.len() == SEED_SIZE,
        ensures
            match r {
                Ok(pair) => derived_signing_pair(raw_view(reply)) == Some(pair@),
                Err(e) => e == KeyError::Derivation && derived_signing_pair(raw_view(reply))
                    is None,
            },
    {
        match reply {
            None => Err(KeyError::Derivation),
            Some(raw) => {
                if raw.public.len() != SIGN_PUBLIC_KEY_SIZE || raw.secret.len()
                    != SIGN_SECRET_KEY_SIZE {
                    return Err(KeyError::Derivation);
                }
                match encode_signing_key(raw.public.as_slice()) {
                    Ok(public) => Ok(SigningKeyPair::new(public, raw.secret)),
                    Err(e) => Err(e),
                }
            },
        }
    }

    /// What to ask the provider in order to sign `data` with this pair, or
    /// `None` if the pair is not sound.
    pub fn sign_request<'a>(&'a self, data: &'a SecretBuf) -> (request: Option<SignRequest<'a>>)
        ensures
            request is Some <==> self.wf(),
            request matches Some(q) ==> q.secret_key == &self.private && q.message == data
                && q.signature_len == SIGNATURE_SIZE,
    {
        if self.private.len() != SIGN_SECRET_KEY_SIZE {
            return None;
        }
        Some(SignRequest { secret_key: &self.private, message: data, signature_len: SIGNATURE_SIZE })
    }

    /// The signature over `data`, given the provider's answer to
    /// [`Self::sign_request`].
    pub fn sign(&self, data: &SecretBuf, reply: Option<SecretBuf>) -> (r: Result<
        SecretBuf,
        KeyError,
    >)
        ensures
            match r {
                Ok(signature) => accepted_signature(self.wf(), secret_view(reply)) == Some(
                    signature@,
                ),
                Err(e) => e == KeyError::Signing && accepted_signature(
                    self.wf(),
                    secret_view(reply),
                ) is None,
            },
    {
        if self.private.len() != SIGN_SECRET_KEY_SIZE {
            return Err(KeyError::Signing);
        }
        match reply {
            Some(signature) => {
                if signature.len() == SIGNATURE_SIZE {
                    Ok(signature)
                } else {
                    Err(KeyError::Signing)
                }
            },
            None => Err(KeyError::Signing),
        }
    }

    /// What to ask the provider in order to check `signature` against `data`,
    /// or `None` if `signature` has not the length of a signature and so
    /// cannot belong to any message.
    pub fn verify_request<'a>(&'a self, data: &'a SecretBuf, signature: &'a SecretBuf) -> (request:
        Option<VerifyRequest<'a>>)
        ensures
            request is Some <==> signature@.len() == SIGNATURE_SIZE,
            request matches Some(q) ==> q.public == &self.public && q.message == data
                && q.signature == signature,
    {
        if signature.len() != SIGNATURE_SIZE {
            return None;
        }
        Some(VerifyRequest { public: &self.public, message: data, signature })
    }

    /// Whether `signature` belongs to `data`, given the provider's answer to
    /// [`Self::verify_request`]. A signature of the wrong length is rejected
    /// whatever the provider said.
    pub fn verify(&self, data: &SecretBuf, signature: &SecretBuf, accepted: bool) -> (valid: bool)
        ensures
            valid == verdict(signature@.len(), accepted),
    {
        let well_sized = signature.len() == SIGNATURE_SIZE;
        well_sized && accepted
    }

    /// Whether the two pairs hold the same public identifier and the same
    /// private key. Both are always compared.
    pub fn is_same(&self, other: &SigningKeyPair) -> (same: bool)
        ensures
            same == (self@ == other@),
    {
        let same_public = self.public == other.public;
        let same_private = self.private.same_bytes(&other.private);
        same_public && same_private
    }
}

/// A key pair for authenticated encryption.
pub struct EncryptingKeyPair {
    /// The identifier of the public key.
    pub public: String,
    /// The private key.
    pub private: SecretBuf,
}

impl View for EncryptingKeyPair {
    type V = KeyPairView;

    open spec fn view(&self) -> KeyPairView {
        KeyPairView { public: self.public@, private: self.private@ }
    }
}

/// The encrypting pair that comes of a provider's answer to a derivation:
/// both keys must have their 32 bytes, and the public key must have an
/// identifier.
pub open spec fn derived_encrypting_pair(reply: Option<RawKeyPairView>) -> Option<KeyPairView> {
    match reply {
        Some(raw) => if raw.public.len() == ENC_PUBLIC_KEY_SIZE && raw.secret.len()
            == ENC_SECRET_KEY_SIZE {
            match encrypting_id(raw.public) {
                Some(id) => Some(KeyPairView { public: id, private: raw.secret }),
                None => None,
            }
        } else {
            None
        },
        None => None,
    }
}

/// Whether a plaintext of `plain_len` bytes can be sealed with a key whose
/// soundness is `key_ok`: the ciphertext has to fit in memory.
pub open spec fn sealable(key_ok: bool, plain_len: nat) -> bool {
    key_ok && ciphertext_len(plain_len) <= usize::MAX
}

/// The ciphertext that is made of a sealed message: the nonce, then the
/// encrypted message with its tag.
pub open spec fn framed(reply: SealReplyView) -> Seq<u8> {
    reply.nonce + reply.sealed
}

/// The ciphertext that comes of a provider's answer to a sealing request for
/// a plaintext of `plain_len` bytes: the answer framed, if the nonce and the
/// sealed message have the lengths that were asked for.
pub open spec fn accepted_ciphertext(
    key_ok: bool,
    plain_len: nat,
    reply: Option<SealReplyView>,
) -> Option<Seq<u8>> {
    match reply {
        Some(sealed) => if sealable(key_ok, plain_len) && sealed.nonce.len() == AEAD_NONCE_SIZE
            && sealed.sealed.len() == plain_len + AEAD_TAG_SIZE {
            Some(framed(sealed))
        } else {
            None
        },
        None => None,
    }
}

/// Whether a ciphertext of `cipher_len` bytes can be opened with a key whose
/// soundness is `key_ok`: it has to hold at least a nonce and a tag.
pub open spec fn openable(key_ok: bool, cipher_len: nat) -> bool {
    key_ok && cipher_len >= AEAD_NONCE_SIZE + AEAD_TAG_SIZE
}

/// The nonce at the front of a ciphertext.
pub open spec fn nonce_of(cipher: Seq<u8>) -> Seq<u8> {
    cipher.subrange(0, AEAD_NONCE_SIZE as int)
}

/// The sealed message behind the nonce of a ciphertext.
pub open spec fn sealed_of(cipher: Seq<u8>) -> Seq<u8> {
    cipher.subrange(AEAD_NONCE_SIZE as int, cipher.len() as int)
}

/// Length of the plaintext inside a ciphertext of `cipher_len` bytes: what is
/// left when the nonce and the tag are taken off.
pub open spec fn plaintext_len(cipher_len: nat) -> int {
    cipher_len - AEAD_NONCE_SIZE - AEAD_TAG_SIZE
}

/// The plaintext that comes of a provider's answer to an opening request for
/// a ciphertext of `cipher_len` bytes: the answer itself, if it has the
/// length of the plaintext.
pub open spec fn accepted_plaintext(
    key_ok: bool,
    cipher_len: nat,
    reply: Option<Seq<u8>>,
) -> Option<Seq<u8>> {
    match reply {
        Some(plain) => if openable(key_ok, cipher_len) && plain.len() == plaintext_len(
            cipher_len,
        ) {
            Some(plain)
        } else {
            None
        },
        None => None,
    }
}

impl EncryptingKeyPair {
    /// A pair is sound if its private key has the length of an encrypting
    /// key.
    pub open spec fn wf(&self) -> bool {
        self.private@.len() == ENC_SECRET_KEY_SIZE
    }

    /// Puts a public identifier and a private key together. Nothing is
    /// checked: the two need not belong together.
    pub fn new(public: String, private: SecretBuf) -> (pair: EncryptingKeyPair)
        ensures
            pair.public == public,
            pair.private == private,
    {
        EncryptingKeyPair { public, private }
    }

    /// What to ask the provider in order to derive this kind of pair from
    /// `seed`.
    pub fn derive_request(seed: &SecretBuf) -> (request: DeriveRequest<'_>)
        requires
            seed@.len() == SEED_SIZE,
        ensures
            request.kind == KeyKind::Encrypting,
            request.seed == seed,
            request.public_len == ENC_PUBLIC_KEY_SIZE,
            request.secret_len == ENC_SECRET_KEY_SIZE,
    {
        DeriveRequest {
            kind: KeyKind::Encrypting,
            seed,
            public_len: ENC_PUBLIC_KEY_SIZE,
            secret_len: ENC_SECRET_KEY_SIZE,
        }
    }

    /// Makes the pair from the provider's answer to [`Self::derive_request`].
    pub fn new_from_seed(seed: &SecretBuf, reply: Option<RawKeyPair>) -> (r: Result<
        EncryptingKeyPair,
        KeyError,
    >)
        requires
            seed@.len() == SEED_SIZE,
        ensures
            match r {
                Ok(pair) => derived_encrypting_pair(raw_view(reply)) == Some(pair@),
                Err(e) => e == KeyError::Derivation && derived_encrypting_pair(raw_view(reply))
                    is None,
            },
    {
        match reply {
            None => Err(KeyError::Derivation),
            Some(raw) => {
                if raw.public.len() != ENC_PUBLIC_KEY_SIZE || raw.secret.len()
                    != ENC_SECRET_KEY_SIZE {
                    return Err(KeyError::Derivation);
                }
                match encode_encrypting_key(raw.public.as_slice()) {
                    Ok(public) => Ok(EncryptingKeyPair::new(public, raw.secret)),
                    Err(e) => Err(e),
                }
            },
        }
    }

    /// What to ask the provider in order to encrypt `data` with this pair.
    /// Fails if the pair is not sound or the ciphertext would not fit in
    /// memory.
    pub fn encrypt_request<'a>(&'a self, data: &'a SecretBuf) -> (r: Result<
        SealRequest<'a>,
        KeyError,
    >)
        ensures
            match r {
                Ok(q) => sealable(self.wf(), data@.len()) && q.key == &self.private && q.message
                    == data && q.nonce_len == AEAD_NONCE_SIZE && q.sealed_len == data@.len()
                    + AEAD_TAG_SIZE,
                Err(e) => e == KeyError::Encryption && !sealable(self.wf(), data@.len()),
            },
    {
        if self.private.len() != ENC_SECRET_KEY_SIZE {
            return Err(KeyError::Encryption);
        }
        let sealed_len = match data.len().checked_add(AEAD_TAG_SIZE) {
            Some(n) => n,
            None => {
                return Err(KeyError::Encryption);
            },
        };
        if sealed_len.checked_add(AEAD_NONCE_SIZE).is_none() {
            return Err(KeyError::Encryption);
        }
        Ok(SealRequest { key: &self.private, message: data, nonce_len: AEAD_NONCE_SIZE, sealed_len })
    }

    /// The ciphertext of `data`, given the provider's answer to
    /// [`Self::encrypt_request`]: the nonce followed by the sealed message.
    pub fn encrypt(&self, data: &SecretBuf, reply: Option<SealReply>) -> (r: Result<
        SecretBuf,
        KeyError,
    >)
        ensures
            match r {
                Ok(cipher) => accepted_ciphertext(self.wf(), data@.len(), seal_view(reply))
                    == Some(cipher@),
                Err(e) => e == KeyError::Encryption && accepted_ciphertext(
                    self.wf(),
                    data@.len(),
                    seal_view(reply),
                ) is None,
            },
    {
        let request = match self.encrypt_request(data) {
            Ok(request) => request,
            Err(e) => {
                return Err(e);
            },
        };
        match reply {
            None => Err(KeyError::Encryption),
            Some(sealed) => {
                if sealed.nonce.len() != request.nonce_len || sealed.sealed.len()
                    != request.sealed_len {
                    return Err(KeyError::Encryption);
                }
                let mut cipher = sealed.nonce;
                cipher.extend_from_slice(sealed.sealed.as_slice());
                Ok(SecretBuf::from_bytes(cipher))
            },
        }
    }

    /// What to ask the provider in order to decrypt `cipher` with this pair:
    /// the nonce and the sealed message are taken apart here. Fails if the
    /// pair is not sound or `cipher` is too short to hold a nonce and a tag.
    pub fn decrypt_request<'a>(&'a self, cipher: &SecretBuf) -> (r: Result<
        OpenRequest<'a>,
        KeyError,
    >)
        ensures
            match r {
                Ok(q) => openable(self.wf(), cipher@.len()) && q.key == &self.private && q.nonce@
                    == nonce_of(cipher@) && q.sealed@ == sealed_of(cipher@) && q.plain_len
                    == plaintext_len(cipher@.len()),
                Err(e) => e == KeyError::Decryption && !openable(self.wf(), cipher@.len()),
            },
    {
        if self.private.len() != ENC_SECRET_KEY_SIZE {
            return Err(KeyError::Decryption);
        }
        let len = cipher.len();
        if len < AEAD_NONCE_SIZE + AEAD_TAG_SIZE {
            return Err(KeyError::Decryption);
        }
        let bytes = cipher.as_slice();
        let nonce = slice_to_vec(slice_subrange(bytes, 0, AEAD_NONCE_SIZE));
        let sealed = slice_to_vec(slice_subrange(bytes, AEAD_NONCE_SIZE, len));
        Ok(
            OpenRequest {
                key: &self.private,
                nonce,
                sealed,
                plain_len: len - AEAD_NONCE_SIZE - AEAD_TAG_SIZE,
            },
        )
    }

    /// The plaintext of `cipher`, given the provider's answer to
    /// [`Self::decrypt_request`].
    pub fn decrypt(&self, cipher: &SecretBuf, reply: Option<SecretBuf>) -> (r: Result<
        SecretBuf,
        KeyError,
    >)
        ensures
            match r {
                Ok(plain) => accepted_plaintext(self.wf(), cipher@.len(), secret_view(reply))
                    == Some(plain@),
                Err(e) => e == KeyError::Decryption && accepted_plaintext(
                    self.wf(),
                    cipher@.len(),
                    secret_view(reply),
                ) is None,
            },
    {
        if self.private.len() != ENC_SECRET_KEY_SIZE {
            return Err(KeyError::Decryption);
        }
        let len = cipher.len();
        if len < AEAD_NONCE_SIZE + AEAD_TAG_SIZE {
            return Err(KeyError::Decryption);
        }
        match reply {
            None => Err(KeyError::Decryption),
            Some(plain) => {
                if plain.len() == len - AEAD_NONCE_SIZE - AEAD_TAG_SIZE {
                    Ok(plain)
                } else {
                    Err(KeyError::Decryption)
                }
            },
        }
    }

    /// Whether the two pairs hold the same public identifier and the same
    /// private key. Both are always compared.
    pub fn is_same(&self, other: &EncryptingKeyPair) -> (same: bool)
        ensures
            same == (self@ == other@),
    {
        let same_public = self.public == other.public;
        let same_private = self.private.same_bytes(&other.private);
        same_public && same_private
    }
}

} // verus!
