//! The key bundle: a signing pair and an encrypting pair under one identity.

use crate::error::KeyError;
use crate::keypair::{
    accepted_ciphertext, accepted_plaintext, accepted_signature, derived_encrypting_pair,
    derived_signing_pair, nonce_of, openable, plaintext_len, sealable, sealed_of, verdict,
    EncryptingKeyPair, KeyPairView, SigningKeyPair,
};
use crate::provider::{
    raw_view, seal_view, secret_view, DeriveRequest, KeyKind, OpenRequest, RawKeyPair,
    RawKeyPairView, SealReply, SealRequest, SignRequest, VerifyRequest,
};
use crate::secret::{zeros, SecretBuf};
use crate::seed::Seed;
use crate::sizes::{
    AEAD_NONCE_SIZE, AEAD_TAG_SIZE, ENC_PUBLIC_KEY_SIZE, ENC_SECRET_KEY_SIZE, SEED_SIZE,
    SIGNATURE_SIZE, SIGN_PUBLIC_KEY_SIZE, SIGN_SECRET_KEY_SIZE,
};
use vstd::prelude::*;

verus! {

/// What the contracts see of a key bundle.
pub struct KeyBundleView {
    pub sign_keys: KeyPairView,
    pub enc_keys: KeyPairView,
}

/// All the keys of one identity: a pair for signing and a pair for
/// encrypting. The bundle owns both.
pub struct KeyBundle {
    pub sign_keys: SigningKeyPair,
    pub enc_keys: EncryptingKeyPair,
}

impl View for KeyBundle {
    type V = KeyBundleView;

    open spec fn view(&self) -> KeyBundleView {
        KeyBundleView { sign_keys: self.sign_keys@, enc_keys: self.enc_keys@ }
    }
}

/// The bundle that comes of a seed of `seed_len` bytes and the provider's
/// answers to the two derivations: the seed must have its 32 bytes, and each
/// answer must give a pair.
pub open spec fn derived_bundle(
    seed_len: nat,
    signing: Option<RawKeyPairView>,
    encrypting: Option<RawKeyPairView>,
) -> Option<KeyBundleView> {
    if seed_len == SEED_SIZE {
        match (derived_signing_pair(signing), derived_encrypting_pair(encrypting)) {
            (Some(sign_keys), Some(enc_keys)) => Some(KeyBundleView { sign_keys, enc_keys }),
            _ => None,
        }
    } else {
        None
    }
}

impl KeyBundle {
    /// A bundle is sound if both its private keys have their lengths: 64
    /// bytes for signing, 32 for encrypting.
    pub open spec fn wf(&self) -> bool {
        self.sign_keys.wf() && self.enc_keys.wf()
    }

    /// The identifier of the bundle: that of its signing public key.
    pub open spec fn id(&self) -> Seq<char> {
        self.sign_keys.public@
    }

    /// Puts two key pairs together. This always succeeds; whether the pairs
    /// come from one seed is not looked at.
    pub fn new(sign_keys: SigningKeyPair, enc_keys: EncryptingKeyPair) -> (r: Result<
        KeyBundle,
        KeyError,
    >)
        ensures
            r matches Ok(bundle) && bundle.sign_keys == sign_keys && bundle.enc_keys == enc_keys,
    {
        Ok(KeyBundle { sign_keys, enc_keys })
    }

    /// What to ask the provider in order to derive a bundle from `seed`: the
    /// signing pair first, then the encrypting pair, both from the same seed
    /// bytes. Fails if the seed has not exactly 32 bytes.
    pub fn derive_requests(seed: &Seed) -> (r: Result<(DeriveRequest<'_>, DeriveRequest<'_>), KeyError>)
        ensures
            match r {
                Ok((signing, encrypting)) => {
                    &&& seed.buf@.len() == SEED_SIZE
                    &&& signing.kind == KeyKind::Signing
                    &&& signing.seed == &seed.buf
                    &&& signing.public_len == SIGN_PUBLIC_KEY_SIZE
                    &&& signing.secret_len == SIGN_SECRET_KEY_SIZE
                    &&& encrypting.kind == KeyKind::Encrypting
                    &&& encrypting.seed == &seed.buf
                    &&& encrypting.public_len == ENC_PUBLIC_KEY_SIZE
                    &&& encrypting.secret_len == ENC_SECRET_KEY_SIZE
                },
                Err(e) => e == KeyError::Derivation && seed.buf@.len() != SEED_SIZE,
            },
    {
        if seed.buf.len() != SEED_SIZE {
            return Err(KeyError::Derivation);
        }
        Ok((SigningKeyPair::derive_request(&seed.buf), EncryptingKeyPair::derive_request(&seed.buf)))
    }

    /// Makes the bundle of a seed from the provider's answers to
    /// [`Self::derive_requests`]. Fails if the seed has not exactly 32 bytes,
    /// or if either answer gives no pair.
    pub fn new_from_seed(
        seed: &Seed,
        signing: Option<RawKeyPair>,
        encrypting: Option<RawKeyPair>,
    ) -> (r: Result<KeyBundle, KeyError>)
        ensures
            match r {
                Ok(bundle) => bundle.wf() && derived_bundle(
                    seed.buf@.len(),
                    raw_view(signing),
                    raw_view(encrypting),
                ) == Some(bundle@),
                Err(e) => e == KeyError::Derivation && derived_bundle(
                    seed.buf@.len(),
                    raw_view(signing),
                    raw_view(encrypting),
                ) is None,
            },
    {
        if seed.buf.len() != SEED_SIZE {
            return Err(KeyError::Derivation);
        }
        KeyBundle::new_from_seed_buf(&seed.buf, signing, encrypting)
    }

    /// Makes the bundle of a seed buffer that is known to hold exactly 32
    /// bytes, from the provider's answers to the two derivations. Fails if
    /// either answer gives no pair.
    pub fn new_from_seed_buf(
        seed_buf: &SecretBuf,
        signing: Option<RawKeyPair>,
        encrypting: Option<RawKeyPair>,
    ) -> (r: Result<KeyBundle, KeyError>)
        requires
            seed_buf@.len() == SEED_SIZE,
        ensures
            match r {
                Ok(bundle) => bundle.wf() && derived_bundle(
                    SEED_SIZE as nat,
                    raw_view(signing),
                    raw_view(encrypting),
                ) == Some(bundle@),
                Err(e) => e == KeyError::Derivation && derived_bundle(
                    SEED_SIZE as nat,
                    raw_view(signing),
                    raw_view(encrypting),
                ) is None,
            },
    {
        let sign_keys = match SigningKeyPair::new_from_seed(seed_buf, signing) {
            Ok(pair) => pair,
            Err(e) => {
                return Err(e);
            },
        };
        let enc_keys = match EncryptingKeyPair::new_from_seed(seed_buf, encrypting) {
            Ok(pair) => pair,
            Err(e) => {
                return Err(e);
            },
        };
        Ok(KeyBundle { sign_keys, enc_keys })
    }

    /// A copy of the bundle's identifier: the signing public key. The
    /// encrypting public key is no part of it.
    pub fn get_id(&self) -> (id: String)
        ensures
            id@ == self.id(),
    {
        self.sign_keys.public.clone()
    }

    /// What to ask the provider in order to sign `data`: the signing pair's
    /// private key is handed out, never the encrypting one. `None` if the
    /// signing pair is not sound.
    pub fn sign_request<'a>(&'a self, data: &'a SecretBuf) -> (request: Option<SignRequest<'a>>)
        ensures
            request is Some <==> self.sign_keys.wf(),
            request matches Some(q) ==> q.secret_key == &self.sign_keys.private && q.message
                == data && q.signature_len == SIGNATURE_SIZE,
    {
        self.sign_keys.sign_request(data)
    }

    /// The signature over `data`, given the provider's answer to
    /// [`Self::sign_request`].
    pub fn sign(&self, data: &SecretBuf, reply: Option<SecretBuf>) -> (r: Result<
        SecretBuf,
        KeyError,
    >)
        ensures
            match r {
                Ok(signature) => accepted_signature(self.sign_keys.wf(), secret_view(reply))
                    == Some(signature@),
                Err(e) => e == KeyError::Signing && accepted_signature(
                    self.sign_keys.wf(),
                    secret_view(reply),
                ) is None,
            },
    {
        self.sign_keys.sign(data, reply)
    }

    /// What to ask the provider in order to check `signature` against `data`
    /// under the bundle's signing public key, or `None` if `signature` has
    /// not the length of a signature.
    pub fn verify_request<'a>(&'a self, data: &'a SecretBuf, signature: &'a SecretBuf) -> (request:
        Option<VerifyRequest<'a>>)
        ensures
            request is Some <==> signature@.len() == SIGNATURE_SIZE,
            request matches Some(q) ==> q.public == &self.sign_keys.public && q.message == data
                && q.signature == signature,
    {
        self.sign_keys.verify_request(data, signature)
    }

    /// Whether `signature` belongs to `data`, given the provider's answer to
    /// [`Self::verify_request`]. A mismatch is an ordinary `false`, never a
    /// failure; a signature of the wrong length is `false` whatever the
    /// provider said.
    pub fn verify(&self, data: &SecretBuf, signature: &SecretBuf, accepted: bool) -> (valid: bool)
        ensures
            valid == verdict(signature@.len(), accepted),
    {
        self.sign_keys.verify(data, signature, accepted)
    }

    /// What to ask the provider in order to encrypt `data`: the encrypting
    /// pair's private key is handed out, never the signing one. Fails if the
    /// encrypting pair is not sound or the ciphertext would not fit in
    /// memory.
    pub fn encrypt_request<'a>(&'a self, data: &'a SecretBuf) -> (r: Result<
        SealRequest<'a>,
        KeyError,
    >)
        ensures
            match r {
                Ok(q) => sealable(self.enc_keys.wf(), data@.len()) && q.key
                    == &self.enc_keys.private && q.message == data && q.nonce_len
                    == AEAD_NONCE_SIZE && q.sealed_len == data@.len() + AEAD_TAG_SIZE,
                Err(e) => e == KeyError::Encryption && !sealable(
                    self.enc_keys.wf(),
                    data@.len(),
                ),
            },
    {
        self.enc_keys.encrypt_request(data)
    }

    /// The ciphertext of `data`, given the provider's answer to
    /// [`Self::encrypt_request`]. It is as long as the plaintext, the tag and
    /// the nonce together.
    pub fn encrypt(&self, data: &SecretBuf, reply: Option<SealReply>) -> (r: Result<
        SecretBuf,
        KeyError,
    >)
        ensures
            match r {
                Ok(cipher) => accepted_ciphertext(
                    self.enc_keys.wf(),
                    data@.len(),
                    seal_view(reply),
                ) == Some(cipher@) && cipher@.len() == data@.len() + AEAD_TAG_SIZE
                    + AEAD_NONCE_SIZE,
                Err(e) => e == KeyError::Encryption && accepted_ciphertext(
                    self.enc_keys.wf(),
                    data@.len(),
                    seal_view(reply),
                ) is None,
            },
    {
        self.enc_keys.encrypt(data, reply)
    }

    /// What to ask the provider in order to decrypt `cipher`. Fails if the
    /// encrypting pair is not sound or `cipher` is too short to hold a nonce
    /// and a tag.
    pub fn decrypt_request<'a>(&'a self, cipher: &SecretBuf) -> (r: Result<
        OpenRequest<'a>,
        KeyError,
    >)
        ensures
            match r {
                Ok(q) => openable(self.enc_keys.wf(), cipher@.len()) && q.key
                    == &self.enc_keys.private && q.nonce@ == nonce_of(cipher@) && q.sealed@
                    == sealed_of(cipher@) && q.plain_len == plaintext_len(cipher@.len()),
                Err(e) => e == KeyError::Decryption && !openable(
                    self.enc_keys.wf(),
                    cipher@.len(),
                ),
            },
    {
        self.enc_keys.decrypt_request(cipher)
    }

    /// The plaintext of `cipher`, given the provider's answer to
    /// [`Self::decrypt_request`]. It is as long as the ciphertext without its
    /// nonce and its tag.
    pub fn decrypt(&self, cipher: &SecretBuf, reply: Option<SecretBuf>) -> (r: Result<
        SecretBuf,
        KeyError,
    >)
        ensures
            match r {
                Ok(plain) => accepted_plaintext(
                    self.enc_keys.wf(),
                    cipher@.len(),
                    secret_view(reply),
                ) == Some(plain@) && plain@.len() == plaintext_len(cipher@.len()),
                Err(e) => e == KeyError::Decryption && accepted_plaintext(
                    self.enc_keys.wf(),
                    cipher@.len(),
                    secret_view(reply),
                ) is None,
            },
    {
        self.enc_keys.decrypt(cipher, reply)
    }

    /// Whether the two bundles hold the same keys: both pairs, public and
    /// private side. Every part is compared, whatever the others gave.
    pub fn is_same(&self, other: &KeyBundle) -> (same: bool)
        ensures
            same == (self@ == other@),
    {
        let same_sign = self.sign_keys.is_same(&other.sign_keys);
        let same_enc = self.enc_keys.is_same(&other.enc_keys);
        same_sign && same_enc
    }

    /// Overwrites both private keys with zeros. The bundle keeps its
    /// identifier and can no longer sign or decrypt anything of worth.
    pub fn wipe(&mut self)
        ensures
            final(self).sign_keys.public == old(self).sign_keys.public,
            final(self).enc_keys.public == old(self).enc_keys.public,
            final(self).sign_keys.private@ == zeros(old(self).sign_keys.private@.len()),
            final(self).enc_keys.private@ == zeros(old(self).enc_keys.private@.len()),
    {
        self.sign_keys.private.wipe();
        self.enc_keys.private.wipe();
    }
}

} // verus!
