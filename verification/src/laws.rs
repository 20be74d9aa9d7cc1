//! What holds of the key bundle's operations taken together.
//!
//! The primitives are run outside this crate, so these statements are about
//! the crate's own part: what it builds from the provider's answers, and
//! what it hands to the provider.

use crate::key_bundle::{derived_bundle, KeyBundle, KeyBundleView};
use crate::keypair::{
    accepted_ciphertext, accepted_plaintext, accepted_signature, nonce_of, openable,
    plaintext_len, sealed_of, verdict,
};
use crate::provider::{RawKeyPairView, SealReplyView};
use crate::sizes::{
    ciphertext_len, AEAD_NONCE_SIZE, AEAD_TAG_SIZE, ENC_SECRET_KEY_SIZE, SEED_SIZE,
    SIGNATURE_SIZE, SIGN_PUBLIC_KEY_SIZE, SIGN_SECRET_KEY_SIZE,
};
use vstd::prelude::*;

verus! {

/// Derivation is repeatable: two bundles derived from seeds with the same
/// bytes, on the same answers of the provider, hold the same keys, so
/// `is_same` is true of them.
pub proof fn lemma_derivation_repeatable(
    seed1: Seq<u8>,
    seed2: Seq<u8>,
    signing: Option<RawKeyPairView>,
    encrypting: Option<RawKeyPairView>,
    first: KeyBundleView,
    second: KeyBundleView,
)
    requires
        seed1 == seed2,
        derived_bundle(seed1.len(), signing, encrypting) == Some(first),
        derived_bundle(seed2.len(), signing, encrypting) == Some(second),
    ensures
        first == second,
{
}

/// Every derived bundle has keys of the right sizes: the seed had 32 bytes,
/// the raw signing public key 32, the signing private key 64, and the
/// encrypting private key 32.
pub proof fn lemma_derived_key_sizes(
    seed_len: nat,
    signing: Option<RawKeyPairView>,
    encrypting: Option<RawKeyPairView>,
    bundle: KeyBundleView,
)
    requires
        derived_bundle(seed_len, signing, encrypting) == Some(bundle),
    ensures
        seed_len == SEED_SIZE,
        signing matches Some(raw) && raw.public.len() == SIGN_PUBLIC_KEY_SIZE,
        bundle.sign_keys.private.len() == SIGN_SECRET_KEY_SIZE,
        bundle.enc_keys.private.len() == ENC_SECRET_KEY_SIZE,
{
}

/// A signature that `sign` returned has the length of a signature, so
/// `verify` judges it as the provider does: it is valid exactly if the
/// provider accepted it.
pub proof fn lemma_own_signature_is_judged_by_provider(
    key_ok: bool,
    reply: Option<Seq<u8>>,
    signature: Seq<u8>,
    accepted: bool,
)
    requires
        accepted_signature(key_ok, reply) == Some(signature),
    ensures
        signature.len() == SIGNATURE_SIZE,
        verdict(signature.len(), accepted) == accepted,
{
}

/// `verify` never accepts what the provider rejected, nor a signature of the
/// wrong length.
pub proof fn lemma_verify_rejects(signature_len: nat, accepted: bool)
    requires
        !accepted || signature_len != SIGNATURE_SIZE,
    ensures
        !verdict(signature_len, accepted),
{
}

/// A ciphertext is as long as its plaintext, the tag and the nonce together.
pub proof fn lemma_ciphertext_size(
    key_ok: bool,
    plain: Seq<u8>,
    reply: Option<SealReplyView>,
    cipher: Seq<u8>,
)
    requires
        accepted_ciphertext(key_ok, plain.len(), reply) == Some(cipher),
    ensures
        cipher.len() == plain.len() + AEAD_TAG_SIZE + AEAD_NONCE_SIZE,
        cipher.len() == ciphertext_len(plain.len()),
{
}

/// Decrypting what `encrypt` returned goes back the way it came: the
/// ciphertext can be opened with the same key, the provider is handed the
/// very nonce and sealed message that it produced, it is asked for a
/// plaintext as long as the one that was encrypted, and when it answers with
/// that plaintext, `decrypt` returns it byte for byte.
pub proof fn lemma_encrypt_then_decrypt(
    key_ok: bool,
    plain: Seq<u8>,
    reply: SealReplyView,
    cipher: Seq<u8>,
)
    requires
        accepted_ciphertext(key_ok, plain.len(), Some(reply)) == Some(cipher),
    ensures
        openable(key_ok, cipher.len()),
        nonce_of(cipher) == reply.nonce,
        sealed_of(cipher) == reply.sealed,
        plaintext_len(cipher.len()) == plain.len(),
        accepted_plaintext(key_ok, cipher.len(), Some(plain)) == Some(plain),
{
    assert(nonce_of(cipher) =~= reply.nonce);
    assert(sealed_of(cipher) =~= reply.sealed);
}

/// The identifier of a bundle is its signing public key alone: bundles with
/// the same signing public key have the same identifier, whatever their
/// other keys are.
pub proof fn lemma_id_is_signing_public_key(first: KeyBundle, second: KeyBundle)
    requires
        first@.sign_keys.public == second@.sign_keys.public,
    ensures
        first.id() == second.id(),
{
}

} // verus!
