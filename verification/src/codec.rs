//! Public keys as identifier strings.
//!
//! A raw public key is shown to the outside as a Base32 identifier with
//! parity, made by the `hcid` crate. Signing keys and encrypting keys use
//! different kinds of identifier, so the two cannot be mistaken for each
//! other.

use crate::error::KeyError;
use vstd::prelude::*;

verus! {

/// `hcid::HcidError`, the error of every `hcid` call. It is carried, never
/// looked into.
#[verifier::external_type_specification]
#[verifier::external_body]
pub struct ExHcidError(hcid::HcidError);

/// The identifier that `hcid` gives to the key bytes `key` under the
/// identifier kind `kind`, or `None` where it gives none.
pub uninterp spec fn hcid_encoding(kind: Seq<char>, key: Seq<u8>) -> Option<Seq<char>>;

/// Calls `hcid::HcidEncoding::with_kind` and then `encode` on the result.
///
/// Nothing is proved of this function. Its contract only gives the outcome a
/// name: the identifier returned is `hcid_encoding(kind, key)`, and an error
/// is returned exactly where that is `None`.
#[verifier::external_body]
fn hcid_encode(kind: &str, key: &[u8]) -> (r: Result<String, hcid::HcidError>)
    ensures
        r matches Ok(id) ==> hcid_encoding(kind@, key@) == Some(id@),
        r is Err ==> hcid_encoding(kind@, key@) is None,
{
    hcid::HcidEncoding::with_kind(kind)?.encode(key)
}

/// The identifier of a signing public key.
pub open spec fn signing_id(key: Seq<u8>) -> Option<Seq<char>> {
    hcid_encoding("hcs0"@, key)
}

/// The identifier of an encrypting public key.
pub open spec fn encrypting_id(key: Seq<u8>) -> Option<Seq<char>> {
    hcid_encoding("hck0"@, key)
}

/// Encodes a raw signing public key as its identifier.
pub fn encode_signing_key(key: &[u8]) -> (r: Result<String, KeyError>)
    ensures
        match r {
            Ok(id) => signing_id(key@) == Some(id@),
            Err(e) => e == KeyError::Derivation && signing_id(key@) is None,
        },
{
    match hcid_encode("hcs0", key) {
        Ok(id) => Ok(id),
        Err(_) => Err(KeyError::Derivation),
    }
}

/// Encodes a raw encrypting public key as its identifier.
pub fn encode_encrypting_key(key: &[u8]) -> (r: Result<String, KeyError>)
    ensures
        match r {
            Ok(id) => encrypting_id(key@) == Some(id@),
            Err(e) => e == KeyError::Derivation && encrypting_id(key@) is None,
        },
{
    match hcid_encode("hck0", key) {
        Ok(id) => Ok(id),
        Err(_) => Err(KeyError::Derivation),
    }
}

} // verus!
