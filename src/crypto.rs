//! Signature checks, done by jsonwebtoken. Which algorithms belong to which
//! key type is stated here; whether a signature holds is named, not stated.
use std::str::FromStr;
use vstd::prelude::*;

verus! {

/// Whether `signature` (base64url text) is a valid signature of `message`
/// under algorithm `alg` and the RSA public key with base64url modulus `n`
/// and exponent `e`.
pub uninterp spec fn rsa_signature_valid(
    alg: Seq<char>,
    n: Seq<char>,
    e: Seq<char>,
    message: Seq<u8>,
    signature: Seq<u8>,
) -> bool;

/// Whether `signature` (base64url text) is a valid signature of `message`
/// under algorithm `alg` and the elliptic-curve public key with base64url
/// coordinates `x` and `y`.
pub uninterp spec fn ec_signature_valid(
    alg: Seq<char>,
    x: Seq<char>,
    y: Seq<char>,
    message: Seq<u8>,
    signature: Seq<u8>,
) -> bool;

/// The algorithm names that verify with an RSA public key.
pub open spec fn is_rsa_alg(alg: Seq<char>) -> bool {
    ||| alg == "RS256"@
    ||| alg == "RS384"@
    ||| alg == "RS512"@
    ||| alg == "PS256"@
    ||| alg == "PS384"@
    ||| alg == "PS512"@
}

/// The algorithm names that verify with an elliptic-curve public key.
pub open spec fn is_ec_alg(alg: Seq<char>) -> bool {
    alg == "ES256"@ || alg == "ES384"@
}

/// Whether `a` reads exactly `b`.
pub fn same_text(a: &String, b: &str) -> (r: bool)
    ensures
        r == (a@ == b@),
{
    let t = b.to_owned();
    *a == t
}

/// Decides `is_rsa_alg`.
pub fn rsa_alg(alg: &String) -> (r: bool)
    ensures
        r == is_rsa_alg(alg@),
{
    same_text(alg, "RS256") || same_text(alg, "RS384") || same_text(alg, "RS512")
        || same_text(alg, "PS256") || same_text(alg, "PS384") || same_text(alg, "PS512")
}

/// Decides `is_ec_alg`.
pub fn ec_alg(alg: &String) -> (r: bool)
    ensures
        r == is_ec_alg(alg@),
{
    same_text(alg, "ES256") || same_text(alg, "ES384")
}

/// Relies on `jsonwebtoken::Algorithm::from_str`,
/// `jsonwebtoken::DecodingKey::from_rsa_components` and
/// `jsonwebtoken::crypto::verify`; a key or signature that does not decode
/// counts as a failed check. The algorithm is held to the RSA family, for
/// which `verify` reads the key's components and cannot panic.
#[verifier::external_body]
pub(crate) fn verify_rsa(alg: &str, n: &str, e: &str, message: &[u8], signature: &[u8]) -> (r: bool)
    requires
        is_rsa_alg(alg@),
    ensures
        r == rsa_signature_valid(alg@, n@, e@, message@, signature@),
{
    let (Ok(a), Ok(sig)) = (jsonwebtoken::Algorithm::from_str(alg), std::str::from_utf8(signature)) else {
        return false;
    };
    match jsonwebtoken::DecodingKey::from_rsa_components(n, e) {
        Ok(key) => jsonwebtoken::crypto::verify(sig, message, &key, a).unwrap_or(false),
        Err(_) => false,
    }
}

/// Relies on `jsonwebtoken::Algorithm::from_str`,
/// `jsonwebtoken::DecodingKey::from_ec_components` and
/// `jsonwebtoken::crypto::verify`; a key or signature that does not decode
/// counts as a failed check.
#[verifier::external_body]
pub(crate) fn verify_ec(alg: &str, x: &str, y: &str, message: &[u8], signature: &[u8]) -> (r: bool)
    requires
        is_ec_alg(alg@),
    ensures
        r == ec_signature_valid(alg@, x@, y@, message@, signature@),
{
    let (Ok(a), Ok(sig)) = (jsonwebtoken::Algorithm::from_str(alg), std::str::from_utf8(signature)) else {
        return false;
    };
    match jsonwebtoken::DecodingKey::from_ec_components(x, y) {
        Ok(key) => jsonwebtoken::crypto::verify(sig, message, &key, a).unwrap_or(false),
        Err(_) => false,
    }
}

} // verus!
