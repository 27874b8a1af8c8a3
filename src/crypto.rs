//! The outside cryptography and clock this library relies on, each behind a
//! contract stated over plain values.
use hmac::{Hmac, Mac};
use jwt::claims::RegisteredClaims;
use jwt::{SignWithKey, VerifyWithKey};
use ring::pbkdf2;
use sha2::Sha256;
use vstd::prelude::*;

verus! {

/// The time claims carried by a decoded session token, in seconds since the
/// Unix epoch.
#[derive(Debug, Clone, Copy, PartialEq, Eq, Structural)]
pub struct TokenClaims {
    pub issued_at: Option<u64>,
    pub expiration: Option<u64>,
}

/// Why a token string was not accepted by the token decoder.
#[derive(Debug, Clone, Copy, PartialEq, Eq, Structural)]
pub enum TokenFault {
    /// The string is not three well-formed, decodable token components.
    Structure,
    /// The components decode but the MAC does not match them.
    Signature,
}

#[verifier::external_type_specification]
#[verifier::external_body]
pub struct ExJwtError(jwt::Error);

/// Key-derivation inputs longer than this are out of SHA-256's range.
pub open spec fn fits_kdf(len: nat) -> bool {
    len < 0x1000_0000_0000_0000
}

/// The 32-byte PBKDF2-HMAC-SHA256 output for the given cost, salt and password.
pub uninterp spec fn pbkdf2_hmac_sha256(iterations: u32, salt: Seq<u8>, password: Seq<u8>) -> Seq<u8>;

/// The compact HS256 token string that signs the claims
/// `{"exp": expiration, "iat": issued_at}` with the given HMAC secret.
pub uninterp spec fn hs256_token(secret: Seq<u8>, issued_at: u64, expiration: u64) -> Seq<char>;

/// What decoding and checking a token string with the given HMAC secret gives.
pub uninterp spec fn hs256_decoded(secret: Seq<u8>, token: Seq<char>) -> Result<TokenClaims, TokenFault>;

/// A successful decoding that carries both time claims.
pub open spec fn decoded_ok(issued_at: u64, expiration: u64) -> Result<TokenClaims, TokenFault> {
    Ok(TokenClaims { issued_at: Some(issued_at), expiration: Some(expiration) })
}

/// The string splits at its dots into exactly three components.
pub open spec fn three_components(s: Seq<char>) -> bool {
    s.filter(|c: char| c == '.').len() == 2
}

/// A decoding refused for the token's structure.
pub open spec fn decoded_structure_fault() -> Result<TokenClaims, TokenFault> {
    Err(TokenFault::Structure)
}

/// Relies on ring::pbkdf2::derive with PBKDF2_HMAC_SHA256 into a 32-byte
/// buffer: the output depends on cost, salt and password alone. It panics only
/// on inputs too long for SHA-256, which `requires` leaves out.
#[verifier::external_body]
pub(crate) fn pbkdf2_derive(iterations: u32, salt: &[u8], password: &[u8]) -> (r: [u8; 32])
    requires
        iterations > 0,
        fits_kdf(salt@.len()),
        fits_kdf(password@.len()),
    ensures
        r@ == pbkdf2_hmac_sha256(iterations, salt@, password@),
{
    let mut out = [0u8; 32];
    let cost = std::num::NonZeroU32::new(iterations).unwrap();
    pbkdf2::derive(pbkdf2::PBKDF2_HMAC_SHA256, cost, salt, password, &mut out);
    out
}

/// Relies on ring::pbkdf2::verify with PBKDF2_HMAC_SHA256: it succeeds exactly
/// when the previously derived bytes equal the derivation of the same length
/// (here 32 bytes).
#[verifier::external_body]
pub(crate) fn pbkdf2_verify(iterations: u32, salt: &[u8], password: &[u8], derived: &[u8; 32]) -> (r: bool)
    requires
        iterations > 0,
        fits_kdf(salt@.len()),
        fits_kdf(password@.len()),
    ensures
        r == (derived@ == pbkdf2_hmac_sha256(iterations, salt@, password@)),
{
    let cost = std::num::NonZeroU32::new(iterations).unwrap();
    pbkdf2::verify(pbkdf2::PBKDF2_HMAC_SHA256, cost, salt, password, derived).is_ok()
}

/// Relies on hmac's `Hmac::<Sha256>::new_from_slice`, which accepts a key of
/// any length, and on jwt's `sign_with_key` for `RegisteredClaims` holding only
/// `iat` and `exp`: the token is a function of secret and claims. With an HMAC
/// key signing cannot fail: the header and claims serialise as plain JSON and
/// the HMAC `sign` always returns `Ok`.
#[verifier::external_body]
pub(crate) fn hs256_sign(secret: &[u8], issued_at: u64, expiration: u64) -> (r: Result<String, jwt::Error>)
    ensures
        r is Ok,
        r is Ok ==> r->Ok_0@ == hs256_token(secret@, issued_at, expiration),
{
    let key: Hmac<Sha256> = Hmac::new_from_slice(secret)?;
    let claims = RegisteredClaims {
        issued_at: Some(issued_at),
        expiration: Some(expiration),
        ..Default::default()
    };
    claims.sign_with_key(&key)
}

/// Relies on hmac's `Hmac::<Sha256>::new_from_slice` and on jwt's
/// `verify_with_key` into `RegisteredClaims`. That call splits the string at
/// each dot first (anything but exactly three components is refused), decodes
/// header and claims, and checks the MAC, failing with `InvalidSignature` or
/// `RustCryptoMac` on a mismatch. A token that `sign_with_key` made with the
/// same secret decodes to the claims it was made from.
#[verifier::external_body]
pub(crate) fn hs256_verify(secret: &[u8], token: &str) -> (r: Result<TokenClaims, TokenFault>)
    ensures
        r == hs256_decoded(secret@, token@),
        (forall|iat: u64, exp: u64|
            #![trigger hs256_token(secret@, iat, exp)]
            token@ == hs256_token(secret@, iat, exp) ==> r == decoded_ok(iat, exp)),
        !three_components(token@) ==> r == decoded_structure_fault(),
{
    let key: Hmac<Sha256> = Hmac::new_from_slice(secret).map_err(|_| TokenFault::Structure)?;
    let decoded: Result<RegisteredClaims, jwt::Error> = token.verify_with_key(&key);
    match decoded {
        Ok(c) => Ok(TokenClaims { issued_at: c.issued_at, expiration: c.expiration }),
        Err(jwt::Error::InvalidSignature) => Err(TokenFault::Signature),
        Err(jwt::Error::RustCryptoMac(_)) => Err(TokenFault::Signature),
        Err(_) => Err(TokenFault::Structure),
    }
}

/// Relies on std's `SystemTime::now().duration_since(UNIX_EPOCH)`: the
/// wall-clock time in whole seconds since the Unix epoch, or `None` when the
/// clock reads an earlier time. Nothing is known of the value.
#[verifier::external_body]
pub(crate) fn clock_now() -> (r: Option<u64>) {
    std::time::SystemTime::now().duration_since(std::time::UNIX_EPOCH).ok().map(|d| d.as_secs())
}

} // verus!
