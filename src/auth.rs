//! Password credentials and session tokens.
use crate::crypto::{
    clock_now, fits_kdf, hs256_decoded, hs256_sign, hs256_token, hs256_verify, pbkdf2_derive,
    pbkdf2_hmac_sha256, pbkdf2_verify, three_components, TokenClaims, TokenFault,
};
use crate::models::{AuthError, PasswordHash, Settings, User, SESSION_SECONDS};
use vstd::prelude::*;
use vstd::utf8::*;

verus! {

/// The salt of one user: the installation salt's bytes, then the email's
/// bytes, taken exactly as given.
pub open spec fn derived_salt(db_salt: Seq<char>, email: Seq<char>) -> Seq<u8> {
    encode_utf8(db_salt) + encode_utf8(email)
}

/// The stored credential for `email` and `password` under the given cost and
/// installation salt. A credential records neither its cost nor its
/// algorithm, so changing the configured iteration count (or the installation
/// salt) makes every stored credential fail verification.
pub open spec fn credential_of(
    iterations: u32,
    db_salt: Seq<char>,
    email: Seq<char>,
    password: Seq<char>,
) -> Seq<u8> {
    pbkdf2_hmac_sha256(iterations, derived_salt(db_salt, email), encode_utf8(password))
}

/// Outcome of checking a password attempt against a stored credential.
pub open spec fn password_verdict(
    iterations: u32,
    db_salt: Seq<char>,
    email: Seq<char>,
    attempt: Seq<char>,
    stored: Seq<u8>,
) -> Result<(), AuthError> {
    if stored == credential_of(iterations, db_salt, email, attempt) {
        Ok(())
    } else {
        Err(AuthError::WrongCredential)
    }
}

/// The token issued at `issued_at` (seconds since the epoch): it expires one
/// session later.
pub open spec fn session_token(secret: Seq<u8>, issued_at: u64) -> Seq<char> {
    hs256_token(secret, issued_at, (issued_at + SESSION_SECONDS) as u64)
}

/// Outcome of checking decoded token claims at time `now`: the expiration
/// instant itself is already expired, and a token without an expiration is
/// refused as malformed.
pub open spec fn claims_verdict(decoded: Result<TokenClaims, TokenFault>, now: u64) -> Result<
    (),
    AuthError,
> {
    match decoded {
        Err(TokenFault::Structure) => Err(AuthError::MalformedToken),
        Err(TokenFault::Signature) => Err(AuthError::BadSignature),
        Ok(c) => match c.expiration {
            Some(exp) => if exp <= now {
                Err(AuthError::ExpiredToken)
            } else {
                Ok(())
            },
            None => Err(AuthError::MalformedToken),
        },
    }
}

/// Outcome of checking, at time `now`, a token issued at `issued_at`: valid
/// strictly before one session has passed, expired from then on.
pub open spec fn session_verdict(issued_at: u64, now: u64) -> Result<(), AuthError> {
    if (now as int) < issued_at as int + SESSION_SECONDS as int {
        Ok(())
    } else {
        Err(AuthError::ExpiredToken)
    }
}

/// The instant `issued_at` leaves room for a whole session before the end of
/// the `u64` range.
pub open spec fn issuable(issued_at: u64) -> bool {
    issued_at as int + SESSION_SECONDS as int <= u64::MAX as int
}

/// Decides on the claims of a decoded token at time `now`.
pub fn check_claims(decoded: Result<TokenClaims, TokenFault>, now: u64) -> (r: Result<(), AuthError>)
    ensures
        r == claims_verdict(decoded, now),
{
    match decoded {
        Err(TokenFault::Structure) => Err(AuthError::MalformedToken),
        Err(TokenFault::Signature) => Err(AuthError::BadSignature),
        Ok(c) => match c.expiration {
            Some(exp) => {
                if exp <= now {
                    Err(AuthError::ExpiredToken)
                } else {
                    Ok(())
                }
            },
            None => Err(AuthError::MalformedToken),
        },
    }
}

/// A password always matches the credential derived from it.
pub proof fn lemma_hash_then_verify(iterations: u32, db_salt: Seq<char>, email: Seq<char>, password: Seq<char>)
    ensures
        password_verdict(
            iterations,
            db_salt,
            email,
            password,
            credential_of(iterations, db_salt, email, password),
        ) == Ok::<(), AuthError>(()),
{
}

/// A password other than the one a credential was derived from feeds the
/// derivation different bytes, and is refused with `WrongCredential` whenever
/// the two derivations differ.
pub proof fn lemma_wrong_password_refused(
    iterations: u32,
    db_salt: Seq<char>,
    email: Seq<char>,
    password: Seq<char>,
    wrong_password: Seq<char>,
)
    requires
        wrong_password != password,
    ensures
        encode_utf8(wrong_password) != encode_utf8(password),
        credential_of(iterations, db_salt, email, wrong_password) != credential_of(
            iterations,
            db_salt,
            email,
            password,
        ) ==> password_verdict(
            iterations,
            db_salt,
            email,
            wrong_password,
            credential_of(iterations, db_salt, email, password),
        ) == Err::<(), AuthError>(AuthError::WrongCredential),
{
    encode_utf8_decode_utf8(wrong_password);
    encode_utf8_decode_utf8(password);
}

/// Distinct emails get distinct salts under the same installation salt.
pub proof fn lemma_distinct_emails_distinct_salts(db_salt: Seq<char>, email1: Seq<char>, email2: Seq<char>)
    requires
        email1 != email2,
    ensures
        derived_salt(db_salt, email1) != derived_salt(db_salt, email2),
{
    let prefix = encode_utf8(db_salt);
    let s1 = derived_salt(db_salt, email1);
    let s2 = derived_salt(db_salt, email2);
    if s1 == s2 {
        assert(encode_utf8(email1) =~= s1.subrange(prefix.len() as int, s1.len() as int));
        assert(encode_utf8(email2) =~= s2.subrange(prefix.len() as int, s2.len() as int));
        encode_utf8_decode_utf8(email1);
        encode_utf8_decode_utf8(email2);
    }
}

/// Two services with the same installation salt and cost derive the same
/// credential from the same email and password.
pub proof fn lemma_hash_deterministic(a: Auth, b: Auth, email: Seq<char>, password: Seq<char>)
    requires
        a.iterations() == b.iterations(),
        a.salt_component() == b.salt_component(),
    ensures
        credential_of(a.iterations(), a.salt_component(), email, password) == credential_of(
            b.iterations(),
            b.salt_component(),
            email,
            password,
        ),
{
}

/// A token is accepted at the instant it was issued, and at every later
/// instant strictly before one session has passed; from then on it is expired.
pub proof fn lemma_session_lifetime(issued_at: u64, now: u64)
    requires
        issuable(issued_at),
    ensures
        session_verdict(issued_at, issued_at) == Ok::<(), AuthError>(()),
        issued_at <= now && (now as int) < issued_at as int + SESSION_SECONDS as int
            ==> session_verdict(issued_at, now) == Ok::<(), AuthError>(()),
        now as int >= issued_at as int + SESSION_SECONDS as int ==> session_verdict(issued_at, now)
            == Err::<(), AuthError>(AuthError::ExpiredToken),
{
}

/// Handles authentication.
///
/// Stored credentials carry no version: they verify only under the
/// installation salt and iteration count they were created with, so changing
/// `salt_iterations` invalidates every stored credential.
#[derive(Clone)]
pub struct Auth {
    db_salt: String,
    pbkdf2_iterations: u32,
    jwt_secret: String,
}

impl Auth {
    /// Cost of the key derivation.
    pub closed spec fn iterations(&self) -> u32 {
        self.pbkdf2_iterations
    }

    /// Installation-wide salt component.
    pub closed spec fn salt_component(&self) -> Seq<char> {
        self.db_salt@
    }

    /// Bytes of the HMAC signing secret.
    pub closed spec fn signing_secret(&self) -> Seq<u8> {
        encode_utf8(self.jwt_secret@)
    }

    /// A usable configuration: the derivation cost is positive.
    pub open spec fn wf(&self) -> bool {
        self.iterations() > 0
    }

    /// The derivation inputs for `email` and `password` are within SHA-256's
    /// input range.
    pub open spec fn kdf_inputs_fit(&self, email: Seq<char>, password: Seq<char>) -> bool {
        fits_kdf(derived_salt(self.salt_component(), email).len()) && fits_kdf(
            encode_utf8(password).len(),
        )
    }

    /// Builds the service from settings; a zero iteration count is refused.
    pub fn new(settings: Settings) -> (r: Result<Auth, AuthError>)
        ensures
            settings.salt_iterations == 0 <==> r is Err,
            r is Err ==> r->Err_0 == AuthError::ConfigurationError,
            r is Ok ==> r->Ok_0.wf() && r->Ok_0.iterations() == settings.salt_iterations
                && r->Ok_0.salt_component() == settings.salt@ && r->Ok_0.signing_secret()
                == encode_utf8(settings.jwt_secret@),
    {
        if settings.salt_iterations == 0 {
            return Err(AuthError::ConfigurationError);
        }
        Ok(Auth {
            db_salt: settings.salt,
            pbkdf2_iterations: settings.salt_iterations,
            jwt_secret: settings.jwt_secret,
        })
    }

    /// Tells whether the derivation inputs for `email` and `password` are
    /// within SHA-256's input range, as hashing and verifying require.
    pub fn inputs_fit(&self, email: &str, password: &str) -> (r: bool)
        ensures
            r == self.kdf_inputs_fit(email@, password@),
    {
        let salt_len = self.db_salt.as_str().as_bytes().len() as u128 + email.as_bytes().len() as u128;
        let password_len = password.as_bytes().len() as u128;
        salt_len < 0x1000_0000_0000_0000 && password_len < 0x1000_0000_0000_0000
    }

    /// Create a salt using the provided email.
    fn salt(&self, email: &str) -> (r: Vec<u8>)
        ensures
            r@ == derived_salt(self.salt_component(), email@),
    {
        let installation = self.db_salt.as_str().as_bytes();
        let user = email.as_bytes();
        let mut salt: Vec<u8> = Vec::new();
        salt.extend_from_slice(installation);
        salt.extend_from_slice(user);
        assert(salt@ =~= derived_salt(self.salt_component(), email@));
        salt
    }

    /// Create a new password hash.
    pub fn create_hash(&self, email: &str, password: &str) -> (r: PasswordHash)
        requires
            self.wf(),
            self.kdf_inputs_fit(email@, password@),
        ensures
            r@ == credential_of(self.iterations(), self.salt_component(), email@, password@),
    {
        let salt = self.salt(email);
        pbkdf2_derive(self.pbkdf2_iterations, salt.as_slice(), password.as_bytes())
    }

    /// Checks a password attempt for `email` against a stored credential.
    pub fn verify_password(&self, email: &str, password_attempt: &str, stored: &PasswordHash) -> (r:
        Result<(), AuthError>)
        requires
            self.wf(),
            self.kdf_inputs_fit(email@, password_attempt@),
        ensures
            r == password_verdict(
                self.iterations(),
                self.salt_component(),
                email@,
                password_attempt@,
                stored@,
            ),
    {
        let salt = self.salt(email);
        if pbkdf2_verify(self.pbkdf2_iterations, salt.as_slice(), password_attempt.as_bytes(), stored) {
            Ok(())
        } else {
            Err(AuthError::WrongCredential)
        }
    }

    /// Validate the provided credentials.
    pub fn validate_user(&self, user: &User, password_attempt: &str) -> (r: Result<(), AuthError>)
        requires
            self.wf(),
            self.kdf_inputs_fit(user.email@, password_attempt@),
        ensures
            r == password_verdict(
                self.iterations(),
                self.salt_component(),
                user.email@,
                password_attempt@,
                user.hash@,
            ),
    {
        self.verify_password(user.email.as_str(), password_attempt, &user.hash)
    }

    /// Signs a token issued at `now` (seconds since the epoch) that expires one
    /// session later; an instant too late for the expiration to be written is
    /// refused as a clock fault.
    pub fn issue_token_at(&self, now: u64) -> (r: Result<String, AuthError>)
        ensures
            issuable(now) ==> r is Ok && r->Ok_0@ == session_token(self.signing_secret(), now),
            !issuable(now) ==> r is Err && r->Err_0 == AuthError::ClockError,
    {
        if now > u64::MAX - SESSION_SECONDS {
            return Err(AuthError::ClockError);
        }
        let expiration = now + SESSION_SECONDS;
        match hs256_sign(self.jwt_secret.as_str().as_bytes(), now, expiration) {
            Ok(token) => Ok(token),
            Err(_) => Err(AuthError::SigningError),
        }
    }

    /// Validate the credentials of `user` and create a token for them, issued
    /// at the current wall-clock second.
    pub fn create_token(&self, user: &User, password_attempt: &str) -> (r: Result<String, AuthError>)
        requires
            self.wf(),
            self.kdf_inputs_fit(user.email@, password_attempt@),
        ensures
            user.hash@ != credential_of(
                self.iterations(),
                self.salt_component(),
                user.email@,
                password_attempt@,
            ) ==> r is Err && r->Err_0 == AuthError::WrongCredential,
            user.hash@ == credential_of(
                self.iterations(),
                self.salt_component(),
                user.email@,
                password_attempt@,
            ) ==> r is Ok || (r is Err && r->Err_0 == AuthError::ClockError),
            r is Ok ==> exists|t: u64| issuable(t) && r->Ok_0@ == session_token(self.signing_secret(), t),
    {
        self.validate_user(user, password_attempt)?;
        match clock_now() {
            Some(now) => self.issue_token_at(now),
            None => Err(AuthError::ClockError),
        }
    }

    /// Checks a token at time `now` (seconds since the epoch): its structure
    /// and signature first, then its expiration.
    pub fn verify_token_at(&self, token: &str, now: u64) -> (r: Result<(), AuthError>)
        ensures
            r == claims_verdict(hs256_decoded(self.signing_secret(), token@), now),
            (forall|issued_at: u64|
                #![trigger session_token(self.signing_secret(), issued_at)]
                issuable(issued_at) && token@ == session_token(self.signing_secret(), issued_at)
                    ==> r == session_verdict(issued_at, now)),
            !three_components(token@) ==> r is Err && r->Err_0 == AuthError::MalformedToken,
    {
        let decoded = hs256_verify(self.jwt_secret.as_str().as_bytes(), token);
        check_claims(decoded, now)
    }

    /// Verify the provided token is still valid at the current wall-clock
    /// second. Structure and signature are checked before the clock is read.
    pub fn verify_token(&self, token: &str) -> (r: Result<(), AuthError>)
        ensures
            hs256_decoded(self.signing_secret(), token@) is Err ==> r == claims_verdict(
                hs256_decoded(self.signing_secret(), token@),
                0,
            ),
            !three_components(token@) ==> r is Err && r->Err_0 == AuthError::MalformedToken,
            r is Err && r->Err_0 == AuthError::ClockError || exists|now: u64|
                r == claims_verdict(hs256_decoded(self.signing_secret(), token@), now) && (
                forall|issued_at: u64|
                    #![trigger session_token(self.signing_secret(), issued_at)]
                    issuable(issued_at) && token@ == session_token(
                        self.signing_secret(),
                        issued_at,
                    ) ==> r == session_verdict(issued_at, now)),
    {
        let decoded = hs256_verify(self.jwt_secret.as_str().as_bytes(), token);
        if decoded.is_err() {
            return check_claims(decoded, 0);
        }
        match clock_now() {
            Some(now) => check_claims(decoded, now),
            None => Err(AuthError::ClockError),
        }
    }
}

} // verus!
