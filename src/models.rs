use vstd::prelude::*;

verus! {

/// Name of the cookie that carries the session token.
pub const TOKEN_COOKIE: &'static str = "market.token";

/// Name of the cookie that tells the frontend a session is open.
pub const LOGGED_IN_COOKIE: &'static str = "market.loggedIn";

/// Max duration of a user's session in minutes.
pub const SESSION_DURATION: i64 = 15;

/// Max duration of a user's session in seconds.
pub const SESSION_SECONDS: u64 = 900;

/// Length in bytes of a stored password credential.
pub const HASH_LEN: usize = 32;

/// A stored password credential: the output of the key derivation.
pub type PasswordHash = [u8; HASH_LEN];

/// Body of a registration request.
#[derive(Debug, Clone)]
pub struct UserReq {
    /// Unused; the request format demands an id.
    pub id: String,
    pub email: String,
    pub password: String,
}

/// A registered user, as the store keeps it.
#[derive(Debug, Clone)]
pub struct User {
    /// The user's UUID, as its 128-bit value.
    pub id: u128,
    pub email: String,
    pub hash: PasswordHash,
}

/// Body of a login request.
#[derive(Debug, Clone)]
pub struct TokenReq {
    /// Unused; the request format demands an id.
    pub id: String,
    pub email: String,
    pub password: String,
}

/// Configuration read once at startup.
#[derive(Debug, Clone)]
pub struct Settings {
    /// Cost of the key derivation; zero is refused.
    pub salt_iterations: u32,
    /// Installation-wide secret salt component.
    pub salt: String,
    /// Secret from which the token signing key is derived.
    pub jwt_secret: String,
    pub db_path: String,
    pub frontend_host: String,
}

/// Failures of the credential and token operations.
#[derive(Debug, Clone, Copy, PartialEq, Eq, Structural)]
pub enum AuthError {
    /// The password attempt does not match the stored credential.
    WrongCredential,
    /// The token is not a well-formed signed token.
    MalformedToken,
    /// The token's signature does not match its contents.
    BadSignature,
    /// The token was valid but its expiration has passed.
    ExpiredToken,
    /// Signing a token failed; with an HMAC key this does not happen.
    SigningError,
    /// The settings are unusable (zero iteration count).
    ConfigurationError,
    /// The system clock reads a time before the Unix epoch, or one too late
    /// for a session to end within the timestamp range.
    ClockError,
}

} // verus!
