//! Decisions of the HTTP handlers: what a user lookup leads to, which
//! cookies a login sets or clears, and how a failure is answered.
use crate::auth::{credential_of, issuable, session_token, Auth};
use crate::models::{AuthError, User, UserReq, LOGGED_IN_COOKIE, SESSION_SECONDS, TOKEN_COOKIE};
use vstd::prelude::*;
use vstd::string::*;

verus! {

/// Failures of a request handler.
#[derive(Debug, Clone, Copy, PartialEq, Eq, Structural)]
pub enum HandlerError {
    /// Authentication failed.
    Auth(AuthError),
    /// The user store failed.
    Db,
    /// A user with that email already exists.
    Conflict,
    /// The request body could not be read.
    BadRequest,
    /// No user with that email exists.
    NotFound,
}

/// What looking a user up by email in the store gave.
#[derive(Debug, Clone)]
pub enum Lookup {
    Found(User),
    Missing,
    Failed,
}

/// The answer to a failed request.
#[derive(Debug, Clone)]
pub struct ErrorReply {
    /// HTTP status code.
    pub status: u16,
    /// Title of the error document.
    pub title: String,
    /// Whether the session cookies are cleared.
    pub clear_session: bool,
}

/// The decimal digit for `d < 10`.
pub open spec fn digit_char(d: nat) -> char {
    seq!['0', '1', '2', '3', '4', '5', '6', '7', '8', '9'][d as int]
}

/// Decimal notation of `n`, without leading zeros.
pub open spec fn decimal(n: nat) -> Seq<char>
    decreases n,
{
    if n < 10 {
        seq![digit_char(n)]
    } else {
        decimal(n / 10).push(digit_char(n % 10))
    }
}

fn digit_str(d: u64) -> (r: &'static str)
    requires
        d < 10,
    ensures
        r@ == seq![digit_char(d as nat)],
{
    proof {
        reveal_strlit("0");
        reveal_strlit("1");
        reveal_strlit("2");
        reveal_strlit("3");
        reveal_strlit("4");
        reveal_strlit("5");
        reveal_strlit("6");
        reveal_strlit("7");
        reveal_strlit("8");
        reveal_strlit("9");
    }
    match d {
        0 => "0",
        1 => "1",
        2 => "2",
        3 => "3",
        4 => "4",
        5 => "5",
        6 => "6",
        7 => "7",
        8 => "8",
        _ => "9",
    }
}

/// Writes `n` in decimal.
pub fn decimal_string(n: u64) -> (r: String)
    ensures
        r@ == decimal(n as nat),
    decreases n,
{
    if n < 10 {
        String::from_str(digit_str(n))
    } else {
        let mut s = decimal_string(n / 10);
        s.append(digit_str(n % 10));
        s
    }
}

/// The cookie that tells the frontend a session is open for one session.
pub open spec fn logged_in_cookie_text() -> Seq<char> {
    LOGGED_IN_COOKIE@ + "=true; Max-Age="@ + decimal(SESSION_SECONDS as nat) + "; Path=/"@
}

/// The HTTP-only cookie that carries `token` for one session.
pub open spec fn token_cookie_text(token: Seq<char>) -> Seq<char> {
    TOKEN_COOKIE@ + "="@ + token + "; Max-Age="@ + decimal(SESSION_SECONDS as nat)
        + "; Path=/; HttpOnly"@
}

/// A cookie that clears `name` at once.
pub open spec fn expired_cookie_text(name: Seq<char>, http_only: bool) -> Seq<char> {
    if http_only {
        name + "=; Max-Age=0; Path=/"@ + "; HttpOnly"@
    } else {
        name + "=; Max-Age=0; Path=/"@
    }
}

/// Status, title and whether the session is cleared, for a failed request:
/// `route_missing` tells, when no handler error was raised, whether no route
/// matched.
pub open spec fn reply_for(err: Option<HandlerError>, route_missing: bool) -> (u16, Seq<char>, bool) {
    match err {
        Some(HandlerError::NotFound) => (404, "Resource not found"@, false),
        Some(HandlerError::BadRequest) => (400, "Request is invalid"@, false),
        Some(HandlerError::Conflict) => (409, "Resource already exists"@, false),
        Some(HandlerError::Db) => (500, "Database failure"@, false),
        Some(HandlerError::Auth(_)) => (401, "Authorization failure"@, true),
        None => if route_missing {
            (404, "Resource not found"@, false)
        } else {
            (500, "Unhandled rejection"@, false)
        },
    }
}

/// The logged-in cookie set at login.
pub fn logged_in_cookie() -> (r: String)
    ensures
        r@ == logged_in_cookie_text(),
{
    let mut s = String::from_str(LOGGED_IN_COOKIE);
    s.append("=true; Max-Age=");
    let age = decimal_string(SESSION_SECONDS);
    s.append(age.as_str());
    s.append("; Path=/");
    assert(s@ =~= logged_in_cookie_text());
    s
}

/// The token cookie set at login.
pub fn token_cookie(token: &str) -> (r: String)
    ensures
        r@ == token_cookie_text(token@),
{
    let mut s = String::from_str(TOKEN_COOKIE);
    s.append("=");
    s.append(token);
    s.append("; Max-Age=");
    let age = decimal_string(SESSION_SECONDS);
    s.append(age.as_str());
    s.append("; Path=/; HttpOnly");
    assert(s@ =~= token_cookie_text(token@));
    s
}

/// A cookie that clears `name`, marked HTTP-only when asked.
pub fn expired_cookie(name: &str, http_only: bool) -> (r: String)
    ensures
        r@ == expired_cookie_text(name@, http_only),
{
    let mut s = String::from_str(name);
    s.append("=; Max-Age=0; Path=/");
    if http_only {
        s.append("; HttpOnly");
    }
    s
}

/// The answer to a failed request.
pub fn rejection_reply(err: Option<HandlerError>, route_missing: bool) -> (r: ErrorReply)
    ensures
        (r.status, r.title@, r.clear_session) == reply_for(err, route_missing),
{
    let (status, title, clear_session): (u16, &str, bool) = match err {
        Some(HandlerError::NotFound) => (404, "Resource not found", false),
        Some(HandlerError::BadRequest) => (400, "Request is invalid", false),
        Some(HandlerError::Conflict) => (409, "Resource already exists", false),
        Some(HandlerError::Db) => (500, "Database failure", false),
        Some(HandlerError::Auth(_)) => (401, "Authorization failure", true),
        None => {
            if route_missing {
                (404, "Resource not found", false)
            } else {
                (500, "Unhandled rejection", false)
            }
        },
    };
    ErrorReply { status, title: String::from_str(title), clear_session }
}

/// Registers a user: refused when the lookup found one with that email or
/// failed; otherwise the new user carries `id`, the email and the credential
/// derived from the password.
pub fn register(auth: &Auth, existing: &Lookup, id: u128, req: UserReq) -> (r: Result<User, HandlerError>)
    requires
        auth.wf(),
        auth.kdf_inputs_fit(req.email@, req.password@),
    ensures
        existing is Found ==> r is Err && r->Err_0 == HandlerError::Conflict,
        existing is Failed ==> r is Err && r->Err_0 == HandlerError::Db,
        existing is Missing ==> r is Ok && r->Ok_0.id == id && r->Ok_0.email@ == req.email@
            && r->Ok_0.hash@ == credential_of(
            auth.iterations(),
            auth.salt_component(),
            req.email@,
            req.password@,
        ),
{
    match existing {
        Lookup::Found(_) => Err(HandlerError::Conflict),
        Lookup::Failed => Err(HandlerError::Db),
        Lookup::Missing => {
            let hash = auth.create_hash(req.email.as_str(), req.password.as_str());
            Ok(User { id, email: req.email, hash })
        },
    }
}

/// Logs a user in: refused when the lookup found nobody or failed, or when
/// the password does not match; otherwise a token for one session.
pub fn login(auth: &Auth, found: &Lookup, password_attempt: &str) -> (r: Result<String, HandlerError>)
    requires
        auth.wf(),
        found is Found ==> auth.kdf_inputs_fit(found->Found_0.email@, password_attempt@),
    ensures
        found is Missing ==> r is Err && r->Err_0 == HandlerError::NotFound,
        found is Failed ==> r is Err && r->Err_0 == HandlerError::Db,
        found is Found && found->Found_0.hash@ != credential_of(
            auth.iterations(),
            auth.salt_component(),
            found->Found_0.email@,
            password_attempt@,
        ) ==> r is Err && r->Err_0 == HandlerError::Auth(AuthError::WrongCredential),
        found is Found && found->Found_0.hash@ == credential_of(
            auth.iterations(),
            auth.salt_component(),
            found->Found_0.email@,
            password_attempt@,
        ) ==> r is Ok || (r is Err && r->Err_0 == HandlerError::Auth(AuthError::ClockError)),
        r is Ok ==> found is Found && found->Found_0.hash@ == credential_of(
            auth.iterations(),
            auth.salt_component(),
            found->Found_0.email@,
            password_attempt@,
        ) && exists|t: u64| issuable(t) && r->Ok_0@ == session_token(auth.signing_secret(), t),
        found is Found && r is Err ==> r->Err_0 is Auth,
{
    match found {
        Lookup::Found(user) => match auth.create_token(user, password_attempt) {
            Ok(token) => Ok(token),
            Err(e) => Err(HandlerError::Auth(e)),
        },
        Lookup::Missing => Err(HandlerError::NotFound),
        Lookup::Failed => Err(HandlerError::Db),
    }
}

} // verus!
