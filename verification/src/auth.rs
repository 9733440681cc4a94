use vstd::prelude::*;
use argon2::password_hash::{Error as PasswordHashError, PasswordHash, SaltString};
use argon2::password_hash::{PasswordHasher, PasswordVerifier};
use argon2::password_hash::rand_core::OsRng;
use argon2::Argon2;
use crate::error::{
    ApiError, ApiErrorView, api_error, STATUS_CONFLICT, STATUS_INTERNAL_SERVER_ERROR, STATUS_UNAUTHORIZED,
};
use crate::text::utf8;

verus! {

/// A sign-up request.
pub struct RegisterRequest {
    pub email: String,
    pub password: String,
}

/// A sign-in request.
pub struct LoginRequest {
    pub email: String,
    pub password: String,
}

/// A request to play as a guest under a nickname.
pub struct GuestAuthRequest {
    pub nickname: String,
}

/// The reply to a successful sign-up or sign-in.
pub struct AuthResponse {
    pub token: String,
    pub user_id: u128,
    pub message: String,
}

/// What a session token says: the user it belongs to and when it expires
/// (seconds since the Unix epoch).
pub struct Claims {
    pub sub: u128,
    pub exp: usize,
}

#[verifier::external_type_specification]
#[verifier::external_body]
pub struct ExPasswordHash<'a>(PasswordHash<'a>);

#[verifier::external_type_specification]
#[verifier::external_body]
pub struct ExPasswordHashError(PasswordHashError);

/// Whether `phc` is a well-formed PHC string (`PasswordHash::new` accepts it).
pub uninterp spec fn phc_parses(phc: Seq<char>) -> bool;

/// Whether Argon2, run with the algorithm, version, parameters and salt that the
/// PHC string `phc` records, turns `password` into the output that `phc` records
/// (`Argon2::verify_password` accepts it).
pub uninterp spec fn argon2_accepts(password: Seq<u8>, phc: Seq<char>) -> bool;

/// A stored password hash together with its parsed form.
pub struct StoredHash<'a> {
    text: &'a str,
    parsed: PasswordHash<'a>,
}

impl<'a> StoredHash<'a> {
    pub closed spec fn text(&self) -> Seq<char> {
        self.text@
    }
}

/// Longest password, in bytes, that Argon2 hashes.
pub const MAX_PASSWORD_BYTES: u64 = 0xFFFF_FFFF;

/// The start of every PHC string the default Argon2 configuration writes: the
/// Argon2id algorithm.
pub open spec fn argon2id_prefix() -> Seq<char> {
    "$argon2id$"@
}

/// Calls `Argon2::hash_password` with the default Argon2 configuration (Argon2id)
/// under a salt drawn by `SaltString::generate` from the operating system's
/// random source, and renders the result as a PHC string. Stated: it succeeds
/// for every password of at most [`MAX_PASSWORD_BYTES`] bytes (the generated
/// salt is 16 bytes, within Argon2's bounds); a string it returns begins with
/// `$argon2id$`, parses as a PHC string, and Argon2 verification accepts
/// `password` against it (the round trip the argon2 crate documents). Not
/// stated: the salt, which is random.
#[verifier::external_body]
fn argon2_hash_fresh_salt(password: &[u8]) -> (r: Result<String, PasswordHashError>)
    ensures
        password@.len() <= MAX_PASSWORD_BYTES ==> r is Ok,
        r matches Ok(phc) ==> phc_parses(phc@) && argon2_accepts(password@, phc@)
            && argon2id_prefix().is_prefix_of(phc@),
{
    Argon2::default().hash_password(password, &SaltString::generate(&mut OsRng)).map(|h| h.to_string())
}

/// Calls `PasswordHash::new`; it succeeds exactly on well-formed PHC strings.
#[verifier::external_body]
fn parse_stored_hash<'a>(text: &'a str) -> (r: Result<StoredHash<'a>, PasswordHashError>)
    ensures
        r is Ok <==> phc_parses(text@),
        r matches Ok(h) ==> h.text() == text@,
{
    PasswordHash::new(text).map(|parsed| StoredHash { text, parsed })
}

/// Calls `Argon2::verify_password` with the default Argon2 configuration on the
/// parsed form of `stored`; the result is whether it accepts `password`.
#[verifier::external_body]
fn argon2_verify(password: &[u8], stored: &StoredHash) -> (ok: bool)
    ensures
        ok == argon2_accepts(password@, stored.text()),
{
    Argon2::default().verify_password(password, &stored.parsed).is_ok()
}

/// Calls `to_string` on a password-hashing error. Nothing is stated of the text.
#[verifier::external_body]
fn password_error_text(e: &PasswordHashError) -> String {
    e.to_string()
}

/// `phc` is a hash this service issues for `password`: a well-formed PHC string
/// against which Argon2 accepts the password.
pub open spec fn issued_for(password: Seq<char>, phc: Seq<char>) -> bool {
    phc_parses(phc) && argon2_accepts(utf8(password), phc)
}

/// Hashes a new account's password with Argon2id under a fresh random salt.
/// It succeeds for every password of at most [`MAX_PASSWORD_BYTES`] bytes; a
/// failure is the service's (status 500, with the hasher's error text).
pub fn hash_new_password(password: &str) -> (r: Result<String, ApiError>)
    ensures
        utf8(password@).len() <= MAX_PASSWORD_BYTES ==> r is Ok,
        r matches Ok(phc) ==> issued_for(password@, phc@) && argon2id_prefix().is_prefix_of(phc@),
        r matches Err(e) ==> e.status == STATUS_INTERNAL_SERVER_ERROR,
{
    match argon2_hash_fresh_salt(password.as_bytes()) {
        Ok(phc) => Ok(phc),
        Err(e) => Err(ApiError { status: STATUS_INTERNAL_SERVER_ERROR, message: password_error_text(&e) }),
    }
}

/// Whether a sign-up with `email` first deletes the existing account of that
/// email: in demo mode, where a test-account email is configured (non-empty),
/// a sign-up with exactly that email starts from a fresh account.
pub fn resets_test_account(test_email: &String, email: &String) -> (r: bool)
    ensures
        r == (test_email@.len() > 0 && test_email@ == email@),
{
    !test_email.as_str().is_empty() && *test_email == *email
}

pub open spec fn email_taken_message() -> Seq<char> {
    "Email-ul este deja folosit!"@
}

pub open spec fn registered_message() -> Seq<char> {
    "Cont creat cu succes. Setează-ți nickname-ul!"@
}

pub open spec fn logged_in_message() -> Seq<char> {
    "Login reușit!"@
}

pub open spec fn lookup_failed_message() -> Seq<char> {
    "Eroare DB"@
}

pub open spec fn bad_credentials_message() -> Seq<char> {
    "Email sau parolă greșită!"@
}

pub open spec fn no_password_message() -> Seq<char> {
    "Contul nu are o parolă setată!"@
}

pub open spec fn unreadable_hash_message() -> Seq<char> {
    "Eroare parsare hash"@
}

/// The refusal of a sign-up whose email is already registered.
pub fn email_taken() -> (e: ApiError)
    ensures
        e@ == api_error(STATUS_CONFLICT, email_taken_message()),
{
    ApiError::new(STATUS_CONFLICT, "Email-ul este deja folosit!")
}

/// The reply to a sign-up that created the account `user_id`.
pub fn registered(token: String, user_id: u128) -> (r: AuthResponse)
    ensures
        r.token == token,
        r.user_id == user_id,
        r.message@ == registered_message(),
{
    AuthResponse { token, user_id, message: "Cont creat cu succes. Setează-ți nickname-ul!".to_owned() }
}

/// The reply to a sign-in into the account `user_id`.
pub fn logged_in(token: String, user_id: u128) -> (r: AuthResponse)
    ensures
        r.token == token,
        r.user_id == user_id,
        r.message@ == logged_in_message(),
{
    AuthResponse { token, user_id, message: "Login reușit!".to_owned() }
}

/// What looking up an active account by email came to.
pub enum UserLookup {
    /// The database reported an error.
    Failed,
    /// No active account has the email.
    NotFound,
    /// The account, with its stored password hash (none for an account that
    /// signs in through another provider).
    Found { id: u128, password_hash: Option<String> },
}

/// The outcome of a sign-in with `password` for the account `lookup` found:
/// the account's id, or the refusal.
pub open spec fn login_outcome(lookup: UserLookup, password: Seq<char>) -> Result<u128, ApiErrorView> {
    match lookup {
        UserLookup::Failed => Err(api_error(STATUS_INTERNAL_SERVER_ERROR, lookup_failed_message())),
        UserLookup::NotFound => Err(api_error(STATUS_UNAUTHORIZED, bad_credentials_message())),
        UserLookup::Found { id, password_hash } => match password_hash {
            None => Err(api_error(STATUS_UNAUTHORIZED, no_password_message())),
            Some(h) => if !phc_parses(h@) {
                Err(api_error(STATUS_INTERNAL_SERVER_ERROR, unreadable_hash_message()))
            } else if !argon2_accepts(utf8(password), h@) {
                Err(api_error(STATUS_UNAUTHORIZED, bad_credentials_message()))
            } else {
                Ok(id)
            },
        },
    }
}

pub open spec fn result_view(r: Result<u128, ApiError>) -> Result<u128, ApiErrorView> {
    match r {
        Ok(id) => Ok(id),
        Err(e) => Err(e@),
    }
}

/// A password that a sign-up hashed signs in: for an account whose stored hash
/// was issued for `password`, signing in with that same password yields the
/// account.
pub proof fn law_registered_password_signs_in(id: u128, password: Seq<char>, stored: String)
    requires
        issued_for(password, stored@),
    ensures
        login_outcome(UserLookup::Found { id, password_hash: Some(stored) }, password) == Ok::<
            u128,
            ApiErrorView,
        >(id),
{
}

/// Checks a sign-in with `password` against the account found by its email.
pub fn check_login(lookup: &UserLookup, password: &str) -> (r: Result<u128, ApiError>)
    ensures
        result_view(r) == login_outcome(*lookup, password@),
{
    match lookup {
        UserLookup::Failed => Err(ApiError::new(STATUS_INTERNAL_SERVER_ERROR, "Eroare DB")),
        UserLookup::NotFound => Err(ApiError::new(STATUS_UNAUTHORIZED, "Email sau parolă greșită!")),
        UserLookup::Found { id, password_hash } => match password_hash {
            None => Err(ApiError::new(STATUS_UNAUTHORIZED, "Contul nu are o parolă setată!")),
            Some(h) => match parse_stored_hash(h.as_str()) {
                Err(_) => Err(ApiError::new(STATUS_INTERNAL_SERVER_ERROR, "Eroare parsare hash")),
                Ok(stored) => if argon2_verify(password.as_bytes(), &stored) {
                    Ok(*id)
                } else {
                    Err(ApiError::new(STATUS_UNAUTHORIZED, "Email sau parolă greșită!"))
                },
            },
        },
    }
}

/// How long a session token stays valid: thirty days, in seconds.
pub const SESSION_SECONDS: i64 = 2592000;

/// The latest Unix time at which a thirty-day session can still end within the
/// range of dates the service's clock represents (up to the end of year 262142).
pub const LATEST_SESSION_START: i64 = 8210264284799;

/// The claims of a session for `user_id` that starts at Unix time `now`: it
/// expires thirty days later (the expiry is carried as a `usize`, so a time
/// before 1970 wraps around as two's complement does).
pub fn session_claims_at(user_id: u128, now: i64) -> (c: Claims)
    requires
        now <= LATEST_SESSION_START,
    ensures
        c.sub == user_id,
        c.exp == (now + SESSION_SECONDS) as usize,
{
    let end: i64 = now + SESSION_SECONDS;
    Claims { sub: user_id, exp: end as usize }
}

/// Calls `chrono::Utc::now` and returns its Unix timestamp. Nothing is stated
/// of it: it is the time.
#[verifier::external_body]
fn unix_now() -> i64 {
    chrono::Utc::now().timestamp()
}

/// The expiry of a session that starts at Unix time `now`.
pub open spec fn session_expiry(now: i64) -> usize {
    (now + SESSION_SECONDS) as usize
}

/// The claims of a session for `user_id` that starts at Unix time `now`;
/// none where the session could not end within the dates the clock represents.
pub open spec fn session_for(user_id: u128, now: i64) -> Option<Claims> {
    if now <= LATEST_SESSION_START {
        Some(Claims { sub: user_id, exp: session_expiry(now) })
    } else {
        None
    }
}

/// The claims of a session for `user_id` that starts at Unix time `now`: they
/// expire thirty days later; a start after [`LATEST_SESSION_START`] is refused.
pub fn session_claims_for(user_id: u128, now: i64) -> (c: Option<Claims>)
    ensures
        c == session_for(user_id, now),
        c is Some <==> now <= LATEST_SESSION_START,
        c matches Some(x) ==> x.sub == user_id && x.exp == session_expiry(now),
{
    if now <= LATEST_SESSION_START {
        Some(session_claims_at(user_id, now))
    } else {
        None
    }
}

/// The claims of a session for `user_id` starting now: those of
/// [`session_claims_for`] at the clock's reading.
pub fn issue_session_claims(user_id: u128) -> (c: Option<Claims>)
    ensures
        exists|now: i64| c == #[trigger] session_for(user_id, now),
{
    let now = unix_now();
    session_claims_for(user_id, now)
}

} // verus!
