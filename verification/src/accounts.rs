//! Account rules: registration and username checks, password hashing and
//! verification with bcrypt, the login gate with its time-out, password
//! reset tokens, and the answer given on success.

use vstd::prelude::*;
use bcrypt::BcryptError;
use crate::errors::{
    api_error, is_error, ApiError, BAD_REQUEST, CONFLICT, FORBIDDEN, INTERNAL_SERVER_ERROR,
    UNAUTHORIZED,
};
use crate::ids::{id_text, new_id, uuid_hyphenated, uuid_parse, is_random_uuid};
use crate::models::AuthResponse;
use crate::text::{digit_char, int_text, push_int};

verus! {

#[verifier::external_type_specification]
#[verifier::external_body]
pub struct ExBcryptError(BcryptError);

/// What `bcrypt::hash` gives back.
pub type HashOutcome = Result<String, BcryptError>;

/// What `bcrypt::verify` gives back, its error taken as its text.
pub type VerifyOutcome = Result<bool, String>;

/// What `bcrypt::verify` reports for a password and a stored hash: `None`
/// when it refuses the hash, else whether the password matches it.
pub uninterp spec fn bcrypt_check(password: Seq<char>, hash: Seq<char>) -> Option<bool>;

/// The `Display` text of the error `bcrypt::verify` returns for a password and
/// a stored hash it refuses (it depends on these two alone: verify draws no
/// randomness).
pub uninterp spec fn bcrypt_check_failure(password: Seq<char>, hash: Seq<char>) -> Seq<char>;

/// `bcrypt::DEFAULT_COST`, the cost at which the crate recommends hashing: 12.
#[verifier::external_body]
fn bcrypt_default_cost() -> (c: u32)
    ensures
        c == 12,
{
    bcrypt::DEFAULT_COST
}

/// The start of a bcrypt hash in the `2b` format at a cost below 100:
/// `$2b$`, the cost in two digits, `$`.
pub open spec fn bcrypt_prefix(cost: u32) -> Seq<char> {
    seq!['$', '2', 'b', '$', digit_char((cost / 10) as int), digit_char((cost % 10) as int), '$']
}

/// `bcrypt::hash` with a random salt. A cost outside 4..=31 is refused. A
/// hash it produces is 60 characters long, starts with the `2b` prefix of
/// the cost it was given, and `bcrypt::verify` accepts the same password
/// against it. Whether the random source fails is not stated.
#[verifier::external_body]
fn bcrypt_hash(password: &str, cost: u32) -> (r: HashOutcome)
    ensures
        cost < 4 || cost > 31 ==> r is Err,
        r matches Ok(h) ==> h@.len() == 60 && bcrypt_check(password@, h@) == Some(true),
        r matches Ok(h) ==> h@.subrange(0, 7) == bcrypt_prefix(cost),
{
    bcrypt::hash(password, cost)
}

/// `bcrypt::verify`, its error given as the error's `Display` text: refuses
/// exactly the hashes that `bcrypt_check` maps to `None`, with the text
/// `bcrypt_check_failure`, and otherwise says whether the password matches.
#[verifier::external_body]
fn bcrypt_verify(password: &str, hash: &str) -> (r: VerifyOutcome)
    ensures
        r is Err <==> bcrypt_check(password@, hash@) is None,
        r matches Ok(b) ==> bcrypt_check(password@, hash@) == Some(b),
        r matches Err(text) ==> text@ == bcrypt_check_failure(password@, hash@),
{
    match bcrypt::verify(password, hash) {
        Ok(b) => Ok(b),
        Err(e) => Err(e.to_string()),
    }
}

/// The `Display` text of an error of `bcrypt::hash`. Nothing is stated of the
/// text: the only error that hashing at a valid cost can give comes from the
/// operating system's random source.
#[verifier::external_body]
fn bcrypt_error_text(e: &BcryptError) -> (r: String)
{
    e.to_string()
}

/// A point in time: whole seconds since the Unix epoch and the nanoseconds
/// past them.
#[derive(Clone, Copy, Debug)]
pub struct Instant {
    pub secs: i64,
    pub nanos: u32,
}

/// An instant in nanoseconds since the epoch.
pub open spec fn instant_nanos(t: Instant) -> int {
    t.secs * 1_000_000_000 + t.nanos
}

/// Whole minutes from `now` until `until` (for `until` later than `now`).
pub open spec fn minutes_between(now: Instant, until: Instant) -> int {
    (instant_nanos(until) - instant_nanos(now)) / 60_000_000_000
}

/// The message of a login refused during a time-out.
pub open spec fn timed_out_message(minutes: int) -> Seq<char> {
    "Account timed out. Try again in "@ + int_text(minutes) + " minutes"@
}

/// What the login query returns of a user.
#[derive(Debug)]
pub struct LoginRecord {
    pub id: u128,
    pub username: String,
    pub password_hash: String,
    pub is_admin: bool,
    pub timeout_until: Option<Instant>,
}

/// The user is timed out at `now`.
pub open spec fn is_timed_out(record: LoginRecord, now: Instant) -> bool {
    record.timeout_until is Some && instant_nanos(record.timeout_until->0) > instant_nanos(now)
}

fn nanos_of(t: &Instant) -> (r: i128)
    ensures
        r == instant_nanos(*t),
{
    (t.secs as i128) * 1_000_000_000i128 + (t.nanos as i128)
}

/// The checks of a login before its password is looked at: an unknown user
/// is refused with 401 `Invalid credentials`, a timed-out one with 403 and
/// the whole minutes left; anyone else passes.
pub fn login_gate(record: Option<LoginRecord>, now: Instant) -> (r: Result<LoginRecord, ApiError>)
    ensures
        record is None ==> (r matches Err(e) && is_error(e, UNAUTHORIZED, "Invalid credentials"@)),
        record is Some && is_timed_out(record->0, now) ==> (r matches Err(e) && is_error(
            e,
            FORBIDDEN,
            timed_out_message(minutes_between(now, record->0.timeout_until->0)),
        )),
        record is Some && !is_timed_out(record->0, now) ==> r == Ok::<LoginRecord, ApiError>(
            record->0,
        ),
{
    match record {
        None => Err(api_error(UNAUTHORIZED, "Invalid credentials")),
        Some(user) => {
            match &user.timeout_until {
                Some(until) => {
                    let until_ns = nanos_of(until);
                    let now_ns = nanos_of(&now);
                    if until_ns > now_ns {
                        let minutes = (until_ns - now_ns) / 60_000_000_000i128;
                        let mut message = "Account timed out. Try again in ".to_owned();
                        push_int(&mut message, minutes);
                        message.append(" minutes");
                        return Err(ApiError { status: FORBIDDEN, message });
                    }
                },
                None => {},
            }
            Ok(user)
        },
    }
}

/// What a password check decides: a check that failed is answered with 500
/// and its error text, a wrong password with 401 `Invalid credentials`.
pub fn password_verdict(checked: Result<bool, String>) -> (r: Result<(), ApiError>)
    ensures
        checked matches Err(text) ==> (r matches Err(e) && is_error(
            e,
            INTERNAL_SERVER_ERROR,
            text@,
        )),
        checked == Ok::<bool, String>(false) ==> (r matches Err(e) && is_error(
            e,
            UNAUTHORIZED,
            "Invalid credentials"@,
        )),
        checked == Ok::<bool, String>(true) ==> r is Ok,
{
    match checked {
        Err(text) => Err(ApiError { status: INTERNAL_SERVER_ERROR, message: text }),
        Ok(false) => Err(api_error(UNAUTHORIZED, "Invalid credentials")),
        Ok(true) => Ok(()),
    }
}

/// How a login attempt ends.
#[derive(Debug)]
pub enum LoginDecision {
    UnknownUser,
    TimedOut,
    CheckFailed,
    WrongPassword,
    Accepted,
}

/// The decision on a login: unknown users and timed-out users are refused
/// before the password is looked at; then bcrypt decides.
pub open spec fn login_decision(record: Option<LoginRecord>, password: Seq<char>, now: Instant) -> LoginDecision {
    match record {
        None => LoginDecision::UnknownUser,
        Some(user) => if is_timed_out(user, now) {
            LoginDecision::TimedOut
        } else {
            match bcrypt_check(password, user.password_hash@) {
                None => LoginDecision::CheckFailed,
                Some(false) => LoginDecision::WrongPassword,
                Some(true) => LoginDecision::Accepted,
            }
        },
    }
}

/// Decides a login: unknown and timed-out users are turned away first, then
/// bcrypt compares the password with the user's hash. Lets in exactly the
/// known, not timed-out users whose password matches.
pub fn check_login(record: Option<LoginRecord>, password: &str, now: Instant) -> (r: Result<
    LoginRecord,
    ApiError,
>)
    ensures
        ({
            match login_decision(record, password@, now) {
                LoginDecision::UnknownUser => r matches Err(e) && is_error(
                    e,
                    UNAUTHORIZED,
                    "Invalid credentials"@,
                ),
                LoginDecision::TimedOut => r matches Err(e) && is_error(
                    e,
                    FORBIDDEN,
                    timed_out_message(minutes_between(now, record->0.timeout_until->0)),
                ),
                LoginDecision::CheckFailed => r matches Err(e) && is_error(
                    e,
                    INTERNAL_SERVER_ERROR,
                    bcrypt_check_failure(password@, record->0.password_hash@),
                ),
                LoginDecision::WrongPassword => r matches Err(e) && is_error(
                    e,
                    UNAUTHORIZED,
                    "Invalid credentials"@,
                ),
                LoginDecision::Accepted => r == Ok::<LoginRecord, ApiError>(record->0),
            }
        }),
{
    let user = login_gate(record, now)?;
    let checked = bcrypt_verify(password, user.password_hash.as_str());
    match password_verdict(checked) {
        Ok(()) => Ok(user),
        Err(e) => Err(e),
    }
}

/// A password stored by `hash_password` lets its owner in, unless timed out.
pub proof fn law_stored_password_accepted(record: LoginRecord, password: Seq<char>, now: Instant)
    requires
        bcrypt_check(password, record.password_hash@) == Some(true),
        !is_timed_out(record, now),
    ensures
        login_decision(Some(record), password, now) is Accepted,
{
}

/// A timed-out user is refused whatever the password, and told a
/// non-negative number of minutes.
pub proof fn law_timed_out_refused(record: LoginRecord, password: Seq<char>, now: Instant)
    requires
        is_timed_out(record, now),
    ensures
        login_decision(Some(record), password, now) is TimedOut,
        minutes_between(now, record.timeout_until->0) >= 0,
{
}

/// Nobody gets in with a password that bcrypt does not match.
pub proof fn law_only_matching_password_accepted(record: Option<LoginRecord>, password: Seq<char>, now: Instant)
    requires
        login_decision(record, password, now) is Accepted,
    ensures
        record is Some,
        !is_timed_out(record->0, now),
        bcrypt_check(password, record->0.password_hash@) == Some(true),
{
}

/// Hashes a password for storage with bcrypt at its default cost, 12. A
/// failure is answered with 500 and the error text. A stored hash verifies
/// the same password.
pub fn hash_password(password: &str) -> (r: Result<String, ApiError>)
    ensures
        r matches Ok(h) ==> h@.len() == 60 && bcrypt_check(password@, h@) == Some(true),
        r matches Ok(h) ==> h@.subrange(0, 7) == "$2b$12$"@,
        r matches Err(e) ==> e.status == INTERNAL_SERVER_ERROR,
{
    match bcrypt_hash(password, bcrypt_default_cost()) {
        Ok(h) => {
            proof {
                reveal_strlit("$2b$12$");
                assert(bcrypt_prefix(12) =~= "$2b$12$"@);
            }
            Ok(h)
        },
        Err(e) => Err(ApiError { status: INTERNAL_SERVER_ERROR, message: bcrypt_error_text(&e) }),
    }
}

/// Registration goes ahead only when no user has the name or the email:
/// otherwise 409.
pub fn registration_gate(name_or_email_taken: bool) -> (r: Result<(), ApiError>)
    ensures
        name_or_email_taken ==> (r matches Err(e) && is_error(
            e,
            CONFLICT,
            "Username or email already exists"@,
        )),
        !name_or_email_taken ==> r is Ok,
{
    if name_or_email_taken {
        Err(api_error(CONFLICT, "Username or email already exists"))
    } else {
        Ok(())
    }
}

/// A new username is accepted only when no user has it: otherwise 409.
pub fn username_gate(name_taken: bool) -> (r: Result<(), ApiError>)
    ensures
        name_taken ==> (r matches Err(e) && is_error(e, CONFLICT, "Username already taken"@)),
        !name_taken ==> r is Ok,
{
    if name_taken {
        Err(api_error(CONFLICT, "Username already taken"))
    } else {
        Ok(())
    }
}

/// A password reset needs a valid, unused, unexpired token: otherwise 400.
pub fn reset_gate(token_found: bool) -> (r: Result<(), ApiError>)
    ensures
        token_found ==> r is Ok,
        !token_found ==> (r matches Err(e) && is_error(e, BAD_REQUEST, "Invalid or expired token"@)),
{
    if token_found {
        Ok(())
    } else {
        Err(api_error(BAD_REQUEST, "Invalid or expired token"))
    }
}

/// Hours for which a password reset token stays valid.
pub const RESET_TOKEN_LIFETIME_HOURS: i64 = 24;

/// When a password reset token issued at `now` expires: 24 hours later.
pub fn reset_token_expiry(now: Instant) -> (r: Instant)
    requires
        now.secs + RESET_TOKEN_LIFETIME_HOURS * 3600 <= i64::MAX,
    ensures
        r.secs == now.secs + RESET_TOKEN_LIFETIME_HOURS * 3600,
        r.nanos == now.nanos,
        instant_nanos(r) == instant_nanos(now) + 86_400_000_000_000,
{
    Instant { secs: now.secs + RESET_TOKEN_LIFETIME_HOURS * 3600, nanos: now.nanos }
}

/// A fresh password reset token: the text of a random UUID.
pub fn issue_reset_token() -> (r: String)
    ensures
        exists|v: u128| is_random_uuid(v) && r@ == #[trigger] uuid_hyphenated(v),
{
    let v = new_id();
    id_text(v)
}

/// A fresh user id: a random UUID value.
pub fn new_user_id() -> (r: u128)
    ensures
        is_random_uuid(r),
{
    new_id()
}

/// The answer to a successful registration, login or rename.
pub fn auth_response(token: String, user_id: u128, username: String, is_admin: bool) -> (r:
    AuthResponse)
    ensures
        r.token == token,
        r.user_id@ == uuid_hyphenated(user_id),
        uuid_parse(r.user_id@) == Some(user_id),
        r.username == username,
        r.is_admin == is_admin,
{
    AuthResponse { token, user_id: id_text(user_id), username, is_admin }
}

/// What `forgot-password` answers: a token issued for a known email, or the
/// same neutral answer for any other.
#[derive(Debug)]
pub enum ForgotPasswordReply {
    Issued { email: String, username: String, token: String },
    Unknown,
}

/// The answer for an email: issued with the account's username and the new
/// token when the email belongs to an account.
pub fn forgot_password_reply(email: String, account: Option<(String, String)>) -> (r:
    ForgotPasswordReply)
    ensures
        account is None ==> r is Unknown,
        account matches Some(a) ==> r == (ForgotPasswordReply::Issued {
            email,
            username: a.0,
            token: a.1,
        }),
{
    match account {
        None => ForgotPasswordReply::Unknown,
        Some((username, token)) => ForgotPasswordReply::Issued { email, username, token },
    }
}

/// A user whose time-out, taken as one instant (seconds times 10^9 plus
/// nanoseconds), is strictly later than now is refused as timed out, whatever
/// the password, and told the whole minutes between the two instants.
pub proof fn law_later_timeout_refused(record: LoginRecord, password: Seq<char>, now: Instant)
    requires
        record.timeout_until is Some,
        record.timeout_until->0.secs * 1_000_000_000 + record.timeout_until->0.nanos > now.secs
            * 1_000_000_000 + now.nanos,
    ensures
        login_decision(Some(record), password, now) is TimedOut,
        minutes_between(now, record.timeout_until->0) == ((record.timeout_until->0.secs
            * 1_000_000_000 + record.timeout_until->0.nanos) - (now.secs * 1_000_000_000
            + now.nanos)) / 60_000_000_000,
{
}

/// A user without a time-out, or whose time-out is not later than now, is not
/// refused as timed out: the password decides.
pub proof fn law_past_timeout_not_refused(record: LoginRecord, password: Seq<char>, now: Instant)
    requires
        record.timeout_until is Some ==> record.timeout_until->0.secs * 1_000_000_000
            + record.timeout_until->0.nanos <= now.secs * 1_000_000_000 + now.nanos,
    ensures
        !(login_decision(Some(record), password, now) is TimedOut),
        !(login_decision(Some(record), password, now) is UnknownUser),
{
}

/// An unknown user is refused as unknown, whatever the password and time.
pub proof fn law_unknown_user_refused(password: Seq<char>, now: Instant)
    ensures
        login_decision(None, password, now) is UnknownUser,
{
}

} // verus!
