//! Moderation rules: time-outs, profile edits by administrators, removals,
//! and the account created on first start.

use vstd::prelude::*;
use crate::accounts::{instant_nanos, Instant};
use crate::errors::{api_error, is_error, ApiError, BAD_REQUEST, NOT_FOUND};
use crate::ids::{parse_user_id, uuid_parse};
use crate::text::{int_text, push_int};

verus! {

/// The user a time-out request names: 400 `Invalid user ID` unless the id is
/// a UUID.
pub fn timeout_target(user_id: &str) -> (r: Result<u128, ApiError>)
    ensures
        uuid_parse(user_id@) matches Some(v) ==> r == Ok::<u128, ApiError>(v),
        uuid_parse(user_id@) is None ==> (r matches Err(e) && is_error(e, BAD_REQUEST, "Invalid user ID"@)),
{
    match parse_user_id(user_id) {
        Some(v) => Ok(v),
        None => Err(api_error(BAD_REQUEST, "Invalid user ID")),
    }
}

/// When a time-out of `minutes` minutes starting at `now` ends.
pub fn timeout_until(now: Instant, minutes: i64) -> (r: Instant)
    requires
        i64::MIN <= now.secs + minutes * 60 <= i64::MAX,
    ensures
        r.secs == now.secs + minutes * 60,
        r.nanos == now.nanos,
        instant_nanos(r) == instant_nanos(now) + minutes * 60_000_000_000,
{
    let secs = (now.secs as i128) + (minutes as i128) * 60;
    Instant { secs: secs as i64, nanos: now.nanos }
}

/// The confirmation of a time-out.
pub fn timeout_message(minutes: i64) -> (r: String)
    ensures
        r@ == "User timed out for "@ + int_text(minutes as int) + " minutes"@,
{
    let mut message = "User timed out for ".to_owned();
    push_int(&mut message, minutes as i128);
    message.append(" minutes");
    message
}

/// How an administrator's profile edit is written.
#[derive(Debug)]
pub enum ProfileWrite {
    /// The user has a profile: change the fields given, keep the others.
    Update,
    /// The user has none yet: create it from the fields given.
    Insert,
}

/// An edit updates an existing profile and creates a missing one.
pub fn profile_write(profile_exists: bool) -> (r: ProfileWrite)
    ensures
        profile_exists <==> r is Update,
{
    if profile_exists { ProfileWrite::Update } else { ProfileWrite::Insert }
}

/// A removal that removed nothing is answered with 404 and the message given.
pub fn removal_outcome(rows_affected: u64, not_found: &str) -> (r: Result<(), ApiError>)
    ensures
        rows_affected == 0 ==> (r matches Err(e) && is_error(e, NOT_FOUND, not_found@)),
        rows_affected > 0 ==> r is Ok,
{
    if rows_affected == 0 {
        Err(api_error(NOT_FOUND, not_found))
    } else {
        Ok(())
    }
}

/// Removing a chat message: 404 `Message not found` when there was none.
pub fn message_removal(rows_affected: u64) -> (r: Result<(), ApiError>)
    ensures
        rows_affected == 0 ==> (r matches Err(e) && is_error(e, NOT_FOUND, "Message not found"@)),
        rows_affected > 0 ==> r is Ok,
{
    removal_outcome(rows_affected, "Message not found")
}

/// Removing a playlist: 404 `Playlist not found` when the user had none with
/// that id.
pub fn playlist_removal(rows_affected: u64) -> (r: Result<(), ApiError>)
    ensures
        rows_affected == 0 ==> (r matches Err(e) && is_error(e, NOT_FOUND, "Playlist not found"@)),
        rows_affected > 0 ==> r is Ok,
{
    removal_outcome(rows_affected, "Playlist not found")
}

/// The administrator account created on first start.
#[derive(Debug)]
pub struct DefaultAdmin {
    pub username: String,
    pub email: String,
    pub password: String,
    pub tags: Vec<String>,
    pub memes: Vec<String>,
    pub name_color: String,
}

/// The default administrator is created only when no user is named `admin`.
pub fn needs_default_admin(admin_exists: bool) -> (r: bool)
    ensures
        r == !admin_exists,
{
    !admin_exists
}

/// The account created when there is no administrator yet, with the
/// documented default credentials (`admin` / `ReedStreamsAdmin{{0}}`).
pub fn default_admin() -> (r: DefaultAdmin)
    ensures
        r.username@ == "admin"@,
        r.email@ == "admin@reedstreams.local"@,
        r.password@ == "ReedStreamsAdmin{{0}}"@,
        r.tags@.len() == 1 && r.tags@[0]@ == "admin"@,
        r.memes@.len() == 1 && r.memes@[0]@ == "https://cdn.discordapp.com/emojis/123.png"@,
        r.name_color@ == "#ff0000"@,
{
    let mut tags: Vec<String> = Vec::new();
    tags.push("admin".to_owned());
    let mut memes: Vec<String> = Vec::new();
    memes.push("https://cdn.discordapp.com/emojis/123.png".to_owned());
    DefaultAdmin {
        username: "admin".to_owned(),
        email: "admin@reedstreams.local".to_owned(),
        password: "ReedStreamsAdmin{{0}}".to_owned(),
        tags,
        memes,
        name_color: "#ff0000".to_owned(),
    }
}

} // verus!
