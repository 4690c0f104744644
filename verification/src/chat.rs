//! Chat paging.

use vstd::prelude::*;
use crate::models::GetMessagesQuery;

verus! {

/// Messages sent when the client asks for no particular number.
pub const DEFAULT_MESSAGE_LIMIT: i64 = 50;

/// The most messages one request may ask for.
pub const MAX_MESSAGE_LIMIT: i64 = 100;

/// The limit a query resolves to: the requested one (50 if absent), capped at 100.
pub open spec fn resolved_limit(limit: Option<i64>) -> i64 {
    let l = match limit { Some(l) => l, None => DEFAULT_MESSAGE_LIMIT };
    if l < MAX_MESSAGE_LIMIT { l } else { MAX_MESSAGE_LIMIT }
}

/// The window of messages a query asks for: `(limit, offset)`, the limit
/// defaulting to 50 and capped at 100, the offset defaulting to 0. Neither is
/// checked further; a negative value is passed on as it is.
pub fn message_window(query: &GetMessagesQuery) -> (r: (i64, i64))
    ensures
        r.0 == resolved_limit(query.limit),
        r.1 == (match query.offset { Some(o) => o, None => 0 }),
{
    let requested = match query.limit {
        Some(l) => l,
        None => DEFAULT_MESSAGE_LIMIT,
    };
    let limit = if requested < MAX_MESSAGE_LIMIT { requested } else { MAX_MESSAGE_LIMIT };
    let offset = match query.offset {
        Some(o) => o,
        None => 0,
    };
    (limit, offset)
}

/// No query fetches more than 100 messages, and one that names no limit gets 50.
pub proof fn law_message_limit_capped(limit: Option<i64>)
    ensures
        resolved_limit(limit) <= MAX_MESSAGE_LIMIT,
        limit is None ==> resolved_limit(limit) == DEFAULT_MESSAGE_LIMIT,
        limit is Some && limit->0 <= MAX_MESSAGE_LIMIT ==> resolved_limit(limit) == limit->0,
{
}

/// The limit of a window is the requested one capped at 100: `min(l, 100)`
/// for every requested `l`, and 50 when none is requested.
pub proof fn law_message_limit_is_min(l: i64)
    ensures
        l <= 100 ==> resolved_limit(Some(l)) == l,
        l > 100 ==> resolved_limit(Some(l)) == 100,
        resolved_limit(None) == 50,
{
}

} // verus!
