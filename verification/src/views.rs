//! Page view tracking: one view per client address and match.

use vstd::prelude::*;
use crate::models::ViewResponse;

verus! {

/// A view is counted only when this address has not viewed the match before.
pub fn is_new_view(earlier_views_from_address: i64) -> (r: bool)
    ensures
        r == (earlier_views_from_address == 0),
{
    earlier_views_from_address == 0
}

/// The view count answered for a match: 0 when none could be read.
pub fn view_response(stored: Option<i32>) -> (r: ViewResponse)
    ensures
        r.views == (match stored { Some(v) => v, None => 0 }),
{
    match stored {
        Some(v) => ViewResponse { views: v },
        None => ViewResponse { views: 0 },
    }
}

} // verus!
