//! Stream source settings: the plan of a synchronisation, the defaults of an
//! update, and how a failed update is answered.

use vstd::prelude::*;
use vstd::utf8::encode_utf8;
use crate::errors::{api_error, is_error, ApiError, INTERNAL_SERVER_ERROR, NOT_FOUND};
use crate::models::{DefaultSourceResponse, DefaultSourceSetting, SyncSourcesRequest, UpdateDefaultSourceRequest};
use crate::text::{contains_bytes, find_bytes};

verus! {

/// One source row to be written by a synchronisation.
#[derive(Debug)]
pub struct SourceEntry {
    pub source_name: String,
    pub is_default: bool,
    pub priority: i32,
    pub is_active: bool,
}

/// `plan` writes the names of `names` in order, with priorities 1, 2, ...,
/// the first one as the default, all active.
pub open spec fn is_sync_plan(names: Seq<String>, plan: Seq<SourceEntry>) -> bool {
    &&& plan.len() == names.len()
    &&& forall|i: int|
        0 <= i < plan.len() ==> {
            &&& (#[trigger] plan[i]).source_name@ == names[i]@
            &&& plan[i].priority == i + 1
            &&& plan[i].is_default == (i == 0)
            &&& plan[i].is_active
        }
}

/// The rows that replace all sources when a list is synchronised: one per
/// name, in the order given, priorities counting from 1, the first name the
/// default. Names that occur twice stay twice here; the store keeps the first.
pub fn sync_plan(request: &SyncSourcesRequest) -> (r: Vec<SourceEntry>)
    requires
        request.sources@.len() < i32::MAX,
    ensures
        is_sync_plan(request.sources@, r@),
{
    let mut plan: Vec<SourceEntry> = Vec::new();
    let mut priority: i32 = 1;
    let mut i: usize = 0;
    while i < request.sources.len()
        invariant
            request.sources@.len() < i32::MAX,
            i <= request.sources@.len(),
            priority == i + 1,
            plan@.len() == i,
            forall|k: int|
                0 <= k < i ==> {
                    &&& (#[trigger] plan@[k]).source_name@ == request.sources@[k]@
                    &&& plan@[k].priority == k + 1
                    &&& plan@[k].is_default == (k == 0)
                    &&& plan@[k].is_active
                },
        decreases request.sources@.len() - i,
    {
        let name = request.sources[i].clone();
        plan.push(SourceEntry { source_name: name, is_default: priority == 1, priority, is_active: true });
        priority = priority + 1;
        i = i + 1;
    }
    plan
}

/// The count a synchronisation reports: the number of names sent.
pub fn sync_count(request: &SyncSourcesRequest) -> (r: i32)
    requires
        request.sources@.len() < i32::MAX,
    ensures
        r == request.sources@.len(),
{
    request.sources.len() as i32
}

/// The active flag an update writes: the requested one, `true` if absent.
pub fn requested_active(request: &UpdateDefaultSourceRequest) -> (r: bool)
    ensures
        r == (match request.is_active { Some(a) => a, None => true }),
{
    match request.is_active {
        Some(a) => a,
        None => true,
    }
}

/// The marker of a store error that found no row to update.
pub open spec fn no_rows_marker() -> Seq<char> {
    "no rows returned"@
}

/// How a failed update of the default source is answered: 404 `Source not
/// found` when the store found no such source, else 500 with the error text.
pub fn update_failure(error_text: &str) -> (r: ApiError)
    ensures
        contains_bytes(encode_utf8(error_text@), encode_utf8(no_rows_marker())) ==> is_error(
            r,
            NOT_FOUND,
            "Source not found"@,
        ),
        !contains_bytes(encode_utf8(error_text@), encode_utf8(no_rows_marker())) ==> is_error(
            r,
            INTERNAL_SERVER_ERROR,
            error_text@,
        ),
{
    let marker = "no rows returned";
    if find_bytes(error_text.as_bytes(), marker.as_bytes()) {
        api_error(NOT_FOUND, "Source not found")
    } else {
        api_error(INTERNAL_SERVER_ERROR, error_text)
    }
}

/// The answer listing the active sources and the current default, if any.
pub fn default_source_response(default_source: Option<String>, all_sources: Vec<DefaultSourceSetting>) -> (r: DefaultSourceResponse)
    ensures
        r.default_source == default_source,
        r.all_sources@ == all_sources@,
{
    DefaultSourceResponse { default_source, all_sources }
}

/// A synchronised list has exactly one default, its first source, and
/// priorities that count up from 1 in the order sent.
pub proof fn law_sync_single_default(names: Seq<String>, plan: Seq<SourceEntry>, i: int, j: int)
    requires
        is_sync_plan(names, plan),
        0 <= i < plan.len(),
        0 <= j < plan.len(),
    ensures
        plan[i].is_default <==> i == 0,
        plan[i].is_default && plan[j].is_default ==> i == j,
        i < j ==> plan[i].priority < plan[j].priority,
{
    assert(plan[i].priority == i + 1);
    assert(plan[j].priority == j + 1);
}

} // verus!
