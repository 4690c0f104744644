use reedstreams::admin::{
    default_admin, message_removal, needs_default_admin, playlist_removal, profile_write,
    timeout_message, timeout_target, timeout_until, ProfileWrite,
};
use reedstreams::chat::message_window;
use reedstreams::models::{GetMessagesQuery, SyncSourcesRequest, UpdateDefaultSourceRequest};
use reedstreams::profiles::check_profile_pic;
use reedstreams::session::{session_step, SessionAction, SessionEvent, SessionPhase};
use reedstreams::sources::{requested_active, sync_count, sync_plan, update_failure};
use reedstreams::views::{is_new_view, view_response};

fn q(limit: Option<i64>, offset: Option<i64>) -> GetMessagesQuery {
    GetMessagesQuery { limit, offset }
}

#[test]
fn message_window_defaults_and_caps() {
    assert_eq!(message_window(&q(None, None)), (50, 0));
    assert_eq!(message_window(&q(Some(20), Some(40))), (20, 40));
    assert_eq!(message_window(&q(Some(100), None)), (100, 0));
    assert_eq!(message_window(&q(Some(101), None)), (100, 0));
    assert_eq!(message_window(&q(Some(-5), Some(-1))), (-5, -1));
}

#[test]
fn profile_pic_must_be_image_data_url() {
    let e = check_profile_pic("http://example.com/a.png").unwrap_err();
    assert_eq!(e.status, 400);
    assert_eq!(e.message, "Invalid image format. Must be base64 data URL");
    assert!(check_profile_pic("data:image").is_err());
    assert!(check_profile_pic("data:image/png;base64,AAAA").is_ok());
}

#[test]
fn profile_pic_size_limit() {
    let max_ok = "data:image/".to_string() + &"A".repeat(2_796_202 - 11);
    assert_eq!(max_ok.len() * 3 / 4, 2_097_151);
    assert!(check_profile_pic(&max_ok).is_ok());
    let edge = "data:image/".to_string() + &"A".repeat(2_796_203 - 11);
    assert_eq!(edge.len() * 3 / 4, 2_097_152);
    assert!(check_profile_pic(&edge).is_ok());
    let big = "data:image/".to_string() + &"A".repeat(2_796_204 - 11);
    let e = check_profile_pic(&big).unwrap_err();
    assert_eq!(e.status, 400);
    assert_eq!(e.message, "Image too large. Max 2MB");
}

#[test]
fn sync_plan_orders_and_picks_first_default() {
    let req = SyncSourcesRequest { sources: vec!["alpha".to_string(), "beta".to_string(), "gamma".to_string()] };
    let plan = sync_plan(&req);
    assert_eq!(plan.len(), 3);
    assert_eq!(plan[0].source_name, "alpha");
    assert!(plan[0].is_default && !plan[1].is_default && !plan[2].is_default);
    assert_eq!((plan[0].priority, plan[1].priority, plan[2].priority), (1, 2, 3));
    assert!(plan.iter().all(|e| e.is_active));
    assert_eq!(sync_count(&req), 3);
    let empty = SyncSourcesRequest { sources: vec![] };
    assert!(sync_plan(&empty).is_empty());
    assert_eq!(sync_count(&empty), 0);
}

#[test]
fn update_failure_maps_missing_row_to_not_found() {
    let e = update_failure("no rows returned by a query that expected to return at least one row");
    assert_eq!(e.status, 404);
    assert_eq!(e.message, "Source not found");
    let e = update_failure("connection refused");
    assert_eq!(e.status, 500);
    assert_eq!(e.message, "connection refused");
}

#[test]
fn update_defaults_to_active() {
    let mut req = UpdateDefaultSourceRequest { source_name: "a".to_string(), is_default: true, priority: None, is_active: None };
    assert!(requested_active(&req));
    req.is_active = Some(false);
    assert!(!requested_active(&req));
}

#[test]
fn timeout_target_and_message() {
    assert_eq!(timeout_target("67e55044-10b1-426f-9247-bb680e5fe0c8").unwrap(), 0x67e5504410b1426f9247bb680e5fe0c8);
    let e = timeout_target("42").unwrap_err();
    assert_eq!(e.status, 400);
    assert_eq!(e.message, "Invalid user ID");
    assert_eq!(timeout_message(30), "User timed out for 30 minutes");
    assert_eq!(timeout_message(0), "User timed out for 0 minutes");
    assert_eq!(timeout_message(-7), "User timed out for -7 minutes");
    assert_eq!(timeout_message(i64::MIN), format!("User timed out for {} minutes", i64::MIN));
}

#[test]
fn removals_and_profile_writes() {
    let e = message_removal(0).unwrap_err();
    assert_eq!((e.status, e.message.as_str()), (404, "Message not found"));
    assert!(message_removal(1).is_ok());
    let e = playlist_removal(0).unwrap_err();
    assert_eq!((e.status, e.message.as_str()), (404, "Playlist not found"));
    assert!(playlist_removal(3).is_ok());
    assert!(matches!(profile_write(true), ProfileWrite::Update));
    assert!(matches!(profile_write(false), ProfileWrite::Insert));
}

#[test]
fn default_admin_account() {
    assert!(needs_default_admin(false));
    assert!(!needs_default_admin(true));
    let a = default_admin();
    assert_eq!(a.username, "admin");
    assert_eq!(a.email, "admin@reedstreams.local");
    assert_eq!(a.password, "ReedStreamsAdmin{{0}}");
    assert_eq!(a.tags, vec!["admin".to_string()]);
    assert_eq!(a.name_color, "#ff0000");
}

#[test]
fn session_counts_in_and_out_once() {
    let (p, a) = session_step(SessionPhase::Idle, SessionEvent::Connected);
    assert!(matches!(a, SessionAction::JoinAndSendCount));
    let (p, a) = session_step(p, SessionEvent::InitialSent);
    assert!(matches!(a, SessionAction::Subscribe));
    let (p, a) = session_step(p, SessionEvent::Finished);
    assert!(matches!(a, SessionAction::Leave));
    let (p, a) = session_step(p, SessionEvent::Finished);
    assert!(matches!(a, SessionAction::Wait));
    assert!(matches!(p, SessionPhase::Closed));
}

#[test]
fn session_dead_on_arrival_leaves_at_once() {
    let (p, _) = session_step(SessionPhase::Idle, SessionEvent::Connected);
    let (p, a) = session_step(p, SessionEvent::InitialFailed);
    assert!(matches!(a, SessionAction::Leave));
    assert!(matches!(p, SessionPhase::Closed));
    let (_, a) = session_step(SessionPhase::Idle, SessionEvent::Finished);
    assert!(matches!(a, SessionAction::Wait));
}

#[test]
fn views_count_once_per_address() {
    assert!(is_new_view(0));
    assert!(!is_new_view(1));
    assert_eq!(view_response(Some(12)).views, 12);
    assert_eq!(view_response(None).views, 0);
}

#[test]
fn timeout_ends_after_the_given_minutes() {
    let now = reedstreams::accounts::Instant { secs: 1_700_000_000, nanos: 5 };
    let t = timeout_until(now, 30);
    assert_eq!((t.secs, t.nanos), (1_700_001_800, 5));
    let back = timeout_until(now, -1);
    assert_eq!(back.secs, 1_699_999_940);
}
