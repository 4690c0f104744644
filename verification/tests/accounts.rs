use reedstreams::accounts::{
    auth_response, check_login, forgot_password_reply, hash_password, issue_reset_token,
    login_gate, new_user_id, password_verdict, registration_gate, reset_gate, username_gate,
    ForgotPasswordReply, Instant, LoginRecord, RESET_TOKEN_LIFETIME_HOURS, reset_token_expiry,
};

fn record(hash: &str, timeout_until: Option<Instant>) -> LoginRecord {
    LoginRecord {
        id: 0x67e5504410b1426f9247bb680e5fe0c8,
        username: "alice".to_string(),
        password_hash: hash.to_string(),
        is_admin: false,
        timeout_until,
    }
}

fn at(secs: i64, nanos: u32) -> Instant {
    Instant { secs, nanos }
}

#[test]
fn unknown_user_is_refused() {
    let e = login_gate(None, at(1_700_000_000, 0)).unwrap_err();
    assert_eq!(e.status, 401);
    assert_eq!(e.message, "Invalid credentials");
}

#[test]
fn timed_out_user_is_told_whole_minutes_left() {
    let now = at(1_700_000_000, 500);
    let e = login_gate(Some(record("h", Some(at(1_700_000_125, 500)))), now).unwrap_err();
    assert_eq!(e.status, 403);
    assert_eq!(e.message, "Account timed out. Try again in 2 minutes");
    let e = login_gate(Some(record("h", Some(at(1_700_000_059, 999_999_999)))), at(1_700_000_000, 0)).unwrap_err();
    assert_eq!(e.message, "Account timed out. Try again in 0 minutes");
}

#[test]
fn expired_time_out_lets_user_through() {
    let now = at(1_700_000_000, 0);
    let user = login_gate(Some(record("h", Some(at(1_700_000_000, 0)))), now).unwrap();
    assert_eq!(user.username, "alice");
    assert!(login_gate(Some(record("h", Some(at(1_600_000_000, 0)))), now).is_ok());
    assert!(login_gate(Some(record("h", None)), now).is_ok());
}

#[test]
fn password_verdict_cases() {
    let e = password_verdict(Err("boom".to_string())).unwrap_err();
    assert_eq!(e.status, 500);
    assert_eq!(e.message, "boom");
    let e = password_verdict(Ok(false)).unwrap_err();
    assert_eq!(e.status, 401);
    assert_eq!(e.message, "Invalid credentials");
    assert!(password_verdict(Ok(true)).is_ok());
}

#[test]
fn stored_password_logs_in_and_others_do_not() {
    let hash = hash_password("hunter2").unwrap();
    assert_eq!(hash.len(), 60);
    assert!(hash.starts_with("$2b$12$"));
    let now = at(1_700_000_000, 0);
    let ok = check_login(Some(record(&hash, None)), "hunter2", now).unwrap();
    assert_eq!(ok.id, 0x67e5504410b1426f9247bb680e5fe0c8);
    let e = check_login(Some(record(&hash, None)), "hunter3", now).unwrap_err();
    assert_eq!(e.status, 401);
    assert_eq!(e.message, "Invalid credentials");
}

#[test]
fn unreadable_stored_hash_is_a_server_error() {
    let e = check_login(Some(record("not a bcrypt hash", None)), "pw", at(0, 0)).unwrap_err();
    assert_eq!(e.status, 500);
    assert_eq!(e.message, bcrypt::verify("pw", "not a bcrypt hash").unwrap_err().to_string());
    assert!(!e.message.is_empty());
}

#[test]
fn timed_out_user_is_refused_before_password_check() {
    let e = check_login(Some(record("not a bcrypt hash", Some(at(10, 0)))), "pw", at(0, 0)).unwrap_err();
    assert_eq!(e.status, 403);
}

#[test]
fn gates_refuse_taken_names_and_bad_tokens() {
    let e = registration_gate(true).unwrap_err();
    assert_eq!(e.status, 409);
    assert_eq!(e.message, "Username or email already exists");
    assert!(registration_gate(false).is_ok());
    let e = username_gate(true).unwrap_err();
    assert_eq!(e.status, 409);
    assert_eq!(e.message, "Username already taken");
    assert!(username_gate(false).is_ok());
    let e = reset_gate(false).unwrap_err();
    assert_eq!(e.status, 400);
    assert_eq!(e.message, "Invalid or expired token");
    assert!(reset_gate(true).is_ok());
}

#[test]
fn reset_tokens_are_random_uuids() {
    let t = issue_reset_token();
    assert_eq!(t.len(), 36);
    let u = uuid::Uuid::parse_str(&t).unwrap();
    assert_eq!(u.get_version_num(), 4);
    assert_eq!(u.to_string(), t);
    assert_ne!(issue_reset_token(), t);
    assert_eq!(RESET_TOKEN_LIFETIME_HOURS, 24);
}

#[test]
fn new_user_ids_are_version_four() {
    let id = new_user_id();
    assert_eq!((id >> 76) & 0xf, 4);
    assert_eq!((id >> 62) & 0x3, 2);
}

#[test]
fn auth_response_carries_hyphenated_id() {
    let r = auth_response("tok".to_string(), 0x67e5504410b1426f9247bb680e5fe0c8, "alice".to_string(), true);
    assert_eq!(r.token, "tok");
    assert_eq!(r.user_id, "67e55044-10b1-426f-9247-bb680e5fe0c8");
    assert_eq!(r.username, "alice");
    assert!(r.is_admin);
    let z = auth_response(String::new(), 0, String::new(), false);
    assert_eq!(z.user_id, "00000000-0000-0000-0000-000000000000");
}

#[test]
fn forgot_password_reply_cases() {
    match forgot_password_reply("a@b.c".to_string(), None) {
        ForgotPasswordReply::Unknown => {}
        _ => panic!("expected the neutral answer"),
    }
    match forgot_password_reply("a@b.c".to_string(), Some(("alice".to_string(), "t".to_string()))) {
        ForgotPasswordReply::Issued { email, username, token } => {
            assert_eq!(email, "a@b.c");
            assert_eq!(username, "alice");
            assert_eq!(token, "t");
        }
        _ => panic!("expected an issued token"),
    }
}

#[test]
fn reset_tokens_expire_a_day_later() {
    let e = reset_token_expiry(at(1_700_000_000, 123));
    assert_eq!((e.secs, e.nanos), (1_700_086_400, 123));
}

#[test]
fn stored_hash_uses_cost_twelve_format() {
    let h = hash_password("").unwrap();
    assert_eq!(&h[..7], "$2b$12$");
}
