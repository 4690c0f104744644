use reedstreams::headers::{bearer_token, client_ip, header_text, user_id_from_subject};

#[test]
fn missing_header_is_refused() {
    let e = bearer_token(None).unwrap_err();
    assert_eq!(e.status, 401);
    assert_eq!(e.message, "Missing auth header");
}

#[test]
fn unreadable_header_is_refused() {
    let raw: &[u8] = &[66, 101, 97, 114, 101, 114, 32, 0xC3, 0xA9];
    let e = bearer_token(Some(raw)).unwrap_err();
    assert_eq!(e.status, 401);
    assert_eq!(e.message, "Invalid auth header");
}

#[test]
fn header_without_bearer_prefix_is_refused() {
    let e = bearer_token(Some(b"Basic abc")).unwrap_err();
    assert_eq!(e.status, 401);
    assert_eq!(e.message, "Invalid token format");
    let e = bearer_token(Some(b"Bearer")).unwrap_err();
    assert_eq!(e.message, "Invalid token format");
    let e = bearer_token(Some(b"bearer abc")).unwrap_err();
    assert_eq!(e.message, "Invalid token format");
}

#[test]
fn bearer_token_is_extracted() {
    assert_eq!(bearer_token(Some(b"Bearer abc.def.ghi")).unwrap(), "abc.def.ghi");
    assert_eq!(bearer_token(Some(b"Bearer ")).unwrap(), "");
    assert_eq!(bearer_token(Some(b"Bearer  two spaces")).unwrap(), " two spaces");
}

#[test]
fn tab_counts_as_visible() {
    assert_eq!(header_text(b"a\tb").unwrap(), "a\tb");
    assert!(header_text(b"a\nb").is_none());
    assert!(header_text(&[0x7f]).is_none());
}

#[test]
fn failed_token_check_is_refused() {
    let e = user_id_from_subject(None).unwrap_err();
    assert_eq!(e.status, 401);
    assert_eq!(e.message, "Invalid token");
}

#[test]
fn subject_that_is_no_uuid_is_refused() {
    let e = user_id_from_subject(Some("not-a-uuid")).unwrap_err();
    assert_eq!(e.status, 401);
    assert_eq!(e.message, "Invalid user ID");
}

#[test]
fn subject_uuid_is_read() {
    let id = user_id_from_subject(Some("67e55044-10b1-426f-9247-bb680e5fe0c8")).unwrap();
    assert_eq!(id, 0x67e5504410b1426f9247bb680e5fe0c8u128);
    let simple = user_id_from_subject(Some("67e5504410b1426f9247bb680e5fe0c8")).unwrap();
    assert_eq!(simple, id);
}

#[test]
fn client_ip_prefers_first_forwarded_address() {
    assert_eq!(client_ip(Some(b"1.2.3.4, 5.6.7.8"), Some(b"9.9.9.9")), "1.2.3.4");
    assert_eq!(client_ip(Some(b"1.2.3.4"), None), "1.2.3.4");
    assert_eq!(client_ip(Some(b" 1.2.3.4 ,x"), None), " 1.2.3.4 ");
    assert_eq!(client_ip(Some(b",x"), None), "");
}

#[test]
fn client_ip_falls_back_to_real_ip_then_unknown() {
    assert_eq!(client_ip(None, Some(b"9.9.9.9")), "9.9.9.9");
    assert_eq!(client_ip(Some(&[0xff]), Some(b"9.9.9.9")), "9.9.9.9");
    assert_eq!(client_ip(None, None), "unknown");
    assert_eq!(client_ip(Some(&[0x01]), Some(&[0x02])), "unknown");
}
