use up_engine::mask::{email, email_from_captures, mask_parts, ping_key, try_email, try_ping_key};

#[test]
fn key_masking() {
    assert_eq!("************", ping_key(""));
    assert_eq!("************", ping_key("aaa"));
    assert_eq!("bbbb************", ping_key("bbbb"));
    assert_eq!("bbbb************", ping_key("bbbba"));
}

#[test]
fn email_masking() {
    assert_eq!("x****@******zz", email("x@y.zz"));
    assert_eq!("h****@******om", email("hello@test.something.com"));
    assert_eq!("****@******", email("x@"));
    assert_eq!("****@******", email("@x"));
    assert_eq!("****@******", email("@"));
    assert_eq!("****@******", email(""));
}

#[test]
fn key_is_cut_at_bytes() {
    assert_eq!(try_ping_key("bbbba"), Some("bbbb************".to_string()));
    assert_eq!(try_ping_key("\u{e9}\u{e9}x"), Some("\u{e9}\u{e9}************".to_string()));
    assert_eq!(try_ping_key("abc\u{e9}"), None);
    assert_eq!(try_ping_key("ab\u{e9}"), Some("ab\u{e9}************".to_string()));
    assert_eq!(try_ping_key("a\u{e9}"), Some("************".to_string()));
}

#[test]
fn email_keeps_first_byte_and_last_two() {
    assert_eq!(email("ab@cd.e"), "a****@******.e");
    assert_eq!(email("a@bc"), "a****@******");
    assert_eq!(email("a@bcd"), "a****@******cd");
    assert_eq!(email("@bcd"), "****@******cd");
    assert_eq!(email("a@b@c.de"), "a****@******de");
    assert_eq!(email("no address"), "****@******");
    assert_eq!(email("a@b\nc.de"), "****@******");
}

#[test]
fn email_with_wide_characters() {
    assert_eq!(try_email("a@b.\u{e9}"), Some("a****@******\u{e9}".to_string()));
    assert_eq!(try_email("\u{e9}@b.de"), None);
    assert_eq!(try_email("a@b\u{e9}c"), None);
    assert_eq!(try_email("x@y.zz"), Some("x****@******zz".to_string()));
    assert_eq!(try_email("nothing"), Some("****@******".to_string()));
}

#[test]
fn parts_are_masked() {
    assert_eq!(mask_parts("hello", "test.something.com"), "h****@******om");
    assert_eq!(mask_parts("", "ab"), "****@******");
    assert_eq!(mask_parts("", "abc"), "****@******bc");
}

#[test]
fn captures_decide_the_mask() {
    assert_eq!(email_from_captures(&None), "****@******");
    assert_eq!(email_from_captures(&Some(vec![])), "****@******");
    assert_eq!(email_from_captures(&Some(vec![Some("a@b".to_string()), Some("a".to_string())])), "****@******");
    assert_eq!(
        email_from_captures(&Some(vec![Some("a@bcd".to_string()), None, Some("bcd".to_string())])),
        "****@******"
    );
    assert_eq!(
        email_from_captures(&Some(vec![
            Some("ab@bcd".to_string()),
            Some("ab".to_string()),
            Some("bcd".to_string())
        ])),
        "a****@******cd"
    );
}
