use file_share::ident::{create_id, get_fully_qualified, get_rand, strip, SLOT_MIN, SLOT_SPAN};

#[test]
fn slot_numbers_have_nine_digits() {
    assert_eq!(get_rand(0), 100_000_000);
    assert_eq!(get_rand(1), 100_000_001);
    assert_eq!(get_rand(899_999_999), 999_999_999);
    assert_eq!(get_rand(900_000_000), 100_000_000);
    assert_eq!(get_rand(u32::MAX), 100_000_000 + u32::MAX % 900_000_000);
    assert_eq!(SLOT_MIN, 100_000_000);
    assert_eq!(SLOT_SPAN, 900_000_000);
}

#[test]
fn composite_key_format() {
    let key = get_fully_qualified(&"abc".to_string(), &"123456789".to_string());
    assert_eq!(key, "abc:::123456789");
    assert_eq!(get_fully_qualified(&String::new(), &String::new()), ":::");
}

#[test]
fn create_id_formats_slot_and_key() {
    let (file_id, key) = create_id(&"abc".to_string(), 23_456_789);
    assert_eq!(file_id, "123456789");
    assert_eq!(key, "abc:::123456789");
}

#[test]
fn two_draws_give_two_slot_ids() {
    let ns = "abc".to_string();
    let (first, first_key) = create_id(&ns, 5);
    let (second, second_key) = create_id(&ns, 6);
    assert_ne!(first, second);
    assert_ne!(first_key, second_key);
}

#[test]
fn distinct_namespaces_give_distinct_keys() {
    let (a_id, a_key) = create_id(&"a".to_string(), 42);
    let (b_id, b_key) = create_id(&"b".to_string(), 42);
    assert_eq!(a_id, b_id);
    assert_ne!(a_key, b_key);
}

#[test]
fn strip_removes_route_prefix_and_slash() {
    let path = "/upload/abc".to_string();
    assert_eq!(strip(&path, vec!["/upload", "/"]), "abc");
    let path = "/download/abc:::123456789".to_string();
    assert_eq!(strip(&path, vec!["/download", "/"]), "abc:::123456789");
}

#[test]
fn strip_skips_parts_that_do_not_match() {
    let path = "/websocket/x".to_string();
    assert_eq!(strip(&path, vec!["/upload", "/"]), "websocket/x");
    assert_eq!(strip(&path, vec![]), "/websocket/x");
    assert_eq!(strip(&path, vec!["", "/websocket/x"]), "");
    assert_eq!(strip(&path, vec!["/websocket/x/longer"]), "/websocket/x");
    assert_eq!(strip(&"//a".to_string(), vec!["/", "/", "/"]), "a");
    assert_eq!(strip(&"/é/ü".to_string(), vec!["/é"]), "/ü");
}
