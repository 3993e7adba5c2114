use rust_analyzer_mcp::json::{array, insert_member, member, object, JsonNumber, JsonValue};

#[test]
fn inserted_member_is_read_back() {
    let mut entries = vec![member("a", JsonValue::Bool(true)), member("b", JsonValue::Null)];
    insert_member(&mut entries, "b".to_string(), JsonValue::string("x"));
    insert_member(&mut entries, "c".to_string(), JsonValue::Number(JsonNumber::PosInt(3)));
    assert_eq!(entries.len(), 3);
    let v = object(entries);
    assert_eq!(v.get_str("b"), Some("x"));
    assert_eq!(v.get_u64("c"), Some(3));
    assert_eq!(v.get_bool("a"), Some(true));
    assert!(v.get("d").is_none());
}

#[test]
fn reads_of_the_wrong_kind_give_nothing() {
    let v = object(vec![
        member("n", JsonValue::Number(JsonNumber::NegInt(-1))),
        member("f", JsonValue::Number(JsonNumber::Float("1.5".to_string()))),
        member("s", JsonValue::string("t")),
    ]);
    assert_eq!(v.get_u64("n"), None);
    assert_eq!(v.get_u64("f"), None);
    assert_eq!(v.get_bool("s"), None);
    assert_eq!(array(vec![]).get("s").is_none(), true);
    assert_eq!(JsonValue::Null.as_str(), None);
}

#[test]
fn the_first_member_wins() {
    let v = object(vec![member("k", JsonValue::string("first")), member("k", JsonValue::string("second"))]);
    assert_eq!(v.get_str("k"), Some("first"));
    let copy = v.deep_clone();
    assert_eq!(copy.get_str("k"), Some("first"));
}
