use llm_client::json::{escape_str, to_text, Json};

#[test]
fn scalars_write_as_json() {
    assert_eq!(to_text(&Json::Null), "null");
    assert_eq!(to_text(&Json::Bool(true)), "true");
    assert_eq!(to_text(&Json::Bool(false)), "false");
    assert_eq!(to_text(&Json::Num(String::from("42"))), "42");
    assert_eq!(to_text(&Json::Str(String::from("hi"))), "\"hi\"");
}

#[test]
fn arrays_and_objects_write_in_order() {
    let arr = Json::Arr(vec![Json::Null, Json::Bool(true), Json::Str(String::from("x"))]);
    assert_eq!(to_text(&arr), "[null,true,\"x\"]");
    let obj = Json::Obj(vec![
        (String::from("b"), Json::Num(String::from("1"))),
        (String::from("a"), Json::Arr(vec![])),
    ]);
    assert_eq!(to_text(&obj), "{\"b\":1,\"a\":[]}");
    assert_eq!(to_text(&Json::Obj(vec![])), "{}");
}

#[test]
fn escaping_covers_quotes_backslashes_and_controls() {
    assert_eq!(escape_str("plain"), "plain");
    assert_eq!(escape_str("a\"b"), "a\\\"b");
    assert_eq!(escape_str("a\\b"), "a\\\\b");
    assert_eq!(escape_str("a\nb\rc\td"), "a\\nb\\rc\\td");
    assert_eq!(escape_str("\u{08}\u{0c}"), "\\b\\f");
    assert_eq!(escape_str("\u{01}\u{1f}"), "\\u0001\\u001f");
    assert_eq!(escape_str("héllo"), "héllo");
}

#[test]
fn written_text_parses_back() {
    let obj = Json::Obj(vec![(
        String::from("k\n"),
        Json::Str(String::from("v\"\\w")),
    )]);
    let text = to_text(&obj);
    let value: serde_json::Value = serde_json::from_str(&text).unwrap();
    assert_eq!(value["k\n"].as_str(), Some("v\"\\w"));
}
