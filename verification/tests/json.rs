use masto_vision::json::Json;

fn text(s: &str) -> Json {
    Json::Text(s.to_string())
}

#[test]
fn parse_reads_every_kind_of_value() {
    let doc = Json::parse("{\"n\": null, \"b\": false, \"i\": 12, \"f\": 1.5, \"s\": \"x\\ny\", \"a\": [1, \"two\"], \"o\": {\"k\": []}}")
        .unwrap();
    assert_eq!(doc.get("n"), Some(&Json::Null));
    assert_eq!(doc.get("b"), Some(&Json::Bool(false)));
    assert_eq!(doc.get("i"), Some(&Json::Number("12".to_string())));
    assert_eq!(doc.get("f"), Some(&Json::Number("1.5".to_string())));
    assert_eq!(doc.get("s"), Some(&text("x\ny")));
    assert_eq!(doc.get("a"), Some(&Json::Array(vec![Json::Number("1".to_string()), text("two")])));
    assert_eq!(
        doc.get("o"),
        Some(&Json::Object(vec![("k".to_string(), Json::Array(vec![]))]))
    );
    assert_eq!(doc.get("missing"), None);
}

#[test]
fn parse_refuses_what_is_not_json() {
    assert_eq!(Json::parse(""), None);
    assert_eq!(Json::parse("{"), None);
    assert_eq!(Json::parse("{} {}"), None);
    assert_eq!(Json::parse("nul"), None);
}

#[test]
fn parse_keeps_the_last_of_two_members_with_one_name() {
    let doc = Json::parse("{\"a\": 1, \"a\": 2}").unwrap();
    assert_eq!(doc, Json::Object(vec![("a".to_string(), Json::Number("2".to_string()))]));
}

#[test]
fn get_takes_the_first_member_of_a_name() {
    let doc = Json::Object(vec![
        ("a".to_string(), text("first")),
        ("b".to_string(), text("other")),
        ("a".to_string(), text("second")),
    ]);
    assert_eq!(doc.get("a"), Some(&text("first")));
    assert_eq!(doc.text_field("b"), Some(&"other".to_string()));
    assert_eq!(Json::Array(vec![]).get("a"), None);
    assert_eq!(Json::Null.get("a"), None);
}

#[test]
fn with_field_replaces_in_place_or_appends() {
    let doc = Json::Object(vec![("a".to_string(), text("1")), ("b".to_string(), text("2"))]);
    assert_eq!(
        doc.clone().with_field("a".to_string(), Json::Null),
        Json::Object(vec![("a".to_string(), Json::Null), ("b".to_string(), text("2"))])
    );
    assert_eq!(
        doc.clone().with_field("c".to_string(), Json::Bool(true)),
        Json::Object(vec![
            ("a".to_string(), text("1")),
            ("b".to_string(), text("2")),
            ("c".to_string(), Json::Bool(true)),
        ])
    );
    assert_eq!(text("x").with_field("a".to_string(), Json::Null), text("x"));
}

#[test]
fn clone_copies_the_whole_document() {
    let doc = Json::parse("{\"a\": [1, {\"b\": [true, null, \"s\"]}], \"c\": {\"d\": {\"e\": 2.25}}}").unwrap();
    assert_eq!(doc.clone(), doc);
}

#[test]
fn as_text_and_as_array_tell_the_kinds_apart() {
    assert_eq!(text("x").as_text(), Some(&"x".to_string()));
    assert_eq!(Json::Null.as_text(), None);
    assert_eq!(Json::Array(vec![Json::Null]).as_array(), Some(&vec![Json::Null]));
    assert_eq!(text("x").as_array(), None);
    assert!(Json::Object(vec![]).is_object());
    assert!(!Json::Array(vec![]).is_object());
}
