use neocities::json::Json;

fn text(s: &str) -> Json {
    Json::Text(s.to_string())
}

#[test]
fn parse_reads_every_kind_of_value() {
    let parsed = Json::parse(b"[null, true, false, 7, -3, 1.5, \"x\", [], {}]");
    assert_eq!(
        parsed,
        Some(Json::Array(vec![
            Json::Null,
            Json::Bool(true),
            Json::Bool(false),
            Json::Integer(7),
            Json::Integer(-3),
            Json::OtherNumber,
            text("x"),
            Json::Array(vec![]),
            Json::Object(vec![]),
        ]))
    );
}

#[test]
fn parse_reads_the_members_of_an_object() {
    let json = Json::parse(b"{\"a\": 1, \"b\": [true, \"x\"]}").expect("a JSON document");
    assert_eq!(json.member("a"), Some(&Json::Integer(1)));
    assert_eq!(
        json.member("b"),
        Some(&Json::Array(vec![Json::Bool(true), text("x")]))
    );
    assert_eq!(json.member("c"), None);
}

#[test]
fn parse_tells_integers_that_fit_from_other_numbers() {
    assert_eq!(
        Json::parse(b"9223372036854775807"),
        Some(Json::Integer(i64::MAX))
    );
    assert_eq!(
        Json::parse(b"-9223372036854775808"),
        Some(Json::Integer(i64::MIN))
    );
    assert_eq!(Json::parse(b"9223372036854775808"), Some(Json::OtherNumber));
    assert_eq!(Json::parse(b"100.0"), Some(Json::OtherNumber));
    assert_eq!(Json::parse(b"1e2"), Some(Json::OtherNumber));
}

#[test]
fn parse_decodes_escapes_in_texts() {
    assert_eq!(Json::parse(b"\"a\\n\\u00e9\""), Some(text("a\n\u{e9}")));
}

#[test]
fn parse_refuses_what_is_no_document() {
    assert_eq!(Json::parse(b""), None);
    assert_eq!(Json::parse(b"{\"a\": "), None);
    assert_eq!(Json::parse(b"{} trailing"), None);
    assert_eq!(Json::parse(b"<html></html>"), None);
    assert_eq!(Json::parse(&[b'"', 0xff, b'"']), None);
}

#[test]
fn member_finds_the_first_of_several() {
    let json = Json::Object(vec![
        ("a".to_string(), Json::Integer(1)),
        ("b".to_string(), Json::Integer(2)),
        ("a".to_string(), Json::Integer(3)),
    ]);
    assert_eq!(json.member("a"), Some(&Json::Integer(1)));
    assert_eq!(json.member("b"), Some(&Json::Integer(2)));
    assert_eq!(json.member(""), None);
}

#[test]
fn member_of_what_is_no_object_is_absent() {
    assert_eq!(Json::Null.member("a"), None);
    assert_eq!(text("a").member("a"), None);
    assert_eq!(Json::Array(vec![text("a")]).member("a"), None);
}
