use todolist::json::Json;
use todolist::text::parse;

fn text(s: &str) -> Json {
    Json::Text(s.to_string())
}

#[test]
fn parse_builds_the_document() {
    let parsed = parse(" [true, \"a\\n\\u00e9\", null, 1.5, -3, {\"k\": [], \"j\": false}] ");
    let expected = Json::List(vec![
        Json::Bool(true),
        text("a\n\u{e9}"),
        Json::Other,
        Json::Other,
        Json::Other,
        Json::Record(vec![
            ("k".to_string(), Json::List(Vec::new())),
            ("j".to_string(), Json::Bool(false)),
        ]),
    ]);
    assert_eq!(parsed, Ok(expected));
}

#[test]
fn parse_keeps_members_in_the_order_of_the_text() {
    let parsed = parse("{\"b\":\"1\",\"a\":\"2\",\"c\":\"3\"}");
    let expected = Json::Record(vec![
        ("b".to_string(), text("1")),
        ("a".to_string(), text("2")),
        ("c".to_string(), text("3")),
    ]);
    assert_eq!(parsed, Ok(expected));
}

#[test]
fn parse_reads_scalars() {
    assert_eq!(parse("\"\""), Ok(text("")));
    assert_eq!(parse("false"), Ok(Json::Bool(false)));
    assert_eq!(parse("null"), Ok(Json::Other));
    assert_eq!(parse("0"), Ok(Json::Other));
    assert_eq!(parse("{}"), Ok(Json::Record(Vec::new())));
}

#[test]
fn parse_hands_on_the_complaint() {
    assert_eq!(parse(""), Err("EOF while parsing a value at line 1 column 0".to_string()));
    assert_eq!(parse("[1,]"), Err("trailing comma at line 1 column 4".to_string()));
    assert_eq!(parse("{} {}"), Err("trailing characters at line 1 column 4".to_string()));
}

#[test]
fn parse_refuses_text_nested_too_deep() {
    let deep = "[".repeat(200) + &"]".repeat(200);
    assert!(parse(&deep).is_err());
    let shallow = "[".repeat(100) + &"]".repeat(100);
    assert!(parse(&shallow).is_ok());
}

#[test]
fn parse_keeps_the_last_of_repeated_members() {
    let parsed = parse("{\"a\":true,\"b\":\"x\",\"a\":false}");
    let expected = Json::Record(vec![
        ("a".to_string(), Json::Bool(false)),
        ("b".to_string(), text("x")),
    ]);
    assert_eq!(parsed, Ok(expected));
}
