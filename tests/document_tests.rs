use cc_switch::document::Document;
use cc_switch::error::AppError;

fn doc(text: &str) -> Document {
    Document::parse(text).expect("a JSON object")
}

#[test]
fn set_appends_new_key_and_replaces_in_place() {
    let mut d = doc("{\"a\":1,\"b\":2}");
    d.set("c".to_string(), "3".to_string());
    d.set("a".to_string(), "[true]".to_string());
    assert_eq!(d.render_compact(), "{\"a\":[true],\"b\":2,\"c\":3}");
}

#[test]
fn remove_drops_only_that_key() {
    let mut d = doc("{\"a\":1,\"b\":2,\"c\":3}");
    d.remove("b");
    d.remove("missing");
    assert_eq!(d.render_compact(), "{\"a\":1,\"c\":3}");
}

#[test]
fn merge_keys_sets_and_removes() {
    let mut d = doc("{\"keep\":{\"x\":1},\"gone\":true}");
    d.merge_keys(&vec![
        ("gone".to_string(), None),
        ("new".to_string(), Some("\"v\"".to_string())),
    ]);
    assert_eq!(d.render_compact(), "{\"keep\":{\"x\":1},\"new\":\"v\"}");
}

#[test]
fn render_pretty_and_empty() {
    assert_eq!(Document::new().render(), "{}");
    assert_eq!(Document::new().render_compact(), "{}");
    let d = doc("{\"a\":1,\"b\":\"x\"}");
    assert_eq!(d.render(), "{\n  \"a\": 1,\n  \"b\": \"x\"\n}");
}

#[test]
fn render_escapes_keys() {
    let mut d = Document::new();
    d.set("a\"b".to_string(), "1".to_string());
    assert_eq!(d.render_compact(), "{\"a\\\"b\":1}");
}

#[test]
fn parse_keeps_values_as_json_text() {
    let d = doc("{ \"s\" : \"t\", \"n\" : [1, 2] }");
    assert_eq!(d.get("s"), Some("\"t\"".to_string()));
    assert_eq!(d.get("n"), Some("[1,2]".to_string()));
    assert_eq!(d.get("x"), None);
}

#[test]
fn parse_refuses_non_objects() {
    assert!(matches!(Document::parse("[1,2]"), Err(AppError::Parse(_))));
    assert!(matches!(Document::parse("not json"), Err(AppError::Parse(_))));
    assert!(matches!(Document::read_or_empty(Some("3")), Err(AppError::Parse(_))));
}

#[test]
fn missing_file_reads_as_empty_object() {
    let d = Document::read_or_empty(None).expect("empty");
    assert!(d.entries.is_empty());
}

#[test]
fn render_escapes_control_characters() {
    let mut d = Document::new();
    d.set("a\\b\n\u{1}é".to_string(), "1".to_string());
    assert_eq!(d.render_compact(), "{\"a\\\\b\\n\\u0001é\":1}");
}

#[test]
fn parse_keeps_file_order() {
    let d = doc("{\"zeta\":1,\"alpha\":{\"y\":1,\"x\":2}}");
    assert_eq!(d.render_compact(), "{\"zeta\":1,\"alpha\":{\"y\":1,\"x\":2}}");
}
