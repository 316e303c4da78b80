use openworkers_runtime_deno::script::{json_object, quote};
use openworkers_runtime_deno::Script;

#[test]
fn script_without_environment() {
    let script = Script::new("addEventListener('fetch', () => {})");
    assert_eq!(script.code, "addEventListener('fetch', () => {})");
    assert!(script.env.is_none());
    assert_eq!(script.to_json_string(), "{}");
}

#[test]
fn empty_environment_is_an_empty_object() {
    let script = Script::with_env("", vec![]);
    assert_eq!(script.to_json_string(), "{}");
}

#[test]
fn environment_is_a_json_object_in_order() {
    let script = Script::with_env(
        "",
        vec![
            ("NAME".to_string(), "worker".to_string()),
            ("API_KEY".to_string(), "abc123".to_string()),
        ],
    );
    assert_eq!(
        script.to_json_string(),
        "{\"NAME\":\"worker\",\"API_KEY\":\"abc123\"}"
    );
}

#[test]
fn environment_texts_are_escaped() {
    let script = Script::with_env(
        "",
        vec![("quote\"d".to_string(), "line\nbreak \\ tab\t".to_string())],
    );
    assert_eq!(
        script.to_json_string(),
        "{\"quote\\\"d\":\"line\\nbreak \\\\ tab\\t\"}"
    );
}

#[test]
fn environment_json_is_read_back_by_a_json_reader() {
    let script = Script::with_env(
        "",
        vec![
            ("a".to_string(), "1".to_string()),
            ("b".to_string(), "ü \u{1}".to_string()),
        ],
    );
    let json = script.to_json_string();
    let value: serde_json::Value = serde_json::from_str(&json).unwrap();
    assert_eq!(value["a"], "1");
    assert_eq!(value["b"], "ü \u{1}");
}

#[test]
fn quoted_text_is_a_json_string_literal() {
    assert_eq!(quote("plain"), "\"plain\"");
    assert_eq!(quote(""), "\"\"");
    assert_eq!(quote("a\"b\\c\n"), "\"a\\\"b\\\\c\\n\"");
}

#[test]
fn object_is_put_together_from_quoted_texts() {
    assert_eq!(json_object(&vec![]), "{}");
    assert_eq!(
        json_object(&vec![
            ("\"a\"".to_string(), "\"1\"".to_string()),
            ("\"b\"".to_string(), "\"2\"".to_string()),
        ]),
        "{\"a\":\"1\",\"b\":\"2\"}"
    );
}
