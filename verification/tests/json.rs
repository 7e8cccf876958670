use surface_dial::cli::json::{json_text_lines, text_kind_of, JsonMember, JsonValue, TextKind};

fn member(key: &str, value: JsonValue) -> JsonMember {
    JsonMember { key: key.to_string(), value }
}

#[test]
fn test_format_json_value() {
    assert_eq!(json_text_lines(&JsonValue::Null), vec!["null"]);
    assert_eq!(json_text_lines(&JsonValue::Bool(true)), vec!["true"]);
    assert_eq!(json_text_lines(&JsonValue::Number("42".to_string())), vec!["42"]);
    assert_eq!(json_text_lines(&JsonValue::Text("hello".to_string())), vec!["hello"]);
}

#[test]
fn nested_objects_are_indented() {
    let value = JsonValue::Object(
        vec![
            member(
                "volume",
                JsonValue::Object(
                    vec![
                        member("step_min", JsonValue::Number("2".to_string())),
                        member("curve", JsonValue::Text("logarithmic".to_string())),
                    ],
                    "{\"step_min\":2,\"curve\":\"logarithmic\"}".to_string(),
                ),
            ),
            member(
                "thresholds",
                JsonValue::Array(
                    vec![JsonValue::Number("20".to_string()), JsonValue::Number("10".to_string())],
                    "[20,10]".to_string(),
                ),
            ),
            member("enabled", JsonValue::Bool(false)),
            member("dir", JsonValue::Null),
        ],
        String::new(),
    );
    assert_eq!(
        json_text_lines(&value),
        vec![
            "volume:",
            "  step_min: 2",
            "  curve: logarithmic",
            "thresholds:",
            "  20",
            "  10",
            "enabled: false",
            "dir: null",
        ]
    );
}

#[test]
fn arrays_show_items_compactly() {
    let value = JsonValue::Array(
        vec![
            JsonValue::Text("a".to_string()),
            JsonValue::Array(vec![JsonValue::Number("1".to_string())], "[1]".to_string()),
        ],
        "[\"a\",[1]]".to_string(),
    );
    assert_eq!(json_text_lines(&value), vec!["- a", "- [1]"]);
}

#[test]
fn objects_inside_arrays_under_keys() {
    let hook = JsonValue::Object(
        vec![member("url", JsonValue::Text("http://x".to_string()))],
        "{\"url\":\"http://x\"}".to_string(),
    );
    let value = JsonValue::Object(
        vec![member("webhooks", JsonValue::Array(vec![hook], String::new()))],
        String::new(),
    );
    assert_eq!(json_text_lines(&value), vec!["webhooks:", "  url: http://x"]);
}

#[test]
fn setting_text_kinds() {
    assert!(matches!(text_kind_of("true"), TextKind::Bool(true)));
    assert!(matches!(text_kind_of("false"), TextKind::Bool(false)));
    assert!(matches!(text_kind_of("True"), TextKind::Other));
    assert!(matches!(text_kind_of("-42"), TextKind::Int(-42)));
    assert!(matches!(text_kind_of("9223372036854775807"), TextKind::Int(i64::MAX)));
    assert!(matches!(text_kind_of("-9223372036854775808"), TextKind::Int(i64::MIN)));
    assert!(matches!(text_kind_of("9223372036854775808"), TextKind::Other));
    assert!(matches!(text_kind_of("1.5"), TextKind::Other));
    assert!(matches!(text_kind_of("logarithmic"), TextKind::Other));
}
