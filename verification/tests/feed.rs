use polymarket_hft_bot::feed::{string_list, trim_quotes, JsonField, JsonItem};

#[test]
fn list_gives_one_string_per_item() {
    let field = JsonField::Items(vec![
        JsonItem::Text("Yes".to_string()),
        JsonItem::Other("0.5".to_string()),
        JsonItem::Other("true".to_string()),
        JsonItem::Text("\"quoted\"".to_string()),
    ]);
    assert_eq!(string_list(field).unwrap(), vec!["Yes", "0.5", "true", "\"quoted\""]);
}

#[test]
fn string_with_json_list_is_read() {
    let field = JsonField::Text(r#"["0.35", "0.65"]"#.to_string());
    assert_eq!(string_list(field).unwrap(), vec!["0.35", "0.65"]);
}

#[test]
fn string_with_broken_list_is_an_error() {
    assert!(string_list(JsonField::Text("[1, 2]".to_string())).is_err());
    assert!(string_list(JsonField::Text("[".to_string())).is_err());
}

#[test]
fn empty_string_and_null_give_nothing() {
    assert!(string_list(JsonField::Text(String::new())).unwrap().is_empty());
    assert!(string_list(JsonField::Null).unwrap().is_empty());
    assert!(string_list(JsonField::Items(vec![])).unwrap().is_empty());
}

#[test]
fn plain_string_gives_itself() {
    assert_eq!(string_list(JsonField::Text("Yes".to_string())).unwrap(), vec!["Yes"]);
    assert_eq!(string_list(JsonField::Text(" [".to_string())).unwrap(), vec![" ["]);
}

#[test]
fn other_values_are_refused() {
    assert_eq!(
        string_list(JsonField::Other("42".to_string())).unwrap_err(),
        "expected array or string, found: 42"
    );
}

#[test]
fn quotes_are_dropped_at_both_ends_only() {
    assert_eq!(trim_quotes("\"a\"b\"\""), "a\"b");
    assert_eq!(trim_quotes("\"\"\""), "");
    assert_eq!(trim_quotes(""), "");
    assert_eq!(trim_quotes("plain"), "plain");
    assert_eq!(trim_quotes("\"é\""), "é");
    for s in ["\"x", "x\"", "\"\"x\"y\"\"\"", "x"] {
        assert_eq!(trim_quotes(s), s.trim_matches('"'));
    }
}
