use agent_tools::config::{is_allowed, PhoneNumberEntry};
use agent_tools::json::{is_positive, Json, JsonObject};
use agent_tools::json_text::{json_of_value, parse_json, pretty_json, print_json, value_of_json};
use agent_tools::text::{
    can_truncate, cut_text, i64_text, is_blank, join, parse_i64, strip_prefix, truncate,
    truncate_with_ellipsis, u64_text,
};
use agent_tools::tools::result::{success_result, ToolResult};

#[test]
fn json_text_round_trip() {
    let text = r#"{"a":[1,-2,18446744073709551615,0.1,1e+300,"x\n",true,null,{}],"b":{"c":[]}}"#;
    let value = parse_json(text).unwrap();
    assert_eq!(print_json(&value), text);
    assert_eq!(print_json(&value.clone()), text);
    assert_eq!(pretty_json(&parse_json("[1]").unwrap()), "[\n  1\n]");
    let error = parse_json("{").unwrap_err();
    assert_eq!(error, "EOF while parsing an object at line 1 column 1");
}

#[test]
fn values_pass_both_ways() {
    let value: serde_json::Value = serde_json::from_str(r#"{"n": 1.5, "k": [null]}"#).unwrap();
    let json = json_of_value(value.clone());
    assert_eq!(value_of_json(&json), value);
    assert_eq!(json.get("n").unwrap().number_text().as_deref(), Some("1.5"));
}

#[test]
fn later_members_override() {
    let value = parse_json(r#"{"a": 1, "a": "two"}"#).unwrap();
    assert_eq!(value.str_at("a"), Some("two"));
    let mut object = JsonObject::new();
    object.set_text("a", "one");
    object.set("a", Json::Signed(-1));
    object.set_some_text("b", None);
    object.set_some_text("c", Some("x"));
    let value = object.into_json();
    assert_eq!(print_json(&value), r#"{"a":-1,"c":"x"}"#);
    assert_eq!(value.i64_at("a"), Some(-1));
    assert_eq!(value.u64_at("a"), None);
    assert!(value.get("b").is_none());
}

#[test]
fn members_are_read_by_type() {
    let value = parse_json(
        r#"{"s": "t", "u": 18446744073709551615, "i": -1, "f": 1.0, "b": false, "n": null}"#,
    )
    .unwrap();
    assert_eq!(value.str_at("s"), Some("t"));
    assert_eq!(value.str_at("u"), None);
    assert_eq!(value.u64_at("u"), Some(u64::MAX));
    assert_eq!(value.i64_at("u"), None);
    assert_eq!(value.i64_at("i"), Some(-1));
    assert_eq!(value.u64_at("f"), None);
    assert_eq!(value.bool_at("b"), Some(false));
    assert_eq!(value.bool_at("n"), None);
    assert_eq!(value.u64_or("missing", 7), 7);
    assert!(value.get("n").unwrap().is_null());
    assert!(Json::Array(vec![]).get("x").is_none());
}

#[test]
fn positive_numbers_are_told_by_their_text() {
    for text in ["1", "0.01", "1e-300", "10"] {
        assert!(is_positive(text));
    }
    for text in ["0", "0.0", "-0.0", "-3", "0e9", "0.00E+5"] {
        assert!(!is_positive(text));
    }
}

#[test]
fn numbers_are_written_and_read_in_decimal() {
    for n in [0, 7, 10, 1234567890, i64::MAX, -1, -10, i64::MIN] {
        assert_eq!(i64_text(n), n.to_string());
        assert_eq!(parse_i64(&i64_text(n)), Some(n));
    }
    assert_eq!(u64_text(u64::MAX), u64::MAX.to_string());
    for text in ["", "+", "-", "1a", " 1", "9223372036854775808", "-9223372036854775809", "1_0"] {
        assert_eq!(parse_i64(text), text.parse::<i64>().ok());
    }
    for text in ["+5", "007", "-0", "99999999999999999999999999999999999999999999"] {
        assert_eq!(parse_i64(text), text.parse::<i64>().ok());
    }
}

#[test]
fn texts_are_cut_between_characters() {
    assert_eq!(truncate("abc", 3), "abc");
    assert_eq!(truncate("abcd", 3), "abc...");
    assert_eq!(cut_text("éé", 2, "…"), "é…");
    assert!(!can_truncate("éé", 1));
    assert!(can_truncate("éé", 4));
    assert_eq!(truncate_with_ellipsis("ééé", 2), "éé...");
    assert_eq!(truncate_with_ellipsis("éé", 2), "éé");
}

#[test]
fn texts_are_joined_and_stripped() {
    let parts: Vec<String> = vec!["a".into(), "".into(), "b".into()];
    assert_eq!(join(&parts, ", "), "a, , b");
    assert_eq!(join(&vec![], ", "), "");
    assert_eq!(strip_prefix("sha256=ab", "sha256="), Some("ab"));
    assert_eq!(strip_prefix("sha1=ab", "sha256="), None);
    assert_eq!(strip_prefix("éa", "é"), Some("a"));
    assert!(is_blank(" \n\u{3000}"));
    assert!(is_blank(""));
    assert!(!is_blank(" x"));
    assert!(!is_blank("\u{200b}"));
}

#[test]
fn results_say_how_it_went() {
    let good = ToolResult::success("out".into());
    assert!(good.success && good.error.is_none() && good.output == "out");
    let bad = ToolResult::error("why".into());
    assert!(!bad.success && bad.error.as_deref() == Some("why") && bad.output.is_empty());
    assert_eq!(success_result(&Json::Null).output, "null");
}

#[test]
fn a_wildcard_entry_allows_every_number() {
    assert!(is_allowed(&vec![PhoneNumberEntry::Simple("*".into())], ""));
    assert!(!is_allowed(&vec![], "*"));
}
