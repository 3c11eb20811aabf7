use ws_script::document::parse_json;
use ws_script::matcher::{does_json_include, Json};
use ws_script::number::JsonNumber;

fn parsed(text: &str) -> Json {
    parse_json(text).expect("a JSON document")
}

fn included(input: &str, expected: &str) -> bool {
    does_json_include(&parsed(input), &parsed(expected))
}

fn whole(value: u64) -> Json {
    Json::Number(JsonNumber { positive: true, mantissa: value, exponent: 0 })
}

fn text(value: &str) -> Json {
    Json::String(value.to_string())
}

fn member(name: &str, value: Json) -> (String, Json) {
    (name.to_string(), value)
}

#[test]
fn array_includes_its_prefix() {
    assert!(included("[1,2,3]", "[1,2]"));
}

#[test]
fn shorter_array_does_not_include_longer() {
    assert!(!included("[1,2]", "[1,2,3]"));
}

#[test]
fn array_mismatch_at_first_position() {
    assert!(!included("[9,2,3]", "[1,2]"));
}

#[test]
fn array_is_positional_not_a_subsequence() {
    assert!(!included("[1,2,3]", "[2,3]"));
    assert!(!included("[1,2,3]", "[1,3]"));
}

#[test]
fn empty_array_is_included_by_any_array() {
    assert!(included("[]", "[]"));
    assert!(included("[1]", "[]"));
    assert!(!included("{}", "[]"));
    assert!(!included("null", "[]"));
}

#[test]
fn partial_object_is_included() {
    assert!(included(r#"{"status":"ok","id":7}"#, r#"{"status":"ok"}"#));
}

#[test]
fn differing_member_is_not_included() {
    assert!(!included(r#"{"status":"fail"}"#, r#"{"status":"ok"}"#));
}

#[test]
fn member_order_does_not_matter() {
    assert!(included(r#"{"a":1,"b":2}"#, r#"{"b":2,"a":1}"#));
}

#[test]
fn missing_member_counts_as_null() {
    assert!(included("{}", r#"{"a":null}"#));
    assert!(included(r#"{"b":1}"#, r#"{"a":null}"#));
    assert!(included(r#"{"a":null}"#, r#"{"a":null}"#));
    assert!(!included(r#"{"a":1}"#, r#"{"a":null}"#));
}

#[test]
fn missing_member_does_not_include_a_value() {
    assert!(!included("{}", r#"{"a":1}"#));
    assert!(!included("{}", r#"{"a":{}}"#));
    assert!(!included("{}", r#"{"a":[]}"#));
    assert!(!included("{}", r#"{"a":""}"#));
    assert!(!included("{}", r#"{"a":false}"#));
}

#[test]
fn adding_an_unexpected_member_keeps_inclusion() {
    assert!(included(r#"{"a":1}"#, r#"{"a":1}"#));
    assert!(included(r#"{"a":1,"extra":[1,2]}"#, r#"{"a":1}"#));
}

#[test]
fn adding_a_member_expected_as_null_breaks_inclusion() {
    assert!(included("{}", r#"{"a":null}"#));
    assert!(!included(r#"{"a":1}"#, r#"{"a":null}"#));
}

#[test]
fn removing_an_expected_member_breaks_inclusion() {
    assert!(included(r#"{"a":1,"b":2}"#, r#"{"a":1,"b":2}"#));
    assert!(!included(r#"{"a":1}"#, r#"{"a":1,"b":2}"#));
}

#[test]
fn removing_a_member_expected_as_null_keeps_inclusion() {
    assert!(included(r#"{"a":1,"b":null}"#, r#"{"a":1,"b":null}"#));
    assert!(included(r#"{"a":1}"#, r#"{"a":1,"b":null}"#));
}

#[test]
fn empty_object_is_included_by_any_object_only() {
    assert!(included("{}", "{}"));
    assert!(included(r#"{"a":1}"#, "{}"));
    assert!(!included("[]", "{}"));
    assert!(!included("null", "{}"));
    assert!(!included(r#""x""#, "{}"));
}

#[test]
fn kinds_do_not_mix() {
    assert!(!included(r#"[1]"#, r#"{"0":1}"#));
    assert!(!included(r#"{"0":1}"#, r#"[1]"#));
    assert!(!included("1", r#""1""#));
    assert!(!included(r#""1""#, "1"));
    assert!(!included("0", "false"));
    assert!(!included("false", "null"));
    assert!(!included("null", "false"));
    assert!(!included(r#""""#, "null"));
}

#[test]
fn leaves_are_compared_by_value() {
    assert!(included("null", "null"));
    assert!(included("true", "true"));
    assert!(!included("true", "false"));
    assert!(included(r#""abc""#, r#""abc""#));
    assert!(!included(r#""abc""#, r#""abd""#));
    assert!(!included(r#""abc""#, r#""ab""#));
}

#[test]
fn long_and_short_strings_are_strings() {
    let long = "a string that is much longer than thirty characters, for sure";
    let quoted = format!("\"{}\"", long);
    assert!(matches!(parsed(&quoted), Json::String(ref s) if s == long));
    assert!(matches!(parsed(r#""hi""#), Json::String(ref s) if s == "hi"));
    assert!(included(&quoted, &quoted));
}

#[test]
fn numbers_are_compared_by_value() {
    assert!(included("1", "1"));
    assert!(included("1.0", "1"));
    assert!(included("1", "1.0"));
    assert!(included("100", "1e2"));
    assert!(included("1e2", "100"));
    assert!(included("0.5", "5e-1"));
    assert!(included("0", "-0"));
    assert!(included("0.0", "0e5"));
    assert!(!included("1", "2"));
    assert!(!included("1", "-1"));
    assert!(!included("1", "10"));
    assert!(!included("1.5", "1"));
}

#[test]
fn nested_values_are_compared_in_depth() {
    let input = r#"{"user":{"name":"amy","tags":["a","b","c"],"age":3},"ok":true}"#;
    assert!(included(input, r#"{"user":{"tags":["a","b"]}}"#));
    assert!(included(input, r#"{"user":{"name":"amy"},"ok":true}"#));
    assert!(!included(input, r#"{"user":{"tags":["b"]}}"#));
    assert!(!included(input, r#"{"user":{"name":"bob"}}"#));
    assert!(!included(input, r#"{"user":["amy"]}"#));
}

#[test]
fn every_value_includes_itself() {
    for document in [
        "null",
        "true",
        "0",
        "-12.5e3",
        r#""text""#,
        "[]",
        "{}",
        r#"[1,[2,[3,{"a":null}]]]"#,
        r#"{"a":{"b":{"c":[1,2,3]}},"d":null}"#,
    ] {
        assert!(included(document, document), "{}", document);
    }
}

#[test]
fn parse_reads_each_kind_of_value() {
    assert!(matches!(parsed("null"), Json::Null));
    assert!(matches!(parsed("true"), Json::Bool(true)));
    assert!(matches!(parsed("false"), Json::Bool(false)));
    assert!(matches!(
        parsed("42"),
        Json::Number(JsonNumber { positive: true, mantissa: 42, exponent: 0 })
    ));
    assert!(matches!(
        parsed("-7"),
        Json::Number(JsonNumber { positive: false, mantissa: 7, exponent: 0 })
    ));
    assert!(matches!(
        parsed("2.5"),
        Json::Number(JsonNumber { positive: true, mantissa: 25, exponent: -1 })
    ));
    assert!(matches!(parsed(r#""hello""#), Json::String(ref s) if s == "hello"));
}

#[test]
fn parse_keeps_items_and_members_in_order() {
    match parsed(r#"[1,"two",null]"#) {
        Json::Array(items) => {
            assert_eq!(items.len(), 3);
            assert!(matches!(items[0], Json::Number(JsonNumber { mantissa: 1, .. })));
            assert!(matches!(items[1], Json::String(ref s) if s == "two"));
            assert!(matches!(items[2], Json::Null));
        }
        other => panic!("not an array: {:?}", other),
    }
    match parsed(r#"{"b":1,"a":[true]}"#) {
        Json::Object(members) => {
            assert_eq!(members.len(), 2);
            assert_eq!(members[0].0, "b");
            assert!(matches!(members[0].1, Json::Number(JsonNumber { mantissa: 1, .. })));
            assert_eq!(members[1].0, "a");
            assert!(matches!(members[1].1, Json::Array(ref items) if items.len() == 1));
        }
        other => panic!("not an object: {:?}", other),
    }
}

#[test]
fn parse_turns_down_what_is_no_document() {
    assert!(parse_json("").is_none());
    assert!(parse_json("{").is_none());
    assert!(parse_json(r#"{"a":}"#).is_none());
    assert!(parse_json("[1,2").is_none());
    assert!(parse_json("nul").is_none());
    assert!(parse_json("1 2").is_none());
    assert!(parse_json("{status: ok}").is_none());
}

#[test]
fn hand_built_values_match_parsed_ones() {
    let built = Json::Object(vec![
        member("status", text("ok")),
        member("ids", Json::Array(vec![whole(1), whole(2)])),
    ]);
    let read = parsed(r#"{"status":"ok","ids":[1,2]}"#);
    assert!(does_json_include(&built, &read));
    assert!(does_json_include(&read, &built));
}

#[test]
fn last_member_of_a_name_counts() {
    let twice = Json::Object(vec![member("a", whole(1)), member("a", whole(2))]);
    let first = Json::Object(vec![member("a", whole(1))]);
    let second = Json::Object(vec![member("a", whole(2))]);
    assert!(does_json_include(&twice, &second));
    assert!(!does_json_include(&twice, &first));
    assert!(does_json_include(&second, &twice));
    assert!(!does_json_include(&first, &twice));
    assert!(does_json_include(&twice, &twice));
}

#[test]
fn missing_member_is_null_for_hand_built_values() {
    let empty = Json::Object(vec![]);
    let wants_null = Json::Object(vec![member("a", Json::Null)]);
    let wants_one = Json::Object(vec![member("a", whole(1))]);
    assert!(does_json_include(&empty, &wants_null));
    assert!(!does_json_include(&empty, &wants_one));
}
