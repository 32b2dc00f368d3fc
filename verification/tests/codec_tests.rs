//! The JSON codec: serialization and parsing.

use mcp_server::json::Json;
use mcp_server::parse::parse_document;
use mcp_server::text::json_to_string;

fn roundtrip(input: &str) -> Option<String> {
    parse_document(input).map(|j| json_to_string(&j))
}

#[test]
fn serialize_scalars() {
    assert_eq!(json_to_string(&Json::Null), "null");
    assert_eq!(json_to_string(&Json::Bool(true)), "true");
    assert_eq!(json_to_string(&Json::Bool(false)), "false");
    assert_eq!(json_to_string(&Json::Int(0)), "0");
    assert_eq!(json_to_string(&Json::Int(-1)), "-1");
    assert_eq!(json_to_string(&Json::Int(i64::MAX)), "9223372036854775807");
    assert_eq!(json_to_string(&Json::Int(i64::MIN)), "-9223372036854775808");
}

#[test]
fn serialize_string_escapes() {
    let s = Json::Str("a\"b\\c\nd\te\ru\u{8}v\u{c}w\u{1}x".to_string());
    assert_eq!(
        json_to_string(&s),
        "\"a\\\"b\\\\c\\nd\\te\\ru\\bv\\fw\\u0001x\""
    );
    let u = Json::Str("héllo ☃".to_string());
    assert_eq!(json_to_string(&u), "\"héllo ☃\"");
}

#[test]
fn serialize_containers() {
    let a = Json::Arr(vec![Json::Int(1), Json::Int(2), Json::Int(3)]);
    assert_eq!(json_to_string(&a), "[1,2,3]");
    let empty_a = Json::Arr(vec![]);
    assert_eq!(json_to_string(&empty_a), "[]");
    let o = Json::Obj(vec![
        ("b".to_string(), Json::Bool(false)),
        ("a".to_string(), Json::Arr(vec![Json::Null])),
    ]);
    assert_eq!(json_to_string(&o), "{\"b\":false,\"a\":[null]}");
    let empty_o = Json::Obj(vec![]);
    assert_eq!(json_to_string(&empty_o), "{}");
}

#[test]
fn parse_scalars() {
    assert_eq!(roundtrip("null").as_deref(), Some("null"));
    assert_eq!(roundtrip(" true ").as_deref(), Some("true"));
    assert_eq!(roundtrip("false").as_deref(), Some("false"));
    assert_eq!(roundtrip("42").as_deref(), Some("42"));
    assert_eq!(roundtrip("-7").as_deref(), Some("-7"));
    assert_eq!(roundtrip("-0").as_deref(), Some("0"));
    assert_eq!(roundtrip("0").as_deref(), Some("0"));
}

#[test]
fn parse_number_bounds() {
    assert_eq!(
        roundtrip("9223372036854775807").as_deref(),
        Some("9223372036854775807")
    );
    assert_eq!(
        roundtrip("-9223372036854775808").as_deref(),
        Some("-9223372036854775808")
    );
    assert_eq!(roundtrip("9223372036854775808"), None);
    assert_eq!(roundtrip("-9223372036854775809"), None);
    assert_eq!(roundtrip("99999999999999999999999999"), None);
}

#[test]
fn parse_number_shape() {
    assert_eq!(roundtrip("01"), None);
    assert_eq!(roundtrip("1.5"), None);
    assert_eq!(roundtrip("1e3"), None);
    assert_eq!(roundtrip("1E3"), None);
    assert_eq!(roundtrip("-"), None);
    assert_eq!(roundtrip("+1"), None);
}

#[test]
fn parse_strings_and_escapes() {
    assert_eq!(roundtrip("\"hi\"").as_deref(), Some("\"hi\""));
    assert_eq!(
        roundtrip("\"a\\\"b\\\\c\\/d\\n\\t\\r\\b\\f\"").as_deref(),
        Some("\"a\\\"b\\\\c/d\\n\\t\\r\\b\\f\"")
    );
    assert_eq!(roundtrip("\"\\u0041\"").as_deref(), Some("\"A\""));
    // a surrogate pair denotes one character beyond the basic plane
    assert_eq!(roundtrip("\"\\uD83D\\uDE00\"").as_deref(), Some("\"😀\""));
    // a lone surrogate does not parse
    assert_eq!(roundtrip("\"\\uD83D\""), None);
    assert_eq!(roundtrip("\"\\uDE00\""), None);
    // a raw control character does not parse
    assert_eq!(roundtrip("\"a\u{1}b\""), None);
    // an unknown escape does not parse
    assert_eq!(roundtrip("\"\\x\""), None);
    // an unterminated string does not parse
    assert_eq!(roundtrip("\"abc"), None);
}

#[test]
fn parse_containers() {
    assert_eq!(roundtrip("[1, 2,3]").as_deref(), Some("[1,2,3]"));
    assert_eq!(roundtrip("[]").as_deref(), Some("[]"));
    assert_eq!(roundtrip("[ ]").as_deref(), Some("[]"));
    assert_eq!(roundtrip("{}").as_deref(), Some("{}"));
    assert_eq!(
        roundtrip("{\"a\": 1, \"b\": [true, false, null]}").as_deref(),
        Some("{\"a\":1,\"b\":[true,false,null]}")
    );
    assert_eq!(
        roundtrip("[[[]]]").as_deref(),
        Some("[[[]]]")
    );
    // members keep their order and duplicates survive parsing
    assert_eq!(
        roundtrip("{\"b\":1,\"a\":2,\"b\":3}").as_deref(),
        Some("{\"b\":1,\"a\":2,\"b\":3}")
    );
}

#[test]
fn parse_rejects_malformed() {
    assert_eq!(roundtrip(""), None);
    assert_eq!(roundtrip("   "), None);
    assert_eq!(roundtrip("nul"), None);
    assert_eq!(roundtrip("[1,]"), None);
    assert_eq!(roundtrip("[1 2]"), None);
    assert_eq!(roundtrip("{\"a\" 1}"), None);
    assert_eq!(roundtrip("{\"a\":}"), None);
    assert_eq!(roundtrip("{a:1}"), None);
    assert_eq!(roundtrip("[1] trailing"), None);
    assert_eq!(roundtrip("[1"), None);
    assert_eq!(roundtrip("{\"a\":1"), None);
}

#[test]
fn parse_whitespace_everywhere() {
    assert_eq!(
        roundtrip(" \t\r\n{ \"a\" :\t[ 1 ,\r\n 2 ] }\n").as_deref(),
        Some("{\"a\":[1,2]}")
    );
}

#[test]
fn duplicate_preserves_value() {
    let v = Json::Obj(vec![
        ("k".to_string(), Json::Arr(vec![Json::Str("x\"y".to_string()), Json::Int(-3)])),
        ("n".to_string(), Json::Null),
    ]);
    let copy = v.duplicate();
    assert_eq!(json_to_string(&copy), json_to_string(&v));
}
