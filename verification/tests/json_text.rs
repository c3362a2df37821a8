use mcp_odoo::json::{members_insert, Json, Number};
use mcp_odoo::text::{concat_str, decimal_string, split_trimmed, starts_with, str_eq, trim_end_str, trim_str};

#[test]
fn json_accessors() {
    let v = Json::Object(vec![
        ("a".to_string(), Json::from_i64(-2)),
        ("b".to_string(), Json::Str("x".to_string())),
        ("a".to_string(), Json::Null),
    ]);
    assert_eq!(v.get("a"), Some(&Json::Num(Number::NegInt(-2))));
    assert_eq!(v.get("c"), None);
    assert_eq!(Json::Null.get("a"), None);
    assert_eq!(v.get("b").and_then(|b| b.as_str()), Some(&"x".to_string()));
    assert_eq!(Json::from_i64(7).as_i64(), Some(7));
    assert_eq!(Json::from_u64(u64::MAX).as_i64(), None);
    assert_eq!(Json::from_u64(u64::MAX).as_u64(), Some(u64::MAX));
    assert_eq!(Json::from_i64(-1).as_u64(), None);
    assert_eq!(Json::Num(Number::Float("1.5".into())).as_i64(), None);
    assert!(Json::Array(vec![]).as_array().is_some());
    assert!(Json::Array(vec![]).as_object().is_none());
}

#[test]
fn insert_replaces_or_appends() {
    let mut ms = vec![("a".to_string(), Json::from_i64(1)), ("b".to_string(), Json::from_i64(2))];
    members_insert(&mut ms, "a".to_string(), Json::from_i64(9));
    assert_eq!(ms, vec![("a".to_string(), Json::from_i64(9)), ("b".to_string(), Json::from_i64(2))]);
    members_insert(&mut ms, "c".to_string(), Json::Null);
    assert_eq!(ms.len(), 3);
    let obj = Json::Object(ms);
    assert_eq!(obj.get("c"), Some(&Json::Null));
    assert_eq!(obj.get("b"), Some(&Json::from_i64(2)));
}

#[test]
fn deep_clone_is_equal() {
    let v = Json::Array(vec![
        Json::Object(vec![("k".to_string(), Json::Num(Number::Float("2.5e3".into())))]),
        Json::Bool(true),
        Json::Str("s".into()),
    ]);
    assert_eq!(v.deep_clone(), v);
}

#[test]
fn text_helpers() {
    assert!(str_eq("abc", "abc"));
    assert!(!str_eq("abc", "abd"));
    assert!(!str_eq("ab", "abc"));
    assert!(starts_with("get_name", "get_"));
    assert!(!starts_with("get", "get_"));
    assert!(starts_with("x", ""));
    assert_eq!(concat_str("a", "\u{e9}b"), "a\u{e9}b");
    assert_eq!(trim_str("  \u{3000}h i\u{2028} "), "h i");
    assert_eq!(trim_str("   "), "");
    assert_eq!(trim_end_str("a//", '/'), "a");
    assert_eq!(trim_end_str("///", '/'), "");
    assert_eq!(split_trimmed("a, b"), vec!["a".to_string(), "b".to_string()]);
    assert_eq!(decimal_string(0), "0");
    assert_eq!(decimal_string(401), "401");
    assert_eq!(decimal_string(u64::MAX), "18446744073709551615");
}
