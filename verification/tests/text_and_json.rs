use langstar::json::{string_array, string_object, Json};
use langstar::text::{
    join, str_eq, take_until, to_ascii_lower, to_ascii_upper, trim, truncate_for_display,
    u32_to_dec, u64_to_dec,
};

#[test]
fn test_decimal_formatting() {
    assert_eq!(u32_to_dec(0), "0");
    assert_eq!(u32_to_dec(7), "7");
    assert_eq!(u32_to_dec(20), "20");
    assert_eq!(u32_to_dec(100), "100");
    assert_eq!(u32_to_dec(4294967295), "4294967295");
    assert_eq!(u64_to_dec(18446744073709551615), "18446744073709551615");
}

#[test]
fn test_str_eq() {
    assert!(str_eq("", ""));
    assert!(str_eq("abc", "abc"));
    assert!(!str_eq("abc", "abd"));
    assert!(!str_eq("abc", "ab"));
    assert!(str_eq("naïve", "naïve"));
}

#[test]
fn test_ascii_case_mapping() {
    assert_eq!(to_ascii_lower("JSON"), "json");
    assert_eq!(to_ascii_lower("MiXeD_09"), "mixed_09");
    assert_eq!(to_ascii_upper("ready"), "READY");
    assert_eq!(to_ascii_upper("Awaiting_Delete"), "AWAITING_DELETE");
    // Non-ASCII characters are left alone.
    assert_eq!(to_ascii_lower("Äb"), "Äb");
}

#[test]
fn test_trim() {
    assert_eq!(trim("  x  "), "x");
    assert_eq!(trim("\t a b \n"), "a b");
    assert_eq!(trim(""), "");
    assert_eq!(trim("   "), "");
    assert_eq!(trim("none"), "none");
}

#[test]
fn test_truncate_for_display() {
    assert_eq!(truncate_for_display("short", 20), "short");
    assert_eq!(truncate_for_display("exactly-20-chars-aaa", 20), "exactly-20-chars-aaa");
    assert_eq!(
        truncate_for_display("abcdefghijklmnopqrstuvwxyz", 20),
        "abcdefghijklmnopq..."
    );
}

#[test]
fn test_take_until() {
    assert_eq!(take_until("2024-01-15T10:30:00Z", 'T'), "2024-01-15");
    assert_eq!(take_until("no-separator", 'T'), "no-separator");
    assert_eq!(take_until("Tfirst", 'T'), "");
}

#[test]
fn test_join() {
    let parts = vec!["a=1".to_string(), "b=2".to_string(), "c=3".to_string()];
    assert_eq!(join(&parts, "&"), "a=1&b=2&c=3");
    assert_eq!(join(&vec!["x".to_string()], "&"), "x");
    assert_eq!(join(&Vec::new(), "&"), "");
}

#[test]
fn test_json_get_and_lookup() {
    let v = Json::Obj(vec![
        ("a".to_string(), Json::Int(1)),
        ("b".to_string(), Json::Str("two".to_string())),
        ("a".to_string(), Json::Int(3)),
    ]);
    // The first entry with a key wins.
    assert!(matches!(v.get("a"), Some(Json::Int(1))));
    assert_eq!(v.get_str("b"), Some("two".to_string()));
    assert_eq!(v.get_str("a"), None);
    assert!(v.get("missing").is_none());
    assert!(v.has_key("b"));
    assert!(!v.has_key("c"));
    // Non-objects hold nothing.
    assert!(Json::Int(4).get("a").is_none());
    assert!(Json::Null.get("a").is_none());
}

#[test]
fn test_json_builders() {
    let arr = string_array(vec!["x".to_string(), "y".to_string()]);
    match arr {
        Json::Arr(items) => {
            assert_eq!(items.len(), 2);
            assert!(matches!(&items[0], Json::Str(s) if s == "x"));
        }
        _ => panic!("string_array must build an array"),
    }
    let obj = string_object(vec![("k".to_string(), "v".to_string())]);
    match &obj {
        Json::Obj(entries) => {
            assert_eq!(entries.len(), 1);
            assert_eq!(entries[0].0, "k");
        }
        _ => panic!("string_object must build an object"),
    }
    assert_eq!(obj.get_str("k"), Some("v".to_string()));
}
