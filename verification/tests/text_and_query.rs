use ac_scheduler::text::{parse_i64, parse_u32, str_eq};
use ac_scheduler::web::parse_query_string;

#[test]
fn u32_parsing_follows_std() {
    for s in ["0", "7", "+5", "007", "4294967295", "4294967296", "-5", "-0", "", "+", "1a", " 1", "99999999999999999999"] {
        assert_eq!(parse_u32(s), s.parse::<u32>().ok(), "{s}");
    }
}

#[test]
fn i64_parsing_follows_std() {
    for s in [
        "0",
        "-0",
        "+12",
        "-12",
        "20260918",
        "9223372036854775807",
        "9223372036854775808",
        "-9223372036854775808",
        "-9223372036854775809",
        "-",
        "+",
        "",
        "not_a_date",
        "12x",
    ] {
        assert_eq!(parse_i64(s), s.parse::<i64>().ok(), "{s}");
    }
}

#[test]
fn string_equality() {
    assert!(str_eq("Standby", "Standby"));
    assert!(!str_eq("Standby", "Standb"));
    assert!(!str_eq("µs", "us"));
    assert!(str_eq("", ""));
}

#[test]
fn query_pairs_later_wins_and_first_equals_splits() {
    let q = parse_query_string("a=1&&b=2=3&a=4&c&=x");
    assert_eq!(q.get("a").map(|s| s.as_str()), Some("4"));
    assert_eq!(q.get("b").map(|s| s.as_str()), Some("2=3"));
    assert_eq!(q.get("c").map(|s| s.as_str()), Some(""));
    assert_eq!(q.get("").map(|s| s.as_str()), Some("x"));
    assert_eq!(q.get("d"), None);
    let empty = parse_query_string("");
    assert_eq!(empty.get(""), None);
}
