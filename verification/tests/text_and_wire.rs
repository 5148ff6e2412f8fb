use altair_gateway::cors::{parse_allowed_headers, parse_allowed_methods, parse_allowed_origins};
use altair_gateway::services::users_client::user_id_from_reply;
use altair_gateway::text::{
    decimal_string, parse_decimal, split, str_eq, strip_prefix, trim, trim_end_matches,
    trim_start_matches,
};
use altair_gateway::wire::{is_uuid, uuid_string};

#[test]
fn trim_removes_unicode_white_space() {
    assert_eq!(trim("  a b \t\n"), "a b");
    assert_eq!(trim("\u{3000}x\u{a0}"), "x");
    assert_eq!(trim("   "), "");
    assert_eq!(trim_start_matches("///a/b", '/'), "a/b");
    assert_eq!(trim_end_matches("http://x//", '/'), "http://x");
}

#[test]
fn split_keeps_empty_pieces() {
    assert_eq!(split("a,,b", ','), vec!["a", "", "b"]);
    assert_eq!(split("", ','), vec![""]);
    assert_eq!(split("/x/", '/'), vec!["", "x", ""]);
}

#[test]
fn prefixes_and_equality() {
    assert_eq!(strip_prefix("Bearer abc", "Bearer "), Some("abc"));
    assert_eq!(strip_prefix("bearer abc", "Bearer "), None);
    assert!(str_eq("a", "a"));
    assert!(!str_eq("a", "ab"));
}

#[test]
fn decimal_parse_matches_std() {
    for s in ["0", "+12", "007", "18446744073709551615", "18446744073709551616", "", "+", "-1", "1_0", " 1", "4294967296"] {
        assert_eq!(parse_decimal(s, u64::MAX), s.parse::<u64>().ok(), "{s}");
        assert_eq!(parse_decimal(s, u32::MAX as u64), s.parse::<u32>().ok().map(u64::from), "{s}");
    }
}

#[test]
fn decimal_formatting() {
    assert_eq!(decimal_string(0), "0");
    assert_eq!(decimal_string(404), "404");
    assert_eq!(decimal_string(u64::MAX), u64::MAX.to_string());
}

#[test]
fn uuid_text_matches_uuid_crate() {
    let v: u128 = 0x67e55044_10b1_426f_9247_bb680e5fe0c8;
    assert_eq!(uuid_string(v), "67e55044-10b1-426f-9247-bb680e5fe0c8");
    assert_eq!(uuid_string(0), "00000000-0000-0000-0000-000000000000");
    assert_eq!(user_id_from_reply(Some("67e55044-10b1-426f-9247-bb680e5fe0c8")).unwrap(), v);
    assert_eq!(user_id_from_reply(Some("67E5504410B1426F9247BB680E5FE0C8")).unwrap(), v);
    assert!(is_uuid("67e55044-10b1-426f-9247-bb680e5fe0c8"));
    assert!(!is_uuid("labs"));
}

#[test]
fn header_and_method_validity() {
    assert_eq!(parse_allowed_origins(Some("hello world\t!,caf\u{e9},bad\nvalue,del\u{7f}")), vec!["hello world\t!", "caf\u{e9}"]);
    assert_eq!(parse_allowed_headers(Some("Content-Type,bad header,")), vec!["content-type"]);
    assert_eq!(parse_allowed_methods(Some("PATCH,CUSTOM,GE T")), vec!["PATCH", "CUSTOM"]);
}

#[test]
fn methods_and_header_names_are_tokens() {
    assert_eq!(parse_allowed_methods(Some("M!#$%&'*+-.^_`|~9,A\u{e9},,X(Y")), vec!["M!#$%&'*+-.^_`|~9"]);
    assert_eq!(parse_allowed_methods(Some("VERYLONGCUSTOMMETHODNAME")), vec!["VERYLONGCUSTOMMETHODNAME"]);
    assert_eq!(parse_allowed_headers(Some("X-Ok,x:colon,")), vec!["x-ok"]);
}
