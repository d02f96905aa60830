use mcp_device_management::text::{
    chars_of, decimal_string, join_exec, lines_of, parse_unsigned_exec, replace_char_exec,
    second_field_of, str_contains, str_ends_with, str_eq, str_starts_with, trim_end_matches_exec,
    trim_str, utf8_len_exceeds, words_of,
};

fn s(v: &[char]) -> String {
    v.iter().collect()
}

fn lines(t: &str) -> Vec<String> {
    lines_of(&chars_of(t)).iter().map(|l| s(l)).collect()
}

fn words(t: &str) -> Vec<String> {
    words_of(&chars_of(t)).iter().map(|l| s(l)).collect()
}

#[test]
fn trim_removes_unicode_whitespace_on_both_ends() {
    assert_eq!(trim_str("  \t hello world \n"), "hello world");
    assert_eq!(trim_str("\u{3000}x\u{a0}"), "x");
    assert_eq!(trim_str("   "), "");
    assert_eq!(trim_str(""), "");
}

#[test]
fn lines_split_like_str_lines() {
    assert_eq!(lines("a\nb\r\nc"), vec!["a", "b", "c"]);
    assert_eq!(lines("a\n"), vec!["a"]);
    assert_eq!(lines("\n"), vec![""]);
    assert_eq!(lines(""), Vec::<String>::new());
    assert_eq!(lines("x\r"), vec!["x\r"]);
    assert_eq!(lines("a\n\nb"), vec!["a", "", "b"]);
    for t in ["a\nb\r\nc", "a\n", "\n", "", "x\r", "a\n\nb", "\r\n\r\n"] {
        let expected: Vec<String> = t.lines().map(|l| l.to_string()).collect();
        assert_eq!(lines(t), expected);
    }
}

#[test]
fn words_split_like_split_whitespace() {
    assert_eq!(words("  root  123 0.5\tps "), vec!["root", "123", "0.5", "ps"]);
    assert_eq!(words(""), Vec::<String>::new());
    assert_eq!(words(" \t "), Vec::<String>::new());
}

#[test]
fn second_field_is_split_nth_one() {
    let f = |t: &str| second_field_of(&chars_of(t), ':').map(|v| s(&v));
    assert_eq!(f("Model Name: MacBook Pro"), Some(" MacBook Pro".to_string()));
    assert_eq!(f("a:b:c"), Some("b".to_string()));
    assert_eq!(f("a:"), Some("".to_string()));
    assert_eq!(f("no colon"), None);
}

#[test]
fn substring_tests() {
    assert!(str_contains("FileVault is On.", "On"));
    assert!(!str_contains("FileVault is Off.", "On."));
    assert!(str_contains("anything", ""));
    assert!(str_starts_with("Model name: x", "Model name"));
    assert!(!str_starts_with("Model", "Model name"));
    assert!(str_ends_with("Safari.app", ".app"));
    assert!(!str_ends_with("app", ".app"));
    assert!(str_eq("linux", "linux"));
    assert!(!str_eq("linux", "Linux"));
}

#[test]
fn parse_follows_u64_from_str() {
    let p = |t: &str| parse_unsigned_exec(&chars_of(t), u64::MAX);
    assert_eq!(p("17179869184"), Some(17179869184));
    assert_eq!(p("+5"), Some(5));
    assert_eq!(p("+"), None);
    assert_eq!(p(""), None);
    assert_eq!(p("-1"), None);
    assert_eq!(p("12a"), None);
    assert_eq!(p("18446744073709551615"), Some(u64::MAX));
    assert_eq!(p("18446744073709551616"), None);
    let p32 = |t: &str| parse_unsigned_exec(&chars_of(t), u32::MAX as u64);
    assert_eq!(p32("4294967295"), Some(4294967295));
    assert_eq!(p32("4294967296"), None);
    for t in ["0", "007", "+12", "99999999999999999999", " 1", "1 "] {
        assert_eq!(p(t), t.parse::<u64>().ok());
    }
}

#[test]
fn decimal_matches_to_string() {
    for n in [0u64, 7, 10, 52, 1234567890, u64::MAX] {
        assert_eq!(decimal_string(n), n.to_string());
    }
}

#[test]
fn trim_end_matches_removes_every_copy() {
    let t = |a: &str| s(&trim_end_matches_exec(&chars_of(a), &chars_of(".app")));
    assert_eq!(t("Safari.app"), "Safari");
    assert_eq!(t("x.app.app"), "x");
    assert_eq!(t("Notes"), "Notes");
    assert_eq!(t(".app"), "");
}

#[test]
fn replace_and_join() {
    assert_eq!(s(&replace_char_exec(&chars_of("a.b.c"), '.', '-')), "a-b-c");
    let parts = vec![chars_of("x"), chars_of("y"), chars_of("z")];
    assert_eq!(s(&join_exec(&parts, &chars_of("\n"))), "x\ny\nz");
    assert_eq!(s(&join_exec(&vec![], &chars_of(" "))), "");
}

#[test]
fn utf8_length_is_counted_in_bytes() {
    let v = chars_of("héllo");
    assert!(utf8_len_exceeds(&v, 0, v.len(), 5));
    let w = chars_of("hello");
    assert!(!utf8_len_exceeds(&w, 0, w.len(), 5));
}
