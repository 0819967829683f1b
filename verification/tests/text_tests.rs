use eclipse_installer::sort::{sort_texts, text_le_exec};
use eclipse_installer::text::{
    chars_occur_at, contains, ends_with, from_chars, is_ws_char, parse_u64_str, push_decimal, push_int,
    push_str, squeeze_double_spaces_str, starts_with, to_chars, trim_bounds, trim_end_str, trim_str,
};

#[test]
fn decimal_rendering() {
    let mut s = String::from("n=");
    push_decimal(&mut s, 0);
    assert_eq!(s, "n=0");
    let mut t = String::new();
    push_decimal(&mut t, 1234567890);
    assert_eq!(t, "1234567890");
    let mut m = String::new();
    push_decimal(&mut m, u64::MAX);
    assert_eq!(m, u64::MAX.to_string());
}

#[test]
fn integer_rendering() {
    let mut s = String::new();
    push_int(&mut s, -1);
    assert_eq!(s, "-1");
    let mut t = String::new();
    push_int(&mut t, i32::MIN);
    assert_eq!(t, i32::MIN.to_string());
    let mut u = String::new();
    push_int(&mut u, 42);
    assert_eq!(u, "42");
}

#[test]
fn push_str_appends() {
    let mut s = String::from("ab");
    push_str(&mut s, "cd");
    assert_eq!(s, "abcd");
}

#[test]
fn white_space_matches_std() {
    for c in [' ', '\t', '\n', '\r', '\u{b}', '\u{c}', '\u{85}', '\u{a0}', '\u{2003}', '\u{3000}', 'a', '_', '0', '\u{200b}'] {
        assert_eq!(is_ws_char(c), c.is_whitespace(), "{:?}", c);
    }
}

#[test]
fn chars_round_trip() {
    let v = to_chars("héllo");
    assert_eq!(v, vec!['h', 'é', 'l', 'l', 'o']);
    assert_eq!(from_chars(&v), "héllo");
}

#[test]
fn trimming() {
    assert_eq!(trim_str("  a b \n"), "a b");
    assert_eq!(trim_str("\t\n "), "");
    assert_eq!(trim_str("x"), "x");
    assert_eq!(trim_end_str("  a b \n\r\n"), "  a b");
    assert_eq!(trim_end_str(""), "");
    assert_eq!(trim_bounds(&to_chars(" ab ")), (1, 3));
}

#[test]
fn prefix_suffix_infix() {
    assert!(starts_with("vmlinuz-6.6.1", "vmlinuz-"));
    assert!(!starts_with("vm", "vmlinuz-"));
    assert!(ends_with("normal.mod", ".mod"));
    assert!(!ends_with("normal.mo", ".mod"));
    assert!(contains("/dev/nvme0n1", "nvme"));
    assert!(contains("abc", ""));
    assert!(!contains("/dev/sda", "nvme"));
    assert!(chars_occur_at(&to_chars("abcd"), &to_chars("cd"), 2));
    assert!(!chars_occur_at(&to_chars("abcd"), &to_chars("cd"), 1));
}

#[test]
fn parse_unsigned() {
    assert_eq!(parse_u64_str("1953525168"), Some(1953525168));
    assert_eq!(parse_u64_str("+7"), Some(7));
    assert_eq!(parse_u64_str("18446744073709551615"), Some(u64::MAX));
    assert_eq!(parse_u64_str("18446744073709551616"), None);
    assert_eq!(parse_u64_str(""), None);
    assert_eq!(parse_u64_str("+"), None);
    assert_eq!(parse_u64_str("-1"), None);
    assert_eq!(parse_u64_str("12a"), None);
    assert_eq!(parse_u64_str(" 12"), None);
    for s in ["0", "+0", "00012", "99999999999999999999", "x"] {
        assert_eq!(parse_u64_str(s), s.parse::<u64>().ok(), "{}", s);
    }
}

#[test]
fn squeeze_spaces_like_replace() {
    for s in ["a  b", "a   b", "a    b", "", " ", "  ", "no-spaces"] {
        assert_eq!(squeeze_double_spaces_str(s), s.replace("  ", " "), "{:?}", s);
    }
}

#[test]
fn lexicographic_order() {
    assert!(text_le_exec("Amsterdam", "Berlin"));
    assert!(text_le_exec("Berlin", "Berlin"));
    assert!(!text_le_exec("Berlin", "Amsterdam"));
    assert!(text_le_exec("Ber", "Berlin"));
    assert!(!text_le_exec("Berlin", "Ber"));
    assert!(text_le_exec("Zurich", "a"));
}

#[test]
fn sorting_matches_std() {
    let v: Vec<String> = ["Paris", "Berlin", "Amsterdam", "Zurich", "Athens", "Berlin", "GB-Eire"]
        .iter()
        .map(|s| s.to_string())
        .collect();
    let mut expected = v.clone();
    expected.sort();
    assert_eq!(sort_texts(&v), expected);
    assert_eq!(sort_texts(&Vec::new()), Vec::<String>::new());
}
