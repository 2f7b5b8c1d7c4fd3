use mdbrot::text::{eq_ignoring_case, parse_u32};

#[test]
fn decimal_numbers_are_read() {
    assert_eq!(parse_u32("0"), Some(0));
    assert_eq!(parse_u32("7"), Some(7));
    assert_eq!(parse_u32("12"), Some(12));
    assert_eq!(parse_u32("3840"), Some(3840));
    assert_eq!(parse_u32("0000000000000000000042"), Some(42));
    assert_eq!(parse_u32("4294967295"), Some(4294967295));
}

#[test]
fn one_leading_plus_is_allowed() {
    assert_eq!(parse_u32("+5"), Some(5));
    assert_eq!(parse_u32("+0"), Some(0));
    assert_eq!(parse_u32("++5"), None);
    assert_eq!(parse_u32("+"), None);
    assert_eq!(parse_u32("5+"), None);
}

#[test]
fn numbers_past_32_bits_are_refused() {
    assert_eq!(parse_u32("4294967296"), None);
    assert_eq!(parse_u32("4294967300"), None);
    assert_eq!(parse_u32("42949672950"), None);
    assert_eq!(parse_u32("99999999999999999999999999999999"), None);
    assert_eq!(parse_u32("+4294967296"), None);
}

#[test]
fn anything_but_digits_is_refused() {
    for bad in ["", " ", "-0", "-1", "1 ", " 1", "1e3", "1_0", "0x1f", "12a", "a12", "\u{0661}", "\u{ff11}"] {
        assert_eq!(parse_u32(bad), None, "token {:?}", bad);
    }
}

#[test]
fn reading_agrees_with_the_standard_parser() {
    let samples = [
        "0", "1", "09", "10", "+10", "-10", "4294967295", "4294967296", "", "+", "x", "1x",
        "2147483648", "00004294967295", "429496729x", " 7", "7\n",
    ];
    for s in samples {
        assert_eq!(parse_u32(s), s.parse::<u32>().ok(), "token {:?}", s);
    }
    for n in [0u32, 1, 9, 10, 99, 511, 512, 65535, 65536, 1_000_000, u32::MAX - 1, u32::MAX] {
        assert_eq!(parse_u32(&n.to_string()), Some(n));
    }
}

#[test]
fn words_match_whatever_their_case() {
    assert!(eq_ignoring_case("", ""));
    assert!(eq_ignoring_case("-h", "-h"));
    assert!(eq_ignoring_case("-H", "-h"));
    assert!(eq_ignoring_case("-h", "-H"));
    assert!(eq_ignoring_case("--HeLp", "--help"));
    assert!(eq_ignoring_case("AbCxYz09", "aBcXyZ09"));
}

#[test]
fn different_words_do_not_match() {
    assert!(!eq_ignoring_case("-h", "--help"));
    assert!(!eq_ignoring_case("--help", "-h"));
    assert!(!eq_ignoring_case("-h", ""));
    assert!(!eq_ignoring_case("", "-h"));
    assert!(!eq_ignoring_case("-h", "-g"));
    assert!(!eq_ignoring_case("--help", "--helq"));
    assert!(!eq_ignoring_case("--hel", "--help"));
}

#[test]
fn only_ascii_letters_lose_their_case() {
    assert!(!eq_ignoring_case("\u{e9}", "\u{c9}"));
    assert!(!eq_ignoring_case("k", "\u{212a}"));
    assert!(!eq_ignoring_case("@", "`"));
    assert!(!eq_ignoring_case("[", "{"));
    assert!(eq_ignoring_case("\u{e9}A", "\u{e9}a"));
}

#[test]
fn matching_agrees_with_the_standard_comparison() {
    let words = ["", "-h", "-H", "--help", "--HELP", "-g", "h", "\u{e9}", "\u{c9}", "@", "`", "Z", "z", "[", "{"];
    for a in words {
        for b in words {
            assert_eq!(eq_ignoring_case(a, b), a.eq_ignore_ascii_case(b), "{:?} {:?}", a, b);
        }
    }
}
