use counterfire2::text::{contains_lower, eq_lower, eq_upper, parse_u16, parse_u32, str_eq, trim, IntErrorKind};

#[test]
fn case_folding() {
    assert!(eq_lower("HeLLo", "hello"));
    assert!(!eq_lower("hello", "Hello"));
    assert!(eq_upper("ct", "CT"));
    assert!(!eq_upper("c", "CT"));
    assert!(contains_lower("WEAPON_KNIFE", "knife"));
    assert!(!contains_lower("kn", "knife"));
    assert!(contains_lower("abc", ""));
    assert!(str_eq("a", "a"));
    assert!(!str_eq("a", "b"));
}

#[test]
fn trimming() {
    assert_eq!(trim("  a b \n"), "a b");
    assert_eq!(trim("\u{3000}x\u{a0}"), "x");
    assert_eq!(trim("   "), "");
    assert_eq!(trim(""), "");
}

#[test]
fn decimal_parsing_matches_std() {
    for s in ["0", "+7", "65535", "65536", "", "+", "-", "-1", "12a", "99999999", "007"] {
        let ours = parse_u16(s);
        let theirs = s.parse::<u16>();
        match (ours, theirs) {
            (Ok(a), Ok(b)) => assert_eq!(a, b),
            (Err(a), Err(b)) => {
                let expected = match b.kind() {
                    std::num::IntErrorKind::Empty => IntErrorKind::Empty,
                    std::num::IntErrorKind::InvalidDigit => IntErrorKind::InvalidDigit,
                    _ => IntErrorKind::PosOverflow,
                };
                assert_eq!(a, expected, "{s}");
            }
            (a, b) => panic!("{s}: {a:?} vs {b:?}"),
        }
    }
    assert_eq!(parse_u32("4294967295"), Ok(4294967295));
    assert_eq!(parse_u32("4294967296"), Err(IntErrorKind::PosOverflow));
    assert_eq!(parse_u32("1x99999999999"), Err(IntErrorKind::InvalidDigit));
    assert_eq!(parse_u32("99999999999x"), Err(IntErrorKind::PosOverflow));
}
