use monoio::text::{is_truthy, parse_u64};

#[test]
fn numbers_are_read_like_integers() {
    assert_eq!(parse_u64("0"), Some(0));
    assert_eq!(parse_u64("5000"), Some(5000));
    assert_eq!(parse_u64("+17"), Some(17));
    assert_eq!(parse_u64("007"), Some(7));
    assert_eq!(parse_u64("18446744073709551615"), Some(u64::MAX));
    assert_eq!(parse_u64("18446744073709551616"), None);
    assert_eq!(parse_u64("99999999999999999999999"), None);
    assert_eq!(parse_u64("00000000000000000000000000000012"), Some(12));
    for bad in ["", "+", "-1", "++1", "1+", " 1", "1 ", "1_000", "0x10", "ten", "1.5"] {
        assert_eq!(parse_u64(bad), None, "{bad:?} is no number");
        assert_eq!(bad.parse::<u64>().ok(), None);
    }
}

#[test]
fn white_space_of_every_kind_is_trimmed() {
    for v in ["\t1\n", "\u{a0}true\u{3000}", "\u{2003}YES\u{85}", "\r\n oN \u{205f}"] {
        assert!(is_truthy(v), "{v:?}");
        assert_eq!(v.trim().to_ascii_lowercase(), v.trim().to_lowercase());
    }
    for v in ["o n", "\u{200b}on", "on\u{feff}", "11", "tru", "truee", "\u{212a}"] {
        assert!(!is_truthy(v), "{v:?}");
    }
}
