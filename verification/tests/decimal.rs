use discordbot::decimal::{parse_u64, render_u64};

#[test]
fn render_small_and_large_numbers() {
    assert_eq!(render_u64(0), "0");
    assert_eq!(render_u64(7), "7");
    assert_eq!(render_u64(10), "10");
    assert_eq!(render_u64(1234567890), "1234567890");
    assert_eq!(render_u64(u64::MAX), "18446744073709551615");
}

#[test]
fn render_agrees_with_format() {
    for n in [0u64, 1, 9, 99, 100, 65535, 4294967296, 999999999999] {
        assert_eq!(render_u64(n), format!("{}", n));
    }
}

#[test]
fn parse_accepts_what_from_str_accepts() {
    assert_eq!(parse_u64("0"), Some(0));
    assert_eq!(parse_u64("42"), Some(42));
    assert_eq!(parse_u64("+42"), Some(42));
    assert_eq!(parse_u64("007"), Some(7));
    assert_eq!(parse_u64("18446744073709551615"), Some(u64::MAX));
}

#[test]
fn parse_refuses_what_from_str_refuses() {
    assert_eq!(parse_u64(""), None);
    assert_eq!(parse_u64("+"), None);
    assert_eq!(parse_u64("-"), None);
    assert_eq!(parse_u64("-1"), None);
    assert_eq!(parse_u64("1.5"), None);
    assert_eq!(parse_u64(" 5"), None);
    assert_eq!(parse_u64("ten"), None);
    assert_eq!(parse_u64("++1"), None);
    assert_eq!(parse_u64("18446744073709551616"), None);
    assert_eq!(parse_u64("99999999999999999999999"), None);
}

#[test]
fn parse_matches_std_on_samples() {
    for s in ["", "+", "1", "+0", "-0", "12a", "٣", "00000000000000000000018446744073709551615", "18446744073709551620"] {
        assert_eq!(parse_u64(s), s.parse::<u64>().ok(), "input {:?}", s);
    }
}

#[test]
fn parse_reads_back_rendered_numbers() {
    for n in [0u64, 5, 10, 123456, u64::MAX - 1, u64::MAX] {
        assert_eq!(parse_u64(&render_u64(n)), Some(n));
    }
}
