use nanocld_core::text::{leading_run, text_concat, trim_str, u64_to_decimal};

#[test]
fn decimal_of_zero() {
    assert_eq!(u64_to_decimal(0), "0");
}

#[test]
fn decimal_of_small_and_large_numbers() {
    assert_eq!(u64_to_decimal(7), "7");
    assert_eq!(u64_to_decimal(10), "10");
    assert_eq!(u64_to_decimal(2048), "2048");
    assert_eq!(u64_to_decimal(u64::MAX), "18446744073709551615");
}

#[test]
fn decimal_matches_std_formatting() {
    for n in [0u64, 1, 9, 99, 100, 12345, 1_000_000_007, u64::MAX - 1] {
        assert_eq!(u64_to_decimal(n), format!("{}", n));
    }
}

#[test]
fn trim_removes_unicode_white_space() {
    assert_eq!(trim_str("  a b \t\r\n"), "a b");
    assert_eq!(trim_str("\u{3000}x\u{a0}"), "x");
    assert_eq!(trim_str("   "), "");
    assert_eq!(trim_str(""), "");
    assert_eq!(trim_str("x"), "x");
}

#[test]
fn trim_matches_std_trim() {
    for s in [" (1.00/100%)", "\u{85}\u{2003}z z\u{205f}", "\0 a", "a \0"] {
        assert_eq!(trim_str(s), s.trim());
    }
}

#[test]
fn leading_run_counts_matching_and_other_characters() {
    assert_eq!(leading_run("((3", '(', true), 2);
    assert_eq!(leading_run("ab/c/d", '/', false), 2);
    assert_eq!(leading_run("abc", '/', false), 3);
    assert_eq!(leading_run("", '(', true), 0);
}

#[test]
fn concat_joins_texts() {
    assert_eq!(text_concat("/metrics", "/x"), "/metrics/x");
}
