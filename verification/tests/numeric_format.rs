use datis_core::utils::{pronounce_number, round_hundreds};

#[test]
fn round_hundreds_truncates_toward_zero() {
    assert_eq!(round_hundreds(250), 200);
    assert_eq!(round_hundreds(-250), -200);
}

#[test]
fn round_hundreds_edge_values() {
    assert_eq!(round_hundreds(0), 0);
    assert_eq!(round_hundreds(99), 0);
    assert_eq!(round_hundreds(-99), 0);
    assert_eq!(round_hundreds(100), 100);
    assert_eq!(round_hundreds(-100), -100);
    assert_eq!(round_hundreds(i32::MAX), 2147483600);
    assert_eq!(round_hundreds(i32::MIN), -2147483600);
}

#[test]
fn pronounce_one_zero_niner() {
    assert_eq!(pronounce_number("109", true), "1 ZERO NINER");
}

#[test]
fn pronounce_decimal_point() {
    assert_eq!(pronounce_number(&format!("{}", 3.5_f64), true), "3 DECIMAL 5");
}

#[test]
fn pronounce_disabled_returns_text_unchanged() {
    assert_eq!(pronounce_number("109", false), "109");
    assert_eq!(pronounce_number("3.5", false), "3.5");
}

#[test]
fn pronounce_passes_other_characters_through() {
    assert_eq!(pronounce_number("-12", true), "- 1 2");
    assert_eq!(pronounce_number("", true), "");
    assert_eq!(pronounce_number("90", true), "NINER ZERO");
}
