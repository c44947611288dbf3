use egui_enum_plot::decimal::{
    format_fixed3, format_integer, format_trimmed, magnitude, trim_decimal,
};
use egui_enum_plot::plottable::{EnumPlottable, Thousandths};

fn thousandths_of(value: f64) -> Thousandths {
    Thousandths((value * 1000.0).round() as i64)
}

#[test]
fn label_round_trip() {
    assert_eq!(thousandths_of(1.500).display(), "1.5");
    assert_eq!(thousandths_of(2.000).display(), "2");
    assert_eq!(thousandths_of(1.234567).display(), "1.235");
}

#[test]
fn trim_of_three_decimal_text() {
    assert_eq!(trim_decimal(&format!("{:.3}", 1.500f64)), "1.5");
    assert_eq!(trim_decimal(&format!("{:.3}", 2.000f64)), "2");
    assert_eq!(trim_decimal(&format!("{:.3}", 1.234567f64)), "1.235");
    assert_eq!(trim_decimal(&format!("{:.3}", 0.0f32)), "0");
    assert_eq!(trim_decimal(&format!("{:.3}", -0.25f32)), "-0.25");
}

#[test]
fn trim_cuts_zeros_then_points() {
    for text in ["1.500", "2.000", "100", "0.000", "5.", "5..", "1.0.0", "", "000", ".", "abc", "7.10"] {
        let expected = text.trim_end_matches('0').trim_end_matches('.');
        assert_eq!(trim_decimal(text), expected, "for {:?}", text);
    }
    assert_eq!(trim_decimal("100"), "1");
    assert_eq!(trim_decimal("5.."), "5");
    assert_eq!(trim_decimal("0.000"), "0");
    assert_eq!(trim_decimal("1.0.0"), "1.0");
}

#[test]
fn trim_keeps_other_characters() {
    assert_eq!(trim_decimal("1.5\u{e9}"), "1.5\u{e9}");
    assert_eq!(trim_decimal("\u{e9}0.0"), "\u{e9}0");
}

#[test]
fn fixed3_has_three_decimals() {
    assert_eq!(format_fixed3(1500), "1.500");
    assert_eq!(format_fixed3(2000), "2.000");
    assert_eq!(format_fixed3(1235), "1.235");
    assert_eq!(format_fixed3(0), "0.000");
    assert_eq!(format_fixed3(7), "0.007");
    assert_eq!(format_fixed3(-1), "-0.001");
    assert_eq!(format_fixed3(-12_345_678), "-12345.678");
    assert_eq!(format_fixed3(i64::MAX), "9223372036854775.807");
    assert_eq!(format_fixed3(i64::MIN), "-9223372036854775.808");
}

#[test]
fn fixed3_agrees_with_float_formatting() {
    for v in [0i64, 1, 10, 100, 999, 1000, 1001, 1500, 25_000, -500, -1500, 123_456_789] {
        assert_eq!(format_fixed3(v), format!("{:.3}", v as f64 / 1000.0), "for {}", v);
    }
}

#[test]
fn trimmed_is_shortest() {
    assert_eq!(format_trimmed(1500), "1.5");
    assert_eq!(format_trimmed(2000), "2");
    assert_eq!(format_trimmed(1235), "1.235");
    assert_eq!(format_trimmed(0), "0");
    assert_eq!(format_trimmed(10), "0.01");
    assert_eq!(format_trimmed(-500), "-0.5");
    assert_eq!(format_trimmed(-1000), "-1");
    assert_eq!(format_trimmed(100_000), "100");
    assert_eq!(format_trimmed(i64::MIN), "-9223372036854775.808");
}

#[test]
fn integers_as_display_writes_them() {
    for v in [0i64, 1, 9, 10, 11, 99, 100, 12_345, -1, -10, -987_654_321, i64::MAX, i64::MIN] {
        assert_eq!(format_integer(v), v.to_string());
        assert_eq!(v.display(), v.to_string());
    }
}

#[test]
fn magnitude_drops_the_sign() {
    assert_eq!(magnitude(0), 0);
    assert_eq!(magnitude(5), 5);
    assert_eq!(magnitude(-5), 5);
    assert_eq!(magnitude(i64::MAX), 9_223_372_036_854_775_807);
    assert_eq!(magnitude(i64::MIN), 9_223_372_036_854_775_808);
}

#[test]
fn whole_numbers_have_no_decimals() {
    for whole in [0i64, 1, 2, 10, 100, 12_345, -1, -2, -70, 9_223_372_036_854_775, -9_223_372_036_854_775] {
        assert_eq!(format_trimmed(whole * 1000), format_integer(whole));
    }
}
