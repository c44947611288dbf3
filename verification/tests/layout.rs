use egui_enum_plot::fixed::{clamp, floor_div, half, mul_count, mul_wide, UNIT};
use egui_enum_plot::layout::{plot_height, row_top_y, vertical_space_needed};
use egui_enum_plot::style::EnumPlotUiStyle;

fn style(line_height: i32, line_spacing: i32, margin: i32) -> EnumPlotUiStyle {
    EnumPlotUiStyle {
        line_height,
        line_spacing,
        margin,
        text_height: 15_000,
        text_color: egui::Color32::WHITE,
        transition_len: 500,
        line_style: egui::Stroke::NONE,
        side_margin: 75_000,
        hover_text: false,
    }
}

#[test]
fn three_rows_reserve_105() {
    // 3 x 25 + 2 x 10 + 2 x 5
    assert_eq!(vertical_space_needed(&style(25, 10, 5), 3), 105);
    assert_eq!(vertical_space_needed(&style(25_000, 10_000, 5_000), 3), 105_000);
    assert_eq!(plot_height(&style(25_000, 10_000, 5_000), 3, 600_000), 495_000);
}

#[test]
fn no_rows_no_margin_leave_the_height() {
    assert_eq!(vertical_space_needed(&style(25_000, 10_000, 0), 0), 0);
    assert_eq!(plot_height(&style(25_000, 10_000, 0), 0, 600_000), 600_000);
}

#[test]
fn no_rows_reserve_the_margins() {
    assert_eq!(vertical_space_needed(&style(25_000, 10_000, 5_000), 0), 10_000);
    assert_eq!(plot_height(&style(25_000, 10_000, 5_000), 0, 600_000), 590_000);
}

#[test]
fn one_row_has_no_gap() {
    assert_eq!(vertical_space_needed(&style(25_000, 10_000, 5_000), 1), 35_000);
    assert_eq!(vertical_space_needed(&style(25_000, 10_000, 5_000), 2), 70_000);
}

#[test]
fn each_further_row_adds_band_and_gap() {
    let s = style(25_000, 10_000, 5_000);
    for n in 1..50usize {
        assert_eq!(
            vertical_space_needed(&s, n + 1),
            vertical_space_needed(&s, n) + 25_000 + 10_000
        );
    }
}

#[test]
fn plot_and_rows_fill_the_height() {
    let s = style(25_000, 10_000, 5_000);
    for n in 0..20usize {
        assert_eq!(plot_height(&s, n, 300_000) + vertical_space_needed(&s, n), 300_000);
    }
}

#[test]
fn plot_height_may_be_negative() {
    assert_eq!(plot_height(&style(25_000, 10_000, 5_000), 3, 100_000), -5_000);
    assert_eq!(plot_height(&style(25_000, 10_000, 5_000), 3, 0), -105_000);
}

#[test]
fn row_tops() {
    let s = style(25_000, 10_000, 5_000);
    assert_eq!(row_top_y(&s, 400_000, 0), 405_000);
    assert_eq!(row_top_y(&s, 400_000, 1), 440_000);
    assert_eq!(row_top_y(&s, 400_000, 2), 475_000);
    assert_eq!(row_top_y(&s, -1_000, 3), 109_000);
}

#[test]
fn extreme_sizes_do_not_overflow() {
    let s = style(i32::MAX, i32::MAX, i32::MAX);
    let n = usize::MAX;
    let expected = (n as i128) * (i32::MAX as i128)
        + ((n - 1) as i128) * (i32::MAX as i128)
        + 2 * (i32::MAX as i128);
    assert_eq!(vertical_space_needed(&s, n), expected);
    assert_eq!(plot_height(&s, n, i32::MIN), (i32::MIN as i128) - expected);
    let low = style(i32::MIN, i32::MIN, i32::MIN);
    assert_eq!(
        row_top_y(&low, i32::MIN, n),
        2 * (i32::MIN as i128) + 2 * (i32::MIN as i128) * (n as i128)
    );
}

#[test]
fn clamp_brings_into_range() {
    assert_eq!(clamp(5, 0, 10), 5);
    assert_eq!(clamp(-5, 0, 10), 0);
    assert_eq!(clamp(15, 0, 10), 10);
    assert_eq!(clamp(0, 0, 10), 0);
    assert_eq!(clamp(10, 0, 10), 10);
    assert_eq!(clamp(i64::MIN, -3, 4), -3);
    assert_eq!(clamp(i64::MAX, -3, 4), 4);
}

#[test]
fn clamp_to_an_empty_range_gives_its_upper_end() {
    assert_eq!(clamp(5, 10, 0), 0);
    assert_eq!(clamp(-5, 10, 0), 0);
    assert_eq!(clamp(15, 10, 0), 0);
}

#[test]
fn quotients_round_down() {
    assert_eq!(floor_div(7, 2), 3);
    assert_eq!(floor_div(-7, 2), -4);
    assert_eq!(floor_div(-8, 2), -4);
    assert_eq!(floor_div(-1, 100_000), -1);
    assert_eq!(floor_div(0, 3), 0);
    assert_eq!(floor_div(i128::MIN, 1), i128::MIN);
    assert_eq!(floor_div(i128::MAX, 1), i128::MAX);
    assert_eq!(floor_div(i128::MIN, 2), i128::MIN / 2);
    assert_eq!(half(5), 2);
    assert_eq!(half(-5), -3);
    assert_eq!(half(-1), -1);
    for a in -50i128..50 {
        for d in 1i128..8 {
            assert_eq!(floor_div(a, d), a.div_euclid(d));
        }
    }
}

#[test]
fn wide_products() {
    assert_eq!(mul_wide(3, -4), -12);
    assert_eq!(mul_wide(i64::MIN, i64::MIN), (i64::MIN as i128) * (i64::MIN as i128));
    assert_eq!(mul_wide(i64::MAX, i64::MIN), (i64::MAX as i128) * (i64::MIN as i128));
    assert_eq!(mul_count(0, 5), 0);
    assert_eq!(mul_count(usize::MAX, i64::MIN), (usize::MAX as i128) * (i64::MIN as i128));
    assert_eq!(mul_count(usize::MAX, i64::MAX), (usize::MAX as i128) * (i64::MAX as i128));
}

#[test]
fn unit_is_a_thousand() {
    assert_eq!(UNIT, 1000);
}
