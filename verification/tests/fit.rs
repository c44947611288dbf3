use std::cell::RefCell;

use egui_enum_plot::fit::{best_fit_font, fit_step, FitStep, TextSize, FONT_STEP};
use egui_enum_plot::shape::{LabelBox, Point};

fn limit(width: i128, height: i128) -> LabelBox {
    LabelBox { center: Point { x: 0, y: 0 }, width, height }
}

/// A text that is four times as wide as it is high.
fn wide_text(size: i32) -> TextSize {
    TextSize { width: 4 * size as i64, height: size as i64 }
}

#[test]
fn step_is_two_and_a_half_points() {
    assert_eq!(FONT_STEP, 2_500);
}

#[test]
fn step_accepts_a_text_that_fits() {
    let measured = TextSize { width: 50_000, height: 25_000 };
    assert_eq!(fit_step(15_000, 1_000, measured, &limit(50_000, 25_000)), FitStep::Fits);
    assert_eq!(fit_step(500, 1_000, measured, &limit(50_000, 25_000)), FitStep::Fits);
}

#[test]
fn step_shrinks_a_text_that_is_too_wide_or_too_high() {
    let too_wide = TextSize { width: 50_001, height: 25_000 };
    assert_eq!(fit_step(15_000, 1_000, too_wide, &limit(50_000, 25_000)), FitStep::Shrink(12_500));
    let too_high = TextSize { width: 50_000, height: 25_001 };
    assert_eq!(fit_step(15_000, 1_000, too_high, &limit(50_000, 25_000)), FitStep::Shrink(12_500));
}

#[test]
fn step_gives_up_below_the_smallest_size() {
    let big = TextSize { width: 90_000, height: 90_000 };
    // the next size is exactly the smallest one: still tried
    assert_eq!(fit_step(3_500, 1_000, big, &limit(50_000, 25_000)), FitStep::Shrink(1_000));
    assert_eq!(fit_step(3_499, 1_000, big, &limit(50_000, 25_000)), FitStep::GiveUp);
    assert_eq!(fit_step(1_000, 1_000, big, &limit(50_000, 25_000)), FitStep::GiveUp);
    assert_eq!(fit_step(i32::MIN, i32::MIN, big, &limit(50_000, 25_000)), FitStep::GiveUp);
    assert_eq!(fit_step(i32::MIN + 2_500, i32::MIN, big, &limit(0, 0)), FitStep::Shrink(i32::MIN));
}

#[test]
fn a_box_large_enough_keeps_the_starting_size() {
    let tried = RefCell::new(Vec::new());
    let found = best_fit_font(
        |size| {
            tried.borrow_mut().push(size);
            wide_text(size)
        },
        &limit(60_000, 15_000),
        15_000,
        1_000,
    );
    assert_eq!(found, Some(15_000));
    assert_eq!(*tried.borrow(), vec![15_000]);
}

#[test]
fn a_box_too_small_for_every_size_gives_no_fit() {
    let tried = RefCell::new(Vec::new());
    let found = best_fit_font(
        |size| {
            tried.borrow_mut().push(size);
            wide_text(size)
        },
        &limit(3_999, 25_000),
        15_000,
        1_000,
    );
    assert_eq!(found, None);
    assert_eq!(*tried.borrow(), vec![15_000, 12_500, 10_000, 7_500, 5_000, 2_500]);
}

#[test]
fn the_size_shrinks_until_the_text_fits() {
    let found = best_fit_font(wide_text, &limit(50_000, 25_000), 15_000, 1_000);
    assert_eq!(found, Some(12_500));
    let found = best_fit_font(wide_text, &limit(10_000, 25_000), 15_000, 1_000);
    assert_eq!(found, Some(2_500));
    let found = best_fit_font(wide_text, &limit(100_000, 6_000), 15_000, 1_000);
    assert_eq!(found, Some(5_000));
}

#[test]
fn the_smallest_size_is_tried_when_the_steps_reach_it() {
    let found = best_fit_font(wide_text, &limit(4_000, 25_000), 6_000, 1_000);
    assert_eq!(found, Some(1_000));
    let found = best_fit_font(wide_text, &limit(3_999, 25_000), 6_000, 1_000);
    assert_eq!(found, None);
}

#[test]
fn a_start_below_the_smallest_size_is_tried_once() {
    let found = best_fit_font(wide_text, &limit(50_000, 25_000), 500, 1_000);
    assert_eq!(found, Some(500));
    let tried = RefCell::new(Vec::new());
    let found = best_fit_font(
        |size| {
            tried.borrow_mut().push(size);
            wide_text(size)
        },
        &limit(1_000, 25_000),
        500,
        1_000,
    );
    assert_eq!(found, None);
    assert_eq!(*tried.borrow(), vec![500]);
}

#[test]
fn a_box_of_negative_size_holds_nothing() {
    let found = best_fit_font(|_| TextSize { width: 0, height: 0 }, &limit(-1, 25_000), 15_000, 1_000);
    assert_eq!(found, None);
    let found = best_fit_font(|_| TextSize { width: 0, height: 0 }, &limit(0, 0), 15_000, 1_000);
    assert_eq!(found, Some(15_000));
}

#[test]
fn the_search_ends_at_the_edge_of_the_number_range() {
    let count = RefCell::new(0u32);
    let found = best_fit_font(
        |_| {
            *count.borrow_mut() += 1;
            TextSize { width: 10, height: 10 }
        },
        &limit(-1, -1),
        i32::MIN + 6_000,
        i32::MIN,
    );
    assert_eq!(found, None);
    assert_eq!(*count.borrow(), 3);
}
