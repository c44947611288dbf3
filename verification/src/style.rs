//! How the rows look: their sizes in thousandths of a point, and the pen and
//! the colour that the theme of the host gives.
use vstd::prelude::*;

verus! {

/// `egui::Ui`, the region of the host's interface that is being drawn.
#[verifier::external_type_specification]
#[verifier::external_body]
pub struct ExUi(egui::Ui);

/// `egui::Stroke`, the width and colour of a pen.
#[verifier::external_type_specification]
#[verifier::external_body]
pub struct ExStroke(egui::Stroke);

/// `egui::Color32`, a colour.
#[verifier::external_type_specification]
#[verifier::external_body]
pub struct ExColor32(egui::Color32);

/// The pen that the host's theme draws widgets with that take no input.
///
/// Calls `egui::Ui::ctx`, `egui::Context::global_style` and
/// `egui::Visuals::noninteractive`, and reads the field `fg_stroke` of the
/// result. Which pen that is depends on the host, so nothing is claimed of
/// it.
#[verifier::external_body]
fn theme_stroke(ui: &egui::Ui) -> (stroke: egui::Stroke) {
    ui.ctx().global_style().visuals.noninteractive().fg_stroke
}

/// The colour that the host's theme writes text with on widgets that take
/// no input.
///
/// Calls `egui::Ui::ctx`, `egui::Context::global_style`,
/// `egui::Style::noninteractive` and `egui::WidgetVisuals::text_color`.
/// Which colour that is depends on the host, so nothing is claimed of it.
#[verifier::external_body]
fn theme_text_color(ui: &egui::Ui) -> (color: egui::Color32) {
    ui.ctx().global_style().noninteractive().text_color()
}

/// The look of the rows. Lengths count thousandths of a point;
/// `transition_len` counts thousandths of a percent of the visible width.
pub struct EnumPlotUiStyle {
    /// The height of the band of one row.
    pub line_height: i32,
    /// The gap between two rows.
    pub line_spacing: i32,
    /// The gap above the first row and below the last one.
    pub margin: i32,
    /// The text size that label fitting starts from.
    pub text_height: i32,
    pub text_color: egui::Color32,
    /// The length of a chamfered join, as a share of the visible width.
    pub transition_len: i32,
    pub line_style: egui::Stroke,
    /// The width of the column that holds the rows' names.
    pub side_margin: i32,
    /// Whether a segment shows its label when the pointer rests on it.
    pub hover_text: bool,
}

impl EnumPlotUiStyle {
    /// The sizes that a fresh style has: rows 25 points high and 10 apart,
    /// 5 points of margin, joins of half a percent, text of 15 points, a
    /// name column of 75 points, no hover text.
    pub open spec fn has_default_sizes(&self) -> bool {
        &&& self.line_height == 25_000
        &&& self.line_spacing == 10_000
        &&& self.margin == 5_000
        &&& self.transition_len == 500
        &&& self.text_height == 15_000
        &&& self.side_margin == 75_000
        &&& !self.hover_text
    }

    /// The default sizes, with the pen and the text colour of the host's
    /// theme.
    pub fn new(ui: &mut egui::Ui) -> (style: Self)
        ensures
            style.has_default_sizes(),
    {
        EnumPlotUiStyle {
            line_height: 25_000,
            line_spacing: 10_000,
            margin: 5_000,
            transition_len: 500,
            line_style: theme_stroke(ui),
            text_height: 15_000,
            text_color: theme_text_color(ui),
            side_margin: 75_000,
            hover_text: false,
        }
    }
}

} // verus!
