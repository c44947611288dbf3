//! The height that the rows take from the plot, and where each row starts.
use vstd::prelude::*;
use crate::fixed::mul_count;
use crate::style::EnumPlotUiStyle;

verus! {

/// The height of `line_count` rows: each row's band, the gaps between
/// neighbours, and the margin above and below.
pub open spec fn vertical_space_needed_spec(style: &EnumPlotUiStyle, line_count: nat) -> int {
    let gaps = if line_count > 0 { line_count - 1 } else { 0 };
    line_count * style.line_height + gaps * style.line_spacing + 2 * style.margin
}

/// The height that is left for the plot.
pub open spec fn plot_height_spec(
    style: &EnumPlotUiStyle,
    line_count: nat,
    available_height: int,
) -> int {
    available_height - vertical_space_needed_spec(style, line_count)
}

/// The top of row `row` on a surface that starts at `surface_top`.
pub open spec fn row_top_y_spec(style: &EnumPlotUiStyle, surface_top: int, row: nat) -> int {
    surface_top + style.margin + (style.line_height + style.line_spacing) * row
}

/// The range that every height and every y of a picture lies in, whatever
/// the style, the surface and the number of rows.
pub open spec fn is_height(v: int) -> bool {
    -0x2_0000_0000_0000_0000_0000_0000 <= v <= 0x2_0000_0000_0000_0000_0000_0000
}

pub fn vertical_space_needed(style: &EnumPlotUiStyle, line_count: usize) -> (height: i128)
    ensures
        height == vertical_space_needed_spec(style, line_count as nat),
{
    let gaps: usize = if line_count > 0 { line_count - 1 } else { 0 };
    let bands: i128 = mul_count(line_count, style.line_height as i64);
    let spacing: i128 = mul_count(gaps, style.line_spacing as i64);
    let margins: i128 = 2 * (style.margin as i128);
    assert(-0x8000_0000_0000_0000_0000_0000 <= bands <= 0x8000_0000_0000_0000_0000_0000)
        by (nonlinear_arith)
        requires
            bands == line_count * style.line_height,
            0 <= line_count <= 0xffff_ffff_ffff_ffff,
            -0x8000_0000 <= style.line_height <= 0x7fff_ffff,
    ;
    assert(-0x8000_0000_0000_0000_0000_0000 <= spacing <= 0x8000_0000_0000_0000_0000_0000)
        by (nonlinear_arith)
        requires
            spacing == gaps * style.line_spacing,
            0 <= gaps <= 0xffff_ffff_ffff_ffff,
            -0x8000_0000 <= style.line_spacing <= 0x7fff_ffff,
    ;
    bands + spacing + margins
}

/// The height to give the plot when `line_count` rows share
/// `available_height` with it. It is negative where the rows need more than
/// there is.
pub fn plot_height(style: &EnumPlotUiStyle, line_count: usize, available_height: i32) -> (height:
    i128)
    ensures
        height == plot_height_spec(style, line_count as nat, available_height as int),
        is_height(height as int),
{
    let needed: i128 = vertical_space_needed(style, line_count);
    let gaps: usize = if line_count > 0 { line_count - 1 } else { 0 };
    assert(-0x1_0000_0000_0000_0000_0000_0000 - 0x1_0000_0000 <= needed
        <= 0x1_0000_0000_0000_0000_0000_0000 + 0x1_0000_0000) by (nonlinear_arith)
        requires
            needed == line_count * style.line_height + gaps * style.line_spacing + 2
                * style.margin,
            0 <= line_count <= 0xffff_ffff_ffff_ffff,
            0 <= gaps <= 0xffff_ffff_ffff_ffff,
            -0x8000_0000 <= style.line_height <= 0x7fff_ffff,
            -0x8000_0000 <= style.line_spacing <= 0x7fff_ffff,
            -0x8000_0000 <= style.margin <= 0x7fff_ffff,
    ;
    (available_height as i128) - needed
}

pub fn row_top_y(style: &EnumPlotUiStyle, surface_top: i32, row: usize) -> (top: i128)
    ensures
        top == row_top_y_spec(style, surface_top as int, row as nat),
        is_height(top as int),
{
    let pitch: i64 = (style.line_height as i64) + (style.line_spacing as i64);
    let offset: i128 = mul_count(row, pitch);
    assert(-0x1_0000_0000_0000_0000_0000_0000 <= offset <= 0x1_0000_0000_0000_0000_0000_0000)
        by (nonlinear_arith)
        requires
            offset == row * pitch,
            0 <= row <= 0xffff_ffff_ffff_ffff,
            -0x1_0000_0000 <= pitch <= 0x1_0000_0000,
    ;
    assert(offset == (style.line_height + style.line_spacing) * row) by (nonlinear_arith)
        requires
            offset == row * pitch,
            pitch == style.line_height + style.line_spacing,
    ;
    (surface_top as i128) + (style.margin as i128) + offset
}

/// The rows and the plot share the available height without a rest.
pub proof fn lemma_plot_and_rows_fill_height(
    style: &EnumPlotUiStyle,
    line_count: nat,
    available_height: int,
)
    ensures
        plot_height_spec(style, line_count, available_height) + vertical_space_needed_spec(
            style,
            line_count,
        ) == available_height,
{
}

/// Without rows, and with no margin to keep, the plot gets the whole
/// height.
pub proof fn lemma_no_rows_nothing_reserved(style: &EnumPlotUiStyle, available_height: int)
    requires
        style.margin == 0,
    ensures
        plot_height_spec(style, 0, available_height) == available_height,
{
}

/// Without rows, only the two margins are taken from the plot.
pub proof fn lemma_no_rows_reserve_margins(style: &EnumPlotUiStyle, available_height: int)
    ensures
        plot_height_spec(style, 0, available_height) == available_height - 2 * style.margin,
{
}

/// Each row after the first takes one band and one gap more.
pub proof fn lemma_one_more_row(style: &EnumPlotUiStyle, line_count: nat)
    requires
        line_count >= 1,
    ensures
        vertical_space_needed_spec(style, line_count + 1) == vertical_space_needed_spec(
            style,
            line_count,
        ) + style.line_height + style.line_spacing,
{
    assert((line_count + 1) * style.line_height == line_count * style.line_height
        + style.line_height) by (nonlinear_arith);
    assert(line_count * style.line_spacing == (line_count - 1) * style.line_spacing
        + style.line_spacing) by (nonlinear_arith);
}

/// Each row starts one band and one gap below the row before it, and the
/// first row starts one margin below the top of the surface.
pub proof fn lemma_row_pitch(style: &EnumPlotUiStyle, surface_top: int, row: nat)
    ensures
        row_top_y_spec(style, surface_top, 0) == surface_top + style.margin,
        row_top_y_spec(style, surface_top, row + 1) == row_top_y_spec(style, surface_top, row)
            + style.line_height + style.line_spacing,
{
    assert((style.line_height + style.line_spacing) * (row + 1) == (style.line_height
        + style.line_spacing) * row + style.line_height + style.line_spacing)
        by (nonlinear_arith);
}

} // verus!
