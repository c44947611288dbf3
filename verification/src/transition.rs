//! The shape of one segment of a row: clipped to what is visible, with
//! chamfered joins to its neighbours and a box for its label.
use vstd::prelude::*;
use crate::fixed::clamp;
use crate::fixed::clamp_spec;
use crate::fixed::floor_div;
use crate::fixed::half;
use crate::fixed::mul_wide;
use crate::layout::row_top_y;
use crate::layout::row_top_y_spec;
use crate::shape::line_segment;
use crate::shape::stroke;
use crate::shape::Area;
use crate::shape::AreaView;
use crate::shape::Chamfer;
use crate::shape::ChamferView;
use crate::shape::Frame;
use crate::shape::LabelBox;
use crate::shape::LabelBoxView;
use crate::shape::LineSegment;
use crate::shape::LineSegmentView;
use crate::shape::Point;
use crate::shape::PointView;
use crate::style::EnumPlotUiStyle;

verus! {

/// What the name of a row keeps free at the sides of its column: 5 points.
pub const NAME_PADDING: i32 = 5_000;

/// The `transition_len` that stands for the whole visible width: a hundred
/// percent, in thousandths of a percent.
pub const WHOLE_WIDTH: i32 = 100_000;

/// Where a segment starts on screen: its edge's x, kept right of the column
/// of names and inside the visible range.
pub open spec fn clipped_start_spec(style: &EnumPlotUiStyle, frame: &Frame, x: int) -> int {
    clamp_spec(x, frame.clip_left + style.side_margin, frame.clip_right as int)
}

/// Where a segment ends on screen: its closing edge's x, kept inside the
/// visible range.
pub open spec fn clipped_end_spec(frame: &Frame, x: int) -> int {
    clamp_spec(x, frame.clip_left as int, frame.clip_right as int)
}

/// How far a chamfered join reaches into a segment that is drawn from
/// `start` to `end`: half of the smaller of the styled length of a join,
/// which is `transition_len` percent of the visible width, halved, and half
/// of the segment's width.
pub open spec fn cross_x_offset_spec(
    style: &EnumPlotUiStyle,
    frame: &Frame,
    start: int,
    end: int,
) -> int {
    let visible = frame.clip_right - frame.clip_left;
    let styled = (style.transition_len * visible / (WHOLE_WIDTH as int)) / 2;
    let narrow = (end - start) / 2;
    (if styled <= narrow { styled } else { narrow }) / 2
}

pub fn clipped_start(style: &EnumPlotUiStyle, frame: &Frame, x: i64) -> (start: i64)
    ensures
        start == clipped_start_spec(style, frame, x as int),
{
    clamp(x, (frame.clip_left as i64) + (style.side_margin as i64), frame.clip_right as i64)
}

pub fn clipped_end(frame: &Frame, x: i64) -> (end: i64)
    ensures
        end == clipped_end_spec(frame, x as int),
{
    clamp(x, frame.clip_left as i64, frame.clip_right as i64)
}

pub fn cross_x_offset(style: &EnumPlotUiStyle, frame: &Frame, start: i64, end: i64) -> (offset:
    i128)
    ensures
        offset == cross_x_offset_spec(style, frame, start as int, end as int),
{
    let visible: i64 = (frame.clip_right as i64) - (frame.clip_left as i64);
    let styled: i128 = half(
        floor_div(mul_wide(style.transition_len as i64, visible), WHOLE_WIDTH as i128),
    );
    let narrow: i128 = half((end as i128) - (start as i128));
    if styled <= narrow {
        half(styled)
    } else {
        half(narrow)
    }
}

/// The shape of one segment as contracts see it.
pub struct SegmentShapeView {
    pub left_chamfer: Option<ChamferView>,
    pub top_rail: LineSegmentView,
    pub bottom_rail: LineSegmentView,
    pub right_chamfer: ChamferView,
    pub label_box: LabelBoxView,
    pub label: Seq<char>,
    pub hover: bool,
}

/// The shape of one segment, in the order in which it is drawn: the join to
/// the segment before it, the two rails, the join to what follows, and the
/// label.
#[derive(Clone, Debug, PartialEq, Eq)]
pub struct SegmentShape {
    /// The join at the start. The first segment of a row has none: it is
    /// open to the left.
    pub left_chamfer: Option<Chamfer>,
    pub top_rail: LineSegment,
    pub bottom_rail: LineSegment,
    /// The join at the end.
    pub right_chamfer: Chamfer,
    /// Where the label goes, if a text size is found that fits.
    pub label_box: LabelBox,
    pub label: String,
    /// Whether the label is also shown when the pointer rests on the box.
    pub hover: bool,
}

impl View for SegmentShape {
    type V = SegmentShapeView;

    open spec fn view(&self) -> SegmentShapeView {
        SegmentShapeView {
            left_chamfer: match self.left_chamfer {
                Some(c) => Some(c@),
                None => None,
            },
            top_rail: self.top_rail@,
            bottom_rail: self.bottom_rail@,
            right_chamfer: self.right_chamfer@,
            label_box: self.label_box@,
            label: self.label@,
            hover: self.hover,
        }
    }
}

/// The segment of row `row` between an edge that the plot shows at `x_start`
/// and the next edge, shown at `x_end`.
///
/// With `start` and `end` the clipped ends, `c` the reach of a join, `top`
/// the top of the row and `h` the height of its band: the rails run from
/// `start + c` to `end - c` at `top` and at `top + h`; each join meets its
/// tip at mid-height, at `start` and at `end`; the label box is centred
/// between `start` and `end`, `h` high and `end - start - c` wide.
pub open spec fn segment_shape_spec(
    style: &EnumPlotUiStyle,
    frame: &Frame,
    row: nat,
    first: bool,
    x_start: int,
    x_end: int,
    label: Seq<char>,
) -> SegmentShapeView {
    let start = clipped_start_spec(style, frame, x_start);
    let end = clipped_end_spec(frame, x_end);
    let c = cross_x_offset_spec(style, frame, start, end);
    let top = row_top_y_spec(style, frame.surface_top as int, row);
    let bottom = top + style.line_height;
    let middle = top + style.line_height / 2;
    SegmentShapeView {
        left_chamfer: if first {
            None
        } else {
            Some(
                ChamferView {
                    upper: stroke(start + c, top, start, middle),
                    lower: stroke(start + c, bottom, start, middle),
                },
            )
        },
        top_rail: stroke(start + c, top, end - c, top),
        bottom_rail: stroke(start + c, bottom, end - c, bottom),
        right_chamfer: ChamferView {
            upper: stroke(end - c, top, end, middle),
            lower: stroke(end - c, bottom, end, middle),
        },
        label_box: LabelBoxView {
            center: PointView { x: (start + end) / 2, y: middle },
            width: end - start - c,
            height: style.line_height as int,
        },
        label,
        hover: style.hover_text,
    }
}

pub fn segment_shape(
    style: &EnumPlotUiStyle,
    frame: &Frame,
    row: usize,
    first: bool,
    x_start: i64,
    x_end: i64,
    label: String,
) -> (shape: SegmentShape)
    ensures
        shape@ == segment_shape_spec(
            style,
            frame,
            row as nat,
            first,
            x_start as int,
            x_end as int,
            label@,
        ),
{
    let clipped_from: i64 = clipped_start(style, frame, x_start);
    let clipped_to: i64 = clipped_end(frame, x_end);
    let c: i128 = cross_x_offset(style, frame, clipped_from, clipped_to);
    proof {
        lemma_cross_x_offset_fits(style, frame, clipped_from as int, clipped_to as int);
    }
    let start: i128 = clipped_from as i128;
    let end: i128 = clipped_to as i128;
    let top: i128 = row_top_y(style, frame.surface_top, row);
    let bottom: i128 = top + (style.line_height as i128);
    let middle: i128 = top + half(style.line_height as i128);
    let left_chamfer = if first {
        None
    } else {
        Some(
            Chamfer {
                upper: line_segment(start + c, top, start, middle),
                lower: line_segment(start + c, bottom, start, middle),
            },
        )
    };
    SegmentShape {
        left_chamfer,
        top_rail: line_segment(start + c, top, end - c, top),
        bottom_rail: line_segment(start + c, bottom, end - c, bottom),
        right_chamfer: Chamfer {
            upper: line_segment(end - c, top, end, middle),
            lower: line_segment(end - c, bottom, end, middle),
        },
        label_box: LabelBox {
            center: Point { x: half(start + end), y: middle },
            width: end - start - c,
            height: style.line_height as i128,
        },
        label,
        hover: style.hover_text,
    }
}

/// A join never reaches further than a quarter of its segment's width, so
/// the joins at the two ends stay clear of the middle.
pub proof fn lemma_chamfer_bound(style: &EnumPlotUiStyle, frame: &Frame, start: int, end: int)
    ensures
        4 * cross_x_offset_spec(style, frame, start, end) <= end - start,
{
}

/// Where two segments share an edge that lies right of the column of names,
/// the join that closes the first and the join that opens the second meet in
/// one tip.
pub proof fn lemma_joins_meet(
    style: &EnumPlotUiStyle,
    frame: &Frame,
    row: nat,
    x_before: int,
    x_shared: int,
    x_after: int,
    label_before: Seq<char>,
    label_after: Seq<char>,
)
    requires
        style.side_margin >= 0,
        x_shared >= frame.clip_left + style.side_margin,
    ensures
        ({
            let closing = segment_shape_spec(
                style,
                frame,
                row,
                true,
                x_before,
                x_shared,
                label_before,
            ).right_chamfer;
            let opening = segment_shape_spec(
                style,
                frame,
                row,
                false,
                x_shared,
                x_after,
                label_after,
            ).left_chamfer->0;
            &&& closing.upper.to == closing.lower.to
            &&& opening.upper.to == opening.lower.to
            &&& closing.upper.to == opening.upper.to
        }),
{
}

/// The reach of a join between two x of 64 bits fits 64 bits itself, for
/// every style and every visible range.
pub proof fn lemma_cross_x_offset_fits(
    style: &EnumPlotUiStyle,
    frame: &Frame,
    start: int,
    end: int,
)
    requires
        i64::MIN <= start <= i64::MAX,
        i64::MIN <= end <= i64::MAX,
    ensures
        -0x8000_0000_0000_0000 <= cross_x_offset_spec(style, frame, start, end)
            <= 0x8000_0000_0000_0000,
{
    let visible = frame.clip_right - frame.clip_left;
    let product = style.transition_len * visible;
    assert(-0x8000_0000_0000_0000 <= product <= 0x8000_0000_0000_0000) by (nonlinear_arith)
        requires
            product == style.transition_len * visible,
            -0x8000_0000 <= style.transition_len <= 0x7fff_ffff,
            -0xffff_ffff <= visible <= 0xffff_ffff,
    ;
}

/// The name of a row and the box that it is fitted into.
pub struct RowLabelView {
    pub name: Seq<char>,
    pub label_box: LabelBoxView,
}

#[derive(Clone, Debug, PartialEq, Eq)]
pub struct RowLabel {
    pub name: String,
    pub label_box: LabelBox,
}

impl View for RowLabel {
    type V = RowLabelView;

    open spec fn view(&self) -> RowLabelView {
        RowLabelView { name: self.name@, label_box: self.label_box@ }
    }
}

/// The box for the name of row `row`: centred in the column of names, as
/// high as the row's band, and 5 points narrower than the column.
pub open spec fn row_label_spec(
    style: &EnumPlotUiStyle,
    frame: &Frame,
    row: nat,
    name: Seq<char>,
) -> RowLabelView {
    let top = row_top_y_spec(style, frame.surface_top as int, row);
    RowLabelView {
        name,
        label_box: LabelBoxView {
            center: PointView {
                x: frame.clip_left + style.side_margin / 2,
                y: top + style.line_height / 2,
            },
            width: style.side_margin - NAME_PADDING,
            height: style.line_height as int,
        },
    }
}

pub fn row_label(style: &EnumPlotUiStyle, frame: &Frame, row: usize, name: String) -> (label:
    RowLabel)
    ensures
        label@ == row_label_spec(style, frame, row as nat, name@),
{
    let top: i128 = row_top_y(style, frame.surface_top, row);
    RowLabel {
        name,
        label_box: LabelBox {
            center: Point {
                x: (frame.clip_left as i128) + half(style.side_margin as i128),
                y: top + half(style.line_height as i128),
            },
            width: (style.side_margin as i128) - (NAME_PADDING as i128),
            height: style.line_height as i128,
        },
    }
}

/// The column of names: the visible rectangle, cut off `side_margin` right
/// of its left side.
pub open spec fn margin_column_spec(style: &EnumPlotUiStyle, frame: &Frame) -> AreaView {
    AreaView {
        left: frame.clip_left as int,
        top: frame.clip_top as int,
        right: frame.clip_left + style.side_margin,
        bottom: frame.clip_bottom as int,
    }
}

pub fn margin_column(style: &EnumPlotUiStyle, frame: &Frame) -> (column: Area)
    ensures
        column@ == margin_column_spec(style, frame),
{
    Area {
        left: frame.clip_left as i128,
        top: frame.clip_top as i128,
        right: (frame.clip_left as i128) + (style.side_margin as i128),
        bottom: frame.clip_bottom as i128,
    }
}

} // verus!
