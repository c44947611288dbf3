//! The rows of one frame and the picture that they make under the plot.
use vstd::prelude::*;
use crate::fit::best_fit_font;
use crate::fit::best_fit_spec;
use crate::fit::tries;
use crate::fit::TextSize;
use crate::layout::plot_height;
use crate::layout::plot_height_spec;
use crate::line::edge_views;
use crate::line::edges_of;
use crate::line::EdgeView;
use crate::line::EnumPlotLine;
use crate::line::EnumPlotLineTrait;
use crate::plottable::EnumPlottable;
use crate::shape::Area;
use crate::shape::AreaView;
use crate::shape::Frame;
use crate::shape::LabelBox;
use crate::style::EnumPlotUiStyle;
use crate::transition::margin_column;
use crate::transition::margin_column_spec;
use crate::transition::row_label;
use crate::transition::row_label_spec;
use crate::transition::segment_shape;
use crate::transition::segment_shape_spec;
use crate::transition::RowLabel;
use crate::transition::RowLabelView;
use crate::transition::SegmentShape;
use crate::transition::SegmentShapeView;

verus! {

/// The smallest text size at which a label is still drawn: 1 point.
pub const MIN_TEXT_SIZE: i32 = 1_000;

/// A row as contracts see it: its name and its edges.
pub struct RowView {
    pub name: Seq<char>,
    pub edges: Seq<EdgeView>,
}

struct Row {
    name: String,
    edges: Vec<(i64, String)>,
}

/// The rows of one frame, in the order in which they were added: the first
/// row is drawn on top.
pub struct EnumPlotUi {
    rows: Vec<Row>,
}

impl View for EnumPlotUi {
    type V = Seq<RowView>;

    closed spec fn view(&self) -> Seq<RowView> {
        Seq::new(
            self.rows@.len(),
            |i: int| RowView { name: self.rows@[i].name@, edges: edge_views(self.rows@[i].edges@) },
        )
    }
}

impl EnumPlotUi {
    /// Adds a row that shows the samples of a signal.
    pub fn add_line<T>(&mut self, name: String, plot_line: EnumPlotLine<T>) where
        T: EnumPlottable + 'static,

        ensures
            final(self)@ == old(self)@.push(
                RowView { name: name@, edges: edges_of(plot_line.samples()) },
            ),
    {
        self.add_custom_plot(name, plot_line);
    }

    /// Adds a row whose edges come from `plottable`.
    pub fn add_custom_plot(&mut self, name: String, plottable: impl EnumPlotLineTrait + 'static)
        ensures
            final(self)@ == old(self)@.push(RowView { name: name@, edges: plottable.edges() }),
    {
        let ghost before = self@;
        let ghost added = RowView { name: name@, edges: plottable.edges() };
        let edges = plottable.get_edges_and_labels();
        self.rows.push(Row { name, edges });
        assert(self@ =~= before.push(added));
    }
}

/// The shapes of a run of segments as contracts see them.
pub open spec fn shape_views(shapes: Seq<SegmentShape>) -> Seq<SegmentShapeView> {
    Seq::new(shapes.len(), |j: int| shapes[j]@)
}

/// The picture of the rows, in the order in which it is drawn: the
/// segments row by row, then the column of names painted over what reached
/// into it, then the names.
pub struct Overlay {
    /// For each row its segments, from left to right.
    pub rows: Vec<Vec<SegmentShape>>,
    /// The column of names, to be filled with the background.
    pub margin_column: Area,
    /// For each row its name.
    pub row_labels: Vec<RowLabel>,
}

pub struct OverlayView {
    pub rows: Seq<Seq<SegmentShapeView>>,
    pub margin_column: AreaView,
    pub row_labels: Seq<RowLabelView>,
}

impl View for Overlay {
    type V = OverlayView;

    open spec fn view(&self) -> OverlayView {
        OverlayView {
            rows: Seq::new(self.rows@.len(), |i: int| shape_views(self.rows@[i]@)),
            margin_column: self.margin_column@,
            row_labels: Seq::new(self.row_labels@.len(), |i: int| self.row_labels@[i]@),
        }
    }
}

/// The segments of row `row`, whose edges the plot shows at the x that
/// `on_screen` holds: one segment between each edge and the next, labelled
/// by the edge that opens it. Only the first is open to the left.
pub open spec fn row_shapes_spec(
    style: &EnumPlotUiStyle,
    frame: &Frame,
    row: nat,
    on_screen: Seq<EdgeView>,
) -> Seq<SegmentShapeView> {
    Seq::new(
        if on_screen.len() >= 1 { (on_screen.len() - 1) as nat } else { 0 },
        |j: int|
            segment_shape_spec(
                style,
                frame,
                row,
                j == 0,
                on_screen[j].0 as int,
                on_screen[j + 1].0 as int,
                on_screen[j].1,
            ),
    )
}

/// The picture of the rows named `names`, where `on_screen` holds for each
/// row its edges as the plot shows them.
pub open spec fn overlay_spec(
    style: &EnumPlotUiStyle,
    frame: &Frame,
    names: Seq<Seq<char>>,
    on_screen: Seq<Seq<EdgeView>>,
) -> OverlayView {
    OverlayView {
        rows: Seq::new(
            on_screen.len(),
            |i: int| row_shapes_spec(style, frame, i as nat, on_screen[i]),
        ),
        margin_column: margin_column_spec(style, frame),
        row_labels: Seq::new(names.len(), |i: int| row_label_spec(style, frame, i as nat, names[i])),
    }
}

/// The names of the rows.
pub open spec fn names_of(rows: Seq<RowView>) -> Seq<Seq<char>> {
    Seq::new(rows.len(), |i: int| rows[i].name)
}

/// Whether `on_screen` holds the edges `edges` with each x replaced by an x
/// that `to_screen` gives for it.
pub open spec fn edges_shown_by<F: Fn(i64) -> i64>(
    to_screen: F,
    edges: Seq<EdgeView>,
    on_screen: Seq<EdgeView>,
) -> bool {
    &&& on_screen.len() == edges.len()
    &&& forall|j: int|
        0 <= j < edges.len() ==> (#[trigger] on_screen[j]).1 == edges[j].1 && to_screen.ensures(
            (edges[j].0,),
            on_screen[j].0,
        )
}

/// Whether `on_screen` holds, row by row, the edges of `rows` as
/// `to_screen` shows them.
pub open spec fn rows_shown_by<F: Fn(i64) -> i64>(
    to_screen: F,
    rows: Seq<RowView>,
    on_screen: Seq<Seq<EdgeView>>,
) -> bool {
    &&& on_screen.len() == rows.len()
    &&& forall|i: int|
        0 <= i < rows.len() ==> edges_shown_by(to_screen, rows[i].edges, #[trigger] on_screen[i])
}

/// The segments of one row from its edges in screen space.
pub fn row_shapes(
    style: &EnumPlotUiStyle,
    frame: &Frame,
    row: usize,
    on_screen: &Vec<(i64, String)>,
) -> (shapes: Vec<SegmentShape>)
    ensures
        shape_views(shapes@) == row_shapes_spec(style, frame, row as nat, edge_views(on_screen@)),
{
    let mut shapes: Vec<SegmentShape> = Vec::new();
    let n: usize = on_screen.len();
    let mut j: usize = 0;
    while j + 1 < n
        invariant
            n == on_screen@.len(),
            j == shapes@.len(),
            j + 1 <= n || j == 0,
            forall|k: int|
                0 <= k < j ==> (#[trigger] shapes@[k])@ == segment_shape_spec(
                    style,
                    frame,
                    row as nat,
                    k == 0,
                    on_screen@[k].0 as int,
                    on_screen@[k + 1].0 as int,
                    on_screen@[k].1@,
                ),
        decreases n - j,
    {
        let shape = segment_shape(
            style,
            frame,
            row,
            j == 0,
            on_screen[j].0,
            on_screen[j + 1].0,
            on_screen[j].1.clone(),
        );
        shapes.push(shape);
        j = j + 1;
    }
    assert(shape_views(shapes@) =~= row_shapes_spec(
        style,
        frame,
        row as nat,
        edge_views(on_screen@),
    ));
    shapes
}

/// The edges with each x as `to_screen` shows it.
pub fn edges_on_screen<F: Fn(i64) -> i64>(edges: &Vec<(i64, String)>, to_screen: &F) -> (on_screen:
    Vec<(i64, String)>)
    requires
        forall|x: i64| to_screen.requires((x,)),
    ensures
        edges_shown_by(*to_screen, edge_views(edges@), edge_views(on_screen@)),
{
    let mut on_screen: Vec<(i64, String)> = Vec::new();
    let n: usize = edges.len();
    let mut j: usize = 0;
    while j < n
        invariant
            n == edges@.len(),
            j <= n,
            j == on_screen@.len(),
            forall|x: i64| to_screen.requires((x,)),
            forall|k: int|
                0 <= k < j ==> (#[trigger] on_screen@[k]).1@ == edges@[k].1@ && to_screen.ensures(
                    (edges@[k].0,),
                    on_screen@[k].0,
                ),
        decreases n - j,
    {
        let x: i64 = to_screen(edges[j].0);
        on_screen.push((x, edges[j].1.clone()));
        j = j + 1;
    }
    assert forall|k: int| 0 <= k < edge_views(edges@).len() implies (#[trigger] edge_views(
        on_screen@,
    )[k]).1 == edge_views(edges@)[k].1 && to_screen.ensures(
        (edge_views(edges@)[k].0,),
        edge_views(on_screen@)[k].0,
    ) by {
        assert(on_screen@[k].1@ == edges@[k].1@);
    }
    on_screen
}

/// The plot with its rows.
pub struct EnumPlot {
    /// The look of the rows. It may be changed at any time before `show`.
    pub style: EnumPlotUiStyle,
    /// The rows, once `setup_enum_plot` has set them up.
    pub enum_plot_ui: Option<EnumPlotUi>,
}

impl EnumPlot {
    /// The rows, once they are set up.
    pub open spec fn rows(&self) -> Option<Seq<RowView>> {
        match self.enum_plot_ui {
            Some(ui) => Some(ui@),
            None => None,
        }
    }

    /// A plot without rows, in the default style of the host's theme.
    pub fn new(ui: &mut egui::Ui) -> (plot: Self)
        ensures
            plot.style.has_default_sizes(),
            plot.enum_plot_ui is None,
    {
        EnumPlot { style: EnumPlotUiStyle::new(ui), enum_plot_ui: None }
    }

    /// Sets up the rows: `enum_build_fn` gets an empty set of rows and adds
    /// to it. The rows that were set up before are dropped.
    pub fn setup_enum_plot<B: FnOnce(&mut EnumPlotUi)>(&mut self, enum_build_fn: B)
        requires
            forall|ui: &mut EnumPlotUi| ui@.len() == 0 ==> #[trigger] enum_build_fn.requires((ui,)),
        ensures
            final(self).style == old(self).style,
            exists|ui: &mut EnumPlotUi|
                {
                    &&& ui@.len() == 0
                    &&& #[trigger] enum_build_fn.ensures((ui,), ())
                    &&& final(self).enum_plot_ui == Some(*final(ui))
                },
    {
        let mut enum_plot_ui = EnumPlotUi { rows: Vec::new() };
        assert(enum_plot_ui@.len() == 0);
        enum_build_fn(&mut enum_plot_ui);
        self.enum_plot_ui = Some(enum_plot_ui);
    }

    /// The height to give the plot so that the rows have room in
    /// `available_height`. Without a set of rows the plot keeps whatever
    /// height it has.
    pub fn plot_height(&self, available_height: i32) -> (height: Option<i128>)
        ensures
            height is Some <==> self.rows() is Some,
            self.rows() is Some ==> height->0 == plot_height_spec(
                &self.style,
                self.rows()->0.len(),
                available_height as int,
            ),
    {
        match &self.enum_plot_ui {
            Some(ui) => Some(plot_height(&self.style, ui.rows.len(), available_height)),
            None => None,
        }
    }

    /// The picture of the rows on a surface described by `frame`, where
    /// `to_screen` gives the x on screen of an x of the plot. Without a set
    /// of rows there is no picture.
    ///
    /// `on_screen` stands for what `to_screen` returned: one x for each
    /// edge of each row.
    pub fn show<F: Fn(i64) -> i64>(&self, frame: &Frame, to_screen: F) -> (overlay: Option<Overlay>)
        requires
            forall|x: i64| to_screen.requires((x,)),
        ensures
            overlay is Some <==> self.rows() is Some,
            self.rows() is Some ==> exists|on_screen: Seq<Seq<EdgeView>>|
                {
                    &&& rows_shown_by(to_screen, self.rows()->0, on_screen)
                    &&& overlay->0@ == #[trigger] overlay_spec(
                        &self.style,
                        frame,
                        names_of(self.rows()->0),
                        on_screen,
                    )
                },
    {
        match &self.enum_plot_ui {
            None => None,
            Some(ui) => {
                let mut shapes: Vec<Vec<SegmentShape>> = Vec::new();
                let mut labels: Vec<RowLabel> = Vec::new();
                let ghost mut on_screen: Seq<Seq<EdgeView>> = Seq::empty();
                let n: usize = ui.rows.len();
                let mut i: usize = 0;
                while i < n
                    invariant
                        n == ui.rows@.len(),
                        i <= n,
                        shapes@.len() == i,
                        labels@.len() == i,
                        on_screen.len() == i,
                        forall|x: i64| to_screen.requires((x,)),
                        forall|r: int|
                            0 <= r < i ==> edges_shown_by(
                                to_screen,
                                ui@[r].edges,
                                #[trigger] on_screen[r],
                            ),
                        forall|r: int|
                            0 <= r < i ==> shape_views((#[trigger] shapes@[r])@) == row_shapes_spec(
                                &self.style,
                                frame,
                                r as nat,
                                on_screen[r],
                            ),
                        forall|r: int|
                            0 <= r < i ==> (#[trigger] labels@[r])@ == row_label_spec(
                                &self.style,
                                frame,
                                r as nat,
                                ui@[r].name,
                            ),
                    decreases n - i,
                {
                    let shown = edges_on_screen(&ui.rows[i].edges, &to_screen);
                    let row = row_shapes(&self.style, frame, i, &shown);
                    proof {
                        on_screen = on_screen.push(edge_views(shown@));
                    }
                    shapes.push(row);
                    labels.push(row_label(&self.style, frame, i, ui.rows[i].name.clone()));
                    i = i + 1;
                }
                let overlay = Some(
                    Overlay {
                        rows: shapes,
                        margin_column: margin_column(&self.style, frame),
                        row_labels: labels,
                    },
                );
                proof {
                    let rows = self.rows()->0;
                    let drawn = overlay_spec(&self.style, frame, names_of(rows), on_screen);
                    assert(rows == ui@);
                    assert(rows_shown_by(to_screen, rows, on_screen));
                    assert(overlay->0@.rows =~= drawn.rows);
                    assert(overlay->0@.row_labels =~= drawn.row_labels);
                    assert(overlay->0@ == drawn);
                }
                overlay
            },
        }
    }

    /// Finds the text size for a label in `label_box`, from the style's text
    /// height down to the smallest size at which a label is drawn.
    /// `measure` lays the label out at a size and reports how large it came
    /// out; `seen` stands for those reports.
    pub fn fit_label<M: Fn(i32) -> TextSize>(&self, measure: M, label_box: &LabelBox) -> (found:
        Option<i32>)
        requires
            forall|size: i32| measure.requires((size,)),
        ensures
            exists|seen: spec_fn(i32) -> TextSize|
                {
                    &&& found == #[trigger] best_fit_spec(
                        seen,
                        label_box@,
                        self.style.text_height,
                        MIN_TEXT_SIZE,
                    )
                    &&& forall|size: i32| #[trigger]
                        tries(seen, label_box@, self.style.text_height, MIN_TEXT_SIZE, size)
                            ==> measure.ensures((size,), seen(size))
                },
    {
        best_fit_font(measure, label_box, self.style.text_height, MIN_TEXT_SIZE)
    }
}

} // verus!
