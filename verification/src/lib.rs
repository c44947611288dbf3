//! Categorical timeline rows under a numeric plot.
//!
//! Each row shows a discrete signal as a chain of labelled segments on the
//! plot's x axis. This crate holds the arithmetic of that picture: deriving
//! the segment edges from the samples, reserving the rows' height, clipping
//! each segment to the visible range, shaping the chamfered joins and
//! choosing a text size that fits.
//!
//! Every length is a fixed-point number with three decimals (`1000` is one
//! point on screen, one percent, or one unit of the signal), and every
//! coordinate that leaves the crate is wide enough to hold the exact result.
pub mod decimal;
pub mod fit;
pub mod fixed;
pub mod layout;
pub mod line;
pub mod plot;
pub mod plottable;
pub mod shape;
pub mod style;
pub mod transition;

pub use line::EnumPlotLine;
pub use line::EnumPlotLineTrait;
pub use plot::EnumPlot;
pub use plot::EnumPlotUi;
pub use plottable::EnumPlottable;
pub use style::EnumPlotUiStyle;
