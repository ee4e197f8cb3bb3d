//! Value types for describing plots: colours, line styles, traces, figure
//! formats and figures.
pub mod binary64;
pub mod colors;
pub mod figure;
pub mod format;
pub mod hex;
pub mod line_style;
pub mod named_color;
pub mod plot;
pub mod quick;
pub mod trace;

pub use crate::colors::{Color, ColorView};
pub use crate::figure::Figure;
pub use crate::format::Format;
pub use crate::line_style::LineStyle;
pub use crate::named_color::NamedColor;
pub use crate::plot::Plot;
pub use crate::quick::{
    quick_plot_2d, quick_plot_2d_with_labels, quick_plot_3d, quick_plot_3d_with_labels,
};
pub use crate::trace::Trace;
