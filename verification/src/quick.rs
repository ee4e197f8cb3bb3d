//! Figures of a single trace, made in one call.
use crate::figure::{Figure, FigureView};
use crate::format::{Format, FormatView};
use crate::trace::{Trace, TraceView};
use vstd::prelude::*;

verus! {

/// Makes the figure of one 2D trace without styling, in the format that
/// sets nothing. The samples are given as their bit patterns.
pub fn quick_plot_2d(x: Vec<u64>, y: Vec<u64>) -> (figure: Figure)
    ensures
        figure@ == (FigureView {
            traces: seq![TraceView::plain(x@, y@, None)],
            format: FormatView::empty(),
        }),
{
    let trace = Trace::new_2d(x, y);
    let format = Format::default();
    let traces = vec![trace];
    assert(figure_of_one(traces@, trace@));
    Figure::new(traces, format)
}

/// Makes the figure of one 2D trace without styling, with a title and
/// labels on both axes.
pub fn quick_plot_2d_with_labels(
    x: Vec<u64>,
    y: Vec<u64>,
    x_label: &str,
    y_label: &str,
    title: &str,
) -> (figure: Figure)
    ensures
        figure@ == (FigureView {
            traces: seq![TraceView::plain(x@, y@, None)],
            format: FormatView::labelled_2d(x_label@, y_label@, title@),
        }),
{
    let trace = Trace::new_2d(x, y);
    let format = Format::labelled_2d(x_label, y_label, title);
    let traces = vec![trace];
    assert(figure_of_one(traces@, trace@));
    Figure::new(traces, format)
}

/// Makes the figure of one 3D trace without styling, in the format that
/// sets nothing.
pub fn quick_plot_3d(x: Vec<u64>, y: Vec<u64>, z: Vec<u64>) -> (figure: Figure)
    ensures
        figure@ == (FigureView {
            traces: seq![TraceView::plain(x@, y@, Some(z@))],
            format: FormatView::empty(),
        }),
{
    let trace = Trace::new_3d(x, y, z);
    let format = Format::default();
    let traces = vec![trace];
    assert(figure_of_one(traces@, trace@));
    Figure::new(traces, format)
}

/// Makes the figure of one 3D trace without styling, with a title and
/// labels on all three axes.
pub fn quick_plot_3d_with_labels(
    x: Vec<u64>,
    y: Vec<u64>,
    z: Vec<u64>,
    x_label: &str,
    y_label: &str,
    z_label: &str,
    title: &str,
) -> (figure: Figure)
    ensures
        figure@ == (FigureView {
            traces: seq![TraceView::plain(x@, y@, Some(z@))],
            format: FormatView::labelled_3d(x_label@, y_label@, z_label@, title@),
        }),
{
    let trace = Trace::new_3d(x, y, z);
    let format = Format::labelled_3d(x_label, y_label, z_label, title);
    let traces = vec![trace];
    assert(figure_of_one(traces@, trace@));
    Figure::new(traces, format)
}

/// Whether `traces` is the one trace whose view is `view`.
spec fn figure_of_one(traces: Seq<Trace>, view: TraceView) -> bool {
    crate::trace::trace_views(traces) =~= seq![view]
}

} // verus!
