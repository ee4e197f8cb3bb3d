//! Three-dimensional plots: traces and the format they are drawn with.
use crate::format::{Format, FormatView};
use crate::trace::{trace_views, Trace, TraceView};
use vstd::prelude::*;

verus! {

/// What a [`Plot`] holds: the views of its traces, in order, and of its
/// format.
pub struct PlotView {
    pub traces: Seq<TraceView>,
    pub format: FormatView,
}

/// Three-dimensional plot.
pub struct Plot {
    /// Traces to plot.
    pub traces: Vec<Trace>,
    /// Formatting.
    pub format: Format,
}

impl View for Plot {
    type V = PlotView;

    open spec fn view(&self) -> PlotView {
        PlotView { traces: trace_views(self.traces@), format: self.format@ }
    }
}

impl Plot {
    /// Makes a plot of the given traces, in their order, and format.
    pub fn new(traces: Vec<Trace>, format: Format) -> (plot: Plot)
        ensures
            plot@ == (PlotView { traces: trace_views(traces@), format: format@ }),
            plot.traces == traces,
            plot.format == format,
    {
        Plot { traces, format }
    }
}

} // verus!
