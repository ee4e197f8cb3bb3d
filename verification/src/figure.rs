//! Figures: traces and the format they are drawn with.
use crate::format::{Format, FormatView};
use crate::trace::{trace_views, Trace, TraceView};
use vstd::prelude::*;

verus! {

/// What a [`Figure`] holds: the views of its traces, in order, and of its
/// format.
pub struct FigureView {
    pub traces: Seq<TraceView>,
    pub format: FormatView,
}

/// Figure.
pub struct Figure {
    /// Traces to plot on the figure.
    pub traces: Vec<Trace>,
    /// Formatting.
    pub format: Format,
}

impl View for Figure {
    type V = FigureView;

    open spec fn view(&self) -> FigureView {
        FigureView { traces: trace_views(self.traces@), format: self.format@ }
    }
}

impl Figure {
    /// Makes a figure of the given traces, in their order, and format.
    pub fn new(traces: Vec<Trace>, format: Format) -> (figure: Figure)
        ensures
            figure@ == (FigureView { traces: trace_views(traces@), format: format@ }),
            figure.traces == traces,
            figure.format == format,
    {
        Figure { traces, format }
    }
}

} // verus!
