//! Traces: one data series each, with its styling.
//!
//! Samples and line widths are IEEE 754 binary64 values, held as their bit
//! patterns (see [`crate::binary64`]); a trace carries them and never
//! computes with them.
use crate::colors::{Color, ColorView};
use crate::format::text_view;
use crate::line_style::LineStyle;
use vstd::prelude::*;

verus! {

/// What a [`Trace`] holds: sequences for its data, and the view of its colour.
pub struct TraceView {
    pub x: Seq<u64>,
    pub y: Seq<u64>,
    pub z: Option<Seq<u64>>,
    pub name: Option<Seq<char>>,
    pub line_color: Option<ColorView>,
    pub line_width: Option<u64>,
    pub line_style: Option<LineStyle>,
}

impl TraceView {
    /// The trace with the given data and no styling.
    pub open spec fn plain(x: Seq<u64>, y: Seq<u64>, z: Option<Seq<u64>>) -> TraceView {
        TraceView { x, y, z, name: None, line_color: None, line_width: None, line_style: None }
    }
}

/// A single data series to place on a plot.
pub struct Trace {
    /// x-axis data.
    pub x: Vec<u64>,
    /// y-axis data.
    pub y: Vec<u64>,
    /// z-axis data; `None` in a 2D trace.
    pub z: Option<Vec<u64>>,
    /// Trace name (appears in the legend).
    pub name: Option<String>,
    /// Line color.
    pub line_color: Option<Color>,
    /// Line width.
    pub line_width: Option<u64>,
    /// Line style.
    pub line_style: Option<LineStyle>,
}

impl View for Trace {
    type V = TraceView;

    open spec fn view(&self) -> TraceView {
        TraceView {
            x: self.x@,
            y: self.y@,
            z: match self.z {
                Some(z) => Some(z@),
                None => None,
            },
            name: text_view(self.name),
            line_color: match self.line_color {
                Some(color) => Some(color@),
                None => None,
            },
            line_width: self.line_width,
            line_style: self.line_style,
        }
    }
}

impl Trace {
    /// Makes a 2D trace without styling from the bit patterns of its samples.
    pub fn new_2d(x: Vec<u64>, y: Vec<u64>) -> (trace: Trace)
        ensures
            trace@ == TraceView::plain(x@, y@, None),
    {
        Trace {
            x,
            y,
            z: None,
            name: None,
            line_color: None,
            line_width: None,
            line_style: None,
        }
    }

    /// Makes a 3D trace without styling from the bit patterns of its samples.
    pub fn new_3d(x: Vec<u64>, y: Vec<u64>, z: Vec<u64>) -> (trace: Trace)
        ensures
            trace@ == TraceView::plain(x@, y@, Some(z@)),
    {
        Trace {
            x,
            y,
            z: Some(z),
            name: None,
            line_color: None,
            line_width: None,
            line_style: None,
        }
    }

    /// Sets the name of this trace, as it appears in the legend.
    pub fn name(self, name: &str) -> (trace: Trace)
        ensures
            trace@ == (TraceView { name: Some(name@), ..self@ }),
    {
        let mut trace = self;
        trace.name = Some(name.to_owned());
        trace
    }

    /// Sets the line color of this trace.
    pub fn line_color(self, line_color: Color) -> (trace: Trace)
        ensures
            trace@ == (TraceView { line_color: Some(line_color@), ..self@ }),
    {
        let mut trace = self;
        trace.line_color = Some(line_color);
        trace
    }

    /// Sets the line width of this trace, given as its bit pattern.
    pub fn line_width(self, line_width: u64) -> (trace: Trace)
        ensures
            trace@ == (TraceView { line_width: Some(line_width), ..self@ }),
    {
        let mut trace = self;
        trace.line_width = Some(line_width);
        trace
    }

    /// Sets the line style of this trace.
    pub fn line_style(self, line_style: LineStyle) -> (trace: Trace)
        ensures
            trace@ == (TraceView { line_style: Some(line_style), ..self@ }),
    {
        let mut trace = self;
        trace.line_style = Some(line_style);
        trace
    }
}

/// The views of a sequence of traces, in order.
pub open spec fn trace_views(traces: Seq<Trace>) -> Seq<TraceView> {
    traces.map_values(|trace: Trace| trace@)
}

} // verus!
