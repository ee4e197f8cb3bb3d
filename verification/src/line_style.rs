//! Line styles.
use plotly::common::DashType;
use vstd::prelude::*;

verus! {

/// Makes plotly's `DashType` known to the verifier as plotly defines it: an
/// enum of six variants without fields, one for each [`LineStyle`].
#[verifier::external_type_specification]
pub struct ExDashType(DashType);

/// How a line is drawn.
#[derive(Debug, Clone, Copy, PartialEq, Eq, Structural)]
pub enum LineStyle {
    /// Solid line.
    Solid,
    /// Dotted line.
    Dot,
    /// Dashed line.
    Dash,
    /// Long dashed line.
    LongDash,
    /// Dashed line with dots.
    DashDot,
    /// Long dashed line with dots.
    LongDashDot,
}

/// Each line style is the dash type of the same name.
impl From<LineStyle> for DashType {
    fn from(style: LineStyle) -> (dash: DashType) {
        match style {
            LineStyle::Solid => DashType::Solid,
            LineStyle::Dot => DashType::Dot,
            LineStyle::Dash => DashType::Dash,
            LineStyle::LongDash => DashType::LongDash,
            LineStyle::DashDot => DashType::DashDot,
            LineStyle::LongDashDot => DashType::LongDashDot,
        }
    }
}

impl vstd::std_specs::convert::FromSpecImpl<LineStyle> for DashType {
    open spec fn obeys_from_spec() -> bool {
        true
    }

    open spec fn from_spec(style: LineStyle) -> DashType {
        match style {
            LineStyle::Solid => DashType::Solid,
            LineStyle::Dot => DashType::Dot,
            LineStyle::Dash => DashType::Dash,
            LineStyle::LongDash => DashType::LongDash,
            LineStyle::DashDot => DashType::DashDot,
            LineStyle::LongDashDot => DashType::LongDashDot,
        }
    }
}

} // verus!
