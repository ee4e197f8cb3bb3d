use plotly::common::DashType;
use plotting::LineStyle;

fn name(dash: DashType) -> String {
    format!("{:?}", dash)
}

#[test]
fn each_line_style_is_the_dash_type_of_its_name() {
    assert_eq!(name(DashType::from(LineStyle::Solid)), "Solid");
    assert_eq!(name(DashType::from(LineStyle::Dot)), "Dot");
    assert_eq!(name(DashType::from(LineStyle::Dash)), "Dash");
    assert_eq!(name(DashType::from(LineStyle::LongDash)), "LongDash");
    assert_eq!(name(DashType::from(LineStyle::DashDot)), "DashDot");
    assert_eq!(name(DashType::from(LineStyle::LongDashDot)), "LongDashDot");
    let dash: DashType = LineStyle::Dash.into();
    assert_eq!(name(dash), "Dash");
}
