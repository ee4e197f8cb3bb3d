use plotly::color::Rgba;
use plotting::{Color, NamedColor};

fn bits(value: f64) -> u64 {
    value.to_bits()
}

#[test]
fn test_partial_eq() {
    // Test equality.
    let color_1 = Color::rgb(20, 30, 40);
    let color_2 = Color::rgb(20, 30, 40);
    assert_eq!(color_1, color_2);

    // Test inequality in r.
    let color_1 = Color::rgb(20, 30, 40);
    let color_2 = Color::rgb(25, 30, 40);
    assert_ne!(color_1, color_2);

    // Test inequality in g.
    let color_1 = Color::rgb(20, 30, 40);
    let color_2 = Color::rgb(20, 35, 40);
    assert_ne!(color_1, color_2);

    // Test inequality in b.
    let color_1 = Color::rgb(20, 30, 40);
    let color_2 = Color::rgb(20, 30, 45);
    assert_ne!(color_1, color_2);

    // Test inequality in a.
    let color_1 = Color::rgb(20, 30, 40).alpha(bits(0.1));
    let color_2 = Color::rgb(20, 30, 40).alpha(bits(0.2));
    assert_ne!(color_1, color_2);
}

#[test]
fn test_rgb() {
    let color = Color::rgb(20, 30, 40);
    assert_eq!(color.red(), 20);
    assert_eq!(color.green(), 30);
    assert_eq!(color.blue(), 40);
    assert_eq!(f64::from_bits(color.alpha_bits()), 1.0);
}

#[test]
fn test_rgba() {
    // Simple check.
    let color = Color::rgba(20, 30, 40, bits(0.5));
    assert_eq!(color.red(), 20);
    assert_eq!(color.green(), 30);
    assert_eq!(color.blue(), 40);
    assert_eq!(f64::from_bits(color.alpha_bits()), 0.5);

    // Check clamping at lower bound.
    let color = Color::rgba(20, 30, 40, bits(-0.1));
    assert_eq!(f64::from_bits(color.alpha_bits()), 0.0);

    // Check clamping at upper bound.
    let color = Color::rgba(20, 30, 40, bits(1.1));
    assert_eq!(f64::from_bits(color.alpha_bits()), 1.0);
}

#[test]
fn test_named() {
    // Simple checks.
    assert_eq!(Color::named(NamedColor::Black), Color::rgb(0, 0, 0));
    assert_eq!(Color::named(NamedColor::White), Color::rgb(255, 255, 255));
    assert_eq!(Color::named(NamedColor::Red), Color::rgb(255, 0, 0));
    assert_eq!(Color::named(NamedColor::Lime), Color::rgb(0, 255, 0));
    assert_eq!(Color::named(NamedColor::Blue), Color::rgb(0, 0, 255));
    assert_eq!(Color::named(NamedColor::Yellow), Color::rgb(255, 255, 0));
    assert_eq!(Color::named(NamedColor::Magenta), Color::rgb(255, 0, 255));
    assert_eq!(Color::named(NamedColor::Cyan), Color::rgb(0, 255, 255));
    assert_eq!(Color::named(NamedColor::Green), Color::rgb(0, 128, 0));

    // Check aliasing.
    assert_eq!(
        Color::named(NamedColor::Aqua),
        Color::named(NamedColor::Cyan)
    );
    assert_eq!(
        Color::named(NamedColor::DarkGrey),
        Color::named(NamedColor::DarkGray)
    );
    assert_eq!(
        Color::named(NamedColor::DarkSlateGrey),
        Color::named(NamedColor::DarkSlateGray)
    );
    assert_eq!(
        Color::named(NamedColor::DimGrey),
        Color::named(NamedColor::DimGray)
    );
    assert_eq!(
        Color::named(NamedColor::Fuchsia),
        Color::named(NamedColor::Magenta)
    );
    assert_eq!(
        Color::named(NamedColor::Grey),
        Color::named(NamedColor::Gray)
    );
    assert_eq!(
        Color::named(NamedColor::LightGrey),
        Color::named(NamedColor::LightGray)
    );
    assert_eq!(
        Color::named(NamedColor::LightSlateGrey),
        Color::named(NamedColor::LightSlateGray)
    );
    assert_eq!(
        Color::named(NamedColor::SlateGrey),
        Color::named(NamedColor::SlateGray)
    );
}

#[test]
fn test_hex_literal() {
    // Simple checks.
    assert_eq!(Color::hex_literal(0x000000), Color::rgb(0, 0, 0));
    assert_eq!(Color::hex_literal(0xFFFFFF), Color::rgb(255, 255, 255));
    assert_eq!(Color::hex_literal(0xFF0000), Color::rgb(255, 0, 0));
    assert_eq!(Color::hex_literal(0x00FF00), Color::rgb(0, 255, 0));
    assert_eq!(Color::hex_literal(0x0000FF), Color::rgb(0, 0, 255));
    assert_eq!(Color::hex_literal(0xFFFF00), Color::rgb(255, 255, 0));
    assert_eq!(Color::hex_literal(0xFF00FF), Color::rgb(255, 0, 255));
    assert_eq!(Color::hex_literal(0x00FFFF), Color::rgb(0, 255, 255));
    assert_eq!(Color::hex_literal(0x008000), Color::rgb(0, 128, 0));

    // Spot check for value outside the RGB range (should return default color).
    assert_eq!(Color::hex_literal(0xFFFFFFFF), Color::default());
}

#[test]
fn test_hex_str() {
    // Checks with #.
    assert_eq!(Color::hex_str("#000000"), Color::rgb(0, 0, 0));
    assert_eq!(Color::hex_str("#FFFFFF"), Color::rgb(255, 255, 255));
    assert_eq!(Color::hex_str("#FF0000"), Color::rgb(255, 0, 0));
    assert_eq!(Color::hex_str("#00FF00"), Color::rgb(0, 255, 0));
    assert_eq!(Color::hex_str("#0000FF"), Color::rgb(0, 0, 255));
    assert_eq!(Color::hex_str("#FFFF00"), Color::rgb(255, 255, 0));
    assert_eq!(Color::hex_str("#FF00FF"), Color::rgb(255, 0, 255));
    assert_eq!(Color::hex_str("#00FFFF"), Color::rgb(0, 255, 255));
    assert_eq!(Color::hex_str("#008000"), Color::rgb(0, 128, 0));

    // Checks without #.
    assert_eq!(Color::hex_str("000000"), Color::rgb(0, 0, 0));
    assert_eq!(Color::hex_str("FFFFFF"), Color::rgb(255, 255, 255));
    assert_eq!(Color::hex_str("FF0000"), Color::rgb(255, 0, 0));
    assert_eq!(Color::hex_str("00FF00"), Color::rgb(0, 255, 0));
    assert_eq!(Color::hex_str("0000FF"), Color::rgb(0, 0, 255));
    assert_eq!(Color::hex_str("FFFF00"), Color::rgb(255, 255, 0));
    assert_eq!(Color::hex_str("FF00FF"), Color::rgb(255, 0, 255));
    assert_eq!(Color::hex_str("00FFFF"), Color::rgb(0, 255, 255));
    assert_eq!(Color::hex_str("008000"), Color::rgb(0, 128, 0));

    // Spot check for value outside the RGB range (should return default color).
    assert_eq!(Color::hex_str("#FFFFFFFF"), Color::default());
}

#[test]
fn test_alpha() {
    // Simple check with valid alpha.
    assert_eq!(
        Color::rgb(20, 30, 40).alpha(bits(0.5)),
        Color::rgba(20, 30, 40, bits(0.5))
    );

    // Check clamping at lower bound.
    assert_eq!(
        Color::rgb(20, 30, 40).alpha(bits(-0.1)),
        Color::rgba(20, 30, 40, bits(0.0))
    );

    // Check clamping at upper bound.
    assert_eq!(
        Color::rgb(20, 30, 40).alpha(bits(1.1)),
        Color::rgba(20, 30, 40, bits(1.0))
    );
}

#[test]
fn to_plotly_rgba() {
    let color = Color::rgba(20, 30, 40, bits(0.5));
    assert_eq!(
        Rgba::new(
            color.red(),
            color.green(),
            color.blue(),
            f64::from_bits(color.alpha_bits())
        ),
        Rgba::new(20, 30, 40, 0.5)
    );
}

#[test]
fn test_default() {
    assert_eq!(Color::default(), Color::rgba(0, 0, 0, bits(1.0)));
}

#[test]
fn malformed_input_gives_the_default_color() {
    assert_eq!(Color::hex_literal(0x0100_0000), Color::default());
    assert_eq!(Color::hex_literal(0xFFFF_FFFF), Color::default());
    assert_eq!(Color::hex_str("#FFFFFFFF"), Color::default());
    assert_eq!(Color::hex_str("1234"), Color::default());
    assert_eq!(Color::hex_str(""), Color::default());
    assert_eq!(Color::hex_str("#"), Color::default());
    assert_eq!(Color::hex_str("#12345"), Color::default());
    assert_eq!(Color::hex_str("1234567"), Color::default());
}

#[test]
fn text_that_is_not_all_digits_is_black() {
    assert_eq!(Color::hex_str("GGGGGG"), Color::rgb(0, 0, 0));
    assert_eq!(Color::hex_str("#FF00ZZ"), Color::rgb(0, 0, 0));
    assert_eq!(Color::hex_str("FF 000"), Color::rgb(0, 0, 0));
    assert_eq!(Color::hex_str("+FFFFF"), Color::rgb(0, 0, 0));
    assert_eq!(Color::hex_str("-FFFFF"), Color::rgb(0, 0, 0));
    assert_eq!(Color::hex_str("ééé"), Color::rgb(0, 0, 0));
    assert_eq!(Color::hex_str("éééééé"), Color::rgb(0, 0, 0));
}

#[test]
fn at_most_one_hash_is_dropped() {
    assert_eq!(Color::hex_str("##FFFFF"), Color::rgb(0, 0, 0));
    assert_eq!(Color::hex_str("##FFFFFF"), Color::default());
    assert_eq!(Color::hex_str("#FFFFF#"), Color::rgb(0, 0, 0));
}

#[test]
fn digits_of_either_case_are_read() {
    assert_eq!(Color::hex_str("ff8000"), Color::rgb(255, 128, 0));
    assert_eq!(Color::hex_str("#aBcDeF"), Color::rgb(0xAB, 0xCD, 0xEF));
    assert_eq!(Color::hex_str("#123456"), Color::rgb(0x12, 0x34, 0x56));
    assert_eq!(Color::hex_str("09AF0a"), Color::rgb(0x09, 0xAF, 0x0A));
}

#[test]
fn hex_literal_reads_back_packed_channels() {
    for r in [0u8, 1, 15, 16, 127, 128, 254, 255] {
        for g in [0u8, 1, 15, 16, 127, 128, 254, 255] {
            for b in [0u8, 1, 15, 16, 127, 128, 254, 255] {
                let packed = ((r as u32) << 16) | ((g as u32) << 8) | (b as u32);
                assert_eq!(Color::hex_literal(packed), Color::rgb(r, g, b));
            }
        }
    }
}

#[test]
fn hex_str_agrees_with_hex_literal() {
    for value in [0u32, 1, 0xF, 0x10, 0xABCDEF, 0x123456, 0x00FF00, 0x800000, 0xFFFFFF] {
        let text = format!("{:06X}", value);
        assert_eq!(Color::hex_str(&text), Color::hex_literal(value));
        let prefixed = format!("#{}", text);
        assert_eq!(Color::hex_str(&prefixed), Color::hex_str(&text));
    }
}

#[test]
fn setting_the_stored_alpha_again_changes_nothing() {
    let given = [
        -1.0f64,
        -0.1,
        -0.0,
        0.0,
        0.25,
        0.5,
        1.0,
        1.1,
        7.0,
        f64::INFINITY,
        f64::NEG_INFINITY,
        f64::NAN,
    ];
    for a in given {
        let once = Color::rgb(1, 2, 3).alpha(bits(a));
        let stored = once.alpha_bits();
        let expected = if a.is_nan() { 1.0 } else { a.clamp(0.0, 1.0) };
        assert_eq!(f64::from_bits(stored), expected);
        let twice = Color::rgb(1, 2, 3).alpha(bits(a)).alpha(stored);
        assert_eq!(twice.alpha_bits(), stored);
        assert_eq!(twice, once);
    }
}

#[test]
fn a_nan_alpha_is_taken_as_opaque() {
    for nan in [f64::NAN.to_bits(), 0x7FF0_0000_0000_0001, 0xFFF8_0000_0000_0000, u64::MAX] {
        assert!(f64::from_bits(nan).is_nan());
        let color = Color::rgb(1, 2, 3).alpha(nan);
        assert_eq!(color.alpha_bits(), bits(1.0));
        assert_eq!(color, Color::rgb(1, 2, 3));
        assert_eq!(Color::rgba(1, 2, 3, nan), Color::rgba(1, 2, 3, nan));
        assert_eq!(Color::rgba(1, 2, 3, nan), Color::rgba(1, 2, 3, bits(1.0)));
    }
}

#[test]
fn every_alpha_is_stored_in_the_unit_interval() {
    let given = [
        f64::NAN,
        f64::INFINITY,
        f64::NEG_INFINITY,
        f64::MAX,
        f64::MIN,
        f64::MIN_POSITIVE,
        -f64::MIN_POSITIVE,
        -0.0,
        0.0,
        0.3,
        1.0,
        1.0 + f64::EPSILON,
    ];
    for a in given {
        let color = Color::rgba(9, 8, 7, bits(a));
        let stored = f64::from_bits(color.alpha_bits());
        assert!((0.0..=1.0).contains(&stored), "{} gave {}", a, stored);
        assert_eq!(Color::rgba(9, 8, 7, bits(a)), color);
    }
}

#[test]
fn the_two_zeros_are_equal_alphas() {
    let minus = Color::rgb(1, 2, 3).alpha(bits(-0.0));
    let plus = Color::rgb(1, 2, 3).alpha(bits(0.0));
    assert_eq!(minus.alpha_bits(), bits(-0.0));
    assert_eq!(minus, plus);
}

#[test]
fn alpha_keeps_the_channels() {
    let color = Color::named(NamedColor::Tomato).alpha(bits(0.25));
    assert_eq!(color.red(), 0xFF);
    assert_eq!(color.green(), 0x63);
    assert_eq!(color.blue(), 0x47);
    assert_eq!(f64::from_bits(color.alpha_bits()), 0.25);
}
