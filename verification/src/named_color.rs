//! The palette of named colours.
use vstd::prelude::*;

verus! {

/// The names of the CSS colour palette.
///
/// Nine of them are second names of another entry: `Aqua` of `Cyan`,
/// `Fuchsia` of `Magenta`, and each name spelled `Grey` of the one spelled
/// `Gray`.
#[derive(Debug, Clone, Copy, PartialEq, Eq, Structural)]
#[allow(missing_docs)]
pub enum NamedColor {
    AliceBlue,
    AntiqueWhite,
    Aqua,
    Aquamarine,
    Azure,
    Beige,
    Bisque,
    Black,
    BlanchedAlmond,
    Blue,
    BlueViolet,
    Brown,
    BurlyWood,
    CadetBlue,
    Chartreuse,
    Chocolate,
    Coral,
    CornflowerBlue,
    CornSilk,
    Crimson,
    Cyan,
    DarkBlue,
    DarkCyan,
    DarkGoldenrod,
    DarkGray,
    DarkGreen,
    DarkGrey,
    DarkKhaki,
    DarkMagenta,
    DarkOliveGreen,
    DarkOrange,
    DarkOrchid,
    DarkRed,
    DarkSalmon,
    DarkSeaGreen,
    DarkSlateBlue,
    DarkSlateGray,
    DarkSlateGrey,
    DarkTurquoise,
    DarkViolet,
    DeepPink,
    DeepSkyBlue,
    DimGray,
    DimGrey,
    DodgerBlue,
    FireBrick,
    FloralWhite,
    ForestGreen,
    Fuchsia,
    Gainsboro,
    GhostWhite,
    Gold,
    Goldenrod,
    Gray,
    Green,
    GreenYellow,
    Grey,
    Honeydew,
    HotPink,
    IndianRed,
    Indigo,
    Ivory,
    Khaki,
    Lavender,
    LavenderBlush,
    LawnGreen,
    LemonChiffon,
    LightBlue,
    LightCoral,
    LightCyan,
    LightGoldenrodYellow,
    LightGray,
    LightGreen,
    LightGrey,
    LightPink,
    LightSalmon,
    LightSeaGreen,
    LightSkyBlue,
    LightSlateGray,
    LightSlateGrey,
    LightSteelBlue,
    LightYellow,
    Lime,
    LimeGreen,
    Linen,
    Magenta,
    Maroon,
    MediumAquamarine,
    MediumBlue,
    MediumOrchid,
    MediumPurple,
    MediumSeaGreen,
    MediumSlateBlue,
    MediumSpringGreen,
    MediumTurquoise,
    MediumVioletRed,
    MidnightBlue,
    MintCream,
    MistyRose,
    Moccasin,
    NavajoWhite,
    Navy,
    OldLace,
    Olive,
    OliveDrab,
    Orange,
    OrangeRed,
    Orchid,
    PaleGoldenrod,
    PaleGreen,
    PaleTurquoise,
    PaleVioletRed,
    PapayaWhip,
    PeachPuff,
    Peru,
    Pink,
    Plum,
    PowderBlue,
    Purple,
    RebeccaPurple,
    Red,
    RosyBrown,
    RoyalBlue,
    SaddleBrown,
    Salmon,
    SandyBrown,
    SeaGreen,
    Seashell,
    Sienna,
    Silver,
    SkyBlue,
    SlateBlue,
    SlateGray,
    SlateGrey,
    Snow,
    SpringGreen,
    SteelBlue,
    Tan,
    Teal,
    Thistle,
    Tomato,
    Turquoise,
    Violet,
    Wheat,
    White,
    WhiteSmoke,
    Yellow,
    YellowGreen,
}

impl NamedColor {
    /// The entry that `self` is a second name of, or `self` itself.
    pub open spec fn spec_canonical(self) -> NamedColor {
        match self {
            NamedColor::Aqua => NamedColor::Cyan,
            NamedColor::DarkGrey => NamedColor::DarkGray,
            NamedColor::DarkSlateGrey => NamedColor::DarkSlateGray,
            NamedColor::DimGrey => NamedColor::DimGray,
            NamedColor::Fuchsia => NamedColor::Magenta,
            NamedColor::Grey => NamedColor::Gray,
            NamedColor::LightGrey => NamedColor::LightGray,
            NamedColor::LightSlateGrey => NamedColor::LightSlateGray,
            NamedColor::SlateGrey => NamedColor::SlateGray,
            _ => self,
        }
    }

    /// Whether `self` is a second name of another entry.
    pub open spec fn is_alias(self) -> bool {
        self.spec_canonical() != self
    }

    /// The colour of `self` as a 24-bit number: red in bits 16 to 23, green
    /// in bits 8 to 15, blue in bits 0 to 7.
    pub open spec fn spec_value(self) -> u32 {
        match self {
            NamedColor::AliceBlue => 0xF0F8FF,
            NamedColor::AntiqueWhite => 0xFAEBD7,
            NamedColor::Aqua => 0x00FFFF,
            NamedColor::Aquamarine => 0x7FFFD4,
            NamedColor::Azure => 0xF0FFFF,
            NamedColor::Beige => 0xF5F5DC,
            NamedColor::Bisque => 0xFFE4C4,
            NamedColor::Black => 0x000000,
            NamedColor::BlanchedAlmond => 0xFFEBCD,
            NamedColor::Blue => 0x0000FF,
            NamedColor::BlueViolet => 0x8A2BE2,
            NamedColor::Brown => 0xA52A2A,
            NamedColor::BurlyWood => 0xDEB887,
            NamedColor::CadetBlue => 0x5F9EA0,
            NamedColor::Chartreuse => 0x7FFF00,
            NamedColor::Chocolate => 0xD2691E,
            NamedColor::Coral => 0xFF7F50,
            NamedColor::CornflowerBlue => 0x6495ED,
            NamedColor::CornSilk => 0xFFF8DC,
            NamedColor::Crimson => 0xDC143C,
            NamedColor::Cyan => 0x00FFFF,
            NamedColor::DarkBlue => 0x00008B,
            NamedColor::DarkCyan => 0x008B8B,
            NamedColor::DarkGoldenrod => 0xB8860B,
            NamedColor::DarkGray => 0xA9A9A9,
            NamedColor::DarkGreen => 0x006400,
            NamedColor::DarkGrey => 0xA9A9A9,
            NamedColor::DarkKhaki => 0xBDB76B,
            NamedColor::DarkMagenta => 0x8B008B,
            NamedColor::DarkOliveGreen => 0x556B2F,
            NamedColor::DarkOrange => 0xFF8C00,
            NamedColor::DarkOrchid => 0x9932CC,
            NamedColor::DarkRed => 0x8B0000,
            NamedColor::DarkSalmon => 0xE9967A,
            NamedColor::DarkSeaGreen => 0x8FBC8F,
            NamedColor::DarkSlateBlue => 0x483D8B,
            NamedColor::DarkSlateGray => 0x2F4F4F,
            NamedColor::DarkSlateGrey => 0x2F4F4F,
            NamedColor::DarkTurquoise => 0x00CED1,
            NamedColor::DarkViolet => 0x9400D3,
            NamedColor::DeepPink => 0xFF1493,
            NamedColor::DeepSkyBlue => 0x00BFFF,
            NamedColor::DimGray => 0x696969,
            NamedColor::DimGrey => 0x696969,
            NamedColor::DodgerBlue => 0x1E90FF,
            NamedColor::FireBrick => 0xB22222,
            NamedColor::FloralWhite => 0xFFFAF0,
            NamedColor::ForestGreen => 0x228B22,
            NamedColor::Fuchsia => 0xFF00FF,
            NamedColor::Gainsboro => 0xDCDCDC,
            NamedColor::GhostWhite => 0xF8F8FF,
            NamedColor::Gold => 0xFFD700,
            NamedColor::Goldenrod => 0xDAA520,
            NamedColor::Gray => 0x808080,
            NamedColor::Green => 0x008000,
            NamedColor::GreenYellow => 0xADFF2F,
            NamedColor::Grey => 0x808080,
            NamedColor::Honeydew => 0xF0FFF0,
            NamedColor::HotPink => 0xFF69B4,
            NamedColor::IndianRed => 0xCD5C5C,
            NamedColor::Indigo => 0x4B0082,
            NamedColor::Ivory => 0xFFFFF0,
            NamedColor::Khaki => 0xF0E68C,
            NamedColor::Lavender => 0xE6E6FA,
            NamedColor::LavenderBlush => 0xFFF0F5,
            NamedColor::LawnGreen => 0x7CFC00,
            NamedColor::LemonChiffon => 0xFFFACD,
            NamedColor::LightBlue => 0xADD8E6,
            NamedColor::LightCoral => 0xF08080,
            NamedColor::LightCyan => 0xE0FFFF,
            NamedColor::LightGoldenrodYellow => 0xFAFAD2,
            NamedColor::LightGray => 0xD3D3D3,
            NamedColor::LightGreen => 0x90EE90,
            NamedColor::LightGrey => 0xD3D3D3,
            NamedColor::LightPink => 0xFFB6C1,
            NamedColor::LightSalmon => 0xFFA07A,
            NamedColor::LightSeaGreen => 0x20B2AA,
            NamedColor::LightSkyBlue => 0x87CEFA,
            NamedColor::LightSlateGray => 0x778899,
            NamedColor::LightSlateGrey => 0x778899,
            NamedColor::LightSteelBlue => 0xB0C4DE,
            NamedColor::LightYellow => 0xFFFFE0,
            NamedColor::Lime => 0x00FF00,
            NamedColor::LimeGreen => 0x32CD32,
            NamedColor::Linen => 0xFAF0E6,
            NamedColor::Magenta => 0xFF00FF,
            NamedColor::Maroon => 0x800000,
            NamedColor::MediumAquamarine => 0x66CDAA,
            NamedColor::MediumBlue => 0x0000CD,
            NamedColor::MediumOrchid => 0xBA55D3,
            NamedColor::MediumPurple => 0x9370DB,
            NamedColor::MediumSeaGreen => 0x3CB371,
            NamedColor::MediumSlateBlue => 0x7B68EE,
            NamedColor::MediumSpringGreen => 0x00FA9A,
            NamedColor::MediumTurquoise => 0x48D1CC,
            NamedColor::MediumVioletRed => 0xC71585,
            NamedColor::MidnightBlue => 0x191970,
            NamedColor::MintCream => 0xF5FFFA,
            NamedColor::MistyRose => 0xFFE4E1,
            NamedColor::Moccasin => 0xFFE4B5,
            NamedColor::NavajoWhite => 0xFFDEAD,
            NamedColor::Navy => 0x000080,
            NamedColor::OldLace => 0xFDF5E6,
            NamedColor::Olive => 0x808000,
            NamedColor::OliveDrab => 0x6B8E23,
            NamedColor::Orange => 0xFFA500,
            NamedColor::OrangeRed => 0xFF4500,
            NamedColor::Orchid => 0xDA70D6,
            NamedColor::PaleGoldenrod => 0xEEE8AA,
            NamedColor::PaleGreen => 0x98FB98,
            NamedColor::PaleTurquoise => 0xAFEEEE,
            NamedColor::PaleVioletRed => 0xDB7093,
            NamedColor::PapayaWhip => 0xFFEFD5,
            NamedColor::PeachPuff => 0xFFDAB9,
            NamedColor::Peru => 0xCD853F,
            NamedColor::Pink => 0xFFC0CB,
            NamedColor::Plum => 0xDDA0DD,
            NamedColor::PowderBlue => 0xB0E0E6,
            NamedColor::Purple => 0x800080,
            NamedColor::RebeccaPurple => 0x663399,
            NamedColor::Red => 0xFF0000,
            NamedColor::RosyBrown => 0xBC8F8F,
            NamedColor::RoyalBlue => 0x4169E1,
            NamedColor::SaddleBrown => 0x8B4513,
            NamedColor::Salmon => 0xFA8072,
            NamedColor::SandyBrown => 0xF4A460,
            NamedColor::SeaGreen => 0x2E8B57,
            NamedColor::Seashell => 0xFFF5EE,
            NamedColor::Sienna => 0xA0522D,
            NamedColor::Silver => 0xC0C0C0,
            NamedColor::SkyBlue => 0x87CEEB,
            NamedColor::SlateBlue => 0x6A5ACD,
            NamedColor::SlateGray => 0x708090,
            NamedColor::SlateGrey => 0x708090,
            NamedColor::Snow => 0xFFFAFA,
            NamedColor::SpringGreen => 0x00FF7F,
            NamedColor::SteelBlue => 0x4682B4,
            NamedColor::Tan => 0xD2B48C,
            NamedColor::Teal => 0x008080,
            NamedColor::Thistle => 0xD8BFD8,
            NamedColor::Tomato => 0xFF6347,
            NamedColor::Turquoise => 0x40E0D0,
            NamedColor::Violet => 0xEE82EE,
            NamedColor::Wheat => 0xF5DEB3,
            NamedColor::White => 0xFFFFFF,
            NamedColor::WhiteSmoke => 0xF5F5F5,
            NamedColor::Yellow => 0xFFFF00,
            NamedColor::YellowGreen => 0x9ACD32,
        }
    }

    /// Resolves a second name to the entry it stands for.
    #[verifier::when_used_as_spec(spec_canonical)]
    pub fn canonical(self) -> (entry: NamedColor)
        ensures
            entry == self.spec_canonical(),
            !entry.is_alias(),
    {
        match self {
            NamedColor::Aqua => NamedColor::Cyan,
            NamedColor::DarkGrey => NamedColor::DarkGray,
            NamedColor::DarkSlateGrey => NamedColor::DarkSlateGray,
            NamedColor::DimGrey => NamedColor::DimGray,
            NamedColor::Fuchsia => NamedColor::Magenta,
            NamedColor::Grey => NamedColor::Gray,
            NamedColor::LightGrey => NamedColor::LightGray,
            NamedColor::LightSlateGrey => NamedColor::LightSlateGray,
            NamedColor::SlateGrey => NamedColor::SlateGray,
            entry => entry,
        }
    }

    /// Looks up the 24-bit value of `self`.
    #[verifier::when_used_as_spec(spec_value)]
    pub fn value(self) -> (value: u32)
        ensures
            value == self.spec_value(),
            value <= 0xFF_FFFF,
    {
        match self {
            NamedColor::AliceBlue => 0xF0F8FF,
            NamedColor::AntiqueWhite => 0xFAEBD7,
            NamedColor::Aqua => 0x00FFFF,
            NamedColor::Aquamarine => 0x7FFFD4,
            NamedColor::Azure => 0xF0FFFF,
            NamedColor::Beige => 0xF5F5DC,
            NamedColor::Bisque => 0xFFE4C4,
            NamedColor::Black => 0x000000,
            NamedColor::BlanchedAlmond => 0xFFEBCD,
            NamedColor::Blue => 0x0000FF,
            NamedColor::BlueViolet => 0x8A2BE2,
            NamedColor::Brown => 0xA52A2A,
            NamedColor::BurlyWood => 0xDEB887,
            NamedColor::CadetBlue => 0x5F9EA0,
            NamedColor::Chartreuse => 0x7FFF00,
            NamedColor::Chocolate => 0xD2691E,
            NamedColor::Coral => 0xFF7F50,
            NamedColor::CornflowerBlue => 0x6495ED,
            NamedColor::CornSilk => 0xFFF8DC,
            NamedColor::Crimson => 0xDC143C,
            NamedColor::Cyan => 0x00FFFF,
            NamedColor::DarkBlue => 0x00008B,
            NamedColor::DarkCyan => 0x008B8B,
            NamedColor::DarkGoldenrod => 0xB8860B,
            NamedColor::DarkGray => 0xA9A9A9,
            NamedColor::DarkGreen => 0x006400,
            NamedColor::DarkGrey => 0xA9A9A9,
            NamedColor::DarkKhaki => 0xBDB76B,
            NamedColor::DarkMagenta => 0x8B008B,
            NamedColor::DarkOliveGreen => 0x556B2F,
            NamedColor::DarkOrange => 0xFF8C00,
            NamedColor::DarkOrchid => 0x9932CC,
            NamedColor::DarkRed => 0x8B0000,
            NamedColor::DarkSalmon => 0xE9967A,
            NamedColor::DarkSeaGreen => 0x8FBC8F,
            NamedColor::DarkSlateBlue => 0x483D8B,
            NamedColor::DarkSlateGray => 0x2F4F4F,
            NamedColor::DarkSlateGrey => 0x2F4F4F,
            NamedColor::DarkTurquoise => 0x00CED1,
            NamedColor::DarkViolet => 0x9400D3,
            NamedColor::DeepPink => 0xFF1493,
            NamedColor::DeepSkyBlue => 0x00BFFF,
            NamedColor::DimGray => 0x696969,
            NamedColor::DimGrey => 0x696969,
            NamedColor::DodgerBlue => 0x1E90FF,
            NamedColor::FireBrick => 0xB22222,
            NamedColor::FloralWhite => 0xFFFAF0,
            NamedColor::ForestGreen => 0x228B22,
            NamedColor::Fuchsia => 0xFF00FF,
            NamedColor::Gainsboro => 0xDCDCDC,
            NamedColor::GhostWhite => 0xF8F8FF,
            NamedColor::Gold => 0xFFD700,
            NamedColor::Goldenrod => 0xDAA520,
            NamedColor::Gray => 0x808080,
            NamedColor::Green => 0x008000,
            NamedColor::GreenYellow => 0xADFF2F,
            NamedColor::Grey => 0x808080,
            NamedColor::Honeydew => 0xF0FFF0,
            NamedColor::HotPink => 0xFF69B4,
            NamedColor::IndianRed => 0xCD5C5C,
            NamedColor::Indigo => 0x4B0082,
            NamedColor::Ivory => 0xFFFFF0,
            NamedColor::Khaki => 0xF0E68C,
            NamedColor::Lavender => 0xE6E6FA,
            NamedColor::LavenderBlush => 0xFFF0F5,
            NamedColor::LawnGreen => 0x7CFC00,
            NamedColor::LemonChiffon => 0xFFFACD,
            NamedColor::LightBlue => 0xADD8E6,
            NamedColor::LightCoral => 0xF08080,
            NamedColor::LightCyan => 0xE0FFFF,
            NamedColor::LightGoldenrodYellow => 0xFAFAD2,
            NamedColor::LightGray => 0xD3D3D3,
            NamedColor::LightGreen => 0x90EE90,
            NamedColor::LightGrey => 0xD3D3D3,
            NamedColor::LightPink => 0xFFB6C1,
            NamedColor::LightSalmon => 0xFFA07A,
            NamedColor::LightSeaGreen => 0x20B2AA,
            NamedColor::LightSkyBlue => 0x87CEFA,
            NamedColor::LightSlateGray => 0x778899,
            NamedColor::LightSlateGrey => 0x778899,
            NamedColor::LightSteelBlue => 0xB0C4DE,
            NamedColor::LightYellow => 0xFFFFE0,
            NamedColor::Lime => 0x00FF00,
            NamedColor::LimeGreen => 0x32CD32,
            NamedColor::Linen => 0xFAF0E6,
            NamedColor::Magenta => 0xFF00FF,
            NamedColor::Maroon => 0x800000,
            NamedColor::MediumAquamarine => 0x66CDAA,
            NamedColor::MediumBlue => 0x0000CD,
            NamedColor::MediumOrchid => 0xBA55D3,
            NamedColor::MediumPurple => 0x9370DB,
            NamedColor::MediumSeaGreen => 0x3CB371,
            NamedColor::MediumSlateBlue => 0x7B68EE,
            NamedColor::MediumSpringGreen => 0x00FA9A,
            NamedColor::MediumTurquoise => 0x48D1CC,
            NamedColor::MediumVioletRed => 0xC71585,
            NamedColor::MidnightBlue => 0x191970,
            NamedColor::MintCream => 0xF5FFFA,
            NamedColor::MistyRose => 0xFFE4E1,
            NamedColor::Moccasin => 0xFFE4B5,
            NamedColor::NavajoWhite => 0xFFDEAD,
            NamedColor::Navy => 0x000080,
            NamedColor::OldLace => 0xFDF5E6,
            NamedColor::Olive => 0x808000,
            NamedColor::OliveDrab => 0x6B8E23,
            NamedColor::Orange => 0xFFA500,
            NamedColor::OrangeRed => 0xFF4500,
            NamedColor::Orchid => 0xDA70D6,
            NamedColor::PaleGoldenrod => 0xEEE8AA,
            NamedColor::PaleGreen => 0x98FB98,
            NamedColor::PaleTurquoise => 0xAFEEEE,
            NamedColor::PaleVioletRed => 0xDB7093,
            NamedColor::PapayaWhip => 0xFFEFD5,
            NamedColor::PeachPuff => 0xFFDAB9,
            NamedColor::Peru => 0xCD853F,
            NamedColor::Pink => 0xFFC0CB,
            NamedColor::Plum => 0xDDA0DD,
            NamedColor::PowderBlue => 0xB0E0E6,
            NamedColor::Purple => 0x800080,
            NamedColor::RebeccaPurple => 0x663399,
            NamedColor::Red => 0xFF0000,
            NamedColor::RosyBrown => 0xBC8F8F,
            NamedColor::RoyalBlue => 0x4169E1,
            NamedColor::SaddleBrown => 0x8B4513,
            NamedColor::Salmon => 0xFA8072,
            NamedColor::SandyBrown => 0xF4A460,
            NamedColor::SeaGreen => 0x2E8B57,
            NamedColor::Seashell => 0xFFF5EE,
            NamedColor::Sienna => 0xA0522D,
            NamedColor::Silver => 0xC0C0C0,
            NamedColor::SkyBlue => 0x87CEEB,
            NamedColor::SlateBlue => 0x6A5ACD,
            NamedColor::SlateGray => 0x708090,
            NamedColor::SlateGrey => 0x708090,
            NamedColor::Snow => 0xFFFAFA,
            NamedColor::SpringGreen => 0x00FF7F,
            NamedColor::SteelBlue => 0x4682B4,
            NamedColor::Tan => 0xD2B48C,
            NamedColor::Teal => 0x008080,
            NamedColor::Thistle => 0xD8BFD8,
            NamedColor::Tomato => 0xFF6347,
            NamedColor::Turquoise => 0x40E0D0,
            NamedColor::Violet => 0xEE82EE,
            NamedColor::Wheat => 0xF5DEB3,
            NamedColor::White => 0xFFFFFF,
            NamedColor::WhiteSmoke => 0xF5F5F5,
            NamedColor::Yellow => 0xFFFF00,
            NamedColor::YellowGreen => 0x9ACD32,
        }
    }
}

/// A second name has the value of the entry it stands for, and resolving a
/// name twice is resolving it once.
pub proof fn lemma_alias_shares_value(name: NamedColor)
    ensures
        name.spec_canonical().spec_value() == name.spec_value(),
        name.spec_canonical().spec_canonical() == name.spec_canonical(),
{
}

/// Every value of the palette fits in 24 bits.
pub proof fn lemma_value_fits_24_bits(name: NamedColor)
    ensures
        name.spec_value() <= 0xFF_FFFF,
{
}

} // verus!
