//! Colours: three 8-bit channels and an opacity.
//!
//! The opacity is an IEEE 754 binary64 value, held and passed as its bit
//! pattern (see [`crate::binary64`]). 0.0 is fully transparent, 1.0 fully
//! opaque.
use crate::binary64::{
    clamp_to_unit, in_unit_interval, is_nan, num_eq, num_eq_bits, unit_clamp, ONE_BITS,
};
use crate::hex::{
    all_hex_digits, hex6_value, hex_digit, is_upper_hex_digit, lemma_hex6_value_bytes,
    lemma_strip_hash_of_prefixed, lemma_upper_hex_digits_are_hex, parse_hex6, strip_hash,
    strip_hash_prefix,
};
use crate::named_color::NamedColor;
use vstd::prelude::*;

verus! {

/// What a [`Color`] is: its channels, and the bit pattern of its opacity.
pub struct ColorView {
    pub red: u8,
    pub green: u8,
    pub blue: u8,
    pub alpha: u64,
}

impl ColorView {
    /// Whether the opacity is a number in the interval from 0.0 to 1.0, as
    /// it is in the view of every [`Color`].
    pub open spec fn wf(self) -> bool {
        in_unit_interval(self.alpha)
    }

    /// The opaque colour with the given channels.
    pub open spec fn rgb(red: u8, green: u8, blue: u8) -> ColorView {
        ColorView { red, green, blue, alpha: ONE_BITS }
    }

    /// `self` with its opacity replaced by `alpha`, clamped to the interval
    /// from 0.0 to 1.0; an `alpha` that is a NaN gives the opacity 1.0.
    pub open spec fn with_alpha(self, alpha: u64) -> ColorView {
        ColorView { alpha: unit_clamp(alpha), ..self }
    }

    /// The colour with the given channels and the opacity `alpha`, clamped.
    pub open spec fn rgba(red: u8, green: u8, blue: u8, alpha: u64) -> ColorView {
        ColorView::rgb(red, green, blue).with_alpha(alpha)
    }

    /// Opaque black, the colour that stands in for input that is no colour.
    pub open spec fn opaque_black() -> ColorView {
        ColorView::rgb(0, 0, 0)
    }

    /// The opaque colour of a 24-bit number: red is its most significant
    /// byte, blue its least significant one.
    pub open spec fn from_rgb24(value: u32) -> ColorView
        recommends
            value <= 0xFF_FFFF,
    {
        ColorView::rgb(
            (value / 0x1_0000) as u8,
            ((value / 0x100) % 0x100) as u8,
            (value % 0x100) as u8,
        )
    }

    /// The colour of a palette entry, second names resolved first.
    pub open spec fn named(name: NamedColor) -> ColorView {
        ColorView::from_rgb24(name.spec_canonical().spec_value())
    }

    /// The colour of a number: opaque black where it does not fit in 24 bits.
    pub open spec fn hex_literal(value: u32) -> ColorView {
        if value > 0xFF_FFFF {
            ColorView::opaque_black()
        } else {
            ColorView::from_rgb24(value)
        }
    }

    /// The colour that `text` spells. After at most one leading `#`, six
    /// characters must remain, else the colour is opaque black. Six
    /// hexadecimal digits are read as a number; six characters that are not
    /// all digits are read as the number 0.
    pub open spec fn hex_str(text: Seq<char>) -> ColorView {
        let digits = strip_hash(text);
        if digits.len() != 6 {
            ColorView::opaque_black()
        } else {
            match hex6_value(digits) {
                Some(value) => ColorView::hex_literal(value),
                None => ColorView::hex_literal(0),
            }
        }
    }

    /// Equality of colours: equal channels, and opacities that are equal as
    /// numbers, so that the two zeros are one opacity.
    pub open spec fn equals(self, other: ColorView) -> bool {
        &&& self.red == other.red
        &&& self.green == other.green
        &&& self.blue == other.blue
        &&& num_eq(self.alpha, other.alpha)
    }
}

/// A colour.
///
/// Its opacity is always a number in the interval from 0.0 to 1.0: what is
/// given from outside it is clamped, and a NaN is taken as 1.0.
#[derive(Debug)]
pub struct Color {
    r: u8,
    g: u8,
    b: u8,
    a: u64,
}

impl View for Color {
    type V = ColorView;

    closed spec fn view(&self) -> ColorView {
        ColorView { red: self.r, green: self.g, blue: self.b, alpha: self.a }
    }
}

impl Color {
    #[verifier::type_invariant]
    spec fn opacity_in_unit_interval(self) -> bool {
        in_unit_interval(self.a)
    }

    /// Makes an opaque colour from its channels.
    pub fn rgb(r: u8, g: u8, b: u8) -> (color: Color)
        ensures
            color@ == ColorView::rgb(r, g, b),
            color@.wf(),
    {
        Color { r, g, b, a: ONE_BITS }
    }

    /// Makes a colour from its channels and the bit pattern of its opacity.
    /// An opacity outside the interval from 0.0 to 1.0 is clamped to it,
    /// and one that is a NaN is taken as 1.0.
    pub fn rgba(r: u8, g: u8, b: u8, a: u64) -> (color: Color)
        ensures
            color@ == ColorView::rgba(r, g, b, a),
            color@.wf(),
    {
        Color::rgb(r, g, b).alpha(a)
    }

    /// Makes the opaque colour of a palette entry.
    pub fn named(color: NamedColor) -> (named: Color)
        ensures
            named@ == ColorView::named(color),
            named@.wf(),
    {
        let hex = color.canonical().value();
        Color::from_rgb24(hex)
    }

    /// Makes the opaque colour whose channels are the three low bytes of
    /// `color`, red first. A number that does not fit in 24 bits gives the
    /// default colour.
    pub fn hex_literal(color: u32) -> (literal: Color)
        ensures
            literal@ == ColorView::hex_literal(color),
            literal@.wf(),
    {
        if color > 0xFF_FFFF {
            return Color::default();
        }
        Color::from_rgb24(color)
    }

    /// Makes the opaque colour that `color` spells as `RRGGBB` or `#RRGGBB`,
    /// in digits of either case. Text of another length gives the default
    /// colour, and so does text of that length that is not all digits.
    pub fn hex_str(color: &str) -> (parsed: Color)
        ensures
            parsed@ == ColorView::hex_str(color@),
            parsed@.wf(),
    {
        let digits = strip_hash_prefix(color);
        if digits.unicode_len() != 6 {
            return Color::default();
        }
        let hex = match parse_hex6(digits) {
            Some(value) => value,
            None => 0,
        };
        Color::hex_literal(hex)
    }

    /// Replaces the opacity by the one whose bit pattern is `a`, clamped to
    /// the interval from 0.0 to 1.0; a NaN is taken as 1.0. The channels
    /// stay.
    pub fn alpha(self, a: u64) -> (color: Color)
        ensures
            color@ == self@.with_alpha(a),
            color@.wf(),
    {
        Color { r: self.r, g: self.g, b: self.b, a: clamp_to_unit(a) }
    }

    /// The red channel.
    pub fn red(&self) -> (red: u8)
        ensures
            red == self@.red,
    {
        self.r
    }

    /// The green channel.
    pub fn green(&self) -> (green: u8)
        ensures
            green == self@.green,
    {
        self.g
    }

    /// The blue channel.
    pub fn blue(&self) -> (blue: u8)
        ensures
            blue == self@.blue,
    {
        self.b
    }

    /// The bit pattern of the opacity, a number in the interval from 0.0 to
    /// 1.0.
    pub fn alpha_bits(&self) -> (bits: u64)
        ensures
            bits == self@.alpha,
            in_unit_interval(bits),
            self@.wf(),
    {
        proof {
            use_type_invariant(self);
        }
        self.a
    }

    /// Splits a 24-bit number into its three bytes.
    fn from_rgb24(value: u32) -> (color: Color)
        requires
            value <= 0xFF_FFFF,
        ensures
            color@ == ColorView::from_rgb24(value),
            color@.wf(),
    {
        let r = ((value >> 16) & 0xFF) as u8;
        let g = ((value >> 8) & 0xFF) as u8;
        let b = (value & 0xFF) as u8;
        proof {
            lemma_bytes_of_rgb24(value);
        }
        Color::rgb(r, g, b)
    }
}

impl Default for Color {
    /// Opaque black.
    fn default() -> (color: Color)
        ensures
            color@ == ColorView::opaque_black(),
            color@.wf(),
    {
        Color::rgb(0, 0, 0)
    }
}

impl PartialEq for Color {
    fn eq(&self, other: &Color) -> (equal: bool) {
        self.r == other.r && self.g == other.g && self.b == other.b && num_eq_bits(
            self.a,
            other.a,
        )
    }
}

impl vstd::std_specs::cmp::PartialEqSpecImpl for Color {
    open spec fn obeys_eq_spec() -> bool {
        true
    }

    open spec fn eq_spec(&self, other: &Color) -> bool {
        self@.equals(other@)
    }
}

/// Shifting and masking a 24-bit number takes it apart as dividing does.
proof fn lemma_bytes_of_rgb24(value: u32)
    requires
        value <= 0xFF_FFFF,
    ensures
        (value >> 16) & 0xFF == value / 0x1_0000,
        (value >> 8) & 0xFF == (value / 0x100) % 0x100,
        value & 0xFF == value % 0x100,
        value / 0x1_0000 < 0x100,
{
    assert((value >> 16) & 0xFF == value / 0x1_0000 && (value >> 8) & 0xFF == (value / 0x100)
        % 0x100 && value & 0xFF == value % 0x100 && value / 0x1_0000 < 0x100) by (bit_vector)
        requires
            value <= 0xFF_FFFF,
    ;
}

/// Setting an opacity stores that opacity clamped, a number in the unit
/// interval whatever was given, and leaves the channels alone; setting the
/// stored opacity once more changes nothing.
pub proof fn lemma_alpha_clamps_once(color: ColorView, alpha: u64)
    ensures
        color.with_alpha(alpha).alpha == unit_clamp(alpha),
        in_unit_interval(color.with_alpha(alpha).alpha),
        color.with_alpha(alpha).wf(),
        color.with_alpha(alpha).red == color.red,
        color.with_alpha(alpha).green == color.green,
        color.with_alpha(alpha).blue == color.blue,
        color.with_alpha(alpha).with_alpha(color.with_alpha(alpha).alpha) == color.with_alpha(
            alpha,
        ),
        color.with_alpha(alpha).with_alpha(color.with_alpha(alpha).alpha).equals(
            color.with_alpha(alpha),
        ),
{
}

/// Whatever a colour is made from, its opacity is a number in the interval
/// from 0.0 to 1.0.
pub proof fn lemma_opacity_in_unit_interval(
    r: u8,
    g: u8,
    b: u8,
    alpha: u64,
    name: NamedColor,
    value: u32,
    text: Seq<char>,
)
    ensures
        ColorView::rgb(r, g, b).alpha == ONE_BITS,
        ColorView::named(name).alpha == ONE_BITS,
        ColorView::hex_literal(value).alpha == ONE_BITS,
        ColorView::hex_str(text).alpha == ONE_BITS,
        ColorView::opaque_black().alpha == ONE_BITS,
        in_unit_interval(ONE_BITS),
        ColorView::rgb(r, g, b).wf(),
        ColorView::named(name).wf(),
        ColorView::hex_literal(value).wf(),
        ColorView::hex_str(text).wf(),
        ColorView::opaque_black().wf(),
        ColorView::rgba(r, g, b, alpha).wf(),
        is_nan(alpha) ==> ColorView::rgba(r, g, b, alpha).alpha == ONE_BITS,
{
}

/// Packing three channels into a number, red in the most significant byte,
/// and reading the number back gives the colour of the three channels.
pub proof fn lemma_hex_literal_of_packed_channels(r: u8, g: u8, b: u8)
    ensures
        ColorView::hex_literal(((r as u32) << 16) | ((g as u32) << 8) | (b as u32))
            == ColorView::rgb(r, g, b),
        ColorView::hex_literal((0x1_0000 * r + 0x100 * g + b) as u32) == ColorView::rgb(r, g, b),
{
    let packed: u32 = ((r as u32) << 16) | ((g as u32) << 8) | (b as u32);
    assert(packed <= 0xFF_FFFF && packed / 0x1_0000 == r && (packed / 0x100) % 0x100 == g
        && packed % 0x100 == b && packed == 0x1_0000 * r + 0x100 * g + b) by (bit_vector)
        requires
            packed == ((r as u32) << 16) | ((g as u32) << 8) | (b as u32),
    ;
}

/// Six capital hexadecimal digits spell the colour of the number they
/// spell, each pair of digits one channel, and a `#` before them changes
/// nothing.
pub proof fn lemma_hex_str_of_digits(digits: Seq<char>)
    requires
        digits.len() == 6,
        forall|i: int| 0 <= i < 6 ==> is_upper_hex_digit(#[trigger] digits[i]),
    ensures
        hex6_value(digits) matches Some(value) && ColorView::hex_str(digits)
            == ColorView::hex_literal(value),
        ColorView::hex_str(seq!['#'] + digits) == ColorView::hex_str(digits),
        ColorView::hex_str(digits) == ColorView::rgb(
            (16 * hex_digit(digits[0])->0 + hex_digit(digits[1])->0) as u8,
            (16 * hex_digit(digits[2])->0 + hex_digit(digits[3])->0) as u8,
            (16 * hex_digit(digits[4])->0 + hex_digit(digits[5])->0) as u8,
        ),
{
    lemma_upper_hex_digits_are_hex(digits);
    lemma_strip_hash_of_prefixed(digits);
    lemma_hex6_value_bytes(digits);
}

/// The same holds of digits in either case, as long as the first of them is
/// read as a digit and not dropped as a `#`.
pub proof fn lemma_hex_str_of_mixed_case_digits(digits: Seq<char>)
    requires
        digits.len() == 6,
        all_hex_digits(digits),
    ensures
        hex6_value(digits) matches Some(value) && ColorView::hex_str(digits)
            == ColorView::hex_literal(value),
        ColorView::hex_str(seq!['#'] + digits) == ColorView::hex_str(digits),
{
    assert(hex_digit(digits[0]) is Some);
    lemma_strip_hash_of_prefixed(digits);
    lemma_hex6_value_bytes(digits);
}

/// A second name gives the colour of the entry it stands for.
pub proof fn lemma_named_resolves_second_names(name: NamedColor)
    ensures
        ColorView::named(name) == ColorView::named(name.spec_canonical()),
        ColorView::named(name) == ColorView::from_rgb24(name.spec_value()),
{
}

/// The nine second names of the palette and the entries they stand for.
pub proof fn lemma_second_names()
    ensures
        ColorView::named(NamedColor::Aqua) == ColorView::named(NamedColor::Cyan),
        ColorView::named(NamedColor::DarkGrey) == ColorView::named(NamedColor::DarkGray),
        ColorView::named(NamedColor::DarkSlateGrey) == ColorView::named(
            NamedColor::DarkSlateGray,
        ),
        ColorView::named(NamedColor::DimGrey) == ColorView::named(NamedColor::DimGray),
        ColorView::named(NamedColor::Fuchsia) == ColorView::named(NamedColor::Magenta),
        ColorView::named(NamedColor::Grey) == ColorView::named(NamedColor::Gray),
        ColorView::named(NamedColor::LightGrey) == ColorView::named(NamedColor::LightGray),
        ColorView::named(NamedColor::LightSlateGrey) == ColorView::named(
            NamedColor::LightSlateGray,
        ),
        ColorView::named(NamedColor::SlateGrey) == ColorView::named(NamedColor::SlateGray),
{
}

/// Input that is no colour gives the default colour: a number that does not
/// fit in 24 bits, text of the wrong length, and six characters that are
/// not all digits.
pub proof fn lemma_malformed_input_is_default(value: u32, text: Seq<char>)
    ensures
        value > 0xFF_FFFF ==> ColorView::hex_literal(value) == ColorView::opaque_black(),
        strip_hash(text).len() != 6 ==> ColorView::hex_str(text) == ColorView::opaque_black(),
        !all_hex_digits(strip_hash(text)) ==> ColorView::hex_str(text)
            == ColorView::opaque_black(),
{
}

/// The default colour is black with the opacity 1.0.
pub proof fn lemma_default_is_opaque_black()
    ensures
        ColorView::opaque_black() == ColorView::rgba(0, 0, 0, ONE_BITS),
        ColorView::opaque_black() == (ColorView { red: 0, green: 0, blue: 0, alpha: ONE_BITS }),
{
}

/// Equality of colours is reflexive, symmetric and transitive, and two
/// colours with the same channels and opacity bits are equal.
pub proof fn lemma_equality(a: ColorView, b: ColorView, c: ColorView)
    requires
        a.wf(),
        b.wf(),
        c.wf(),
    ensures
        a.equals(a),
        a.equals(b) == b.equals(a),
        a.equals(b) && b.equals(c) ==> a.equals(c),
        a == b ==> a.equals(b),
{
}

} // verus!
