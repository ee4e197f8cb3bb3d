//! Six-digit hexadecimal colour notation: `RRGGBB`, with or without a
//! leading `#`.
use vstd::prelude::*;

verus! {

/// The value of a hexadecimal digit, in either case; `None` for any other
/// character.
pub open spec fn hex_digit(c: char) -> Option<u8> {
    if '0' <= c <= '9' {
        Some((c as u32 - '0' as u32) as u8)
    } else if 'A' <= c <= 'F' {
        Some((c as u32 - 'A' as u32 + 10) as u8)
    } else if 'a' <= c <= 'f' {
        Some((c as u32 - 'a' as u32 + 10) as u8)
    } else {
        None
    }
}

/// Whether `c` is a decimal digit or one of the capitals `A` to `F`.
pub open spec fn is_upper_hex_digit(c: char) -> bool {
    '0' <= c <= '9' || 'A' <= c <= 'F'
}

/// `text` without its first character, if that is a `#`; else `text`.
pub open spec fn strip_hash(text: Seq<char>) -> Seq<char> {
    if text.len() > 0 && text[0] == '#' {
        text.subrange(1, text.len() as int)
    } else {
        text
    }
}

/// Whether `digits` is made of hexadecimal digits only.
pub open spec fn all_hex_digits(digits: Seq<char>) -> bool {
    forall|i: int| 0 <= i < digits.len() ==> (#[trigger] hex_digit(digits[i])) is Some
}

/// The number that `digits` spells in base 16, most significant digit
/// first, where `digits` is six hexadecimal digits; `None` for any other
/// text.
pub open spec fn hex6_value(digits: Seq<char>) -> Option<u32> {
    if digits.len() == 6 && all_hex_digits(digits) {
        Some(
            (0x10_0000 * hex_digit(digits[0])->0 + 0x1_0000 * hex_digit(digits[1])->0 + 0x1000
                * hex_digit(digits[2])->0 + 0x100 * hex_digit(digits[3])->0 + 0x10 * hex_digit(
                digits[4],
            )->0 + hex_digit(digits[5])->0) as u32,
        )
    } else {
        None
    }
}

/// The number that the first `n` characters of `digits` spell in base 16.
spec fn hex_prefix_value(digits: Seq<char>, n: nat) -> nat
    decreases n,
{
    if n == 0 {
        0
    } else {
        16 * hex_prefix_value(digits, (n - 1) as nat) + hex_digit(digits[n - 1])->0 as nat
    }
}

/// `n` digits spell a number below 16^n.
proof fn lemma_hex_prefix_bound(digits: Seq<char>, n: nat)
    requires
        n <= digits.len(),
        n <= 6,
        all_hex_prefix(digits, n),
    ensures
        n == 0 ==> hex_prefix_value(digits, n) == 0,
        n == 1 ==> hex_prefix_value(digits, n) < 0x10,
        n == 2 ==> hex_prefix_value(digits, n) < 0x100,
        n == 3 ==> hex_prefix_value(digits, n) < 0x1000,
        n == 4 ==> hex_prefix_value(digits, n) < 0x1_0000,
        n == 5 ==> hex_prefix_value(digits, n) < 0x10_0000,
        n == 6 ==> hex_prefix_value(digits, n) < 0x100_0000,
    decreases n,
{
    if n > 0 {
        lemma_hex_prefix_bound(digits, (n - 1) as nat);
        assert(hex_digit(digits[n - 1]) is Some);
    }
}

/// Whether the first `n` characters of `digits` are hexadecimal digits.
spec fn all_hex_prefix(digits: Seq<char>, n: nat) -> bool {
    forall|k: int| 0 <= k < n ==> (#[trigger] hex_digit(digits[k])) is Some
}

/// Reads one hexadecimal digit.
pub fn hex_digit_value(c: char) -> (digit: Option<u8>)
    ensures
        digit == hex_digit(c),
        digit matches Some(d) ==> d < 16,
{
    if '0' <= c && c <= '9' {
        Some((c as u32 - '0' as u32) as u8)
    } else if 'A' <= c && c <= 'F' {
        Some((c as u32 - 'A' as u32 + 10) as u8)
    } else if 'a' <= c && c <= 'f' {
        Some((c as u32 - 'a' as u32 + 10) as u8)
    } else {
        None
    }
}

/// Drops one leading `#`, if there is one.
pub fn strip_hash_prefix(text: &str) -> (rest: &str)
    ensures
        rest@ == strip_hash(text@),
{
    let len = text.unicode_len();
    if len > 0 && text.get_char(0) == '#' {
        text.substring_char(1, len)
    } else {
        text
    }
}

/// Reads six hexadecimal digits as one number. Text that is not exactly six
/// digits is no number.
pub fn parse_hex6(text: &str) -> (value: Option<u32>)
    ensures
        value == hex6_value(text@),
        value matches Some(v) ==> v <= 0xFF_FFFF,
{
    if text.unicode_len() != 6 {
        return None;
    }
    let mut value: u32 = 0;
    let mut i: usize = 0;
    while i < 6
        invariant
            i <= 6,
            text@.len() == 6,
            all_hex_prefix(text@, i as nat),
            value == hex_prefix_value(text@, i as nat),
            value < 0x100_0000,
            i < 6 ==> value < 0x10_0000,
        decreases 6 - i,
    {
        match hex_digit_value(text.get_char(i)) {
            Some(digit) => {
                value = 16 * value + digit as u32;
                i = i + 1;
                proof {
                    lemma_hex_prefix_bound(text@, i as nat);
                }
            },
            None => {
                assert(hex_digit(text@[i as int]) is None);
                return None;
            },
        }
    }
    proof {
        reveal_with_fuel(hex_prefix_value, 7);
    }
    Some(value)
}

/// Six hexadecimal digits spell a number that fits in 24 bits, and its
/// three bytes are the three pairs of digits.
pub proof fn lemma_hex6_value_bytes(digits: Seq<char>)
    requires
        digits.len() == 6,
        all_hex_digits(digits),
    ensures
        hex6_value(digits) matches Some(value) && {
            &&& value <= 0xFF_FFFF
            &&& value / 0x1_0000 == 16 * hex_digit(digits[0])->0 + hex_digit(digits[1])->0
            &&& (value / 0x100) % 0x100 == 16 * hex_digit(digits[2])->0 + hex_digit(digits[3])->0
            &&& value % 0x100 == 16 * hex_digit(digits[4])->0 + hex_digit(digits[5])->0
        },
{
    assert(hex_digit(digits[0]) is Some);
    assert(hex_digit(digits[1]) is Some);
    assert(hex_digit(digits[2]) is Some);
    assert(hex_digit(digits[3]) is Some);
    assert(hex_digit(digits[4]) is Some);
    assert(hex_digit(digits[5]) is Some);
    let d0: u32 = hex_digit(digits[0])->0 as u32;
    let d1: u32 = hex_digit(digits[1])->0 as u32;
    let d2: u32 = hex_digit(digits[2])->0 as u32;
    let d3: u32 = hex_digit(digits[3])->0 as u32;
    let d4: u32 = hex_digit(digits[4])->0 as u32;
    let d5: u32 = hex_digit(digits[5])->0 as u32;
    let value: u32 = (0x10_0000 * d0 + 0x1_0000 * d1 + 0x1000 * d2 + 0x100 * d3 + 0x10 * d4
        + d5) as u32;
    assert(hex6_value(digits) == Some(value));
    lemma_bytes_of_digits(d0, d1, d2, d3, d4, d5);
}

/// The bytes of a number written as six base-16 digits.
proof fn lemma_bytes_of_digits(d0: u32, d1: u32, d2: u32, d3: u32, d4: u32, d5: u32)
    by (bit_vector)
    requires
        d0 < 16,
        d1 < 16,
        d2 < 16,
        d3 < 16,
        d4 < 16,
        d5 < 16,
    ensures
        0x10_0000 * d0 + 0x1_0000 * d1 + 0x1000 * d2 + 0x100 * d3 + 0x10 * d4 + d5 <= 0xFF_FFFF,
        (0x10_0000 * d0 + 0x1_0000 * d1 + 0x1000 * d2 + 0x100 * d3 + 0x10 * d4 + d5) / 0x1_0000
            == 16 * d0 + d1,
        ((0x10_0000 * d0 + 0x1_0000 * d1 + 0x1000 * d2 + 0x100 * d3 + 0x10 * d4 + d5) / 0x100)
            % 0x100 == 16 * d2 + d3,
        (0x10_0000 * d0 + 0x1_0000 * d1 + 0x1000 * d2 + 0x100 * d3 + 0x10 * d4 + d5) % 0x100
            == 16 * d4 + d5,
{
}

/// A `#` put before a text is the one that is dropped, and a text that
/// starts with no `#` is left as it is.
pub proof fn lemma_strip_hash_of_prefixed(digits: Seq<char>)
    ensures
        strip_hash(seq!['#'] + digits) == digits,
        digits.len() == 0 || digits[0] != '#' ==> strip_hash(digits) == digits,
{
    assert((seq!['#'] + digits).subrange(1, (seq!['#'] + digits).len() as int) =~= digits);
}

/// Capitals and decimal digits are hexadecimal digits.
pub proof fn lemma_upper_hex_digits_are_hex(digits: Seq<char>)
    requires
        forall|i: int| 0 <= i < digits.len() ==> is_upper_hex_digit(#[trigger] digits[i]),
    ensures
        all_hex_digits(digits),
        digits.len() > 0 ==> digits[0] != '#',
{
    assert forall|i: int| 0 <= i < digits.len() implies (#[trigger] hex_digit(digits[i])) is Some by {
        assert(is_upper_hex_digit(digits[i]));
    }
    if digits.len() > 0 {
        assert(is_upper_hex_digit(digits[0]));
    }
}

} // verus!
