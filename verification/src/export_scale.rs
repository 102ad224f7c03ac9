//! Reporting page-local positions in a coordinate space of another size:
//! the user may ask for positions as they would be on a page of a given
//! maximum width and height, written as whole decimal numbers.

use crate::geometry::{LocalPos, PageSize};
use vstd::prelude::*;
use vstd::string::is_ascii_spec_bytes;

verus! {

/// A position in the coordinate space that the user asked for.
#[derive(Clone, Copy, Debug, PartialEq, Eq, Structural)]
pub struct ExportPos {
    pub x: u64,
    pub y: u64,
}

/// A scale factor as a fraction. It is 1 where both parts are equal.
#[derive(Clone, Copy, Debug, PartialEq, Eq, Structural)]
pub struct ScaleFactor {
    pub numerator: u32,
    pub denominator: u32,
}

pub open spec fn is_digit(c: char) -> bool {
    '0' <= c <= '9'
}

/// The value of a decimal digit; 0 for any other character.
pub open spec fn digit_value(c: char) -> nat {
    if is_digit(c) {
        (c as u32 - '0' as u32) as nat
    } else {
        0
    }
}

pub open spec fn all_digits(text: Seq<char>) -> bool {
    forall|i: int| 0 <= i < text.len() ==> is_digit(#[trigger] text[i])
}

/// The number that a sequence of decimal digits writes.
pub open spec fn decimal_value(text: Seq<char>) -> nat
    decreases text.len(),
{
    if text.len() == 0 {
        0
    } else {
        decimal_value(text.drop_last()) * 10 + digit_value(text.last())
    }
}

/// The size that a text field holds: the text has to be one or more
/// decimal digits and nothing else, and the number has to fit in 32 bits.
/// Any other text, the empty one too, holds no size.
pub open spec fn parsed_max_size(text: Seq<char>) -> Option<u32> {
    if text.len() > 0 && all_digits(text) && decimal_value(text) <= u32::MAX {
        Some(decimal_value(text) as u32)
    } else {
        None
    }
}

/// The size to scale to: the one that `text` holds, or the page's own
/// where it holds none.
pub open spec fn export_max(text: Seq<char>, native: u32) -> u32 {
    match parsed_max_size(text) {
        Some(max) => max,
        None => native,
    }
}

/// An offset on a side of length `native`, as it is on a side of length
/// `max`; a fraction of a pixel is dropped.
pub open spec fn scaled(offset: u32, max: u32, native: u32) -> int {
    offset as int * max as int / native as int
}

/// A page-local position on a page of the given native size, in the
/// coordinate space that the two text fields ask for.
pub open spec fn export_pos(
    local: LocalPos,
    native_width: u32,
    native_height: u32,
    max_width: Seq<char>,
    max_height: Seq<char>,
) -> ExportPos {
    ExportPos {
        x: scaled(local.x, export_max(max_width, native_width), native_width) as u64,
        y: scaled(local.y, export_max(max_height, native_height), native_height) as u64,
    }
}

proof fn lemma_decimal_value_of_prefix(text: Seq<char>, len: int)
    requires
        0 <= len <= text.len(),
    ensures
        decimal_value(text.take(len)) <= decimal_value(text),
    decreases text.len(),
{
    if len == text.len() {
        assert(text.take(len) =~= text);
    } else {
        assert(text.drop_last().take(len) =~= text.take(len));
        lemma_decimal_value_of_prefix(text.drop_last(), len);
    }
}

/// Reads the size that a text field holds.
pub fn parse_max_size(text: &str) -> (size: Option<u32>)
    ensures
        size == parsed_max_size(text@),
{
    if !text.is_ascii() {
        proof {
            let i = choose|i: int|
                0 <= i < text@.len() && !('\0' <= #[trigger] text@[i] <= '\u{7f}');
            assert(!is_digit(text@[i]));
        }
        return None;
    }
    let bytes = text.as_bytes();
    proof {
        is_ascii_spec_bytes(text);
    }
    let len: usize = bytes.len();
    if len == 0 {
        return None;
    }
    let mut value: u32 = 0;
    let mut i: usize = 0;
    while i < len
        invariant
            i <= len,
            len == text@.len(),
            bytes@.len() == len,
            forall|j: int| 0 <= j < len ==> bytes@[j] == text@[j] as u8,
            forall|j: int| 0 <= j < len ==> '\0' <= #[trigger] text@[j] <= '\u{7f}',
            all_digits(text@.take(i as int)),
            value == decimal_value(text@.take(i as int)),
        decreases len - i,
    {
        let byte: u8 = bytes[i];
        let ghost c = text@[i as int];
        assert(byte == c as u8);
        assert('\0' <= c <= '\u{7f}');
        if byte < 48 || byte > 57 {
            assert(!is_digit(c));
            return None;
        }
        let digit: u32 = (byte - 48) as u32;
        proof {
            assert(is_digit(c));
            assert(digit == digit_value(c));
            assert(text@.take(i + 1).drop_last() =~= text@.take(i as int));
            assert(text@.take(i + 1).last() == c);
            assert(all_digits(text@.take(i + 1))) by {
                assert forall|j: int| 0 <= j < i + 1 implies is_digit(
                    #[trigger] text@.take(i + 1)[j],
                ) by {
                    if j < i {
                        assert(text@.take(i as int)[j] == text@[j]);
                    }
                }
            }
        }
        if value > (u32::MAX - digit) / 10 {
            proof {
                lemma_decimal_value_of_prefix(text@, i + 1);
            }
            return None;
        }
        value = value * 10 + digit;
        i += 1;
    }
    assert(text@.take(len as int) =~= text@);
    Some(value)
}

/// The factor by which offsets along a side of length `native` are
/// scaled: the size that `max` holds over the native size, or 1 where `max`
/// holds none.
pub fn scale_factor(native: u32, max: &str) -> (factor: ScaleFactor)
    ensures
        factor.numerator == export_max(max@, native),
        factor.denominator == native,
        parsed_max_size(max@) is None ==> factor.numerator == factor.denominator,
{
    let numerator = match parse_max_size(max) {
        Some(size) => size,
        None => native,
    };
    ScaleFactor { numerator, denominator: native }
}

/// Applies a scale factor to an offset; a fraction of a pixel is dropped.
fn apply_scale(offset: u32, factor: ScaleFactor) -> (scaled_offset: u64)
    requires
        factor.denominator > 0,
    ensures
        scaled_offset == scaled(offset, factor.numerator, factor.denominator),
        factor.numerator == factor.denominator ==> scaled_offset == offset,
{
    assert(offset as int * factor.numerator as int <= 0xFFFF_FFFF * 0xFFFF_FFFF)
        by (nonlinear_arith)
        requires
            0 <= offset <= 0xFFFF_FFFF,
            0 <= factor.numerator <= 0xFFFF_FFFF,
    ;
    proof {
        if factor.numerator == factor.denominator {
            lemma_scaled_by_one(offset, factor.denominator);
        }
    }
    (offset as u64 * factor.numerator as u64) / (factor.denominator as u64)
}

proof fn lemma_scaled_by_one(offset: u32, native: u32)
    requires
        native > 0,
    ensures
        scaled(offset, native, native) == offset,
{
    assert(offset as int * native as int / native as int == offset as int) by (nonlinear_arith)
        requires
            native > 0,
    ;
}

/// Maps a page-local position into the coordinate space that the two text
/// fields ask for. Per axis the position is multiplied by the wanted size
/// over the page's own; a text that holds no size leaves its axis as it is.
pub fn to_export_scale(local: LocalPos, native: PageSize, max_width: &str, max_height: &str) -> (pos:
    ExportPos)
    ensures
        pos == export_pos(local, native.width(), native.height(), max_width@, max_height@),
        parsed_max_size(max_width@) is None ==> pos.x == local.x,
        parsed_max_size(max_height@) is None ==> pos.y == local.y,
{
    let width_fraction = scale_factor(native.width(), max_width);
    let height_fraction = scale_factor(native.height(), max_height);
    ExportPos {
        x: apply_scale(local.x, width_fraction),
        y: apply_scale(local.y, height_fraction),
    }
}

/// A text that holds no size, the empty text among them, gives a scale
/// factor of 1: positions pass through unchanged.
pub proof fn lemma_no_max_size_is_passthrough(
    local: LocalPos,
    native_width: u32,
    native_height: u32,
    max_width: Seq<char>,
    max_height: Seq<char>,
)
    requires
        native_width > 0,
        native_height > 0,
    ensures
        parsed_max_size(Seq::<char>::empty()) is None,
        parsed_max_size(max_width) is None ==> export_max(max_width, native_width) == native_width
            && export_pos(local, native_width, native_height, max_width, max_height).x == local.x,
        parsed_max_size(max_height) is None ==> export_max(max_height, native_height)
            == native_height && export_pos(
            local,
            native_width,
            native_height,
            max_width,
            max_height,
        ).y == local.y,
{
    lemma_scaled_by_one(local.x, native_width);
    lemma_scaled_by_one(local.y, native_height);
}

} // verus!
