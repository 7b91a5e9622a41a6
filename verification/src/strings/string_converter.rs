//! The decoding that the text of all generations shares.

use crate::reader::{le_u16, u16_from_le};
use vstd::prelude::*;

verus! {

/// `char::from_u32` gives the character with the given code, and nothing for
/// a code that is a surrogate or lies above 0x10FFFF.
pub assume_specification[ char::from_u32 ](code: u32) -> (chr: Option<char>)
    ensures
        code <= 0xD7FF || 0xE000 <= code <= 0x10FFFF ==> chr == Some(code as char),
        !(code <= 0xD7FF || 0xE000 <= code <= 0x10FFFF) ==> chr is None,
;

/// `String::push` appends one character to the end of the string.
pub assume_specification[ String::push ](text: &mut String, chr: char)
    ensures
        final(text)@ == old(text)@.push(chr),
;

/// A character with the gender signs of the private use area and of the
/// enclosed numbers replaced by the female and the male sign.
pub open spec fn sanitized(chr: char) -> char {
    if chr == '\u{E08F}' || chr == '\u{246E}' {
        '\u{2640}'
    } else if chr == '\u{E08E}' || chr == '\u{246D}' {
        '\u{2642}'
    } else {
        chr
    }
}

/// The 16-bit code units that `data` holds in little-endian order. A last
/// byte without a partner does not count.
pub open spec fn units_of(data: Seq<u8>) -> Seq<u16> {
    Seq::new(data.len() / 2, |k: int| le_u16(data[2 * k], data[2 * k + 1]))
}

/// Whether a code unit is the first of a surrogate pair.
pub open spec fn is_high_surrogate(unit: u16) -> bool {
    0xD800 <= unit <= 0xDBFF
}

/// Whether a code unit is the second of a surrogate pair.
pub open spec fn is_low_surrogate(unit: u16) -> bool {
    0xDC00 <= unit <= 0xDFFF
}

/// The character that a surrogate pair stands for.
pub open spec fn paired(high: u16, low: u16) -> char {
    (0x1_0000 + (high - 0xD800) * 0x400 + (low - 0xDC00)) as char
}

/// The text that the code units from `at` on stand for, as UTF-16: up to the
/// first zero unit, without the surrogates that have no partner, and with
/// each character sanitized where `sanitize` is set.
pub open spec fn decoded_from(units: Seq<u16>, at: int, sanitize: bool) -> Seq<char>
    decreases units.len() - at,
{
    if at < 0 || at >= units.len() {
        Seq::empty()
    } else if !is_high_surrogate(units[at]) && !is_low_surrogate(units[at]) {
        if units[at] == 0 {
            Seq::empty()
        } else {
            let chr = units[at] as char;
            seq![if sanitize { sanitized(chr) } else { chr }] + decoded_from(
                units,
                at + 1,
                sanitize,
            )
        }
    } else if is_high_surrogate(units[at]) && at + 1 < units.len() && is_low_surrogate(
        units[at + 1],
    ) {
        let chr = paired(units[at], units[at + 1]);
        seq![if sanitize { sanitized(chr) } else { chr }] + decoded_from(units, at + 2, sanitize)
    } else {
        decoded_from(units, at + 1, sanitize)
    }
}

/// The text that `data` holds.
pub open spec fn text_of(data: Seq<u8>, sanitize: bool) -> Seq<char> {
    decoded_from(units_of(data), 0, sanitize)
}

/// Replaces the gender signs of the private use area and of the enclosed
/// numbers by the female and the male sign.
pub fn sanitize_char(chr: char) -> (clean: char)
    ensures
        clean == sanitized(chr),
{
    match chr {
        '\u{E08F}' => '\u{2640}',
        '\u{E08E}' => '\u{2642}',
        '\u{246E}' => '\u{2640}',
        '\u{246D}' => '\u{2642}',
        _ => chr,
    }
}

/// Decodes the UTF-16 text that `data` holds in little-endian order.
pub fn decode(data: &[u8], sanitize: bool) -> (text: String)
    ensures
        text@ == text_of(data@, sanitize),
{
    let count: usize = data.len() / 2;
    let ghost units = units_of(data@);
    let mut text: String = String::new();
    let mut i: usize = 0;
    while i < count
        invariant
            count == data@.len() / 2,
            data@.len() <= usize::MAX,
            units == units_of(data@),
            i <= count,
            text@ + decoded_from(units, i as int, sanitize) == decoded_from(units, 0, sanitize),
        decreases count - i,
    {
        let unit: u16 = u16_from_le(data[2 * i], data[2 * i + 1]);
        assert(unit == units[i as int]);
        if unit < 0xD800 || unit > 0xDFFF {
            if unit == 0 {
                assert(decoded_from(units, i as int, sanitize) =~= Seq::empty());
                assert(text@ =~= text@ + Seq::<char>::empty());
                return text;
            }
            let ghost before = text@;
            match char::from_u32(unit as u32) {
                Some(chr) => {
                    let chr: char = if sanitize {
                        sanitize_char(chr)
                    } else {
                        chr
                    };
                    text.push(chr);
                    assert(text@ + decoded_from(units, i + 1, sanitize) =~= before + (seq![chr]
                        + decoded_from(units, i + 1, sanitize)));
                },
                None => {},
            }
            i += 1;
        } else if unit <= 0xDBFF && i + 1 < count {
            let next: u16 = u16_from_le(data[2 * i + 2], data[2 * i + 3]);
            assert(next == units[i + 1]);
            if 0xDC00 <= next && next <= 0xDFFF {
                let code: u32 = 0x1_0000 + (unit as u32 - 0xD800) * 0x400 + (next as u32 - 0xDC00);
                let ghost before = text@;
                match char::from_u32(code) {
                    Some(chr) => {
                        let chr: char = if sanitize {
                            sanitize_char(chr)
                        } else {
                            chr
                        };
                        text.push(chr);
                        assert(text@ + decoded_from(units, i + 2, sanitize) =~= before + (
                        seq![chr] + decoded_from(units, i + 2, sanitize)));
                    },
                    None => {},
                }
                i += 2;
            } else {
                i += 1;
            }
        } else {
            i += 1;
        }
    }
    assert(decoded_from(units, i as int, sanitize) =~= Seq::empty());
    assert(text@ =~= text@ + Seq::<char>::empty());
    text
}

} // verus!
