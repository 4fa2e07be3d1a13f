//! Wide (UTF-16) strings, as the Win32 interface takes and gives them.

use vstd::prelude::*;

verus! {

/// `String::push` appends the character to the string.
pub assume_specification[ String::push ](string: &mut String, ch: char)
    ensures
        final(string)@ == old(string)@.push(ch),
;

/// Whether `value` is a Unicode scalar value: a code point that is not a
/// surrogate.
pub open spec fn is_scalar(value: u32) -> bool {
    value < 0xd800 || 0xe000 <= value <= 0x10ffff
}

/// `char::from_u32` gives the character with that scalar value, and `None`
/// where the number is no scalar value.
pub assume_specification[ char::from_u32 ](i: u32) -> (c: Option<char>)
    ensures
        match c {
            Some(ch) => is_scalar(i) && ch == i as char,
            None => !is_scalar(i),
        },
;

/// Whether `unit` is the first half of a surrogate pair.
pub open spec fn is_high_surrogate(unit: u16) -> bool {
    0xd800 <= unit < 0xdc00
}

/// Whether `unit` is the second half of a surrogate pair.
pub open spec fn is_low_surrogate(unit: u16) -> bool {
    0xdc00 <= unit < 0xe000
}

/// The code units of one character.
pub open spec fn char_units(c: char) -> Seq<u16> {
    let value = c as u32;
    if value < 0x10000 {
        seq![value as u16]
    } else {
        seq![
            (0xd800 + (value - 0x10000) / 0x400) as u16,
            (0xdc00 + (value - 0x10000) % 0x400) as u16,
        ]
    }
}

/// The UTF-16 encoding of a text.
pub open spec fn utf16(text: Seq<char>) -> Seq<u16>
    decreases text.len(),
{
    if text.len() == 0 {
        seq![]
    } else {
        char_units(text[0]) + utf16(text.skip(1))
    }
}

/// The character that a surrogate pair stands for.
pub open spec fn pair_char(high: u16, low: u16) -> char {
    (0x10000 + (high - 0xd800) * 0x400 + (low - 0xdc00)) as char
}

/// The text that a sequence of code units stands for, with U+FFFD for each
/// surrogate that is not part of a pair.
pub open spec fn utf16_lossy(units: Seq<u16>) -> Seq<char>
    decreases units.len(),
{
    if units.len() == 0 {
        seq![]
    } else if !is_high_surrogate(units[0]) && !is_low_surrogate(units[0]) {
        seq![units[0] as char] + utf16_lossy(units.skip(1))
    } else if is_high_surrogate(units[0]) && units.len() > 1 && is_low_surrogate(units[1]) {
        seq![pair_char(units[0], units[1])] + utf16_lossy(units.skip(2))
    } else {
        seq!['\u{fffd}'] + utf16_lossy(units.skip(1))
    }
}

/// The null-terminated UTF-16 encoding of a string.
pub fn to_wide(text: &str) -> (wide: Vec<u16>)
    ensures
        wide@ == utf16(text@).push(0),
{
    let mut wide: Vec<u16> = Vec::new();
    assert(text@.skip(0) =~= text@);
    for c in chars: text.chars()
        invariant
            chars.seq() == text@,
            utf16(text@) == wide@ + utf16(text@.skip(chars.index() as int)),
    {
        let value: u32 = c as u32;
        let ghost rest = text@.skip(chars.index() as int);
        let ghost before = wide@;
        assert(rest[0] == c);
        assert(rest.skip(1) =~= text@.skip(chars.index() + 1));
        if value < 0x10000 {
            wide.push(value as u16);
        } else {
            let offset: u32 = value - 0x10000;
            wide.push((0xd800 + offset / 0x400) as u16);
            wide.push((0xdc00 + offset % 0x400) as u16);
        }
        assert(wide@ =~= before + char_units(c));
        assert(before + utf16(rest) =~= wide@ + utf16(rest.skip(1)));
    }
    assert(text@.skip(text@.len() as int) =~= Seq::<char>::empty());
    assert(wide@ + Seq::<u16>::empty() =~= wide@);
    wide.push(0);
    wide
}

/// Decode UTF-16, with U+FFFD in place of each unpaired surrogate.
pub fn from_utf16_lossy(units: &[u16]) -> (text: String)
    ensures
        text@ == utf16_lossy(units@),
{
    let mut text = String::new();
    let mut next: usize = 0;
    assert(units@.skip(0) =~= units@);
    while next < units.len()
        invariant
            next <= units@.len(),
            utf16_lossy(units@) == text@ + utf16_lossy(units@.skip(next as int)),
        decreases units@.len() - next,
    {
        let unit: u16 = units[next];
        let ghost before = text@;
        let ghost rest = units@.skip(next as int);
        let mut value: u32 = 0xfffd;
        let mut taken: usize = 1;
        if unit < 0xd800 || unit >= 0xe000 {
            value = unit as u32;
        } else if unit < 0xdc00 && next + 1 < units.len() {
            let low: u16 = units[next + 1];
            if 0xdc00 <= low && low < 0xe000 {
                value = 0x10000 + (unit - 0xd800) as u32 * 0x400 + (low - 0xdc00) as u32;
                taken = 2;
            }
        }
        if let Some(c) = char::from_u32(value) {
            text.push(c);
            assert(rest.skip(taken as int) =~= units@.skip(next + taken));
            assert(utf16_lossy(rest) =~= seq![c] + utf16_lossy(rest.skip(taken as int)));
            assert(before + utf16_lossy(rest) =~= text@ + utf16_lossy(rest.skip(taken as int)));
        }
        next = next + taken;
    }
    assert(units@.skip(next as int) =~= Seq::<u16>::empty());
    assert(text@ + Seq::<char>::empty() =~= text@);
    text
}

/// Decoding takes the code units of one character off the front.
proof fn lemma_decode_first_char(c: char, rest: Seq<u16>)
    ensures
        utf16_lossy(char_units(c) + rest) == seq![c] + utf16_lossy(rest),
{
    let units = char_units(c) + rest;
    let value = c as u32;
    if value < 0x10000 {
        assert(units.skip(1) =~= rest);
    } else {
        assert(units.skip(2) =~= rest);
    }
}

/// Decoding undoes encoding, for every text.
pub proof fn decoding_undoes_encoding(text: Seq<char>)
    ensures
        utf16_lossy(utf16(text)) == text,
    decreases text.len(),
{
    if text.len() > 0 {
        decoding_undoes_encoding(text.skip(1));
        lemma_decode_first_char(text[0], utf16(text.skip(1)));
        assert(seq![text[0]] + text.skip(1) =~= text);
    }
}

} // verus!
