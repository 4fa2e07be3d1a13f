//! What wide strings are, told from what the functions take and return.

use crate::abi::wide::{
    char_units, decoding_undoes_encoding, from_utf16_lossy, to_wide, utf16, utf16_lossy,
};
use vstd::prelude::*;

verus! {

proof fn lemma_utf16_of_both(a: Seq<char>, b: Seq<char>)
    ensures
        utf16(a + b) == utf16(a) + utf16(b),
    decreases a.len(),
{
    if a.len() == 0 {
        assert(a + b =~= b);
        assert(utf16(a) + utf16(b) =~= utf16(b));
    } else {
        lemma_utf16_of_both(a.skip(1), b);
        assert((a + b).skip(1) =~= a.skip(1) + b);
        assert(utf16(a + b) =~= utf16(a) + utf16(b));
    }
}

proof fn lemma_utf16_of_one(c: char)
    ensures
        utf16(seq![c]) == char_units(c),
{
    reveal_with_fuel(utf16, 2);
    assert(seq![c].skip(1) =~= Seq::<char>::empty());
    assert(utf16(seq![c]) =~= char_units(c));
}

/// A text of one character is encoded with the units that UTF-16 has for it
/// and a null: one unit up to U+FFFF, and behind it a pair of surrogates, the
/// high one first, that hold ten bits each.
pub proof fn one_character_is_one_unit_or_a_pair(c: char, text: &str, wide: Vec<u16>)
    requires
        call_ensures(to_wide, (text,), wide),
        text@ == seq![c],
    ensures
        (c as int) < 0x10000 ==> {
            &&& wide@.len() == 2
            &&& wide@[0] == c as int
            &&& wide@[1] == 0
        },
        (c as int) >= 0x10000 ==> {
            &&& wide@.len() == 3
            &&& 0xd800 <= wide@[0] < 0xdc00
            &&& 0xdc00 <= wide@[1] < 0xe000
            &&& c as int == 0x10000 + (wide@[0] - 0xd800) * 0x400 + (wide@[1] - 0xdc00)
            &&& wide@[2] == 0
        },
{
    lemma_utf16_of_one(c);
}

/// The encoding of two texts together is that of the first without its null
/// and that of the second; that of no text is the null alone.
pub proof fn texts_are_encoded_one_after_the_other(
    first: &str,
    second: &str,
    both: &str,
    first_wide: Vec<u16>,
    second_wide: Vec<u16>,
    both_wide: Vec<u16>,
)
    requires
        call_ensures(to_wide, (first,), first_wide),
        call_ensures(to_wide, (second,), second_wide),
        call_ensures(to_wide, (both,), both_wide),
        both@ == first@ + second@,
    ensures
        both_wide@ == first_wide@.drop_last() + second_wide@,
        first_wide@.len() > 0,
        first_wide@.last() == 0,
        first@.len() == 0 ==> first_wide@ == seq![0u16],
{
    lemma_utf16_of_both(first@, second@);
    assert(first_wide@.drop_last() =~= utf16(first@));
    assert(both_wide@ =~= first_wide@.drop_last() + second_wide@);
}

proof fn lemma_basic_char_units(c: char)
    requires
        (c as int) < 0x10000,
    ensures
        char_units(c).len() == 1,
        char_units(c)[0] == c as int,
{
}

proof fn lemma_utf16_of_basic_text(text: Seq<char>)
    requires
        forall|i: int| 0 <= i < text.len() ==> (#[trigger] text[i] as int) < 0x10000,
    ensures
        utf16(text).len() == text.len(),
        forall|i: int| 0 <= i < text.len() ==> #[trigger] utf16(text)[i] == text[i] as int,
    decreases text.len(),
{
    if text.len() > 0 {
        assert forall|i: int| 0 <= i < text.skip(1).len() implies (#[trigger] text.skip(
            1,
        )[i] as int) < 0x10000 by {
            assert(text.skip(1)[i] == text[i + 1]);
        }
        lemma_utf16_of_basic_text(text.skip(1));
        assert((text[0] as int) < 0x10000);
        let units = char_units(text[0]);
        let rest = utf16(text.skip(1));
        lemma_basic_char_units(text[0]);
        assert(utf16(text) == units + rest);
        assert forall|i: int| 0 <= i < text.len() implies #[trigger] utf16(text)[i]
            == text[i] as int by {
            assert((units + rest)[i] == if i == 0 {
                units[0]
            } else {
                rest[i - 1]
            });
            if i > 0 {
                assert(text.skip(1)[i - 1] == text[i]);
            }
        }
    }
}

/// A text without characters behind U+FFFF is encoded unit for character,
/// with a null behind them.
pub proof fn basic_texts_are_encoded_unit_for_character(text: &str, wide: Vec<u16>)
    requires
        call_ensures(to_wide, (text,), wide),
        forall|i: int| 0 <= i < text@.len() ==> (#[trigger] text@[i] as int) < 0x10000,
    ensures
        wide@.len() == text@.len() + 1,
        forall|i: int| 0 <= i < text@.len() ==> #[trigger] wide@[i] == text@[i] as int,
        wide@[text@.len() as int] == 0,
{
    lemma_utf16_of_basic_text(text@);
}

/// A text that is encoded and decoded, without its null, is as it was.
pub proof fn encoded_texts_are_read_back(
    text: &str,
    wide: Vec<u16>,
    units: &[u16],
    back: String,
)
    requires
        call_ensures(to_wide, (text,), wide),
        units@ == wide@.drop_last(),
        call_ensures(from_utf16_lossy, (units,), back),
    ensures
        back@ == text@,
{
    assert(wide@.drop_last() =~= utf16(text@));
    decoding_undoes_encoding(text@);
}

/// Two texts with the same encoding are the same.
pub proof fn encodings_identify_texts(a: &str, b: &str, a_wide: Vec<u16>, b_wide: Vec<u16>)
    requires
        call_ensures(to_wide, (a,), a_wide),
        call_ensures(to_wide, (b,), b_wide),
        a_wide@ == b_wide@,
    ensures
        a@ == b@,
{
    assert(a_wide@.drop_last() =~= utf16(a@));
    assert(b_wide@.drop_last() =~= utf16(b@));
    decoding_undoes_encoding(a@);
    decoding_undoes_encoding(b@);
}

/// A unit that is no surrogate is the character with its value; a high
/// surrogate with a low one behind it is one character; and any other
/// surrogate is U+FFFD.
pub proof fn units_are_characters(units: &[u16], text: String)
    requires
        call_ensures(from_utf16_lossy, (units,), text),
    ensures
        units@.len() == 0 ==> text@.len() == 0,
        units@.len() == 1 && (units@[0] < 0xd800 || units@[0] >= 0xe000) ==> text@.len() == 1
            && text@[0] as int == units@[0],
        units@.len() == 1 && 0xd800 <= units@[0] < 0xe000 ==> text@ == seq!['\u{fffd}'],
        units@.len() == 2 && 0xd800 <= units@[0] < 0xdc00 && 0xdc00 <= units@[1] < 0xe000
            ==> text@.len() == 1 && text@[0] as int == 0x10000 + (units@[0] - 0xd800) * 0x400 + (
        units@[1] - 0xdc00),
{
    reveal_with_fuel(utf16_lossy, 3);
    if units@.len() > 0 {
        assert(units@.skip(1).len() == units@.len() - 1);
    }
    if units@.len() == 2 {
        assert(units@.skip(2) =~= Seq::<u16>::empty());
    }
}

proof fn lemma_utf16_lossy_of_both(a: Seq<u16>, b: Seq<u16>)
    requires
        a.len() == 0 || b.len() == 0 || !(0xd800 <= a.last() < 0xdc00) || !(0xdc00 <= b[0]
            < 0xe000),
    ensures
        utf16_lossy(a + b) == utf16_lossy(a) + utf16_lossy(b),
    decreases a.len(),
{
    if a.len() == 0 {
        assert(a + b =~= b);
        assert(utf16_lossy(a) + utf16_lossy(b) =~= utf16_lossy(b));
    } else {
        lemma_utf16_lossy_of_both(a.skip(1), b);
        assert((a + b).skip(1) =~= a.skip(1) + b);
        if a.len() > 1 {
            lemma_utf16_lossy_of_both(a.skip(2), b);
            assert((a + b).skip(2) =~= a.skip(2) + b);
        }
        assert(utf16_lossy(a + b) =~= utf16_lossy(a) + utf16_lossy(b));
    }
}

/// Units are decoded one after the other: what stands before a place that
/// parts no pair of surrogates is decoded by itself, and so is what stands
/// behind it.
pub proof fn units_are_decoded_one_after_the_other(
    first: &[u16],
    second: &[u16],
    both: &[u16],
    first_text: String,
    second_text: String,
    both_text: String,
)
    requires
        call_ensures(from_utf16_lossy, (first,), first_text),
        call_ensures(from_utf16_lossy, (second,), second_text),
        call_ensures(from_utf16_lossy, (both,), both_text),
        both@ == first@ + second@,
        first@.len() > 0 && second@.len() > 0 && 0xd800 <= first@.last() < 0xdc00 ==> !(0xdc00
            <= second@[0] < 0xe000),
    ensures
        both_text@ == first_text@ + second_text@,
{
    lemma_utf16_lossy_of_both(first@, second@);
}

} // verus!
