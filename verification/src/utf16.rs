//! UTF-16, the encoding in which a keyboard event carries its text.
use vstd::prelude::*;

verus! {

/// The code units of one character: the character's number itself where it
/// is below 0x10000, else a high surrogate followed by a low surrogate, which
/// carry the upper and the lower ten bits of the number less 0x10000.
pub open spec fn utf16_units(c: char) -> Seq<u16> {
    let v = c as u32;
    if v < 0x10000 {
        seq![v as u16]
    } else {
        seq![(0xD800 + (v - 0x10000) / 0x400) as u16, (0xDC00 + (v - 0x10000) % 0x400) as u16]
    }
}

/// The code units of a text: those of its characters, in order.
pub open spec fn utf16_encode(text: Seq<char>) -> Seq<u16>
    decreases text.len(),
{
    if text.len() == 0 {
        Seq::empty()
    } else {
        utf16_encode(text.drop_last()) + utf16_units(text.last())
    }
}

/// A text of `n` characters has at least `n` and at most `2 n` code units.
pub proof fn lemma_utf16_len(text: Seq<char>)
    ensures
        text.len() <= utf16_encode(text).len() <= 2 * text.len(),
    decreases text.len(),
{
    if text.len() > 0 {
        lemma_utf16_len(text.drop_last());
    }
}

/// The code units of two texts joined are those of the first followed by
/// those of the second.
pub proof fn lemma_utf16_concat(a: Seq<char>, b: Seq<char>)
    ensures
        utf16_encode(a + b) == utf16_encode(a) + utf16_encode(b),
    decreases b.len(),
{
    if b.len() == 0 {
        assert(a + b =~= a);
        assert(utf16_encode(a) + utf16_encode(b) =~= utf16_encode(a));
    } else {
        lemma_utf16_concat(a, b.drop_last());
        assert((a + b).drop_last() =~= a + b.drop_last());
        assert((a + b).last() == b.last());
        assert(utf16_encode(a) + (utf16_encode(b.drop_last()) + utf16_units(b.last())) =~= (
        utf16_encode(a) + utf16_encode(b.drop_last())) + utf16_units(b.last()));
    }
}

/// Appends the code units of `c` to `units`.
pub fn push_utf16(units: &mut Vec<u16>, c: char)
    ensures
        final(units)@ == old(units)@ + utf16_units(c),
{
    let v: u32 = c as u32;
    if v < 0x10000 {
        units.push(v as u16);
    } else {
        let w: u32 = v - 0x10000;
        units.push((0xD800 + w / 0x400) as u16);
        units.push((0xDC00 + w % 0x400) as u16);
    }
    assert(units@ =~= old(units)@ + utf16_units(c));
}

/// Encodes `text` as UTF-16.
pub fn encode_utf16(text: &str) -> (units: Vec<u16>)
    ensures
        units@ == utf16_encode(text@),
        text@.len() <= units@.len() <= 2 * text@.len(),
{
    let mut units: Vec<u16> = Vec::new();
    for c in it: text.chars()
        invariant
            it.seq() == text@,
            units@ == utf16_encode(text@.take(it.index() as int)),
    {
        push_utf16(&mut units, c);
        proof {
            let next = text@.take(it.index() + 1);
            assert(next.drop_last() =~= text@.take(it.index() as int));
            assert(next.last() == c);
        }
    }
    proof {
        assert(text@.take(text@.len() as int) =~= text@);
        lemma_utf16_len(text@);
    }
    units
}

} // verus!
