//! Terminated UTF-16 buffers as the platform hands them out and takes them in.
//!
//! The platform writes text into buffers of a fixed capacity and marks the end
//! of the text with a zero unit. The capacity says nothing about the text:
//! its length is found by looking for the terminator, and never beyond the
//! buffer's bound.

use vstd::prelude::*;
use vstd::slice::slice_subrange;
use vstd::utf8::{char_is_scalar, char_u32_cast};

verus! {

/// The unit that ends a text in a platform buffer.
pub const TERMINATOR: u16 = 0;

/// Length of the text at the start of `units`: the index of the first
/// terminator, or the whole length where `units` holds no terminator.
pub open spec fn logical_len(units: Seq<u16>) -> nat
    decreases units.len(),
{
    if units.len() == 0 || units[0] == TERMINATOR {
        0
    } else {
        1 + logical_len(units.drop_first())
    }
}

/// The text at the start of `units`, without its terminator.
pub open spec fn logical_text(units: Seq<u16>) -> Seq<u16> {
    units.subrange(0, logical_len(units) as int)
}

/// `logical_len` stays within the buffer, passes no terminator and stops at
/// one unless the buffer ends first.
pub proof fn lemma_logical_len_bounds(units: Seq<u16>)
    ensures
        logical_len(units) <= units.len(),
        forall|i: int| 0 <= i < logical_len(units) ==> units[i] != TERMINATOR,
        logical_len(units) < units.len() ==> units[logical_len(units) as int] == TERMINATOR,
    decreases units.len(),
{
    if units.len() == 0 || units[0] == TERMINATOR {
    } else {
        let rest = units.drop_first();
        lemma_logical_len_bounds(rest);
        assert forall|i: int| 0 <= i < logical_len(units) implies units[i] != TERMINATOR by {
            if i > 0 {
                assert(units[i] == rest[i - 1]);
            }
        }
        if logical_len(units) < units.len() {
            assert(units[logical_len(units) as int] == rest[logical_len(rest) as int]);
        }
    }
}

/// An index that passes no terminator and stops at one, or at the end of the
/// buffer, is the logical length.
pub proof fn lemma_logical_len_unique(units: Seq<u16>, end: nat)
    requires
        end <= units.len(),
        forall|i: int| 0 <= i < end ==> units[i] != TERMINATOR,
        end < units.len() ==> units[end as int] == TERMINATOR,
    ensures
        end == logical_len(units),
    decreases units.len(),
{
    if units.len() == 0 || units[0] == TERMINATOR {
        if end > 0 {
            assert(units[0] != TERMINATOR);
        }
    } else {
        let rest = units.drop_first();
        assert(end > 0);
        assert forall|i: int| 0 <= i < end - 1 implies rest[i] != TERMINATOR by {
            assert(rest[i] == units[i + 1]);
        }
        if end < units.len() {
            assert(rest[end - 1] == units[end as int]);
        }
        lemma_logical_len_unique(rest, (end - 1) as nat);
    }
}

/// Finds where the text in `units` ends, reading no unit outside the buffer.
pub fn terminated_len(units: &[u16]) -> (end: usize)
    ensures
        end == logical_len(units@),
        end <= units@.len(),
        forall|i: int| 0 <= i < end ==> units@[i] != TERMINATOR,
        end < units@.len() ==> units@[end as int] == TERMINATOR,
{
    let mut end: usize = 0;
    while end < units.len() && units[end] != TERMINATOR
        invariant
            end <= units@.len(),
            forall|i: int| 0 <= i < end ==> units@[i] != TERMINATOR,
        decreases units@.len() - end,
    {
        end += 1;
    }
    proof {
        lemma_logical_len_unique(units@, end as nat);
    }
    end
}

/// The text that lossy UTF-16 decoding makes of `units`.
pub uninterp spec fn utf16_lossy_text(units: Seq<u16>) -> Seq<char>;

/// `String::from_utf16_lossy`: the text decoded from `units`, each ill-formed
/// part of which has become a replacement character. The result depends on
/// the units alone.
#[verifier::external_body]
fn decode_utf16_lossy(units: &[u16]) -> (text: String)
    ensures
        text@ == utf16_lossy_text(units@),
{
    String::from_utf16_lossy(units)
}

/// Decodes the text that a platform buffer holds up to its terminator.
/// Units behind the terminator are not decoded; a buffer without a
/// terminator is decoded whole.
pub fn u16_to_string(string: &[u16]) -> (text: String)
    ensures
        text@ == utf16_lossy_text(logical_text(string@)),
{
    let end: usize = terminated_len(string);
    let head = slice_subrange(string, 0, end);
    decode_utf16_lossy(head)
}

/// The UTF-16 units of one character: the character's number where it is
/// below 0x10000, a high and a low surrogate otherwise.
pub open spec fn char_units(c: char) -> Seq<u16> {
    let v: int = c as u32 as int;
    if v < 0x10000 {
        seq![v as u16]
    } else {
        seq![(0xD800 + (v - 0x10000) / 0x400) as u16, (0xDC00 + (v - 0x10000) % 0x400) as u16]
    }
}

/// The UTF-16 encoding of `text`, character by character.
pub open spec fn utf16_units(text: Seq<char>) -> Seq<u16>
    decreases text.len(),
{
    if text.len() == 0 {
        Seq::empty()
    } else {
        utf16_units(text.drop_last()) + char_units(text.last())
    }
}

/// Appends the UTF-16 units of `c` to `units`.
fn push_char_units(units: &mut Vec<u16>, c: char)
    ensures
        final(units)@ == old(units)@ + char_units(c),
{
    let v: u32 = c as u32;
    if v < 0x10000 {
        units.push(v as u16);
    } else {
        let w: u32 = v - 0x10000;
        assert(v <= 0x10FFFF);
        units.push((0xD800 + w / 0x400) as u16);
        units.push((0xDC00 + w % 0x400) as u16);
    }
}

/// The characters of `text`, one by one.
pub fn chars_of(text: &str) -> (chars: Vec<char>)
    ensures
        chars@ == text@,
{
    let mut chars: Vec<char> = Vec::new();
    for c in it: text.chars()
        invariant
            it.seq() == text@,
            chars@ == text@.subrange(0, it.index() as int),
    {
        chars.push(c);
    }
    assert(text@.subrange(0, text@.len() as int) == text@);
    chars
}

/// Encodes `text` as UTF-16 and ends it with a terminator, as the platform
/// expects a text that it is handed.
pub fn to_wide(text: &str) -> (units: Vec<u16>)
    ensures
        units@ == utf16_units(text@).push(TERMINATOR),
{
    let mut units: Vec<u16> = Vec::new();
    for c in it: text.chars()
        invariant
            it.seq() == text@,
            units@ == utf16_units(text@.subrange(0, it.index() as int)),
    {
        proof {
            let next = text@.subrange(0, it.index() + 1);
            assert(next.drop_last() == text@.subrange(0, it.index() as int));
            assert(next.last() == c);
        }
        push_char_units(&mut units, c);
    }
    assert(text@.subrange(0, text@.len() as int) == text@);
    units.push(TERMINATOR);
    units
}

/// The encoding of a text without the character zero holds no terminator.
pub proof fn lemma_units_without_terminator(text: Seq<char>)
    requires
        forall|i: int| 0 <= i < text.len() ==> text[i] != '\0',
    ensures
        forall|k: int| 0 <= k < utf16_units(text).len() ==> utf16_units(text)[k] != TERMINATOR,
    decreases text.len(),
{
    if text.len() > 0 {
        let front = text.drop_last();
        let c = text.last();
        lemma_units_without_terminator(front);
        char_is_scalar(c);
        assert(c as u32 != 0) by {
            if c as u32 == 0 {
                char_u32_cast(c, 0u32);
                char_u32_cast('\0', 0u32);
            }
        }
        assert forall|k: int| 0 <= k < char_units(c).len() implies char_units(c)[k]
            != TERMINATOR by {
            let v: int = c as u32 as int;
            assert(0 < v <= 0x10FFFF);
            if v >= 0x10000 {
                assert(0 <= (v - 0x10000) / 0x400 < 0x400);
                assert(0 <= (v - 0x10000) % 0x400 < 0x400);
            }
        }
        let units = utf16_units(text);
        let before = utf16_units(front);
        assert forall|k: int| 0 <= k < units.len() implies units[k] != TERMINATOR by {
            if k < before.len() {
                assert(units[k] == before[k]);
            } else {
                assert(units[k] == char_units(c)[k - before.len()]);
            }
        }
    }
}

/// The platform reads a wide text back as it was encoded: the text before
/// the terminator of what `to_wide` returns is the encoding of the text,
/// unless the text holds the character zero.
pub proof fn lemma_wide_text_reads_back(text: Seq<char>)
    requires
        forall|i: int| 0 <= i < text.len() ==> text[i] != '\0',
    ensures
        logical_text(utf16_units(text).push(TERMINATOR)) == utf16_units(text),
{
    let units = utf16_units(text);
    let wide = units.push(TERMINATOR);
    lemma_units_without_terminator(text);
    assert forall|i: int| 0 <= i < units.len() implies wide[i] != TERMINATOR by {
        assert(wide[i] == units[i]);
    }
    lemma_logical_len_unique(wide, units.len());
    assert(wide.subrange(0, units.len() as int) =~= units);
}

} // verus!
