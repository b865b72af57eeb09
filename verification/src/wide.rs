//! NUL-terminated UTF-16 text, the form the Win32 wide-character calls take.

use vstd::prelude::*;
use crate::text::chars_of;

verus! {

/// The UTF-16 code units of one character.
pub open spec fn utf16_units(c: char) -> Seq<u16> {
    let v = (c as u32) as int;
    if v < 0x10000 {
        seq![v as u16]
    } else {
        seq![(0xD800 + (v - 0x10000) / 0x400) as u16, (0xDC00 + (v - 0x10000) % 0x400) as u16]
    }
}

/// The UTF-16 encoding of a character sequence.
pub open spec fn utf16(s: Seq<char>) -> Seq<u16>
    decreases s.len(),
{
    if s.len() == 0 {
        Seq::empty()
    } else {
        utf16(s.drop_last()) + utf16_units(s.last())
    }
}

/// Decodes UTF-16 code units into code points; an unpaired surrogate stands
/// for itself.
pub open spec fn utf16_decode(u: Seq<u16>) -> Seq<u32>
    decreases u.len(),
{
    if u.len() == 0 {
        Seq::empty()
    } else if 0xD800 <= u[0] < 0xDC00 && u.len() >= 2 && 0xDC00 <= u[1] < 0xE000 {
        seq![(0x10000 + (u[0] - 0xD800) * 0x400 + (u[1] - 0xDC00)) as u32] + utf16_decode(u.skip(2))
    } else {
        seq![u[0] as u32] + utf16_decode(u.skip(1))
    }
}

/// The code points of a character sequence.
pub open spec fn code_points(s: Seq<char>) -> Seq<u32> {
    s.map_values(|c: char| c as u32)
}

/// `value` as NUL-terminated UTF-16, as `value.encode_utf16()` followed by a 0.
pub fn wide_text(value: &str) -> (w: Vec<u16>)
    ensures
        w@ == utf16(value@).push(0u16),
{
    let chars = chars_of(value);
    let mut w: Vec<u16> = Vec::new();
    let mut i: usize = 0;
    while i < chars.len()
        invariant
            i <= chars@.len(),
            chars@ == value@,
            w@ == utf16(value@.take(i as int)),
        decreases chars@.len() - i,
    {
        let c = chars[i];
        let v = c as u32;
        proof {
            vstd::utf8::char_is_scalar(c);
        }
        if v < 0x10000 {
            w.push(v as u16);
        } else {
            let off = v - 0x10000;
            w.push((0xD800 + off / 0x400) as u16);
            w.push((0xDC00 + off % 0x400) as u16);
        }
        assert(value@.take(i + 1).drop_last() =~= value@.take(i as int));
        i = i + 1;
    }
    assert(value@.take(i as int) =~= value@);
    w.push(0u16);
    w
}

/// A path as NUL-terminated UTF-16: its UTF-16 units as the system gives
/// them (`OsStr::encode_wide`, which may hold unpaired surrogates), passed
/// through unchanged, followed by a 0.
pub fn wide(path_units: &[u16]) -> (w: Vec<u16>)
    ensures
        w@ == path_units@.push(0u16),
{
    let mut w: Vec<u16> = Vec::new();
    let mut i: usize = 0;
    while i < path_units.len()
        invariant
            i <= path_units@.len(),
            w@ == path_units@.take(i as int),
        decreases path_units@.len() - i,
    {
        w.push(path_units[i]);
        assert(path_units@.take(i + 1) =~= path_units@.take(i as int).push(path_units@[i as int]));
        i = i + 1;
    }
    assert(path_units@.take(i as int) =~= path_units@);
    w.push(0u16);
    w
}

/// For a path that is text, `wide` of its units is `wide_text` of the text.
pub proof fn wide_agrees_with_wide_text(path_units: Seq<u16>, text: Seq<char>)
    requires
        path_units == utf16(text),
    ensures
        path_units.push(0u16) == utf16(text).push(0u16),
{
}

proof fn lemma_utf16_prepend(c: char, s: Seq<char>)
    ensures
        utf16(seq![c] + s) == utf16_units(c) + utf16(s),
    decreases s.len(),
{
    if s.len() == 0 {
        assert(seq![c] + s =~= seq![c]);
        assert(seq![c].drop_last() =~= s);
        assert(utf16(s) =~= Seq::<u16>::empty());
        assert(utf16(seq![c]) == utf16(s) + utf16_units(c));
        assert(utf16_units(c) + utf16(s) =~= utf16_units(c));
        assert(utf16(s) + utf16_units(c) =~= utf16_units(c));
    } else {
        let t = seq![c] + s;
        assert(t.drop_last() =~= seq![c] + s.drop_last());
        assert(t.last() == s.last());
        lemma_utf16_prepend(c, s.drop_last());
        assert(utf16(t) =~= utf16_units(c) + utf16(s));
    }
}

proof fn lemma_decode_units(c: char, rest: Seq<u16>)
    ensures
        utf16_decode(utf16_units(c) + rest) == seq![c as u32] + utf16_decode(rest),
{
    vstd::utf8::char_is_scalar(c);
    let u = utf16_units(c) + rest;
    let v = (c as u32) as int;
    if v < 0x10000 {
        assert(u.skip(1) =~= rest);
    } else {
        assert(u.skip(2) =~= rest);
        let w = v - 0x10000;
        assert(0x10000 + (w / 0x400) * 0x400 + w % 0x400 == v);
    }
}

/// UTF-16 loses nothing: decoding the units of a text gives back exactly its
/// code points, one per character.
pub proof fn utf16_round_trip(s: Seq<char>)
    ensures
        utf16_decode(utf16(s)) == code_points(s),
    decreases s.len(),
{
    if s.len() == 0 {
        assert(code_points(s) =~= Seq::<u32>::empty());
    } else {
        let rest = s.drop_first();
        assert(s =~= seq![s[0]] + rest);
        lemma_utf16_prepend(s[0], rest);
        lemma_decode_units(s[0], utf16(rest));
        utf16_round_trip(rest);
        assert(code_points(s) =~= seq![s[0] as u32] + code_points(rest));
    }
}

/// A text with no NUL character encodes to units none of which is 0, so the
/// terminator that `wide_text` appends is the only 0 a Win32 call sees.
pub proof fn utf16_has_no_zero(s: Seq<char>)
    requires
        forall|i: int| 0 <= i < s.len() ==> s[i] != '\0',
    ensures
        forall|j: int| 0 <= j < utf16(s).len() ==> utf16(s)[j] != 0,
    decreases s.len(),
{
    if s.len() > 0 {
        let c = s.last();
        vstd::utf8::char_is_scalar(c);
        assert(c == s[s.len() - 1]);
        assert((c as u32) != 0) by {
            vstd::utf8::char_u32_cast(c, c as u32);
            if (c as u32) == 0 {
                assert(('\0' as u32) == 0);
                vstd::utf8::char_u32_cast('\0', 0u32);
            }
        }
        utf16_has_no_zero(s.drop_last());
        let a = utf16(s.drop_last());
        assert forall|j: int| 0 <= j < utf16(s).len() implies utf16(s)[j] != 0 by {
            if j >= a.len() {
                assert(utf16(s)[j] == utf16_units(c)[j - a.len()]);
            } else {
                assert(utf16(s)[j] == a[j]);
            }
        }
    }
}

proof fn lemma_utf16_append(a: Seq<char>, b: Seq<char>)
    ensures
        utf16(a + b) == utf16(a) + utf16(b),
    decreases b.len(),
{
    if b.len() == 0 {
        assert(a + b =~= a);
        assert(utf16(b) =~= Seq::<u16>::empty());
        assert(utf16(a) + utf16(b) =~= utf16(a));
    } else {
        assert((a + b).drop_last() =~= a + b.drop_last());
        assert((a + b).last() == b.last());
        lemma_utf16_append(a, b.drop_last());
        assert(utf16(a + b) =~= utf16(a) + utf16(b));
    }
}

/// The encoding holds a 0 unit exactly when the text holds a NUL character,
/// so `wide_text`'s terminator is the first 0 exactly for NUL-free text.
pub proof fn utf16_zero_exactly_at_nul(s: Seq<char>)
    ensures
        (exists|j: int| 0 <= j < utf16(s).len() && utf16(s)[j] == 0) <==> (exists|i: int|
            0 <= i < s.len() && s[i] == '\0'),
{
    if exists|i: int| 0 <= i < s.len() && s[i] == '\0' {
        let i = choose|i: int| 0 <= i < s.len() && s[i] == '\0';
        let head = s.take(i);
        let tail = s.skip(i + 1);
        assert(s =~= head + (seq![s[i]] + tail));
        lemma_utf16_append(head, seq![s[i]] + tail);
        lemma_utf16_prepend(s[i], tail);
        assert(('\0' as u32) == 0);
        assert(utf16_units(s[i]) =~= seq![0u16]);
        let j = utf16(head).len() as int;
        assert(utf16(s)[j] == 0);
    } else {
        utf16_has_no_zero(s);
    }
}

} // verus!
