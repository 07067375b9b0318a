//! UTF-16 text handling: the wide, nul-terminated strings that the native
//! windowing layer exchanges, produced here by a verified encoder.

use vstd::prelude::*;

verus! {

/// The UTF-16 encoding of one Unicode scalar value: code points below
/// 0x10000 are a single unit; the rest become a surrogate pair.
pub open spec fn utf16_char(c: char) -> Seq<u16> {
    if (c as u32) < 0x10000 {
        seq![(c as u32) as u16]
    } else {
        seq![
            ((0xD800 + ((c as u32) - 0x10000) / 0x400) as u16),
            ((0xDC00 + ((c as u32) - 0x10000) % 0x400) as u16),
        ]
    }
}

/// The UTF-16 encoding of a character sequence, without a terminator.
pub open spec fn utf16(s: Seq<char>) -> Seq<u16>
    decreases s.len(),
{
    if s.len() == 0 {
        Seq::empty()
    } else {
        utf16(s.drop_last()) + utf16_char(s.last())
    }
}

/// Each character contributes one or two units.
pub proof fn lemma_utf16_len(s: Seq<char>)
    ensures
        s.len() <= utf16(s).len() <= 2 * s.len(),
    decreases s.len(),
{
    if s.len() > 0 {
        lemma_utf16_len(s.drop_last());
    }
}

/// A text without the nul character encodes without a zero unit: a code
/// point below 0x10000 is its own nonzero unit, and surrogate units lie
/// at 0xD800 and above.
pub proof fn lemma_utf16_no_nul(s: Seq<char>)
    requires
        forall|i: int| 0 <= i < s.len() ==> s[i] != '\0',
    ensures
        forall|j: int| 0 <= j < utf16(s).len() ==> utf16(s)[j] != 0u16,
    decreases s.len(),
{
    if s.len() > 0 {
        assert(forall|i: int| 0 <= i < s.drop_last().len() ==> s.drop_last()[i] != '\0');
        lemma_utf16_no_nul(s.drop_last());
        let c = s.last();
        assert(c != '\0');
        vstd::utf8::char_is_scalar(c);
        assert(c as u32 != 0) by {
            if c as u32 == 0 {
                vstd::utf8::char_u32_cast(c, 0u32);
                vstd::utf8::char_u32_cast('\0', 0u32);
            }
        }
        if (c as u32) < 0x10000 {
            assert((c as u32) as u16 != 0u16);
        } else {
            let v = (c as u32) - 0x10000;
            assert(0 <= v <= 0xFFFFF);
            assert(0 <= v / 0x400 <= 0x3FF && 0 <= v % 0x400 <= 0x3FF) by (nonlinear_arith)
                requires 0 <= v <= 0xFFFFF,
            ;
            assert(((0xD800 + v / 0x400) as u16) != 0u16);
            assert(((0xDC00 + v % 0x400) as u16) != 0u16);
        }
        assert(forall|j: int| 0 <= j < utf16_char(c).len() ==> utf16_char(c)[j] != 0u16);
        let a = utf16(s.drop_last());
        let b = utf16_char(c);
        assert(utf16(s) == a + b);
        assert forall|j: int| 0 <= j < utf16(s).len() implies utf16(s)[j] != 0u16 by {
            if j < a.len() {
                assert(utf16(s)[j] == a[j]);
            } else {
                assert(utf16(s)[j] == b[j - a.len()]);
            }
        }
    }
}

/// Extending a prefix by one character appends that character's units.
pub proof fn lemma_utf16_take_step(s: Seq<char>, i: int)
    requires
        0 <= i < s.len(),
    ensures
        utf16(s.take(i + 1)) == utf16(s.take(i)) + utf16_char(s[i]),
{
    assert(s.take(i + 1).drop_last() =~= s.take(i));
    assert(s.take(i + 1).last() == s[i]);
}

/// Appends the UTF-16 units of one character.
fn push_utf16_char(v: &mut Vec<u16>, c: char)
    ensures
        final(v)@ == old(v)@ + utf16_char(c),
{
    let code = c as u32;
    if code < 0x10000 {
        v.push(code as u16);
        assert(final(v)@ =~= old(v)@ + utf16_char(c));
    } else {
        let off = code - 0x10000;
        let hi = 0xD800 + off / 0x400;
        let lo = 0xDC00 + off % 0x400;
        assert(off / 0x400 <= 0x3FF && off % 0x400 <= 0x3FF) by {
            assert(off <= 0xFFFFF);
            assert(off / 0x400 <= 0xFFFFFu32 / 0x400) by (nonlinear_arith)
                requires off <= 0xFFFFFu32,
            ;
        }
        v.push(hi as u16);
        v.push(lo as u16);
        assert(final(v)@ =~= old(v)@ + utf16_char(c));
    }
}

/// The UTF-16 units of a string, without a terminator.
pub fn utf16_units(s: &str) -> (r: Vec<u16>)
    ensures
        r@ == utf16(s@),
{
    let n = s.unicode_len();
    let mut v: Vec<u16> = Vec::new();
    let mut i: usize = 0;
    while i < n
        invariant
            i <= n,
            n == s@.len(),
            v@ == utf16(s@.take(i as int)),
        decreases n - i,
    {
        let c = s.get_char(i);
        push_utf16_char(&mut v, c);
        proof {
            lemma_utf16_take_step(s@, i as int);
        }
        i = i + 1;
    }
    proof {
        assert(s@.take(n as int) =~= s@);
    }
    v
}

/// The wide-string form of a string: its UTF-16 units followed by a nul,
/// as the native windowing layer expects titles and labels.
pub fn to_wstring(s: &str) -> (r: Vec<u16>)
    ensures
        r@ == utf16(s@).push(0u16),
{
    let mut v = utf16_units(s);
    v.push(0u16);
    v
}

} // verus!
