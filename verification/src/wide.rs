//! Names as the platform reads them: UTF-16 code units closed by a zero unit.
use vstd::prelude::*;

verus! {

/// The UTF-16 code units of one character: the code point itself below
/// 0x10000, a high and a low surrogate above.
pub open spec fn units_of(c: char) -> Seq<u16> {
    let point = c as u32;
    if point < 0x1_0000 {
        seq![point as u16]
    } else {
        let rest = point - 0x1_0000;
        seq![(0xD800 + rest / 0x400) as u16, (0xDC00 + rest % 0x400) as u16]
    }
}

/// The UTF-16 encoding of a text: the units of its characters, in order.
pub open spec fn utf16(text: Seq<char>) -> Seq<u16>
    decreases text.len(),
{
    if text.len() == 0 {
        Seq::empty()
    } else {
        utf16(text.drop_last()) + units_of(text.last())
    }
}

/// The wide form of a text: its UTF-16 encoding followed by one zero unit.
pub open spec fn wide(text: Seq<char>) -> Seq<u16> {
    utf16(text).push(0u16)
}

/// Encodes `name` as the platform expects a name: UTF-16, zero-terminated.
pub fn encode_wide(name: &str) -> (units: Vec<u16>)
    ensures
        units@ == wide(name@),
{
    let n = name.unicode_len();
    let mut units: Vec<u16> = Vec::new();
    let mut i: usize = 0;
    while i < n
        invariant
            n == name@.len(),
            i <= n,
            units@ == utf16(name@.take(i as int)),
        decreases n - i,
    {
        let c = name.get_char(i);
        let point: u32 = c as u32;
        proof {
            let before = name@.take(i as int);
            let after = name@.take(i + 1);
            assert(after.drop_last() == before);
            assert(after.last() == c);
        }
        if point < 0x1_0000 {
            units.push(point as u16);
        } else {
            let rest: u32 = point - 0x1_0000;
            units.push((0xD800 + rest / 0x400) as u16);
            units.push((0xDC00 + rest % 0x400) as u16);
        }
        i += 1;
    }
    assert(name@.take(n as int) == name@);
    units.push(0);
    units
}

/// A character outside the basic plane is written as a surrogate pair; any
/// other as the single unit that equals its code point.
pub proof fn units_are_well_formed(c: char)
    ensures
        (c as u32) < 0x1_0000 ==> units_of(c).len() == 1 && units_of(c)[0] == c as u32,
        (c as u32) >= 0x1_0000 ==> {
            &&& units_of(c).len() == 2
            &&& 0xD800 <= units_of(c)[0] <= 0xDBFF
            &&& 0xDC00 <= units_of(c)[1] <= 0xDFFF
            &&& (units_of(c)[0] - 0xD800) * 0x400 + (units_of(c)[1] - 0xDC00) + 0x1_0000
                == c as u32
        },
{
}

/// Only the zero character has the code point zero.
proof fn zero_point_is_zero_char(c: char)
    ensures
        c as u32 == 0 <==> c == '\0',
{
}

/// The encoding of a text without the zero character holds no zero unit, so
/// that the terminator of its wide form is the first zero that a reader meets.
pub proof fn terminator_is_first_zero(text: Seq<char>)
    requires
        forall|i: int| 0 <= i < text.len() ==> text[i] != '\0',
    ensures
        forall|j: int| 0 <= j < utf16(text).len() ==> utf16(text)[j] != 0,
        wide(text).len() == utf16(text).len() + 1,
        wide(text).last() == 0,
    decreases text.len(),
{
    if text.len() > 0 {
        let front = text.drop_last();
        let c = text.last();
        terminator_is_first_zero(front);
        units_are_well_formed(c);
        assert(c as u32 != 0) by {
            assert(text[text.len() - 1] != '\0');
            zero_point_is_zero_char(c);
        }
        assert forall|j: int| 0 <= j < utf16(text).len() implies utf16(text)[j] != 0 by {
            if j >= utf16(front).len() {
                assert(utf16(text)[j] == units_of(c)[j - utf16(front).len()]);
            }
        }
    }
}

} // verus!
