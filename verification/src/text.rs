use vstd::prelude::*;
use vstd::string::StrSliceExecFns;

verus! {

// Truncation for display: cut a string to at most `max_len` bytes
// without splitting a character. The cut point is measured in UTF-8
// bytes but always falls on a character boundary.

/// The number of bytes UTF-8 spends on one character.
pub open spec fn char_utf8_len(c: char) -> int {
    if (c as u32) < 0x80 {
        1
    } else if (c as u32) < 0x800 {
        2
    } else if (c as u32) < 0x10000 {
        3
    } else {
        4
    }
}

/// The number of bytes UTF-8 spends on a character sequence.
pub open spec fn utf8_len_of(s: Seq<char>) -> int
    decreases s.len(),
{
    if s.len() <= 0 {
        0
    } else {
        utf8_len_of(s.drop_last()) + char_utf8_len(s.last())
    }
}

/// The greatest position `p` at most `j` whose byte offset
/// `utf8_len_of(s.take(p))` is at most `max`.
pub open spec fn truncate_keep(s: Seq<char>, max: int, j: int) -> int
    decreases j,
{
    if j <= 0 {
        0
    } else if utf8_len_of(s.take(j)) <= max {
        j
    } else {
        truncate_keep(s, max, j - 1)
    }
}

/// What truncation returns: the string itself when it fits in `max`
/// bytes, and otherwise the characters strictly before the last one
/// that still begins at byte offset `max` or earlier.
pub open spec fn truncate_spec(s: Seq<char>, max: int) -> Seq<char> {
    if utf8_len_of(s) <= max {
        s
    } else {
        s.take(truncate_keep(s, max, s.len() - 1))
    }
}

/// Byte offsets grow by one character's width at a time.
proof fn lemma_utf8_take_step(s: Seq<char>, j: int)
    requires
        0 <= j < s.len(),
    ensures
        utf8_len_of(s.take(j + 1)) == utf8_len_of(s.take(j)) + char_utf8_len(s[j]),
{
    assert(s.take(j + 1).drop_last() =~= s.take(j));
    assert(s.take(j + 1).last() == s[j]);
}

/// Byte offsets never decrease along the string.
proof fn lemma_utf8_take_mono(s: Seq<char>, a: int, b: int)
    requires
        0 <= a <= b <= s.len(),
    ensures
        utf8_len_of(s.take(a)) <= utf8_len_of(s.take(b)),
    decreases b - a,
{
    if a < b {
        lemma_utf8_take_mono(s, a, b - 1);
        lemma_utf8_take_step(s, b - 1);
    }
}

/// A position within `max` bytes, after which every position up to `m`
/// is past `max`, is exactly `truncate_keep`.
proof fn lemma_truncate_keep_is(s: Seq<char>, max: int, m: int, p: int)
    requires
        0 <= p <= m,
        utf8_len_of(s.take(p)) <= max,
        forall|q: int| p < q <= m ==> utf8_len_of(s.take(q)) > max,
    ensures
        truncate_keep(s, max, m) == p,
    decreases m,
{
    if m > p {
        lemma_truncate_keep_is(s, max, m - 1, p);
    }
}

/// The width of one character, as `char_utf8_len` counts it.
fn char_len_utf8(c: char) -> (l: u8)
    ensures
        l as int == char_utf8_len(c),
{
    let u: u32 = c as u32;
    if u < 0x80 {
        1
    } else if u < 0x800 {
        2
    } else if u < 0x10000 {
        3
    } else {
        4
    }
}

/// Cuts a string for display to at most `max_len` bytes, on a character
/// boundary: a string that fits is returned whole, and otherwise the cut
/// falls before the last character that still begins at byte `max_len`
/// or earlier.
pub fn truncate<'a>(s: &'a str, max_len: usize) -> (r: &'a str)
    ensures
        r@ == truncate_spec(s@, max_len as int),
{
    let n: usize = s.unicode_len();
    let max: u128 = max_len as u128;
    let mut j: usize = 0;
    let mut bytes: u128 = 0;
    let mut keep: usize = 0;
    while j < n && bytes <= max
        invariant
            j <= n,
            n == s@.len(),
            max == max_len as u128,
            bytes == utf8_len_of(s@.take(j as int)),
            bytes <= max + 4,
            j == 0 ==> keep == 0 && bytes == 0,
            j > 0 ==> keep < j,
            utf8_len_of(s@.take(keep as int)) <= max,
            forall|q: int| keep < q < j ==> utf8_len_of(s@.take(q)) > max,
        decreases n - j,
    {
        keep = j;
        let c: char = s.get_char(j);
        let w: u8 = char_len_utf8(c);
        proof {
            lemma_utf8_take_step(s@, j as int);
        }
        bytes = bytes + (w as u128);
        j = j + 1;
    }
    proof {
        lemma_utf8_take_mono(s@, j as int, s@.len() as int);
        assert(s@.take(s@.len() as int) =~= s@);
    }
    if bytes <= max {
        s
    } else {
        proof {
            assert forall|q: int| keep < q <= s@.len() - 1 implies utf8_len_of(s@.take(q)) > max by {
                if q >= j {
                    lemma_utf8_take_mono(s@, j as int, q);
                }
            }
            lemma_truncate_keep_is(s@, max as int, s@.len() as int - 1, keep as int);
        }
        let r = s.substring_char(0, keep);
        proof {
            assert(r@ =~= s@.take(keep as int));
        }
        r
    }
}

} // verus!
