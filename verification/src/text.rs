//! Executable helpers over strings, counted and indexed by code points
//! rather than bytes.

use vstd::prelude::*;
use vstd::string::StrSliceExecFns;
use vstd::string::StringExecFns;

verus! {

/// Relies on std's `String::push`: appends the given character to the end
/// of the string.
pub assume_specification[ String::push ](s: &mut String, ch: char)
    ensures
        final(s)@ == old(s)@.push(ch),
;

/// The number of code points in `s`.
pub fn char_len(s: &str) -> (n: usize)
    ensures
        n == s@.len(),
{
    s.unicode_len()
}

/// `s` with `ch` inserted before the code point at position `pos`.
pub fn insert_char_at(s: &str, pos: usize, ch: char) -> (r: String)
    requires
        pos <= s@.len(),
    ensures
        r@ == s@.subrange(0, pos as int).push(ch) + s@.subrange(pos as int, s@.len() as int),
{
    let n = s.unicode_len();
    let head = s.substring_char(0, pos);
    let tail = s.substring_char(pos, n);
    let mut r = head.to_owned();
    r.push(ch);
    r.append(tail);
    proof {
        assert(r@ =~= s@.subrange(0, pos as int).push(ch) + s@.subrange(
            pos as int,
            s@.len() as int,
        ));
    }
    r
}

/// `s` with the code point just before position `pos` removed.
pub fn remove_char_before(s: &str, pos: usize) -> (r: String)
    requires
        1 <= pos <= s@.len(),
    ensures
        r@ == s@.subrange(0, pos as int - 1) + s@.subrange(pos as int, s@.len() as int),
{
    let n = s.unicode_len();
    let head = s.substring_char(0, pos - 1);
    let tail = s.substring_char(pos, n);
    let mut r = head.to_owned();
    r.append(tail);
    proof {
        assert(r@ =~= s@.subrange(0, pos as int - 1) + s@.subrange(pos as int, s@.len() as int));
    }
    r
}

} // verus!
