//! Character-level text helpers shared by the validated value types.
//!
//! Strings are reasoned about as their character sequences. Conversion
//! between `&str` and `Vec<char>` is verified against the standard
//! character iterator; the two per-character predicates the library needs
//! from std are named by uninterpreted functions, since their exact
//! Unicode tables are not worth restating.

use vstd::prelude::*;
use vstd::string::StringExecFns;

verus! {

/// Whether std's `char::is_whitespace` holds: the Unicode `White_Space`
/// property.
pub uninterp spec fn char_is_whitespace(c: char) -> bool;

/// Whether std's `char::is_control` holds: the Unicode `Cc` category.
pub uninterp spec fn char_is_control(c: char) -> bool;

/// Relies on `char::is_whitespace`: the `White_Space` property, which
/// holds of the ASCII spacing characters and of no printable ASCII
/// character.
pub assume_specification[ char::is_whitespace ](c: char) -> (r: bool)
    ensures
        r == char_is_whitespace(c),
        (c == ' ' || c == '\t' || c == '\r' || c == '\n') ==> r,
        ('!' <= c && c <= '~') ==> !r,
;

/// Relies on `char::is_control`: the Unicode control category, which
/// holds of NUL and of no character from space through tilde.
pub assume_specification[ char::is_control ](c: char) -> (r: bool)
    ensures
        r == char_is_control(c),
        c == '\u{0}' ==> r,
        (' ' <= c && c <= '~') ==> !r,
;

/// Relies on `String::push`: appends exactly the one character.
pub assume_specification[ String::push ](s: &mut String, c: char)
    ensures
        final(s)@ == old(s)@.push(c),
;

/// The characters of `s`, in order.
pub fn chars_of(s: &str) -> (r: Vec<char>)
    ensures
        r@ == s@,
{
    let mut r: Vec<char> = Vec::new();
    for c in it: s.chars()
        invariant
            it.seq() == s@,
            r@ == it.seq().take(it.index() as int),
    {
        r.push(c);
    }
    proof {
        assert(r@ =~= s@);
    }
    r
}

/// The string holding exactly the characters of `v`.
pub fn string_of_chars(v: &Vec<char>) -> (r: String)
    ensures
        r@ == v@,
{
    let mut r = String::new();
    let n = v.len();
    let mut i: usize = 0;
    while i < n
        invariant
            n == v@.len(),
            i <= n,
            r@ == v@.take(i as int),
        decreases n - i,
    {
        r.push(v[i]);
        proof {
            assert(v@.take(i as int).push(v@[i as int]) =~= v@.take(i + 1 as int));
        }
        i = i + 1;
    }
    proof {
        assert(v@.take(n as int) =~= v@);
    }
    r
}

} // verus!
