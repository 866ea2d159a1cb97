//! Character and string predicates shared by the configuration registry and
//! the fetch pipeline: alphanumeric region-code characters, control
//! characters, and plain string equality.

use vstd::prelude::*;
use vstd::string::*;

verus! {

/// Whether a character counts as alphanumeric (Unicode Alphabetic or Number
/// category). Named after the behaviour of `char::is_alphanumeric`, which
/// depends on the character alone.
pub uninterp spec fn is_alphanumeric_char(c: char) -> bool;

/// Relies on `char::is_alphanumeric` (std): whether a character is in the
/// Unicode Alphabetic or Number categories is a function of the character
/// alone.
#[verifier::external_body]
pub(crate) fn char_alphanumeric(c: char) -> (r: bool)
    ensures
        r == is_alphanumeric_char(c),
{
    c.is_alphanumeric()
}

/// A control character: the Unicode `Cc` category, which consists exactly of
/// U+0000..=U+001F and U+007F..=U+009F.
pub open spec fn is_control_char(c: char) -> bool {
    (c as u32) < 0x20 || (0x7f <= (c as u32) && (c as u32) < 0xa0)
}

/// No character of the sequence is a control character.
pub open spec fn no_control_chars(s: Seq<char>) -> bool {
    forall|i: int| 0 <= i < s.len() ==> !is_control_char(s[i])
}

fn char_control(c: char) -> (r: bool)
    ensures
        r == is_control_char(c),
{
    let v = c as u32;
    v < 0x20 || (0x7f <= v && v < 0xa0)
}

/// Checks that a string holds no control character.
pub(crate) fn str_no_control(s: &str) -> (r: bool)
    ensures
        r == no_control_chars(s@),
{
    let len = s.unicode_len();
    let mut i: usize = 0;
    while i < len
        invariant
            i <= len,
            len == s@.len(),
            forall|j: int| 0 <= j < i ==> !is_control_char(s@[j]),
        decreases len - i,
    {
        if char_control(s.get_char(i)) {
            assert(is_control_char(s@[i as int]));
            return false;
        }
        i += 1;
    }
    true
}

/// Character-for-character string equality.
pub(crate) fn str_eq(a: &str, b: &str) -> (r: bool)
    ensures
        r == (a@ == b@),
{
    let a_len = a.unicode_len();
    let b_len = b.unicode_len();
    if a_len != b_len {
        assert(a@ != b@) by {
            assert(a@.len() != b@.len());
        }
        return false;
    }
    let mut i: usize = 0;
    while i < a_len
        invariant
            i <= a_len,
            a_len == a@.len(),
            a_len == b@.len(),
            forall|j: int| 0 <= j < i ==> a@[j] == b@[j],
        decreases a_len - i,
    {
        if a.get_char(i) != b.get_char(i) {
            assert(a@[i as int] != b@[i as int]);
            return false;
        }
        i += 1;
    }
    assert(a@ =~= b@);
    true
}

} // verus!
