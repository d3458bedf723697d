//! Small string helpers shared by the other modules.

use vstd::prelude::*;

verus! {

/// Appends one character to a `String`.
///
/// Trusted: wraps `String::push` from std, whose documentation says that it
/// appends the given `char` to the end of the string; the contract states exactly that.
#[verifier::external_body]
pub(crate) fn push_char(s: &mut String, c: char)
    ensures
        final(s)@ == old(s)@.push(c),
{
    s.push(c)
}

/// Appends every character of `tail` to `s`, in order.
pub fn push_str(s: &mut String, tail: &str)
    ensures
        final(s)@ == old(s)@ + tail@,
{
    let n = tail.unicode_len();
    let mut i: usize = 0;
    while i < n
        invariant
            n == tail@.len(),
            i <= n,
            s@ == old(s)@ + tail@.subrange(0, i as int),
        decreases n - i,
    {
        let c = tail.get_char(i);
        push_char(s, c);
        assert(tail@.subrange(0, i + 1) =~= tail@.subrange(0, i as int).push(c));
        i = i + 1;
    }
    assert(tail@.subrange(0, n as int) =~= tail@);
}

} // verus!
