//! Small string-building helpers.
use vstd::prelude::*;
use vstd::string::*;

verus! {

/// Relies on `String::push`: the character is appended at the end.
#[verifier::external_body]
pub(crate) fn push_char(s: &mut String, c: char)
    ensures
        final(s)@ == old(s)@.push(c),
{
    s.push(c);
}

/// A string made of `n` copies of `c`.
pub open spec fn repeat_char(c: char, n: nat) -> Seq<char> {
    Seq::new(n, |_i: int| c)
}

/// Appends `n` copies of `c` to `s`.
pub(crate) fn push_repeated(s: &mut String, c: char, n: usize)
    ensures
        final(s)@ == old(s)@ + repeat_char(c, n as nat),
{
    let ghost start = s@;
    let mut k: usize = 0;
    while k < n
        invariant
            k <= n,
            s@ == start + repeat_char(c, k as nat),
        decreases n - k,
    {
        push_char(s, c);
        k = k + 1;
        assert(s@ =~= start + repeat_char(c, k as nat));
    }
}

/// The characters of `s`.
pub(crate) fn chars_of(s: &str) -> (r: Vec<char>)
    ensures
        r@ == s@,
{
    let n = s.unicode_len();
    let mut out: Vec<char> = Vec::new();
    let mut i: usize = 0;
    while i < n
        invariant
            n == s@.len(),
            i <= n,
            out@ == s@.subrange(0, i as int),
        decreases n - i,
    {
        out.push(s.get_char(i));
        i = i + 1;
        assert(out@ =~= s@.subrange(0, i as int));
    }
    assert(s@.subrange(0, n as int) =~= s@);
    out
}

} // verus!
