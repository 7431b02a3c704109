//! Bracket policy: emit or suppress the delimiters around a rendered group.

use vstd::prelude::*;

verus! {

/// What wrapping a rendered group in its delimiters yields: the inner
/// content alone when `strip` is set, else the content between the two
/// delimiter characters, unchanged.
pub open spec fn spec_wrap(open_d: char, close_d: char, inner: Seq<char>, strip: bool) -> Seq<char> {
    if strip {
        inner
    } else {
        seq![open_d] + inner + seq![close_d]
    }
}

/// Emit a rendered group with or without its surrounding delimiters.
///
/// With `strip` false the opening delimiter, the inner content and the
/// closing delimiter come out unchanged; with `strip` true only the inner
/// content does. The policy never touches the content itself.
pub fn wrap_group(open_d: char, close_d: char, inner: &Vec<char>, strip: bool) -> (out: Vec<char>)
    ensures
        out@ == spec_wrap(open_d, close_d, inner@, strip),
{
    let mut out: Vec<char> = Vec::new();
    if !strip {
        out.push(open_d);
    }
    let mut i: usize = 0;
    while i < inner.len()
        invariant
            i <= inner.len(),
            strip ==> out@ == inner@.subrange(0, i as int),
            !strip ==> out@ == seq![open_d] + inner@.subrange(0, i as int),
        decreases inner.len() - i,
    {
        out.push(inner[i]);
        i += 1;
    }
    assert(inner@.subrange(0, inner@.len() as int) == inner@);
    if !strip {
        out.push(close_d);
        assert(out@ == seq![open_d] + inner@ + seq![close_d]);
    }
    out
}

/// Stripping the delimiters from a group that was wrapped with them kept
/// gives back exactly the wrapped form: applying the policy with `strip`
/// set to what the kept form produced changes nothing.
pub proof fn lemma_wrap_strip_of_wrapped(open_d: char, close_d: char, x: Seq<char>)
    ensures
        spec_wrap(open_d, close_d, spec_wrap(open_d, close_d, x, false), true) == spec_wrap(
            open_d,
            close_d,
            x,
            false,
        ),
{
}

} // verus!
