use vstd::prelude::*;

verus! {

/// The first `cap` characters of `s`, or all of `s` where it is no longer.
pub open spec fn truncated(s: Seq<char>, cap: nat) -> Seq<char> {
    if s.len() <= cap {
        s
    } else {
        s.take(cap as int)
    }
}

/// Relies on `String::push`: appends one character at the end.
#[verifier::external_body]
fn push_char(s: &mut String, c: char)
    ensures
        final(s)@ == old(s)@.push(c),
{
    s.push(c)
}

/// Cuts `text` down to at most `cap` characters (a hard cut, not word-aware).
pub fn truncate_status(text: &str, cap: usize) -> (r: String)
    ensures
        r@ == truncated(text@, cap as nat),
{
    broadcast use vstd::string::axiom_spec_iter;

    let mut out = String::new();
    let mut n: usize = 0;
    for c in it: text.chars()
        invariant
            it.seq() == text@,
            n == if it.index() <= cap { it.index() } else { cap as int },
            out@ == text@.take(n as int),
    {
        if n < cap {
            push_char(&mut out, c);
            n = n + 1;
            assert(out@ =~= text@.take(n as int));
        }
    }
    assert(text@.len() <= cap ==> text@.take(text@.len() as int) =~= text@);
    out
}

/// Truncation is bounded and idempotent: the result has at most `cap`
/// characters; text within the cap comes back whole; longer text comes back as
/// its first `cap` characters exactly; truncating again changes nothing.
pub proof fn lemma_truncation_bounded_idempotent(s: Seq<char>, cap: nat)
    ensures
        truncated(s, cap).len() <= cap,
        s.len() <= cap ==> truncated(s, cap) == s,
        s.len() > cap ==> truncated(s, cap).len() == cap && truncated(s, cap) == s.take(
            cap as int,
        ),
        truncated(s, cap).is_prefix_of(s),
        truncated(truncated(s, cap), cap) == truncated(s, cap),
{
    assert(s.take(s.len() as int) =~= s);
}

} // verus!
