//! Contiguous containment of one character sequence in another, with the
//! lemmas that carry containment through concatenation.  The formatted lines
//! this library produces are concatenations, and their contracts promise that
//! certain pieces (a file name, an event-category name) appear in the output.

use vstd::prelude::*;

verus! {

/// `needle` occurs contiguously somewhere inside `hay`.
pub open spec fn contains_seq(hay: Seq<char>, needle: Seq<char>) -> bool {
    exists|k: int|
        0 <= k && k + needle.len() <= hay.len() && #[trigger] hay.subrange(k, k + needle.len())
            == needle
}

/// A sequence contains itself.
pub proof fn lemma_contains_self(s: Seq<char>)
    ensures
        contains_seq(s, s),
{
    assert(s.subrange(0, 0 + s.len() as int) =~= s);
}

/// The middle part of a three-way concatenation is contained in the whole.
pub proof fn lemma_contains_here(a: Seq<char>, n: Seq<char>, b: Seq<char>)
    ensures
        contains_seq(a + n + b, n),
{
    let hay = a + n + b;
    let k = a.len() as int;
    assert(hay.subrange(k, k + n.len()) =~= n);
}

/// Containment survives appending on the right.
pub proof fn lemma_contains_extend_right(hay: Seq<char>, b: Seq<char>, n: Seq<char>)
    requires
        contains_seq(hay, n),
    ensures
        contains_seq(hay + b, n),
{
    let k = choose|k: int|
        0 <= k && k + n.len() <= hay.len() && #[trigger] hay.subrange(k, k + n.len()) == n;
    assert((hay + b).subrange(k, k + n.len()) =~= hay.subrange(k, k + n.len()));
}

/// Containment survives prepending on the left.
pub proof fn lemma_contains_extend_left(a: Seq<char>, hay: Seq<char>, n: Seq<char>)
    requires
        contains_seq(hay, n),
    ensures
        contains_seq(a + hay, n),
{
    let k = choose|k: int|
        0 <= k && k + n.len() <= hay.len() && #[trigger] hay.subrange(k, k + n.len()) == n;
    let j = a.len() + k;
    assert((a + hay).subrange(j, j + n.len()) =~= hay.subrange(k, k + n.len()));
}

} // verus!
