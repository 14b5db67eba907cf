//! What it means for one text to occur in another.

use vstd::prelude::*;

verus! {

/// `part` stands in `whole` from position `at` on.
pub open spec fn occurs_at(whole: Seq<char>, part: Seq<char>, at: int) -> bool {
    &&& 0 <= at
    &&& at + part.len() <= whole.len()
    &&& whole.subrange(at, at + part.len()) == part
}

/// `part` stands somewhere in `whole`, unbroken.
pub open spec fn contains_text(whole: Seq<char>, part: Seq<char>) -> bool {
    exists|at: int| occurs_at(whole, part, at)
}

/// A text occurs in whatever is written around it.
pub proof fn lemma_contains_between(before: Seq<char>, part: Seq<char>, after: Seq<char>)
    ensures
        contains_text(before + part + after, part),
{
    let whole = before + part + after;
    let at = before.len() as int;
    assert(whole.subrange(at, at + part.len()) =~= part);
    assert(occurs_at(whole, part, at));
}

/// A text occurs at the end of whatever is written before it.
pub proof fn lemma_contains_suffix(before: Seq<char>, part: Seq<char>)
    ensures
        contains_text(before + part, part),
{
    lemma_contains_between(before, part, Seq::empty());
    assert(before + part + Seq::empty() =~= before + part);
}

} // verus!
