//! Mathematical vocabulary for the texts the service produces.

use vstd::prelude::*;

verus! {

/// `part` occurs in `s` as a contiguous run of characters.
pub open spec fn contains_text(s: Seq<char>, part: Seq<char>) -> bool {
    exists|i: int| occurs_at(s, part, i)
}

/// `part` occurs in `s` starting at position `i`.
pub open spec fn occurs_at(s: Seq<char>, part: Seq<char>, i: int) -> bool {
    &&& 0 <= i
    &&& i + part.len() <= s.len()
    &&& s.subrange(i, i + part.len()) == part
}

/// A text built as `before + part + after` contains `part`.
pub proof fn lemma_concat_contains(before: Seq<char>, part: Seq<char>, after: Seq<char>)
    ensures
        contains_text(before + part + after, part),
{
    let s = before + part + after;
    let i = before.len() as int;
    assert(s.subrange(i, i + part.len()) =~= part);
    assert(occurs_at(s, part, i));
}

/// Containment is transitive: a part of a part is a part.
pub proof fn lemma_contains_transitive(s: Seq<char>, mid: Seq<char>, part: Seq<char>)
    requires
        contains_text(s, mid),
        contains_text(mid, part),
    ensures
        contains_text(s, part),
{
    let i = choose|i: int| occurs_at(s, mid, i);
    let j = choose|j: int| occurs_at(mid, part, j);
    assert(s.subrange(i + j, i + j + part.len()) =~= mid.subrange(j, j + part.len()));
    assert(occurs_at(s, part, i + j));
}

} // verus!
