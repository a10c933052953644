use vstd::prelude::*;

verus! {

/// `needle` occurs contiguously inside `hay`.
pub open spec fn contains_seq<T>(hay: Seq<T>, needle: Seq<T>) -> bool {
    exists|i: int|
        0 <= i && i + needle.len() <= hay.len() && #[trigger] hay.subrange(i, i + needle.len())
            == needle
}

/// A sequence that stands at a known offset of another occurs in it.
pub proof fn lemma_contains_at<T>(hay: Seq<T>, needle: Seq<T>, at: int)
    requires
        0 <= at,
        at + needle.len() <= hay.len(),
        hay.subrange(at, at + needle.len()) == needle,
    ensures
        contains_seq(hay, needle),
{
    assert(0 <= at && at + needle.len() <= hay.len() && hay.subrange(at, at + needle.len())
        == needle);
}

} // verus!
