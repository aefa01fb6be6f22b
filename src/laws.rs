use vstd::prelude::*;

use crate::dtype::{accepts, tag_is_container, Accessor, Dtype};
use crate::node::{join_path, lemma_steps_range, steps, WzCtx};
use crate::value::len_of;

verus! {

/// Opening an archive through a context leaves the context as it was: once
/// an archive opened through it has been dropped, the context opens the
/// next archive whose native open succeeds, whatever came before.
pub proof fn lemma_context_reopens<H, F>(c: &WzCtx<H>, first: Option<F>, second: F)
    ensures
        c.open_outcome(Some(second)) == Ok::<F, crate::error::WzError>(second),
        c.open_outcome(first) is Ok <==> first is Some,
{
}

/// Every node's type names at most one accessor that can read it, and that
/// accessor is the one its type calls for: two accessors that both accept a
/// tag are the same, and an accessor accepts a tag exactly when the tag's
/// kind calls for that accessor. Every other accessor reports a type error.
pub proof fn lemma_one_accessor_per_tag(a: Accessor, b: Accessor, tag: u8)
    ensures
        accepts(a, tag) && accepts(b, tag) ==> a == b,
        accepts(a, tag) <==> (Dtype::spec_from_u8(tag) matches Some(t) && t.accessor() == Some(a)),
{
}

/// A walk over a node's children visits the indices `0, 1, ...` up to the
/// node's length, each once and in order, so it yields as many children as
/// the node's length; a node that is neither an array nor an image yields
/// none.
pub proof fn lemma_walk_matches_len(tag: u8, status: i32, count: u32)
    ensures
        steps(0, len_of(tag, status, count)) == Seq::new(
            len_of(tag, status, count) as nat,
            |k: int| k as u32,
        ),
        steps(0, len_of(tag, status, count)).len() == len_of(tag, status, count),
        !tag_is_container(tag) ==> steps(0, len_of(tag, status, count)).len() == 0,
{
    let n = len_of(tag, status, count);
    lemma_steps_range(0, n);
    assert(Seq::new(n as nat, |k: int| (0 + k) as u32) =~= Seq::new(n as nat, |k: int| k as u32));
}

/// Resolving a multi-segment path at once gives the same diagnostic path as
/// resolving its first segment and then the rest: `parent/a` then `b/c`
/// names what `parent` then `a/b/c` names.
pub proof fn lemma_path_round_trip(parent: Seq<char>, first: Seq<char>, rest: Seq<char>)
    ensures
        join_path(join_path(parent, first), rest) == join_path(parent, join_path(first, rest)),
{
    assert(join_path(join_path(parent, first), rest) =~= join_path(
        parent,
        join_path(first, rest),
    ));
}

/// A node has no child at an index at or past its length, and a node that
/// is neither an array nor an image has no child at any index.
pub proof fn lemma_index_bounds(tag: u8, status: i32, count: u32, i: u32)
    ensures
        !tag_is_container(tag) ==> len_of(tag, status, count) == 0,
        !tag_is_container(tag) ==> !(i < len_of(tag, status, count)),
{
}

} // verus!
