//! What holds of every combination, whatever the sides and the function.

use vstd::prelude::*;
use crate::zip::{combines, lemma_same_parts, paired, pulled, step, ZipWith};

verus! {

/// Where the combining function computes `g`, two sequences of `m` and `n`
/// items combine to the smaller of `m` and `n` items, and the item at each
/// position is `g` of the two items at that position.
pub proof fn lemma_combined_items<A, B, R, F: Fn(A, B) -> R>(
    zipper: F,
    g: spec_fn(A, B) -> R,
    left: Seq<A>,
    right: Seq<B>,
    out: Seq<R>,
)
    requires
        combines(zipper, paired(left, right), out),
        forall|a: A, b: B, r: R| call_ensures(zipper, (a, b), r) ==> r == g(a, b),
    ensures
        out.len() == if left.len() <= right.len() {
            left.len()
        } else {
            right.len()
        },
        forall|i: int| 0 <= i < out.len() ==> out[i] == g(left[i], right[i]),
{
    let pairs = paired(left, right);
    assert forall|i: int| 0 <= i < out.len() implies out[i] == g(left[i], right[i]) by {
        assert(call_ensures(zipper, pairs[i], out[i]));
        assert(pairs[i] == (left[i], right[i]));
    }
}

/// Where either side has no items, the combination has none, however many
/// the other side has.
pub proof fn lemma_empty_side<A, B, R, F: Fn(A, B) -> R>(
    zipper: F,
    left: Seq<A>,
    right: Seq<B>,
    out: Seq<R>,
)
    requires
        left.len() == 0 || right.len() == 0,
        combines(zipper, paired(left, right), out),
    ensures
        out == Seq::<R>::empty(),
{
    assert(out =~= Seq::<R>::empty());
}

/// The end is permanent: after a pull that yields nothing, the next pull
/// yields nothing either.
pub proof fn lemma_end_is_permanent<A, B, R, F: Fn(A, B) -> R>(
    zipper: F,
    left: Seq<A>,
    right: Seq<B>,
    item: Option<R>,
    left_after: Seq<A>,
    right_after: Seq<B>,
    next_item: Option<R>,
)
    requires
        step(zipper, left, right, item, left_after, right_after),
        item is None,
        pulled(zipper, left_after, right_after, next_item),
    ensures
        next_item is None,
        paired(left_after, right_after) == Seq::<(A, B)>::empty(),
{
    assert(paired(left_after, right_after) =~= Seq::<(A, B)>::empty());
}

/// Every pull that yields an item takes exactly one item from each side,
/// and a pull at the left side's end takes nothing from the right side.
pub proof fn lemma_one_item_from_each_side<A, B, R, F: Fn(A, B) -> R>(
    zipper: F,
    left: Seq<A>,
    right: Seq<B>,
    item: Option<R>,
    left_after: Seq<A>,
    right_after: Seq<B>,
)
    requires
        step(zipper, left, right, item, left_after, right_after),
    ensures
        item is Some ==> left_after.len() == left.len() - 1 && right_after.len() == right.len()
            - 1,
        item is Some ==> left_after == left.skip(1) && right_after == right.skip(1),
        left.len() == 0 ==> item is None && right_after == right,
{
    if item is Some {
        assert(left_after =~= left.skip(1));
        assert(right_after =~= right.skip(1));
    }
}

/// The free function and the method build the same combinator from the same
/// sides and the same function: each returns a combinator that holds the
/// three as they were given, and those three are all that a combinator is.
/// So what is pulled from the one is pulled from the other.
pub proof fn lemma_fluent_equivalence<T: Iterator, U: Iterator, F>(
    left: T,
    right: U,
    zipper: F,
    by_function: ZipWith<T, U, F>,
    by_method: ZipWith<T, U, F>,
)
    requires
        by_function.left() == left && by_function.right() == right && by_function.zipper()
            == zipper,
        by_method.left() == left && by_method.right() == right && by_method.zipper() == zipper,
    ensures
        by_function == by_method,
{
    lemma_same_parts(by_function, by_method);
}

} // verus!
