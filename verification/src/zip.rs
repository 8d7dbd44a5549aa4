//! The pairwise combinator: two iterators and a function, pulled in step.

use vstd::prelude::*;
use vstd::std_specs::iter::IteratorSpec;
use crate::hint::{merge_hints, merged_hint};

verus! {

/// Two iterators and the function that combines what they yield, pair by
/// pair. Nothing is pulled from either side until the combination itself is
/// pulled.
#[derive(Clone)]
#[must_use]
pub struct ZipWith<T, U, F> {
    left: T,
    right: U,
    zipper: F,
}

/// The pairs that two sequences form position by position, as many as the
/// shorter sequence has items.
pub open spec fn paired<A, B>(left: Seq<A>, right: Seq<B>) -> Seq<(A, B)> {
    Seq::new(
        if left.len() <= right.len() {
            left.len()
        } else {
            right.len()
        },
        |i: int| (left[i], right[i]),
    )
}

/// `zipper` can be called on each of `pairs`.
pub open spec fn accepts<A, B, R, F: Fn(A, B) -> R>(zipper: F, pairs: Seq<(A, B)>) -> bool {
    forall|i: int| 0 <= i < pairs.len() ==> call_requires(zipper, #[trigger] pairs[i])
}

/// `out` is a possible outcome of applying `zipper` to each of `pairs` in
/// turn: as long as `pairs`, and item by item a result of `zipper`.
pub open spec fn combines<A, B, R, F: Fn(A, B) -> R>(
    zipper: F,
    pairs: Seq<(A, B)>,
    out: Seq<R>,
) -> bool {
    &&& out.len() == pairs.len()
    &&& forall|i: int| 0 <= i < out.len() ==> call_ensures(zipper, pairs[i], #[trigger] out[i])
}

impl<T: Iterator, U: Iterator, F> ZipWith<T, U, F> {
    /// The left side.
    pub closed spec fn left(self) -> T {
        self.left
    }

    /// The right side.
    pub closed spec fn right(self) -> U {
        self.right
    }

    /// The combining function.
    pub closed spec fn zipper(self) -> F {
        self.zipper
    }

    /// Both sides end after finitely many items and stay ended.
    pub open spec fn finite(self) -> bool {
        self.left().obeys_prophetic_iter_laws() && self.right().obeys_prophetic_iter_laws()
    }

    /// A number that gets smaller with every combined item that is pulled,
    /// where either side has such a number: the left side's, else the
    /// right side's.
    pub open spec fn measure(self) -> Option<nat> {
        if self.left().decrease() is Some {
            self.left().decrease()
        } else {
            self.right().decrease()
        }
    }
}

/// Wraps two iterators and a combining function. Nothing is pulled and
/// nothing is combined until the result is pulled.
pub fn zip_with<T, U, R, F>(left: T, right: U, zipper: F) -> (z: ZipWith<T, U, F>) where
    T: Iterator,
    U: Iterator,
    F: Fn(T::Item, U::Item) -> R,

    ensures
        z.left() == left,
        z.right() == right,
        z.zipper() == zipper,
{
    ZipWith { left, right, zipper }
}

/// What one pull yields from the items that the two sides still hold:
/// a result of `zipper` on the two first items where both sides have one,
/// nothing where either side is at its end.
pub open spec fn pulled<A, B, R, F: Fn(A, B) -> R>(
    zipper: F,
    left: Seq<A>,
    right: Seq<B>,
    item: Option<R>,
) -> bool {
    if left.len() > 0 && right.len() > 0 {
        item matches Some(v) && call_ensures(zipper, (left[0], right[0]), v)
    } else {
        item is None
    }
}

/// What a side that is pulled once still holds afterwards.
pub open spec fn rest<A>(items: Seq<A>) -> Seq<A> {
    if items.len() > 0 {
        items.drop_first()
    } else {
        items
    }
}

/// One pull as a whole: what it yields, and what the two sides hold
/// afterwards. The left side is pulled; the right side is pulled only where
/// the left side had an item.
pub open spec fn step<A, B, R, F: Fn(A, B) -> R>(
    zipper: F,
    left: Seq<A>,
    right: Seq<B>,
    item: Option<R>,
    left_after: Seq<A>,
    right_after: Seq<B>,
) -> bool {
    &&& pulled(zipper, left, right, item)
    &&& left_after == rest(left)
    &&& right_after == if left.len() > 0 {
        rest(right)
    } else {
        right
    }
}

/// Asks one side for its size estimate, through `Iterator::size_hint` of the
/// standard library. An estimate binds the side to nothing, so nothing is
/// claimed of it.
#[verifier::external_body]
fn side_hint<I: Iterator>(side: &I) -> (hint: (usize, Option<usize>)) {
    side.size_hint()
}

/// `hint` is an estimate that `side` gives of itself when it is asked. No
/// more is known of it: a side may answer what it likes, and need not
/// answer the same twice.
pub closed spec fn estimates<I: Iterator>(side: &I, hint: (usize, Option<usize>)) -> bool {
    call_ensures(side_hint::<I>, (side,), hint)
}

impl<T: Iterator, U: Iterator, R, F: Fn(T::Item, U::Item) -> R> ZipWith<T, U, F> {
    /// Pulls the next combined item: first from the left side, and only if
    /// that yields an item from the right side; combines the two items if
    /// both sides yield one. A left side at its end leaves the right side
    /// as it was.
    pub fn next(&mut self) -> (item: Option<R>)
        requires
            old(self).finite() && old(self).left().remaining().len() > 0 && old(
                self,
            ).right().remaining().len() > 0 ==> call_requires(
                old(self).zipper(),
                (old(self).left().remaining()[0], old(self).right().remaining()[0]),
            ),
            !old(self).finite() ==> forall|l: T::Item, r: U::Item| #[trigger]
                call_requires(old(self).zipper(), (l, r)),
        ensures
            final(self).zipper() == old(self).zipper(),
            final(self).left().obeys_prophetic_iter_laws() == old(
                self,
            ).left().obeys_prophetic_iter_laws(),
            final(self).right().obeys_prophetic_iter_laws() == old(
                self,
            ).right().obeys_prophetic_iter_laws(),
            old(self).left().obeys_prophetic_iter_laws() ==> final(self).left().remaining() == rest(
                old(self).left().remaining(),
            ),
            old(self).left().obeys_prophetic_iter_laws() && old(self).left().remaining().len() == 0
                ==> item is None && final(self).right() == old(self).right(),
            old(self).right().obeys_prophetic_iter_laws() && old(self).right().remaining().len()
                == 0 ==> item is None && final(self).right().remaining() == old(
                self,
            ).right().remaining(),
            old(self).finite() ==> step(
                old(self).zipper(),
                old(self).left().remaining(),
                old(self).right().remaining(),
                item,
                final(self).left().remaining(),
                final(self).right().remaining(),
            ),
            old(self).finite() ==> paired(
                final(self).left().remaining(),
                final(self).right().remaining(),
            ) == rest(paired(old(self).left().remaining(), old(self).right().remaining())),
            old(self).finite() ==> (old(self).measure() is Some <==> final(self).measure() is Some),
            old(self).finite() && item is Some && old(self).measure() is Some ==> decreases_to!(
                old(self).measure()->0 => final(self).measure()->0
            ),
    {
        match self.left.next() {
            Some(l) => match self.right.next() {
                Some(r) => {
                    assert(call_requires(old(self).zipper(), (l, r)));
                    Some((self.zipper)(l, r))
                },
                None => None,
            },
            None => None,
        }
    }

    /// An estimate of how many combined items are still to come: an estimate
    /// of the left side and one of the right side, merged. The lower bound is
    /// the smaller lower bound; the upper bound is the smaller upper bound
    /// where both sides have one, the only one where one side has, and none
    /// where neither has. It pulls nothing, and binds `next` to nothing.
    pub fn size_hint(&self) -> (hint: (usize, Option<usize>))
        ensures
            exists|left: (usize, Option<usize>), right: (usize, Option<usize>)|
                #![trigger estimates(&self.left(), left), estimates(&self.right(), right)]
                estimates(&self.left(), left) && estimates(&self.right(), right) && hint
                    == merged_hint(left, right),
    {
        let left = side_hint(&self.left);
        let right = side_hint(&self.right);
        proof {
            assert(estimates(&self.left(), left));
            assert(estimates(&self.right(), right));
        }
        merge_hints(left, right)
    }

    /// Pulls until either side is at its end, and returns the combined
    /// items in the order in which they were pulled.
    pub fn collect(self) -> (out: Vec<R>)
        requires
            self.finite(),
            self.measure() is Some,
            accepts(self.zipper(), paired(self.left().remaining(), self.right().remaining())),
        ensures
            combines(
                self.zipper(),
                paired(self.left().remaining(), self.right().remaining()),
                out@,
            ),
    {
        let ghost pairs = paired(self.left().remaining(), self.right().remaining());
        let mut z = self;
        let mut out: Vec<R> = Vec::new();
        loop
            invariant_except_break
                z.left().remaining() == self.left().remaining().skip(out.len() as int),
                z.right().remaining() == self.right().remaining().skip(out.len() as int),
            invariant
                z.finite(),
                z.measure() is Some,
                z.zipper() == self.zipper(),
                pairs == paired(self.left().remaining(), self.right().remaining()),
                accepts(self.zipper(), pairs),
                out.len() <= pairs.len(),
                forall|i: int|
                    0 <= i < out.len() ==> call_ensures(self.zipper(), pairs[i], #[trigger] out[i]),
            ensures
                out.len() == pairs.len(),
            decreases z.measure()->0,
        {
            assert(out.len() < pairs.len() ==> pairs[out.len() as int] == (
                z.left().remaining()[0],
                z.right().remaining()[0],
            ));
            match z.next() {
                Some(v) => {
                    out.push(v);
                    assert(z.left().remaining() == self.left().remaining().skip(out.len() as int));
                    assert(z.right().remaining() == self.right().remaining().skip(
                        out.len() as int,
                    ));
                },
                None => break,
            }
        }
        out
    }
}

/// Two combinators that hold the same sides and the same function are the
/// same combinator.
pub proof fn lemma_same_parts<T: Iterator, U: Iterator, F>(
    a: ZipWith<T, U, F>,
    b: ZipWith<T, U, F>,
)
    requires
        a.left() == b.left(),
        a.right() == b.right(),
        a.zipper() == b.zipper(),
    ensures
        a == b,
{
}

} // verus!
