//! Size estimates: how the estimates of two sides merge into the estimate
//! of their pairwise combination.

use vstd::prelude::*;

verus! {

/// The smaller of two counts.
pub open spec fn lesser(a: usize, b: usize) -> usize {
    if a <= b {
        a
    } else {
        b
    }
}

/// The upper bound of the combination: the smaller of two known bounds,
/// the known one where only one side has a bound, nothing where neither has.
pub open spec fn merged_upper(left: Option<usize>, right: Option<usize>) -> Option<usize> {
    match (left, right) {
        (Some(l), Some(r)) => Some(lesser(l, r)),
        (Some(l), None) => Some(l),
        (None, Some(r)) => Some(r),
        (None, None) => None,
    }
}

/// The estimate of the combination: the smaller lower bound, and the
/// merged upper bound.
pub open spec fn merged_hint(
    left: (usize, Option<usize>),
    right: (usize, Option<usize>),
) -> (usize, Option<usize>) {
    (lesser(left.0, right.0), merged_upper(left.1, right.1))
}

/// Merges the size estimates of the two sides into the estimate of their
/// pairwise combination.
pub fn merge_hints(left: (usize, Option<usize>), right: (usize, Option<usize>)) -> (hint: (
    usize,
    Option<usize>,
))
    ensures
        hint == merged_hint(left, right),
{
    let lower: usize = if left.0 <= right.0 {
        left.0
    } else {
        right.0
    };
    let upper: Option<usize> = match left.1 {
        Some(l) => match right.1 {
            Some(r) => Some(if l <= r {
                l
            } else {
                r
            }),
            None => Some(l),
        },
        None => match right.1 {
            Some(r) => Some(r),
            None => None,
        },
    };
    (lower, upper)
}

} // verus!
