//! The combinator as a method of every iterator.

use vstd::prelude::*;
use crate::zip::{zip_with, ZipWith};

verus! {

/// Gives every iterator the method `zip_with`, which combines it, as the
/// left side, with another iterator.
pub trait IntoZipWith: Iterator + Sized {
    /// Wraps this iterator, `other` and `zipper` exactly as the free
    /// function `zip_with` does, with this iterator as the left side.
    fn zip_with<R, F, S>(self, other: R, zipper: F) -> (z: ZipWith<Self, R, F>) where
        R: Iterator,
        F: Fn(Self::Item, R::Item) -> S,

        ensures
            z.left() == self,
            z.right() == other,
            z.zipper() == zipper,
    {
        zip_with(self, other, zipper)
    }
}

impl<T: Iterator> IntoZipWith for T {

}

} // verus!
