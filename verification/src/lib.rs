//! Lazy pairwise combination of two iterators through a caller-supplied
//! function, stopping at the shorter side.

pub mod fluent;
pub mod hint;
pub mod laws;
pub mod zip;

pub use fluent::IntoZipWith;
pub use hint::merge_hints;
pub use zip::{zip_with, ZipWith};
