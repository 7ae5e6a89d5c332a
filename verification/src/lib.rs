//! Disjoint mutable access into one fixed-length collection.
//!
//! Given a collection and a list of requested positions, the library first
//! proves that the positions are pairwise distinct and in bounds (the
//! validation stage), and only then hands out one [`Handle`] per requested
//! position (the materialization stage).  Each handle targets exactly one
//! element, no two handles from one call target the same cell, and the k-th
//! handle always targets the k-th requested position.
//!
//! Validation comes in two modes: *unordered* (positions may arrive in any
//! order; a working copy is sorted first) and *ordered* (positions must
//! already be strictly increasing).  Every surface function exists in a
//! checked form, whose preconditions demand valid positions, and a fallible
//! form, which reports a [`TryIndicesError`] or [`TryIndicesOrderedError`]
//! instead.

mod errors;
mod fixed;
mod groups;
mod handles;
mod slices;
mod sort;
mod validate;

pub use errors::TryIndicesError;
pub use errors::TryIndicesOrderedError;
pub use fixed::indices1;
pub use fixed::indices2;
pub use fixed::indices3;
pub use fixed::indices4;
pub use fixed::indices5;
pub use fixed::indices_ordered1;
pub use fixed::indices_ordered2;
pub use fixed::indices_ordered3;
pub use fixed::indices_ordered4;
pub use fixed::indices_ordered5;
pub use fixed::try_indices1;
pub use fixed::try_indices2;
pub use fixed::try_indices3;
pub use fixed::try_indices4;
pub use fixed::try_indices5;
pub use fixed::try_indices_ordered1;
pub use fixed::try_indices_ordered2;
pub use fixed::try_indices_ordered3;
pub use fixed::try_indices_ordered4;
pub use fixed::try_indices_ordered5;
pub use groups::combined_positions;
pub use groups::group_views;
pub use groups::indices_slices;
pub use groups::try_indices_slices;
pub use handles::Handle;
pub use handles::is_target;
pub use handles::lemma_disjoint_writes;
pub use handles::lemma_writes_commute;
pub use handles::materialize;
pub use handles::write_all;
pub use slices::indices_array;
pub use slices::indices_slice;
pub use slices::try_indices_array;
pub use slices::try_indices_slice;
pub use sort::insertion_sort;
pub use sort::sorted;
pub use validate::all_in_bounds;
pub use validate::has_duplicate;
pub use validate::lemma_bounds_law;
pub use validate::lemma_duplicate_law;
pub use validate::lemma_empty_law;
pub use validate::lemma_order_law;
pub use validate::lemma_validation_idempotent;
pub use validate::ordered_outcome;
pub use validate::strictly_increasing;
pub use validate::unordered_outcome;
pub use validate::validate_ordered;
pub use validate::validate_unordered;
