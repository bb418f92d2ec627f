//! Non-empty views over contiguous memory.
//!
//! Three types, each statically guaranteeing at least one element: a
//! read-only view ([`NonEmptySlice`]), an exclusive view
//! ([`NonEmptyMutSlice`]), and an owning growable buffer
//! ([`NonEmptyVec`]). The emptiness check is paid once, at construction;
//! afterwards `first`, `last` and the `split` operations are total, and
//! each contract says exactly which element or sub-view comes back.

mod slice;
mod vec;

pub use slice::lemma_single_element_first_is_last;
pub use slice::write_edges_through_view;
pub use slice::write_split_through_view;
pub use slice::NonEmptyMutSlice;
pub use slice::NonEmptySlice;
pub use vec::round_trip_through_buffer;
pub use vec::write_edges_through_buffer;
pub use vec::NonEmptyVec;
