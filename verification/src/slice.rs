mod share;
mod unique;

pub use share::lemma_single_element_first_is_last;
pub use share::NonEmptySlice;
pub use unique::write_edges_through_view;
pub use unique::write_split_through_view;
pub use unique::NonEmptyMutSlice;
