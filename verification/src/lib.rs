//! A fixed-capacity, contiguous buffer: array-like random access and O(1)
//! append without reallocation, with the capacity fixed at construction.
pub mod bounded_buf;

pub use bounded_buf::BoundedBuffer;
