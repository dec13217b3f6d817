//! A vector with a fixed capacity `N`: it holds at most `N` values and never
//! grows beyond that bound. Running out of room is an error handed back to
//! the caller, together with the value that did not fit.
//!
//! The bound is a rule on the contents, not a layout: the values are kept in
//! a heap-allocated `Vec` (and, while consumed by value, in a `VecDeque`),
//! since inline storage of not-yet-written slots cannot be had without
//! `unsafe` code.

pub mod error;
pub mod array_vec;
pub mod laws;
pub mod string;

pub use error::CapacityError;
pub use array_vec::{ArrayVec, IntoIter};
pub use string::ArrayString;
