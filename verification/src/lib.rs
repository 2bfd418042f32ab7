//! Collection Traits (cl-traits)
//!
//! Many data structures have unique features that make it difficult or even impossible to create
//! a single `trait` that fits all. This crate tries to circumvent such behaviour by providing
//! a single method for each `trait` to achieve maximum flexibility and freedom.
//!
//! Every trait states what its method promises through predicates that each
//! implementation fills in, and every implementation in this crate is proved
//! against its own. The heart of the crate is the construction of arrays element
//! by element ([`create_array`], [`try_create_array`]) and the wrapper that
//! makes an array usable where a uniform surface is asked for ([`ArrayWrapper`]).

pub mod array;
pub mod array_wrapper;
pub mod capacity;
pub mod capacity_upper_bound;
pub mod clear;
pub mod comparison;
pub mod derive_plan;
pub mod doc_tests;
pub mod insert;
pub mod length;
pub mod push;
pub mod remove;
pub mod retain;
pub mod storage;
pub mod swap;
pub mod truncate;
pub mod utils;
pub mod with_arrayvec;
pub mod with_capacity;
pub mod with_smallvec;
pub mod with_tinyvec;

pub use array::Array;
pub use array_wrapper::ArrayWrapper;
pub use capacity::Capacity;
pub use capacity_upper_bound::{capacity_upper_bound_for_heap, CapacityUpperBound};
pub use clear::Clear;
pub use insert::Insert;
pub use length::Length;
pub use push::Push;
pub use remove::Remove;
pub use retain::Retain;
pub use storage::Storage;
pub use swap::Swap;
pub use truncate::Truncate;
pub use utils::{create_array, default_array, try_create_array};
pub use with_capacity::WithCapacity;
