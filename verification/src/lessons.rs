//! The computational parts of the lesson bodies: the helper functions and
//! types each lesson demonstrates, with their contracts. The surrounding
//! console narration lives with the caller.

pub mod borrowing;
pub mod enums_matching;
pub mod error_handling;
pub mod functions;
pub mod generics;
pub mod hello_world;
pub mod iterators_closures;
pub mod lifetimes;
pub mod methods_assoc_fn;
pub mod modules_crates;
pub mod slices;
pub mod structs;
pub mod traits;
pub mod types;
