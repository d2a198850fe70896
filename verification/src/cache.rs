//! Storage of the cache.
pub mod wrappers;
