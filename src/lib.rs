//! A registry of namespaces whose mints are authorised by a delegated
//! validator, with monotonic, overflow-checked identifier allocation.
pub mod allocator;
pub mod error;
pub mod laws;
pub mod registry;
