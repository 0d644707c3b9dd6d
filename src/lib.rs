//! Ordered lifetimes for a display connection and the resources that borrow
//! it: a registry that refuses to invalidate a root while dependents remain,
//! dependent resources with a bounded stop protocol, and a controller that
//! drives startup and teardown through the registry.

pub mod controller;
pub mod error;
pub mod laws;
pub mod registry;
pub mod resources;
