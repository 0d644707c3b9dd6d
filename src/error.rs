use vstd::prelude::*;

verus! {

/// Failures reported by the registry, the dependent resources and the controller.
#[derive(Clone, Copy, Debug, PartialEq, Eq, Structural)]
pub enum LifetimeError {
    /// A root with this identifier is already registered.
    DuplicateRoot,
    /// The root was never registered, or has already been invalidated.
    UnknownRoot,
    /// A resource was started against a root that is no longer valid.
    RootAlreadyInvalid,
    /// The root still has registered dependents and cannot be invalidated.
    RootHasDependents,
    /// The dependent token is not (or no longer) registered.
    AlreadyUnregistered,
    /// A worker did not join within the allowed number of attempts.
    WorkerShutdownTimeout,
}

} // verus!
