use vstd::prelude::*;

use crate::error::LifetimeError;
use crate::registry::{
    after_unregister, is_registered, token_is_fresh, unregister_outcome, with_dependent,
    without_dependent, DependentHandle, ResourceLifetimeRegistry, RootHandle,
};

verus! {

/// How many joins of a worker may fail before its shutdown is reported as
/// timed out.
pub const MAX_JOIN_ATTEMPTS: u32 = 3;

/// Lifecycle of the worker behind a dependent resource.
#[derive(Clone, Copy, Debug, PartialEq, Eq, Structural)]
pub enum WorkerState {
    /// The worker runs and may use the root.
    Running,
    /// A stop was signalled; `failed_joins` joins have not completed yet.
    Stopping { failed_joins: u32 },
    /// The worker has joined and the resource no longer holds its root.
    Stopped,
}

/// Failed joins recorded so far in `s`.
pub open spec fn failed_joins_of(s: WorkerState) -> nat {
    match s {
        WorkerState::Stopping { failed_joins } => failed_joins as nat,
        _ => 0,
    }
}

/// What the caller should do after a join attempt was recorded.
#[derive(Clone, Copy, Debug, PartialEq, Eq, Structural)]
pub enum StopProgress {
    /// The worker joined; the resource is unregistered from its root.
    Stopped,
    /// The join timed out: signal the worker again, back off, and join again.
    Retry,
}

/// A service whose background worker borrows a root for as long as it runs.
///
/// It is registered as a dependent of its root from `start` until its worker
/// has provably joined, so the root cannot be invalidated under it.
pub struct DependentResource {
    handle: DependentHandle,
    state: WorkerState,
}

impl View for DependentResource {
    /// Root identifier, registration token and worker state.
    type V = (u64, u64, WorkerState);

    closed spec fn view(&self) -> (u64, u64, WorkerState) {
        (self.handle@.0, self.handle@.1, self.state)
    }
}

impl DependentResource {
    /// Registers a new dependent `id` against `root`; the caller spawns the
    /// worker once this succeeds. Fails, changing nothing, when the root is
    /// no longer valid.
    pub fn start(registry: &mut ResourceLifetimeRegistry, root: RootHandle, id: u64) -> (r: Result<
        DependentResource,
        LifetimeError,
    >)
        requires
            old(registry).wf(),
            old(registry).tokens_issued() < u64::MAX,
        ensures
            final(registry).wf(),
            !old(registry)@.contains_key(root@) ==> r == Err::<DependentResource, LifetimeError>(
                LifetimeError::RootAlreadyInvalid,
            ) && final(registry)@ == old(registry)@ && final(registry).tokens_issued() == old(
                registry,
            ).tokens_issued(),
            old(registry)@.contains_key(root@) ==> (r matches Ok(d) && d@.0 == root@ && d@.1 == old(
                registry,
            ).tokens_issued() && d@.2 == WorkerState::Running && token_is_fresh(
                old(registry)@,
                d@.1,
            ) && final(registry)@ == with_dependent(old(registry)@, root@, d@.1, id))
                && final(registry).tokens_issued() == old(registry).tokens_issued() + 1,
    {
        match registry.register_dependent(root, id) {
            Ok(handle) => Ok(DependentResource { handle, state: WorkerState::Running }),
            Err(_) => Err(LifetimeError::RootAlreadyInvalid),
        }
    }

    /// Records the outcome of one join attempt on the worker, which the
    /// caller has signalled to stop.
    ///
    /// A completed join unregisters the resource and stops it. A join that
    /// timed out leaves the resource registered: `Retry` while attempts
    /// remain, and `WorkerShutdownTimeout` once `MAX_JOIN_ATTEMPTS` have
    /// failed.
    pub fn record_join(&mut self, registry: &mut ResourceLifetimeRegistry, joined: bool) -> (r:
        Result<StopProgress, LifetimeError>)
        requires
            old(registry).wf(),
            old(self)@.2 != WorkerState::Stopped,
            failed_joins_of(old(self)@.2) <= MAX_JOIN_ATTEMPTS,
            is_registered(old(registry)@, old(self)@.0, old(self)@.1),
        ensures
            final(registry).wf(),
            final(registry).tokens_issued() == old(registry).tokens_issued(),
            final(self)@.0 == old(self)@.0,
            final(self)@.1 == old(self)@.1,
            joined ==> r == Ok::<StopProgress, LifetimeError>(StopProgress::Stopped) && final(self)@.2
                == WorkerState::Stopped && final(registry)@ == without_dependent(
                old(registry)@,
                old(self)@.0,
                old(self)@.1,
            ),
            !joined ==> final(registry)@ == old(registry)@,
            !joined && failed_joins_of(old(self)@.2) + 1 < MAX_JOIN_ATTEMPTS ==> r == Ok::<
                StopProgress,
                LifetimeError,
            >(StopProgress::Retry) && final(self)@.2 == (WorkerState::Stopping {
                failed_joins: (failed_joins_of(old(self)@.2) + 1) as u32,
            }),
            !joined && failed_joins_of(old(self)@.2) + 1 >= MAX_JOIN_ATTEMPTS ==> r == Err::<
                StopProgress,
                LifetimeError,
            >(LifetimeError::WorkerShutdownTimeout) && final(self)@.2 == (WorkerState::Stopping {
                failed_joins: MAX_JOIN_ATTEMPTS,
            }),
    {
        if joined {
            let res = registry.unregister_dependent(self.handle);
            assert(res is Ok);
            self.state = WorkerState::Stopped;
            return Ok(StopProgress::Stopped);
        }
        let failed: u32 = match self.state {
            WorkerState::Stopping { failed_joins } => failed_joins,
            _ => 0,
        };
        if failed + 1 < MAX_JOIN_ATTEMPTS {
            self.state = WorkerState::Stopping { failed_joins: failed + 1 };
            Ok(StopProgress::Retry)
        } else {
            self.state = WorkerState::Stopping { failed_joins: MAX_JOIN_ATTEMPTS };
            Err(LifetimeError::WorkerShutdownTimeout)
        }
    }

    /// The worker's current state.
    pub fn state(&self) -> (r: WorkerState)
        ensures
            r == self@.2,
    {
        self.state
    }

    /// The registration token of this resource.
    pub fn handle(&self) -> (r: DependentHandle)
        ensures
            r@ == (self@.0, self@.1),
    {
        self.handle
    }
}

/// A window bound to a root; it has no worker of its own.
pub struct Window {
    handle: DependentHandle,
}

impl View for Window {
    /// Root identifier and registration token.
    type V = (u64, u64);

    closed spec fn view(&self) -> (u64, u64) {
        self.handle@
    }
}

impl Window {
    /// Registers window `id` against `root`. Fails, changing nothing, when
    /// the root is no longer valid.
    pub fn create(registry: &mut ResourceLifetimeRegistry, root: RootHandle, id: u64) -> (r: Result<
        Window,
        LifetimeError,
    >)
        requires
            old(registry).wf(),
            old(registry).tokens_issued() < u64::MAX,
        ensures
            final(registry).wf(),
            !old(registry)@.contains_key(root@) ==> r == Err::<Window, LifetimeError>(
                LifetimeError::RootAlreadyInvalid,
            ) && final(registry)@ == old(registry)@ && final(registry).tokens_issued() == old(
                registry,
            ).tokens_issued(),
            old(registry)@.contains_key(root@) ==> (r matches Ok(w) && w@.0 == root@ && w@.1 == old(
                registry,
            ).tokens_issued() && token_is_fresh(old(registry)@, w@.1) && final(registry)@
                == with_dependent(old(registry)@, root@, w@.1, id)) && final(registry).tokens_issued()
                == old(registry).tokens_issued() + 1,
    {
        match registry.register_dependent(root, id) {
            Ok(handle) => Ok(Window { handle }),
            Err(_) => Err(LifetimeError::RootAlreadyInvalid),
        }
    }

    /// Unregisters the window from its root.
    pub fn destroy(self, registry: &mut ResourceLifetimeRegistry) -> (r: Result<(), LifetimeError>)
        requires
            old(registry).wf(),
        ensures
            final(registry).wf(),
            final(registry).tokens_issued() == old(registry).tokens_issued(),
            r == unregister_outcome(old(registry)@, self@.0, self@.1),
            final(registry)@ == after_unregister(old(registry)@, self@.0, self@.1),
    {
        registry.unregister_dependent(self.handle)
    }

    /// The registration token of this window.
    pub fn handle(&self) -> (r: DependentHandle)
        ensures
            r@ == self@,
    {
        self.handle
    }
}

} // verus!
