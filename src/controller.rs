use vstd::prelude::*;

use crate::error::LifetimeError;
use crate::registry::{RegistryModel, ResourceLifetimeRegistry, RootHandle};
use crate::resources::{
    failed_joins_of, DependentResource, StopProgress, Window, WorkerState, MAX_JOIN_ATTEMPTS,
};

verus! {

/// Phases of the application, in the only order they can be visited.
#[derive(Clone, Copy, Debug, PartialEq, Eq, Structural)]
pub enum Phase {
    Uninitialized,
    Running,
    ShuttingDown,
    Terminated,
}

/// Registry content while the display, the window and the service are alive:
/// the window holds the first token and the service the second.
pub open spec fn running_model(display_id: u64, window_id: u64, service_id: u64) -> RegistryModel {
    map![display_id => map![0u64 => window_id, 1u64 => service_id]]
}

/// Owns the registry and the resources, and drives startup and ordered
/// teardown: the service's worker is joined and the window destroyed before
/// the display root is invalidated.
pub struct ApplicationController {
    registry: ResourceLifetimeRegistry,
    phase: Phase,
    display_id: u64,
    window_id: u64,
    service_id: u64,
    root: Option<RootHandle>,
    window: Option<Window>,
    service: Option<DependentResource>,
}

impl View for ApplicationController {
    /// The phase and the registry's content.
    type V = (Phase, RegistryModel);

    closed spec fn view(&self) -> (Phase, RegistryModel) {
        (self.phase, self.registry@)
    }
}

impl ApplicationController {
    /// Identifiers of the display, the window and the service.
    pub closed spec fn ids(&self) -> (u64, u64, u64) {
        (self.display_id, self.window_id, self.service_id)
    }

    /// Failed joins of the service's worker during the current shutdown.
    pub closed spec fn failed_joins(&self) -> nat {
        match self.service {
            Some(s) => failed_joins_of(s@.2),
            None => 0,
        }
    }

    /// Each phase holds exactly the resources it should, and the registry
    /// accounts for every one of them.
    pub closed spec fn wf(&self) -> bool {
        &&& self.registry.wf()
        &&& match self.phase {
            Phase::Uninitialized => {
                &&& self.root is None
                &&& self.window is None
                &&& self.service is None
                &&& self.registry@ == RegistryModel::empty()
                &&& self.registry.tokens_issued() == 0
            },
            Phase::Running | Phase::ShuttingDown => {
                &&& self.root is Some
                &&& self.root->0@ == self.display_id
                &&& self.window is Some
                &&& self.window->0@ == (self.display_id, 0u64)
                &&& self.service is Some
                &&& self.service->0@.0 == self.display_id
                &&& self.service->0@.1 == 1
                &&& self.service->0@.2 != WorkerState::Stopped
                &&& failed_joins_of(self.service->0@.2) <= MAX_JOIN_ATTEMPTS
                &&& self.phase == Phase::Running ==> self.service->0@.2 == WorkerState::Running
                &&& self.registry@ == running_model(
                    self.display_id,
                    self.window_id,
                    self.service_id,
                )
            },
            Phase::Terminated => {
                &&& self.window is None
                &&& self.service is None
                &&& self.registry@ == RegistryModel::empty()
            },
        }
    }

    /// A controller that has created nothing yet.
    pub fn new(display_id: u64, window_id: u64, service_id: u64) -> (r: Self)
        ensures
            r.wf(),
            r@ == (Phase::Uninitialized, RegistryModel::empty()),
            r.ids() == (display_id, window_id, service_id),
            r.failed_joins() == 0,
    {
        ApplicationController {
            registry: ResourceLifetimeRegistry::new(),
            phase: Phase::Uninitialized,
            display_id,
            window_id,
            service_id,
            root: None,
            window: None,
            service: None,
        }
    }

    /// Startup: registers the display as a root, then the window and the
    /// service as its dependents, and enters `Running`. The caller creates
    /// the platform window and spawns the worker when this returns `true`.
    /// In any other phase nothing happens and the result is `false`.
    pub fn resume(&mut self) -> (r: bool)
        requires
            old(self).wf(),
        ensures
            final(self).wf(),
            final(self).ids() == old(self).ids(),
            old(self)@.0 == Phase::Uninitialized ==> r && final(self)@ == (
                Phase::Running,
                running_model(old(self).ids().0, old(self).ids().1, old(self).ids().2),
            ) && final(self).failed_joins() == 0,
            old(self)@.0 != Phase::Uninitialized ==> !r && final(self)@ == old(self)@
                && final(self).failed_joins() == old(self).failed_joins(),
    {
        match self.phase {
            Phase::Uninitialized => {},
            _ => {
                return false;
            },
        }
        let root = self.registry.register_root(self.display_id).unwrap();
        let window = Window::create(&mut self.registry, root, self.window_id).unwrap();
        let service = DependentResource::start(&mut self.registry, root, self.service_id).unwrap();
        assert(self.registry@[self.display_id] =~= map![0u64 => self.window_id, 1u64 => self.service_id]);
        assert(self.registry@ =~= running_model(self.display_id, self.window_id, self.service_id));
        self.root = Some(root);
        self.window = Some(window);
        self.service = Some(service);
        self.phase = Phase::Running;
        true
    }

    /// An external close signal: `Running` enters `ShuttingDown`, which the
    /// result reports. In any other phase nothing happens.
    pub fn request_shutdown(&mut self) -> (r: bool)
        requires
            old(self).wf(),
        ensures
            final(self).wf(),
            final(self).ids() == old(self).ids(),
            final(self).failed_joins() == old(self).failed_joins(),
            r == (old(self)@.0 == Phase::Running),
            r ==> final(self)@ == (Phase::ShuttingDown, old(self)@.1),
            !r ==> final(self)@ == old(self)@,
    {
        match self.phase {
            Phase::Running => {
                self.phase = Phase::ShuttingDown;
                true
            },
            _ => false,
        }
    }

    /// A timer tick: once `elapsed_ms` reaches `limit_ms`, acts as a close
    /// signal. The result reports whether shutdown began on this tick.
    pub fn on_tick(&mut self, elapsed_ms: u64, limit_ms: u64) -> (r: bool)
        requires
            old(self).wf(),
        ensures
            final(self).wf(),
            final(self).ids() == old(self).ids(),
            final(self).failed_joins() == old(self).failed_joins(),
            r == (elapsed_ms >= limit_ms && old(self)@.0 == Phase::Running),
            r ==> final(self)@ == (Phase::ShuttingDown, old(self)@.1),
            !r ==> final(self)@ == old(self)@,
    {
        if elapsed_ms >= limit_ms {
            self.request_shutdown()
        } else {
            false
        }
    }

    /// Records one join attempt on the service's worker, which the caller
    /// has signalled to stop.
    ///
    /// When the worker has joined, the service is unregistered, the window
    /// destroyed, the display root invalidated, and the phase is
    /// `Terminated`. When the join timed out nothing changes but the count of
    /// failed joins: the phase stays `ShuttingDown` (the caller signals and
    /// joins again) until `MAX_JOIN_ATTEMPTS` joins have failed, after which
    /// `WorkerShutdownTimeout` is reported and the root stays valid.
    pub fn record_worker_join(&mut self, joined: bool) -> (r: Result<Phase, LifetimeError>)
        requires
            old(self).wf(),
            old(self)@.0 == Phase::ShuttingDown,
        ensures
            final(self).wf(),
            final(self).ids() == old(self).ids(),
            joined ==> r == Ok::<Phase, LifetimeError>(Phase::Terminated) && final(self)@ == (
                Phase::Terminated,
                RegistryModel::empty(),
            ),
            !joined ==> final(self)@ == old(self)@,
            !joined && old(self).failed_joins() + 1 < MAX_JOIN_ATTEMPTS ==> r == Ok::<
                Phase,
                LifetimeError,
            >(Phase::ShuttingDown) && final(self).failed_joins() == old(self).failed_joins() + 1,
            !joined && old(self).failed_joins() + 1 >= MAX_JOIN_ATTEMPTS ==> r == Err::<
                Phase,
                LifetimeError,
            >(LifetimeError::WorkerShutdownTimeout) && final(self).failed_joins()
                == MAX_JOIN_ATTEMPTS,
    {
        let mut service = self.service.take().unwrap();
        let step = service.record_join(&mut self.registry, joined);
        match step {
            Ok(StopProgress::Stopped) => {},
            Ok(StopProgress::Retry) => {
                self.service = Some(service);
                return Ok(Phase::ShuttingDown);
            },
            Err(e) => {
                self.service = Some(service);
                return Err(e);
            },
        }
        assert(self.registry@[self.display_id] =~= map![0u64 => self.window_id]);
        let window = self.window.take().unwrap();
        let destroyed = window.destroy(&mut self.registry);
        assert(destroyed is Ok);
        assert(self.registry@[self.display_id] =~= Map::<u64, u64>::empty());
        let root = self.root.unwrap();
        let invalidated = self.registry.invalidate_root(root);
        assert(invalidated is Ok);
        assert(self.registry@ =~= RegistryModel::empty());
        self.root = None;
        self.phase = Phase::Terminated;
        Ok(Phase::Terminated)
    }

    /// The current phase.
    pub fn phase(&self) -> (r: Phase)
        ensures
            r == self@.0,
    {
        self.phase
    }

    /// The registry, for inspection.
    pub fn registry(&self) -> (r: &ResourceLifetimeRegistry)
        ensures
            r@ == self@.1,
    {
        &self.registry
    }

    /// The display root while it is valid.
    pub fn root(&self) -> (r: Option<RootHandle>)
        requires
            self.wf(),
        ensures
            match r {
                Some(h) => h@ == self.ids().0 && self@.1.contains_key(h@),
                None => !(self@.0 == Phase::Running || self@.0 == Phase::ShuttingDown),
            },
    {
        match self.phase {
            Phase::Running | Phase::ShuttingDown => self.root,
            _ => None,
        }
    }
}

} // verus!
