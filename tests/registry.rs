use resource_lifetime::error::LifetimeError;
use resource_lifetime::registry::ResourceLifetimeRegistry;
use resource_lifetime::resources::{DependentResource, StopProgress, Window, WorkerState};

#[test]
fn register_root_twice_is_duplicate() {
    let mut reg = ResourceLifetimeRegistry::new();
    let root = reg.register_root(7).unwrap();
    assert_eq!(root.id(), 7);
    assert_eq!(reg.register_root(7), Err(LifetimeError::DuplicateRoot));
    assert_eq!(reg.dependent_count(root), Some(0));
}

#[test]
fn register_dependent_on_invalidated_root_is_unknown() {
    let mut reg = ResourceLifetimeRegistry::new();
    let root = reg.register_root(1).unwrap();
    assert_eq!(reg.invalidate_root(root), Ok(()));
    assert!(!reg.is_valid(root));
    assert_eq!(reg.register_dependent(root, 5), Err(LifetimeError::UnknownRoot));
    assert_eq!(reg.invalidate_root(root), Err(LifetimeError::UnknownRoot));
}

#[test]
fn tokens_are_distinct_and_name_their_root() {
    let mut reg = ResourceLifetimeRegistry::new();
    let a = reg.register_root(1).unwrap();
    let b = reg.register_root(2).unwrap();
    let t1 = reg.register_dependent(a, 10).unwrap();
    let t2 = reg.register_dependent(b, 10).unwrap();
    let t3 = reg.register_dependent(a, 11).unwrap();
    assert_eq!(t1.root_id(), 1);
    assert_eq!(t2.root_id(), 2);
    assert_ne!(t1.token(), t2.token());
    assert_ne!(t1.token(), t3.token());
    assert_eq!(reg.dependent_count(a), Some(2));
    assert_eq!(reg.dependent_count(b), Some(1));
}

#[test]
fn invalidate_succeeds_only_when_empty() {
    let mut reg = ResourceLifetimeRegistry::new();
    let root = reg.register_root(3).unwrap();
    let t1 = reg.register_dependent(root, 1).unwrap();
    let t2 = reg.register_dependent(root, 2).unwrap();
    assert_eq!(reg.invalidate_root(root), Err(LifetimeError::RootHasDependents));
    assert_eq!(reg.unregister_dependent(t1), Ok(()));
    assert_eq!(reg.invalidate_root(root), Err(LifetimeError::RootHasDependents));
    let t3 = reg.register_dependent(root, 3).unwrap();
    assert_eq!(reg.unregister_dependent(t2), Ok(()));
    assert_eq!(reg.invalidate_root(root), Err(LifetimeError::RootHasDependents));
    assert!(reg.is_valid(root));
    assert_eq!(reg.unregister_dependent(t3), Ok(()));
    assert_eq!(reg.invalidate_root(root), Ok(()));
    assert!(!reg.is_valid(root));
    assert_eq!(reg.dependent_count(root), None);
}

#[test]
fn unregister_twice_reports_already_unregistered() {
    let mut reg = ResourceLifetimeRegistry::new();
    let root = reg.register_root(4).unwrap();
    let t1 = reg.register_dependent(root, 1).unwrap();
    let _t2 = reg.register_dependent(root, 2).unwrap();
    assert_eq!(reg.unregister_dependent(t1), Ok(()));
    assert!(!reg.is_registered(t1));
    assert_eq!(reg.unregister_dependent(t1), Err(LifetimeError::AlreadyUnregistered));
    assert_eq!(reg.dependent_count(root), Some(1));
}

#[test]
fn started_resource_blocks_invalidation() {
    let mut reg = ResourceLifetimeRegistry::new();
    let root = reg.register_root(1).unwrap();
    let d = DependentResource::start(&mut reg, root, 9).unwrap();
    assert_eq!(reg.invalidate_root(root), Err(LifetimeError::RootHasDependents));
    assert!(reg.is_registered(d.handle()));
}

#[test]
fn stop_then_invalidate_succeeds_beside_other_roots() {
    let mut reg = ResourceLifetimeRegistry::new();
    let root = reg.register_root(1).unwrap();
    let other = reg.register_root(2).unwrap();
    let mut d = DependentResource::start(&mut reg, root, 9).unwrap();
    let sibling = DependentResource::start(&mut reg, other, 9).unwrap();
    assert_eq!(d.record_join(&mut reg, true), Ok(StopProgress::Stopped));
    assert_eq!(d.state(), WorkerState::Stopped);
    assert_eq!(reg.invalidate_root(root), Ok(()));
    assert!(reg.is_registered(sibling.handle()));
    assert_eq!(reg.dependent_count(other), Some(1));
}

#[test]
fn start_then_invalidate_keeps_resource_running() {
    let mut reg = ResourceLifetimeRegistry::new();
    let r = reg.register_root(100).unwrap();
    let d1 = DependentResource::start(&mut reg, r, 1).unwrap();
    assert_eq!(reg.invalidate_root(r), Err(LifetimeError::RootHasDependents));
    assert_eq!(d1.state(), WorkerState::Running);
    assert!(reg.is_valid(r));
    assert!(reg.is_registered(d1.handle()));
}

#[test]
fn start_against_invalid_root_is_refused() {
    let mut reg = ResourceLifetimeRegistry::new();
    let root = reg.register_root(1).unwrap();
    assert_eq!(reg.invalidate_root(root), Ok(()));
    assert_eq!(
        DependentResource::start(&mut reg, root, 2).err(),
        Some(LifetimeError::RootAlreadyInvalid)
    );
    assert_eq!(Window::create(&mut reg, root, 3).err(), Some(LifetimeError::RootAlreadyInvalid));
}

#[test]
fn failed_joins_retry_then_time_out() {
    let mut reg = ResourceLifetimeRegistry::new();
    let root = reg.register_root(1).unwrap();
    let mut d = DependentResource::start(&mut reg, root, 2).unwrap();
    assert_eq!(d.record_join(&mut reg, false), Ok(StopProgress::Retry));
    assert_eq!(d.state(), WorkerState::Stopping { failed_joins: 1 });
    assert_eq!(d.record_join(&mut reg, false), Ok(StopProgress::Retry));
    assert_eq!(d.record_join(&mut reg, false), Err(LifetimeError::WorkerShutdownTimeout));
    assert_eq!(d.state(), WorkerState::Stopping { failed_joins: 3 });
    assert_eq!(reg.invalidate_root(root), Err(LifetimeError::RootHasDependents));
    assert_eq!(d.record_join(&mut reg, false), Err(LifetimeError::WorkerShutdownTimeout));
    assert_eq!(d.record_join(&mut reg, true), Ok(StopProgress::Stopped));
    assert_eq!(reg.invalidate_root(root), Ok(()));
}

#[test]
fn window_destroy_unregisters() {
    let mut reg = ResourceLifetimeRegistry::new();
    let root = reg.register_root(1).unwrap();
    let w = Window::create(&mut reg, root, 5).unwrap();
    let h = w.handle();
    assert_eq!(h.root_id(), 1);
    assert_eq!(reg.dependent_count(root), Some(1));
    assert_eq!(w.destroy(&mut reg), Ok(()));
    assert_eq!(reg.unregister_dependent(h), Err(LifetimeError::AlreadyUnregistered));
    assert_eq!(reg.invalidate_root(root), Ok(()));
}
