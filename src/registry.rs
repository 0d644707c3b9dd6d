use std::collections::HashMap;
use vstd::prelude::*;

use crate::error::LifetimeError;

verus! {

broadcast use vstd::std_specs::hash::group_hash_axioms;

/// Abstract state of a registry: each valid root, with its dependents
/// (token to dependent identifier).
pub type RegistryModel = Map<u64, Map<u64, u64>>;

/// Whether `token` is currently registered against `root`.
pub open spec fn is_registered(m: RegistryModel, root: u64, token: u64) -> bool {
    m.contains_key(root) && m[root].contains_key(token)
}

/// Whether `token` is registered against no root at all.
pub open spec fn token_is_fresh(m: RegistryModel, token: u64) -> bool {
    forall|r: u64| #[trigger] m.contains_key(r) ==> !m[r].contains_key(token)
}

/// The registry after `token` (for dependent `id`) was added to `root`.
pub open spec fn with_dependent(m: RegistryModel, root: u64, token: u64, id: u64) -> RegistryModel {
    m.insert(root, m[root].insert(token, id))
}

/// The registry after `token` was removed from `root`.
pub open spec fn without_dependent(m: RegistryModel, root: u64, token: u64) -> RegistryModel {
    m.insert(root, m[root].remove(token))
}

/// What unregistering `token` from `root` reports.
pub open spec fn unregister_outcome(m: RegistryModel, root: u64, token: u64) -> Result<(), LifetimeError> {
    if is_registered(m, root, token) {
        Ok(())
    } else {
        Err(LifetimeError::AlreadyUnregistered)
    }
}

/// The registry after an unregistration attempt: unchanged when it fails.
pub open spec fn after_unregister(m: RegistryModel, root: u64, token: u64) -> RegistryModel {
    if is_registered(m, root, token) {
        without_dependent(m, root, token)
    } else {
        m
    }
}

/// What invalidating `root` reports: it succeeds exactly when the root is
/// valid and has no dependents left.
pub open spec fn invalidate_outcome(m: RegistryModel, root: u64) -> Result<(), LifetimeError> {
    if !m.contains_key(root) {
        Err(LifetimeError::UnknownRoot)
    } else if !m[root].is_empty() {
        Err(LifetimeError::RootHasDependents)
    } else {
        Ok(())
    }
}

/// The registry after an invalidation attempt: unchanged when it fails.
pub open spec fn after_invalidate(m: RegistryModel, root: u64) -> RegistryModel {
    if invalidate_outcome(m, root) is Ok {
        m.remove(root)
    } else {
        m
    }
}

/// Capability naming a root that was registered.
#[derive(Clone, Copy, Debug, PartialEq, Eq, Structural)]
pub struct RootHandle {
    id: u64,
}

impl View for RootHandle {
    type V = u64;

    closed spec fn view(&self) -> u64 {
        self.id
    }
}

impl RootHandle {
    /// The root's identifier.
    pub fn id(&self) -> (r: u64)
        ensures
            r == self@,
    {
        self.id
    }
}

/// Token handed out for one registered dependent; it must be presented to
/// unregister that dependent.
#[derive(Clone, Copy, Debug, PartialEq, Eq, Structural)]
pub struct DependentHandle {
    root: u64,
    token: u64,
}

impl View for DependentHandle {
    /// The root identifier and the token.
    type V = (u64, u64);

    closed spec fn view(&self) -> (u64, u64) {
        (self.root, self.token)
    }
}

impl DependentHandle {
    /// Identifier of the root this dependent was registered against.
    pub fn root_id(&self) -> (r: u64)
        ensures
            r == self@.0,
    {
        self.root
    }

    /// The token itself.
    pub fn token(&self) -> (r: u64)
        ensures
            r == self@.1,
    {
        self.token
    }
}

/// Tracks which dependents are alive against each root, and refuses to
/// invalidate a root while any of them is still registered.
///
/// All mutation goes through `&mut self`, so registering, unregistering and
/// invalidating are mutually exclusive by construction.
pub struct ResourceLifetimeRegistry {
    roots: HashMap<u64, HashMap<u64, u64>>,
    next_token: u64,
}

impl View for ResourceLifetimeRegistry {
    type V = RegistryModel;

    closed spec fn view(&self) -> RegistryModel {
        self.roots@.map_values(|d: HashMap<u64, u64>| d@)
    }
}

impl ResourceLifetimeRegistry {
    /// Every token registered so far is below the next one to be issued.
    pub closed spec fn wf(&self) -> bool {
        forall|r: u64, t: u64|
            #![trigger self.roots@[r]@.contains_key(t)]
            self.roots@.contains_key(r) && self.roots@[r]@.contains_key(t) ==> t < self.next_token
    }

    /// How many tokens this registry has handed out.
    pub closed spec fn tokens_issued(&self) -> nat {
        self.next_token as nat
    }

    /// An empty registry.
    pub fn new() -> (r: Self)
        ensures
            r.wf(),
            r@ == RegistryModel::empty(),
            r.tokens_issued() == 0,
    {
        let r = ResourceLifetimeRegistry { roots: HashMap::new(), next_token: 0 };
        assert(r@ =~= RegistryModel::empty());
        r
    }

    /// Registers a new root with no dependents.
    pub fn register_root(&mut self, id: u64) -> (r: Result<RootHandle, LifetimeError>)
        requires
            old(self).wf(),
        ensures
            final(self).wf(),
            final(self).tokens_issued() == old(self).tokens_issued(),
            old(self)@.contains_key(id) ==> r == Err::<RootHandle, LifetimeError>(
                LifetimeError::DuplicateRoot,
            ) && final(self)@ == old(self)@,
            !old(self)@.contains_key(id) ==> (r matches Ok(h) && h@ == id) && final(self)@ == old(
                self,
            )@.insert(id, Map::empty()),
    {
        if self.roots.contains_key(&id) {
            return Err(LifetimeError::DuplicateRoot);
        }
        let fresh: HashMap<u64, u64> = HashMap::new();
        self.roots.insert(id, fresh);
        assert(self@ =~= old(self)@.insert(id, Map::empty()));
        Ok(RootHandle { id })
    }

    /// Registers dependent `id` against `root` and hands back its token.
    pub fn register_dependent(&mut self, root: RootHandle, id: u64) -> (r: Result<
        DependentHandle,
        LifetimeError,
    >)
        requires
            old(self).wf(),
            old(self).tokens_issued() < u64::MAX,
        ensures
            final(self).wf(),
            !old(self)@.contains_key(root@) ==> r == Err::<DependentHandle, LifetimeError>(
                LifetimeError::UnknownRoot,
            ) && final(self)@ == old(self)@ && final(self).tokens_issued()
                == old(self).tokens_issued(),
            old(self)@.contains_key(root@) ==> (r matches Ok(h) && h@.0 == root@ && h@.1
                == old(self).tokens_issued() && token_is_fresh(
                old(self)@,
                h@.1,
            ) && final(self)@ == with_dependent(old(self)@, root@, h@.1, id))
                && final(self).tokens_issued() == old(self).tokens_issued() + 1,
    {
        match self.roots.remove(&root.id) {
            None => {
                assert(self.roots@ =~= old(self).roots@);
                Err(LifetimeError::UnknownRoot)
            },
            Some(mut deps) => {
                let token = self.next_token;
                deps.insert(token, id);
                self.roots.insert(root.id, deps);
                self.next_token = token + 1;
                assert(self@ =~= with_dependent(old(self)@, root@, token, id));
                assert forall|r: u64| #[trigger] old(self)@.contains_key(r) implies !old(
                    self,
                )@[r].contains_key(token) by {
                    if old(self)@[r].contains_key(token) {
                        assert(old(self).roots@[r]@.contains_key(token));
                    }
                }
                Ok(DependentHandle { root: root.id, token })
            },
        }
    }

    /// Removes the dependent behind `token`; fails, changing nothing, when it
    /// is not registered (for instance because it was already removed).
    pub fn unregister_dependent(&mut self, token: DependentHandle) -> (r: Result<(), LifetimeError>)
        requires
            old(self).wf(),
        ensures
            final(self).wf(),
            final(self).tokens_issued() == old(self).tokens_issued(),
            r == unregister_outcome(old(self)@, token@.0, token@.1),
            final(self)@ == after_unregister(old(self)@, token@.0, token@.1),
    {
        match self.roots.remove(&token.root) {
            None => {
                assert(self.roots@ =~= old(self).roots@);
                Err(LifetimeError::AlreadyUnregistered)
            },
            Some(mut deps) => {
                let removed = deps.remove(&token.token);
                self.roots.insert(token.root, deps);
                match removed {
                    None => {
                        assert(deps@ =~= old(self).roots@[token.root]@);
                        assert(self@ =~= old(self)@);
                        Err(LifetimeError::AlreadyUnregistered)
                    },
                    Some(_) => {
                        assert(self@ =~= without_dependent(old(self)@, token@.0, token@.1));
                        Ok(())
                    },
                }
            },
        }
    }

    /// Invalidates and removes `root`, provided no dependent is registered
    /// against it; otherwise nothing changes.
    pub fn invalidate_root(&mut self, root: RootHandle) -> (r: Result<(), LifetimeError>)
        requires
            old(self).wf(),
        ensures
            final(self).wf(),
            final(self).tokens_issued() == old(self).tokens_issued(),
            r == invalidate_outcome(old(self)@, root@),
            final(self)@ == after_invalidate(old(self)@, root@),
    {
        let empty = match self.roots.get(&root.id) {
            None => {
                return Err(LifetimeError::UnknownRoot);
            },
            Some(d) => d.is_empty(),
        };
        if !empty {
            assert(self@[root@].len() > 0);
            return Err(LifetimeError::RootHasDependents);
        }
        self.roots.remove(&root.id);
        assert(self@ =~= old(self)@.remove(root@));
        Ok(())
    }

    /// Whether `root` is currently valid.
    pub fn is_valid(&self, root: RootHandle) -> (r: bool)
        ensures
            r == self@.contains_key(root@),
    {
        self.roots.contains_key(&root.id)
    }

    /// Number of dependents registered against `root`, or `None` once the
    /// root is not valid.
    pub fn dependent_count(&self, root: RootHandle) -> (r: Option<usize>)
        ensures
            match r {
                Some(n) => self@.contains_key(root@) && n == self@[root@].len(),
                None => !self@.contains_key(root@),
            },
    {
        match self.roots.get(&root.id) {
            Some(d) => Some(d.len()),
            None => None,
        }
    }

    /// Whether the dependent behind `token` is still registered.
    pub fn is_registered(&self, token: DependentHandle) -> (r: bool)
        ensures
            r == is_registered(self@, token@.0, token@.1),
    {
        match self.roots.get(&token.root) {
            Some(d) => d.contains_key(&token.token),
            None => false,
        }
    }
}

} // verus!
