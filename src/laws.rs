use vstd::prelude::*;

use crate::error::LifetimeError;
use crate::registry::{
    after_invalidate, after_unregister, invalidate_outcome, is_registered, unregister_outcome,
    with_dependent, RegistryModel,
};

verus! {

/// Invalidating a root succeeds exactly when the root is valid and its set
/// of dependents is empty at that moment, whatever registrations and
/// unregistrations came before.
pub proof fn lemma_invalidate_iff_no_dependents(m: RegistryModel, root: u64)
    ensures
        (invalidate_outcome(m, root) is Ok) <==> (m.contains_key(root) && m[root].is_empty()),
        (invalidate_outcome(m, root) is Ok) ==> after_invalidate(m, root) == m.remove(root),
        (invalidate_outcome(m, root) is Err) ==> after_invalidate(m, root) == m,
{
}

/// While any dependent is registered against a root, invalidating that root
/// fails with `RootHasDependents` and leaves the registry as it was.
pub proof fn lemma_registered_dependent_blocks_invalidation(m: RegistryModel, root: u64, token: u64)
    requires
        is_registered(m, root, token),
    ensures
        invalidate_outcome(m, root) == Err::<(), LifetimeError>(LifetimeError::RootHasDependents),
        after_invalidate(m, root) == m,
{
    assert(m[root].dom().contains(token));
}

/// A dependent just registered against a valid root (a resource that was
/// started and not stopped) makes invalidating that root fail with
/// `RootHasDependents`.
pub proof fn lemma_started_dependent_blocks_invalidation(
    m: RegistryModel,
    root: u64,
    token: u64,
    id: u64,
)
    requires
        m.contains_key(root),
    ensures
        invalidate_outcome(with_dependent(m, root, token, id), root) == Err::<(), LifetimeError>(
            LifetimeError::RootHasDependents,
        ),
{
    lemma_registered_dependent_blocks_invalidation(with_dependent(m, root, token, id), root, token);
}

/// Unregistering the last dependent of a root, then invalidating the root,
/// succeeds and removes exactly that root; the dependents of every other
/// root are untouched.
pub proof fn lemma_stop_last_then_invalidate(m: RegistryModel, root: u64, token: u64)
    requires
        is_registered(m, root, token),
        m[root].dom() == set![token],
    ensures
        unregister_outcome(m, root, token) is Ok,
        invalidate_outcome(after_unregister(m, root, token), root) is Ok,
        after_invalidate(after_unregister(m, root, token), root) == m.remove(root),
        forall|r: u64|
            r != root && #[trigger] m.contains_key(r) ==> after_unregister(m, root, token)[r]
                == m[r],
{
    let m1 = after_unregister(m, root, token);
    assert(m1[root].dom() =~= Set::<u64>::empty());
    assert(m1.remove(root) =~= m.remove(root));
}

/// Unregistering the same token twice: the second attempt fails with
/// `AlreadyUnregistered` and changes nothing, and the root keeps one
/// dependent fewer than before the first attempt.
pub proof fn lemma_unregister_twice(m: RegistryModel, root: u64, token: u64)
    requires
        is_registered(m, root, token),
        m[root].dom().finite(),
    ensures
        unregister_outcome(m, root, token) is Ok,
        unregister_outcome(after_unregister(m, root, token), root, token) == Err::<(), LifetimeError>(
            LifetimeError::AlreadyUnregistered,
        ),
        after_unregister(after_unregister(m, root, token), root, token) == after_unregister(
            m,
            root,
            token,
        ),
        after_unregister(m, root, token)[root].len() + 1 == m[root].len(),
{
}

} // verus!
