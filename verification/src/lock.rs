//! The names under which the locks of a vault report how long they were
//! waited for. Each resource of a vault has a lock of its own, so that a
//! caller who draws random numbers never waits for one who reads a store.
//! The names are keys of dashboards and alerts and must stay as they are.

use vstd::prelude::*;

verus! {

/// A resource of a vault that is reached through a lock of its own.
#[derive(Clone, Copy, Debug, PartialEq, Eq, Hash, Structural)]
pub enum LockedResource {
    /// The random number generator.
    Rng,
    /// The store of the node's secret keys.
    NodeSecretKeyStore,
    /// The store of the secret keys held for canisters.
    CanisterSecretKeyStore,
}

/// How a lock is taken.
#[derive(Clone, Copy, Debug, PartialEq, Eq, Hash, Structural)]
pub enum LockAccess {
    /// Together with other readers.
    Read,
    /// Alone.
    Write,
}

/// The name of a resource.
pub open spec fn resource_name(resource: LockedResource) -> Seq<char> {
    match resource {
        LockedResource::Rng => "rng"@,
        LockedResource::NodeSecretKeyStore => "node-sks"@,
        LockedResource::CanisterSecretKeyStore => "canister-sks"@,
    }
}

/// The name of a way to take a lock.
pub open spec fn access_name(access: LockAccess) -> Seq<char> {
    match access {
        LockAccess::Read => "read"@,
        LockAccess::Write => "write"@,
    }
}

impl LockedResource {
    /// The name under which the lock of this resource reports.
    pub fn name(&self) -> (name: &'static str)
        ensures
            name@ == resource_name(*self),
    {
        match self {
            LockedResource::Rng => "rng",
            LockedResource::NodeSecretKeyStore => "node-sks",
            LockedResource::CanisterSecretKeyStore => "canister-sks",
        }
    }
}

impl LockAccess {
    /// The name under which this way to take a lock is reported.
    pub fn as_str(&self) -> (name: &'static str)
        ensures
            name@ == access_name(*self),
    {
        match self {
            LockAccess::Read => "read",
            LockAccess::Write => "write",
        }
    }
}

/// Two resources with one name are one resource: no two locks report under
/// the same name.
pub proof fn lemma_resource_names_distinct(a: LockedResource, b: LockedResource)
    requires
        resource_name(a) == resource_name(b),
    ensures
        a == b,
{
    reveal_strlit("rng");
    reveal_strlit("node-sks");
    reveal_strlit("canister-sks");
    assert("rng"@.len() == 3);
    assert("node-sks"@.len() == 8);
    assert("canister-sks"@.len() == 12);
}

} // verus!
