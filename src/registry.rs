//! The record of forked executions, keyed by pid.

use vstd::prelude::*;
use std::collections::HashMap;

verus! {

broadcast use vstd::std_specs::hash::group_hash_axioms;

/// Why an entry could not be added to the registry.
#[derive(Clone, Copy, Debug, PartialEq, Eq, Structural)]
pub enum RegistryError {
    /// An entry under that pid is there already.
    DuplicatePid(u32),
}

/// For each forked execution, under its pid, the handle that stands for it
/// (what it returns, or how it failed). An entry leaves only when its owner
/// takes it out with `remove` to wait for it; nothing drops one by itself.
pub struct ForkRegistry<H> {
    forks: HashMap<u32, H>,
}

impl<H> View for ForkRegistry<H> {
    type V = Map<u32, H>;

    closed spec fn view(&self) -> Map<u32, H> {
        self.forks@
    }
}

impl<H> ForkRegistry<H> {
    /// A registry with no entries.
    pub fn new() -> (r: ForkRegistry<H>)
        ensures
            r@ == Map::<u32, H>::empty(),
    {
        ForkRegistry { forks: HashMap::new() }
    }

    /// Adds the entry of the fork `pid`, which must not have one yet.
    pub fn register(&mut self, pid: u32, handle: H) -> (r: Result<(), RegistryError>)
        ensures
            old(self)@.contains_key(pid) ==> r == Err::<(), RegistryError>(
                RegistryError::DuplicatePid(pid),
            ) && final(self)@ == old(self)@,
            !old(self)@.contains_key(pid) ==> r is Ok && final(self)@ == old(self)@.insert(
                pid,
                handle,
            ),
    {
        if self.forks.contains_key(&pid) {
            return Err(RegistryError::DuplicatePid(pid));
        }
        self.forks.insert(pid, handle);
        Ok(())
    }

    /// Whether the fork `pid` has an entry.
    pub fn contains(&self, pid: u32) -> (r: bool)
        ensures
            r == self@.contains_key(pid),
    {
        self.forks.contains_key(&pid)
    }

    /// Takes out the entry of the fork `pid`, if it has one.
    pub fn remove(&mut self, pid: u32) -> (r: Option<H>)
        ensures
            final(self)@ == old(self)@.remove(pid),
            old(self)@.contains_key(pid) ==> r == Some(old(self)@[pid]),
            !old(self)@.contains_key(pid) ==> r is None,
    {
        self.forks.remove(&pid)
    }

    /// The lowest pid below `below` that has an entry, if any does.
    pub fn first_pending(&self, below: u32) -> (r: Option<u32>)
        ensures
            r matches Some(p) ==> p < below && self@.contains_key(p) && forall|q: u32|
                q < p ==> !self@.contains_key(q),
            r is None ==> forall|q: u32| q < below ==> !self@.contains_key(q),
    {
        let mut pid: u32 = 0;
        while pid < below
            invariant
                pid <= below,
                forall|q: u32| q < pid ==> !self@.contains_key(q),
            decreases below - pid,
        {
            if self.forks.contains_key(&pid) {
                return Some(pid);
            }
            pid = pid + 1;
        }
        None
    }

    /// The number of entries.
    pub fn len(&self) -> (r: usize)
        ensures
            r == self@.len(),
    {
        self.forks.len()
    }
}

} // verus!
