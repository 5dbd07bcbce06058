//! Process identifiers: handed out once each, in increasing order, from 0.

use vstd::prelude::*;

verus! {

/// The source of process identifiers shared by every capability and fork of
/// one loaded module. Callers that run concurrently share it behind a lock,
/// which puts their calls in one total order.
pub struct PidCounter {
    next: u32,
}

impl View for PidCounter {
    /// The identifier that the next call hands out.
    type V = nat;

    closed spec fn view(&self) -> nat {
        self.next as nat
    }
}

/// What one call of `next_pid` does: it hands out the counter's value and
/// moves past it, or, once every identifier is spent, hands out none.
pub open spec fn pid_step(before: PidCounter, after: PidCounter, r: Option<u32>) -> bool {
    if before@ < u32::MAX {
        r == Some(before@ as u32) && after@ == before@ + 1
    } else {
        r is None && after@ == before@
    }
}

impl PidCounter {
    /// A counter whose first identifier is 0.
    pub fn new() -> (c: PidCounter)
        ensures
            c@ == 0,
    {
        PidCounter { next: 0 }
    }

    /// The identifier that the next call of `next_pid` hands out.
    pub fn peek(&self) -> (r: u32)
        ensures
            r as nat == self@,
    {
        self.next
    }

    /// Hands out a fresh identifier.
    pub fn next_pid(&mut self) -> (r: Option<u32>)
        ensures
            pid_step(*old(self), *final(self), r),
    {
        if self.next < u32::MAX {
            let pid = self.next;
            self.next = self.next + 1;
            Some(pid)
        } else {
            None
        }
    }
}

/// Whatever calls run between them, the identifiers that `n` successive
/// calls of `next_pid` on a fresh counter hand out are exactly `0 .. n`, each
/// once.
pub proof fn lemma_pids_exact(states: Seq<PidCounter>, pids: Seq<u32>)
    requires
        states.len() == pids.len() + 1,
        states[0]@ == 0,
        forall|i: int| 0 <= i < pids.len() ==> pid_step(states[i], states[i + 1], Some(pids[i])),
    ensures
        pids.no_duplicates(),
        pids.to_set() == Set::new(|p: u32| (p as nat) < pids.len()),
{
    assert forall|i: int| 0 <= i < pids.len() implies pids[i] as int == i && states[i]@ == i by {
        lemma_pid_at(states, pids, i);
    }
    assert forall|i: int, j: int| 0 <= i < pids.len() && 0 <= j < pids.len() && i != j implies pids[i]
        != pids[j] by {
        lemma_pid_at(states, pids, i);
        lemma_pid_at(states, pids, j);
    }
    assert forall|p: u32| (p as nat) < pids.len() implies pids.to_set().contains(p) by {
        lemma_pid_at(states, pids, p as int);
        assert(pids[p as int] == p);
    }
    assert(pids.to_set() =~= Set::new(|p: u32| (p as nat) < pids.len()));
}

proof fn lemma_pid_at(states: Seq<PidCounter>, pids: Seq<u32>, i: int)
    requires
        states.len() == pids.len() + 1,
        states[0]@ == 0,
        forall|k: int| 0 <= k < pids.len() ==> pid_step(states[k], states[k + 1], Some(pids[k])),
        0 <= i < pids.len(),
    ensures
        pids[i] as int == i,
        states[i]@ == i,
    decreases i,
{
    if i > 0 {
        lemma_pid_at(states, pids, i - 1);
        assert(pid_step(states[i - 1], states[i], Some(pids[i - 1])));
    }
    assert(pid_step(states[i], states[i + 1], Some(pids[i])));
}

} // verus!
