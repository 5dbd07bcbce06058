//! The course of one fork, as its own task.
//!
//! The engine instantiates the shared module afresh with imports from
//! `generate_fork_imports` and binds them, calls the new instantiation's
//! `allocate(len)`, has the payload placed where that points, and calls
//! `invoke(entry_point, descriptor)`. `ForkTask` decides each next step
//! from what the engine reports; a failure at any step ends the task for
//! good, with the step that failed recorded under the fork's pid.

use vstd::prelude::*;
use crate::descriptor::{pack, packed};
use crate::capability::ForkRequest;
use crate::memory::{in_bounds, write_range, written, OutOfBounds};

verus! {

/// Writes `payload` into the new instantiation's memory `mem` at `ptr`, the
/// address that its `allocate` returned, and gives the descriptor of the
/// copy; fails where the range does not fit in `mem`.
pub fn place_payload(mem: &mut [u8], ptr: u32, payload: &[u8]) -> (r: Result<u64, OutOfBounds>)
    requires
        payload@.len() <= u32::MAX,
    ensures
        final(mem)@.len() == old(mem)@.len(),
        r is Ok <==> in_bounds(old(mem)@.len(), ptr as nat, payload@.len()),
        r matches Ok(d) ==> d as nat == packed(ptr, payload@.len() as u32) && final(mem)@ == written(
            old(mem)@,
            ptr as nat,
            payload@,
        ),
        r is Err ==> final(mem)@ == old(mem)@,
{
    match write_range(mem, ptr, payload) {
        Ok(()) => Ok(pack(ptr, payload.len() as u32)),
        Err(e) => Err(e),
    }
}

/// The step of a fork that failed.
#[derive(Clone, Copy, Debug, PartialEq, Eq, Structural)]
pub enum ForkStage {
    /// Instantiating the module, binding its imports, or finding its exports.
    Setup,
    /// Calling `allocate`.
    Allocate,
    /// Writing the payload where `allocate` pointed.
    Place,
    /// Calling `invoke`.
    Invoke,
}

/// How a fork ended.
#[derive(Clone, Copy, Debug, PartialEq, Eq, Structural)]
pub enum ForkOutcome {
    /// `invoke` returned this value.
    Returned(i64),
    /// The fork stopped at this step.
    Failed(ForkStage),
}

/// What the engine is to do next for a fork.
#[derive(Clone, Copy, Debug, PartialEq, Eq, Structural)]
pub enum ForkAction {
    /// Instantiate the module and bind its imports.
    Instantiate,
    /// Call `allocate(len)` in the new instantiation.
    Allocate { len: u32 },
    /// Call `invoke(entry_point, descriptor)` in the new instantiation.
    Invoke { entry_point: u32, descriptor: u64 },
    /// Nothing more: record the outcome under the pid.
    Finish { pid: u32, outcome: ForkOutcome },
}

/// Where a fork stands.
#[derive(Clone, Copy, Debug, PartialEq, Eq, Structural)]
pub enum ForkState {
    Instantiating,
    Allocating,
    Invoking,
    Done,
}

/// One fork in progress.
pub struct ForkTask {
    pub request: ForkRequest,
    pub state: ForkState,
}

impl ForkTask {
    pub open spec fn wf(&self) -> bool {
        self.request.payload@.len() <= u32::MAX
    }

    pub open spec fn failed(&self, stage: ForkStage) -> ForkAction {
        ForkAction::Finish { pid: self.request.pid, outcome: ForkOutcome::Failed(stage) }
    }

    /// Starts the fork that `request` describes: first, a new instantiation.
    pub fn start(request: ForkRequest) -> (r: (ForkTask, ForkAction))
        requires
            request.payload@.len() <= u32::MAX,
        ensures
            r.0.request == request,
            r.0.state == ForkState::Instantiating,
            r.1 == ForkAction::Instantiate,
            r.0.wf(),
    {
        (ForkTask { request, state: ForkState::Instantiating }, ForkAction::Instantiate)
    }

    fn fail(&mut self, stage: ForkStage) -> (r: ForkAction)
        ensures
            final(self).request == old(self).request,
            final(self).state == ForkState::Done,
            r == old(self).failed(stage),
    {
        self.state = ForkState::Done;
        ForkAction::Finish { pid: self.request.pid, outcome: ForkOutcome::Failed(stage) }
    }

    /// The engine reports whether the new instantiation was made and bound.
    pub fn on_instantiated(&mut self, ok: bool) -> (r: ForkAction)
        requires
            old(self).wf(),
            old(self).state == ForkState::Instantiating,
        ensures
            final(self).request == old(self).request,
            ok ==> r == (ForkAction::Allocate { len: old(self).request.payload@.len() as u32 })
                && final(self).state == ForkState::Allocating,
            !ok ==> r == old(self).failed(ForkStage::Setup) && final(self).state == ForkState::Done,
    {
        if ok {
            self.state = ForkState::Allocating;
            ForkAction::Allocate { len: self.request.payload.len() as u32 }
        } else {
            self.fail(ForkStage::Setup)
        }
    }

    /// The engine reports what `allocate` returned, if it returned, and
    /// hands over the new instantiation's memory to place the payload in.
    pub fn on_allocated(&mut self, ptr: Option<u32>, mem: &mut [u8]) -> (r: ForkAction)
        requires
            old(self).wf(),
            old(self).state == ForkState::Allocating,
        ensures
            final(self).request == old(self).request,
            final(mem)@.len() == old(mem)@.len(),
            ptr is None ==> r == old(self).failed(ForkStage::Allocate) && final(self).state
                == ForkState::Done && final(mem)@ == old(mem)@,
            ptr matches Some(p) ==> if in_bounds(
                old(mem)@.len(),
                p as nat,
                old(self).request.payload@.len(),
            ) {
                &&& final(mem)@ == written(old(mem)@, p as nat, old(self).request.payload@)
                &&& r matches ForkAction::Invoke { entry_point, descriptor }
                &&& entry_point == old(self).request.entry_point
                &&& descriptor as nat == packed(p, old(self).request.payload@.len() as u32)
                &&& final(self).state == ForkState::Invoking
            } else {
                &&& r == old(self).failed(ForkStage::Place)
                &&& final(self).state == ForkState::Done
                &&& final(mem)@ == old(mem)@
            },
    {
        match ptr {
            None => self.fail(ForkStage::Allocate),
            Some(p) => match place_payload(mem, p, self.request.payload.as_slice()) {
                Ok(descriptor) => {
                    self.state = ForkState::Invoking;
                    ForkAction::Invoke { entry_point: self.request.entry_point, descriptor }
                },
                Err(_) => self.fail(ForkStage::Place),
            },
        }
    }

    /// The engine reports what `invoke` returned, if it returned.
    pub fn on_invoked(&mut self, result: Option<i64>) -> (r: ForkAction)
        requires
            old(self).state == ForkState::Invoking,
        ensures
            final(self).request == old(self).request,
            final(self).state == ForkState::Done,
            result matches Some(v) ==> r == (ForkAction::Finish {
                pid: old(self).request.pid,
                outcome: ForkOutcome::Returned(v),
            }),
            result is None ==> r == old(self).failed(ForkStage::Invoke),
    {
        match result {
            Some(v) => {
                self.state = ForkState::Done;
                ForkAction::Finish { pid: self.request.pid, outcome: ForkOutcome::Returned(v) }
            },
            None => self.fail(ForkStage::Invoke),
        }
    }
}

} // verus!
