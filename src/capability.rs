//! The two capabilities injected into every instantiation, `debug` and
//! `fork`, and the two-phase binding that ties them to the instantiation's
//! memory and dispatch export once it exists.

use vstd::prelude::*;
use crate::descriptor::{addr_of, len_of, unpack};
use crate::memory::{bytes_at, in_bounds, read_range};
use crate::pid::{pid_step, PidCounter};

verus! {

/// An export of an instantiation, as the engine reports its kind.
pub enum Export<M, F> {
    Memory(M),
    Func(F),
    Other,
}

/// The exports that the host looks up by name.
#[derive(Clone, Copy, Debug, PartialEq, Eq, Structural)]
pub enum ExportName {
    Memory,
    Run,
    Invoke,
    Allocate,
}

/// Why an instantiation could not be set up.
#[derive(Clone, Copy, Debug, PartialEq, Eq, Structural)]
pub enum SetupError {
    /// No export under that name.
    Missing(ExportName),
    /// An export under that name, of the wrong kind.
    WrongKind(ExportName),
    /// Every process identifier has been handed out.
    PidsExhausted,
}

/// Why a call of a capability by guest code failed.
#[derive(Clone, Copy, Debug, PartialEq, Eq, Structural)]
pub enum CallError {
    /// The capability was called before it was bound to its instantiation.
    Unbound,
    /// The range that the call names is not inside the caller's memory.
    OutOfBounds,
    /// Every process identifier has been handed out.
    PidsExhausted,
}

/// The memory that an export lookup yields, or why it yields none.
pub open spec fn memory_lookup<M, F>(e: Option<Export<M, F>>) -> Result<M, SetupError> {
    match e {
        None => Err(SetupError::Missing(ExportName::Memory)),
        Some(Export::Memory(m)) => Ok(m),
        Some(_) => Err(SetupError::WrongKind(ExportName::Memory)),
    }
}

/// The function that an export lookup under `name` yields, or why it yields none.
pub open spec fn function_lookup<M, F>(name: ExportName, e: Option<Export<M, F>>) -> Result<
    F,
    SetupError,
> {
    match e {
        None => Err(SetupError::Missing(name)),
        Some(Export::Func(f)) => Ok(f),
        Some(_) => Err(SetupError::WrongKind(name)),
    }
}

/// The linear memory out of the export named `memory`, which must be a memory.
pub fn get_linear_memory<M, F>(export: Option<Export<M, F>>) -> (r: Result<M, SetupError>)
    ensures
        r == memory_lookup(export),
{
    match export {
        None => Err(SetupError::Missing(ExportName::Memory)),
        Some(Export::Memory(m)) => Ok(m),
        Some(_) => Err(SetupError::WrongKind(ExportName::Memory)),
    }
}

/// The function out of the export named `name`, which must be callable.
pub fn get_function<M, F>(name: ExportName, export: Option<Export<M, F>>) -> (r: Result<
    F,
    SetupError,
>)
    ensures
        r == function_lookup(name, export),
{
    match export {
        None => Err(SetupError::Missing(name)),
        Some(Export::Func(f)) => Ok(f),
        Some(_) => Err(SetupError::WrongKind(name)),
    }
}

/// What `debug` emits: the bytes it was shown, tagged with its pid.
#[derive(Debug, PartialEq, Eq)]
pub struct DebugLine {
    pub pid: u32,
    pub text: Vec<u8>,
}

/// The decimal digits of `n`, in ASCII.
pub open spec fn decimal(n: nat) -> Seq<u8>
    decreases n,
{
    if n < 10 {
        seq![(48 + n) as u8]
    } else {
        decimal(n / 10).push((48 + n % 10) as u8)
    }
}

/// The log line `[pid=<pid>] <text>`.
pub open spec fn log_line(pid: u32, text: Seq<u8>) -> Seq<u8> {
    seq![91u8, 112u8, 105u8, 100u8, 61u8] + decimal(pid as nat) + seq![93u8, 32u8] + text
}

/// Appends the decimal digits of `n` to `out`.
fn push_decimal(out: &mut Vec<u8>, n: u32)
    ensures
        final(out)@ == old(out)@ + decimal(n as nat),
    decreases n,
{
    if n >= 10 {
        push_decimal(out, n / 10);
    }
    let digit: u8 = (n % 10) as u8;
    out.push(48u8 + digit);
    assert(out@ =~= old(out)@ + decimal(n as nat));
}

impl DebugLine {
    /// The line as the log shows it: `[pid=<pid>] <text>`.
    pub fn render(&self) -> (r: Vec<u8>)
        ensures
            r@ == log_line(self.pid, self.text@),
    {
        let mut out: Vec<u8> = Vec::new();
        out.push(91u8);
        out.push(112u8);
        out.push(105u8);
        out.push(100u8);
        out.push(61u8);
        push_decimal(&mut out, self.pid);
        out.push(93u8);
        out.push(32u8);
        let ghost prefix = out@;
        let mut i: usize = 0;
        while i < self.text.len()
            invariant
                0 <= i <= self.text@.len(),
                out@ == prefix + self.text@.subrange(0, i as int),
            decreases self.text@.len() - i,
        {
            out.push(self.text[i]);
            i = i + 1;
            assert(out@ =~= prefix + self.text@.subrange(0, i as int));
        }
        assert(self.text@.subrange(0, i as int) =~= self.text@);
        assert(prefix =~= seq![91u8, 112u8, 105u8, 100u8, 61u8] + decimal(self.pid as nat) + seq![
            93u8,
            32u8,
        ]);
        out
    }
}

/// What `fork` asks the host to start: a new instantiation that runs
/// `entry_point` on its own copy of `payload`.
#[derive(Debug, PartialEq, Eq)]
pub struct ForkRequest {
    pub pid: u32,
    pub entry_point: u32,
    pub payload: Vec<u8>,
}

/// The `debug` capability of one instantiation.
pub struct Debug<M> {
    pub id: u32,
    pub memory: Option<M>,
}

/// The `fork` capability of one instantiation.
pub struct Fork<M, F> {
    pub memory: Option<M>,
    pub entry_func: Option<F>,
}

impl<M> Debug<M> {
    pub open spec fn is_bound(&self) -> bool {
        self.memory is Some
    }

    /// An unbound `debug` capability tagged with `id`.
    pub fn new(id: u32) -> (d: Debug<M>)
        ensures
            d.id == id,
            d.memory is None,
    {
        Debug { id, memory: None }
    }

    /// Binds the capability to its instantiation's memory.
    pub fn post_initialize(&mut self, memory: M)
        ensures
            final(self).memory == Some(memory),
            final(self).id == old(self).id,
    {
        self.memory = Some(memory);
    }

    /// The memory that the capability is bound to.
    pub fn bound_memory(&self) -> (r: Result<&M, CallError>)
        ensures
            self.memory matches Some(m) ==> r == Ok::<&M, CallError>(&m),
            self.memory is None ==> r == Err::<&M, CallError>(CallError::Unbound),
    {
        match &self.memory {
            Some(m) => Ok(m),
            None => Err(CallError::Unbound),
        }
    }

    /// Serves `debug(ptr, len)`, where `mem` holds the bytes of the memory
    /// that the capability is bound to.
    pub fn call(&self, mem: &[u8], ptr: u32, len: u32) -> (r: Result<DebugLine, CallError>)
        ensures
            !self.is_bound() ==> r == Err::<DebugLine, CallError>(CallError::Unbound),
            self.is_bound() && !in_bounds(mem@.len(), ptr as nat, len as nat) ==> r == Err::<
                DebugLine,
                CallError,
            >(CallError::OutOfBounds),
            r is Ok <==> self.is_bound() && in_bounds(mem@.len(), ptr as nat, len as nat),
            r matches Ok(line) ==> line.pid == self.id && line.text@ == bytes_at(
                mem@,
                ptr as nat,
                len as nat,
            ),
            self.is_bound() && len == 0 && ptr as nat <= mem@.len() ==> (r matches Ok(line)
                && line.text@.len() == 0),
    {
        if self.memory.is_none() {
            return Err(CallError::Unbound);
        }
        match read_range(mem, ptr, len) {
            Ok(text) => Ok(DebugLine { pid: self.id, text }),
            Err(_) => Err(CallError::OutOfBounds),
        }
    }
}

impl<M, F> Fork<M, F> {
    pub open spec fn is_bound(&self) -> bool {
        self.memory is Some && self.entry_func is Some
    }

    /// An unbound `fork` capability.
    pub fn new() -> (f: Fork<M, F>)
        ensures
            f.memory is None,
            f.entry_func is None,
    {
        Fork { memory: None, entry_func: None }
    }

    /// Binds the capability to its instantiation's memory and dispatch export.
    pub fn post_initialize(&mut self, memory: M, entry_func: F)
        ensures
            final(self).memory == Some(memory),
            final(self).entry_func == Some(entry_func),
    {
        self.memory = Some(memory);
        self.entry_func = Some(entry_func);
    }

    /// The memory that the capability is bound to.
    pub fn bound_memory(&self) -> (r: Result<&M, CallError>)
        ensures
            self.is_bound() ==> r == Ok::<&M, CallError>(&self.memory->0),
            !self.is_bound() ==> r == Err::<&M, CallError>(CallError::Unbound),
    {
        match (&self.memory, &self.entry_func) {
            (Some(m), Some(_)) => Ok(m),
            _ => Err(CallError::Unbound),
        }
    }

    /// Serves `fork(entry_point, descriptor)`, where `mem` holds the bytes of
    /// the memory that the capability is bound to: copies the payload out,
    /// takes a fresh pid from `pids`, and says what to start.
    pub fn call(&self, pids: &mut PidCounter, mem: &[u8], entry_point: u32, descriptor: u64) -> (r:
        Result<ForkRequest, CallError>)
        ensures
            !self.is_bound() ==> r == Err::<ForkRequest, CallError>(CallError::Unbound),
            self.is_bound() && !in_bounds(mem@.len(), addr_of(descriptor), len_of(descriptor))
                ==> r == Err::<ForkRequest, CallError>(CallError::OutOfBounds),
            self.is_bound() && in_bounds(mem@.len(), addr_of(descriptor), len_of(descriptor)) ==> {
                if old(pids)@ < u32::MAX {
                    &&& r matches Ok(req)
                    &&& pid_step(*old(pids), *final(pids), Some(req.pid))
                    &&& req.entry_point == entry_point
                    &&& req.payload@ == bytes_at(mem@, addr_of(descriptor), len_of(descriptor))
                } else {
                    r == Err::<ForkRequest, CallError>(CallError::PidsExhausted)
                }
            },
            r is Err ==> final(pids)@ == old(pids)@,
    {
        if self.memory.is_none() || self.entry_func.is_none() {
            return Err(CallError::Unbound);
        }
        let (start, len) = unpack(descriptor);
        let payload = match read_range(mem, start, len) {
            Ok(v) => v,
            Err(_) => {
                return Err(CallError::OutOfBounds);
            },
        };
        match pids.next_pid() {
            Some(pid) => Ok(ForkRequest { pid, entry_point, payload }),
            None => Err(CallError::PidsExhausted),
        }
    }
}

/// The capabilities handed to one instantiation as its imports.
pub struct Imports<M, F> {
    pub debug: Debug<M>,
    pub fork: Fork<M, F>,
}

impl<M, F> Imports<M, F> {
    pub open spec fn is_bound(&self) -> bool {
        self.debug.is_bound() && self.fork.is_bound()
    }
}

/// Builds the unbound capabilities of a new instantiation; the `debug`
/// capability takes the next pid.
pub fn generate_imports<M, F>(pids: &mut PidCounter) -> (r: Result<Imports<M, F>, SetupError>)
    ensures
        old(pids)@ < u32::MAX ==> r is Ok,
        r matches Ok(imports) ==> {
            &&& pid_step(*old(pids), *final(pids), Some(imports.debug.id))
            &&& imports.debug.memory is None
            &&& imports.fork.memory is None
            &&& imports.fork.entry_func is None
        },
        r is Err ==> r == Err::<Imports<M, F>, SetupError>(SetupError::PidsExhausted)
            && final(pids)@ == old(pids)@,
{
    match pids.next_pid() {
        Some(id) => Ok(Imports { debug: Debug::new(id), fork: Fork::new() }),
        None => Err(SetupError::PidsExhausted),
    }
}

/// Builds the unbound capabilities of the instantiation that runs the fork
/// `pid`; its `debug` capability carries that pid.
pub fn generate_fork_imports<M, F>(pid: u32) -> (r: Imports<M, F>)
    ensures
        r.debug.id == pid,
        r.debug.memory is None,
        r.fork.memory is None,
        r.fork.entry_func is None,
{
    Imports { debug: Debug::new(pid), fork: Fork::new() }
}

/// Binds every capability of `imports` to the instantiation that was made
/// with them, from its exports named `memory` and `invoke`. On an error
/// nothing is bound.
pub fn post_initialize<M: Copy, F>(
    imports: &mut Imports<M, F>,
    memory: Option<Export<M, F>>,
    invoke: Option<Export<M, F>>,
) -> (r: Result<(), SetupError>)
    ensures
        memory_lookup(memory) matches Err(e) ==> r == Err::<(), SetupError>(e),
        memory_lookup(memory) is Ok ==> (function_lookup(ExportName::Invoke, invoke) matches Err(e)
            ==> r == Err::<(), SetupError>(e)),
        r is Ok <==> memory_lookup(memory) is Ok && function_lookup(ExportName::Invoke, invoke) is Ok,
        r is Ok ==> {
            &&& final(imports).debug.memory == Some(memory_lookup(memory)->Ok_0)
            &&& final(imports).fork.memory == Some(memory_lookup(memory)->Ok_0)
            &&& final(imports).fork.entry_func == Some(
                function_lookup(ExportName::Invoke, invoke)->Ok_0,
            )
            &&& final(imports).debug.id == old(imports).debug.id
            &&& final(imports).is_bound()
        },
        r is Err ==> *final(imports) == *old(imports),
{
    let mem = match get_linear_memory(memory) {
        Ok(m) => m,
        Err(e) => {
            return Err(e);
        },
    };
    let entry = match get_function(ExportName::Invoke, invoke) {
        Ok(f) => f,
        Err(e) => {
            return Err(e);
        },
    };
    imports.debug.post_initialize(mem);
    imports.fork.post_initialize(mem, entry);
    Ok(())
}

} // verus!
