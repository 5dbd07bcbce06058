use wfork::capability::{
    generate_fork_imports, generate_imports, get_function, get_linear_memory, post_initialize,
    CallError, DebugLine, Export, ExportName, Imports, SetupError,
};
use wfork::descriptor::{pack, unpack};
use wfork::engine::{place_payload, ForkAction, ForkOutcome, ForkStage, ForkState, ForkTask};
use wfork::capability::ForkRequest;
use wfork::memory::{read_range, write_range, OutOfBounds};
use wfork::pid::PidCounter;
use wfork::registry::{ForkRegistry, RegistryError};

fn bound_imports(pids: &mut PidCounter) -> Imports<u8, u8> {
    let mut imports: Imports<u8, u8> = generate_imports(pids).unwrap();
    post_initialize(&mut imports, Some(Export::Memory(7)), Some(Export::Func(9))).unwrap();
    imports
}

#[test]
fn pack_puts_address_high() {
    assert_eq!(pack(1, 2), (1u64 << 32) + 2);
    assert_eq!(pack(0, 0), 0);
    assert_eq!(pack(u32::MAX, u32::MAX), u64::MAX);
}

#[test]
fn unpack_splits_halves() {
    assert_eq!(unpack(0xFFFF_FFFF_0000_0005), (u32::MAX, 5));
    assert_eq!(unpack(pack(1234, 56)), (1234, 56));
    let d: u64 = 0x0102_0304_0506_0708;
    let (a, l) = unpack(d);
    assert_eq!(pack(a, l), d);
}

#[test]
fn read_range_copies_bytes() {
    let mem = b"hello world".to_vec();
    assert_eq!(read_range(&mem, 6, 5), Ok(b"world".to_vec()));
    assert_eq!(read_range(&mem, 11, 0), Ok(Vec::new()));
}

#[test]
fn read_range_rejects_out_of_bounds() {
    let mem = vec![0u8; 8];
    assert_eq!(read_range(&mem, 4, 5), Err(OutOfBounds { start: 4, len: 5, size: 8 }));
    assert_eq!(read_range(&mem, 9, 0), Err(OutOfBounds { start: 9, len: 0, size: 8 }));
    assert_eq!(read_range(&mem, u32::MAX, u32::MAX), Err(OutOfBounds { start: u32::MAX, len: u32::MAX, size: 8 }));
}

#[test]
fn write_range_writes_only_the_range() {
    let mut mem = vec![0u8; 6];
    assert_eq!(write_range(&mut mem, 2, b"ab"), Ok(()));
    assert_eq!(mem, vec![0, 0, b'a', b'b', 0, 0]);
    assert_eq!(write_range(&mut mem, 5, b"xy"), Err(OutOfBounds { start: 5, len: 2, size: 6 }));
    assert_eq!(mem, vec![0, 0, b'a', b'b', 0, 0]);
}

#[test]
fn pids_count_up_from_zero() {
    let mut pids = PidCounter::new();
    assert_eq!(pids.peek(), 0);
    assert_eq!(pids.next_pid(), Some(0));
    assert_eq!(pids.next_pid(), Some(1));
    assert_eq!(pids.next_pid(), Some(2));
    assert_eq!(pids.peek(), 3);
}

#[test]
fn pids_across_capabilities_and_forks_are_exact() {
    let mut pids = PidCounter::new();
    let mem = b"payload".to_vec();
    let mut seen: Vec<u32> = Vec::new();
    for _ in 0..3 {
        let imports = bound_imports(&mut pids);
        seen.push(imports.debug.id);
        for _ in 0..2 {
            let req = imports.fork.call(&mut pids, &mem, 1, pack(0, 3)).unwrap();
            seen.push(req.pid);
        }
    }
    let mut sorted = seen.clone();
    sorted.sort();
    sorted.dedup();
    assert_eq!(sorted, (0..9).collect::<Vec<u32>>());
    assert_eq!(seen, (0..9).collect::<Vec<u32>>());
}

#[test]
fn unbound_debug_fails() {
    let mut pids = PidCounter::new();
    let imports: Imports<u8, u8> = generate_imports(&mut pids).unwrap();
    let mem = b"text".to_vec();
    assert_eq!(imports.debug.call(&mem, 0, 4), Err(CallError::Unbound));
    assert_eq!(imports.debug.bound_memory(), Err(CallError::Unbound));
}

#[test]
fn unbound_fork_fails_and_takes_no_pid() {
    let mut pids = PidCounter::new();
    let imports: Imports<u8, u8> = generate_imports(&mut pids).unwrap();
    let mem = b"text".to_vec();
    assert_eq!(imports.fork.call(&mut pids, &mem, 1, pack(0, 4)), Err(CallError::Unbound));
    assert_eq!(imports.fork.bound_memory(), Err(CallError::Unbound));
    assert_eq!(pids.peek(), 1);
}

#[test]
fn binding_fills_both_capabilities() {
    let mut pids = PidCounter::new();
    let imports = bound_imports(&mut pids);
    assert_eq!(imports.debug.bound_memory(), Ok(&7));
    assert_eq!(imports.fork.bound_memory(), Ok(&7));
    assert_eq!(imports.fork.entry_func, Some(9));
}

#[test]
fn binding_reports_bad_exports() {
    let mut pids = PidCounter::new();
    let mut imports: Imports<u8, u8> = generate_imports(&mut pids).unwrap();
    assert_eq!(
        post_initialize(&mut imports, None, Some(Export::Func(1))),
        Err(SetupError::Missing(ExportName::Memory))
    );
    assert_eq!(
        post_initialize(&mut imports, Some(Export::Func(1)), Some(Export::Func(1))),
        Err(SetupError::WrongKind(ExportName::Memory))
    );
    assert_eq!(
        post_initialize(&mut imports, Some(Export::Memory(1)), None),
        Err(SetupError::Missing(ExportName::Invoke))
    );
    assert_eq!(
        post_initialize(&mut imports, Some(Export::Memory(1)), Some(Export::Memory(2))),
        Err(SetupError::WrongKind(ExportName::Invoke))
    );
    assert_eq!(
        post_initialize(&mut imports, Some(Export::Memory(1)), Some(Export::Other)),
        Err(SetupError::WrongKind(ExportName::Invoke))
    );
    assert_eq!(imports.debug.memory, None);
    assert_eq!(imports.fork.memory, None);
    assert_eq!(imports.fork.entry_func, None);
}

#[test]
fn export_lookups() {
    assert_eq!(get_linear_memory::<u8, u8>(Some(Export::Memory(3))), Ok(3));
    assert_eq!(get_linear_memory::<u8, u8>(Some(Export::Other)), Err(SetupError::WrongKind(ExportName::Memory)));
    assert_eq!(get_function::<u8, u8>(ExportName::Allocate, None), Err(SetupError::Missing(ExportName::Allocate)));
    assert_eq!(get_function::<u8, u8>(ExportName::Run, Some(Export::Memory(1))), Err(SetupError::WrongKind(ExportName::Run)));
    assert_eq!(get_function::<u8, u8>(ExportName::Run, Some(Export::Func(4))), Ok(4));
}

#[test]
fn fork_imports_carry_the_fork_pid() {
    let mut pids = PidCounter::new();
    let imports = bound_imports(&mut pids);
    assert_eq!(imports.debug.id, 0);
    let fork_imports: Imports<u8, u8> = generate_fork_imports(41);
    assert_eq!(fork_imports.debug.id, 41);
    assert_eq!(fork_imports.debug.memory, None);
    assert_eq!(pids.peek(), 1);
}

#[test]
fn debug_emits_the_bytes_with_pid() {
    let mut pids = PidCounter::new();
    let imports = bound_imports(&mut pids);
    let mem = b"xxdonexx".to_vec();
    let line = imports.debug.call(&mem, 2, 4).unwrap();
    assert_eq!(line, DebugLine { pid: 0, text: b"done".to_vec() });
    assert_eq!(line.render(), b"[pid=0] done".to_vec());
}

#[test]
fn debug_zero_length_is_empty_text() {
    let mut pids = PidCounter::new();
    let imports = bound_imports(&mut pids);
    let mem = vec![1u8; 4];
    let line = imports.debug.call(&mem, 4, 0).unwrap();
    assert_eq!(line.text, Vec::<u8>::new());
    assert_eq!(line.render(), b"[pid=0] ".to_vec());
}

#[test]
fn debug_out_of_bounds_fails() {
    let mut pids = PidCounter::new();
    let imports = bound_imports(&mut pids);
    let mem = vec![1u8; 4];
    assert_eq!(imports.debug.call(&mem, 3, 2), Err(CallError::OutOfBounds));
}

#[test]
fn render_writes_decimal_pid() {
    let line = DebugLine { pid: 1234567, text: b"x".to_vec() };
    assert_eq!(line.render(), b"[pid=1234567] x".to_vec());
    let line = DebugLine { pid: u32::MAX, text: Vec::new() };
    assert_eq!(line.render(), b"[pid=4294967295] ".to_vec());
    let line = DebugLine { pid: 10, text: b"ab".to_vec() };
    assert_eq!(line.render(), b"[pid=10] ab".to_vec());
}

#[test]
fn fork_copies_payload_by_value() {
    let mut pids = PidCounter::new();
    let imports = bound_imports(&mut pids);
    let mut mem = b"..hi..".to_vec();
    let req = imports.fork.call(&mut pids, &mem, 5, pack(2, 2)).unwrap();
    mem[2] = b'X';
    mem[3] = b'Y';
    assert_eq!(req.pid, 1);
    assert_eq!(req.entry_point, 5);
    assert_eq!(req.payload, b"hi".to_vec());
}

#[test]
fn fork_out_of_bounds_fails_and_takes_no_pid() {
    let mut pids = PidCounter::new();
    let imports = bound_imports(&mut pids);
    let mem = vec![0u8; 8];
    assert_eq!(imports.fork.call(&mut pids, &mem, 1, pack(6, 3)), Err(CallError::OutOfBounds));
    assert_eq!(imports.fork.call(&mut pids, &mem, 1, pack(9, 0)), Err(CallError::OutOfBounds));
    assert_eq!(pids.peek(), 1);
}

#[test]
fn place_payload_writes_and_describes() {
    let mut mem = vec![0u8; 16];
    let d = place_payload(&mut mem, 8, b"hey").unwrap();
    assert_eq!(d, (8u64 << 32) + 3);
    assert_eq!(&mem[8..11], b"hey");
    assert_eq!(&mem[..8], &[0u8; 8]);
    assert_eq!(place_payload(&mut mem, 14, b"hey"), Err(OutOfBounds { start: 14, len: 3, size: 16 }));
}

#[test]
fn child_writes_stay_in_child() {
    let parent = b"shared?".to_vec();
    let mut child = vec![0u8; 16];
    let d = place_payload(&mut child, 0, &parent).unwrap();
    let (addr, len) = unpack(d);
    write_range(&mut child, addr, b"CHANGED").unwrap();
    assert_eq!(read_range(&child, addr, len), Ok(b"CHANGED".to_vec()));
    assert_eq!(parent, b"shared?".to_vec());
    let mut sibling = vec![0u8; 16];
    place_payload(&mut sibling, 0, &parent).unwrap();
    assert_eq!(read_range(&sibling, 0, 7), Ok(b"shared?".to_vec()));
}

#[test]
fn registry_keeps_unique_pids() {
    let mut reg: ForkRegistry<&str> = ForkRegistry::new();
    assert_eq!(reg.len(), 0);
    assert_eq!(reg.register(1, "a"), Ok(()));
    assert_eq!(reg.register(2, "b"), Ok(()));
    assert_eq!(reg.register(1, "c"), Err(RegistryError::DuplicatePid(1)));
    assert!(reg.contains(1));
    assert!(reg.contains(2));
    assert!(!reg.contains(3));
    assert_eq!(reg.len(), 2);
}

#[test]
fn end_to_end_fork_and_debug() {
    let mut pids = PidCounter::new();
    let mut log: Vec<Vec<u8>> = Vec::new();

    // The root instantiation: "hi" at 0, "done" at 2.
    let root = bound_imports(&mut pids);
    let root_mem = b"hidone".to_vec();
    let req = root.fork.call(&mut pids, &root_mem, 1, pack(0, 2)).unwrap();
    let mut registry: ForkRegistry<u32> = ForkRegistry::new();
    registry.register(req.pid, req.entry_point).unwrap();
    log.push(root.debug.call(&root_mem, 2, 4).unwrap().render());

    // The fork: its own memory, its payload placed where `allocate` said.
    let mut child: Imports<u8, u8> = generate_fork_imports(req.pid);
    post_initialize(&mut child, Some(Export::Memory(1)), Some(Export::Func(2))).unwrap();
    let mut child_mem = vec![0u8; 32];
    let d = place_payload(&mut child_mem, 20, &req.payload).unwrap();
    let (addr, len) = unpack(d);
    let got = read_range(&child_mem, addr, len).unwrap();
    write_range(&mut child_mem, 0, b"got: ").unwrap();
    write_range(&mut child_mem, 5, &got).unwrap();
    log.push(child.debug.call(&child_mem, 0, 7).unwrap().render());

    assert!(log.contains(&b"[pid=0] done".to_vec()));
    assert!(log.contains(&b"[pid=1] got: hi".to_vec()));
    assert!(registry.contains(1));
}

#[test]
fn registry_remove_takes_the_entry() {
    let mut reg: ForkRegistry<u64> = ForkRegistry::new();
    reg.register(4, 40).unwrap();
    reg.register(5, 50).unwrap();
    assert_eq!(reg.remove(4), Some(40));
    assert_eq!(reg.remove(4), None);
    assert!(!reg.contains(4));
    assert!(reg.contains(5));
    assert_eq!(reg.len(), 1);
}

fn request() -> ForkRequest {
    ForkRequest { pid: 3, entry_point: 1, payload: b"hi".to_vec() }
}

#[test]
fn fork_task_runs_all_steps() {
    let (mut task, first) = ForkTask::start(request());
    assert_eq!(first, ForkAction::Instantiate);
    assert_eq!(task.on_instantiated(true), ForkAction::Allocate { len: 2 });
    let mut mem = vec![0u8; 8];
    assert_eq!(
        task.on_allocated(Some(4), &mut mem),
        ForkAction::Invoke { entry_point: 1, descriptor: (4u64 << 32) + 2 }
    );
    assert_eq!(mem, vec![0, 0, 0, 0, b'h', b'i', 0, 0]);
    assert_eq!(task.state, ForkState::Invoking);
    assert_eq!(
        task.on_invoked(Some(-7)),
        ForkAction::Finish { pid: 3, outcome: ForkOutcome::Returned(-7) }
    );
    assert_eq!(task.state, ForkState::Done);
}

#[test]
fn fork_task_fails_at_setup() {
    let (mut task, _) = ForkTask::start(request());
    assert_eq!(
        task.on_instantiated(false),
        ForkAction::Finish { pid: 3, outcome: ForkOutcome::Failed(ForkStage::Setup) }
    );
    assert_eq!(task.state, ForkState::Done);
}

#[test]
fn fork_task_fails_at_allocate_and_place() {
    let (mut task, _) = ForkTask::start(request());
    task.on_instantiated(true);
    let mut mem = vec![0u8; 8];
    assert_eq!(
        task.on_allocated(None, &mut mem),
        ForkAction::Finish { pid: 3, outcome: ForkOutcome::Failed(ForkStage::Allocate) }
    );

    let (mut task, _) = ForkTask::start(request());
    task.on_instantiated(true);
    assert_eq!(
        task.on_allocated(Some(7), &mut mem),
        ForkAction::Finish { pid: 3, outcome: ForkOutcome::Failed(ForkStage::Place) }
    );
    assert_eq!(mem, vec![0u8; 8]);
}

#[test]
fn fork_task_fails_at_invoke() {
    let (mut task, _) = ForkTask::start(request());
    task.on_instantiated(true);
    let mut mem = vec![0u8; 8];
    task.on_allocated(Some(0), &mut mem);
    assert_eq!(
        task.on_invoked(None),
        ForkAction::Finish { pid: 3, outcome: ForkOutcome::Failed(ForkStage::Invoke) }
    );
}

#[test]
fn registry_first_pending_is_lowest_below_bound() {
    let mut reg: ForkRegistry<u8> = ForkRegistry::new();
    assert_eq!(reg.first_pending(10), None);
    reg.register(5, 0).unwrap();
    reg.register(2, 0).unwrap();
    assert_eq!(reg.first_pending(10), Some(2));
    assert_eq!(reg.first_pending(2), None);
    assert_eq!(reg.first_pending(3), Some(2));
    reg.remove(2);
    assert_eq!(reg.first_pending(10), Some(5));
    assert_eq!(reg.first_pending(5), None);
}

#[test]
fn fresh_capabilities_have_empty_slots() {
    let mut pids = PidCounter::new();
    let imports: Imports<u8, u8> = generate_imports(&mut pids).unwrap();
    assert_eq!(imports.debug.memory, None);
    assert_eq!(imports.fork.memory, None);
    assert_eq!(imports.fork.entry_func, None);
    let child: Imports<u8, u8> = generate_fork_imports(1);
    assert_eq!(child.fork.memory, None);
    assert_eq!(child.fork.entry_func, None);
}
