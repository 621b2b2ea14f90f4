use arrayvec::ArrayVec;
use ysos::manager::{init, PageFaultAction, ProcessManager};
use ysos::process::{ProcessInner, ProgramStatus, KERNEL_PID};
use ysos::regs::ProcessContext;
use ysos::syscall::{
    dispatcher, exit_process, get_current_pid, io_return_value, spawn_process, stat_process, wait_pid, Syscall,
    SyscallArgs,
};

fn ctx(rip: u64) -> ProcessContext {
    let mut c = ProcessContext::default();
    c.instruction_pointer = rip;
    c
}

/// A 64-bit ELF header that records `entry` as the entry point.
fn elf_image(entry: u64) -> Vec<u8> {
    let mut image = vec![0u8; 64];
    image[..4].copy_from_slice(&[0x7f, b'E', b'L', b'F']);
    image[4] = 2;
    image[5] = 1;
    image[6] = 1;
    image[24..32].copy_from_slice(&entry.to_le_bytes());
    image
}

fn kernel_manager(apps: Option<ArrayVec<String, 16>>) -> ProcessManager {
    init(KERNEL_PID, ProcessInner::new("Kernel_Process", None), apps)
}

#[test]
fn new_process_is_ready_and_lowercase() {
    let p = ProcessInner::new("Hello_World", Some(3));
    assert_eq!(p.name(), "hello_world");
    assert_eq!(p.status(), ProgramStatus::Ready);
    assert!(p.is_ready());
    assert_eq!(p.parent(), Some(3));
    assert_eq!(p.exit_code(), None);
    assert_eq!(p.ticks_passed, 0);
    assert!(p.has_vm && p.has_data);
}

#[test]
fn process_state_changes() {
    let mut p = ProcessInner::new("a", None);
    p.tick();
    p.tick();
    assert_eq!(p.ticks_passed, 2);
    p.resume();
    assert_eq!(p.status(), ProgramStatus::Running);
    p.pause();
    assert_eq!(p.status(), ProgramStatus::Ready);
    p.set_status(ProgramStatus::Blocked);
    assert_eq!(p.status(), ProgramStatus::Blocked);
    p.save(&ctx(0x1234));
    assert_eq!(p.status(), ProgramStatus::Ready);
    assert_eq!(p.restore().instruction_pointer, 0x1234);
    assert_eq!(p.status(), ProgramStatus::Running);
    p.kill(-3);
    assert_eq!(p.status(), ProgramStatus::Dead);
    assert_eq!(p.exit_code(), Some(-3));
    assert!(!p.has_vm && !p.has_data);
}

#[test]
fn init_makes_the_kernel_current_and_running() {
    let pm = kernel_manager(None);
    assert_eq!(pm.current_pid_value(), KERNEL_PID);
    assert_eq!(pm.current().status(), ProgramStatus::Running);
    assert_eq!(pm.current().name(), "kernel_process");
    assert_eq!(pm.next_pid(), 2);
    assert_eq!(get_current_pid(&pm), 1);
}

#[test]
fn round_robin_switching() {
    let mut pm = kernel_manager(None);
    let a = pm.spawn_kernel_thread("A", ctx(0xa000));
    let b = pm.spawn_kernel_thread("B", ctx(0xb000));
    assert_eq!((a, b), (2, 3));
    // Kernel runs; the switch saves its context and goes to A.
    let r = pm.switch_next(&ctx(0x1111));
    assert_eq!(r.instruction_pointer, 0xa000);
    assert_eq!(pm.current_pid_value(), a);
    assert_eq!(pm.get_proc(1).unwrap().status(), ProgramStatus::Ready);
    assert_eq!(pm.get_proc(a).unwrap().status(), ProgramStatus::Running);
    // A is interrupted at 0xa010; B runs next.
    let r = pm.switch_next(&ctx(0xa010));
    assert_eq!(r.instruction_pointer, 0xb000);
    assert_eq!(pm.current_pid_value(), b);
    // Then the kernel again, with the context it was saved with.
    let r = pm.switch_next(&ctx(0xb010));
    assert_eq!(r.instruction_pointer, 0x1111);
    assert_eq!(pm.current_pid_value(), 1);
    // And A resumes where it was interrupted.
    let r = pm.switch_next(&ctx(0x1112));
    assert_eq!(r.instruction_pointer, 0xa010);
    assert_eq!(pm.current_pid_value(), a);
}

#[test]
fn lone_process_keeps_running() {
    let mut pm = kernel_manager(None);
    let r = pm.switch_next(&ctx(0x42));
    assert_eq!(r.instruction_pointer, 0x42);
    assert_eq!(pm.current_pid_value(), 1);
    assert_eq!(pm.current().status(), ProgramStatus::Running);
}

#[test]
fn dead_processes_are_skipped() {
    let mut pm = kernel_manager(None);
    let a = pm.spawn_kernel_thread("a", ctx(0xa000));
    let b = pm.spawn_kernel_thread("b", ctx(0xb000));
    pm.kill(a, 7);
    let r = pm.switch_next(&ctx(0x1));
    assert_eq!(r.instruction_pointer, 0xb000);
    assert_eq!(pm.current_pid_value(), b);
}

#[test]
fn exited_process_is_not_requeued() {
    let mut pm = kernel_manager(None);
    let a = pm.spawn_kernel_thread("a", ctx(0xa000));
    pm.switch_next(&ctx(0x1));
    assert_eq!(pm.current_pid_value(), a);
    let mut c = ctx(0xa004);
    exit_process(&mut pm, &SyscallArgs::new(Syscall::Exit, 5, 0, 0), &mut c);
    assert_eq!(c.instruction_pointer, 0x1);
    assert_eq!(pm.current_pid_value(), 1);
    assert_eq!(wait_pid(&pm, &SyscallArgs::new(Syscall::WaitPid, a as usize, 0, 0)), 5);
    // Only the kernel is left to run.
    let r = pm.switch_next(&ctx(0x2));
    assert_eq!(r.instruction_pointer, 0x2);
    assert_eq!(pm.current_pid_value(), 1);
}

#[test]
fn wait_pid_answers() {
    let mut pm = kernel_manager(None);
    let a = pm.spawn_kernel_thread("a", ctx(0));
    let args = |pid: u16| SyscallArgs::new(Syscall::WaitPid, pid as usize, 0, 0);
    assert_eq!(wait_pid(&pm, &args(a)), usize::MAX);
    assert_eq!(wait_pid(&pm, &args(99)), 0);
    pm.kill(a, -1);
    assert_eq!(wait_pid(&pm, &args(a)), usize::MAX);
    let b = pm.spawn_kernel_thread("b", ctx(0));
    pm.kill(b, 3);
    pm.kill(b, 4);
    assert_eq!(wait_pid(&pm, &args(b)), 3);
}

#[test]
fn kill_current_marks_it_dead() {
    let mut pm = kernel_manager(None);
    pm.kill_current(9);
    assert_eq!(pm.current().status(), ProgramStatus::Dead);
    assert_eq!(pm.current().exit_code(), Some(9));
}

#[test]
fn spawn_process_by_name() {
    let mut apps: ArrayVec<String, 16> = ArrayVec::new();
    apps.push("hello".to_string());
    apps.push("sh".to_string());
    let mut pm = kernel_manager(Some(apps));
    let image = elf_image(0x400000);
    assert_eq!(spawn_process(&mut pm, "", &image, ctx(0)), 0);
    assert_eq!(spawn_process(&mut pm, "nope", &image, ctx(0)), 0);
    assert_eq!(spawn_process(&mut pm, "sh", b"not an executable", ctx(0)), 0);
    assert_eq!(pm.next_pid(), 2);
    assert_eq!(pm.find_app("sh"), Some(1));
    let mut frame = ctx(0);
    frame.stack_pointer = 0x8000;
    let pid = spawn_process(&mut pm, "sh", &image, frame);
    assert_eq!(pid, 2);
    let p = pm.get_proc(2).unwrap();
    assert_eq!(p.name(), "sh");
    assert_eq!(p.parent(), Some(1));
    assert_eq!(p.status(), ProgramStatus::Ready);
    assert_eq!(p.context.instruction_pointer, 0x400000);
    assert_eq!(p.context.stack_pointer, 0x8000);
}

#[test]
fn context_set_up_in_place() {
    let mut p = ProcessInner::new("t", None);
    p.get_proc_context().stack_pointer = 0x8000;
    assert_eq!(p.restore().stack_pointer, 0x8000);
    assert_eq!(p.name(), "t");
}

#[test]
fn spawn_without_app_list() {
    let mut pm = kernel_manager(None);
    assert!(pm.app_list().is_none());
    assert_eq!(spawn_process(&mut pm, "hello", &elf_image(0x1000), ctx(0)), 0);
}

#[test]
fn listing_skips_dead_and_is_ordered() {
    let mut pm = kernel_manager(None);
    let a = pm.spawn_kernel_thread("a", ctx(0));
    let b = pm.spawn(&elf_image(0x1000), "B", Some(a), ctx(0));
    let c = pm.spawn_kernel_thread("c", ctx(0));
    pm.kill(a, 0);
    let rows = stat_process(&pm);
    let pids: Vec<u16> = rows.iter().map(|r| r.pid).collect();
    assert_eq!(pm.queued(), vec![a, b, c]);
    assert_eq!(pids, vec![1, b, c]);
    assert_eq!(rows[1].ppid, a);
    assert_eq!(rows[1].name, "b");
    assert_eq!(rows[0].ppid, 0);
    assert_eq!(rows[0].status, ProgramStatus::Running);
}

#[test]
fn page_fault_decisions() {
    let pm = kernel_manager(None);
    assert_eq!(pm.handle_page_fault(0b00), PageFaultAction::Ignore);
    assert_eq!(pm.handle_page_fault(0b01), PageFaultAction::Ignore);
    assert_eq!(pm.handle_page_fault(0b11), PageFaultAction::Refuse);
    assert_eq!(pm.handle_page_fault(0b10), PageFaultAction::MapPage);
    assert_eq!(pm.handle_page_fault(0b110), PageFaultAction::MapPage);
}

#[test]
fn io_results() {
    assert_eq!(io_return_value(-1), 0);
    assert_eq!(io_return_value(0), 0);
    assert_eq!(io_return_value(12), 12);
}

fn call(number: usize, arg0: usize) -> ProcessContext {
    let mut c = ProcessContext::default();
    c.regs.rax = number;
    c.regs.rdi = arg0;
    c
}

#[test]
fn dispatcher_serves_process_calls() {
    let mut pm = kernel_manager(None);
    let a = pm.spawn_kernel_thread("a", ctx(0xa000));
    let mut c = call(39, 0);
    assert!(dispatcher(&mut pm, &mut c).is_none());
    assert_eq!(c.regs.rax, 1);
    let mut c = call(61, a as usize);
    assert!(dispatcher(&mut pm, &mut c).is_none());
    assert_eq!(c.regs.rax, usize::MAX);
    let mut c = call(1, 1);
    c.regs.rsi = 0x1000;
    c.regs.rdx = 5;
    let pending = dispatcher(&mut pm, &mut c).unwrap();
    assert_eq!((pending.syscall, pending.arg0, pending.arg1, pending.arg2), (Syscall::Write, 1, 0x1000, 5));
    assert_eq!(c.regs.rax, 1);
    let mut c = call(60, 0);
    c.instruction_pointer = 0x10;
    assert!(dispatcher(&mut pm, &mut c).is_none());
    assert_eq!(c.instruction_pointer, 0xa000);
    assert_eq!(pm.current_pid_value(), a);
    assert_eq!(wait_pid(&pm, &SyscallArgs::new(Syscall::WaitPid, 1, 0, 0)), 0);
    let mut c = call(12345, 0);
    assert_eq!(dispatcher(&mut pm, &mut c).unwrap().syscall, Syscall::Unknown);
}

#[test]
fn syscall_numbers_round_trip() {
    for s in [
        Syscall::Read,
        Syscall::Write,
        Syscall::GetPid,
        Syscall::Spawn,
        Syscall::Exit,
        Syscall::WaitPid,
        Syscall::Sem,
        Syscall::Stat,
        Syscall::ListApp,
        Syscall::Fork,
        Syscall::Allocate,
        Syscall::Deallocate,
        Syscall::Unknown,
    ] {
        assert_eq!(Syscall::from_number(s.number()), s);
    }
    assert_eq!(Syscall::from_number(2), Syscall::Unknown);
}

#[test]
fn switch_blocks_on_a_blocked_process() {
    let mut blocked = ProcessInner::new("w", None);
    blocked.set_status(ProgramStatus::Blocked);
    let mut pm = ProcessManager::new(5, blocked, None);
    pm.push_ready(5);
    assert!(!pm.can_switch(&ctx(0)));
}

#[test]
fn switch_can_return_in_the_usual_cases() {
    let mut pm = kernel_manager(None);
    assert!(pm.can_switch(&ctx(0)));
    pm.spawn_kernel_thread("a", ctx(0));
    assert!(pm.can_switch(&ctx(0)));
}

#[test]
fn dead_current_with_nothing_to_run_stays() {
    let mut pm = kernel_manager(None);
    pm.kill_current(1);
    assert!(pm.can_switch(&ctx(0x5)));
    let r = pm.switch_next(&ctx(0x5));
    assert_eq!(r.instruction_pointer, 0x5);
    assert_eq!(pm.current_pid_value(), 1);
    assert_eq!(pm.current().status(), ProgramStatus::Dead);
    assert!(pm.queued().is_empty());
}

#[test]
fn pid_zero_is_the_last_candidate() {
    let mut zero = ProcessInner::new("zero", None);
    zero.save(&ctx(0x2000));
    let mut pm = ProcessManager::new(0, zero, None);
    let r = pm.switch_next(&ctx(0x5));
    assert_eq!(r.instruction_pointer, 0x2000);
    assert_eq!(pm.current_pid_value(), 0);
    assert_eq!(pm.current().status(), ProgramStatus::Running);
}

#[test]
fn missing_pids_are_dropped_from_the_queue() {
    let mut pm = kernel_manager(None);
    pm.push_ready(77);
    let a = pm.spawn_kernel_thread("a", ctx(0xa000));
    let r = pm.switch_next(&ctx(0x1));
    assert_eq!(r.instruction_pointer, 0xa000);
    assert_eq!(pm.current_pid_value(), a);
    assert_eq!(pm.queued(), vec![1]);
}
