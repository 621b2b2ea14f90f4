use vstd::prelude::*;
use crate::manager::{ProcessManager, ProcessRow};
use crate::process::{ProcessInner, ProgramStatus, KERNEL_PID};
use crate::regs::ProcessContext;

verus! {

/// The system calls that user programs make.
#[derive(PartialEq, Eq, Structural, Debug, Clone, Copy)]
pub enum Syscall {
    Read,
    Write,
    GetPid,
    Spawn,
    Exit,
    WaitPid,
    Sem,
    Stat,
    ListApp,
    Fork,
    Allocate,
    Deallocate,
    Unknown,
}

/// The number of each system call in the kernel's calling convention
/// (passed in `rax`).
pub open spec fn number_of(s: Syscall) -> usize {
    match s {
        Syscall::Read => 0,
        Syscall::Write => 1,
        Syscall::GetPid => 39,
        Syscall::Fork => 58,
        Syscall::Spawn => 59,
        Syscall::Exit => 60,
        Syscall::WaitPid => 61,
        Syscall::Sem => 66,
        Syscall::ListApp => 65531,
        Syscall::Stat => 65532,
        Syscall::Allocate => 65533,
        Syscall::Deallocate => 65534,
        Syscall::Unknown => 65535,
    }
}

/// The system call numbered `n`; a number of no call is `Unknown`.
pub open spec fn decode(n: usize) -> Syscall {
    if n == 0 {
        Syscall::Read
    } else if n == 1 {
        Syscall::Write
    } else if n == 39 {
        Syscall::GetPid
    } else if n == 58 {
        Syscall::Fork
    } else if n == 59 {
        Syscall::Spawn
    } else if n == 60 {
        Syscall::Exit
    } else if n == 61 {
        Syscall::WaitPid
    } else if n == 66 {
        Syscall::Sem
    } else if n == 65531 {
        Syscall::ListApp
    } else if n == 65532 {
        Syscall::Stat
    } else if n == 65533 {
        Syscall::Allocate
    } else if n == 65534 {
        Syscall::Deallocate
    } else {
        Syscall::Unknown
    }
}

impl Syscall {
    /// The system call numbered `n`.
    pub fn from_number(n: usize) -> (s: Syscall)
        ensures
            s == decode(n),
    {
        match n {
            0 => Syscall::Read,
            1 => Syscall::Write,
            39 => Syscall::GetPid,
            58 => Syscall::Fork,
            59 => Syscall::Spawn,
            60 => Syscall::Exit,
            61 => Syscall::WaitPid,
            66 => Syscall::Sem,
            65531 => Syscall::ListApp,
            65532 => Syscall::Stat,
            65533 => Syscall::Allocate,
            65534 => Syscall::Deallocate,
            _ => Syscall::Unknown,
        }
    }

    /// The number of the system call.
    pub fn number(&self) -> (n: usize)
        ensures
            n == number_of(*self),
    {
        match self {
            Syscall::Read => 0,
            Syscall::Write => 1,
            Syscall::GetPid => 39,
            Syscall::Fork => 58,
            Syscall::Spawn => 59,
            Syscall::Exit => 60,
            Syscall::WaitPid => 61,
            Syscall::Sem => 66,
            Syscall::ListApp => 65531,
            Syscall::Stat => 65532,
            Syscall::Allocate => 65533,
            Syscall::Deallocate => 65534,
            Syscall::Unknown => 65535,
        }
    }
}

/// The kernel decodes every call that the user library numbers as that
/// very call.
pub proof fn lemma_decode_number(s: Syscall)
    ensures
        decode(number_of(s)) == s,
{
}

/// A system call with its three arguments.
#[derive(Clone, Copy)]
pub struct SyscallArgs {
    pub syscall: Syscall,
    pub arg0: usize,
    pub arg1: usize,
    pub arg2: usize,
}

impl SyscallArgs {
    pub fn new(syscall: Syscall, arg0: usize, arg1: usize, arg2: usize) -> (r: Self)
        ensures
            r == (SyscallArgs { syscall, arg0, arg1, arg2 }),
    {
        SyscallArgs { syscall, arg0, arg1, arg2 }
    }
}

/// What `wait_pid` answers for pid `pid`: 0 when there is no such process,
/// its exit code (as a machine word) when it is dead with one, and
/// `usize::MAX` while it is still alive.
pub open spec fn wait_result(procs: Map<u16, ProcessInner>, pid: u16) -> usize {
    if !procs.contains_key(pid) {
        0
    } else if procs[pid].status == ProgramStatus::Dead && procs[pid].exit_code is Some {
        procs[pid].exit_code->0 as usize
    } else {
        usize::MAX
    }
}

/// The process table after the process `cur` has exited with code `ret`.
pub open spec fn procs_after_exit(procs: Map<u16, ProcessInner>, cur: u16, ret: isize) -> Map<u16, ProcessInner> {
    crate::manager::procs_after_kill(procs, cur, ret)
}

/// Exiting keeps the exit code whole: a live process that exits with `ret`
/// is dead with exit code `ret`, and waiting for it then answers `ret` as a
/// machine word; no other process changes.
pub proof fn lemma_exit_keeps_code(procs: Map<u16, ProcessInner>, cur: u16, ret: isize)
    requires
        procs.contains_key(cur),
        procs[cur].status != ProgramStatus::Dead,
    ensures
        procs_after_exit(procs, cur, ret)[cur].status == ProgramStatus::Dead,
        procs_after_exit(procs, cur, ret)[cur].exit_code == Some(ret),
        wait_result(procs_after_exit(procs, cur, ret), cur) == ret as usize,
        forall|pid: u16| pid != cur ==> #[trigger] procs_after_exit(procs, cur, ret).contains_key(pid) == procs.contains_key(pid),
        forall|pid: u16| pid != cur && procs.contains_key(pid) ==> #[trigger] procs_after_exit(procs, cur, ret)[pid] == procs[pid],
{
}

/// Whether an application named `name` can be spawned.
pub open spec fn app_exists(apps: Option<Seq<Seq<char>>>, name: Seq<char>) -> bool {
    apps matches Some(names) && exists|i: int| 0 <= i < names.len() && names[i] == name
}

/// The pid of the current process.
pub fn get_current_pid(pm: &ProcessManager) -> (r: usize)
    requires
        pm.wf(),
    ensures
        r == pm.current_pid() as usize,
{
    pm.current_pid_value() as usize
}

/// The process listing that the `stat` call prints: the processes that are
/// not dead, by increasing pid.
pub fn stat_process(pm: &ProcessManager) -> (rows: Vec<ProcessRow>)
    ensures
        forall|i: int| 0 <= i < rows@.len() ==> {
            &&& pm.procs().contains_key(#[trigger] rows@[i].pid)
            &&& pm.procs()[rows@[i].pid].status != ProgramStatus::Dead
            &&& crate::manager::row_of(rows@[i], rows@[i].pid, pm.procs()[rows@[i].pid])
        },
        forall|i: int| 0 <= i < rows@.len() ==> {
            &&& (#[trigger] rows@[i]).ticks == pm.procs()[rows@[i].pid].ticks_passed
            &&& rows@[i].status == pm.procs()[rows@[i].pid].status
            &&& rows@[i].name@ == pm.procs()[rows@[i].pid].name@
        },
        forall|i: int, j: int| 0 <= i < j < rows@.len() ==> rows@[i].pid < rows@[j].pid,
        forall|pid: u16|
            pm.procs().contains_key(pid) && pm.procs()[pid].status != ProgramStatus::Dead
                ==> exists|i: int| 0 <= i < rows@.len() && #[trigger] rows@[i].pid == pid,
{
    pm.process_rows()
}

/// A spawn request for the application named `name` with program `image`
/// goes through: the name is not empty, an application has it and the
/// image is an ELF file.
pub open spec fn spawns(apps: Option<Seq<Seq<char>>>, name: Seq<char>, image: Seq<u8>) -> bool {
    &&& name.len() > 0
    &&& app_exists(apps, name)
    &&& crate::boot::elf_entry(image) is Some
}

/// Spawns the application named `name`, whose program is `image`, as a
/// child of the current process, starting at the image's entry point with
/// the rest of its context from `frame`, and returns its pid; returns 0 and
/// changes nothing when the name is empty, no application has that name or
/// the image is not an ELF file.
pub fn spawn_process(pm: &mut ProcessManager, name: &str, image: &[u8], frame: ProcessContext) -> (r: usize)
    requires
        old(pm).wf(),
        name@.len() > 0 && app_exists(old(pm).apps(), name@) ==> old(pm).procs().contains_key(KERNEL_PID),
    ensures
        final(pm).wf(),
        !spawns(old(pm).apps(), name@, image@) ==> r == 0 && *final(pm) == *old(pm),
        spawns(old(pm).apps(), name@, image@) ==> {
            &&& r == old(pm).pid_counter() as usize
            &&& final(pm).pid_counter() == old(pm).pid_counter().wrapping_add(1)
            &&& !old(pm).counter_wrapped() ==> !old(pm).procs().contains_key(old(pm).pid_counter())
            &&& final(pm).procs().contains_key(old(pm).pid_counter())
            &&& crate::manager::fresh_process(
                final(pm).procs()[old(pm).pid_counter()],
                name@,
                Some(old(pm).current_pid()),
                crate::regs::at_entry(frame, crate::boot::elf_entry(image@)->0),
            )
            &&& final(pm).procs().remove(old(pm).pid_counter()) == old(pm).procs().remove(old(pm).pid_counter())
            &&& final(pm).queue() == old(pm).queue().push(old(pm).pid_counter())
            &&& final(pm).current_pid() == old(pm).current_pid()
            &&& final(pm).apps() == old(pm).apps()
        },
{
    if name.is_empty() {
        return 0;
    }
    match pm.find_app(name) {
        None => 0,
        Some(_) => {
            match crate::boot::kernel_entry(image) {
                None => 0,
                Some(_) => {
                    let parent = pm.current_pid_value();
                    let pid = pm.spawn(image, name, Some(parent), frame);
                    pid as usize
                },
            }
        },
    }
}

/// The value that a read or write system call returns for the outcome
/// `result` of the transfer: 0 for an error, else the number of bytes.
pub fn io_return_value(result: isize) -> (r: usize)
    ensures
        result < 0 ==> r == 0,
        result >= 0 ==> r == result,
{
    if result < 0 {
        0
    } else {
        result as usize
    }
}

/// The exit code of the process whose pid is `args.arg0`, or 0 when there is
/// no such process, or `usize::MAX` while it is alive.
pub fn wait_pid(pm: &ProcessManager, args: &SyscallArgs) -> (r: usize)
    ensures
        r == wait_result(pm.procs(), args.arg0 as u16),
{
    let pid = args.arg0 as u16;
    match pm.get_proc(pid) {
        Some(p) => {
            if p.status == ProgramStatus::Dead {
                if let Some(code) = p.exit_code {
                    return code as usize;
                }
            }
            usize::MAX
        },
        None => 0,
    }
}

/// Ends the current process with exit code `args.arg0` and switches to the
/// next process, whose context replaces `context`.
pub fn exit_process(pm: &mut ProcessManager, args: &SyscallArgs, context: &mut ProcessContext)
    requires
        old(pm).wf(),
        crate::manager::switch_can_return(
            procs_after_exit(old(pm).procs(), old(pm).current_pid(), args.arg0 as isize),
            old(pm).queue(),
        ),
    ensures
        final(pm).wf(),
        final(pm).pid_counter() == old(pm).pid_counter(),
        final(pm).apps() == old(pm).apps(),
        crate::manager::switched(
            procs_after_exit(old(pm).procs(), old(pm).current_pid(), args.arg0 as isize),
            old(pm).queue(),
            old(pm).current_pid(),
            *old(context),
            final(pm).procs(),
            final(pm).queue(),
            final(pm).current_pid(),
            *final(context),
        ),
        old(pm).procs()[old(pm).current_pid()].status != ProgramStatus::Dead ==> {
            &&& final(pm).procs()[old(pm).current_pid()].status == ProgramStatus::Dead
            &&& final(pm).procs()[old(pm).current_pid()].exit_code == Some(args.arg0 as isize)
            &&& wait_result(final(pm).procs(), old(pm).current_pid()) == args.arg0
        },
{
    let ret = args.arg0 as isize;
    proof {
        pm.lemma_wf();
    }
    pm.kill_current(ret);
    let ghost pk = pm.procs();
    let ghost cur = pm.current_pid();
    assert(pk =~= procs_after_exit(old(pm).procs(), cur, ret));
    assert(pk[cur].status == ProgramStatus::Dead);
    assert(crate::manager::procs_after_pause(pk, cur, *context) == pk);
    assert(crate::manager::queue_after_pause(pk, pm.queue(), cur) == pm.queue());
    let next = pm.switch_next(context);
    proof {
        let p2 = pm.procs();
        if old(pm).procs()[cur].status != ProgramStatus::Dead {
            assert(pk[cur].exit_code == Some(ret));
            let a0 = args.arg0;
            assert((a0 as isize) as usize == a0) by (bit_vector);
            crate::manager::lemma_switch_leaves_dead(
                pk,
                old(pm).queue(),
                cur,
                *old(context),
                p2,
                pm.queue(),
                pm.current_pid(),
                next,
                cur,
            );
        }
    }
    *context = next;
}

/// The system call that a context asks for: the number in `rax`, the
/// arguments in `rdi`, `rsi` and `rdx`.
pub open spec fn args_of(context: ProcessContext) -> SyscallArgs {
    SyscallArgs {
        syscall: decode(context.regs.rax),
        arg0: context.regs.rdi,
        arg1: context.regs.rsi,
        arg2: context.regs.rdx,
    }
}

/// Decodes the system call that `context` asks for. Runs the calls that
/// only touch the process table and the caller's context (get pid, exit,
/// wait pid) and returns `None`; for every other call, which moves data or
/// prints, nothing changes and the call is handed back to be served.
pub fn dispatcher(pm: &mut ProcessManager, context: &mut ProcessContext) -> (pending: Option<SyscallArgs>)
    requires
        old(pm).wf(),
        args_of(*old(context)).syscall == Syscall::Exit ==> crate::manager::switch_can_return(
            procs_after_exit(old(pm).procs(), old(pm).current_pid(), args_of(*old(context)).arg0 as isize),
            old(pm).queue(),
        ),
    ensures
        final(pm).wf(),
        args_of(*old(context)).syscall == Syscall::GetPid ==> pending is None && *final(pm) == *old(pm) && *final(context) == (ProcessContext { regs: crate::regs::RegistersValue { rax: old(pm).current_pid() as usize, ..old(context).regs }, ..*old(context) }),
        args_of(*old(context)).syscall == Syscall::WaitPid ==> pending is None && *final(pm) == *old(pm) && *final(context) == (ProcessContext { regs: crate::regs::RegistersValue { rax: wait_result(old(pm).procs(), args_of(*old(context)).arg0 as u16), ..old(context).regs }, ..*old(context) }),
        args_of(*old(context)).syscall == Syscall::Exit ==> pending is None && crate::manager::switched(procs_after_exit(old(pm).procs(), old(pm).current_pid(), args_of(*old(context)).arg0 as isize), old(pm).queue(), old(pm).current_pid(), *old(context), final(pm).procs(), final(pm).queue(), final(pm).current_pid(), *final(context)),
        args_of(*old(context)).syscall != Syscall::GetPid && args_of(*old(context)).syscall != Syscall::WaitPid && args_of(*old(context)).syscall != Syscall::Exit ==> pending == Some(args_of(*old(context))) && *final(pm) == *old(pm) && *final(context) == *old(context),
{
    let args = SyscallArgs::new(
        Syscall::from_number(context.regs.rax),
        context.regs.rdi,
        context.regs.rsi,
        context.regs.rdx,
    );
    match args.syscall {
        Syscall::GetPid => {
            let pid = get_current_pid(pm);
            context.set_rax(pid);
            None
        },
        Syscall::WaitPid => {
            let code = wait_pid(pm, &args);
            context.set_rax(code);
            None
        },
        Syscall::Exit => {
            exit_process(pm, &args, context);
            None
        },
        _ => Some(args),
    }
}

} // verus!
