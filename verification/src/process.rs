use vstd::prelude::*;
use std::collections::BTreeMap;
use std::collections::VecDeque;
use crate::regs::{ProcessContext, empty_context};

verus! {

/// The scheduling state of a process.
#[derive(PartialEq, Eq, Structural, Debug, Clone, Copy)]
pub enum ProgramStatus {
    Running,
    Ready,
    Blocked,
    Dead,
}

/// The identifier of a process.
#[derive(PartialEq, Eq, Structural, Debug, Clone, Copy)]
pub struct ProcessId(pub u16);

/// The pid of the kernel process, the parent of kernel threads and of the
/// page tables that new processes start from.
pub const KERNEL_PID: u16 = 1;

/// `c` with an ASCII capital letter turned into the small letter.
pub open spec fn ascii_lower(c: char) -> char {
    if 65 <= (c as u32) <= 90 {
        ((c as u32) + 32) as char
    } else {
        c
    }
}

/// `str::to_ascii_lowercase` from std, whose documentation says that it
/// returns a copy of the string where each character is mapped to its ASCII
/// lower case equivalent ('A' to 'Z' become 'a' to 'z', other characters are
/// unchanged). The contract claims exactly that.
pub assume_specification[ str::to_ascii_lowercase ](s: &str) -> (r: String)
    ensures
        r@ == s@.map_values(|c: char| ascii_lower(c)),
;

/// The state of one process.
pub struct ProcessInner {
    /// The name, in small letters.
    pub name: String,
    /// The pid of the process that created it.
    pub parent: Option<u16>,
    /// The pids of the processes that it created.
    pub children: Vec<u16>,
    /// How many timer ticks it has run for.
    pub ticks_passed: usize,
    pub status: ProgramStatus,
    /// The context saved when it last stopped running.
    pub context: ProcessContext,
    /// The code it exited with, once it has been killed.
    pub exit_code: Option<isize>,
    /// Whether it still owns its address space (page tables and stacks).
    pub has_vm: bool,
    /// Whether it still owns its process data (environment, descriptors).
    pub has_data: bool,
}

/// `p` stopped and waiting to run again, with `ctx` saved.
pub open spec fn paused(p: ProcessInner, ctx: ProcessContext) -> ProcessInner {
    ProcessInner { status: ProgramStatus::Ready, context: ctx, ..p }
}

/// `p` running.
pub open spec fn resumed(p: ProcessInner) -> ProcessInner {
    ProcessInner { status: ProgramStatus::Running, ..p }
}

/// `p` killed with exit code `ret`: dead, without address space or data.
pub open spec fn killed(p: ProcessInner, ret: isize) -> ProcessInner {
    ProcessInner { exit_code: Some(ret), status: ProgramStatus::Dead, has_vm: false, has_data: false, ..p }
}

impl ProcessInner {
    /// A new process named `name` (in small letters), created by `parent`:
    /// ready, with no tick, no child, no exit code, an empty context, an
    /// address space and process data.
    pub fn new(name: &str, parent: Option<u16>) -> (p: Self)
        ensures
            p.name@ == name@.map_values(|c: char| ascii_lower(c)),
            p.parent == parent,
            p.children@ == Seq::<u16>::empty(),
            p.ticks_passed == 0,
            p.status == ProgramStatus::Ready,
            p.context == empty_context(),
            p.exit_code is None,
            p.has_vm,
            p.has_data,
    {
        ProcessInner {
            name: name.to_ascii_lowercase(),
            parent,
            children: Vec::new(),
            ticks_passed: 0,
            status: ProgramStatus::Ready,
            context: ProcessContext::default(),
            exit_code: None,
            has_vm: true,
            has_data: true,
        }
    }

    /// The name.
    pub fn name(&self) -> (r: &str)
        ensures
            r@ == self.name@,
    {
        self.name.as_str()
    }

    /// Counts one more timer tick.
    pub fn tick(&mut self)
        requires
            old(self).ticks_passed < usize::MAX,
        ensures
            *final(self) == (ProcessInner { ticks_passed: (old(self).ticks_passed + 1) as usize, ..*old(self) }),
    {
        self.ticks_passed = self.ticks_passed + 1;
    }

    /// The status.
    pub fn status(&self) -> (r: ProgramStatus)
        ensures
            r == self.status,
    {
        self.status
    }

    /// Sets the status.
    pub fn set_status(&mut self, status: ProgramStatus)
        ensures
            *final(self) == (ProcessInner { status, ..*old(self) }),
    {
        self.status = status;
    }

    /// Marks the process ready to run.
    pub fn pause(&mut self)
        ensures
            *final(self) == (ProcessInner { status: ProgramStatus::Ready, ..*old(self) }),
    {
        self.status = ProgramStatus::Ready;
    }

    /// Marks the process running.
    pub fn resume(&mut self)
        ensures
            *final(self) == resumed(*old(self)),
    {
        self.status = ProgramStatus::Running;
    }

    /// The exit code, once the process has been killed.
    pub fn exit_code(&self) -> (r: Option<isize>)
        ensures
            r == self.exit_code,
    {
        self.exit_code
    }

    /// Whether the process is ready to run.
    pub fn is_ready(&self) -> (r: bool)
        ensures
            r == (self.status == ProgramStatus::Ready),
    {
        self.status == ProgramStatus::Ready
    }

    /// Saves the context that the process stopped with and marks the
    /// process ready.
    pub fn save(&mut self, context: &ProcessContext)
        ensures
            *final(self) == paused(*old(self), *context),
    {
        self.context = *context;
        self.status = ProgramStatus::Ready;
    }

    /// Marks the process running and returns the context to resume it with.
    /// Resuming also switches to its page table, so it must still own its
    /// address space.
    pub fn restore(&mut self) -> (r: ProcessContext)
        requires
            old(self).has_vm,
        ensures
            r == old(self).context,
            *final(self) == resumed(*old(self)),
    {
        self.status = ProgramStatus::Running;
        self.context
    }

    /// The saved context, to be set up in place (entry point and stack of
    /// a new process).
    pub fn get_proc_context(&mut self) -> (r: &mut ProcessContext)
        ensures
            *r == old(self).context,
            *final(self) == (ProcessInner { context: *final(r), ..*old(self) }),
    {
        &mut self.context
    }

    /// The pid of the process that created this one.
    pub fn parent(&self) -> (r: Option<u16>)
        ensures
            r == self.parent,
    {
        self.parent
    }

    /// Kills the process with exit code `ret`: it becomes dead and gives up
    /// its address space and its data.
    pub fn kill(&mut self, ret: isize)
        ensures
            *final(self) == killed(*old(self), ret),
    {
        self.exit_code = Some(ret);
        self.status = ProgramStatus::Dead;
        self.has_vm = false;
        self.has_data = false;
    }
}

} // verus!
