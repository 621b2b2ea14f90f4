use vstd::prelude::*;
use crate::syscall::{Syscall, SyscallArgs};

verus! {

/// A spin lock of the user library. Acquiring and releasing it are not
/// implemented yet: both leave the lock as it is.
pub struct SpinLock {
    bolt: bool,
}

impl SpinLock {
    /// Whether the lock is held.
    pub closed spec fn is_locked(&self) -> bool {
        self.bolt
    }

    /// A free lock.
    pub fn new() -> (l: Self)
        ensures
            !l.is_locked(),
    {
        SpinLock { bolt: false }
    }

    /// Acquires the lock (not implemented: the lock is left as it is).
    pub fn acquire(&self) {
    }

    /// Releases the lock (not implemented: the lock is left as it is).
    pub fn release(&self) {
    }
}

/// The operation codes of the semaphore system call.
pub const SEM_NEW: usize = 0;
pub const SEM_REMOVE: usize = 1;
pub const SEM_SIGNAL: usize = 2;
pub const SEM_WAIT: usize = 3;

/// A semaphore of the kernel, named by its key.
#[derive(Clone, Copy, Debug, PartialEq, Eq, Structural, PartialOrd, Ord)]
pub struct Semaphore {
    key: u32,
}

/// The semaphore system call with operation `op` on key `key` and value `value`.
pub open spec fn sem_call(op: usize, key: u32, value: usize) -> SyscallArgs {
    SyscallArgs { syscall: Syscall::Sem, arg0: op, arg1: key as usize, arg2: value }
}

/// Whether a semaphore system call that returned `ret` succeeded.
pub fn sem_result(ret: usize) -> (ok: bool)
    ensures
        ok == (ret == 0),
{
    ret == 0
}

impl Semaphore {
    /// The key.
    pub closed spec fn key_of(&self) -> u32 {
        self.key
    }

    /// The semaphore with key `key`.
    pub fn new(key: u32) -> (s: Self)
        ensures
            s.key_of() == key,
    {
        Semaphore { key }
    }

    /// The system call that creates the semaphore with initial value `value`.
    pub fn init(&self, value: usize) -> (call: SyscallArgs)
        ensures
            call == sem_call(SEM_NEW, self.key_of(), value),
    {
        SyscallArgs::new(Syscall::Sem, SEM_NEW, self.key as usize, value)
    }

    /// The system call that removes the semaphore.
    pub fn remove(&self) -> (call: SyscallArgs)
        ensures
            call == sem_call(SEM_REMOVE, self.key_of(), 0),
    {
        SyscallArgs::new(Syscall::Sem, SEM_REMOVE, self.key as usize, 0)
    }

    /// The system call that signals the semaphore.
    pub fn signal(&self) -> (call: SyscallArgs)
        ensures
            call == sem_call(SEM_SIGNAL, self.key_of(), 0),
    {
        SyscallArgs::new(Syscall::Sem, SEM_SIGNAL, self.key as usize, 0)
    }

    /// The system call that waits on the semaphore.
    pub fn wait(&self) -> (call: SyscallArgs)
        ensures
            call == sem_call(SEM_WAIT, self.key_of(), 0),
    {
        SyscallArgs::new(Syscall::Sem, SEM_WAIT, self.key as usize, 0)
    }
}

} // verus!
