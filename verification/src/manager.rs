use vstd::prelude::*;
use std::collections::BTreeMap;
use std::collections::VecDeque;
use arrayvec::ArrayVec;
use crate::regs::ProcessContext;
use crate::process::{ProcessInner, ProgramStatus, KERNEL_PID};

verus! {

/// Nothing stops the scheduler at `pid`: no such process, or a dead one.
pub open spec fn passable(procs: Map<u16, ProcessInner>, pid: u16) -> bool {
    !procs.contains_key(pid) || procs[pid].status == ProgramStatus::Dead
}

/// `pid` names a process that is ready to run.
pub open spec fn ready_in(procs: Map<u16, ProcessInner>, pid: u16) -> bool {
    procs.contains_key(pid) && procs[pid].status == ProgramStatus::Ready
}

/// Scanning the queue from the front, the scheduler first stops at index `i`.
pub open spec fn scan_stops_at(procs: Map<u16, ProcessInner>, q: Seq<u16>, i: int) -> bool {
    &&& 0 <= i < q.len()
    &&& !passable(procs, q[i])
    &&& forall|j: int| 0 <= j < i ==> passable(procs, #[trigger] q[j])
}

/// The scan runs off the end of the queue without stopping.
pub open spec fn scan_exhausts(procs: Map<u16, ProcessInner>, q: Seq<u16>) -> bool {
    forall|j: int| 0 <= j < q.len() ==> passable(procs, #[trigger] q[j])
}

/// The scan first stops at a live process that is not ready (running or
/// blocked). The kernel then requeues it while it still holds the queue's
/// lock, and never returns.
pub open spec fn switch_blocks(procs: Map<u16, ProcessInner>, q: Seq<u16>) -> bool {
    exists|i: int| scan_stops_at(procs, q, i) && !ready_in(procs, q[#[trigger] (i + 0)])
}

/// The process table after the running process `cur`, if it is running, has
/// been paused with `ctx` saved.
pub open spec fn procs_after_pause(procs: Map<u16, ProcessInner>, cur: u16, ctx: ProcessContext) -> Map<u16, ProcessInner> {
    if procs[cur].status == ProgramStatus::Running {
        procs.insert(cur, crate::process::paused(procs[cur], ctx))
    } else {
        procs
    }
}

/// The ready queue after the running process `cur`, if it is running, has
/// been put at its back.
pub open spec fn queue_after_pause(procs: Map<u16, ProcessInner>, q: Seq<u16>, cur: u16) -> Seq<u16> {
    if procs[cur].status == ProgramStatus::Running {
        q.push(cur)
    } else {
        q
    }
}

/// The bounded vector of arrayvec, opaque to proofs.
#[verifier::external_type_specification]
#[verifier::external_body]
#[verifier::reject_recursive_types(T)]
pub struct ExArrayVec<T, const CAP: usize>(ArrayVec<T, CAP>);

/// The names that an application list holds, in order.
pub uninterp spec fn app_names_in(v: ArrayVec<String, 16>) -> Seq<Seq<char>>;

/// `ArrayVec::len` from arrayvec: the number of elements held.
#[verifier::external_body]
fn app_count(v: &ArrayVec<String, 16>) -> (r: usize)
    ensures
        r == app_names_in(*v).len(),
{
    v.len()
}

/// Indexing an `ArrayVec` (through its slice) from arrayvec: the element at
/// `i`, which must be held (indexing panics otherwise).
#[verifier::external_body]
fn app_name_at(v: &ArrayVec<String, 16>, i: usize) -> (r: &String)
    requires
        i < app_names_in(*v).len(),
    ensures
        r@ == app_names_in(*v)[i as int],
{
    &v[i]
}

/// The names in an application list.
pub open spec fn app_names(list: Option<ArrayVec<String, 16>>) -> Option<Seq<Seq<char>>> {
    match list {
        Some(v) => Some(app_names_in(v)),
        None => None,
    }
}

/// `p` is a process just created with name `name` (put in small letters),
/// parent `parent` and initial context `ctx`.
pub open spec fn fresh_process(p: ProcessInner, name: Seq<char>, parent: Option<u16>, ctx: ProcessContext) -> bool {
    &&& p.name@ == name.map_values(|c: char| crate::process::ascii_lower(c))
    &&& p.parent == parent
    &&& p.children@ == Seq::<u16>::empty()
    &&& p.ticks_passed == 0
    &&& p.status == ProgramStatus::Ready
    &&& p.context == ctx
    &&& p.exit_code is None
    &&& p.has_vm
    &&& p.has_data
}

/// What the kernel does about a page fault.
#[derive(PartialEq, Eq, Structural, Debug, Clone, Copy)]
pub enum PageFaultAction {
    /// Not caused by a write: reported as handled, nothing is done.
    Ignore,
    /// A write to a present page that it may not write: reported as not handled.
    Refuse,
    /// A write to a missing page: the current process's address space maps it.
    MapPage,
}

/// The error-code bit of a fault on a present page (protection violation).
pub const PF_PROTECTION_VIOLATION: u64 = 1;
/// The error-code bit of a fault caused by a write.
pub const PF_CAUSED_BY_WRITE: u64 = 2;

/// The outcome of a switch from process `cur` with context `ctx`, once
/// the running process has been paused: `p1`, `q1` before the scan of the
/// queue, `p2`, `q2`, `cur2` and the returned context `r` after it.
pub open spec fn switched(
    p1: Map<u16, ProcessInner>,
    q1: Seq<u16>,
    cur: u16,
    ctx: ProcessContext,
    p2: Map<u16, ProcessInner>,
    q2: Seq<u16>,
    cur2: u16,
    r: ProcessContext,
) -> bool {
    &&& forall|i: int|
        scan_stops_at(p1, q1, i) ==> {
            &&& p2 == p1.insert(q1[i], crate::process::resumed(p1[q1[i]]))
            &&& q2 == q1.skip(i + 1)
            &&& cur2 == q1[i]
            &&& r == p1[q1[i]].context
        }
    &&& scan_exhausts(p1, q1) ==> {
        &&& q2 == Seq::<u16>::empty()
        &&& p1.contains_key(0) ==> {
            &&& p2 == p1.insert(0, crate::process::resumed(p1[0]))
            &&& cur2 == 0
            &&& r == p1[0].context
        }
        &&& !p1.contains_key(0) ==> {
            &&& p2 == p1
            &&& cur2 == cur
            &&& r == ctx
        }
    }
}

/// A switch from the state `p1`, `q1` (after the running process has been
/// paused) returns: the scan does not stop at a running or blocked process,
/// and when it runs off the end, pid 0 (the candidate then) is not dead.
pub open spec fn switch_can_return(p1: Map<u16, ProcessInner>, q1: Seq<u16>) -> bool {
    &&& !switch_blocks(p1, q1)
    &&& scan_exhausts(p1, q1) && p1.contains_key(0) ==> p1[0].status != ProgramStatus::Dead
}

/// A line of the process listing.
pub struct ProcessRow {
    pub pid: u16,
    /// The parent's pid, 0 for none.
    pub ppid: u16,
    pub name: String,
    pub ticks: usize,
    pub status: ProgramStatus,
}

/// `row` describes process `p`, whose pid is `pid`.
pub open spec fn row_of(row: ProcessRow, pid: u16, p: ProcessInner) -> bool {
    &&& row.pid == pid
    &&& row.ppid == (match p.parent {
        Some(q) => q,
        None => 0,
    })
    &&& row.name@ == p.name@
    &&& row.ticks == p.ticks_passed
    &&& row.status == p.status
}

/// The table of processes, the queue of processes waiting to run and the
/// process that the processor runs.
pub struct ProcessManager {
    processes: BTreeMap<u16, ProcessInner>,
    ready_queue: VecDeque<u16>,
    current: u16,
    next_pid: u16,
    app_list: Option<ArrayVec<String, 16>>,
    /// Whether the pid counter has handed out `u16::MAX` (and so wrapped).
    wrapped: Ghost<bool>,
}

impl ProcessManager {
    /// The processes by pid.
    pub closed spec fn procs(&self) -> Map<u16, ProcessInner> {
        self.processes@
    }

    /// The pids waiting to run, first to run first.
    pub closed spec fn queue(&self) -> Seq<u16> {
        self.ready_queue@
    }

    /// The pid of the process that the processor runs.
    pub closed spec fn current_pid(&self) -> u16 {
        self.current
    }

    /// Whether `switch_next(context)` returns, that is whether the scan of
    /// the queue (after the running process has been paused and queued)
    /// avoids running and blocked processes, and, when it runs off the end,
    /// does not end on a dead process under pid 0.
    pub fn can_switch(&self, context: &ProcessContext) -> (r: bool)
        requires
            self.wf(),
        ensures
            r == switch_can_return(
                procs_after_pause(self.procs(), self.current_pid(), *context),
                queue_after_pause(self.procs(), self.queue(), self.current_pid()),
            ),
    {
        let ghost p1 = procs_after_pause(self.procs(), self.current_pid(), *context);
        let ghost q1 = queue_after_pause(self.procs(), self.queue(), self.current_pid());
        let cur = self.current;
        let running = self.current().status == ProgramStatus::Running;
        let n = self.ready_queue.len();
        let mut i: usize = 0;
        while i < n
            invariant
                n == self.ready_queue@.len(),
                i <= n,
                p1 == procs_after_pause(self.procs(), cur, *context),
                q1 == queue_after_pause(self.procs(), self.queue(), cur),
                cur == self.current_pid(),
                self.procs().contains_key(cur),
                running == (self.procs()[cur].status == ProgramStatus::Running),
                forall|j: int| 0 <= j < i ==> passable(p1, #[trigger] q1[j]),
            decreases n - i,
        {
            let pid = self.ready_queue[i];
            assert(q1[i as int] == pid);
            let status = match self.processes.get(&pid) {
                Some(p) => {
                    if pid == cur && running {
                        Some(ProgramStatus::Ready)
                    } else {
                        Some(p.status)
                    }
                },
                None => None,
            };
            match status {
                None => {},
                Some(st) => {
                    if st != ProgramStatus::Dead {
                        proof {
                            assert(scan_stops_at(p1, q1, i as int));
                            if st != ProgramStatus::Ready {
                                assert(switch_blocks(p1, q1)) by {
                                    assert(!ready_in(p1, q1[(i as int) + 0]));
                                }
                            } else {
                                assert forall|k: int| scan_stops_at(p1, q1, k) implies ready_in(p1, q1[k + 0]) by {
                                    if k < i {
                                        assert(passable(p1, q1[k]));
                                    } else if k > i {
                                        assert(passable(p1, q1[i as int]));
                                    }
                                }
                                assert(!scan_exhausts(p1, q1)) by {
                                    assert(!passable(p1, q1[i as int]));
                                }
                            }
                        }
                        return st == ProgramStatus::Ready;
                    }
                },
            }
            i = i + 1;
        }
        if running {
            proof {
                assert(q1[n as int] == cur);
                assert(scan_stops_at(p1, q1, n as int));
                assert forall|k: int| scan_stops_at(p1, q1, k) implies ready_in(p1, q1[k + 0]) by {
                    if k < n {
                        assert(passable(p1, q1[k]));
                    }
                }
                assert(!scan_exhausts(p1, q1)) by {
                    assert(!passable(p1, q1[n as int]));
                }
            }
            return true;
        }
        proof {
            assert(q1 == self.queue());
            assert forall|k: int| !scan_stops_at(p1, q1, k) by {
                if 0 <= k < q1.len() {
                    assert(passable(p1, q1[k]));
                }
            }
            assert(scan_exhausts(p1, q1));
        }
        match self.processes.get(&0) {
            Some(p) => p.status != ProgramStatus::Dead,
            None => true,
        }
    }

    /// The pid that the next new process gets.
    pub closed spec fn pid_counter(&self) -> u16 {
        self.next_pid
    }

    /// Whether the pid counter has gone past `u16::MAX` and started again
    /// from 0, so that it may hand out a pid that is still in the table.
    pub closed spec fn counter_wrapped(&self) -> bool {
        self.wrapped@
    }

    /// The names of the applications that can be spawned.
    pub closed spec fn apps(&self) -> Option<Seq<Seq<char>>> {
        app_names(self.app_list)
    }

    /// The current process is in the table, a process that is not dead
    /// still owns its address space, and until the pid counter wraps every
    /// pid in the table is below it.
    pub closed spec fn wf(&self) -> bool {
        &&& self.processes@.contains_key(self.current)
        &&& forall|pid: u16| #[trigger]
            self.processes@.contains_key(pid) && self.processes@[pid].status != ProgramStatus::Dead
                ==> self.processes@[pid].has_vm
        &&& !self.wrapped@ ==> forall|pid: u16| #[trigger] self.processes@.contains_key(pid) ==> pid < self.next_pid
    }

    /// In a well-formed manager the current process is in the table, and a
    /// process that is not dead owns its address space.
    pub proof fn lemma_wf(&self)
        requires
            self.wf(),
        ensures
            self.procs().contains_key(self.current_pid()),
            forall|pid: u16| #[trigger]
                self.procs().contains_key(pid) && self.procs()[pid].status != ProgramStatus::Dead
                    ==> self.procs()[pid].has_vm,
    {
    }

    /// A manager whose only process is `init` under pid `init_pid`; that
    /// process is the current one and the next pid follows it.
    pub fn new(init_pid: u16, init: ProcessInner, app_list: Option<ArrayVec<String, 16>>) -> (pm: Self)
        requires
            init.status != ProgramStatus::Dead ==> init.has_vm,
        ensures
            pm.wf(),
            pm.procs() == Map::<u16, ProcessInner>::empty().insert(init_pid, init),
            pm.queue() == Seq::<u16>::empty(),
            pm.current_pid() == init_pid,
            pm.pid_counter() == init_pid.wrapping_add(1),
            pm.counter_wrapped() == (init_pid == u16::MAX),
            pm.apps() == app_names(app_list),
    {
        let mut processes = BTreeMap::new();
        processes.insert(init_pid, init);
        ProcessManager {
            processes,
            ready_queue: VecDeque::new(),
            current: init_pid,
            next_pid: init_pid.wrapping_add(1),
            app_list,
            wrapped: Ghost(init_pid == u16::MAX),
        }
    }

    /// Queues `pid` to run.
    pub fn push_ready(&mut self, pid: u16)
        ensures
            final(self).procs() == old(self).procs(),
            final(self).queue() == old(self).queue().push(pid),
            final(self).current_pid() == old(self).current_pid(),
            final(self).pid_counter() == old(self).pid_counter(),
            final(self).apps() == old(self).apps(),
            final(self).counter_wrapped() == old(self).counter_wrapped(),
            old(self).wf() ==> final(self).wf(),
    {
        self.ready_queue.push_back(pid);
    }

    /// Puts `proc` in the table under `pid`.
    fn add_proc(&mut self, pid: u16, proc: ProcessInner)
        requires
            proc.status != ProgramStatus::Dead ==> proc.has_vm,
            !old(self).counter_wrapped() ==> pid < old(self).pid_counter(),
        ensures
            final(self).procs() == old(self).procs().insert(pid, proc),
            final(self).queue() == old(self).queue(),
            final(self).current_pid() == old(self).current_pid(),
            final(self).pid_counter() == old(self).pid_counter(),
            final(self).apps() == old(self).apps(),
            final(self).counter_wrapped() == old(self).counter_wrapped(),
            old(self).wf() ==> final(self).wf(),
    {
        self.processes.insert(pid, proc);
    }

    /// The process `pid`, if there is one.
    pub fn get_proc(&self, pid: u16) -> (r: Option<&ProcessInner>)
        ensures
            r matches Some(p) ==> self.procs().contains_key(pid) && *p == self.procs()[pid],
            r is None ==> !self.procs().contains_key(pid),
    {
        self.processes.get(&pid)
    }

    /// The pid of the current process.
    pub fn current_pid_value(&self) -> (r: u16)
        ensures
            r == self.current_pid(),
    {
        self.current
    }

    /// The current process.
    pub fn current(&self) -> (r: &ProcessInner)
        requires
            self.wf(),
        ensures
            *r == self.procs()[self.current_pid()],
    {
        match self.processes.get(&self.current) {
            Some(p) => p,
            None => vstd::pervasive::unreached(),
        }
    }

    /// Takes the process `pid`, which is in the table, out of it.
    fn take_proc(&mut self, pid: u16) -> (p: ProcessInner)
        requires
            old(self).procs().contains_key(pid),
        ensures
            p == old(self).procs()[pid],
            final(self).procs() == old(self).procs().remove(pid),
            final(self).queue() == old(self).queue(),
            final(self).current_pid() == old(self).current_pid(),
            final(self).pid_counter() == old(self).pid_counter(),
            final(self).apps() == old(self).apps(),
            final(self).counter_wrapped() == old(self).counter_wrapped(),
    {
        match self.processes.remove(&pid) {
            Some(p) => p,
            None => vstd::pervasive::unreached(),
        }
    }

    /// Saves `context` as the context of the current process, which is
    /// marked ready.
    pub fn save_current(&mut self, context: &ProcessContext)
        requires
            old(self).wf(),
        ensures
            old(self).procs()[old(self).current_pid()].has_vm ==> final(self).wf(),
            final(self).procs() == old(self).procs().insert(
                old(self).current_pid(),
                crate::process::paused(old(self).procs()[old(self).current_pid()], *context),
            ),
            final(self).queue() == old(self).queue(),
            final(self).current_pid() == old(self).current_pid(),
            final(self).pid_counter() == old(self).pid_counter(),
            final(self).apps() == old(self).apps(),
    {
        let cur = self.current;
        let mut p = self.take_proc(cur);
        p.save(context);
        self.processes.insert(cur, p);
        assert(self.processes@ =~= old(self).procs().insert(
            cur,
            crate::process::paused(old(self).procs()[cur], *context),
        ));
    }

    /// Switches to the next process. If the current process is running it
    /// is paused, `context` is saved as its context and it goes to the back
    /// of the queue. Then pids are taken from the front of the queue: those
    /// of missing or dead processes are dropped, and the first ready process
    /// becomes the current one, running, and its saved context is returned.
    /// When the queue runs out, the candidate is pid 0: if there is such a
    /// process it is resumed the same way, otherwise nothing changes and
    /// `context` is returned.
    pub fn switch_next(&mut self, context: &ProcessContext) -> (r: ProcessContext)
        requires
            old(self).wf(),
            switch_can_return(
                procs_after_pause(old(self).procs(), old(self).current_pid(), *context),
                queue_after_pause(old(self).procs(), old(self).queue(), old(self).current_pid()),
            ),
        ensures
            final(self).wf(),
            final(self).pid_counter() == old(self).pid_counter(),
            final(self).apps() == old(self).apps(),
            switched(
                procs_after_pause(old(self).procs(), old(self).current_pid(), *context),
                queue_after_pause(old(self).procs(), old(self).queue(), old(self).current_pid()),
                old(self).current_pid(),
                *context,
                final(self).procs(),
                final(self).queue(),
                final(self).current_pid(),
                r,
            ),
    {
        let cur = self.current;
        let ghost p0 = self.processes@;
        let ghost q0 = self.ready_queue@;
        let running = self.current().status == ProgramStatus::Running;
        if running {
            let mut p = self.take_proc(cur);
            p.pause();
            p.save(context);
            self.processes.insert(cur, p);
            self.ready_queue.push_back(cur);
        }
        let ghost p1 = self.processes@;
        let ghost q1 = self.ready_queue@;
        assert(p1 =~= procs_after_pause(p0, cur, *context));
        assert(q1 =~= queue_after_pause(p0, q0, cur));
        assert(forall|pid: u16| #[trigger]
            p1.contains_key(pid) && p1[pid].status != ProgramStatus::Dead ==> p1[pid].has_vm);
        let mut next: u16 = 0;
        let mut found = false;
        let ghost mut k: int = 0;
        while !found && self.ready_queue.len() > 0
            invariant
                self.processes@ == p1,
                self.current == cur,
                self.next_pid == old(self).next_pid,
                self.wrapped@ == old(self).wrapped@,
                !self.wrapped@ ==> forall|pid: u16| #[trigger] p1.contains_key(pid) ==> pid < self.next_pid,
                self.apps() == old(self).apps(),
                p1.contains_key(cur),
                forall|pid: u16| #[trigger]
                    p1.contains_key(pid) && p1[pid].status != ProgramStatus::Dead ==> p1[pid].has_vm,
                !switch_blocks(p1, q1),
                0 <= k <= q1.len(),
                self.ready_queue@ == q1.skip(k),
                !found ==> next == 0 && forall|j: int| 0 <= j < k ==> passable(p1, #[trigger] q1[j]),
                found ==> k >= 1 && scan_stops_at(p1, q1, k - 1) && next == q1[k - 1] && ready_in(p1, next),
            decreases q1.len() - k,
        {
            let pid = match self.ready_queue.pop_front() {
                Some(x) => x,
                None => vstd::pervasive::unreached(),
            };
            proof {
                assert(pid == q1[k]);
                assert(self.ready_queue@ =~= q1.skip(k + 1));
                k = k + 1;
            }
            match self.processes.get(&pid) {
                Some(p) => {
                    if p.status == ProgramStatus::Ready {
                        next = pid;
                        found = true;
                    } else if p.status != ProgramStatus::Dead {
                        proof {
                            assert(scan_stops_at(p1, q1, k - 1));
                            assert(!ready_in(p1, q1[(k - 1) + 0]));
                            assert(switch_blocks(p1, q1));
                        }
                    }
                },
                None => {},
            }
        }
        match self.processes.get(&next) {
            Some(_) => {
                let mut p = self.take_proc(next);
                let ctx = p.restore();
                p.resume();
                self.processes.insert(next, p);
                self.current = next;
                proof {
                    assert(self.processes@ =~= p1.insert(next, crate::process::resumed(p1[next])));
                    if found {
                        assert forall|i: int| scan_stops_at(p1, q1, i) implies i == k - 1 by {
                            if i < k - 1 {
                                assert(passable(p1, q1[i]));
                            } else if i > k - 1 {
                                assert(passable(p1, q1[k - 1]));
                            }
                        }
                    } else {
                        assert(self.ready_queue@ =~= Seq::<u16>::empty());
                        assert forall|i: int| !scan_stops_at(p1, q1, i) by {
                            if 0 <= i < q1.len() {
                                assert(passable(p1, q1[i]));
                            }
                        }
                    }
                }
                ctx
            },
            None => {
                proof {
                    assert(!found);
                    assert(self.ready_queue@ =~= Seq::<u16>::empty());
                    assert forall|i: int| !scan_stops_at(p1, q1, i) by {
                        if 0 <= i < q1.len() {
                            assert(passable(p1, q1[i]));
                        }
                    }
                }
                *context
            },
        }
    }

    /// Takes the next pid from the counter, which wraps around.
    fn alloc_pid(&mut self) -> (pid: u16)
        ensures
            pid == old(self).pid_counter(),
            final(self).pid_counter() == pid.wrapping_add(1),
            final(self).counter_wrapped() == (old(self).counter_wrapped() || pid == u16::MAX),
            final(self).procs() == old(self).procs(),
            final(self).queue() == old(self).queue(),
            final(self).current_pid() == old(self).current_pid(),
            final(self).apps() == old(self).apps(),
    {
        let pid = self.next_pid;
        self.next_pid = pid.wrapping_add(1);
        proof {
            self.wrapped@ = self.wrapped@ || pid == u16::MAX;
        }
        pid
    }

    /// Kills process `pid` with exit code `ret`. A missing or already dead
    /// process is left alone.
    pub fn kill(&mut self, pid: u16, ret: isize)
        requires
            old(self).wf(),
        ensures
            final(self).wf(),
            final(self).procs() == procs_after_kill(old(self).procs(), pid, ret),
            final(self).queue() == old(self).queue(),
            final(self).current_pid() == old(self).current_pid(),
            final(self).pid_counter() == old(self).pid_counter(),
            final(self).apps() == old(self).apps(),
    {
        match self.processes.get(&pid) {
            None => {
                return;
            },
            Some(p) => {
                if p.status == ProgramStatus::Dead {
                    return;
                }
            },
        }
        let mut p = self.take_proc(pid);
        p.kill(ret);
        self.processes.insert(pid, p);
        assert(self.processes@ =~= old(self).procs().insert(pid, crate::process::killed(old(self).procs()[pid], ret)));
    }

    /// Kills the current process with exit code `ret`.
    pub fn kill_current(&mut self, ret: isize)
        requires
            old(self).wf(),
        ensures
            final(self).wf(),
            final(self).procs() == procs_after_kill(old(self).procs(), old(self).current_pid(), ret),
            final(self).queue() == old(self).queue(),
            final(self).current_pid() == old(self).current_pid(),
            final(self).pid_counter() == old(self).pid_counter(),
            final(self).apps() == old(self).apps(),
    {
        let cur = self.current;
        self.kill(cur, ret);
    }

    /// The pids waiting to run, first to run first.
    pub fn queued(&self) -> (v: Vec<u16>)
        ensures
            v@ == self.queue(),
    {
        let mut v: Vec<u16> = Vec::new();
        let n = self.ready_queue.len();
        let mut i: usize = 0;
        while i < n
            invariant
                n == self.ready_queue@.len(),
                i <= n,
                v@ == self.ready_queue@.take(i as int),
            decreases n - i,
        {
            v.push(self.ready_queue[i]);
            i = i + 1;
            assert(v@ =~= self.ready_queue@.take(i as int));
        }
        assert(v@ =~= self.ready_queue@);
        v
    }

    /// Creates a ready process named `name` under the next pid, with parent
    /// `parent` and initial context `context`, and queues it.
    fn create(&mut self, name: &str, parent: Option<u16>, context: ProcessContext) -> (pid: u16)
        requires
            old(self).wf(),
        ensures
            final(self).wf(),
            pid == old(self).pid_counter(),
            final(self).pid_counter() == pid.wrapping_add(1),
            final(self).counter_wrapped() == (old(self).counter_wrapped() || pid == u16::MAX),
            !old(self).counter_wrapped() ==> !old(self).procs().contains_key(pid),
            final(self).procs().contains_key(pid),
            fresh_process(final(self).procs()[pid], name@, parent, context),
            final(self).procs().remove(pid) == old(self).procs().remove(pid),
            final(self).queue() == old(self).queue().push(pid),
            final(self).current_pid() == old(self).current_pid(),
            final(self).apps() == old(self).apps(),
    {
        let mut proc = ProcessInner::new(name, parent);
        proc.save(&context);
        let pid = self.alloc_pid();
        proc.set_status(ProgramStatus::Ready);
        self.add_proc(pid, proc);
        self.push_ready(pid);
        assert(self.processes@.remove(pid) =~= old(self).procs().remove(pid));
        pid
    }

    /// Spawns a kernel thread named `name`, a child of the kernel process,
    /// starting from `context` (the entry point and stack that its address
    /// space was prepared with), and queues it. Returns its pid.
    pub fn spawn_kernel_thread(&mut self, name: &str, context: ProcessContext) -> (pid: u16)
        requires
            old(self).wf(),
            old(self).procs().contains_key(KERNEL_PID),
        ensures
            final(self).wf(),
            pid == old(self).pid_counter(),
            final(self).pid_counter() == pid.wrapping_add(1),
            final(self).counter_wrapped() == (old(self).counter_wrapped() || pid == u16::MAX),
            !old(self).counter_wrapped() ==> !old(self).procs().contains_key(pid),
            final(self).procs().contains_key(pid),
            fresh_process(final(self).procs()[pid], name@, Some(KERNEL_PID), context),
            final(self).procs().remove(pid) == old(self).procs().remove(pid),
            final(self).queue() == old(self).queue().push(pid),
            final(self).current_pid() == old(self).current_pid(),
            final(self).apps() == old(self).apps(),
    {
        self.create(name, Some(KERNEL_PID), context)
    }

    /// Spawns a user process named `name` with parent `parent` from the
    /// program `image`, an ELF file: it starts at the entry point that the
    /// image records, with the rest of its context (stack, segments, flags)
    /// taken from `frame`. The process is marked ready and queued; returns
    /// its pid.
    pub fn spawn(&mut self, image: &[u8], name: &str, parent: Option<u16>, frame: ProcessContext) -> (pid: u16)
        requires
            old(self).wf(),
            old(self).procs().contains_key(KERNEL_PID),
            crate::boot::elf_entry(image@) is Some,
        ensures
            final(self).wf(),
            pid == old(self).pid_counter(),
            final(self).pid_counter() == pid.wrapping_add(1),
            final(self).counter_wrapped() == (old(self).counter_wrapped() || pid == u16::MAX),
            !old(self).counter_wrapped() ==> !old(self).procs().contains_key(pid),
            final(self).procs().contains_key(pid),
            fresh_process(final(self).procs()[pid], name@, parent, crate::regs::at_entry(frame, crate::boot::elf_entry(image@)->0)),
            final(self).procs().remove(pid) == old(self).procs().remove(pid),
            final(self).queue() == old(self).queue().push(pid),
            final(self).current_pid() == old(self).current_pid(),
            final(self).apps() == old(self).apps(),
    {
        let entry = match crate::boot::kernel_entry(image) {
            Some(e) => e,
            None => vstd::pervasive::unreached(),
        };
        let mut context = frame;
        context.instruction_pointer = entry;
        self.create(name, parent, context)
    }

    /// The list of applications that can be spawned.
    pub fn app_list(&self) -> (r: Option<&ArrayVec<String, 16>>)
        ensures
            app_names(match r { Some(v) => Some(*v), None => None }) == self.apps(),
    {
        match &self.app_list {
            Some(v) => Some(v),
            None => None,
        }
    }

    /// The position of the first application named `name`, if any.
    pub fn find_app(&self, name: &str) -> (r: Option<usize>)
        ensures
            self.apps() is None ==> r is None,
            self.apps() matches Some(names) ==> match r {
                Some(i) => i < names.len() && names[i as int] == name@ && forall|j: int| 0 <= j < i ==> names[j] != name@,
                None => forall|j: int| 0 <= j < names.len() ==> names[j] != name@,
            },
    {
        match &self.app_list {
            None => None,
            Some(apps) => {
                let target = name.to_owned();
                let n = app_count(apps);
                let mut i: usize = 0;
                while i < n
                    invariant
                        self.app_list == Some(*apps),
                        n == app_names_in(*apps).len(),
                        target@ == name@,
                        i <= n,
                        forall|j: int| 0 <= j < i ==> app_names_in(*apps)[j] != name@,
                    decreases n - i,
                {
                    if *app_name_at(apps, i) == target {
                        return Some(i);
                    }
                    i = i + 1;
                }
                None
            },
        }
    }

    /// What to do about a page fault of the current process with error code
    /// `err_code`: a fault not caused by a write is ignored (and reported as
    /// handled), a write that violates a page's protection is refused, and a
    /// write to a missing page is mapped by the process's address space.
    pub fn handle_page_fault(&self, err_code: u64) -> (a: PageFaultAction)
        requires
            self.wf(),
        ensures
            err_code & PF_CAUSED_BY_WRITE != PF_CAUSED_BY_WRITE ==> a == PageFaultAction::Ignore,
            err_code & PF_CAUSED_BY_WRITE == PF_CAUSED_BY_WRITE && err_code & PF_PROTECTION_VIOLATION == PF_PROTECTION_VIOLATION ==> a == PageFaultAction::Refuse,
            err_code & PF_CAUSED_BY_WRITE == PF_CAUSED_BY_WRITE && err_code & PF_PROTECTION_VIOLATION != PF_PROTECTION_VIOLATION ==> a == PageFaultAction::MapPage,
    {
        let _current = self.current();
        if err_code & PF_CAUSED_BY_WRITE != PF_CAUSED_BY_WRITE {
            return PageFaultAction::Ignore;
        }
        if err_code & PF_PROTECTION_VIOLATION == PF_PROTECTION_VIOLATION {
            return PageFaultAction::Refuse;
        }
        PageFaultAction::MapPage
    }

    /// The pid that the next new process gets.
    pub fn next_pid(&self) -> (r: u16)
        ensures
            r == self.pid_counter(),
    {
        self.next_pid
    }

    /// The listing of the processes that are not dead, by increasing pid
    /// (the pids are visited in order).
    pub fn process_rows(&self) -> (rows: Vec<ProcessRow>)
        ensures
            forall|i: int| 0 <= i < rows@.len() ==> {
                &&& self.procs().contains_key(#[trigger] rows@[i].pid)
                &&& self.procs()[rows@[i].pid].status != ProgramStatus::Dead
                &&& row_of(rows@[i], rows@[i].pid, self.procs()[rows@[i].pid])
            },
            forall|i: int| 0 <= i < rows@.len() ==> {
                &&& (#[trigger] rows@[i]).ticks == self.procs()[rows@[i].pid].ticks_passed
                &&& rows@[i].status == self.procs()[rows@[i].pid].status
                &&& rows@[i].name@ == self.procs()[rows@[i].pid].name@
            },
            forall|i: int, j: int| 0 <= i < j < rows@.len() ==> rows@[i].pid < rows@[j].pid,
            forall|pid: u16|
                self.procs().contains_key(pid) && self.procs()[pid].status != ProgramStatus::Dead
                    ==> exists|i: int| 0 <= i < rows@.len() && #[trigger] rows@[i].pid == pid,
    {
        let mut rows: Vec<ProcessRow> = Vec::new();
        let mut next: u32 = 0;
        while next <= 0xFFFF
            invariant
                next <= 0x1_0000,
                forall|i: int| 0 <= i < rows@.len() ==> {
                    &&& self.processes@.contains_key(#[trigger] rows@[i].pid)
                    &&& self.processes@[rows@[i].pid].status != ProgramStatus::Dead
                    &&& row_of(rows@[i], rows@[i].pid, self.processes@[rows@[i].pid])
                    &&& rows@[i].pid < next
                },
                forall|i: int, j: int| 0 <= i < j < rows@.len() ==> rows@[i].pid < rows@[j].pid,
                forall|q: u16| q < next && self.processes@.contains_key(q) && self.processes@[q].status != ProgramStatus::Dead
                    ==> exists|i: int| 0 <= i < rows@.len() && #[trigger] rows@[i].pid == q,
            decreases 0x1_0000 - next,
        {
            let pid = next as u16;
            let ghost before = rows@;
            match self.processes.get(&pid) {
                Some(p) => {
                    if p.status != ProgramStatus::Dead {
                        let ppid = match p.parent {
                            Some(q) => q,
                            None => 0,
                        };
                        rows.push(ProcessRow { pid, ppid, name: p.name.clone(), ticks: p.ticks_passed, status: p.status });
                        proof {
                            let n = before.len() as int;
                            assert(rows@[n].pid == pid);
                            assert forall|q: u16| q < next + 1 && self.processes@.contains_key(q) && self.processes@[q].status != ProgramStatus::Dead
                                implies exists|i: int| 0 <= i < rows@.len() && #[trigger] rows@[i].pid == q by {
                                if q == pid {
                                    assert(rows@[n].pid == q);
                                } else {
                                    let i = choose|i: int| 0 <= i < n && #[trigger] before[i].pid == q;
                                    assert(rows@[i] == before[i]);
                                }
                            }
                        }
                    }
                },
                None => {},
            }
            next = next + 1;
        }
        rows
    }
}

/// A row describes its process as the process is: the row shows the
/// process's own tick count, status, name and parent (0 for none).
pub proof fn lemma_row_shows_process(row: ProcessRow, pid: u16, p: ProcessInner)
    requires
        row_of(row, pid, p),
    ensures
        row.pid == pid,
        row.ticks == p.ticks_passed,
        row.status == p.status,
        row.name@ == p.name@,
        p.parent matches Some(q) ==> row.ppid == q,
        p.parent is None ==> row.ppid == 0,
{
}

/// The process table after `kill(pid, ret)`.
pub open spec fn procs_after_kill(procs: Map<u16, ProcessInner>, pid: u16, ret: isize) -> Map<u16, ProcessInner> {
    if procs.contains_key(pid) && procs[pid].status != ProgramStatus::Dead {
        procs.insert(pid, crate::process::killed(procs[pid], ret))
    } else {
        procs
    }
}

/// Killing is done once: a second kill of the same process changes
/// nothing, whatever its exit code, so the first exit code stays.
pub proof fn lemma_kill_once(procs: Map<u16, ProcessInner>, pid: u16, first: isize, second: isize)
    ensures
        procs_after_kill(procs_after_kill(procs, pid, first), pid, second) == procs_after_kill(procs, pid, first),
{
}

/// What waiting answers after a kill: the exit code the live process was
/// killed with.
pub proof fn lemma_wait_after_kill(procs: Map<u16, ProcessInner>, pid: u16, ret: isize)
    requires
        procs.contains_key(pid),
        procs[pid].status != ProgramStatus::Dead,
    ensures
        crate::syscall::wait_result(procs_after_kill(procs, pid, ret), pid) == ret as usize,
{
}

/// Saving a context and resuming gives that context back, and a paused
/// process that is resumed runs again with nothing else changed.
pub proof fn lemma_pause_then_resume(p: ProcessInner, ctx: ProcessContext)
    ensures
        crate::process::paused(p, ctx).context == ctx,
        crate::process::resumed(crate::process::paused(p, ctx)) == (ProcessInner {
            status: ProgramStatus::Running,
            context: ctx,
            ..p
        }),
{
}

/// A switch neither creates nor removes processes.
pub proof fn lemma_switch_keeps_pids(
    p1: Map<u16, ProcessInner>,
    q1: Seq<u16>,
    cur: u16,
    ctx: ProcessContext,
    p2: Map<u16, ProcessInner>,
    q2: Seq<u16>,
    cur2: u16,
    r: ProcessContext,
)
    requires
        switched(p1, q1, cur, ctx, p2, q2, cur2, r),
    ensures
        p2.dom() == p1.dom(),
{
    if scan_exhausts(p1, q1) {
        if p1.contains_key(0) {
            assert(p2.dom() =~= p1.dom());
        }
    } else {
        let i = choose|i: int| 0 <= i < q1.len() && !passable(p1, #[trigger] q1[i]);
        let first = first_stop(p1, q1, i);
        assert(scan_stops_at(p1, q1, first));
        assert(p2.dom() =~= p1.dom());
    }
}

/// A switch that returns leaves a dead process as it is: it stays in the
/// table, dead, with its exit code.
pub proof fn lemma_switch_leaves_dead(
    p1: Map<u16, ProcessInner>,
    q1: Seq<u16>,
    cur: u16,
    ctx: ProcessContext,
    p2: Map<u16, ProcessInner>,
    q2: Seq<u16>,
    cur2: u16,
    r: ProcessContext,
    pid: u16,
)
    requires
        switched(p1, q1, cur, ctx, p2, q2, cur2, r),
        switch_can_return(p1, q1),
        p1.contains_key(pid),
        p1[pid].status == ProgramStatus::Dead,
    ensures
        p2.contains_key(pid),
        p2[pid] == p1[pid],
{
    if !scan_exhausts(p1, q1) {
        let i = choose|i: int| 0 <= i < q1.len() && !passable(p1, #[trigger] q1[i]);
        let first = first_stop(p1, q1, i);
        assert(scan_stops_at(p1, q1, first));
    }
}

/// The first index at most `i` whose pid is not passable, given that `i`'s
/// is not.
proof fn first_stop(p1: Map<u16, ProcessInner>, q1: Seq<u16>, i: int) -> (f: int)
    requires
        0 <= i < q1.len(),
        !passable(p1, q1[i]),
    ensures
        scan_stops_at(p1, q1, f),
    decreases i,
{
    if forall|j: int| 0 <= j < i ==> passable(p1, #[trigger] q1[j]) {
        i
    } else {
        let j = choose|j: int| 0 <= j < i && !passable(p1, #[trigger] q1[j]);
        first_stop(p1, q1, j)
    }
}

/// The process that a switch leaves current is running, unless the switch
/// found nothing to run and changed nothing.
pub proof fn lemma_switch_runs_current(
    p1: Map<u16, ProcessInner>,
    q1: Seq<u16>,
    cur: u16,
    ctx: ProcessContext,
    p2: Map<u16, ProcessInner>,
    q2: Seq<u16>,
    cur2: u16,
    r: ProcessContext,
)
    requires
        switched(p1, q1, cur, ctx, p2, q2, cur2, r),
    ensures
        (p2.contains_key(cur2) && p2[cur2].status == ProgramStatus::Running) || (cur2 == cur && p2 == p1),
{
    if !scan_exhausts(p1, q1) {
        let i = choose|i: int| 0 <= i < q1.len() && !passable(p1, #[trigger] q1[i]);
        let first = first_stop(p1, q1, i);
        assert(scan_stops_at(p1, q1, first));
    }
}

/// A running process with no ready process queued keeps running: the
/// switch resumes it with the very context it was interrupted with.
pub proof fn lemma_lone_process_continues(
    procs: Map<u16, ProcessInner>,
    q: Seq<u16>,
    cur: u16,
    ctx: ProcessContext,
    p2: Map<u16, ProcessInner>,
    q2: Seq<u16>,
    cur2: u16,
    r: ProcessContext,
)
    requires
        procs.contains_key(cur),
        procs[cur].status == ProgramStatus::Running,
        scan_exhausts(procs_after_pause(procs, cur, ctx), q),
        switched(procs_after_pause(procs, cur, ctx), queue_after_pause(procs, q, cur), cur, ctx, p2, q2, cur2, r),
    ensures
        cur2 == cur,
        r == ctx,
        q2 == Seq::<u16>::empty(),
        p2 == procs.insert(cur, crate::process::resumed(crate::process::paused(procs[cur], ctx))),
{
    let p1 = procs_after_pause(procs, cur, ctx);
    let q1 = queue_after_pause(procs, q, cur);
    assert(q1 == q.push(cur));
    assert(q1[q.len() as int] == cur);
    assert(scan_stops_at(p1, q1, q.len() as int));
    assert(q1.skip(q.len() as int + 1) =~= Seq::<u16>::empty());
    assert(p1.insert(cur, crate::process::resumed(p1[cur])) =~= procs.insert(cur, crate::process::resumed(crate::process::paused(procs[cur], ctx))));
}

/// Starts process management with `init` as the first process, under
/// `init_pid`: it is marked running and becomes the current process.
pub fn init(init_pid: u16, init_proc: ProcessInner, app_list: Option<ArrayVec<String, 16>>) -> (pm: ProcessManager)
    requires
        init_proc.has_vm,
    ensures
        pm.wf(),
        pm.procs() == Map::<u16, ProcessInner>::empty().insert(init_pid, crate::process::resumed(init_proc)),
        pm.queue() == Seq::<u16>::empty(),
        pm.current_pid() == init_pid,
        pm.pid_counter() == init_pid.wrapping_add(1),
        pm.counter_wrapped() == (init_pid == u16::MAX),
        pm.apps() == app_names(app_list),
{
    let mut p = init_proc;
    p.set_status(ProgramStatus::Running);
    ProcessManager::new(init_pid, p, app_list)
}

} // verus!
