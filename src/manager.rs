use vstd::prelude::*;

use crate::child::Child;
use crate::config::{is_router_format, Container};
use crate::state::ChildState;

verus! {

/// Why a container process could not be spawned.
#[derive(Debug, Clone, Copy, PartialEq, Eq, Structural)]
pub enum SpawnError {
    /// The anonymous capture file could not be opened.
    CaptureFile,
    /// The stack of the new process could not be allocated.
    Stack,
    /// The kernel refused to create the process in its new namespaces.
    Namespace,
}

/// The errors of the manager's phases.
#[derive(Debug, PartialEq, Eq)]
pub enum ManagerError {
    /// The named container could not be spawned.
    Create { name: String, cause: SpawnError },
    /// The kernel's wait primitive itself failed, with this error number.
    WaitFailed { errno: i32 },
    /// The kernel reported a status of this process that the reaper does not
    /// model (stopped, continued, traced).
    UnexpectedStatus { pid: i32 },
    /// Every registered process was reaped; the aggregate result of the run
    /// is not defined yet, so the wait ends with this error.
    ResultPending,
}

/// One notification of the kernel's wait primitive, as the reaper reads it.
#[derive(Debug, Clone, Copy, PartialEq, Eq, Structural)]
pub enum WaitEvent {
    /// The process ended through `exit` with this status.
    Exited { pid: i32, status: u8 },
    /// The process was ended by a signal.
    Signaled { pid: i32 },
    /// Any other change of the process's status: stopped, continued, traced.
    Other { pid: i32 },
    /// The wait primitive failed with this error number.
    Failed { errno: i32 },
}

/// The position of the entry for `pid` in `s`, or `s.len()` where there is
/// none.
pub open spec fn pid_index(s: Seq<Child>, pid: i32) -> int {
    if exists|i: int| 0 <= i < s.len() && s[i].pid == pid {
        choose|i: int| 0 <= i < s.len() && s[i].pid == pid
    } else {
        s.len() as int
    }
}

/// No two entries share a process id.
pub open spec fn pids_unique(s: Seq<Child>) -> bool {
    forall|i: int, j: int| 0 <= i < j < s.len() ==> s[i].pid != s[j].pid
}

/// `c` is the handle of a freshly spawned process with these values.
pub open spec fn fresh_entry(c: Child, name: Seq<char>, config: Container, pid: i32) -> bool {
    &&& c.name@ == name
    &&& c.config == config
    &&& c.pid == pid
    &&& c.current() == Some(ChildState::Created)
}

/// The router count after one more router: the count wraps around as an
/// atomic counter does.
pub open spec fn bumped(n: isize) -> isize {
    if n == isize::MAX {
        isize::MIN
    } else {
        (n + 1) as isize
    }
}

/// `after` is `before` with `c` registered under its process id: an entry
/// with the same id is replaced in place, otherwise `c` is appended.
pub open spec fn registered(before: Seq<Child>, after: Seq<Child>, c: Child) -> bool {
    let k = pid_index(before, c.pid);
    if k < before.len() {
        after == before.update(k, c)
    } else {
        after == before.push(c)
    }
}

/// The process ids of the entries in state `Created`, in registry order.
pub open spec fn created_pids(s: Seq<Child>) -> Seq<i32>
    decreases s.len(),
{
    if s.len() == 0 {
        Seq::empty()
    } else {
        let rest = created_pids(s.drop_last());
        if s.last().current() == Some(ChildState::Created) {
            rest.push(s.last().pid)
        } else {
            rest
        }
    }
}

/// What releasing the barrier does to one entry: `Created` becomes
/// `Started`, any other state word stays as it was.
pub open spec fn released(before: Child, after: Child) -> bool {
    &&& before.same_process(&after)
    &&& if before.current() == Some(ChildState::Created) {
        after.current() == Some(ChildState::Started)
    } else {
        after.state == before.state
    }
}

/// What reaping an exit does to the process's entry: status 0 stops it;
/// another status crashes a state that is not terminal and leaves a
/// terminal one as it was.
pub open spec fn reaped(before: Child, after: Child, status: u8) -> bool {
    &&& before.same_process(&after)
    &&& if status == 0 {
        after.current() == Some(ChildState::Stopped)
    } else if before.may_advance() {
        after.current() == Some(ChildState::Crashed(status as isize))
    } else {
        after.state == before.state
    }
}

/// The outcome of the wait loop with `running` processes left: keep waiting
/// on the rest, or, with none left, the error that ends every complete wait.
pub open spec fn wait_outcome(running: int) -> Result<usize, ManagerError> {
    if running == 0 {
        Err(ManagerError::ResultPending)
    } else {
        Ok(running as usize)
    }
}

/// The registry of all container processes, keyed by process id, and the
/// number of router containers created so far.
pub struct ContainerManager {
    childs: Vec<Child>,
    managers: isize,
}

impl ContainerManager {
    /// The registered handles, in the order in which they were registered.
    pub closed spec fn children(&self) -> Seq<Child> {
        self.childs@
    }

    /// The number of router containers created so far.
    pub closed spec fn routers(&self) -> isize {
        self.managers
    }

    /// Each process id is registered at most once.
    pub open spec fn wf(&self) -> bool {
        pids_unique(self.children())
    }

    pub fn new() -> (r: ContainerManager)
        ensures
            r.wf(),
            r.children().len() == 0,
            r.routers() == 0,
    {
        ContainerManager { childs: Vec::new(), managers: 0 }
    }

    /// The position of the entry for `pid`, or the number of entries where
    /// there is none.
    fn find(&self, pid: i32) -> (r: usize)
        requires
            self.wf(),
        ensures
            r == pid_index(self.children(), pid),
    {
        let mut i: usize = 0;
        while i < self.childs.len()
            invariant
                0 <= i <= self.childs@.len(),
                self.wf(),
                forall|k: int| 0 <= k < i ==> self.childs@[k].pid != pid,
            decreases self.childs@.len() - i,
        {
            if self.childs[i].pid == pid {
                let ghost j = choose|j: int| 0 <= j < self.childs@.len() && self.childs@[j].pid == pid;
                assert(j == i as int);
                return i;
            }
            i = i + 1;
        }
        i
    }

    /// Counts a router, then registers the process that the spawn gave, or
    /// reports the named container's spawn error and registers nothing.
    pub fn create_container(
        &mut self,
        name: &str,
        config: &Container,
        spawned: Result<i32, SpawnError>,
    ) -> (r: Result<(), ManagerError>)
        requires
            old(self).wf(),
        ensures
            final(self).wf(),
            final(self).routers() == if is_router_format(config.output_type) {
                bumped(old(self).routers())
            } else {
                old(self).routers()
            },
            spawned matches Ok(pid) ==> r is Ok && {
                let k = pid_index(old(self).children(), pid);
                &&& fresh_entry(final(self).children()[k], name@, *config, pid)
                &&& registered(old(self).children(), final(self).children(), final(self).children()[k])
            },
            spawned matches Err(cause) ==> final(self).children() == old(self).children() && (
            match r {
                Err(ManagerError::Create { name: n, cause: c }) => n@ == name@ && c == cause,
                _ => false,
            }),
    {
        if config.is_router() {
            self.managers = if self.managers == isize::MAX {
                isize::MIN
            } else {
                self.managers + 1
            };
        }
        match spawned {
            Ok(pid) => {
                let child = Child::new(name.to_string(), *config, pid);
                self.add_child(child);
                Ok(())
            },
            Err(cause) => Err(ManagerError::Create { name: name.to_string(), cause }),
        }
    }

    /// Registers `child` under its process id.
    fn add_child(&mut self, child: Child)
        requires
            old(self).wf(),
        ensures
            final(self).wf(),
            final(self).routers() == old(self).routers(),
            registered(old(self).children(), final(self).children(), child),
    {
        let k = self.find(child.pid);
        if k < self.childs.len() {
            self.childs.set(k, child);
        } else {
            self.childs.push(child);
        }
    }

    /// Releases the start barrier: every entry in state `Created` moves to
    /// `Started`. Returns the process ids that are to receive the start
    /// signal, in registry order; an entry in any other state is left as it
    /// is and gets no signal.
    pub fn start_childs(&mut self) -> (r: Vec<i32>)
        requires
            old(self).wf(),
        ensures
            final(self).wf(),
            final(self).routers() == old(self).routers(),
            final(self).children().len() == old(self).children().len(),
            forall|i: int|
                0 <= i < old(self).children().len() ==> released(
                    #[trigger] old(self).children()[i],
                    final(self).children()[i],
                ),
            r@ == created_pids(old(self).children()),
    {
        let ghost before = self.childs@;
        let mut pids: Vec<i32> = Vec::new();
        let mut i: usize = 0;
        while i < self.childs.len()
            invariant
                0 <= i <= self.childs@.len(),
                self.childs@.len() == before.len(),
                self.managers == old(self).managers,
                before == old(self).childs@,
                pids_unique(before),
                forall|k: int| 0 <= k < i ==> released(#[trigger] before[k], self.childs@[k]),
                forall|k: int| i <= k < before.len() ==> #[trigger] self.childs@[k] == before[k],
                forall|k: int| 0 <= k < before.len() ==> #[trigger] self.childs@[k].pid == before[k].pid,
                pids@ == created_pids(before.take(i as int)),
            decreases before.len() - i,
        {
            assert(before.take(i as int + 1).drop_last() == before.take(i as int));
            let started = self.childs[i].start();
            if started.is_ok() {
                pids.push(self.childs[i].pid);
            }
            i = i + 1;
        }
        assert(before.take(before.len() as int) == before);
        assert(pids_unique(self.childs@)) by {
            assert forall|a: int, b: int| 0 <= a < b < self.childs@.len() implies self.childs@[a].pid
                != self.childs@[b].pid by {
                assert(self.childs@[a].pid == before[a].pid);
                assert(self.childs@[b].pid == before[b].pid);
            }
        }
        pids
    }

    /// The number of registered processes, which the wait loop waits for;
    /// with none, the wait ends at once.
    pub fn wait_entry(&self) -> (r: Result<usize, ManagerError>)
        ensures
            r == wait_outcome(self.children().len() as int),
    {
        if self.childs.len() == 0 {
            Err(ManagerError::ResultPending)
        } else {
            Ok(self.childs.len())
        }
    }

    /// One turn of the wait loop, with `running` processes still expected.
    ///
    /// An exit of a registered process updates its state and counts it;
    /// an exit of any other process, and an end by a signal, are passed
    /// over; any other notification, and a failure of the wait primitive,
    /// end the loop with an error. Once no process is left the loop ends
    /// with `ResultPending`.
    pub fn reap(&mut self, running: usize, event: WaitEvent) -> (r: Result<usize, ManagerError>)
        requires
            old(self).wf(),
            running > 0,
        ensures
            final(self).wf(),
            final(self).routers() == old(self).routers(),
            final(self).children().len() == old(self).children().len(),
            match event {
                WaitEvent::Exited { pid, status } => {
                    let k = pid_index(old(self).children(), pid);
                    if k < old(self).children().len() {
                        &&& r == wait_outcome(running - 1)
                        &&& reaped(old(self).children()[k], final(self).children()[k], status)
                        &&& forall|i: int|
                            0 <= i < old(self).children().len() && i != k
                                ==> #[trigger] final(self).children()[i] == old(self).children()[i]
                    } else {
                        r == Ok::<usize, ManagerError>(running) && final(self).children()
                            == old(self).children()
                    }
                },
                WaitEvent::Signaled { .. } => r == Ok::<usize, ManagerError>(running)
                    && final(self).children() == old(self).children(),
                WaitEvent::Other { pid } => r == Err::<usize, ManagerError>(
                    ManagerError::UnexpectedStatus { pid },
                ) && final(self).children() == old(self).children(),
                WaitEvent::Failed { errno } => r == Err::<usize, ManagerError>(
                    ManagerError::WaitFailed { errno },
                ) && final(self).children() == old(self).children(),
            },
    {
        match event {
            WaitEvent::Exited { pid, status } => {
                let k = self.find(pid);
                if k == self.childs.len() {
                    return Ok(running);
                }
                let ghost before = self.childs@;
                if status != 0 {
                    assert(0 <= status <= 255 ==> ((status as isize) << 4usize) >> 4usize == status as isize)
                        by (bit_vector);
                    let _ = self.childs[k].set_exit_state(status as isize);
                } else {
                    let _ = self.childs[k].set_state(ChildState::Stopped);
                }
                assert(pids_unique(self.childs@)) by {
                    assert forall|a: int, b: int| 0 <= a < b < self.childs@.len() implies self.childs@[a].pid
                        != self.childs@[b].pid by {
                        assert(self.childs@[a].pid == before[a].pid);
                        assert(self.childs@[b].pid == before[b].pid);
                    }
                }
                if running == 1 {
                    Err(ManagerError::ResultPending)
                } else {
                    Ok(running - 1)
                }
            },
            WaitEvent::Signaled { .. } => Ok(running),
            WaitEvent::Other { pid } => Err(ManagerError::UnexpectedStatus { pid }),
            WaitEvent::Failed { errno } => Err(ManagerError::WaitFailed { errno }),
        }
    }

    /// The entry registered under `pid`, borrowed from the registry.
    pub fn get_child(&self, pid: i32) -> (r: Option<&Child>)
        requires
            self.wf(),
        ensures
            pid_index(self.children(), pid) < self.children().len() ==> r == Some(
                &self.children()[pid_index(self.children(), pid)],
            ),
            pid_index(self.children(), pid) == self.children().len() ==> r is None,
    {
        let k = self.find(pid);
        if k < self.childs.len() {
            Some(&self.childs[k])
        } else {
            None
        }
    }

    /// The number of registered processes.
    pub fn child_count(&self) -> (r: usize)
        ensures
            r == self.children().len(),
    {
        self.childs.len()
    }

    /// The number of router containers created so far.
    pub fn router_count(&self) -> (r: isize)
        ensures
            r == self.routers(),
    {
        self.managers
    }
}

} // verus!
