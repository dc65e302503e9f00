use vstd::prelude::*;
use crate::array_list::{circular_visit, ArrayList};
use crate::process::{
    same_but_r0, same_but_state_and_marker, same_but_state_and_queue, Callback, Process, State,
};

verus! {

/// Syscall number of the Wait trap: yield until a callback arrives.
pub const WAIT: u8 = 0;

/// Syscall number of the Subscribe trap: pass a driver-specific subscribe
/// request.
pub const SUBSCRIBE: u8 = 1;

/// Syscall number of the Command trap: issue a driver-specific command.
pub const COMMAND: u8 = 2;

/// Result written into a process's `r0` when its syscall named a driver
/// index with no bound entry; the syscall becomes a no-op with an error
/// result, never a kernel fault.
pub const DRIVER_ERROR: usize = usize::MAX;

/// Which dispatch table a syscall routes through.
#[derive(Clone, Copy, Debug, PartialEq, Eq, Structural)]
pub enum SyscallKind {
    Subscribe,
    Command,
}

/// How the scheduler wants the chosen process entered: by resuming its own
/// suspended context, or through its handler for a completed driver event.
#[derive(Clone, Copy, Debug, PartialEq, Eq)]
pub struct ResumeDecision {
    /// Slot of the chosen process in the process table.
    pub index: usize,
    /// `None`: resume the process's own context (it was `Running`).
    /// `Some(cb)`: enter the handler for `cb` (it was `Waiting` with a
    /// pending callback, and is `Running` again now).
    pub callback: Option<Callback>,
}

/// What the kernel asks its surroundings to do after inspecting a trap.
#[derive(Clone, Copy, Debug, PartialEq, Eq, Structural)]
pub enum SyscallAction {
    /// The process waits; the scheduler moved on to the next slot.
    Yielded,
    /// Invoke the driver bound at the named dispatch-table slot with the
    /// process's two payload words, and hand the result back through
    /// `complete_syscall`.
    Invoke { kind: SyscallKind, driver: usize, arg1: usize, arg2: usize },
    /// The trap named a driver index outside the table; `DRIVER_ERROR` has
    /// been written to the process's `r0` and nothing else happened.
    BadIndex,
    /// No recognized trap reason: the process simply keeps the core.
    Continue,
}

/// A process the scheduler passes over without executing it: it has
/// yielded and nothing has been posted for it.
pub open spec fn skippable(p: Process) -> bool {
    p.state_spec() == State::Waiting && p.callbacks_spec().len() == 0
}

/// The first `steps` positions of the circular walk beginning at `start`
/// all land on processes the scheduler may pass over.
pub open spec fn skipped_prefix(procs: Seq<Process>, start: nat, steps: nat) -> bool {
    forall|t: nat|
        t < steps ==> skippable(procs[(#[trigger] circular_visit(start, procs.len(), t)) as int])
}

/// The scheduler / syscall dispatcher: owns the process table, the cursor
/// of the round-robin walk, and the two dispatch tables that map a small
/// driver index to a driver entry point (represented by the word the
/// surrounding platform glue resolves to the driver).
///
/// Scheduling is strictly cooperative: a process keeps the core until it
/// makes one of the three recognized traps.
pub struct Kernel {
    procs: ArrayList<Process>,
    cursor: usize,
    subscribe_drivers: Vec<usize>,
    cmd_drivers: Vec<usize>,
}

impl Kernel {
    /// The process table.
    pub closed spec fn procs_spec(&self) -> Seq<Process> {
        self.procs@
    }

    /// Slot of the process currently favored by the round-robin walk.
    pub closed spec fn cursor_spec(&self) -> usize {
        self.cursor
    }

    /// The Subscribe dispatch table.
    pub closed spec fn subscribe_table(&self) -> Seq<usize> {
        self.subscribe_drivers@
    }

    /// The Command dispatch table.
    pub closed spec fn cmd_table(&self) -> Seq<usize> {
        self.cmd_drivers@
    }

    pub open spec fn wf(&self) -> bool {
        &&& self.procs_spec().len() > 0
        &&& self.cursor_spec() < self.procs_spec().len()
        &&& forall|i: int|
            0 <= i < self.procs_spec().len() ==> (#[trigger] self.procs_spec()[i]).wf()
    }

    /// The dispatch tables and the table length are as before the call.
    pub open spec fn same_frame(&self, other: &Kernel) -> bool {
        &&& self.procs_spec().len() == other.procs_spec().len()
        &&& self.subscribe_table() == other.subscribe_table()
        &&& self.cmd_table() == other.cmd_table()
    }

    /// Boots the kernel over an already-loaded process table. At least one
    /// application must have loaded; a boot without any valid application
    /// is the one unrecoverable, kernel-fatal condition and is refused by
    /// the caller before this point.
    pub fn new(
        procs: ArrayList<Process>,
        subscribe_drivers: Vec<usize>,
        cmd_drivers: Vec<usize>,
    ) -> (k: Kernel)
        requires
            procs.wf(),
            procs@.len() > 0,
            forall|i: int| 0 <= i < procs@.len() ==> (#[trigger] procs@[i]).wf(),
        ensures
            k.wf(),
            k.procs_spec() == procs@,
            k.cursor_spec() == 0,
            k.subscribe_table() == subscribe_drivers@,
            k.cmd_table() == cmd_drivers@,
    {
        Kernel { procs, cursor: 0, subscribe_drivers, cmd_drivers }
    }

    pub fn len(&self) -> (r: usize)
        ensures
            r == self.procs_spec().len(),
    {
        self.procs.len()
    }

    pub fn cursor(&self) -> (r: usize)
        ensures
            r == self.cursor_spec(),
    {
        self.cursor
    }

    /// Read access to one process, for the context-switch glue and tests.
    pub fn process(&self, index: usize) -> (r: &Process)
        requires
            index < self.procs_spec().len(),
        ensures
            *r == self.procs_spec()[index as int],
    {
        self.procs.get(index)
    }

    /// One selection pass of the scheduler: starting at the cursor, walk
    /// the table circularly and pick the first process that may execute.
    ///
    /// A `Running` process is entered by resuming its own context. A
    /// `Waiting` process with a pending callback is set `Running` and
    /// entered through that callback's handler. A `Waiting` process with
    /// an empty queue is skipped without being executed — never resumed.
    /// When every process is waiting with an empty queue, no execution
    /// occurs at all and the pass reports `None`.
    pub fn select_next(&mut self) -> (r: Option<ResumeDecision>)
        requires
            old(self).wf(),
        ensures
            final(self).wf(),
            final(self).same_frame(old(self)),
            r is None ==> final(self).procs_spec() == old(self).procs_spec()
                && final(self).cursor_spec() == old(self).cursor_spec() && forall|i: int|
                0 <= i < old(self).procs_spec().len() ==> skippable(
                    #[trigger] old(self).procs_spec()[i],
                ),
            r matches Some(d) ==> {
                let n = old(self).procs_spec().len();
                let chosen = old(self).procs_spec()[d.index as int];
                &&& d.index < n
                &&& final(self).cursor_spec() == d.index
                &&& (d.callback is None ==> chosen.state_spec() == State::Running && final(self).procs_spec() == old(self).procs_spec())
                &&& (d.callback matches Some(cb) ==> {
                    let after = final(self).procs_spec()[d.index as int];
                    &&& chosen.state_spec() == State::Waiting
                    &&& chosen.callbacks_spec().len() > 0
                    &&& cb == chosen.callbacks_spec()[0]
                    &&& after.state_spec() == State::Running
                    &&& after.callbacks_spec() == chosen.callbacks_spec().subrange(
                        1,
                        chosen.callbacks_spec().len() as int,
                    )
                    &&& same_but_state_and_queue(after, chosen)
                    &&& forall|i: int|
                        0 <= i < n && i != d.index ==> final(self).procs_spec()[i] == old(self).procs_spec()[i]
                })
                &&& exists|steps: nat|
                    steps < n && d.index == circular_visit(
                        old(self).cursor_spec() as nat,
                        n,
                        steps,
                    ) && #[trigger] skipped_prefix(
                        old(self).procs_spec(),
                        old(self).cursor_spec() as nat,
                        steps,
                    )
            },
    {
        let n = self.procs.len();
        let ghost start = old(self).cursor_spec() as nat;
        let mut k: usize = 0;
        let mut i: usize = self.cursor;
        proof {
            crate::array_list::lemma_visit_start(start, n as nat);
        }
        while k < n
            invariant
                old(self).wf(),
                self.procs@ == old(self).procs_spec(),
                self.cursor == old(self).cursor_spec(),
                self.subscribe_drivers@ == old(self).subscribe_table(),
                self.cmd_drivers@ == old(self).cmd_table(),
                n == self.procs@.len(),
                start == old(self).cursor_spec() as nat,
                k <= n,
                i < n,
                i == circular_visit(start, n as nat, k as nat),
                skipped_prefix(old(self).procs_spec(), start, k as nat),
            decreases n - k,
        {
            let state = self.procs.get(i).state();
            match state {
                State::Running => {
                    self.cursor = i;
                    proof {
                        assert(exists|steps: nat|
                            steps < n && i == circular_visit(start, n as nat, steps)
                                && #[trigger] skipped_prefix(
                                old(self).procs_spec(),
                                start,
                                steps,
                            )) by {
                            assert(k < n && i == circular_visit(start, n as nat, k as nat)
                                && skipped_prefix(old(self).procs_spec(), start, k as nat));
                        }
                    }
                    return Some(ResumeDecision { index: i, callback: None });
                },
                State::Waiting => {
                    let slot = self.procs.get_mut(i);
                    let taken = slot.dequeue_callback();
                    match taken {
                        Some(cb) => {
                            let chosen = self.procs.get_mut(i);
                            chosen.set_state(State::Running);
                            self.cursor = i;
                            proof {
                                assert(exists|steps: nat|
                                    steps < n && i == circular_visit(start, n as nat, steps)
                                        && #[trigger] skipped_prefix(
                                        old(self).procs_spec(),
                                        start,
                                        steps,
                                    )) by {
                                    assert(k < n && i == circular_visit(start, n as nat, k as nat)
                                        && skipped_prefix(old(self).procs_spec(), start, k as nat));
                                }
                            }
                            return Some(ResumeDecision { index: i, callback: Some(cb) });
                        },
                        None => {
                            proof {
                                assert(self.procs@ =~= old(self).procs_spec());
                                assert(skippable(
                                    old(self).procs_spec()[circular_visit(
                                        start,
                                        n as nat,
                                        k as nat,
                                    ) as int],
                                ));
                            }
                        },
                    }
                },
            }
            proof {
                crate::array_list::lemma_visit_step(start, n as nat, k as nat);
            }
            k = k + 1;
            i = if i + 1 == n {
                0
            } else {
                i + 1
            };
        }
        proof {
            assert forall|j: int| 0 <= j < n implies skippable(
                #[trigger] old(self).procs_spec()[j],
            ) by {
                crate::array_list::lemma_first_visit(start, n as nat, j as nat);
                assert(circular_visit(start, n as nat, crate::array_list::first_visit(
                    start,
                    n as nat,
                    j as nat,
                )) == j as nat);
            }
        }
        None
    }

    /// Stores the outcome of the transfer of control into the process at
    /// the cursor: the captured register snapshot, and the trap reason if
    /// the process made a syscall. The context-switch glue calls this when
    /// control comes back to the kernel loop.
    pub fn record_trap(&mut self, svc: Option<u8>, r0: usize, r1: usize, r2: usize, r3: usize)
        requires
            old(self).wf(),
        ensures
            final(self).wf(),
            final(self).same_frame(old(self)),
            final(self).cursor_spec() == old(self).cursor_spec(),
            ({
                let cur = old(self).cursor_spec() as int;
                let p = final(self).procs_spec()[cur];
                &&& p.marker_spec() == svc
                &&& p.r0_spec() == r0
                &&& p.r1_spec() == r1
                &&& p.r2_spec() == r2
                &&& p.r3_spec() == r3
                &&& p.state_spec() == old(self).procs_spec()[cur].state_spec()
                &&& p.callbacks_spec() == old(self).procs_spec()[cur].callbacks_spec()
                &&& p.entry_spec() == old(self).procs_spec()[cur].entry_spec()
                &&& forall|i: int|
                    0 <= i < old(self).procs_spec().len() && i != cur ==> final(self).procs_spec()[i] == old(self).procs_spec()[i]
            }),
    {
        let cur = self.cursor;
        let p = self.procs.get_mut(cur);
        p.record_trap(svc, r0, r1, r2, r3);
    }

    /// Inspects the trap reason of the process at the cursor and acts on
    /// it.
    ///
    /// Wait parks the process and moves the cursor on. Subscribe and
    /// Command route through the dispatch table of their kind: the driver
    /// registered at index `r0` is named in the returned action, and the
    /// process keeps the cursor, so it keeps running on the next pass
    /// unless it has itself entered Waiting. An index outside the table
    /// writes `DRIVER_ERROR` into `r0` and nothing else. Anything else
    /// leaves the kernel untouched.
    pub fn handle_trap(&mut self) -> (r: SyscallAction)
        requires
            old(self).wf(),
        ensures
            final(self).wf(),
            final(self).same_frame(old(self)),
            ({
                let n = old(self).procs_spec().len();
                let cur = old(self).cursor_spec() as int;
                let p = old(self).procs_spec()[cur];
                let after = final(self).procs_spec()[cur];
                let others_same = forall|i: int|
                    0 <= i < n && i != cur ==> final(self).procs_spec()[i] == old(self).procs_spec()[i];
                &&& (p.marker_spec() == Some(WAIT) ==> {
                    &&& r == SyscallAction::Yielded
                    &&& after.state_spec() == State::Waiting
                    &&& after.marker_spec() is None
                    &&& same_but_state_and_marker(after, p)
                    &&& others_same
                    &&& final(self).cursor_spec() == (if cur + 1 == n {
                        0int
                    } else {
                        cur + 1
                    })
                })
                &&& (p.marker_spec() == Some(SUBSCRIBE) ==> (if p.r0_spec() < old(self).subscribe_table().len() {
                    &&& r == (SyscallAction::Invoke {
                        kind: SyscallKind::Subscribe,
                        driver: old(self).subscribe_table()[p.r0_spec() as int],
                        arg1: p.r1_spec(),
                        arg2: p.r2_spec(),
                    })
                    &&& final(self).procs_spec() == old(self).procs_spec()
                    &&& final(self).cursor_spec() == cur
                } else {
                    &&& r == SyscallAction::BadIndex
                    &&& after.r0_spec() == DRIVER_ERROR
                    &&& same_but_r0(after, p)
                    &&& others_same
                    &&& final(self).cursor_spec() == cur
                }))
                &&& (p.marker_spec() == Some(COMMAND) ==> (if p.r0_spec() < old(self).cmd_table().len() {
                    &&& r == (SyscallAction::Invoke {
                        kind: SyscallKind::Command,
                        driver: old(self).cmd_table()[p.r0_spec() as int],
                        arg1: p.r1_spec(),
                        arg2: p.r2_spec(),
                    })
                    &&& final(self).procs_spec() == old(self).procs_spec()
                    &&& final(self).cursor_spec() == cur
                } else {
                    &&& r == SyscallAction::BadIndex
                    &&& after.r0_spec() == DRIVER_ERROR
                    &&& same_but_r0(after, p)
                    &&& others_same
                    &&& final(self).cursor_spec() == cur
                }))
                &&& ((p.marker_spec() is None || (p.marker_spec() matches Some(m) && m != WAIT
                    && m != SUBSCRIBE && m != COMMAND)) ==> {
                    &&& r == SyscallAction::Continue
                    &&& final(self).procs_spec() == old(self).procs_spec()
                    &&& final(self).cursor_spec() == cur
                })
            }),
    {
        let n = self.procs.len();
        let cur = self.cursor;
        let svc = self.procs.get(cur).svc_number();
        match svc {
            Some(num) => {
                if num == WAIT {
                    let p = self.procs.get_mut(cur);
                    p.set_state(State::Waiting);
                    p.pop_syscall_marker();
                    self.cursor = if cur + 1 == n {
                        0
                    } else {
                        cur + 1
                    };
                    SyscallAction::Yielded
                } else if num == SUBSCRIBE {
                    let index = self.procs.get(cur).r0();
                    if index < self.subscribe_drivers.len() {
                        let driver = self.subscribe_drivers[index];
                        let arg1 = self.procs.get(cur).r1();
                        let arg2 = self.procs.get(cur).r2();
                        proof {
                            assert(self.procs@ =~= old(self).procs_spec());
                        }
                        SyscallAction::Invoke { kind: SyscallKind::Subscribe, driver, arg1, arg2 }
                    } else {
                        let p = self.procs.get_mut(cur);
                        p.set_r0(DRIVER_ERROR);
                        SyscallAction::BadIndex
                    }
                } else if num == COMMAND {
                    let index = self.procs.get(cur).r0();
                    if index < self.cmd_drivers.len() {
                        let driver = self.cmd_drivers[index];
                        let arg1 = self.procs.get(cur).r1();
                        let arg2 = self.procs.get(cur).r2();
                        proof {
                            assert(self.procs@ =~= old(self).procs_spec());
                        }
                        SyscallAction::Invoke { kind: SyscallKind::Command, driver, arg1, arg2 }
                    } else {
                        let p = self.procs.get_mut(cur);
                        p.set_r0(DRIVER_ERROR);
                        SyscallAction::BadIndex
                    }
                } else {
                    SyscallAction::Continue
                }
            },
            None => SyscallAction::Continue,
        }
    }

    /// Writes a driver's result into the calling process's `r0`, where the
    /// process sees it when it resumes.
    pub fn complete_syscall(&mut self, result: usize)
        requires
            old(self).wf(),
        ensures
            final(self).wf(),
            final(self).same_frame(old(self)),
            final(self).cursor_spec() == old(self).cursor_spec(),
            ({
                let cur = old(self).cursor_spec() as int;
                &&& final(self).procs_spec()[cur].r0_spec() == result
                &&& same_but_r0(final(self).procs_spec()[cur], old(self).procs_spec()[cur])
                &&& forall|i: int|
                    0 <= i < old(self).procs_spec().len() && i != cur ==> final(self).procs_spec()[i] == old(self).procs_spec()[i]
            }),
    {
        let cur = self.cursor;
        let p = self.procs.get_mut(cur);
        p.set_r0(result);
    }

    /// Posts a driver-completion event into the queue of the process at
    /// `index`; reports `false` and drops the event when that queue is
    /// full.
    pub fn post_callback(&mut self, index: usize, cb: Callback) -> (ok: bool)
        requires
            old(self).wf(),
            index < old(self).procs_spec().len(),
        ensures
            final(self).wf(),
            final(self).same_frame(old(self)),
            final(self).cursor_spec() == old(self).cursor_spec(),
            ({
                let p = old(self).procs_spec()[index as int];
                let after = final(self).procs_spec()[index as int];
                &&& ok == (p.callbacks_spec().len() < crate::process::CALLBACK_QUEUE_SIZE)
                &&& (ok ==> after.callbacks_spec() == p.callbacks_spec().push(cb))
                &&& (!ok ==> after.callbacks_spec() == p.callbacks_spec())
                &&& after.state_spec() == p.state_spec()
                &&& same_but_state_and_queue(after, p)
                &&& forall|i: int|
                    0 <= i < old(self).procs_spec().len() && i != index ==> final(self).procs_spec()[i] == old(self).procs_spec()[i]
            }),
    {
        let p = self.procs.get_mut(index);
        p.enqueue_callback(cb)
    }
}

} // verus!
