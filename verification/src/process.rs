use vstd::prelude::*;
use crate::ring_buffer::RingBuffer;

verus! {

/// Capacity of each process's private callback queue.
pub const CALLBACK_QUEUE_SIZE: usize = 8;

/// Execution state of a process.
///
/// `Running` means the process is eligible to have its own suspended
/// execution context resumed; `Waiting` means it has yielded and is eligible
/// only to receive a posted callback.
#[derive(Clone, Copy, Debug, PartialEq, Eq, Structural)]
pub enum State {
    Running,
    Waiting,
}

/// A deferred driver-completion event destined for one process: the address
/// of the handler to enter, plus the single word of context a driver needs
/// to identify which pending request completed.
#[derive(Clone, Copy, Debug, PartialEq, Eq, Structural)]
pub struct Callback {
    pub fn_addr: usize,
    pub ctx: usize,
}

/// Why process creation was refused.
#[derive(Clone, Copy, Debug, PartialEq, Eq, Structural)]
pub enum CreateError {
    InvalidEntry,
}

/// One statically loaded application: its entry address, execution state,
/// register snapshot, private callback queue, and the marker recording the
/// most recent reason control returned to the kernel.
pub struct Process {
    entry: usize,
    state: State,
    r0: usize,
    r1: usize,
    r2: usize,
    r3: usize,
    callbacks: RingBuffer<Callback>,
    marker: Option<u8>,
}

/// A process as `create` hands it out: ready to run from `entry` for the
/// first time, with cleared registers, no pending trap and an empty queue.
pub open spec fn fresh_process(p: Process, entry: usize) -> bool {
    &&& p.wf()
    &&& p.entry_spec() == entry
    &&& p.state_spec() == State::Running
    &&& p.callbacks_spec() == Seq::<Callback>::empty()
    &&& p.marker_spec() is None
    &&& p.r0_spec() == 0
    &&& p.r1_spec() == 0
    &&& p.r2_spec() == 0
    &&& p.r3_spec() == 0
}

/// The two processes agree on everything but the scheduling state and the
/// trap marker.
pub open spec fn same_but_state_and_marker(a: Process, b: Process) -> bool {
    &&& a.entry_spec() == b.entry_spec()
    &&& a.callbacks_spec() == b.callbacks_spec()
    &&& a.r0_spec() == b.r0_spec()
    &&& a.r1_spec() == b.r1_spec()
    &&& a.r2_spec() == b.r2_spec()
    &&& a.r3_spec() == b.r3_spec()
}

/// The two processes agree on everything but the syscall result slot `r0`.
pub open spec fn same_but_r0(a: Process, b: Process) -> bool {
    &&& a.entry_spec() == b.entry_spec()
    &&& a.state_spec() == b.state_spec()
    &&& a.callbacks_spec() == b.callbacks_spec()
    &&& a.r1_spec() == b.r1_spec()
    &&& a.r2_spec() == b.r2_spec()
    &&& a.r3_spec() == b.r3_spec()
    &&& a.marker_spec() == b.marker_spec()
}

/// The two processes agree on everything but the scheduling state and the
/// callback queue.
pub open spec fn same_but_state_and_queue(a: Process, b: Process) -> bool {
    &&& a.entry_spec() == b.entry_spec()
    &&& a.r0_spec() == b.r0_spec()
    &&& a.r1_spec() == b.r1_spec()
    &&& a.r2_spec() == b.r2_spec()
    &&& a.r3_spec() == b.r3_spec()
    &&& a.marker_spec() == b.marker_spec()
}

impl Process {
    pub closed spec fn wf(&self) -> bool {
        &&& self.callbacks.wf()
        &&& self.callbacks.capacity() == CALLBACK_QUEUE_SIZE
        &&& self.entry != 0
    }

    /// Immutable address of the first instruction the process executes.
    pub closed spec fn entry_spec(&self) -> usize {
        self.entry
    }

    pub closed spec fn state_spec(&self) -> State {
        self.state
    }

    pub closed spec fn r0_spec(&self) -> usize {
        self.r0
    }

    pub closed spec fn r1_spec(&self) -> usize {
        self.r1
    }

    pub closed spec fn r2_spec(&self) -> usize {
        self.r2
    }

    pub closed spec fn r3_spec(&self) -> usize {
        self.r3
    }

    /// The pending completion events, oldest first.
    pub closed spec fn callbacks_spec(&self) -> Seq<Callback> {
        self.callbacks@
    }

    /// The most recent trap reason, or `None` once the kernel has acted on
    /// it.
    pub closed spec fn marker_spec(&self) -> Option<u8> {
        self.marker
    }

    /// Validates the entry address and allocates the process's private
    /// queue storage. A null entry address is refused; such a process is
    /// never added to the process table.
    pub fn create(entry: usize) -> (r: Result<Process, CreateError>)
        ensures
            entry != 0 ==> (r matches Ok(p) && fresh_process(p, entry)),
            entry == 0 ==> (r matches Err(e) && e == CreateError::InvalidEntry),
    {
        if entry == 0 {
            Err(CreateError::InvalidEntry)
        } else {
            Ok(
                Process {
                    entry,
                    state: State::Running,
                    r0: 0,
                    r1: 0,
                    r2: 0,
                    r3: 0,
                    callbacks: RingBuffer::new(CALLBACK_QUEUE_SIZE),
                    marker: None,
                },
            )
        }
    }

    /// The entry address the process was created from.
    pub fn entry(&self) -> (r: usize)
        ensures
            r == self.entry_spec(),
    {
        self.entry
    }

    pub fn state(&self) -> (r: State)
        ensures
            r == self.state_spec(),
    {
        self.state
    }

    /// Moves the process between `Running` and `Waiting`; only the
    /// scheduler loop does this.
    pub fn set_state(&mut self, state: State)
        ensures
            final(self).state_spec() == state,
            final(self).marker_spec() == old(self).marker_spec(),
            same_but_state_and_marker(*final(self), *old(self)),
            final(self).wf() == old(self).wf(),
    {
        self.state = state;
    }

    /// First syscall argument; doubles as the driver index of a Subscribe
    /// or Command trap, and receives the syscall's result.
    pub fn r0(&self) -> (r: usize)
        ensures
            r == self.r0_spec(),
    {
        self.r0
    }

    pub fn r1(&self) -> (r: usize)
        ensures
            r == self.r1_spec(),
    {
        self.r1
    }

    pub fn r2(&self) -> (r: usize)
        ensures
            r == self.r2_spec(),
    {
        self.r2
    }

    /// Writes the syscall's result back into the process's `r0` slot.
    pub fn set_r0(&mut self, value: usize)
        ensures
            final(self).r0_spec() == value,
            same_but_r0(*final(self), *old(self)),
            final(self).wf() == old(self).wf(),
    {
        self.r0 = value;
    }

    /// The marker recording why control last returned to the kernel.
    pub fn svc_number(&self) -> (r: Option<u8>)
        ensures
            r == self.marker_spec(),
    {
        self.marker
    }

    /// Clears the just-observed trap reason once the kernel has acted on
    /// it, so the same trap is not re-processed on the next pass.
    pub fn pop_syscall_marker(&mut self)
        ensures
            final(self).marker_spec() is None,
            final(self).state_spec() == old(self).state_spec(),
            same_but_state_and_marker(*final(self), *old(self)),
            final(self).wf() == old(self).wf(),
    {
        self.marker = None;
    }

    /// Stores the outcome of one transfer of control into the process: the
    /// captured register snapshot and the trap reason, if one was made.
    /// The context-switch glue calls this when the process traps back.
    pub fn record_trap(&mut self, svc: Option<u8>, r0: usize, r1: usize, r2: usize, r3: usize)
        ensures
            final(self).marker_spec() == svc,
            final(self).r0_spec() == r0,
            final(self).r1_spec() == r1,
            final(self).r2_spec() == r2,
            final(self).r3_spec() == r3,
            final(self).entry_spec() == old(self).entry_spec(),
            final(self).state_spec() == old(self).state_spec(),
            final(self).callbacks_spec() == old(self).callbacks_spec(),
            final(self).wf() == old(self).wf(),
    {
        self.marker = svc;
        self.r0 = r0;
        self.r1 = r1;
        self.r2 = r2;
        self.r3 = r3;
    }

    /// Posts a completion event into this process's private queue; drivers
    /// call this, possibly from interrupt context. Reports `false` when the
    /// queue is full; the event is then dropped.
    pub fn enqueue_callback(&mut self, cb: Callback) -> (ok: bool)
        requires
            old(self).wf(),
        ensures
            final(self).wf(),
            ok == (old(self).callbacks_spec().len() < CALLBACK_QUEUE_SIZE),
            ok ==> final(self).callbacks_spec() == old(self).callbacks_spec().push(cb),
            !ok ==> final(self).callbacks_spec() == old(self).callbacks_spec(),
            final(self).state_spec() == old(self).state_spec(),
            same_but_state_and_queue(*final(self), *old(self)),
    {
        self.callbacks.enqueue(cb)
    }

    /// Takes the oldest pending completion event, if any.
    pub fn dequeue_callback(&mut self) -> (r: Option<Callback>)
        requires
            old(self).wf(),
        ensures
            final(self).wf(),
            old(self).callbacks_spec().len() == 0 ==> r is None && *final(self) == *old(self),
            old(self).callbacks_spec().len() > 0 ==> r == Some(old(self).callbacks_spec()[0])
                && final(self).callbacks_spec() == old(self).callbacks_spec().subrange(
                1,
                old(self).callbacks_spec().len() as int,
            ),
            final(self).state_spec() == old(self).state_spec(),
            same_but_state_and_queue(*final(self), *old(self)),
    {
        self.callbacks.dequeue()
    }

    /// Number of pending completion events.
    pub fn callbacks_len(&self) -> (r: usize)
        ensures
            r == self.callbacks_spec().len(),
    {
        self.callbacks.len()
    }
}

} // verus!
