use vstd::prelude::*;
use crate::ring_buffer::RingBuffer;

verus! {

/// Most software alarms that can be pending at once.
pub const MAX_ALARMS: usize = 100;

/// A deferred kernel-internal unit of work: the address of the routine to
/// run in normal kernel context, and whether it is on behalf of user code.
/// Not tied to any process.
#[derive(Clone, Copy, Debug, PartialEq, Eq, Structural)]
pub struct Task {
    pub f: usize,
    pub user: bool,
}

/// One pending software alarm: the task to post when it fires, and its
/// absolute deadline in hardware tick units.
#[derive(Clone, Copy, Debug, PartialEq, Eq, Structural)]
pub struct Alarm {
    pub task: Task,
    pub tics: u32,
}

/// Absolute deadline of a request for `tics` ticks from `now`, in the
/// hardware counter's wrapping 32-bit arithmetic.
pub open spec fn deadline_of(tics: u32, now: u32) -> u32 {
    if tics + now > u32::MAX {
        (tics + now - 0x1_0000_0000) as u32
    } else {
        (tics + now) as u32
    }
}

/// The software alarm multiplexer: lets arbitrarily many logical timers
/// share the one hardware comparator.
///
/// Pending alarms sit in a strict FIFO queue; the multiplexer is the only
/// writer of the comparator, modeled here by the deadline it is armed for
/// (`None` when disarmed). The platform glue mirrors that model into the
/// real timer registers.
///
/// Because the queue is FIFO rather than ordered by deadline, an alarm set
/// while others are pending does not re-arm the hardware even when its
/// deadline is earlier than the armed one; it only fires after the alarms
/// enqueued before it are serviced. That ordering gap is deliberate here:
/// the contracts and the tests pin it down rather than silently reorder.
pub struct AlarmMux {
    alarms: RingBuffer<Alarm>,
    armed: Option<u32>,
}

/// Binds the queue's backing storage and starts with the comparator
/// cleared and no alarm pending.
pub fn setup() -> (mux: AlarmMux)
    ensures
        mux.wf(),
        mux.alarms_spec() == Seq::<Alarm>::empty(),
        mux.armed_spec() is None,
{
    AlarmMux { alarms: RingBuffer::new(MAX_ALARMS), armed: None }
}

impl AlarmMux {
    pub closed spec fn wf(&self) -> bool {
        &&& self.alarms.wf()
        &&& self.alarms.capacity() == MAX_ALARMS
    }

    /// The pending alarms, oldest first.
    pub closed spec fn alarms_spec(&self) -> Seq<Alarm> {
        self.alarms@
    }

    /// The deadline the hardware comparator is armed for, or `None` when
    /// it is disarmed.
    pub closed spec fn armed_spec(&self) -> Option<u32> {
        self.armed
    }

    pub fn pending(&self) -> (r: usize)
        ensures
            r == self.alarms_spec().len(),
    {
        self.alarms.len()
    }

    pub fn hw_alarm(&self) -> (r: Option<u32>)
        ensures
            r == self.armed_spec(),
    {
        self.armed
    }

    /// Registers a wake-up `tics` ticks after `now` (the hardware
    /// counter's current value), owed to `task`.
    ///
    /// The request is appended to the FIFO queue; when it is the only
    /// pending alarm, the comparator is armed for its deadline. While
    /// earlier requests are pending the comparator is left as it is, even
    /// when the new deadline is sooner. A full queue rejects the request
    /// and changes nothing.
    pub fn set_alarm(&mut self, tics: u32, task: Task, now: u32) -> (ok: bool)
        requires
            old(self).wf(),
        ensures
            final(self).wf(),
            ok == (old(self).alarms_spec().len() < MAX_ALARMS),
            ok ==> final(self).alarms_spec() == old(self).alarms_spec().push(
                Alarm { task, tics: deadline_of(tics, now) },
            ),
            !ok ==> final(self).alarms_spec() == old(self).alarms_spec(),
            old(self).alarms_spec().len() == 0 ==> final(self).armed_spec() == Some(
                deadline_of(tics, now),
            ),
            old(self).alarms_spec().len() > 0 ==> final(self).armed_spec() == old(
                self,
            ).armed_spec(),
    {
        let deadline = tics.wrapping_add(now);
        let alarm = Alarm { task, tics: deadline };
        let ok = self.alarms.enqueue(alarm);
        if self.alarms.len() == 1 {
            self.armed = Some(deadline);
        }
        ok
    }

    /// What the hardware-fire interrupt handler does besides posting the
    /// kernel task that runs `handle_alarm`: it disables and clears the
    /// comparator, and nothing more — interrupt context does minimal,
    /// non-blocking work, and draining the queue is deferred to normal
    /// kernel context.
    pub fn ast_alarm_handler(&mut self)
        requires
            old(self).wf(),
        ensures
            final(self).wf(),
            final(self).alarms_spec() == old(self).alarms_spec(),
            final(self).armed_spec() is None,
    {
        self.armed = None;
    }

    /// Drains one due alarm, in normal kernel context: dequeues the head
    /// of the queue and returns its task for posting; then, if a next
    /// alarm is pending, re-arms the comparator for its deadline, and
    /// otherwise leaves the comparator as it is (disarmed, after a fire).
    pub fn handle_alarm(&mut self) -> (r: Option<Task>)
        requires
            old(self).wf(),
        ensures
            final(self).wf(),
            old(self).alarms_spec().len() == 0 ==> r is None && *final(self) == *old(self),
            old(self).alarms_spec().len() > 0 ==> {
                &&& r == Some(old(self).alarms_spec()[0].task)
                &&& final(self).alarms_spec() == old(self).alarms_spec().subrange(
                    1,
                    old(self).alarms_spec().len() as int,
                )
                &&& old(self).alarms_spec().len() > 1 ==> final(self).armed_spec() == Some(
                    old(self).alarms_spec()[1].tics,
                )
                &&& old(self).alarms_spec().len() == 1 ==> final(self).armed_spec() == old(
                    self,
                ).armed_spec()
            },
    {
        match self.alarms.dequeue() {
            None => None,
            Some(cur_alarm) => {
                match self.alarms.peek() {
                    None => {},
                    Some(alarm) => {
                        self.armed = Some(alarm.tics);
                    },
                }
                Some(cur_alarm.task)
            },
        }
    }
}

} // verus!
