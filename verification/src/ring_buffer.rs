use vstd::prelude::*;

verus! {

/// Fixed-capacity FIFO queue over preallocated storage.
///
/// A head index and a length describe the live region of the storage; the
/// enqueue position wraps from the end of the storage back to the start, so
/// FIFO order is kept across wraparound. The storage is allocated once, at
/// construction; capacity exhaustion is reported to the caller, never grown
/// over or panicked on, and dequeueing from an empty queue reports the
/// absence of an element without disturbing the state.
pub struct RingBuffer<T: Copy> {
    buf: Vec<Option<T>>,
    head: usize,
    len: usize,
}

impl<T: Copy> View for RingBuffer<T> {
    type V = Seq<T>;

    closed spec fn view(&self) -> Seq<T> {
        Seq::new(self.len as nat, |i: int| self.buf@[self.slot(i)].unwrap())
    }
}

impl<T: Copy> RingBuffer<T> {
    /// Number of elements the queue can hold at once.
    pub closed spec fn capacity(&self) -> nat {
        self.buf@.len()
    }

    /// Storage index holding the `i`-th element of the queue, counted from
    /// the next element to dequeue.
    spec fn slot(&self, i: int) -> int {
        if self.head + i < self.buf@.len() {
            self.head + i
        } else {
            self.head + i - self.buf@.len()
        }
    }

    pub closed spec fn wf(&self) -> bool {
        &&& self.len <= self.buf@.len()
        &&& self.head < self.buf@.len() || (self.head == 0 && self.buf@.len() == 0)
        &&& forall|i: int| 0 <= i < self.len ==> self.buf@[#[trigger] self.slot(i)] is Some
    }

    /// However `enqueue` and `dequeue` are interleaved, a well-formed
    /// queue never holds more elements than its capacity.
    pub proof fn lemma_capacity_bound(&self)
        requires
            self.wf(),
        ensures
            self@.len() <= self.capacity(),
    {
    }

    /// Allocates the backing storage once; the queue starts empty.
    pub fn new(capacity: usize) -> (r: Self)
        ensures
            r.wf(),
            r@ == Seq::<T>::empty(),
            r.capacity() == capacity,
    {
        let mut buf: Vec<Option<T>> = Vec::new();
        let mut i: usize = 0;
        while i < capacity
            invariant
                i <= capacity,
                buf@.len() == i,
            decreases capacity - i,
        {
            buf.push(None);
            i = i + 1;
        }
        let r = RingBuffer { buf, head: 0, len: 0 };
        proof {
            assert(r@ =~= Seq::<T>::empty());
        }
        r
    }

    pub fn len(&self) -> (r: usize)
        ensures
            r == self@.len(),
    {
        self.len
    }

    /// Appends `value` at the tail; reports `false` and leaves the queue
    /// unchanged when the capacity is already reached.
    pub fn enqueue(&mut self, value: T) -> (ok: bool)
        requires
            old(self).wf(),
        ensures
            final(self).wf(),
            final(self).capacity() == old(self).capacity(),
            ok == (old(self)@.len() < old(self).capacity()),
            ok ==> final(self)@ == old(self)@.push(value),
            !ok ==> final(self)@ == old(self)@,
    {
        if self.len == self.buf.len() {
            return false;
        }
        let cap = self.buf.len();
        let tail = if self.head >= cap - self.len {
            self.head - (cap - self.len)
        } else {
            self.head + self.len
        };
        self.buf[tail] = Some(value);
        self.len = self.len + 1;
        proof {
            assert(forall|i: int|
                0 <= i < old(self).len ==> old(self).slot(i) == #[trigger] self.slot(i));
            assert(self@ =~= old(self)@.push(value));
        }
        true
    }

    /// Removes and returns the oldest element, or reports that the queue is
    /// empty.
    pub fn dequeue(&mut self) -> (r: Option<T>)
        requires
            old(self).wf(),
        ensures
            final(self).wf(),
            final(self).capacity() == old(self).capacity(),
            old(self)@.len() == 0 ==> r is None && *final(self) == *old(self),
            old(self)@.len() > 0 ==> r == Some(old(self)@[0]) && final(self)@ == old(self)@.subrange(
                1,
                old(self)@.len() as int,
            ),
    {
        if self.len == 0 {
            return None;
        }
        let cap = self.buf.len();
        let value = self.buf[self.head];
        self.head = if self.head + 1 == cap {
            0
        } else {
            self.head + 1
        };
        self.len = self.len - 1;
        proof {
            assert(forall|i: int|
                0 <= i < self.len ==> old(self).slot(i + 1) == #[trigger] self.slot(i));
            assert(self@ =~= old(self)@.subrange(1, old(self)@.len() as int));
            assert(value == Some(old(self)@[0]));
        }
        value
    }

    /// Non-destructive look at the next element `dequeue` would return.
    pub fn peek(&self) -> (r: Option<T>)
        requires
            self.wf(),
        ensures
            self@.len() == 0 ==> r is None,
            self@.len() > 0 ==> r == Some(self@[0]),
    {
        if self.len == 0 {
            None
        } else {
            self.buf[self.head]
        }
    }
}

} // verus!
