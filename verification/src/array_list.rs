use vstd::prelude::*;
use vstd::arithmetic::div_mod::{
    lemma_fundamental_div_mod, lemma_fundamental_div_mod_converse, lemma_mod_bound,
    lemma_small_mod,
};

verus! {

/// Fixed-capacity list: an arena whose storage bound is chosen once.
///
/// The scheduler keeps the boot-time process table in one of these and walks
/// it with a [`CircularIter`], which wraps from the last element back to the
/// first forever, so the walk never runs out of elements to consider.
pub struct ArrayList<T> {
    items: Vec<T>,
    cap: usize,
}

impl<T> View for ArrayList<T> {
    type V = Seq<T>;

    closed spec fn view(&self) -> Seq<T> {
        self.items@
    }
}

impl<T> ArrayList<T> {
    pub closed spec fn capacity(&self) -> nat {
        self.cap as nat
    }

    pub open spec fn wf(&self) -> bool {
        self@.len() <= self.capacity()
    }

    pub fn new(capacity: usize) -> (r: Self)
        ensures
            r.wf(),
            r@ == Seq::<T>::empty(),
            r.capacity() == capacity,
    {
        ArrayList { items: Vec::new(), cap: capacity }
    }

    /// Appends `value`; reports `false` and leaves the list unchanged when
    /// the list is already full.
    pub fn add(&mut self, value: T) -> (ok: bool)
        requires
            old(self).wf(),
        ensures
            final(self).wf(),
            final(self).capacity() == old(self).capacity(),
            ok == (old(self)@.len() < old(self).capacity()),
            ok ==> final(self)@ == old(self)@.push(value),
            !ok ==> final(self)@ == old(self)@,
    {
        if self.items.len() < self.cap {
            self.items.push(value);
            true
        } else {
            false
        }
    }

    pub fn len(&self) -> (r: usize)
        ensures
            r == self@.len(),
    {
        self.items.len()
    }

    pub fn get(&self, index: usize) -> (r: &T)
        requires
            index < self@.len(),
        ensures
            *r == self@[index as int],
    {
        &self.items[index]
    }

    /// Mutable access to one slot; the rest of the list is untouched.
    pub fn get_mut(&mut self, index: usize) -> (r: &mut T)
        requires
            index < old(self)@.len(),
        ensures
            *r == old(self)@[index as int],
            final(self)@ == old(self)@.update(index as int, *final(r)),
            final(self).capacity() == old(self).capacity(),
            final(self).wf() == old(self).wf(),
    {
        &mut self.items[index]
    }

    /// An infinite, restartable walk over the current elements, by index:
    /// positions come out in order and wrap from the last back to the first.
    pub fn circular_iterator(&self) -> (it: CircularIter)
        requires
            self@.len() > 0,
        ensures
            it.wf(),
            it.list_len() == self@.len(),
            it.start() == 0,
            it.steps() == 0,
    {
        let n = self.len();
        proof {
            lemma_small_mod(0, n as nat);
        }
        CircularIter { pos: 0, n, start: Ghost(0), steps: Ghost(0) }
    }
}

/// Position of the `k`-th visit of a circular walk that begins at `start`
/// over `n` slots.
pub open spec fn circular_visit(start: nat, n: nat, k: nat) -> nat
    recommends
        n > 0,
{
    (((start + k) as int) % (n as int)) as nat
}

/// The first step index at which a circular walk beginning at `start` over
/// `n` slots reaches position `j`.
pub open spec fn first_visit(start: nat, n: nat, j: nat) -> nat
    recommends
        start < n,
        j < n,
{
    if j >= start {
        (j - start) as nat
    } else {
        (j + n - start) as nat
    }
}

/// Cursor of the infinite circular walk over a fixed number of slots.
pub struct CircularIter {
    pos: usize,
    n: usize,
    start: Ghost<nat>,
    steps: Ghost<nat>,
}

impl CircularIter {
    /// Number of slots being walked.
    pub closed spec fn list_len(&self) -> nat {
        self.n as nat
    }

    /// Position the walk began at.
    pub closed spec fn start(&self) -> nat {
        self.start@
    }

    /// Number of positions handed out so far.
    pub closed spec fn steps(&self) -> nat {
        self.steps@
    }

    pub closed spec fn wf(&self) -> bool {
        &&& self.n > 0
        &&& self.start@ < self.n
        &&& self.pos == circular_visit(self.start@, self.n as nat, self.steps@)
    }

    /// Hands out the next position. There is no bound on how often this can
    /// be called: the walk never terminates.
    pub fn next(&mut self) -> (i: usize)
        requires
            old(self).wf(),
        ensures
            final(self).wf(),
            final(self).list_len() == old(self).list_len(),
            final(self).start() == old(self).start(),
            final(self).steps() == old(self).steps() + 1,
            i == circular_visit(old(self).start(), old(self).list_len(), old(self).steps()),
            i < old(self).list_len(),
    {
        proof {
            lemma_mod_bound((self.start@ + self.steps@) as int, self.n as int);
        }
        let current = self.pos;
        self.pos = if self.pos + 1 == self.n {
            0
        } else {
            self.pos + 1
        };
        proof {
            lemma_mod_step((old(self).start@ + old(self).steps@) as int, self.n as int);
            self.steps@ = self.steps@ + 1;
        }
        current
    }
}

/// Incrementing the dividend steps the remainder forward by one, wrapping to
/// zero at the divisor.
proof fn lemma_mod_step(x: int, n: int)
    requires
        n > 0,
        x >= 0,
    ensures
        (x + 1) % n == if x % n + 1 == n {
            0int
        } else {
            x % n + 1
        },
{
    lemma_fundamental_div_mod(x, n);
    lemma_mod_bound(x, n);
    if x % n + 1 == n {
        assert((x / n + 1) * n == n * (x / n) + n) by (nonlinear_arith);
        lemma_fundamental_div_mod_converse(x + 1, n, x / n + 1, 0);
    } else {
        lemma_fundamental_div_mod_converse(x + 1, n, x / n, x % n + 1);
    }
}

/// Over any `2 * n` consecutive steps from its start, the circular walk
/// visits every position `j` exactly twice: at its first visit and exactly
/// one lap later, and at no other step.
pub proof fn lemma_circular_visits_each_twice(start: nat, n: nat, j: nat)
    requires
        start < n,
        j < n,
    ensures
        first_visit(start, n, j) < n,
        forall|k: nat|
            k < 2 * n ==> ((#[trigger] circular_visit(start, n, k) == j) <==> (k == first_visit(
                start,
                n,
                j,
            ) || k == first_visit(start, n, j) + n)),
{
    let f = first_visit(start, n, j);
    assert forall|k: nat| k < 2 * n implies ((#[trigger] circular_visit(start, n, k) == j) <==> (
    k == f || k == f + n)) by {
        let x = (start + k) as int;
        let ni = n as int;
        if x < ni {
            lemma_small_mod((start + k) as nat, n);
        } else if x < 2 * ni {
            lemma_fundamental_div_mod_converse(x, ni, 1, x - ni);
        } else {
            lemma_fundamental_div_mod_converse(x, ni, 2, x - 2 * ni);
        }
    }
}

/// Every position `j` is reached within the walk's first lap, at step
/// `first_visit`.
pub proof fn lemma_first_visit(start: nat, n: nat, j: nat)
    requires
        start < n,
        j < n,
    ensures
        first_visit(start, n, j) < n,
        circular_visit(start, n, first_visit(start, n, j)) == j,
{
    let f = first_visit(start, n, j);
    if j >= start {
        lemma_small_mod((start + f) as nat, n);
    } else {
        lemma_fundamental_div_mod_converse((start + f) as int, n as int, 1, j as int);
    }
}

/// The walk's first position is its start.
pub proof fn lemma_visit_start(start: nat, n: nat)
    requires
        start < n,
    ensures
        circular_visit(start, n, 0) == start,
{
    lemma_small_mod(start, n);
}

/// One more step moves the walk to the next position, wrapping from the
/// last slot back to the first.
pub proof fn lemma_visit_step(start: nat, n: nat, k: nat)
    requires
        n > 0,
    ensures
        circular_visit(start, n, k) < n,
        circular_visit(start, n, k + 1) == if circular_visit(start, n, k) + 1 == n {
            0int
        } else {
            circular_visit(start, n, k) + 1int
        },
{
    lemma_mod_bound((start + k) as int, n as int);
    lemma_mod_step((start + k) as int, n as int);
}

} // verus!
