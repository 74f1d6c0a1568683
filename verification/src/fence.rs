use vstd::prelude::*;

verus! {

/// Model of the single submission queue paired with its fence.
///
/// The fence is a monotonically increasing counter living in GPU-visible
/// memory; `completed` is the value the GPU has reached so far. Every
/// `signal` enqueues a marker that the GPU will reach only after all work
/// submitted before it has fully retired, so `pending` holds the signalled
/// values that are still outstanding, in submission order. The queue
/// executes in submission order, which is why "the fence reached `n`"
/// implies "every batch signalled at or below `n` has retired".
pub struct FenceQueue {
    /// The fence value the GPU has completed; non-decreasing.
    completed: u64,
    /// Outstanding signal values, in submission order.
    pending: Vec<u64>,
}

impl FenceQueue {
    /// The fence value the GPU has completed.
    pub closed spec fn completed_spec(&self) -> u64 {
        self.completed
    }

    /// The outstanding signal values, oldest first.
    pub closed spec fn pending_spec(&self) -> Seq<u64> {
        self.pending@
    }

    /// The highest value signalled so far: what the fence will read once
    /// the queue drains. Equals `completed` when nothing is outstanding.
    pub open spec fn max_signaled(&self) -> u64 {
        if self.pending_spec().len() == 0 {
            self.completed_spec()
        } else {
            self.pending_spec()[self.pending_spec().len() - 1]
        }
    }

    /// Outstanding signals are strictly increasing and strictly above the
    /// completed value: the fence only ever moves forward.
    pub open spec fn wf(&self) -> bool {
        &&& forall|i: int, j: int|
            0 <= i < j < self.pending_spec().len()
                ==> self.pending_spec()[i] < self.pending_spec()[j]
        &&& forall|i: int|
            0 <= i < self.pending_spec().len() ==> self.completed_spec() < self.pending_spec()[i]
    }

    /// A fresh fence created at `initial_value`, with an idle queue.
    pub fn new(initial_value: u64) -> (r: Self)
        ensures
            r.wf(),
            r.completed_spec() == initial_value,
            r.pending_spec() == Seq::<u64>::empty(),
    {
        FenceQueue { completed: initial_value, pending: Vec::new() }
    }

    /// Lock-free read of the fence's completed value.
    pub fn completed_value(&self) -> (r: u64)
        ensures
            r == self.completed_spec(),
    {
        self.completed
    }

    /// How many signals are still outstanding.
    pub fn pending_count(&self) -> (r: usize)
        ensures
            r == self.pending_spec().len(),
    {
        self.pending.len()
    }

    /// Enqueues a signal: once the GPU retires all work submitted before
    /// this point, the fence will read `value`. Returns immediately; the
    /// completed value is untouched.
    pub fn signal(&mut self, value: u64)
        requires
            old(self).wf(),
            old(self).max_signaled() < value,
        ensures
            final(self).wf(),
            final(self).completed_spec() == old(self).completed_spec(),
            final(self).pending_spec() == old(self).pending_spec().push(value),
            final(self).max_signaled() == value,
    {
        self.pending.push(value);
    }

    /// The GPU retires the oldest outstanding batch: the fence advances to
    /// that batch's signal value. This is the model's one source of GPU
    /// progress; the CPU never advances the fence itself.
    pub fn retire_one(&mut self)
        requires
            old(self).wf(),
            old(self).pending_spec().len() > 0,
        ensures
            final(self).wf(),
            final(self).completed_spec() == old(self).pending_spec()[0],
            final(self).completed_spec() > old(self).completed_spec(),
            final(self).pending_spec() == old(self).pending_spec().subrange(
                1,
                old(self).pending_spec().len() as int,
            ),
            final(self).max_signaled() == old(self).max_signaled(),
    {
        let value: u64 = self.pending.remove(0);
        self.completed = value;
    }

    /// The GPU retires everything outstanding: the fence reaches the
    /// highest signalled value and the queue drains.
    pub fn retire_all(&mut self)
        requires
            old(self).wf(),
        ensures
            final(self).wf(),
            final(self).completed_spec() == old(self).max_signaled(),
            final(self).completed_spec() >= old(self).completed_spec(),
            final(self).pending_spec().len() == 0,
            final(self).max_signaled() == old(self).max_signaled(),
    {
        while self.pending.len() > 0
            invariant
                self.wf(),
                self.max_signaled() == old(self).max_signaled(),
                self.completed_spec() >= old(self).completed_spec(),
            decreases self.pending_spec().len(),
        {
            self.retire_one();
        }
    }

    /// Blocks until the fence reaches `target`, by letting the GPU retire
    /// outstanding batches in order. Never returns while the completed
    /// value is below `target`. `target` must already have been signalled
    /// (otherwise no amount of GPU progress could satisfy the wait and the
    /// caller would block forever). Returns whether it had to wait at all.
    pub fn wait_if_needed(&mut self, target: u64) -> (waited: bool)
        requires
            old(self).wf(),
            target <= old(self).max_signaled(),
        ensures
            final(self).wf(),
            final(self).completed_spec() >= target,
            final(self).completed_spec() >= old(self).completed_spec(),
            final(self).max_signaled() == old(self).max_signaled(),
            waited == (old(self).completed_spec() < target),
            !waited ==> *final(self) == *old(self),
            forall|v: u64|
                old(self).pending_spec().contains(v) ==> final(self).completed_spec() >= v
                    || final(self).pending_spec().contains(v),
            old(self).completed_spec() < target && old(self).pending_spec().contains(target)
                ==> final(self).completed_spec() == target,
    {
        let waited: bool = self.completed < target;
        while self.completed < target
            invariant
                self.wf(),
                target <= self.max_signaled(),
                self.max_signaled() == old(self).max_signaled(),
                self.completed_spec() >= old(self).completed_spec(),
                waited == (old(self).completed_spec() < target),
                waited || *self == *old(self),
                forall|v: u64|
                    old(self).pending_spec().contains(v) ==> self.completed_spec() >= v
                        || self.pending_spec().contains(v),
                old(self).pending_spec().contains(target) && self.completed_spec() < target
                    ==> self.pending_spec().contains(target),
                old(self).pending_spec().contains(target) && waited ==> self.completed_spec()
                    <= target,
            decreases self.pending_spec().len(),
        {
            let ghost prev = *self;
            self.retire_one();
            proof {
                assert forall|v: u64|
                    prev.pending_spec().contains(v) implies self.completed_spec() >= v
                    || self.pending_spec().contains(v) by {
                    let i = choose|i: int|
                        0 <= i < prev.pending_spec().len() && prev.pending_spec()[i] == v;
                    if i == 0 {
                        assert(self.completed_spec() == v);
                    } else {
                        assert(self.pending_spec()[i - 1] == v);
                    }
                }
                if prev.pending_spec().contains(target) && self.completed_spec() < target {
                    let j = choose|j: int|
                        0 <= j < prev.pending_spec().len() && prev.pending_spec()[j] == target;
                    assert(j != 0);
                    assert(self.pending_spec()[j - 1] == target);
                }
                if prev.pending_spec().contains(target) {
                    let j = choose|j: int|
                        0 <= j < prev.pending_spec().len() && prev.pending_spec()[j] == target;
                    assert(prev.pending_spec()[0] <= prev.pending_spec()[j]);
                }
            }
        }
        waited
    }
}

} // verus!
