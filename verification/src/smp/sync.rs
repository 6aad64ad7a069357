//! Synchronization primitives for SMP, as state machines: each operation is
//! one atomic step on the shared state.

use vstd::prelude::*;

verus! {

/// A simple spinlock.
pub struct SpinLock {
    locked: bool,
}

impl SpinLock {
    /// Whether the lock is held.
    pub closed spec fn is_locked(self) -> bool {
        self.locked
    }

    /// A free lock.
    pub fn new() -> (r: Self)
        ensures
            !r.is_locked(),
    {
        SpinLock { locked: false }
    }

    /// Acquire the lock. A lock that is already held is acquired only after its
    /// holder releases it, so the step is taken on a free lock.
    pub fn lock(&mut self)
        requires
            !old(self).is_locked(),
        ensures
            final(self).is_locked(),
    {
        let acquired = self.try_lock();
        assert(acquired);
    }

    /// Try to acquire the lock without waiting; true when it was free and is now held.
    pub fn try_lock(&mut self) -> (acquired: bool)
        ensures
            acquired == !old(self).is_locked(),
            final(self).is_locked(),
            lock_step(*old(self), Some(acquired), *final(self)),
    {
        if self.locked {
            false
        } else {
            self.locked = true;
            true
        }
    }

    /// Release the lock.
    pub fn unlock(&mut self)
        ensures
            !final(self).is_locked(),
            lock_step(*old(self), None, *final(self)),
    {
        self.locked = false;
    }
}

/// One step on a spinlock: `Some(acquired)` is a `try_lock` that reports
/// whether it got the lock and leaves it held; `None` is an `unlock`, which
/// leaves it free.
pub open spec fn lock_step(before: SpinLock, op: Option<bool>, after: SpinLock) -> bool {
    match op {
        Some(acquired) => acquired == !before.is_locked() && after.is_locked(),
        None => !after.is_locked(),
    }
}

/// Along a run of lock steps, a held lock stays held until an unlock.
pub proof fn lemma_lock_held_until_unlock(states: Seq<SpinLock>, ops: Seq<Option<bool>>, m: int, j: int)
    requires
        states.len() == ops.len() + 1,
        forall|k: int| 0 <= k < ops.len() ==> #[trigger] lock_step(states[k], ops[k], states[k + 1]),
        0 <= m <= j <= ops.len(),
        states[m].is_locked(),
        forall|k: int| m <= k < j ==> #[trigger] ops[k] is Some,
    ensures
        states[j].is_locked(),
    decreases j - m,
{
    if m < j {
        assert(lock_step(states[m], ops[m], states[m + 1]));
        assert(ops[m] is Some);
        lemma_lock_held_until_unlock(states, ops, m + 1, j);
    }
}

/// Mutual exclusion: along any run of `try_lock` (and `lock`, which is a
/// successful `try_lock`) and `unlock` steps on one lock, between two
/// successful acquisitions there is always an unlock.
pub proof fn lemma_spinlock_excludes(states: Seq<SpinLock>, ops: Seq<Option<bool>>)
    requires
        states.len() == ops.len() + 1,
        forall|k: int| 0 <= k < ops.len() ==> #[trigger] lock_step(states[k], ops[k], states[k + 1]),
    ensures
        forall|i: int, j: int| 0 <= i < j < ops.len() && ops[i] == Some(true) && ops[j] == Some(true)
            ==> exists|k: int| i < k < j && #[trigger] ops[k] is None,
{
    assert forall|i: int, j: int| 0 <= i < j < ops.len() && ops[i] == Some(true) && ops[j] == Some(true)
        implies exists|k: int| i < k < j && #[trigger] ops[k] is None by {
        if !(exists|k: int| i < k < j && #[trigger] ops[k] is None) {
            assert(lock_step(states[i], ops[i], states[i + 1]));
            assert forall|k: int| i + 1 <= k < j implies #[trigger] ops[k] is Some by {
                if ops[k] is None {
                    assert(i < k < j && ops[k] is None);
                }
            }
            lemma_lock_held_until_unlock(states, ops, i + 1, j);
            assert(lock_step(states[j], ops[j], states[j + 1]));
        }
    }
}

/// A barrier for synchronizing multiple cores: the last of `target` arrivals
/// resets the count and opens the next generation.
pub struct CoreBarrier {
    count: usize,
    target: usize,
    generation: u32,
}

impl CoreBarrier {
    /// Cores that have arrived in the current generation.
    pub closed spec fn arrived(self) -> nat {
        self.count as nat
    }

    /// Number of cores the barrier waits for.
    pub closed spec fn target(self) -> nat {
        self.target as nat
    }

    /// Generation counter, advanced each time the barrier opens.
    pub closed spec fn generation(self) -> u32 {
        self.generation
    }

    /// A barrier for `num_cores` cores with nobody waiting.
    pub fn new(num_cores: usize) -> (r: Self)
        ensures
            r.arrived() == 0,
            r.target() == num_cores,
            r.generation() == 0,
    {
        CoreBarrier { count: 0, target: num_cores, generation: 0 }
    }

    /// Arrive at the barrier. Returns the generation the caller must see change
    /// before continuing, or `None` when this arrival was the last one and
    /// opened the barrier (count reset, generation advanced).
    pub fn wait(&mut self) -> (r: Option<u32>)
        requires
            old(self).arrived() < usize::MAX,
        ensures
            wait_step(*old(self), r, *final(self)),
    {
        let current_gen = self.generation;
        self.count = self.count + 1;
        if self.count == self.target {
            self.count = 0;
            self.generation = self.generation.wrapping_add(1);
            None
        } else {
            Some(current_gen)
        }
    }

    /// The current generation, which waiting cores watch for a change.
    pub fn current_generation(&self) -> (r: u32)
        ensures
            r == self.generation(),
    {
        self.generation
    }

    /// Reset the arrival count; the target stays what it was created with.
    pub fn reset(&mut self, _num_cores: usize)
        ensures
            final(self).arrived() == 0,
            final(self).target() == old(self).target(),
            final(self).generation() == old(self).generation(),
    {
        self.count = 0;
    }
}

/// One arrival at the barrier: the last of the target's arrivals resets the count,
/// advances the generation (wrapping) and is not told to wait; any other arrival
/// is counted and told to wait for the current generation to change.
pub open spec fn wait_step(before: CoreBarrier, r: Option<u32>, after: CoreBarrier) -> bool {
    &&& after.target() == before.target()
    &&& before.arrived() + 1 == before.target() ==> r is None && after.arrived() == 0
        && after.generation() == before.generation().wrapping_add(1)
    &&& before.arrived() + 1 != before.target() ==> r == Some(before.generation())
        && after.arrived() == before.arrived() + 1 && after.generation() == before.generation()
}

/// Along a run of arrivals at an empty barrier, arrival `i` finds `i` cores there.
proof fn lemma_arrivals_count_up(states: Seq<CoreBarrier>, rs: Seq<Option<u32>>, i: int)
    requires
        states.len() == rs.len() + 1,
        rs.len() <= states[0].target(),
        states[0].arrived() == 0,
        forall|j: int| 0 <= j < rs.len() ==> #[trigger] wait_step(states[j], rs[j], states[j + 1]),
        0 <= i < rs.len(),
    ensures
        states[i].arrived() == i,
        states[i].target() == states[0].target(),
        states[i].generation() == states[0].generation(),
    decreases i,
{
    if i > 0 {
        let j = i - 1;
        lemma_arrivals_count_up(states, rs, j);
        assert(wait_step(states[j], rs[j], states[j + 1]));
    }
}

/// The barrier holds every core until the last one arrives: along a run of `target`
/// arrivals at an empty barrier, each of the first `target - 1` arrivals is told to
/// wait for the starting generation, and the last one opens the barrier, leaving it
/// empty in the next generation.
pub proof fn lemma_barrier_opens_on_last_arrival(states: Seq<CoreBarrier>, rs: Seq<Option<u32>>)
    requires
        states.len() == rs.len() + 1,
        rs.len() == states[0].target(),
        rs.len() >= 1,
        states[0].arrived() == 0,
        forall|j: int| 0 <= j < rs.len() ==> #[trigger] wait_step(states[j], rs[j], states[j + 1]),
    ensures
        forall|i: int| 0 <= i < rs.len() - 1 ==> #[trigger] rs[i] == Some(states[0].generation()),
        rs[rs.len() - 1] is None,
        states[rs.len() as int].arrived() == 0,
        states[rs.len() as int].generation() == states[0].generation().wrapping_add(1),
        states[rs.len() as int].target() == states[0].target(),
{
    assert forall|i: int| 0 <= i < rs.len() - 1 implies #[trigger] rs[i] == Some(states[0].generation()) by {
        lemma_arrivals_count_up(states, rs, i);
        assert(wait_step(states[i], rs[i], states[i + 1]));
    }
    let last = rs.len() - 1;
    lemma_arrivals_count_up(states, rs, last);
    assert(wait_step(states[last], rs[last], states[last + 1]));
}

/// An atomic work counter for distributing `total` work items.
pub struct WorkCounter {
    next: usize,
    total: usize,
}

impl WorkCounter {
    /// Index of the next item to hand out.
    pub closed spec fn next_index(self) -> usize {
        self.next
    }

    /// Number of work items.
    pub closed spec fn total(self) -> usize {
        self.total
    }

    /// A counter for `total` items, none handed out.
    pub fn new(total: usize) -> (r: Self)
        ensures
            r.next_index() == 0,
            r.total() == total,
    {
        WorkCounter { next: 0, total }
    }

    /// Take the next work item index; `None` once all items are handed out.
    /// The counter advances (wrapping) either way.
    pub fn get_next(&mut self) -> (r: Option<usize>)
        ensures
            next_step(*old(self), r, *final(self)),
    {
        let idx = self.next;
        self.next = self.next.wrapping_add(1);
        if idx < self.total {
            Some(idx)
        } else {
            None
        }
    }

    /// Reset the counter for new work.
    pub fn reset(&mut self)
        ensures
            final(self).next_index() == 0,
            final(self).total() == old(self).total(),
    {
        self.next = 0;
    }

    /// Check if all work has been handed out.
    pub fn is_done(&self) -> (r: bool)
        ensures
            r == (self.next_index() >= self.total()),
    {
        self.next >= self.total
    }
}

/// One take from the counter: the result is the current index while it is below
/// the total, and the counter advances by one (wrapping) either way.
pub open spec fn next_step(before: WorkCounter, r: Option<usize>, after: WorkCounter) -> bool {
    &&& r == if before.next_index() < before.total() { Some(before.next_index()) } else { None }
    &&& after.next_index() == before.next_index().wrapping_add(1)
    &&& after.total() == before.total()
}

/// Along a run of takes from a fresh counter, take `i` meets index `i`.
pub proof fn lemma_takes_count_up(states: Seq<WorkCounter>, rs: Seq<Option<usize>>, i: int)
    requires
        states.len() == rs.len() + 1,
        rs.len() <= usize::MAX,
        states[0].next_index() == 0,
        forall|j: int| 0 <= j < rs.len() ==> #[trigger] next_step(states[j], rs[j], states[j + 1]),
        0 <= i <= rs.len(),
    ensures
        states[i].next_index() == i,
        states[i].total() == states[0].total(),
    decreases i,
{
    if i > 0 {
        let j = i - 1;
        lemma_takes_count_up(states, rs, j);
        assert(next_step(states[j], rs[j], states[j + 1]));
    }
}

/// Each work item is handed out exactly once: along any run of `get_next` calls on a
/// fresh counter (no more calls than `usize::MAX`), call `i` hands out item `i` while
/// `i` is below the total and nothing afterwards, so no item is handed out twice and
/// every item below the total is handed out once enough calls were made; after the
/// run the counter reports done (`is_done`) exactly when the calls reached the total.
pub proof fn lemma_work_counter_hands_out_each_once(states: Seq<WorkCounter>, rs: Seq<Option<usize>>)
    requires
        states.len() == rs.len() + 1,
        rs.len() <= usize::MAX,
        states[0].next_index() == 0,
        forall|j: int| 0 <= j < rs.len() ==> #[trigger] next_step(states[j], rs[j], states[j + 1]),
    ensures
        forall|i: int| 0 <= i < rs.len() ==>
            #[trigger] rs[i] == if i < states[0].total() { Some(i as usize) } else { None },
        forall|i: int, j: int| 0 <= i < j < rs.len() && rs[i] is Some ==> rs[i] != rs[j],
        forall|t: int| 0 <= t < states[0].total() && t < rs.len() ==> rs[t] == Some(t as usize),
        states[rs.len() as int].next_index() == rs.len(),
        (states[rs.len() as int].next_index() >= states[rs.len() as int].total()) == (rs.len() >= states[0].total()),
{
    lemma_takes_count_up(states, rs, rs.len() as int);
    assert forall|i: int| 0 <= i < rs.len() implies
        #[trigger] rs[i] == if i < states[0].total() { Some(i as usize) } else { None } by {
        lemma_takes_count_up(states, rs, i);
        assert(next_step(states[i], rs[i], states[i + 1]));
    }
    assert forall|i: int, j: int| 0 <= i < j < rs.len() && rs[i] is Some implies rs[i] != rs[j] by {
        assert(rs[i] == if i < states[0].total() { Some(i as usize) } else { None });
        assert(rs[j] == if j < states[0].total() { Some(j as usize) } else { None });
    }
    assert forall|t: int| 0 <= t < states[0].total() && t < rs.len() implies rs[t] == Some(t as usize) by {
        assert(rs[t] == if t < states[0].total() { Some(t as usize) } else { None });
    }
}

} // verus!
