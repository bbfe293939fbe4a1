use vstd::prelude::*;

verus! {

/// One scheduled entry: the task itself plus the number of further whole
/// wheel rounds that must pass before the entry is due.
pub struct TimerEntry<T> {
    pub rounds: u64,
    pub task: T,
}

/// Number of ticks a delay takes, rounded up.  Meaningful for a positive
/// tick length.
pub open spec fn ticks_for(tick_ms: u64, delay_ms: u64) -> int {
    (delay_ms + tick_ms - 1) / (tick_ms as int)
}

/// Round counter an entry is stored with: zero when the delay is within the
/// wheel's directly addressable span, else the number of whole rounds the
/// delay spans.
pub open spec fn rounds_for(slot_count: int, ticks: int) -> int {
    if ticks <= slot_count {
        0
    } else {
        ticks / slot_count
    }
}

/// The tasks of one slot that fire when the clock reaches it: those whose
/// round counter has run down (a counter of one reaches zero on this very
/// visit).
pub open spec fn due_tasks<T>(entries: Seq<TimerEntry<T>>) -> Seq<T>
    decreases entries.len(),
{
    if entries.len() == 0 {
        Seq::<T>::empty()
    } else {
        let rest = due_tasks(entries.drop_last());
        if entries.last().rounds <= 1 {
            rest.push(entries.last().task)
        } else {
            rest
        }
    }
}

/// The entries of one slot that stay for a later round, each with its round
/// counter decremented.
pub open spec fn kept_entries<T>(entries: Seq<TimerEntry<T>>) -> Seq<TimerEntry<T>>
    decreases entries.len(),
{
    if entries.len() == 0 {
        Seq::<TimerEntry<T>>::empty()
    } else {
        let rest = kept_entries(entries.drop_last());
        if entries.last().rounds <= 1 {
            rest
        } else {
            rest.push(TimerEntry { rounds: (entries.last().rounds - 1) as u64, task: entries.last().task })
        }
    }
}

/// A timing wheel: delayed tasks are placed into time-bucketed slots and a
/// periodic clock advances the current slot, firing the entries that are
/// due.  The wheel itself is ignorant of task semantics.
pub struct WheelTimer<T> {
    tick_ms: u64,
    slots: Vec<Vec<TimerEntry<T>>>,
    current: usize,
}

impl<T> WheelTimer<T> {
    /// Length of one tick in milliseconds.
    pub closed spec fn spec_tick_ms(&self) -> u64 {
        self.tick_ms
    }

    /// Number of slots; the directly addressable span is
    /// `tick_ms * slot_count` milliseconds.
    pub closed spec fn spec_slot_count(&self) -> int {
        self.slots@.len() as int
    }

    /// Index of the slot the clock points at.
    pub closed spec fn spec_current(&self) -> int {
        self.current as int
    }

    /// The entries of slot `i`, in insertion order.
    pub closed spec fn spec_slot(&self, i: int) -> Seq<TimerEntry<T>> {
        self.slots@[i]@
    }

    pub closed spec fn wf(&self) -> bool {
        self.tick_ms > 0 && self.slots@.len() > 0 && (self.current as int) < self.slots@.len()
    }

    /// Builds a wheel of `slot_count` empty slots; fails when either
    /// parameter is zero.
    pub fn new(tick_ms: u64, slot_count: usize) -> (r: Option<WheelTimer<T>>)
        ensures
            (tick_ms == 0 || slot_count == 0) <==> r is None,
            r matches Some(w) ==> w.wf() && w.spec_tick_ms() == tick_ms && w.spec_slot_count()
                == slot_count && w.spec_current() == 0 && forall|i: int|
                0 <= i < slot_count ==> w.spec_slot(i).len() == 0,
    {
        if tick_ms == 0 || slot_count == 0 {
            return None;
        }
        let mut slots: Vec<Vec<TimerEntry<T>>> = Vec::new();
        while slots.len() < slot_count
            invariant
                slots@.len() <= slot_count,
                forall|i: int| 0 <= i < slots@.len() ==> slots@[i]@.len() == 0,
            decreases slot_count - slots@.len(),
        {
            slots.push(Vec::new());
        }
        Some(WheelTimer { tick_ms, slots, current: 0 })
    }

    /// Schedules one task after `delay_ms`: it lands in the slot `ticks`
    /// positions ahead of the current one (mod the slot count), with a round
    /// counter when the delay exceeds the wheel's span.
    pub fn new_timeout(&mut self, task: T, delay_ms: u64)
        requires
            old(self).wf(),
            delay_ms <= u64::MAX - old(self).spec_tick_ms(),
        ensures
            final(self).wf(),
            final(self).spec_tick_ms() == old(self).spec_tick_ms(),
            final(self).spec_slot_count() == old(self).spec_slot_count(),
            final(self).spec_current() == old(self).spec_current(),
            ({
                let ticks = ticks_for(old(self).spec_tick_ms(), delay_ms);
                let slot = (old(self).spec_current() + ticks) % old(self).spec_slot_count();
                let rounds = rounds_for(old(self).spec_slot_count(), ticks);
                &&& final(self).spec_slot(slot) == old(self).spec_slot(slot).push(
                    (TimerEntry { rounds: rounds as u64, task }),
                )
                &&& forall|i: int|
                    0 <= i < old(self).spec_slot_count() && i != slot ==> final(self).spec_slot(i)
                        == old(self).spec_slot(i)
            }),
    {
        let ticks: u64 = (delay_ms + self.tick_ms - 1) / self.tick_ms;
        let slot_count: u64 = self.slots.len() as u64;
        let slot: usize = (((self.current as u128) + (ticks as u128)) % (slot_count as u128))
            as usize;
        let rounds: u64 = if ticks <= slot_count {
            0
        } else {
            ticks / slot_count
        };
        let entry = TimerEntry { rounds, task };
        let ghost slots0 = self.slots@;
        let mut slot_vec = self.slots.remove(slot);
        slot_vec.push(entry);
        self.slots.insert(slot, slot_vec);
        proof {
            assert(self.slots@ =~= slots0.update(slot as int, self.slots@[slot as int]));
        }
    }

    /// Advances the clock by one tick: the current slot moves forward one
    /// position (wrapping), the entries of the newly reached slot whose
    /// round counter has run down come back as the due tasks, in insertion
    /// order, and the remaining entries stay there with their counters
    /// decremented.  Other slots are untouched.
    pub fn tick(&mut self) -> (due: Vec<T>)
        requires
            old(self).wf(),
        ensures
            final(self).wf(),
            final(self).spec_tick_ms() == old(self).spec_tick_ms(),
            final(self).spec_slot_count() == old(self).spec_slot_count(),
            final(self).spec_current() == (old(self).spec_current() + 1) % old(
                self,
            ).spec_slot_count(),
            due@ == due_tasks(old(self).spec_slot(final(self).spec_current())),
            final(self).spec_slot(final(self).spec_current()) == kept_entries(
                old(self).spec_slot(final(self).spec_current()),
            ),
            forall|i: int|
                0 <= i < old(self).spec_slot_count() && i != final(self).spec_current()
                    ==> final(self).spec_slot(i) == old(self).spec_slot(i),
    {
        let n = self.slots.len();
        let next: usize = if self.current + 1 == n {
            0
        } else {
            self.current + 1
        };
        proof {
            if old(self).spec_current() + 1 == n {
                vstd::arithmetic::div_mod::lemma_mod_self_0(n as int);
            } else {
                vstd::arithmetic::div_mod::lemma_small_mod((old(self).spec_current() + 1) as nat, n as nat);
            }
        }
        self.current = next;
        let ghost orig = self.slots@[next as int]@;
        let mut entries = self.slots.remove(next);
        let mut due: Vec<T> = Vec::new();
        let mut kept: Vec<TimerEntry<T>> = Vec::new();
        let ghost mut done: int = 0;
        while entries.len() > 0
            invariant
                0 <= done <= orig.len(),
                entries@ == orig.skip(done),
                due@ == due_tasks(orig.take(done)),
                kept@ == kept_entries(orig.take(done)),
            decreases entries@.len(),
        {
            let e = entries.remove(0);
            assert(e == orig[done]);
            if e.rounds <= 1 {
                due.push(e.task);
            } else {
                kept.push(TimerEntry { rounds: e.rounds - 1, task: e.task });
            }
            proof {
                done = done + 1;
                assert(orig.take(done).drop_last() =~= orig.take(done - 1));
                assert(orig.take(done).last() == orig[done - 1]);
                assert(entries@ =~= orig.skip(done));
            }
        }
        proof {
            assert(orig.take(done) =~= orig);
        }
        self.slots.insert(next, kept);
        proof {
            assert(self.slots@ =~= old(self).slots@.update(next as int, self.slots@[next as int]));
        }
        due
    }
}

} // verus!
