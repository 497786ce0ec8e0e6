//! The host's periodic timers, driven by ticks on a millisecond clock that the
//! caller supplies (so the same logic runs on wall-clock or virtual time).
use vstd::prelude::*;

verus! {

/// The identifier the host gives a registered timer.
#[derive(Clone, Copy, Debug, PartialEq, Eq, Structural, Hash)]
pub struct TimerId(pub u32);

/// The errors of timer registration.
#[derive(Clone, Copy, Debug, PartialEq, Eq, Structural)]
pub enum TimerError {
    /// No identifier is left to give out.
    RegisterError,
    /// No timer is registered under that identifier.
    UnregisterError,
}

/// One timer: its identifier, its period in milliseconds, and the time of its
/// last tick.
#[derive(Clone, Copy, Debug, PartialEq, Eq, Structural)]
pub struct Timer {
    pub id: TimerId,
    pub interval: u32,
    pub last_updated_at: Option<u64>,
}

/// Whether a tick at `now` fires the timer: always on its first tick, then
/// once more than its period has passed since its last tick.
pub open spec fn fires(t: Timer, now: u64) -> bool {
    match t.last_updated_at {
        None => true,
        Some(last) => now >= last && now - last > t.interval,
    }
}

/// The time left, at `now`, until the timer's period has run out since its
/// last tick; 0 for a timer never ticked or already due.
pub open spec fn remaining(t: Timer, now: u64) -> u64 {
    match t.last_updated_at {
        None => 0,
        Some(last) => if now < last {
            t.interval as u64
        } else if now - last >= t.interval {
            0
        } else {
            (t.interval - (now - last)) as u64
        },
    }
}

impl Timer {
    pub fn new(id: TimerId, interval: u32) -> (r: Timer)
        ensures
            r == (Timer { id, interval, last_updated_at: None }),
    {
        Timer { id, interval, last_updated_at: None }
    }

    /// Ticks the timer at `now`: whether it fires, and `now` becomes its last tick.
    pub fn tick(&mut self, now: u64) -> (r: bool)
        ensures
            r == fires(*old(self), now),
            *final(self) == (Timer { last_updated_at: Some(now), ..*old(self) }),
    {
        let triggered = match self.last_updated_at {
            Some(last) => if now >= last {
                now - last > self.interval as u64
            } else {
                false
            },
            None => true,
        };
        self.last_updated_at = Some(now);
        triggered
    }

    fn remaining(&self, now: u64) -> (r: u64)
        ensures
            r == remaining(*self, now),
    {
        match self.last_updated_at {
            None => 0,
            Some(last) => if now < last {
                self.interval as u64
            } else if now - last >= self.interval as u64 {
                0
            } else {
                self.interval as u64 - (now - last)
            },
        }
    }
}

/// The identifiers of the timers that a tick at `now` fires, in order.
pub open spec fn fired_ids(timers: Seq<Timer>, now: u64) -> Seq<TimerId>
    decreases timers.len(),
{
    if timers.len() == 0 {
        Seq::empty()
    } else {
        let rest = fired_ids(timers.drop_last(), now);
        if fires(timers.last(), now) {
            rest.push(timers.last().id)
        } else {
            rest
        }
    }
}

/// The smaller of two optional values; a missing one does not count.
pub open spec fn min_some(a: Option<u64>, b: u64) -> Option<u64> {
    match a {
        Some(x) => Some(if x < b { x } else { b }),
        None => Some(b),
    }
}

/// The shortest period among the timers, `None` when there is none.
pub open spec fn min_interval(timers: Seq<Timer>) -> Option<u64>
    decreases timers.len(),
{
    if timers.len() == 0 {
        None
    } else {
        min_some(min_interval(timers.drop_last()), timers.last().interval as u64)
    }
}

/// The shortest time left among the timers at `now`, `None` when there is none.
pub open spec fn min_remaining(timers: Seq<Timer>, now: u64) -> Option<u64>
    decreases timers.len(),
{
    if timers.len() == 0 {
        None
    } else {
        min_some(min_remaining(timers.drop_last(), now), remaining(timers.last(), now))
    }
}

/// The host's registered timers, in registration order.
pub struct Timers {
    latest_id: u32,
    smallest_duration: Option<u32>,
    timers: Vec<Timer>,
}

impl View for Timers {
    type V = Seq<Timer>;

    closed spec fn view(&self) -> Seq<Timer> {
        self.timers@
    }
}

impl Timers {
    /// The last identifier given out, 0 before the first.
    pub closed spec fn spec_latest_id(&self) -> u32 {
        self.latest_id
    }

    /// Identifiers are given out in increasing order from 1, so they are
    /// unique; the cached shortest period is the shortest among the timers.
    pub closed spec fn wf(&self) -> bool {
        &&& forall|i: int, j: int| 0 <= i < j < self@.len() ==> #[trigger] self@[i].id.0 < #[trigger] self@[j].id.0
        &&& forall|i: int| 0 <= i < self@.len() ==> 0 < #[trigger] self@[i].id.0 <= self.latest_id
        &&& match self.smallest_duration {
            Some(d) => min_interval(self@) == Some(d as u64),
            None => min_interval(self@) is None,
        }
    }

    pub fn new() -> (r: Timers)
        ensures
            r.wf(),
            r@.len() == 0,
            r.spec_latest_id() == 0,
    {
        Timers { latest_id: 0, smallest_duration: None, timers: Vec::new() }
    }

    pub fn len(&self) -> (r: usize)
        ensures
            r == self@.len(),
    {
        self.timers.len()
    }

    /// The timer at `index` in registration order.
    pub fn get(&self, index: usize) -> (r: Option<&Timer>)
        ensures
            index < self@.len() ==> r == Some(&self@[index as int]),
            index >= self@.len() ==> r is None,
    {
        if index < self.timers.len() {
            Some(&self.timers[index])
        } else {
            None
        }
    }

    /// Registers a timer of period `interval` ms under the next identifier.
    /// Fails once every 32-bit identifier has been given out.
    pub fn register_new(&mut self, interval: u32) -> (r: Result<TimerId, TimerError>)
        requires
            old(self).wf(),
        ensures
            final(self).wf(),
            r is Err <==> old(self).spec_latest_id() == u32::MAX,
            r matches Err(e) ==> e == TimerError::RegisterError && *final(self) == *old(self),
            r matches Ok(id) ==> id.0 == old(self).spec_latest_id() + 1 && final(self).spec_latest_id() == id.0
                && final(self)@ == old(self)@.push(Timer { id, interval, last_updated_at: None }),
    {
        if self.latest_id == u32::MAX {
            return Err(TimerError::RegisterError);
        }
        self.latest_id = self.latest_id + 1;
        let id = TimerId(self.latest_id);
        let ghost before = self.timers@;
        self.timers.push(Timer::new(id, interval));
        proof {
            assert(self.timers@.drop_last() =~= before);
        }
        self.smallest_duration = match self.smallest_duration {
            None => Some(interval),
            Some(smallest) => if smallest > interval {
                Some(interval)
            } else {
                Some(smallest)
            },
        };
        Ok(id)
    }

    /// The shortest period among `timers`, recomputed.
    fn compute_smallest(timers: &Vec<Timer>) -> (r: Option<u32>)
        ensures
            match r {
                Some(d) => min_interval(timers@) == Some(d as u64),
                None => min_interval(timers@) is None,
            },
    {
        let mut smallest: Option<u32> = None;
        let mut i: usize = 0;
        while i < timers.len()
            invariant
                i <= timers@.len(),
                match smallest {
                    Some(d) => min_interval(timers@.subrange(0, i as int)) == Some(d as u64),
                    None => min_interval(timers@.subrange(0, i as int)) is None,
                },
            decreases timers@.len() - i,
        {
            let interval = timers[i].interval;
            proof {
                assert(timers@.subrange(0, i + 1).drop_last() =~= timers@.subrange(0, i as int));
            }
            smallest = match smallest {
                None => Some(interval),
                Some(s) => if s > interval {
                    Some(interval)
                } else {
                    Some(s)
                },
            };
            i = i + 1;
        }
        proof {
            assert(timers@.subrange(0, timers@.len() as int) =~= timers@);
        }
        smallest
    }

    /// Removes the timer registered under `id`; `false` when there is none.
    pub fn unregister(&mut self, id: TimerId) -> (r: bool)
        requires
            old(self).wf(),
        ensures
            final(self).wf(),
            final(self).spec_latest_id() == old(self).spec_latest_id(),
            r == exists|i: int| 0 <= i < old(self)@.len() && #[trigger] old(self)@[i].id == id,
            r ==> exists|i: int|
                0 <= i < old(self)@.len() && #[trigger] old(self)@[i].id == id && final(self)@ == old(self)@.remove(i),
            !r ==> final(self)@ == old(self)@,
    {
        let mut i: usize = 0;
        while i < self.timers.len()
            invariant
                *self == *old(self),
                old(self).wf(),
                i <= self@.len(),
                forall|k: int| 0 <= k < i ==> #[trigger] self@[k].id != id,
            decreases self@.len() - i,
        {
            if self.timers[i].id.0 == id.0 {
                let ghost before = self.timers@;
                self.timers.remove(i);
                proof {
                    assert(before == old(self)@);
                    assert(old(self).wf());
                    assert(before[i as int].id == id);
                    assert forall|a: int, b: int| 0 <= a < b < self@.len() implies #[trigger] self@[a].id.0
                        < #[trigger] self@[b].id.0 by {
                        let a0 = if a < i { a } else { a + 1 };
                        let b0 = if b < i { b } else { b + 1 };
                        assert(self@[a] == before[a0]);
                        assert(self@[b] == before[b0]);
                        assert(old(self)@[a0].id.0 < old(self)@[b0].id.0);
                    }
                    assert forall|a: int| 0 <= a < self@.len() implies 0 < #[trigger] self@[a].id.0 <= self.latest_id by {
                        let a0 = if a < i { a } else { a + 1 };
                        assert(self@[a] == before[a0]);
                        assert(0 < old(self)@[a0].id.0 <= old(self).latest_id);
                    }
                }
                self.smallest_duration = Self::compute_smallest(&self.timers);
                return true;
            }
            i = i + 1;
        }
        false
    }

    /// The host side of a plugin's unregister request: removes the timer, or
    /// reports that none is registered under `id`.
    pub fn unregister_timer(&mut self, id: TimerId) -> (r: Result<(), TimerError>)
        requires
            old(self).wf(),
        ensures
            final(self).wf(),
            final(self).spec_latest_id() == old(self).spec_latest_id(),
            r is Ok <==> exists|i: int| 0 <= i < old(self)@.len() && #[trigger] old(self)@[i].id == id,
            r matches Err(e) ==> e == TimerError::UnregisterError && final(self)@ == old(self)@,
            r is Ok ==> exists|i: int|
                0 <= i < old(self)@.len() && #[trigger] old(self)@[i].id == id && final(self)@ == old(self)@.remove(i),
    {
        if self.unregister(id) {
            Ok(())
        } else {
            Err(TimerError::UnregisterError)
        }
    }

    /// Ticks every timer at `now`, in registration order, and returns the
    /// identifiers of those that fired.
    pub fn tick_all(&mut self, now: u64) -> (r: Vec<TimerId>)
        requires
            old(self).wf(),
        ensures
            final(self).wf(),
            final(self).spec_latest_id() == old(self).spec_latest_id(),
            r@ == fired_ids(old(self)@, now),
            final(self)@.len() == old(self)@.len(),
            forall|i: int|
                0 <= i < old(self)@.len() ==> #[trigger] final(self)@[i] == (Timer {
                    last_updated_at: Some(now),
                    ..old(self)@[i]
                }),
    {
        let mut fired: Vec<TimerId> = Vec::new();
        let mut i: usize = 0;
        let ghost old_timers = self.timers@;
        while i < self.timers.len()
            invariant
                self.latest_id == old(self).latest_id,
                self.smallest_duration == old(self).smallest_duration,
                self@.len() == old_timers.len(),
                old_timers == old(self)@,
                i <= self@.len(),
                fired@ == fired_ids(old_timers.subrange(0, i as int), now),
                forall|k: int|
                    0 <= k < i ==> #[trigger] self@[k] == (Timer { last_updated_at: Some(now), ..old_timers[k] }),
                forall|k: int| i <= k < self@.len() ==> #[trigger] self@[k] == old_timers[k],
            decreases self@.len() - i,
        {
            proof {
                assert(old_timers.subrange(0, i + 1).drop_last() =~= old_timers.subrange(0, i as int));
                assert(old_timers.subrange(0, i + 1).last() == old_timers[i as int]);
            }
            let t = &mut self.timers[i];
            let id = t.id;
            if t.tick(now) {
                fired.push(id);
            }
            i = i + 1;
        }
        proof {
            assert(old_timers.subrange(0, old_timers.len() as int) =~= old_timers);
            assert forall|a: int| 0 <= a < self@.len() implies #[trigger] self@[a].id == old_timers[a].id by {}
            assert(self@.len() == old_timers.len());
            assert forall|a: int, b: int| 0 <= a < b < self@.len() implies #[trigger] self@[a].id.0
                < #[trigger] self@[b].id.0 by {
                assert(self@[a].id == old_timers[a].id);
                assert(self@[b].id == old_timers[b].id);
            }
            lemma_min_interval_same_periods(old_timers, self@);
        }
        fired
    }

    /// The shortest period among the timers, in milliseconds; `None` when
    /// there is no timer.
    pub fn smallest_duration(&self) -> (r: Option<u32>)
        requires
            self.wf(),
        ensures
            match r {
                Some(d) => min_interval(self@) == Some(d as u64),
                None => min_interval(self@) is None,
            },
    {
        self.smallest_duration
    }

    /// The shortest time left at `now` before some timer's period has run out,
    /// in milliseconds; `None` when there is no timer.
    pub fn smallest_pending_duration(&self, now: u64) -> (r: Option<u64>)
        ensures
            r == min_remaining(self@, now),
    {
        let mut smallest: Option<u64> = None;
        let mut i: usize = 0;
        while i < self.timers.len()
            invariant
                i <= self@.len(),
                smallest == min_remaining(self@.subrange(0, i as int), now),
            decreases self@.len() - i,
        {
            let left = self.timers[i].remaining(now);
            proof {
                assert(self@.subrange(0, i + 1).drop_last() =~= self@.subrange(0, i as int));
            }
            smallest = match smallest {
                None => Some(left),
                Some(s) => if s > left {
                    Some(left)
                } else {
                    Some(s)
                },
            };
            i = i + 1;
        }
        proof {
            assert(self@.subrange(0, self@.len() as int) =~= self@);
        }
        smallest
    }
}

proof fn lemma_min_interval_same_periods(a: Seq<Timer>, b: Seq<Timer>)
    requires
        a.len() == b.len(),
        forall|i: int| 0 <= i < a.len() ==> #[trigger] a[i].interval == b[i].interval,
    ensures
        min_interval(a) == min_interval(b),
    decreases a.len(),
{
    if a.len() > 0 {
        lemma_min_interval_same_periods(a.drop_last(), b.drop_last());
    }
}

} // verus!
