//! A timer facility driven by hand: nothing fires until its owner says so.
//! It keeps the facility's bookkeeping (which timers are active, after which
//! interval each fires next) and a record of every invocation, so that a host
//! without a native timer, or a test, can run registered callbacks
//! deterministically.
use std::rc::Rc;
use vstd::prelude::*;

use crate::timer::{CallbackParam, SizeClass, Timer, TimerFacility};

verus! {

/// The most timers one facility hands out; identifiers run from 1 to this.
pub const MAX_TIMERS: usize = 2147483647;

/// The facility's record of one registered timer.
#[derive(Debug, Clone, Copy, PartialEq, Eq, Structural)]
pub struct ScheduledTimer {
    /// The interval after which it fires next, in milliseconds.
    pub interval: u32,
    /// False once it was cancelled or its callback returned zero.
    pub active: bool,
}

/// What can happen to the facility's bookkeeping.
pub enum FacilityEvent {
    /// A registration with the given interval.
    Add(u32),
    /// A cancellation of the given identifier.
    Cancel(i32),
    /// A firing of the given identifier whose callback returned the value.
    Fire(i32, u32),
}

/// Whether `id` names an active timer of `ts`; timer `id` is `ts[id - 1]`.
pub open spec fn is_active(ts: Seq<ScheduledTimer>, id: int) -> bool {
    1 <= id <= ts.len() && ts[id - 1].active
}

/// The bookkeeping after `ev`.
pub open spec fn step(ts: Seq<ScheduledTimer>, ev: FacilityEvent) -> Seq<ScheduledTimer> {
    match ev {
        FacilityEvent::Add(interval) => if ts.len() < MAX_TIMERS {
            ts.push(ScheduledTimer { interval, active: true })
        } else {
            ts
        },
        FacilityEvent::Cancel(id) => if is_active(ts, id as int) {
            ts.update(id - 1, ScheduledTimer { active: false, ..ts[id - 1] })
        } else {
            ts
        },
        FacilityEvent::Fire(id, ret) => if !is_active(ts, id as int) {
            ts
        } else if ret == 0 {
            ts.update(id - 1, ScheduledTimer { active: false, ..ts[id - 1] })
        } else {
            ts.update(id - 1, ScheduledTimer { interval: ret, ..ts[id - 1] })
        },
    }
}

/// The bookkeeping after each of `evs` in turn.
pub open spec fn run(ts: Seq<ScheduledTimer>, evs: Seq<FacilityEvent>) -> Seq<ScheduledTimer>
    decreases evs.len(),
{
    if evs.len() == 0 {
        ts
    } else {
        run(step(ts, evs[0]), evs.drop_first())
    }
}

/// A registered timer that is no longer active never becomes active again,
/// whatever happens after, so its callback is not invoked again.
pub proof fn lemma_inactive_stays_inactive(
    ts: Seq<ScheduledTimer>,
    id: i32,
    evs: Seq<FacilityEvent>,
)
    requires
        1 <= id <= ts.len(),
        !is_active(ts, id as int),
    ensures
        id <= run(ts, evs).len(),
        !is_active(run(ts, evs), id as int),
    decreases evs.len(),
{
    if evs.len() > 0 {
        let next = step(ts, evs[0]);
        assert(!is_active(next, id as int));
        lemma_inactive_stays_inactive(next, id, evs.drop_first());
    }
}

/// A callback that returns zero stops its timer for good: after that
/// firing, whatever happens, the timer is never active, so never fired again.
pub proof fn lemma_zero_stops(ts: Seq<ScheduledTimer>, id: i32, evs: Seq<FacilityEvent>)
    requires
        is_active(ts, id as int),
    ensures
        !is_active(run(step(ts, FacilityEvent::Fire(id, 0)), evs), id as int),
{
    lemma_inactive_stays_inactive(step(ts, FacilityEvent::Fire(id, 0)), id, evs);
}

/// A callback that returns a positive `d` keeps its timer active, to fire
/// next after `d` milliseconds.
pub proof fn lemma_positive_reschedules(ts: Seq<ScheduledTimer>, id: i32, d: u32)
    requires
        is_active(ts, id as int),
        d > 0,
    ensures
        is_active(step(ts, FacilityEvent::Fire(id, d)), id as int),
        step(ts, FacilityEvent::Fire(id, d))[id as int - 1].interval == d,
{
}

/// Cancelling an active timer stops it for good: whatever happens after, it
/// is never active, so its callback is never invoked again.
pub proof fn lemma_cancel_stops(ts: Seq<ScheduledTimer>, id: i32, evs: Seq<FacilityEvent>)
    requires
        is_active(ts, id as int),
    ensures
        !is_active(run(step(ts, FacilityEvent::Cancel(id)), evs), id as int),
{
    lemma_inactive_stays_inactive(step(ts, FacilityEvent::Cancel(id)), id, evs);
}

/// Cancelling a timer that is already cancelled reports that it was not
/// active and changes nothing, so every other timer is left as it was.
pub proof fn lemma_cancel_twice(ts: Seq<ScheduledTimer>, id: i32)
    requires
        1 <= id <= ts.len(),
    ensures
        !is_active(step(ts, FacilityEvent::Cancel(id)), id as int),
        step(step(ts, FacilityEvent::Cancel(id)), FacilityEvent::Cancel(id))
            == step(ts, FacilityEvent::Cancel(id)),
        forall|j: int|
            0 <= j < ts.len() && j != id - 1 ==> #[trigger] step(ts, FacilityEvent::Cancel(id))[j]
                == ts[j],
{
}

/// A timer facility whose timers fire only when `fire` is called.
pub struct ManualTimerFacility {
    timers: Vec<ScheduledTimer>,
    log: Vec<(i32, u32)>,
}

impl ManualTimerFacility {
    /// Every invocation so far, in order: the timer and what its callback
    /// returned.
    pub closed spec fn invocations(&self) -> Seq<(i32, u32)> {
        self.log@
    }

    pub fn new() -> (f: ManualTimerFacility)
        ensures
            f.timers() == Seq::<ScheduledTimer>::empty(),
            f.invocations() == Seq::<(i32, u32)>::empty(),
    {
        ManualTimerFacility { timers: Vec::new(), log: Vec::new() }
    }

    /// Registers a timer that fires first after `interval`; returns its
    /// identifier, or zero when the facility is full.
    pub fn add(&mut self, interval: u32) -> (id: i32)
        ensures
            final(self).timers() == step(old(self).timers(), FacilityEvent::Add(interval)),
            final(self).invocations() == old(self).invocations(),
            id == 0 <==> old(self).timers().len() >= MAX_TIMERS,
            id != 0 ==> id == final(self).timers().len() && is_active(
                final(self).timers(),
                id as int,
            ),
    {
        if self.timers.len() >= MAX_TIMERS {
            0
        } else {
            self.timers.push(ScheduledTimer { interval, active: true });
            self.timers.len() as i32
        }
    }

    /// Cancels timer `id`; tells whether it was active.
    pub fn cancel(&mut self, id: i32) -> (was_active: bool)
        ensures
            was_active == is_active(old(self).timers(), id as int),
            final(self).timers() == step(old(self).timers(), FacilityEvent::Cancel(id)),
            final(self).invocations() == old(self).invocations(),
    {
        if id >= 1 && (id as usize) <= self.timers.len() && self.timers[(id - 1) as usize].active {
            let i = (id - 1) as usize;
            let t = self.timers[i];
            self.timers.set(i, ScheduledTimer { active: false, ..t });
            true
        } else {
            false
        }
    }

    /// Whether timer `id` is active.
    pub fn is_active(&self, id: i32) -> (r: bool)
        ensures
            r == is_active(self.timers(), id as int),
    {
        id >= 1 && (id as usize) <= self.timers.len() && self.timers[(id - 1) as usize].active
    }

    /// The interval after which timer `id` fires next, if it is active.
    pub fn scheduled_interval(&self, id: i32) -> (r: Option<u32>)
        ensures
            r is Some <==> is_active(self.timers(), id as int),
            r matches Some(d) ==> d == self.timers()[id - 1].interval,
    {
        if self.is_active(id) {
            Some(self.timers[(id - 1) as usize].interval)
        } else {
            None
        }
    }

    /// How many invocations there have been, of all timers.
    pub fn invocation_count(&self) -> (n: usize)
        ensures
            n == self.invocations().len(),
    {
        self.log.len()
    }

    /// The `k`-th invocation: the timer and what its callback returned.
    pub fn invocation(&self, k: usize) -> (r: Option<(i32, u32)>)
        ensures
            r is Some <==> k < self.invocations().len(),
            r matches Some(e) ==> e == self.invocations()[k as int],
    {
        if k < self.log.len() {
            Some(self.log[k])
        } else {
            None
        }
    }

    /// Fires `timer` once its interval has passed: where it is active, its
    /// callback runs with that interval, and what it returns becomes the next
    /// interval, or stops the timer if zero. Returns what the callback
    /// returned, or `None` where the timer was not active and nothing ran.
    pub fn fire<F: Fn(u32, T) -> u32, T: Copy>(&mut self, timer: &Timer<F, T>) -> (r: Option<u32>)
        requires
            forall|i: u32| #[trigger] timer.cell().callback().requires((i, timer.cell().captured())),
        ensures
            r is Some <==> is_active(old(self).timers(), timer.spec_id() as int),
            r is None ==> *final(self) == *old(self),
            r matches Some(next) ==> {
                &&& timer.cell().callback().ensures(
                    (old(self).timers()[timer.spec_id() - 1].interval, timer.cell().captured()),
                    next,
                )
                &&& final(self).timers() == step(
                    old(self).timers(),
                    FacilityEvent::Fire(timer.spec_id(), next),
                )
                &&& final(self).invocations() == old(self).invocations().push(
                    (timer.spec_id(), next),
                )
            },
    {
        let id = timer.id();
        if !self.is_active(id) {
            return None;
        }
        let i = (id - 1) as usize;
        let t = self.timers[i];
        let next = timer.callback_param().invoke(t.interval);
        if next == 0 {
            self.timers.set(i, ScheduledTimer { active: false, ..t });
        } else {
            self.timers.set(i, ScheduledTimer { interval: next, ..t });
        }
        self.log.push((id, next));
        Some(next)
    }
}

impl TimerFacility for ManualTimerFacility {
    /// The timers registered so far; timer `id` is at index `id - 1`.
    closed spec fn timers(&self) -> Seq<ScheduledTimer> {
        self.timers@
    }

    fn add_timer<F: Fn(u32, T) -> u32, T: Copy>(
        &mut self,
        interval: u32,
        class: SizeClass,
        cell: &Rc<CallbackParam<F, T>>,
    ) -> i32 {
        self.add(interval)
    }

    fn remove_timer(&mut self, id: i32) -> bool {
        self.cancel(id)
    }
}

} // verus!
