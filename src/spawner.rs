use vstd::prelude::*;

verus! {

/// A timer that completes once every `period` microseconds and starts over.
#[derive(Clone, Copy, Debug, PartialEq, Eq, Structural)]
pub struct RepeatingTimer {
    pub period: u64,
    pub elapsed: u64,
}

impl RepeatingTimer {
    pub open spec fn wf(self) -> bool {
        self.period > 0 && self.elapsed < self.period
    }

    /// Advancing by `delta` completes at least one period.
    pub open spec fn completes(self, delta: int) -> bool {
        self.elapsed + delta >= self.period
    }

    /// The time into the current period after advancing by `delta`.
    pub open spec fn elapsed_after(self, delta: int) -> int {
        (self.elapsed + delta) % (self.period as int)
    }

    pub fn new(period: u64) -> (r: RepeatingTimer)
        requires
            period > 0,
        ensures
            r.wf(),
            r.period == period,
            r.elapsed == 0,
    {
        RepeatingTimer { period, elapsed: 0 }
    }

    /// Advances the timer by `delta` microseconds; tells whether a period was
    /// completed. Several periods completed at once count as one.
    pub fn tick(&mut self, delta: u32) -> (finished: bool)
        requires
            old(self).wf(),
        ensures
            final(self).wf(),
            final(self).period == old(self).period,
            final(self).elapsed == old(self).elapsed_after(delta as int),
            finished == old(self).completes(delta as int),
    {
        let total: u128 = self.elapsed as u128 + delta as u128;
        let finished = total >= self.period as u128;
        self.elapsed = (total % (self.period as u128)) as u64;
        finished
    }
}

/// Population tracking for one kind of entity: a spawn falls due each time
/// the timer completes a period while fewer than `cap` entities are alive.
#[derive(Clone, Copy, Debug, PartialEq, Eq, Structural)]
pub struct Spawner {
    pub count: u8,
    pub cap: u8,
    pub timer: RepeatingTimer,
}

impl Spawner {
    pub open spec fn wf(self) -> bool {
        self.timer.wf() && self.count <= self.cap
    }

    /// Whether advancing by `delta` makes a spawn due.
    pub open spec fn due_after(self, delta: int) -> bool {
        self.timer.completes(delta) && self.count < self.cap
    }

    pub fn new(cap: u8, period: u64) -> (r: Spawner)
        requires
            period > 0,
        ensures
            r.wf(),
            r.count == 0,
            r.cap == cap,
            r.timer.period == period,
            r.timer.elapsed == 0,
    {
        Spawner { count: 0, cap, timer: RepeatingTimer::new(period) }
    }

    /// Advances the timer by `delta` microseconds and tells whether a spawn
    /// is due. The count is left alone: `record_spawn` counts a spawn made.
    pub fn tick(&mut self, delta: u32) -> (due: bool)
        requires
            old(self).wf(),
        ensures
            final(self).wf(),
            final(self).count == old(self).count,
            final(self).cap == old(self).cap,
            final(self).timer.period == old(self).timer.period,
            final(self).timer.elapsed == old(self).timer.elapsed_after(delta as int),
            due == old(self).due_after(delta as int),
    {
        let finished = self.timer.tick(delta);
        finished && self.count < self.cap
    }

    /// Counts one entity spawned.
    pub fn record_spawn(&mut self)
        requires
            old(self).wf(),
            old(self).count < old(self).cap,
        ensures
            final(self).wf(),
            final(self).count == old(self).count + 1,
            final(self).cap == old(self).cap,
            final(self).timer == old(self).timer,
    {
        self.count = self.count + 1;
    }

    /// Counts one entity gone; the count never drops below zero.
    pub fn record_exit(&mut self)
        requires
            old(self).wf(),
        ensures
            final(self).wf(),
            final(self).count == if old(self).count > 0 { old(self).count - 1 } else { 0 },
            final(self).cap == old(self).cap,
            final(self).timer == old(self).timer,
    {
        if self.count > 0 {
            self.count = self.count - 1;
        }
    }
}

} // verus!
