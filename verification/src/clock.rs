//! The scheduler that paces the processor and the timers.

use vstd::prelude::*;

verus! {

/// A scheduler that fires at a fixed period and catches up on what it missed.
///
/// Time is a count of nanoseconds from a start that the caller chooses. The
/// first tick fires once and takes its time as the baseline; each later tick
/// fires once for every whole period that has gone by since the scheduler last
/// fired, and moves on by those whole periods only. What is left of a period
/// stays for the next tick, so the firing times never drift.
#[derive(Debug)]
pub struct Clock {
    freq: u64,
    last: Option<u64>,
}

/// What a scheduler holds, as plain values.
pub struct ClockState {
    /// The period, in nanoseconds.
    pub period: u64,
    /// The time up to which the scheduler has fired, if it ever has.
    pub last: Option<u64>,
}

impl View for Clock {
    type V = ClockState;

    closed spec fn view(&self) -> ClockState {
        ClockState { period: self.freq, last: self.last }
    }
}

impl ClockState {
    /// How often a tick at `now` fires.
    pub open spec fn spec_due(self, now: u64) -> nat {
        match self.last {
            None => 1,
            Some(last) => if now >= last {
                ((now - last) / (self.period as int)) as nat
            } else {
                0
            },
        }
    }

    /// The scheduler after a tick at `now`.
    pub open spec fn spec_ticked(self, now: u64) -> ClockState {
        match self.last {
            None => ClockState { last: Some(now), ..self },
            Some(last) => ClockState {
                last: Some((last + self.spec_due(now) * self.period) as u64),
                ..self
            },
        }
    }

    /// After a first tick at `start`, a tick `whole` periods and a `rest`
    /// shorter than a period later fires `whole` times, moves the scheduler on
    /// by `whole` periods exactly, and leaves the `rest` for the tick after it.
    pub proof fn lemma_catch_up(period: u64, start: u64, whole: nat, rest: nat)
        requires
            period > 0,
            rest < period,
            start + whole * period + rest <= u64::MAX,
        ensures
            ({
                let fresh = ClockState { period: period, last: None };
                let first = fresh.spec_ticked(start);
                let now = (start + whole * period + rest) as u64;
                let second = first.spec_ticked(now);
                &&& fresh.spec_due(start) == 1
                &&& first.last == Some(start)
                &&& first.spec_due(now) == whole
                &&& second.last == Some((start + whole * period) as u64)
                &&& second.spec_due(now) == 0
                &&& now - second.last->0 == rest
            }),
    {
        let now = (start + whole * period + rest) as u64;
        assert((whole * period + rest) / (period as int) == whole) by (nonlinear_arith)
            requires
                period > 0,
                0 <= rest < period,
        ;
        assert((rest as int) / (period as int) == 0) by (nonlinear_arith)
            requires
                period > 0,
                0 <= rest < period,
        ;
    }
}

impl ClockState {
    /// A tick moves a scheduler that has fired before by whole periods only,
    /// never beyond `now`, and leaves less than a period between where it
    /// stands and `now`: what is left of a period is kept, not dropped.
    pub proof fn lemma_keeps_phase(self, last: u64, now: u64)
        requires
            self.period > 0,
            self.last == Some(last),
            last <= now,
        ensures
            ({
                let next = self.spec_ticked(now).last->0;
                &&& self.spec_ticked(now).last is Some
                &&& self.spec_ticked(now).period == self.period
                &&& next == last + self.spec_due(now) * self.period
                &&& last <= next <= now
                &&& now - next == (now - last) % (self.period as int)
                &&& now - next < self.period
                &&& self.spec_ticked(now).spec_due(now) == 0
            }),
    {
        let elapsed = now - last;
        let period = self.period as int;
        let fires = elapsed / period;
        assert(0 <= fires * period <= elapsed && elapsed - fires * period == elapsed % period
            && elapsed % period < period) by (nonlinear_arith)
            requires
                period > 0,
                elapsed >= 0,
                fires == elapsed / period,
        ;
        assert((elapsed % period) / period == 0) by (nonlinear_arith)
            requires
                period > 0,
                elapsed >= 0,
        ;
    }

    /// A tick at a time before the one up to which the scheduler has fired
    /// does not fire and changes nothing.
    pub proof fn lemma_no_way_back(self, last: u64, now: u64)
        requires
            self.last == Some(last),
            now < last,
        ensures
            self.spec_due(now) == 0,
            self.spec_ticked(now) == self,
    {
        assert(0 * self.period == 0);
    }
}

impl Clock {
    #[verifier::type_invariant]
    spec fn inv(self) -> bool {
        self.freq > 0
    }

    /// A scheduler with the given period that has not fired yet.
    pub fn new(freq: u64) -> (clock: Clock)
        requires
            freq > 0,
        ensures
            clock@ == (ClockState { period: freq, last: None }),
    {
        Clock { freq, last: None }
    }

    /// The period, which is never zero.
    pub fn period(&self) -> (period: u64)
        ensures
            period == self@.period,
            period > 0,
    {
        proof {
            use_type_invariant(self);
        }
        self.freq
    }

    /// How often a tick at `now` would fire.
    pub fn due(&self, now: u64) -> (fires: u64)
        ensures
            fires == self@.spec_due(now),
    {
        proof {
            use_type_invariant(self);
        }
        match self.last {
            None => 1,
            Some(last) => if now >= last {
                (now - last) / self.freq
            } else {
                0
            },
        }
    }

    /// Fires for `now`: says how often, and moves the scheduler on by as many
    /// whole periods, or to `now` where it had never fired.
    pub fn tick(&mut self, now: u64) -> (fires: u64)
        ensures
            fires == old(self)@.spec_due(now),
            final(self)@ == old(self)@.spec_ticked(now),
    {
        proof {
            use_type_invariant(&*self);
        }
        let fires: u64 = self.due(now);
        match self.last {
            None => {
                self.last = Some(now);
            },
            Some(last) => {
                let period: u64 = self.freq;
                assert(0 <= fires * period && (fires * period <= now - last || (now < last && fires
                    * period == 0))) by (nonlinear_arith)
                    requires
                        period > 0,
                        now >= last ==> fires == (now - last) / (period as int),
                        now < last ==> fires == 0,
                ;
                self.last = Some(last + fires * period);
            },
        }
        fires
    }
}

} // verus!
