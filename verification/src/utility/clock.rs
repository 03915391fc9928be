//! The simulation clock: turns elapsed wall time into whole fixed-size ticks.

use vstd::prelude::*;

verus! {

/// Largest instant or duration the crate can represent, in nanoseconds.
pub open spec fn max_nanos() -> nat {
    u64::MAX as nat
}

/// The smaller of two naturals.
pub open spec fn min_nat(a: nat, b: nat) -> nat {
    if a <= b {
        a
    } else {
        b
    }
}

/// Mathematical state of a [`SimulationClock`].
pub struct ClockView {
    /// Length of one tick; never zero.
    pub update_period: nat,
    /// Most ticks that a single call of `tick` hands out.
    pub max_ticks: nat,
    /// Wall-clock instant up to which elapsed time has been accounted for.
    pub last_frame_time: Option<nat>,
    /// Simulated time consumed by ticks so far.
    pub time: nat,
    /// Wall time not yet consumed by a tick.
    pub accumulator: nat,
    /// Number of ticks handed out since the last reset.
    pub ticks_processed: nat,
}

/// What one call of [`SimulationClock::tick`] hands to the loop.
#[derive(Clone, Copy, Debug, PartialEq, Eq, Structural)]
pub struct TickBatch {
    /// Number of fixed updates to run now.
    pub ticks_to_run: u32,
    /// Simulated time at which the first of them starts.
    pub start_time: u64,
    /// Wall time left over once those ticks are consumed.
    pub lag: u64,
    /// Wall time thrown away because the tick limit was reached.
    pub discarded: u128,
}

impl ClockView {
    /// The invariant of a clock: a positive period, a drained accumulator, and a
    /// simulated time that is a whole number of periods and leaves room for
    /// one more period below the end of the representable range, so that
    /// simulated time plus lag can always be represented.
    pub open spec fn wf(self) -> bool {
        &&& self.update_period > 0
        &&& self.accumulator < self.update_period
        &&& self.time == self.ticks_processed * self.update_period
        &&& self.time + self.update_period <= max_nanos()
    }

    /// Whether the tick limit and the last accounted instant fit the machine
    /// types that hold them. (Of a well-formed clock, everything else does.)
    pub open spec fn in_range(self) -> bool {
        &&& self.max_ticks <= u32::MAX
        &&& self.last_frame_time matches Some(last) ==> last <= max_nanos()
    }

    /// Wall time that passed between the last accounted instant and `now`;
    /// zero if there is no such instant yet or if `now` lies before it.
    pub open spec fn elapsed(self, now: nat) -> nat {
        match self.last_frame_time {
            Some(last) => if now >= last {
                (now - last) as nat
            } else {
                0
            },
            None => 0,
        }
    }

    /// Wall time available to ticks at `now`.
    pub open spec fn available(self, now: nat) -> nat {
        self.accumulator + self.elapsed(now)
    }

    /// Number of whole periods contained in the available wall time.
    pub open spec fn ticks_due(self, now: nat) -> nat {
        self.available(now) / self.update_period
    }

    /// Most ticks the clock may hand out now: the configured limit, and no more
    /// than simulated time has room for.
    pub open spec fn tick_budget(self) -> nat {
        min_nat(
            self.max_ticks,
            ((max_nanos() - self.time) / (self.update_period as int) - 1) as nat,
        )
    }

    /// Number of ticks that `tick` hands out at `now`.
    pub open spec fn ticks_to_run(self, now: nat) -> nat {
        if self.last_frame_time is None {
            0
        } else {
            min_nat(self.ticks_due(now), self.tick_budget())
        }
    }

    /// The state after `tick` at `now`.
    pub open spec fn tick(self, now: nat) -> ClockView {
        match self.last_frame_time {
            None => ClockView { last_frame_time: Some(now), ..self },
            Some(last) => ClockView {
                last_frame_time: Some(last + self.elapsed(now)),
                time: self.time + self.ticks_to_run(now) * self.update_period,
                accumulator: self.available(now) % self.update_period,
                ticks_processed: self.ticks_processed + self.ticks_to_run(now),
                ..self
            },
        }
    }

    /// Wall time that `tick` throws away at `now`: the whole periods that were
    /// due but exceed the tick budget.
    pub open spec fn discarded(self, now: nat) -> nat {
        if self.last_frame_time is None {
            0
        } else {
            ((self.ticks_due(now) - self.ticks_to_run(now)) * self.update_period) as nat
        }
    }

    /// The state after an iteration that consumes no time: the clock is moved to
    /// `now`, and what elapsed since the last accounted instant is not accumulated.
    pub open spec fn resync(self, now: nat) -> ClockView {
        ClockView { last_frame_time: Some(now), ..self }
    }

    /// The state after a reset: simulated time and accumulator start from zero.
    pub open spec fn reset(self) -> ClockView {
        ClockView { time: 0, accumulator: 0, ticks_processed: 0, ..self }
    }

    /// The state after one `tick` at each instant of `samples`, in order.
    pub open spec fn tick_all(self, samples: Seq<nat>) -> ClockView
        decreases samples.len(),
    {
        if samples.len() == 0 {
            self
        } else {
            self.tick_all(samples.drop_last()).tick(samples.last())
        }
    }
}

/// One tick keeps the clock well formed: the accumulator ends below one
/// period, and simulated time is still the number of ticks processed times
/// the period. Simulated time never moves backwards, it moves by exactly one
/// period per tick handed out, and the wall time that was available is
/// accounted for in full: consumed by ticks, left as lag, or discarded.
pub proof fn lemma_tick(c: ClockView, now: nat)
    requires
        c.wf(),
    ensures
        c.tick(now).wf(),
        c.tick(now).accumulator < c.update_period,
        c.tick(now).time == c.tick(now).ticks_processed * c.update_period,
        c.tick(now).time == c.time + c.ticks_to_run(now) * c.update_period,
        c.tick(now).time >= c.time,
        c.ticks_to_run(now) <= c.max_ticks,
        c.last_frame_time is Some ==> c.available(now) == c.ticks_to_run(now) * c.update_period
            + c.tick(now).accumulator + c.discarded(now),
        c.ticks_due(now) <= c.tick_budget() ==> c.discarded(now) == 0,
{
    let p = c.update_period as int;
    if c.last_frame_time is Some {
        let a = c.available(now) as int;
        let n = c.ticks_to_run(now);
        lemma_budget_fits(c, n);
        vstd::arithmetic::div_mod::lemma_fundamental_div_mod(a, p);
        vstd::arithmetic::div_mod::lemma_mod_bound(a, p);
        assert((a / p - n) * p == p * (a / p) - n * p) by (nonlinear_arith);
        assert(0 <= (a / p - n) * p <= a) by (nonlinear_arith)
            requires
                0 <= n <= a / p,
                p > 0,
                a == p * (a / p) + a % p,
                0 <= a % p,
        ;
        if c.ticks_due(now) <= c.tick_budget() {
            assert((a / p - n) * p == 0) by (nonlinear_arith)
                requires
                    a / p - n == 0,
            ;
        }
    } else {
        assert(c.ticks_to_run(now) * c.update_period == 0) by (nonlinear_arith)
            requires
                c.ticks_to_run(now) == 0,
        ;
    }
}

/// A reset keeps the clock well formed, and so does moving it to another
/// instant.
pub proof fn lemma_reset(c: ClockView, now: nat)
    requires
        c.wf(),
    ensures
        c.reset().wf(),
        c.resync(now).wf(),
{
    assert(0 * c.update_period == 0) by (nonlinear_arith);
}

/// However many instants are fed to a clock, it stays well formed: afterwards
/// the accumulator is below one period, simulated time is the number of ticks
/// processed times the period, and simulated time has not moved backwards.
pub proof fn lemma_tick_all(c: ClockView, samples: Seq<nat>)
    requires
        c.wf(),
    ensures
        c.tick_all(samples).wf(),
        c.tick_all(samples).update_period == c.update_period,
        c.tick_all(samples).accumulator < c.update_period,
        c.tick_all(samples).time == c.tick_all(samples).ticks_processed * c.update_period,
        c.tick_all(samples).time >= c.time,
    decreases samples.len(),
{
    if samples.len() > 0 {
        lemma_tick_all(c, samples.drop_last());
        lemma_tick(c.tick_all(samples.drop_last()), samples.last());
    }
}

/// Why a clock could not be built.
#[derive(Clone, Copy, Debug, PartialEq, Eq, Structural)]
pub enum ClockError {
    /// The update period was zero: no number of ticks would ever drain the
    /// accumulator.
    ZeroPeriod,
}

/// Converts elapsed wall time into a whole number of fixed-size simulation
/// ticks plus leftover lag.
#[derive(Clone, Copy, Debug)]
pub struct SimulationClock {
    update_period: u64,
    max_ticks: u32,
    last_frame_time: Option<u64>,
    time: u64,
    accumulator: u64,
    ticks_processed: u64,
}

impl View for SimulationClock {
    type V = ClockView;

    closed spec fn view(&self) -> ClockView {
        ClockView {
            update_period: self.update_period as nat,
            max_ticks: self.max_ticks as nat,
            last_frame_time: match self.last_frame_time {
                Some(t) => Some(t as nat),
                None => None,
            },
            time: self.time as nat,
            accumulator: self.accumulator as nat,
            ticks_processed: self.ticks_processed as nat,
        }
    }
}

impl SimulationClock {
    /// Holds of every clock at every point of a program.
    #[verifier::type_invariant]
    pub open spec fn inv(self) -> bool {
        self@.wf()
    }

    /// The state of a clock is well formed and fits its machine types.
    pub proof fn lemma_view(self)
        requires
            self.inv(),
        ensures
            self@.wf(),
            self@.in_range(),
    {
    }

    /// A clock that has not seen any instant yet, with simulated time at zero
    /// and no limit on ticks beyond what the counter can hold.
    pub fn new(update_period: u64) -> (clock: Result<SimulationClock, ClockError>)
        ensures
            clock is Ok <==> update_period > 0,
            clock matches Err(e) ==> e == ClockError::ZeroPeriod,
            clock matches Ok(c) ==> c@ == (ClockView {
                update_period: update_period as nat,
                max_ticks: u32::MAX as nat,
                last_frame_time: None,
                time: 0,
                accumulator: 0,
                ticks_processed: 0,
            }),
    {
        if update_period == 0 {
            Err(ClockError::ZeroPeriod)
        } else {
            Ok(
                SimulationClock {
                    update_period,
                    max_ticks: u32::MAX,
                    last_frame_time: None,
                    time: 0,
                    accumulator: 0,
                    ticks_processed: 0,
                },
            )
        }
    }

    /// Replaces the limit on the number of ticks handed out by one call of
    /// `tick`. What the limit cuts off is discarded, not kept for later.
    pub fn set_max_ticks(&mut self, max_ticks: u32)
        ensures
            final(self)@ == (ClockView { max_ticks: max_ticks as nat, ..old(self)@ }),
    {
        proof {
            use_type_invariant(&*self);
        }
        *self = SimulationClock { max_ticks, ..*self };
    }

    /// Length of one tick.
    pub fn update_period(&self) -> (period: u64)
        ensures
            period == self@.update_period,
            period > 0,
    {
        proof {
            use_type_invariant(self);
        }
        self.update_period
    }

    /// Simulated time consumed by ticks so far.
    pub fn time(&self) -> (time: u64)
        ensures
            time == self@.time,
    {
        self.time
    }

    /// Wall time not yet consumed by a tick.
    pub fn accumulator(&self) -> (lag: u64)
        ensures
            lag == self@.accumulator,
            lag < self@.update_period,
    {
        proof {
            use_type_invariant(self);
        }
        self.accumulator
    }

    /// Number of ticks handed out since the last reset.
    pub fn ticks_processed(&self) -> (ticks: u64)
        ensures
            ticks == self@.ticks_processed,
    {
        self.ticks_processed
    }

    /// Wall-clock instant up to which elapsed time has been accounted for.
    pub fn last_frame_time(&self) -> (last: Option<u64>)
        ensures
            last is Some <==> self@.last_frame_time is Some,
            last matches Some(t) ==> self@.last_frame_time == Some(t as nat),
    {
        self.last_frame_time
    }

    /// Wall time between the last accounted instant and `now`.
    pub fn elapsed(&self, now: u64) -> (elapsed: u64)
        ensures
            elapsed == self@.elapsed(now as nat),
    {
        match self.last_frame_time {
            Some(last) => if now >= last {
                now - last
            } else {
                0
            },
            None => 0,
        }
    }

    /// Accounts for the wall time that passed up to `now` and hands out the
    /// ticks that it pays for.
    ///
    /// The first call only records `now`. Every later call adds the elapsed
    /// time to the accumulator and takes one period out of it per tick, up to
    /// the tick budget; whole periods beyond the budget are discarded.
    pub fn tick(&mut self, now: u64) -> (batch: TickBatch)
        ensures
            final(self)@ == old(self)@.tick(now as nat),
            batch.ticks_to_run == old(self)@.ticks_to_run(now as nat),
            batch.start_time == old(self)@.time,
            batch.lag == final(self)@.accumulator,
            batch.discarded == old(self)@.discarded(now as nat),
            batch.lag < final(self)@.update_period,
            final(self)@.time == final(self)@.ticks_processed * final(self)@.update_period,
    {
        proof {
            use_type_invariant(&*self);
        }
        match self.last_frame_time {
            None => {
                let batch = TickBatch {
                    ticks_to_run: 0,
                    start_time: self.time,
                    lag: self.accumulator,
                    discarded: 0,
                };
                *self = SimulationClock { last_frame_time: Some(now), ..*self };
                batch
            },
            Some(last) => {
                let ghost before = self@;
                let elapsed: u64 = if now >= last {
                    now - last
                } else {
                    0
                };
                let period: u128 = self.update_period as u128;
                let available: u128 = self.accumulator as u128 + elapsed as u128;
                let due: u128 = available / period;
                let lag: u64 = (available % period) as u64;
                proof {
                    lemma_room_for_one_period(before);
                }
                let room: u64 = (u64::MAX - self.time) / self.update_period - 1;
                let budget: u64 = if self.max_ticks as u64 <= room {
                    self.max_ticks as u64
                } else {
                    room
                };
                let ticks: u64 = if due <= budget as u128 {
                    due as u64
                } else {
                    budget
                };
                proof {
                    lemma_budget_fits(before, ticks as nat);
                    lemma_discard_fits(before, now as nat, ticks as nat);
                }
                let advance: u64 = ticks * self.update_period;
                let discarded: u128 = (due - ticks as u128) * period;
                let batch = TickBatch {
                    ticks_to_run: ticks as u32,
                    start_time: self.time,
                    lag,
                    discarded,
                };
                *self = SimulationClock {
                    last_frame_time: Some(last + elapsed),
                    time: self.time + advance,
                    accumulator: lag,
                    ticks_processed: self.ticks_processed + ticks,
                    ..*self
                };
                batch
            },
        }
    }

    /// Moves the clock to `now` without accumulating the time that elapsed.
    pub fn resync(&mut self, now: u64)
        ensures
            final(self)@ == old(self)@.resync(now as nat),
    {
        proof {
            use_type_invariant(&*self);
        }
        *self = SimulationClock { last_frame_time: Some(now), ..*self };
    }

    /// Starts simulated time over from zero and empties the accumulator.
    pub fn reset(&mut self)
        ensures
            final(self)@ == old(self)@.reset(),
    {
        proof {
            use_type_invariant(&*self);
        }
        *self = SimulationClock { time: 0, accumulator: 0, ticks_processed: 0, ..*self };
    }
}

/// A well-formed clock always has room for one more period of simulated time.
proof fn lemma_room_for_one_period(c: ClockView)
    requires
        c.wf(),
    ensures
        (max_nanos() - c.time) / (c.update_period as int) >= 1,
{
    let p = c.update_period as int;
    let span = max_nanos() - c.time;
    vstd::arithmetic::div_mod::lemma_fundamental_div_mod(span, p);
    vstd::arithmetic::div_mod::lemma_mod_bound(span, p);
    assert(span / p >= 1) by (nonlinear_arith)
        requires
            span == p * (span / p) + span % p,
            0 <= span % p < p,
            span >= p,
            p > 0,
    ;
}

/// Within the tick budget, simulated time stays in range with a period to spare,
/// and so does the tick counter.
proof fn lemma_budget_fits(c: ClockView, ticks: nat)
    requires
        c.wf(),
        ticks <= c.tick_budget(),
    ensures
        ticks <= c.max_ticks,
        c.time + ticks * c.update_period + c.update_period <= max_nanos(),
        c.ticks_processed + ticks <= max_nanos(),
        (c.ticks_processed + ticks) * c.update_period == c.time + ticks * c.update_period,
{
    let p = c.update_period as int;
    let span = max_nanos() - c.time;
    let room = span / p;
    assert(room * p <= span) by {
        vstd::arithmetic::div_mod::lemma_fundamental_div_mod(span, p);
        vstd::arithmetic::div_mod::lemma_mod_bound(span, p);
    }
    lemma_room_for_one_period(c);
    assert((ticks + 1) * p <= room * p) by (nonlinear_arith)
        requires
            ticks + 1 <= room,
            p > 0,
    ;
    assert((ticks + 1) * p == ticks * p + p) by (nonlinear_arith);
    assert((c.ticks_processed + ticks) * p == c.ticks_processed * p + ticks * p)
        by (nonlinear_arith);
    assert(c.ticks_processed + ticks <= (c.ticks_processed + ticks) * p) by (nonlinear_arith)
        requires
            p >= 1,
    ;
}

/// The time that a tick limit cuts off is no more than what was available.
proof fn lemma_discard_fits(c: ClockView, now: nat, ticks: nat)
    requires
        c.wf(),
        ticks <= c.ticks_due(now),
    ensures
        (c.ticks_due(now) - ticks) * c.update_period <= c.available(now),
        c.available(now) % c.update_period < c.update_period,
{
    let p = c.update_period as int;
    let a = c.available(now) as int;
    vstd::arithmetic::div_mod::lemma_fundamental_div_mod(a, p);
    vstd::arithmetic::div_mod::lemma_mod_bound(a, p);
    assert((a / p - ticks) * p <= (a / p) * p) by (nonlinear_arith)
        requires
            ticks >= 0,
            p > 0,
    ;
    assert((a / p) * p == p * (a / p)) by (nonlinear_arith);
}

} // verus!
