//! Frame-rate measurement and throttling.

use vstd::prelude::*;

verus! {

/// Nanoseconds in one second.
pub const NANOS_PER_SEC: u64 = 1_000_000_000;

/// The smaller of `a + b` and the largest representable instant.
pub open spec fn saturating_sum(a: nat, b: nat) -> nat {
    if a + b <= u64::MAX {
        a + b
    } else {
        u64::MAX as nat
    }
}

/// `b - a`, or zero if `b` lies before `a`.
pub open spec fn time_since(a: nat, b: nat) -> nat {
    if b >= a {
        (b - a) as nat
    } else {
        0
    }
}

/// The successor of a 64-bit counter, which starts over from zero after
/// its largest value.
pub open spec fn next_count(count: nat) -> nat {
    if count >= u64::MAX {
        0
    } else {
        count + 1
    }
}

/// Misuse of a component that can only be started once.
#[derive(Clone, Copy, Debug, PartialEq, Eq, Structural)]
pub enum FrameError {
    /// `start` was called on a component that had already been started.
    AlreadyStarted,
}

/// The frame rate that a throttle aims for.
#[derive(Clone, Copy, Debug, PartialEq, Eq, Structural)]
pub enum TargetFrameRate {
    /// No throttling: every frame starts as soon as the last one is done.
    Unlimited,
    /// At most this many frames per second.
    FramePerSeconds(u32),
}

impl TargetFrameRate {
    /// Time allotted to one frame, in nanoseconds: nothing when unlimited, a
    /// second divided by the rate (rounded down) otherwise, and the longest
    /// representable duration for a rate of zero.
    pub open spec fn period(self) -> nat {
        match self {
            TargetFrameRate::Unlimited => 0,
            TargetFrameRate::FramePerSeconds(fps) => if fps == 0 {
                u64::MAX as nat
            } else {
                (NANOS_PER_SEC as nat) / (fps as nat)
            },
        }
    }

    /// Time allotted to one frame, in nanoseconds.
    pub fn target_frame_duration(&self) -> (duration: u64)
        ensures
            duration == self.period(),
    {
        match self {
            TargetFrameRate::Unlimited => 0,
            TargetFrameRate::FramePerSeconds(fps) => if *fps == 0 {
                u64::MAX
            } else {
                NANOS_PER_SEC / (*fps as u64)
            },
        }
    }
}

/// Mathematical state of a [`FrameRateThrottle`].
pub struct ThrottleView {
    /// The rate aimed for.
    pub target_frame_rate: TargetFrameRate,
    /// Whether a first frame has seeded the deadline.
    pub started: bool,
    /// Instant before which the next frame should not begin.
    pub next_deadline: nat,
    /// Whether the loop should sleep until the deadline.
    pub waiting: bool,
}

impl ThrottleView {
    /// Whether the deadline fits the machine type that holds it.
    pub open spec fn in_range(self) -> bool {
        self.next_deadline <= u64::MAX
    }

    /// The state after `start` at `now` on a throttle that has not started.
    pub open spec fn start(self, now: nat) -> ThrottleView {
        ThrottleView { started: true, next_deadline: now, waiting: true, ..self }
    }

    /// Whether a frame boundary at `now` is late: more than one period has
    /// passed since the deadline.
    pub open spec fn is_late(self, now: nat) -> bool {
        now >= self.next_deadline && now - self.next_deadline > self.target_frame_rate.period()
    }

    /// The state after a frame boundary at `now`.
    ///
    /// Nothing changes when the rate is unlimited, nor when `now` lies before
    /// the deadline. The first boundary seeds the deadline with `now`. A late
    /// boundary moves the deadline to `now` and stops waiting; any other
    /// advances the deadline by one period and waits for it.
    pub open spec fn frame(self, now: nat) -> ThrottleView {
        if self.target_frame_rate is Unlimited {
            self
        } else if !self.started {
            self.start(now)
        } else if now < self.next_deadline {
            self
        } else if self.is_late(now) {
            ThrottleView { next_deadline: now, waiting: false, ..self }
        } else {
            ThrottleView {
                next_deadline: saturating_sum(
                    self.next_deadline,
                    self.target_frame_rate.period(),
                ),
                waiting: true,
                ..self
            }
        }
    }

    /// The instant to sleep until, or `None` to go on at once.
    pub open spec fn wait_until(self) -> Option<nat> {
        if self.target_frame_rate is Unlimited || !self.waiting {
            None
        } else {
            Some(self.next_deadline)
        }
    }

    /// The state after a frame boundary at each instant of `samples`, in order.
    pub open spec fn frame_all(self, samples: Seq<nat>) -> ThrottleView
        decreases samples.len(),
    {
        if samples.len() == 0 {
            self
        } else {
            self.frame_all(samples.drop_last()).frame(samples.last())
        }
    }

    /// The state after `count` frame boundaries, each exactly on the deadline
    /// that the one before it set.
    pub open spec fn frames_on_deadline(self, count: nat) -> ThrottleView
        decreases count,
    {
        if count == 0 {
            self
        } else {
            let before = self.frames_on_deadline((count - 1) as nat);
            before.frame(before.next_deadline)
        }
    }
}

/// Decides, frame by frame, whether the loop sleeps until a deadline or runs
/// on at once to catch up.
#[derive(Clone, Copy, Debug)]
pub struct FrameRateThrottle {
    target_frame_rate: TargetFrameRate,
    started: bool,
    next_frame_time: u64,
    wait: bool,
}

impl View for FrameRateThrottle {
    type V = ThrottleView;

    closed spec fn view(&self) -> ThrottleView {
        ThrottleView {
            target_frame_rate: self.target_frame_rate,
            started: self.started,
            next_deadline: self.next_frame_time as nat,
            waiting: self.wait,
        }
    }
}

impl FrameRateThrottle {
    /// The state of a throttle fits its machine types.
    pub proof fn lemma_view(self)
        ensures
            self@.in_range(),
    {
    }

    /// An unlimited throttle that has not started.
    pub fn new() -> (throttle: FrameRateThrottle)
        ensures
            throttle@ == (ThrottleView {
                target_frame_rate: TargetFrameRate::Unlimited,
                started: false,
                next_deadline: 0,
                waiting: false,
            }),
    {
        FrameRateThrottle {
            target_frame_rate: TargetFrameRate::Unlimited,
            started: false,
            next_frame_time: 0,
            wait: false,
        }
    }

    /// Replaces the rate aimed for; deadline and waiting state stay as they are.
    pub fn set_target_frame_rate(&mut self, target_frame_rate: TargetFrameRate)
        ensures
            final(self)@ == (ThrottleView { target_frame_rate, ..old(self)@ }),
    {
        self.target_frame_rate = target_frame_rate;
    }

    /// Seeds the deadline with `now`. A throttle starts once: a second start is
    /// refused and changes nothing.
    pub fn start(&mut self, now: u64) -> (started: Result<(), FrameError>)
        ensures
            started is Err <==> old(self)@.started,
            started matches Err(e) ==> e == FrameError::AlreadyStarted && final(self)@ == old(
                self,
            )@,
            started is Ok ==> final(self)@ == old(self)@.start(now as nat),
    {
        if self.started {
            return Err(FrameError::AlreadyStarted);
        }
        self.started = true;
        self.next_frame_time = now;
        self.wait = true;
        Ok(())
    }

    /// Records a frame boundary at `now`.
    pub fn frame(&mut self, now: u64)
        ensures
            final(self)@ == old(self)@.frame(now as nat),
    {
        match self.target_frame_rate {
            TargetFrameRate::Unlimited => {
                return ;
            },
            _ => {},
        }
        if !self.started {
            self.started = true;
            self.next_frame_time = now;
            self.wait = true;
            return ;
        }
        if now < self.next_frame_time {
            return ;
        }
        let frame_duration: u64 = now - self.next_frame_time;
        let target_frame_duration: u64 = self.target_frame_rate.target_frame_duration();
        if frame_duration > target_frame_duration {
            self.wait = false;
            self.next_frame_time = now;
        } else {
            self.wait = true;
            self.next_frame_time = self.next_frame_time.saturating_add(target_frame_duration);
        }
    }

    /// The instant to sleep until before the next frame, or `None` if the
    /// loop should go on at once: always when the rate is unlimited, and
    /// after a late frame.
    pub fn wait_until(&self) -> (deadline: Option<u64>)
        ensures
            deadline is Some <==> self@.wait_until() is Some,
            deadline matches Some(t) ==> self@.wait_until() == Some(t as nat),
    {
        match self.target_frame_rate {
            TargetFrameRate::Unlimited => {
                return None;
            },
            _ => {},
        }
        if self.wait {
            Some(self.next_frame_time)
        } else {
            None
        }
    }
}

/// A throttle whose frames all fall exactly on their deadlines keeps waiting,
/// and after `count` such frames the deadline lies exactly `count` periods
/// after where it started: single frames add no drift. The deadlines must
/// stay within the representable range of instants.
pub proof fn lemma_on_deadline_no_drift(t: ThrottleView, count: nat)
    requires
        t.target_frame_rate is FramePerSeconds,
        t.started,
        t.next_deadline + count * t.target_frame_rate.period() <= u64::MAX,
    ensures
        t.frames_on_deadline(count).target_frame_rate == t.target_frame_rate,
        t.frames_on_deadline(count).started,
        t.frames_on_deadline(count).next_deadline == t.next_deadline + count
            * t.target_frame_rate.period(),
        count > 0 ==> t.frames_on_deadline(count).wait_until() == Some(
            t.next_deadline + count * t.target_frame_rate.period(),
        ),
    decreases count,
{
    let period = t.target_frame_rate.period();
    if count > 0 {
        let fewer = (count - 1) as nat;
        assert(count * period == fewer * period + period) by (nonlinear_arith)
            requires
                count == fewer + 1,
        ;
        lemma_on_deadline_no_drift(t, fewer);
    } else {
        assert(count * period == 0) by (nonlinear_arith)
            requires
                count == 0,
        ;
    }
}

/// The first frame of a throttled loop seeds the deadline with its own instant
/// and waits for it.
pub proof fn lemma_first_frame_seeds_deadline(t: ThrottleView, now: nat)
    requires
        t.target_frame_rate is FramePerSeconds,
        !t.started,
    ensures
        t.frame(now).started,
        t.frame(now).next_deadline == now,
        t.frame(now).wait_until() == Some(now),
{
}

/// An unlimited throttle never asks for a wait and keeps no books, whatever
/// the instants of its frames.
pub proof fn lemma_unlimited_never_waits(t: ThrottleView, samples: Seq<nat>)
    requires
        t.target_frame_rate is Unlimited,
    ensures
        t.wait_until() is None,
        t.frame_all(samples) == t,
        t.frame_all(samples).wait_until() is None,
    decreases samples.len(),
{
    if samples.len() > 0 {
        lemma_unlimited_never_waits(t, samples.drop_last());
    }
}

/// A frame that took longer than the target period puts the throttle in
/// catch-up: it asks for no wait, and the deadline is reset to the instant of
/// the late frame.
pub proof fn lemma_late_frame_catches_up(t: ThrottleView, now: nat)
    requires
        t.target_frame_rate is FramePerSeconds,
        t.started,
        now > t.next_deadline + t.target_frame_rate.period(),
    ensures
        t.frame(now).wait_until() is None,
        t.frame(now).next_deadline == now,
{
}

/// Number of frame durations that the frame counter averages over.
pub const SAMPLE_COUNT: usize = 5;

/// Sum of the durations in `samples`.
pub open spec fn total_of(samples: Seq<u64>) -> nat
    decreases samples.len(),
{
    if samples.len() == 0 {
        0
    } else {
        total_of(samples.drop_last()) + samples.last() as nat
    }
}

/// Mathematical state of a [`FrameCount`].
pub struct FrameCountView {
    /// Whether a first frame boundary has been seen.
    pub started: bool,
    /// Instant of the last frame boundary.
    pub last_frame_time: nat,
    /// Number of frames measured since the start.
    pub frame_count: nat,
    /// The last frame durations, each in the slot that its frame number
    /// selects.
    pub samples: Seq<u64>,
}

impl FrameCountView {
    /// Whether the counter holds one sample per slot and every quantity fits
    /// the machine type that holds it.
    pub open spec fn in_range(self) -> bool {
        &&& self.samples.len() == SAMPLE_COUNT
        &&& self.last_frame_time <= u64::MAX
        &&& self.frame_count <= u64::MAX
    }

    /// The slot that receives the duration of frame number `frame_count`.
    pub open spec fn slot(frame_count: nat) -> int {
        (frame_count % (SAMPLE_COUNT as nat)) as int
    }

    /// The state after `start` at `now` on a counter that has not started.
    pub open spec fn start(self, now: nat) -> FrameCountView {
        FrameCountView { started: true, last_frame_time: now, frame_count: 0, ..self }
    }

    /// The state after a frame boundary at `now`: the first one starts the
    /// counter, every later one stores the time since the last boundary in
    /// the slot of the new frame number, over the oldest sample.
    pub open spec fn frame(self, now: nat) -> FrameCountView {
        if !self.started {
            self.start(now)
        } else {
            let duration = time_since(self.last_frame_time, now);
            let frame_count = next_count(self.frame_count);
            FrameCountView {
                started: true,
                last_frame_time: self.last_frame_time + duration,
                frame_count,
                samples: self.samples.update(Self::slot(frame_count), duration as u64),
            }
        }
    }

    /// The state after `count` frame boundaries, each `interval` after the one
    /// before it.
    pub open spec fn frames_every(self, interval: nat, count: nat) -> FrameCountView
        decreases count,
    {
        if count == 0 {
            self
        } else {
            let before = self.frames_every(interval, (count - 1) as nat);
            before.frame(before.last_frame_time + interval)
        }
    }

    /// Sum of the stored frame durations.
    pub open spec fn sample_total(self) -> nat {
        total_of(self.samples)
    }

    /// Mean of the stored frame durations, rounded down.
    pub open spec fn average_frame_duration(self) -> nat {
        self.sample_total() / (SAMPLE_COUNT as nat)
    }

    /// Thousandths of a frame per second at the mean stored frame duration,
    /// rounded down; `None` while the stored durations add up to nothing.
    pub open spec fn milli_frame_per_seconds(self) -> Option<nat> {
        if self.sample_total() == 0 {
            None
        } else {
            Some((SAMPLE_COUNT as nat) * 1000 * (NANOS_PER_SEC as nat) / self.sample_total())
        }
    }
}

/// Once a full window of frames has come in at one steady interval, every
/// sample is that interval, whatever the window held before: the estimator
/// reads the interval as the mean frame duration, and a second divided by it
/// as the rate.
pub proof fn lemma_steady_frames(c: FrameCountView, interval: u64)
    requires
        c.started,
        c.in_range(),
        c.frame_count + SAMPLE_COUNT <= u64::MAX,
    ensures
        ({
            let after = c.frames_every(interval as nat, SAMPLE_COUNT as nat);
            &&& after.samples == Seq::new(SAMPLE_COUNT as nat, |i: int| interval)
            &&& after.frame_count == c.frame_count + SAMPLE_COUNT
            &&& after.last_frame_time == c.last_frame_time + SAMPLE_COUNT * interval
            &&& after.sample_total() == SAMPLE_COUNT * interval
            &&& after.average_frame_duration() == interval
            &&& interval > 0 ==> after.milli_frame_per_seconds() == Some(
                1000 * (NANOS_PER_SEC as nat) / (interval as nat),
            )
        }),
{
    let d = interval as nat;
    let c1 = c.frames_every(d, 1);
    let c2 = c.frames_every(d, 2);
    let c3 = c.frames_every(d, 3);
    let c4 = c.frames_every(d, 4);
    let c5 = c.frames_every(d, 5);
    assert(c.frames_every(d, 0) == c);
    assert(c1 == c.frame(c.last_frame_time + d));
    assert(c2 == c1.frame(c1.last_frame_time + d));
    assert(c3 == c2.frame(c2.last_frame_time + d));
    assert(c4 == c3.frame(c3.last_frame_time + d));
    assert(c5 == c4.frame(c4.last_frame_time + d));
    let steady = Seq::new(SAMPLE_COUNT as nat, |i: int| interval);
    assert(c5.samples =~= steady);
    lemma_total_of_five(steady);
    if interval > 0 {
        vstd::arithmetic::div_mod::lemma_div_multiples_vanish_quotient(
            5,
            1000 * (NANOS_PER_SEC as int),
            interval as int,
        );
    }
}

/// The total of five samples is their sum.
proof fn lemma_total_of_five(samples: Seq<u64>)
    requires
        samples.len() == 5,
    ensures
        total_of(samples) == samples[0] + samples[1] + samples[2] + samples[3] + samples[4],
{
    let four = samples.drop_last();
    let three = four.drop_last();
    let two = three.drop_last();
    let one = two.drop_last();
    assert(total_of(one.drop_last()) == 0);
    assert(total_of(one) == samples[0]);
    assert(total_of(two) == samples[0] + samples[1]);
    assert(total_of(three) == samples[0] + samples[1] + samples[2]);
    assert(total_of(four) == samples[0] + samples[1] + samples[2] + samples[3]);
}

/// Measures the realised frame rate as a moving average over the last
/// [`SAMPLE_COUNT`] frame durations.
#[derive(Clone, Copy, Debug)]
pub struct FrameCount {
    last_frame_time: u64,
    frame_count: u64,
    samples: [u64; 5],
    started: bool,
}

impl View for FrameCount {
    type V = FrameCountView;

    closed spec fn view(&self) -> FrameCountView {
        FrameCountView {
            started: self.started,
            last_frame_time: self.last_frame_time as nat,
            frame_count: self.frame_count as nat,
            samples: self.samples@,
        }
    }
}

impl FrameCount {
    /// The state of a counter fits its machine types.
    pub proof fn lemma_view(self)
        ensures
            self@.in_range(),
    {
        broadcast use vstd::array::group_array_axioms;

    }

    /// A counter that has not started, with every sample at zero.
    pub fn new() -> (counter: FrameCount)
        ensures
            counter@ == (FrameCountView {
                started: false,
                last_frame_time: 0,
                frame_count: 0,
                samples: Seq::new(SAMPLE_COUNT as nat, |i: int| 0u64),
            }),
    {
        let counter = FrameCount {
            last_frame_time: 0,
            frame_count: 0,
            samples: [0u64;5],
            started: false,
        };
        proof {
            broadcast use vstd::array::group_array_axioms;

            assert(counter.samples@ =~= Seq::new(SAMPLE_COUNT as nat, |i: int| 0u64));
        }
        counter
    }

    /// Takes `now` as the first frame boundary. A counter starts once: a
    /// second start is refused and changes nothing.
    pub fn start(&mut self, now: u64) -> (started: Result<(), FrameError>)
        ensures
            started is Err <==> old(self)@.started,
            started matches Err(e) ==> e == FrameError::AlreadyStarted && final(self)@ == old(
                self,
            )@,
            started is Ok ==> final(self)@ == old(self)@.start(now as nat),
    {
        if self.started {
            return Err(FrameError::AlreadyStarted);
        }
        self.last_frame_time = now;
        self.frame_count = 0;
        self.started = true;
        Ok(())
    }

    /// Records a frame boundary at `now`.
    pub fn frame(&mut self, now: u64)
        ensures
            final(self)@ == old(self)@.frame(now as nat),
            final(self)@.samples.len() == SAMPLE_COUNT,
    {
        if !self.started {
            self.last_frame_time = now;
            self.frame_count = 0;
            self.started = true;
            return ;
        }
        let frame_duration: u64 = if now >= self.last_frame_time {
            now - self.last_frame_time
        } else {
            0
        };
        let frame_count: u64 = if self.frame_count == u64::MAX {
            0
        } else {
            self.frame_count + 1
        };
        let slot: usize = (frame_count % 5) as usize;
        let mut samples = self.samples;
        samples[slot] = frame_duration;
        self.frame_count = frame_count;
        self.samples = samples;
        self.last_frame_time = self.last_frame_time + frame_duration;
    }

    /// Number of frames measured since the start.
    pub fn frame_count(&self) -> (count: u64)
        ensures
            count == self@.frame_count,
    {
        self.frame_count
    }

    /// Sum of the stored frame durations, in nanoseconds.
    pub fn sample_total(&self) -> (total: u128)
        ensures
            total == self@.sample_total(),
            total <= SAMPLE_COUNT * u64::MAX,
    {
        let mut total: u128 = 0;
        let mut i: usize = 0;
        while i < 5
            invariant
                i <= 5,
                total == total_of(self.samples@.take(i as int)),
                total <= i * u64::MAX,
            decreases 5 - i,
        {
            proof {
                let longer = self.samples@.take(i + 1);
                assert(longer.drop_last() == self.samples@.take(i as int));
                assert(longer.last() == self.samples@[i as int]);
            }
            total = total + self.samples[i] as u128;
            i = i + 1;
        }
        proof {
            assert(self.samples@.take(5) == self.samples@);
        }
        total
    }

    /// Mean of the stored frame durations, in nanoseconds, rounded down.
    pub fn average_frame_duration(&self) -> (average: u64)
        ensures
            average == self@.average_frame_duration(),
    {
        let total = self.sample_total();
        (total / 5) as u64
    }

    /// The realised frame rate in thousandths of a frame per second, or
    /// `None` while the stored durations add up to nothing.
    pub fn milli_frame_per_seconds(&self) -> (rate: Option<u64>)
        ensures
            rate is Some <==> self@.milli_frame_per_seconds() is Some,
            rate matches Some(r) ==> self@.milli_frame_per_seconds() == Some(r as nat),
    {
        let total = self.sample_total();
        if total == 0 {
            None
        } else {
            Some((5_000_000_000_000u128 / total) as u64)
        }
    }
}

} // verus!
