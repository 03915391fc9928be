//! The executable loop controller.

use crate::game_loop::event::{
    Action,
    ControlFlow,
    GameSetup,
    GameStats,
    Key,
    LoopError,
    LoopEvent,
    Phase,
    StartCause,
};
use crate::game_loop::model::{bump, LoopView};
use crate::utility::clock::{ClockError, SimulationClock};
use crate::utility::frame::{time_since, FrameCount, FrameRateThrottle};
use vstd::prelude::*;

verus! {

/// `now - start`, or zero if `now` lies before `start`.
fn elapsed_between(start: u64, now: u64) -> (elapsed: u64)
    ensures
        elapsed == time_since(start as nat, now as nat),
{
    if now >= start {
        now - start
    } else {
        0
    }
}

/// The successor of a counter that starts over after its largest value.
fn bumped(count: u64) -> (next: u64)
    ensures
        next == bump(count),
{
    if count == u64::MAX {
        0
    } else {
        count + 1
    }
}

/// Sequences the phases of a game loop: events, fixed updates, variable
/// update, render, stats and pacing.
#[derive(Clone, Copy, Debug)]
pub struct LoopController {
    redraw_on_resize: bool,
    clock: SimulationClock,
    frame_count: FrameCount,
    throttle: FrameRateThrottle,
    frame_id: u64,
    loop_start_time: u64,
    stats: GameStats,
    suppress_resize: bool,
    invalidated: bool,
    resized: bool,
    minimized: bool,
    flow: ControlFlow,
    phase: Phase,
    phase_start: u64,
}

impl View for LoopController {
    type V = LoopView;

    closed spec fn view(&self) -> LoopView {
        LoopView {
            redraw_on_resize: self.redraw_on_resize,
            clock: self.clock@,
            frame_count: self.frame_count@,
            throttle: self.throttle@,
            frame_id: self.frame_id,
            loop_start_time: self.loop_start_time,
            stats: self.stats,
            suppress_resize: self.suppress_resize,
            invalidated: self.invalidated,
            resized: self.resized,
            minimized: self.minimized,
            flow: self.flow,
            phase: self.phase,
            phase_start: self.phase_start,
        }
    }
}

impl LoopController {
    /// Holds of every controller at every point of a program.
    #[verifier::type_invariant]
    pub open spec fn inv(self) -> bool {
        self@.wf()
    }

    /// A controller for a loop that is about to begin: idle and polling, with
    /// nothing counted, nothing measured and no flag raised.
    pub fn new(setup: GameSetup) -> (controller: Result<LoopController, ClockError>)
        ensures
            controller is Ok <==> setup.update_period > 0,
            controller matches Err(e) ==> e == ClockError::ZeroPeriod,
            controller matches Ok(c) ==> c@ == LoopView::initial(setup),
    {
        let mut clock = match SimulationClock::new(setup.update_period) {
            Ok(clock) => clock,
            Err(e) => {
                return Err(e);
            },
        };
        clock.set_max_ticks(setup.max_ticks);
        let frame_count = FrameCount::new();
        let mut throttle = FrameRateThrottle::new();
        throttle.set_target_frame_rate(setup.target_frame_rate);
        proof {
            use_type_invariant(&clock);
            clock.lemma_view();
            frame_count.lemma_view();
            throttle.lemma_view();
        }
        Ok(
            LoopController {
                redraw_on_resize: setup.redraw_on_resize,
                clock,
                frame_count,
                throttle,
                frame_id: 0,
                loop_start_time: 0,
                stats: GameStats {
                    frame_id: 0,
                    frame_duration: 0,
                    time: 0,
                    accumulator: 0,
                    loop_duration: 0,
                    event: 0,
                    update: 0,
                    render: 0,
                    event_count: 0,
                    total_event_count: 0,
                },
                suppress_resize: false,
                invalidated: false,
                resized: false,
                minimized: false,
                flow: ControlFlow::Poll,
                phase: Phase::Idle,
                phase_start: 0,
            },
        )
    }

    /// The scheduling directive in force.
    pub fn flow(&self) -> (flow: ControlFlow)
        ensures
            flow == self@.flow,
    {
        self.flow
    }

    /// The hook in flight.
    pub fn phase(&self) -> (phase: Phase)
        ensures
            phase == self@.phase,
    {
        self.phase
    }

    /// Telemetry of the current iteration, as far as it has been measured.
    pub fn stats(&self) -> (stats: GameStats)
        ensures
            stats == self@.stats,
    {
        self.stats
    }

    /// Whether the window is minimized.
    pub fn is_minimized(&self) -> (minimized: bool)
        ensures
            minimized == self@.minimized,
    {
        self.minimized
    }

    /// Whether an update and render pass is due in this iteration.
    pub fn is_invalidated(&self) -> (invalidated: bool)
        ensures
            invalidated == self@.invalidated,
    {
        self.invalidated
    }

    /// Whether the window was resized in this iteration.
    pub fn is_resized(&self) -> (resized: bool)
        ensures
            resized == self@.resized,
    {
        self.resized
    }

    /// The simulation clock.
    pub fn clock(&self) -> (clock: &SimulationClock)
        ensures
            clock@ == self@.clock,
    {
        &self.clock
    }

    /// The frame-rate estimator.
    pub fn frame_count(&self) -> (frame_count: &FrameCount)
        ensures
            frame_count@ == self@.frame_count,
    {
        &self.frame_count
    }

    /// The frame-rate throttle.
    pub fn throttle(&self) -> (throttle: &FrameRateThrottle)
        ensures
            throttle@ == self@.throttle,
    {
        &self.throttle
    }

    fn idle(self) -> (step: (LoopController, Action))
        ensures
            (step.0@, step.1) == self@.idle(),
    {
        proof {
            use_type_invariant(&self);
        }
        (LoopController { phase: Phase::Idle, ..self }, Action::Return(self.flow))
    }

    fn counted(self) -> (counted: LoopController)
        requires
            self@.phase is Idle,
        ensures
            counted@ == self@.counted(),
    {
        proof {
            use_type_invariant(&self);
        }
        LoopController {
            stats: GameStats {
                event_count: bumped(self.stats.event_count),
                total_event_count: bumped(self.stats.total_event_count),
                ..self.stats
            },
            ..self
        }
    }

    fn exiting(self) -> (exiting: LoopController)
        ensures
            exiting@ == self@.exiting(),
    {
        proof {
            use_type_invariant(&self);
        }
        LoopController { flow: ControlFlow::Exit, ..self }
    }

    fn new_events(self, cause: StartCause, now: u64) -> (step: (LoopController, Action))
        requires
            self@.phase is Idle,
        ensures
            (step.0@, step.1) == self@.new_events(cause, now),
    {
        proof {
            use_type_invariant(&self);
        }
        let stats = GameStats { event: 0, ..self.stats };
        match cause {
            StartCause::Init => {
                let mut clock = self.clock;
                clock.reset();
                proof {
                    use_type_invariant(&clock);
                    clock.lemma_view();
                }
                (
                    LoopController {
                        suppress_resize: true,
                        invalidated: true,
                        resized: false,
                        loop_start_time: now,
                        stats,
                        clock,
                        phase: Phase::Init,
                        ..self
                    },
                    Action::Init,
                )
            },
            StartCause::WaitCancelled => (
                LoopController {
                    suppress_resize: false,
                    invalidated: false,
                    resized: false,
                    loop_start_time: now,
                    stats,
                    phase: Phase::Start,
                    ..self
                },
                Action::Start,
            ),
            _ => (
                LoopController {
                    suppress_resize: false,
                    invalidated: true,
                    resized: false,
                    loop_start_time: now,
                    stats,
                    phase: Phase::Start,
                    ..self
                },
                Action::Start,
            ),
        }
    }

    fn dispatch(self, resize: bool, now: u64) -> (step: (LoopController, Action))
        requires
            self@.phase is Idle,
        ensures
            (step.0@, step.1) == self@.dispatch(resize, now),
    {
        proof {
            use_type_invariant(&self);
        }
        (LoopController { phase: Phase::Event { resize }, phase_start: now, ..self }, Action::Event)
    }

    fn resize(self, width: u32, height: u32, now: u64) -> (step: (LoopController, Action))
        requires
            self@.phase is Idle,
        ensures
            (step.0@, step.1) == self@.resize(width, height, now),
    {
        proof {
            use_type_invariant(&self);
        }
        let minimized = width == 0 && height == 0;
        if self.suppress_resize {
            LoopController { minimized, suppress_resize: false, ..self }.dispatch(false, now)
        } else {
            LoopController { minimized, resized: true, ..self }.dispatch(true, now)
        }
    }

    fn variable_update(self) -> (step: (LoopController, Action))
        requires
            !(self@.phase is Destroy),
            !(self@.phase is Destroyed),
        ensures
            (step.0@, step.1) == self@.variable_update(),
    {
        proof {
            use_type_invariant(&self);
            use_type_invariant(&self.clock);
            self.clock.lemma_view();
        }
        let time = self.clock.time() + self.clock.accumulator();
        (LoopController { phase: Phase::Update, ..self }, Action::Update { time })
    }

    fn updates_done(self, now: u64) -> (step: (LoopController, Action))
        ensures
            (step.0@, step.1) == self@.updates_done(now),
    {
        proof {
            use_type_invariant(&self);
        }
        LoopController {
            stats: GameStats { update: elapsed_between(self.phase_start, now), ..self.stats },
            ..self
        }.idle()
    }

    fn request_redraw(self, now: u64) -> (step: (LoopController, Action))
        requires
            !(self@.phase is Destroy),
            !(self@.phase is Destroyed),
        ensures
            (step.0@, step.1) == self@.request_redraw(now),
    {
        proof {
            use_type_invariant(&self);
        }
        let redraw = self.invalidated || (self.redraw_on_resize && self.resized);
        if redraw && !self.minimized {
            (LoopController { phase: Phase::RequestRedraw, ..self }, Action::RequestRedraw)
        } else {
            self.updates_done(now)
        }
    }

    fn main_events_cleared(self, now: u64) -> (step: (LoopController, Action))
        requires
            self@.phase is Idle,
        ensures
            (step.0@, step.1) == self@.main_events_cleared(now),
    {
        proof {
            use_type_invariant(&self);
            use_type_invariant(&self.clock);
            self.clock.lemma_view();
        }
        let frame_id = bumped(self.frame_id);
        let frame_duration = self.clock.elapsed(now);
        let start_time = self.clock.time();
        let dt = self.clock.update_period();
        let mut clock = self.clock;
        let mut ticks: u32 = 0;
        if self.invalidated {
            let batch = clock.tick(now);
            ticks = batch.ticks_to_run;
        } else {
            clock.resync(now);
        }
        proof {
            use_type_invariant(&clock);
            clock.lemma_view();
        }
        let updating = LoopController {
            clock,
            frame_id,
            stats: GameStats {
                frame_id,
                frame_duration,
                time: clock.time(),
                accumulator: clock.accumulator(),
                ..self.stats
            },
            phase_start: now,
            ..self
        };
        if !self.invalidated {
            updating.request_redraw(now)
        } else if ticks > 0 {
            proof {
                crate::utility::clock::lemma_tick(self.clock@, now as nat);
                lemma_pending_updates(start_time as nat, dt as nat, ticks as nat);
            }
            (
                LoopController {
                    phase: Phase::FixedUpdate { remaining: ticks - 1, next_time: start_time + dt },
                    ..updating
                },
                Action::UpdateFixedStep { time: start_time, dt },
            )
        } else {
            updating.variable_update()
        }
    }

    fn redraw_requested(self, now: u64) -> (step: (LoopController, Action))
        requires
            self@.phase is Idle,
        ensures
            (step.0@, step.1) == self@.redraw_requested(now),
    {
        proof {
            use_type_invariant(&self);
        }
        let redraw = self.invalidated || (self.redraw_on_resize && self.resized);
        if redraw && !self.minimized {
            (
                LoopController { phase: Phase::Render, phase_start: now, ..self },
                Action::Render { lag: self.clock.accumulator(), dt: self.clock.update_period() },
            )
        } else {
            LoopController { stats: GameStats { render: 0, ..self.stats }, ..self }.idle()
        }
    }

    fn redraw_events_cleared(self, now: u64) -> (step: (LoopController, Action))
        requires
            self@.phase is Idle,
        ensures
            (step.0@, step.1) == self@.redraw_events_cleared(now),
    {
        proof {
            use_type_invariant(&self);
        }
        let stats = GameStats {
            loop_duration: elapsed_between(self.loop_start_time, now),
            ..self.stats
        };
        (LoopController { stats, phase: Phase::Stats, ..self }, Action::Stats(stats))
    }

    fn pace(self, now: u64) -> (step: (LoopController, Action))
        ensures
            (step.0@, step.1) == self@.pace(now),
    {
        proof {
            use_type_invariant(&self);
        }
        if self.invalidated && !self.minimized {
            let mut frame_count = self.frame_count;
            frame_count.frame(now);
            let mut throttle = self.throttle;
            throttle.frame(now);
            let flow = match self.flow {
                ControlFlow::Exit => ControlFlow::Exit,
                _ => match throttle.wait_until() {
                    Some(deadline) => ControlFlow::WaitUntil(deadline),
                    None => ControlFlow::Poll,
                },
            };
            proof {
                frame_count.lemma_view();
                throttle.lemma_view();
            }
            LoopController { frame_count, throttle, flow, ..self }.idle()
        } else {
            self.idle()
        }
    }

    /// Starts handling `event`, delivered by the platform at `now`, and
    /// returns the first action to perform for it.
    ///
    /// An event is only accepted while the controller is idle. While the
    /// event before it has not been handled to its end, and after the loop
    /// has ended, the event is refused and nothing changes.
    pub fn handle(&mut self, event: LoopEvent, now: u64) -> (action: Result<Action, LoopError>)
        ensures
            action is Ok <==> old(self)@.phase is Idle,
            action matches Ok(a) ==> (final(self)@, a) == old(self)@.handle(event, now),
            action is Err ==> final(self)@ == old(self)@,
            action matches Err(e) ==> (e == LoopError::Destroyed <==> old(self)@.phase is Destroyed),
    {
        proof {
            use_type_invariant(&*self);
        }
        match self.phase {
            Phase::Idle => {},
            Phase::Destroyed => {
                return Err(LoopError::Destroyed);
            },
            _ => {
                return Err(LoopError::Busy);
            },
        }
        let counted = self.counted();
        let (next, action) = match event {
            LoopEvent::NewEvents(cause) => counted.new_events(cause, now),
            LoopEvent::DeviceEvent => counted.dispatch(false, now),
            LoopEvent::WindowEvent => counted.dispatch(false, now),
            LoopEvent::CloseRequested => counted.exiting().dispatch(false, now),
            LoopEvent::KeyboardInput { key, pressed } => {
                let cancel = match key {
                    Key::Escape => pressed,
                    Key::Other => false,
                };
                if cancel {
                    counted.exiting().dispatch(false, now)
                } else {
                    counted.dispatch(false, now)
                }
            },
            LoopEvent::Resized { width, height } => counted.resize(width, height, now),
            LoopEvent::UserEvent => counted.idle(),
            LoopEvent::Suspended => counted.idle(),
            LoopEvent::Resumed => counted.idle(),
            LoopEvent::MainEventsCleared => counted.main_events_cleared(now),
            LoopEvent::RedrawRequested => counted.redraw_requested(now),
            LoopEvent::RedrawEventsCleared => counted.redraw_events_cleared(now),
            LoopEvent::LoopDestroyed => {
                proof {
                    use_type_invariant(&counted);
                }
                (
                    LoopController { phase: Phase::Destroy, flow: ControlFlow::Exit, ..counted },
                    Action::Destroy,
                )
            },
        };
        *self = next;
        Ok(action)
    }

    /// Returns the next action for the event being handled, given that the
    /// action returned last has been performed and that it is now `now`.
    ///
    /// Once nothing is left to do, the action is `Return` with the scheduling
    /// directive, and the controller is idle again.
    pub fn proceed(&mut self, now: u64) -> (action: Action)
        ensures
            (final(self)@, action) == old(self)@.proceed(now),
    {
        proof {
            use_type_invariant(&*self);
        }
        let current = *self;
        let (next, action) = match current.phase {
            Phase::Idle => current.idle(),
            Phase::Init => (LoopController { phase: Phase::Start, ..current }, Action::Start),
            Phase::Start => current.idle(),
            Phase::Event { resize } => {
                let spent = elapsed_between(current.phase_start, now);
                let timed = LoopController {
                    stats: GameStats {
                        event: current.stats.event.saturating_add(spent),
                        ..current.stats
                    },
                    ..current
                };
                if resize {
                    (LoopController { phase: Phase::Resized, ..timed }, Action::Resized)
                } else {
                    timed.idle()
                }
            },
            Phase::Resized => current.idle(),
            Phase::FixedUpdate { remaining, next_time } => {
                proof {
                    use_type_invariant(&current.clock);
                    current.clock.lemma_view();
                }
                let dt = current.clock.update_period();
                if remaining > 0 {
                    proof {
                        lemma_pending_updates(next_time as nat, dt as nat, remaining as nat);
                    }
                    (
                        LoopController {
                            phase: Phase::FixedUpdate {
                                remaining: remaining - 1,
                                next_time: next_time + dt,
                            },
                            ..current
                        },
                        Action::UpdateFixedStep { time: next_time, dt },
                    )
                } else {
                    current.variable_update()
                }
            },
            Phase::Update => current.request_redraw(now),
            Phase::RequestRedraw => current.updates_done(now),
            Phase::Render => LoopController {
                stats: GameStats {
                    render: elapsed_between(current.phase_start, now),
                    ..current.stats
                },
                ..current
            }.idle(),
            Phase::Stats => current.pace(now),
            Phase::Destroy => (
                LoopController { phase: Phase::Destroyed, ..current },
                Action::Return(ControlFlow::Exit),
            ),
            Phase::Destroyed => (current, Action::Return(ControlFlow::Exit)),
        };
        *self = next;
        action
    }
}

/// With `count` fixed updates pending from `start` on, the one after the
/// first starts one period later, and as many periods before the end.
proof fn lemma_pending_updates(start: nat, period: nat, count: nat)
    requires
        count > 0,
    ensures
        start + period + (count - 1) * period == start + count * period,
        start + period <= start + count * period,
{
    assert((count - 1) * period + period == count * period) by (nonlinear_arith);
    assert((count - 1) * period >= 0) by (nonlinear_arith)
        requires
            count >= 1,
    ;
}

} // verus!
