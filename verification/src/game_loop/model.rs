//! The loop controller as a mathematical state machine.

use crate::game_loop::event::{
    Action,
    ControlFlow,
    GameSetup,
    GameStats,
    Key,
    LoopEvent,
    Phase,
    StartCause,
};
use crate::utility::clock::ClockView;
use crate::utility::frame::{
    saturating_sum,
    time_since,
    FrameCountView,
    TargetFrameRate,
    ThrottleView,
    SAMPLE_COUNT,
};
use vstd::prelude::*;

verus! {

/// The successor of a 64-bit counter, which starts over from zero after its
/// largest value.
pub open spec fn bump(count: u64) -> u64 {
    if count == u64::MAX {
        0
    } else {
        (count + 1) as u64
    }
}

/// Mathematical state of a loop controller.
pub struct LoopView {
    /// Whether a resize alone makes the window redraw.
    pub redraw_on_resize: bool,
    /// The simulation clock.
    pub clock: ClockView,
    /// The frame-rate estimator.
    pub frame_count: FrameCountView,
    /// The frame-rate throttle.
    pub throttle: ThrottleView,
    /// Number of the current iteration.
    pub frame_id: u64,
    /// Instant at which the current batch of events began.
    pub loop_start_time: u64,
    /// Telemetry of the current iteration.
    pub stats: GameStats,
    /// Whether the next resize is the spurious one that follows window
    /// creation and is to be swallowed.
    pub suppress_resize: bool,
    /// Whether an update and render pass is due in this iteration.
    pub invalidated: bool,
    /// Whether the window was resized in this iteration.
    pub resized: bool,
    /// Whether the window is minimized.
    pub minimized: bool,
    /// The scheduling directive in force.
    pub flow: ControlFlow,
    /// The hook in flight.
    pub phase: Phase,
    /// Instant at which the timed part of the current event began.
    pub phase_start: u64,
}

impl LoopView {
    /// The invariant of a controller: its clock is well formed, every
    /// quantity fits its machine type, the fixed updates still pending end
    /// exactly at the simulated time that the clock has reached, and a loop
    /// that has ended asks the platform for nothing but the exit.
    pub open spec fn wf(self) -> bool {
        &&& self.clock.wf()
        &&& self.clock.in_range()
        &&& self.frame_count.in_range()
        &&& self.throttle.in_range()
        &&& self.phase matches Phase::FixedUpdate { remaining, next_time } ==> next_time
            + remaining * self.clock.update_period == self.clock.time
        &&& self.phase is Destroy || self.phase is Destroyed ==> self.flow is Exit
    }

    /// The state of a controller for a loop that is about to begin.
    pub open spec fn initial(setup: GameSetup) -> LoopView {
        LoopView {
            redraw_on_resize: setup.redraw_on_resize,
            clock: ClockView {
                update_period: setup.update_period as nat,
                max_ticks: setup.max_ticks as nat,
                last_frame_time: None,
                time: 0,
                accumulator: 0,
                ticks_processed: 0,
            },
            frame_count: FrameCountView {
                started: false,
                last_frame_time: 0,
                frame_count: 0,
                samples: Seq::new(SAMPLE_COUNT as nat, |i: int| 0u64),
            },
            throttle: ThrottleView {
                target_frame_rate: setup.target_frame_rate,
                started: false,
                next_deadline: 0,
                waiting: false,
            },
            frame_id: 0,
            loop_start_time: 0,
            stats: GameStats {
                frame_id: 0,
                frame_duration: 0,
                time: 0,
                accumulator: 0,
                loop_duration: 0,
                event: 0,
                update: 0,
                render: 0,
                event_count: 0,
                total_event_count: 0,
            },
            suppress_resize: false,
            invalidated: false,
            resized: false,
            minimized: false,
            flow: ControlFlow::Poll,
            phase: Phase::Idle,
            phase_start: 0,
        }
    }

    /// Whether a redraw is due: the iteration was invalidated, or the window
    /// was resized and resizes count.
    pub open spec fn redraw_due(self) -> bool {
        self.invalidated || (self.redraw_on_resize && self.resized)
    }

    /// The state with control handed back to the platform.
    pub open spec fn idle(self) -> (LoopView, Action) {
        (LoopView { phase: Phase::Idle, ..self }, Action::Return(self.flow))
    }

    /// The state with one more event counted.
    pub open spec fn counted(self) -> LoopView {
        LoopView {
            stats: GameStats {
                event_count: bump(self.stats.event_count),
                total_event_count: bump(self.stats.total_event_count),
                ..self.stats
            },
            ..self
        }
    }

    /// The state with the exit requested. The request is final.
    pub open spec fn exiting(self) -> LoopView {
        LoopView { flow: ControlFlow::Exit, ..self }
    }

    /// Start of a batch: the flags of the iteration are reset, and the batch
    /// is invalidated unless an event cut a wait short. The first batch also
    /// resets the clock, marks the next resize as spurious and runs the init
    /// hook before the start hook.
    pub open spec fn new_events(self, cause: StartCause, now: u64) -> (LoopView, Action) {
        let fresh = LoopView {
            suppress_resize: cause is Init,
            invalidated: !(cause is WaitCancelled),
            resized: false,
            loop_start_time: now,
            stats: GameStats { event: 0, ..self.stats },
            ..self
        };
        if cause is Init {
            (LoopView { clock: self.clock.reset(), phase: Phase::Init, ..fresh }, Action::Init)
        } else {
            (LoopView { phase: Phase::Start, ..fresh }, Action::Start)
        }
    }

    /// An input event goes to the event hook, which is timed.
    pub open spec fn dispatch(self, resize: bool, now: u64) -> (LoopView, Action) {
        (LoopView { phase: Phase::Event { resize }, phase_start: now, ..self }, Action::Event)
    }

    /// A resize records whether the window is minimized. The spurious resize
    /// after window creation is swallowed; any other marks the iteration as
    /// resized and reaches the resize hook after the event hook.
    pub open spec fn resize(self, width: u32, height: u32, now: u64) -> (LoopView, Action) {
        let minimized = width == 0 && height == 0;
        if self.suppress_resize {
            LoopView { minimized, suppress_resize: false, ..self }.dispatch(false, now)
        } else {
            LoopView { minimized, resized: true, ..self }.dispatch(true, now)
        }
    }

    /// The variable update, at simulated time plus leftover lag.
    pub open spec fn variable_update(self) -> (LoopView, Action) {
        (
            LoopView { phase: Phase::Update, ..self },
            Action::Update { time: (self.clock.time + self.clock.accumulator) as u64 },
        )
    }

    /// End of the update pass: the time it took goes to the stats.
    pub open spec fn updates_done(self, now: u64) -> (LoopView, Action) {
        LoopView {
            stats: GameStats {
                update: time_since(self.phase_start as nat, now as nat) as u64,
                ..self.stats
            },
            ..self
        }.idle()
    }

    /// After the updates a redraw is requested if one is due and the window
    /// is not minimized.
    pub open spec fn request_redraw(self, now: u64) -> (LoopView, Action) {
        if self.redraw_due() && !self.minimized {
            (LoopView { phase: Phase::RequestRedraw, ..self }, Action::RequestRedraw)
        } else {
            self.updates_done(now)
        }
    }

    /// Every event of the batch has been delivered: the iteration is
    /// numbered, and if it was invalidated the clock ticks and the fixed
    /// updates that it hands out run one by one, followed by the variable
    /// update. An iteration that was not invalidated consumes no time.
    pub open spec fn main_events_cleared(self, now: u64) -> (LoopView, Action) {
        let clock = if self.invalidated {
            self.clock.tick(now as nat)
        } else {
            self.clock.resync(now as nat)
        };
        let frame_id = bump(self.frame_id);
        let updating = LoopView {
            clock,
            frame_id,
            stats: GameStats {
                frame_id,
                frame_duration: self.clock.elapsed(now as nat) as u64,
                time: clock.time as u64,
                accumulator: clock.accumulator as u64,
                ..self.stats
            },
            phase_start: now,
            ..self
        };
        if !self.invalidated {
            updating.request_redraw(now)
        } else if self.clock.ticks_to_run(now as nat) > 0 {
            (
                LoopView {
                    phase: Phase::FixedUpdate {
                        remaining: (self.clock.ticks_to_run(now as nat) - 1) as u32,
                        next_time: (self.clock.time + self.clock.update_period) as u64,
                    },
                    ..updating
                },
                Action::UpdateFixedStep {
                    time: self.clock.time as u64,
                    dt: self.clock.update_period as u64,
                },
            )
        } else {
            updating.variable_update()
        }
    }

    /// The window should be redrawn: the render hook runs if a redraw is due
    /// and the window is not minimized.
    pub open spec fn redraw_requested(self, now: u64) -> (LoopView, Action) {
        if self.redraw_due() && !self.minimized {
            (
                LoopView { phase: Phase::Render, phase_start: now, ..self },
                Action::Render {
                    lag: self.clock.accumulator as u64,
                    dt: self.clock.update_period as u64,
                },
            )
        } else {
            LoopView { stats: GameStats { render: 0, ..self.stats }, ..self }.idle()
        }
    }

    /// End of the iteration: the stats are completed and go to the stats hook.
    pub open spec fn redraw_events_cleared(self, now: u64) -> (LoopView, Action) {
        let stats = GameStats {
            loop_duration: time_since(self.loop_start_time as nat, now as nat) as u64,
            ..self.stats
        };
        (LoopView { stats, phase: Phase::Stats, ..self }, Action::Stats(stats))
    }

    /// The directive that the throttle asks for; an exit, once requested,
    /// stays.
    pub open spec fn paced_flow(self, throttle: ThrottleView) -> ControlFlow {
        if self.flow is Exit {
            ControlFlow::Exit
        } else {
            match throttle.wait_until() {
                Some(deadline) => ControlFlow::WaitUntil(deadline as u64),
                None => ControlFlow::Poll,
            }
        }
    }

    /// Pacing: an iteration that was invalidated, with the window not
    /// minimized, counts as a frame for the estimator and the throttle, and
    /// the throttle sets the directive. Any other leaves all three alone.
    pub open spec fn pace(self, now: u64) -> (LoopView, Action) {
        if self.invalidated && !self.minimized {
            let throttle = self.throttle.frame(now as nat);
            LoopView {
                frame_count: self.frame_count.frame(now as nat),
                throttle,
                flow: self.paced_flow(throttle),
                ..self
            }.idle()
        } else {
            self.idle()
        }
    }

    /// The response to `event` at `now` of a controller that is idle.
    pub open spec fn handle(self, event: LoopEvent, now: u64) -> (LoopView, Action) {
        let counted = self.counted();
        match event {
            LoopEvent::NewEvents(cause) => counted.new_events(cause, now),
            LoopEvent::DeviceEvent => counted.dispatch(false, now),
            LoopEvent::WindowEvent => counted.dispatch(false, now),
            LoopEvent::CloseRequested => counted.exiting().dispatch(false, now),
            LoopEvent::KeyboardInput { key, pressed } => if key is Escape && pressed {
                counted.exiting().dispatch(false, now)
            } else {
                counted.dispatch(false, now)
            },
            LoopEvent::Resized { width, height } => counted.resize(width, height, now),
            LoopEvent::UserEvent => counted.idle(),
            LoopEvent::Suspended => counted.idle(),
            LoopEvent::Resumed => counted.idle(),
            LoopEvent::MainEventsCleared => counted.main_events_cleared(now),
            LoopEvent::RedrawRequested => counted.redraw_requested(now),
            LoopEvent::RedrawEventsCleared => counted.redraw_events_cleared(now),
            LoopEvent::LoopDestroyed => (
                LoopView { phase: Phase::Destroy, ..counted.exiting() },
                Action::Destroy,
            ),
        }
    }

    /// The next step at `now`, once the action handed out last has been
    /// performed.
    pub open spec fn proceed(self, now: u64) -> (LoopView, Action) {
        match self.phase {
            Phase::Idle => self.idle(),
            Phase::Init => (LoopView { phase: Phase::Start, ..self }, Action::Start),
            Phase::Start => self.idle(),
            Phase::Event { resize } => {
                let timed = LoopView {
                    stats: GameStats {
                        event: saturating_sum(
                            self.stats.event as nat,
                            time_since(self.phase_start as nat, now as nat),
                        ) as u64,
                        ..self.stats
                    },
                    ..self
                };
                if resize {
                    (LoopView { phase: Phase::Resized, ..timed }, Action::Resized)
                } else {
                    timed.idle()
                }
            },
            Phase::Resized => self.idle(),
            Phase::FixedUpdate { remaining, next_time } => if remaining > 0 {
                (
                    LoopView {
                        phase: Phase::FixedUpdate {
                            remaining: (remaining - 1) as u32,
                            next_time: (next_time + self.clock.update_period) as u64,
                        },
                        ..self
                    },
                    Action::UpdateFixedStep {
                        time: next_time,
                        dt: self.clock.update_period as u64,
                    },
                )
            } else {
                self.variable_update()
            },
            Phase::Update => self.request_redraw(now),
            Phase::RequestRedraw => self.updates_done(now),
            Phase::Render => LoopView {
                stats: GameStats {
                    render: time_since(self.phase_start as nat, now as nat) as u64,
                    ..self.stats
                },
                ..self
            }.idle(),
            Phase::Stats => self.pace(now),
            Phase::Destroy => (
                LoopView { phase: Phase::Destroyed, ..self },
                Action::Return(ControlFlow::Exit),
            ),
            Phase::Destroyed => (self, Action::Return(ControlFlow::Exit)),
        }
    }

    /// The state after `proceed` at each instant of `nows`, in order.
    pub open spec fn proceed_all(self, nows: Seq<u64>) -> LoopView
        decreases nows.len(),
    {
        if nows.len() == 0 {
            self
        } else {
            self.proceed_all(nows.drop_last()).proceed(nows.last()).0
        }
    }

    /// The action that an idle controller hands out for `event`, delivered
    /// at `now`, after as many actions before it as `nows` has instants: those
    /// at which the caller asked to proceed.
    pub open spec fn action_of(self, event: LoopEvent, now: u64, nows: Seq<u64>) -> Action {
        if nows.len() == 0 {
            self.handle(event, now).1
        } else {
            self.handle(event, now).0.proceed_all(nows.drop_last()).proceed(nows.last()).1
        }
    }
}

} // verus!
