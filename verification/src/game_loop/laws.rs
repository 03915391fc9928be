//! Properties of the loop controller that hold of every run.

use crate::game_loop::event::{
    Action,
    ControlFlow,
    GameSetup,
    Key,
    LoopEvent,
    Phase,
    StartCause,
};
use crate::game_loop::model::{bump, LoopView};
use crate::utility::clock::{lemma_reset, lemma_tick};
use vstd::prelude::*;

verus! {

/// A controller set up with a positive update period starts out well formed,
/// idle and polling.
pub proof fn lemma_initial_wf(setup: GameSetup)
    requires
        setup.update_period > 0,
    ensures
        LoopView::initial(setup).wf(),
        LoopView::initial(setup).phase is Idle,
        LoopView::initial(setup).flow is Poll,
{
    assert(0 * (setup.update_period as nat) == 0) by (nonlinear_arith);
}

/// Handling an event keeps the controller well formed.
pub proof fn lemma_handle_wf(s: LoopView, event: LoopEvent, now: u64)
    requires
        s.wf(),
        s.phase is Idle,
    ensures
        s.handle(event, now).0.wf(),
{
    lemma_tick(s.clock, now as nat);
    lemma_reset(s.clock, now as nat);
    if event is MainEventsCleared && s.invalidated && s.clock.ticks_to_run(now as nat) > 0 {
        let count = s.clock.ticks_to_run(now as nat);
        let period = s.clock.update_period;
        assert((count - 1) * period + period == count * period) by (nonlinear_arith);
        assert((count - 1) * period >= 0) by (nonlinear_arith)
            requires
                count >= 1,
        ;
    }
}

/// Proceeding keeps the controller well formed.
pub proof fn lemma_proceed_wf(s: LoopView, now: u64)
    requires
        s.wf(),
    ensures
        s.proceed(now).0.wf(),
{
    if let Phase::FixedUpdate { remaining, next_time } = s.phase {
        if remaining > 0 {
            let period = s.clock.update_period;
            assert((remaining - 1) * period + period == remaining * period) by (nonlinear_arith);
            assert((remaining - 1) * period >= 0) by (nonlinear_arith)
                requires
                    remaining >= 1,
            ;
        }
    }
}

/// Every event that an idle controller accepts is counted, and what it is
/// alone decides which hook comes first: init for the first batch and start
/// for any other, the event hook for every input of a device or a window,
/// whatever else that input leads to, the stats hook for the end of the
/// redraws and the destroy hook for the end of the loop. An event of another
/// kind hands control straight back.
pub proof fn lemma_first_action(s: LoopView, event: LoopEvent, now: u64)
    requires
        s.wf(),
        s.phase is Idle,
    ensures
        ({
            let (next, action) = s.handle(event, now);
            &&& next.stats.event_count == bump(s.stats.event_count)
            &&& next.stats.total_event_count == bump(s.stats.total_event_count)
            &&& action is Init <==> event == LoopEvent::NewEvents(StartCause::Init)
            &&& action is Start <==> event is NewEvents && event != LoopEvent::NewEvents(
                StartCause::Init,
            )
            &&& action is Event <==> event is DeviceEvent || event is WindowEvent
                || event is CloseRequested || event is KeyboardInput || event is Resized
            &&& action is Stats <==> event is RedrawEventsCleared
            &&& action is Destroy <==> event is LoopDestroyed
            &&& event is UserEvent || event is Suspended || event is Resumed ==> action
                == Action::Return(s.flow) && next.phase is Idle
            &&& action matches Action::Stats(stats) ==> stats == next.stats
            &&& !(action is Resized)
        }),
{
}

/// A redraw is asked for, and the render hook runs, exactly if the iteration
/// was invalidated, or the window was resized and resizes count, and the
/// window is not minimized. The request follows the variable update, or takes
/// its place where the iteration was not invalidated.
pub proof fn lemma_redraw_policy(s: LoopView, now: u64)
    requires
        s.wf(),
    ensures
        ({
            let due = (s.invalidated || (s.redraw_on_resize && s.resized)) && !s.minimized;
            &&& s.phase is Update ==> (s.proceed(now).1 is RequestRedraw <==> due)
            &&& !(s.phase is Update) ==> !(s.proceed(now).1 is RequestRedraw)
            &&& !(s.proceed(now).1 is Render)
            &&& s.phase is Idle ==> (s.handle(LoopEvent::RedrawRequested, now).1 is Render <==> due)
            &&& s.phase is Idle && !s.invalidated ==> (s.handle(
                LoopEvent::MainEventsCleared,
                now,
            ).1 is RequestRedraw <==> due)
            &&& s.phase is Idle && s.invalidated ==> !(s.handle(
                LoopEvent::MainEventsCleared,
                now,
            ).1 is RequestRedraw)
        }),
{
}

/// The resize that follows window creation is swallowed, the one after it is
/// not: after the first batch has begun, a first resize reaches the event hook
/// but not the resize hook, and a second resize reaches both.
pub proof fn lemma_first_resize_is_swallowed(
    s: LoopView,
    first: (u32, u32),
    second: (u32, u32),
    t: (u64, u64, u64, u64, u64, u64, u64, u64),
)
    requires
        s.wf(),
        s.phase is Idle,
    ensures
        ({
            let (s1, a1) = s.handle(LoopEvent::NewEvents(StartCause::Init), t.0);
            let (s2, a2) = s1.proceed(t.1);
            let (s3, a3) = s2.proceed(t.2);
            let (s4, a4) = s3.handle(LoopEvent::Resized { width: first.0, height: first.1 }, t.3);
            let (s5, a5) = s4.proceed(t.4);
            let (s6, a6) = s5.handle(
                LoopEvent::Resized { width: second.0, height: second.1 },
                t.5,
            );
            let (s7, a7) = s6.proceed(t.6);
            let (s8, a8) = s7.proceed(t.7);
            &&& a1 == Action::Init
            &&& a2 == Action::Start
            &&& a3 is Return
            &&& a4 == Action::Event
            &&& a5 is Return
            &&& !s5.resized
            &&& a6 == Action::Event
            &&& a7 == Action::Resized
            &&& a8 is Return
            &&& s8.resized
            &&& s8.phase is Idle
        }),
{
}

/// Whatever the state, a resize is swallowed exactly if the spurious one is
/// still awaited, and swallowing it ends the wait. Swallowed or not, it
/// records whether the window is minimized.
pub proof fn lemma_resize(s: LoopView, width: u32, height: u32, now: u64, then: u64)
    requires
        s.wf(),
        s.phase is Idle,
    ensures
        ({
            let (s1, a1) = s.handle(LoopEvent::Resized { width, height }, now);
            let (s2, a2) = s1.proceed(then);
            &&& a1 == Action::Event
            &&& a2 == Action::Resized <==> !s.suppress_resize
            &&& a2 is Return <==> s.suppress_resize
            &&& !s1.suppress_resize
            &&& s1.resized == (s.resized || !s.suppress_resize)
            &&& s1.minimized == (width == 0 && height == 0)
        }),
{
}

/// While the window is minimized the simulation goes on, but nothing is
/// drawn and no frame is counted: an invalidated iteration ticks the clock as
/// it would otherwise, no step asks for a redraw or a render, and no step
/// touches the frame-rate estimator, the throttle or, unless the loop is
/// ending, the scheduling directive.
pub proof fn lemma_minimized(s: LoopView, event: LoopEvent, now: u64)
    requires
        s.wf(),
        s.minimized,
    ensures
        s.phase is Idle && s.invalidated ==> s.handle(LoopEvent::MainEventsCleared, now).0.clock
            == s.clock.tick(now as nat),
        s.phase is Idle && s.invalidated && s.clock.ticks_to_run(now as nat) > 0 ==> s.handle(
            LoopEvent::MainEventsCleared,
            now,
        ).1 is UpdateFixedStep,
        s.phase is Idle ==> !(s.handle(event, now).1 is RequestRedraw) && !(s.handle(
            event,
            now,
        ).1 is Render),
        !(s.proceed(now).1 is RequestRedraw) && !(s.proceed(now).1 is Render),
        s.phase is Idle ==> s.handle(event, now).0.frame_count == s.frame_count && s.handle(
            event,
            now,
        ).0.throttle == s.throttle,
        s.proceed(now).0.frame_count == s.frame_count,
        s.proceed(now).0.throttle == s.throttle,
        s.proceed(now).0.flow == s.flow,
{
}

/// An iteration counts as a frame exactly if it was invalidated and the
/// window is not minimized. Then the end of the stats hook hands the instant
/// to estimator and throttle, and unless the loop is ending the directive is
/// what the throttle says: sleep until its deadline, or poll. In any other
/// state a step leaves the estimator and the throttle alone.
pub proof fn lemma_pacing(s: LoopView, now: u64)
    requires
        s.wf(),
    ensures
        ({
            let paced = s.phase is Stats && s.invalidated && !s.minimized;
            let next = s.proceed(now).0;
            &&& paced ==> next.frame_count == s.frame_count.frame(now as nat)
            &&& paced ==> next.throttle == s.throttle.frame(now as nat)
            &&& paced && !(s.flow is Exit) ==> (match next.throttle.wait_until() {
                Some(deadline) => next.flow == ControlFlow::WaitUntil(deadline as u64),
                None => next.flow == ControlFlow::Poll,
            })
            &&& !paced ==> next.frame_count == s.frame_count && next.throttle == s.throttle
                && next.flow == s.flow
            &&& s.phase is Stats ==> s.proceed(now).1 == Action::Return(next.flow)
        }),
{
}

/// Simulated time never moves backwards, except that the first batch of a
/// loop starts it over from zero: proceeding leaves the clock alone, and of
/// the events only the end of a batch moves it, forwards.
pub proof fn lemma_simulated_time_never_decreases(s: LoopView, event: LoopEvent, now: u64)
    requires
        s.wf(),
    ensures
        s.proceed(now).0.clock == s.clock,
        s.phase is Idle && event != LoopEvent::NewEvents(StartCause::Init) ==> s.handle(
            event,
            now,
        ).0.clock.time >= s.clock.time,
        s.phase is Idle && !(event is MainEventsCleared) && !(event is NewEvents) ==> s.handle(
            event,
            now,
        ).0.clock == s.clock,
{
    lemma_tick(s.clock, now as nat);
}

/// A request to exit is final: closing the window or pressing the cancel key
/// sets the directive to exit, and from then on every step leaves it there
/// and every return to the platform carries it.
pub proof fn lemma_exit_is_final(s: LoopView, event: LoopEvent, now: u64)
    requires
        s.wf(),
    ensures
        s.phase is Idle && (event is CloseRequested || event is LoopDestroyed || event
            == (LoopEvent::KeyboardInput { key: Key::Escape, pressed: true })) ==> s.handle(
            event,
            now,
        ).0.flow is Exit,
        s.phase is Idle && s.flow is Exit ==> s.handle(event, now).0.flow is Exit,
        s.flow is Exit ==> s.proceed(now).0.flow is Exit,
        s.phase is Idle && s.flow is Exit ==> (s.handle(event, now).1 matches Action::Return(flow)
            ==> flow is Exit),
        s.flow is Exit ==> (s.proceed(now).1 matches Action::Return(flow) ==> flow is Exit),
{
}

/// The destroy hook runs once: it is the answer to the end of the loop and to
/// nothing else, and once it has been handed out the controller never
/// becomes idle again, so that no further event is accepted.
pub proof fn lemma_destroy_runs_once(s: LoopView, event: LoopEvent, now: u64)
    requires
        s.wf(),
    ensures
        s.phase is Idle ==> (s.handle(event, now).1 is Destroy <==> event is LoopDestroyed),
        s.phase is Idle ==> (s.handle(event, now).0.phase is Destroy <==> event is LoopDestroyed),
        s.phase is Idle ==> !(s.handle(event, now).0.phase is Destroyed),
        !(s.proceed(now).1 is Destroy),
        s.phase is Destroy || s.phase is Destroyed ==> s.proceed(now).0.phase is Destroyed,
        !(s.phase is Destroy) && !(s.phase is Destroyed) ==> !(s.proceed(now).0.phase is Destroy)
            && !(s.proceed(now).0.phase is Destroyed),
{
}

/// While fixed updates are pending, proceeding hands them out one by one, each
/// starting one period after the one before, and leaves everything but the
/// phase as it is.
pub proof fn lemma_pending_fixed_updates(s: LoopView, nows: Seq<u64>)
    requires
        s.wf(),
        s.phase matches Phase::FixedUpdate { remaining, .. } && nows.len() <= remaining,
    ensures
        ({
            let done = nows.len();
            let later = s.proceed_all(nows);
            &&& later.wf()
            &&& later == (LoopView { phase: later.phase, ..s })
            &&& later.phase == (Phase::FixedUpdate {
                remaining: (s.phase->remaining - done) as u32,
                next_time: (s.phase->next_time + done * s.clock.update_period) as u64,
            })
            &&& s.phase->next_time + done * s.clock.update_period <= s.clock.time
        }),
    decreases nows.len(),
{
    let period = s.clock.update_period;
    let remaining = s.phase->remaining;
    if nows.len() > 0 {
        let fewer = nows.drop_last();
        lemma_pending_fixed_updates(s, fewer);
        let before = s.proceed_all(fewer);
        let done = fewer.len();
        assert((done + 1) * period == done * period + period) by (nonlinear_arith);
        assert((remaining - done) * period == (remaining - done - 1) * period + period)
            by (nonlinear_arith);
        assert((remaining - done - 1) * period >= 0) by (nonlinear_arith)
            requires
                remaining - done - 1 >= 0,
        ;
        lemma_proceed_wf(before, nows.last());
    } else {
        assert(0 * period == 0) by (nonlinear_arith);
        assert(remaining * period >= 0) by (nonlinear_arith);
    }
}

/// An invalidated iteration runs exactly the fixed updates that the clock
/// hands out, in the order of simulated time: the first at the simulated time
/// reached before, each other one period after the one before it. Then comes
/// the variable update, at the simulated time that the fixed updates reach
/// plus the lag that they leave.
pub proof fn lemma_updates_in_order(s: LoopView, now: u64, nows: Seq<u64>)
    requires
        s.wf(),
        s.phase is Idle,
        s.invalidated,
        nows.len() <= s.clock.ticks_to_run(now as nat),
    ensures
        ({
            let ticks = s.clock.ticks_to_run(now as nat);
            let period = s.clock.update_period;
            let action = s.action_of(LoopEvent::MainEventsCleared, now, nows);
            &&& nows.len() < ticks ==> action == (Action::UpdateFixedStep {
                time: (s.clock.time + nows.len() * period) as u64,
                dt: period as u64,
            })
            &&& nows.len() == ticks ==> action == (Action::Update {
                time: (s.clock.time + ticks * period + s.clock.tick(now as nat).accumulator) as u64,
            })
            &&& s.clock.time + ticks * period + s.clock.tick(now as nat).accumulator <= u64::MAX
        }),
{
    let ticks = s.clock.ticks_to_run(now as nat);
    let period = s.clock.update_period;
    lemma_tick(s.clock, now as nat);
    lemma_handle_wf(s, LoopEvent::MainEventsCleared, now);
    let first = s.handle(LoopEvent::MainEventsCleared, now).0;
    assert(0 * period == 0) by (nonlinear_arith);
    if nows.len() > 0 {
        let fewer = nows.drop_last();
        let done = fewer.len();
        lemma_pending_fixed_updates(first, fewer);
        assert((done + 1) * period == done * period + period) by (nonlinear_arith);
        assert(s.clock.time + period + done * period == s.clock.time + nows.len() * period);
    }
}

} // verus!
