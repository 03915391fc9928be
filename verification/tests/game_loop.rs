use gameloop::game_loop::controller::LoopController;
use gameloop::game_loop::event::{
    Action, ControlFlow, GameSetup, GameStats, Key, LoopError, LoopEvent, Phase, StartCause,
};
use gameloop::utility::clock::ClockError;
use gameloop::utility::frame::TargetFrameRate;

const MS: u64 = 1_000_000;

fn setup(target_frame_rate: TargetFrameRate) -> GameSetup {
    GameSetup {
        update_period: 10 * MS,
        redraw_on_resize: true,
        target_frame_rate,
        max_ticks: u32::MAX,
    }
}

fn controller(target_frame_rate: TargetFrameRate) -> LoopController {
    LoopController::new(setup(target_frame_rate)).expect("a positive period")
}

/// Handles `event` at `now` to its end; every hook takes `hook` nanoseconds.
fn run(c: &mut LoopController, event: LoopEvent, now: u64, hook: u64) -> Vec<Action> {
    let mut at = now;
    let mut actions = vec![c.handle(event, at).expect("an idle controller")];
    while !matches!(actions[actions.len() - 1], Action::Return(_)) {
        at += hook;
        actions.push(c.proceed(at));
    }
    assert_eq!(c.phase(), Phase::Idle);
    actions
}

/// Runs the first batch of a loop, without any resize, up to the end of its events.
fn begin(c: &mut LoopController) {
    run(c, LoopEvent::NewEvents(StartCause::Init), 0, 0);
    run(c, LoopEvent::MainEventsCleared, 0, 0);
    run(c, LoopEvent::RedrawRequested, 0, 0);
    run(c, LoopEvent::RedrawEventsCleared, 0, 0);
}

#[test]
fn controller_needs_a_positive_period() {
    let bad = GameSetup { update_period: 0, ..setup(TargetFrameRate::Unlimited) };
    assert_eq!(LoopController::new(bad).err(), Some(ClockError::ZeroPeriod));
}

#[test]
fn new_controller_is_idle_and_polling() {
    let c = controller(TargetFrameRate::Unlimited);
    assert_eq!(c.phase(), Phase::Idle);
    assert_eq!(c.flow(), ControlFlow::Poll);
    assert!(!c.is_minimized());
    assert!(!c.is_invalidated());
    assert!(!c.is_resized());
    assert_eq!(c.clock().update_period(), 10 * MS);
    assert_eq!(c.clock().time(), 0);
    assert_eq!(c.frame_count().frame_count(), 0);
    assert_eq!(c.throttle().wait_until(), None);
    assert_eq!(
        c.stats(),
        GameStats {
            frame_id: 0,
            frame_duration: 0,
            time: 0,
            accumulator: 0,
            loop_duration: 0,
            event: 0,
            update: 0,
            render: 0,
            event_count: 0,
            total_event_count: 0,
        }
    );
}

#[test]
fn first_batch_runs_init_then_start() {
    let mut c = controller(TargetFrameRate::Unlimited);
    let actions = run(&mut c, LoopEvent::NewEvents(StartCause::Init), 5, 1);
    assert_eq!(
        actions,
        vec![Action::Init, Action::Start, Action::Return(ControlFlow::Poll)]
    );
    assert!(c.is_invalidated());
}

#[test]
fn later_batches_run_start_only() {
    for cause in [StartCause::Poll, StartCause::ResumeTimeReached, StartCause::WaitCancelled] {
        let mut c = controller(TargetFrameRate::Unlimited);
        begin(&mut c);
        let actions = run(&mut c, LoopEvent::NewEvents(cause), 5, 1);
        assert_eq!(actions, vec![Action::Start, Action::Return(ControlFlow::Poll)]);
        assert_eq!(c.is_invalidated(), cause != StartCause::WaitCancelled);
    }
}

#[test]
fn first_iteration_runs_no_fixed_update() {
    let mut c = controller(TargetFrameRate::Unlimited);
    run(&mut c, LoopEvent::NewEvents(StartCause::Init), 0, 0);
    let actions = run(&mut c, LoopEvent::MainEventsCleared, 500 * MS, 0);
    assert_eq!(
        actions,
        vec![
            Action::Update { time: 0 },
            Action::RequestRedraw,
            Action::Return(ControlFlow::Poll)
        ]
    );
    assert_eq!(c.clock().time(), 0);
    assert_eq!(c.clock().last_frame_time(), Some(500 * MS));
    assert_eq!(c.stats().frame_id, 1);
    assert_eq!(c.stats().frame_duration, 0);
}

#[test]
fn jump_of_35ms_runs_three_fixed_updates_in_order() {
    let mut c = controller(TargetFrameRate::Unlimited);
    begin(&mut c);
    run(&mut c, LoopEvent::NewEvents(StartCause::Poll), 1 * MS, 0);
    let actions = run(&mut c, LoopEvent::MainEventsCleared, 35 * MS, 2 * MS);
    assert_eq!(
        actions,
        vec![
            Action::UpdateFixedStep { time: 0, dt: 10 * MS },
            Action::UpdateFixedStep { time: 10 * MS, dt: 10 * MS },
            Action::UpdateFixedStep { time: 20 * MS, dt: 10 * MS },
            Action::Update { time: 35 * MS },
            Action::RequestRedraw,
            Action::Return(ControlFlow::Poll),
        ]
    );
    assert_eq!(c.clock().time(), 30 * MS);
    assert_eq!(c.clock().accumulator(), 5 * MS);
    let stats = c.stats();
    assert_eq!(stats.frame_id, 2);
    assert_eq!(stats.frame_duration, 35 * MS);
    assert_eq!(stats.time, 30 * MS);
    assert_eq!(stats.accumulator, 5 * MS);
    // Five hooks of two milliseconds each.
    assert_eq!(stats.update, 10 * MS);
}

#[test]
fn tick_limit_of_the_setup_caps_an_iteration() {
    let capped = GameSetup { max_ticks: 2, ..setup(TargetFrameRate::Unlimited) };
    let mut c = LoopController::new(capped).expect("a positive period");
    begin(&mut c);
    run(&mut c, LoopEvent::NewEvents(StartCause::Poll), 0, 0);
    let actions = run(&mut c, LoopEvent::MainEventsCleared, 57 * MS, 0);
    assert_eq!(
        actions,
        vec![
            Action::UpdateFixedStep { time: 0, dt: 10 * MS },
            Action::UpdateFixedStep { time: 10 * MS, dt: 10 * MS },
            Action::Update { time: 27 * MS },
            Action::RequestRedraw,
            Action::Return(ControlFlow::Poll),
        ]
    );
}

#[test]
fn render_follows_a_redraw_request() {
    let mut c = controller(TargetFrameRate::Unlimited);
    begin(&mut c);
    run(&mut c, LoopEvent::NewEvents(StartCause::Poll), 0, 0);
    run(&mut c, LoopEvent::MainEventsCleared, 14 * MS, 0);
    let actions = run(&mut c, LoopEvent::RedrawRequested, 15 * MS, 3 * MS);
    assert_eq!(
        actions,
        vec![Action::Render { lag: 4 * MS, dt: 10 * MS }, Action::Return(ControlFlow::Poll)]
    );
    assert_eq!(c.stats().render, 3 * MS);
}

#[test]
fn end_of_the_iteration_hands_out_the_stats() {
    let mut c = controller(TargetFrameRate::Unlimited);
    begin(&mut c);
    run(&mut c, LoopEvent::NewEvents(StartCause::Poll), 100 * MS, 0);
    run(&mut c, LoopEvent::DeviceEvent, 101 * MS, 2 * MS);
    run(&mut c, LoopEvent::WindowEvent, 104 * MS, 3 * MS);
    run(&mut c, LoopEvent::MainEventsCleared, 110 * MS, 1 * MS);
    run(&mut c, LoopEvent::RedrawRequested, 120 * MS, 4 * MS);
    let actions = run(&mut c, LoopEvent::RedrawEventsCleared, 130 * MS, 0);
    let stats = GameStats {
        frame_id: 2,
        frame_duration: 110 * MS,
        time: 110 * MS,
        accumulator: 0,
        loop_duration: 30 * MS,
        event: 5 * MS,
        // Eleven fixed updates, the variable update and the redraw request.
        update: 13 * MS,
        render: 4 * MS,
        event_count: 10,
        total_event_count: 10,
    };
    assert_eq!(actions, vec![Action::Stats(stats), Action::Return(ControlFlow::Poll)]);
    assert_eq!(c.stats(), stats);
    assert_eq!(c.frame_count().frame_count(), 1);
}

#[test]
fn event_time_starts_over_with_each_batch() {
    let mut c = controller(TargetFrameRate::Unlimited);
    begin(&mut c);
    run(&mut c, LoopEvent::NewEvents(StartCause::Poll), 0, 0);
    run(&mut c, LoopEvent::DeviceEvent, 1, 7);
    assert_eq!(c.stats().event, 7);
    run(&mut c, LoopEvent::DeviceEvent, 10, 5);
    assert_eq!(c.stats().event, 12);
    run(&mut c, LoopEvent::NewEvents(StartCause::Poll), 20, 0);
    assert_eq!(c.stats().event, 0);
}

#[test]
fn first_resize_after_creation_is_swallowed() {
    let mut c = controller(TargetFrameRate::Unlimited);
    run(&mut c, LoopEvent::NewEvents(StartCause::Init), 0, 0);
    let first = run(&mut c, LoopEvent::Resized { width: 640, height: 480 }, 1, 0);
    assert_eq!(first, vec![Action::Event, Action::Return(ControlFlow::Poll)]);
    assert!(!c.is_resized());
    let second = run(&mut c, LoopEvent::Resized { width: 800, height: 600 }, 2, 0);
    assert_eq!(
        second,
        vec![Action::Event, Action::Resized, Action::Return(ControlFlow::Poll)]
    );
    assert!(c.is_resized());
}

#[test]
fn resize_in_a_later_batch_reaches_the_hook() {
    let mut c = controller(TargetFrameRate::Unlimited);
    begin(&mut c);
    run(&mut c, LoopEvent::NewEvents(StartCause::Poll), 0, 0);
    let actions = run(&mut c, LoopEvent::Resized { width: 800, height: 600 }, 2, 0);
    assert_eq!(
        actions,
        vec![Action::Event, Action::Resized, Action::Return(ControlFlow::Poll)]
    );
    // The time of the resize hook is not event time.
    run(&mut c, LoopEvent::Resized { width: 801, height: 600 }, 10, 4);
    assert_eq!(c.stats().event, 4);
}

#[test]
fn swallowed_resize_still_records_minimizing() {
    let mut c = controller(TargetFrameRate::Unlimited);
    run(&mut c, LoopEvent::NewEvents(StartCause::Init), 0, 0);
    run(&mut c, LoopEvent::Resized { width: 0, height: 0 }, 1, 0);
    assert!(c.is_minimized());
    run(&mut c, LoopEvent::Resized { width: 0, height: 10 }, 2, 0);
    assert!(!c.is_minimized());
}

#[test]
fn minimized_window_updates_but_does_not_draw() {
    let mut c = controller(TargetFrameRate::FramePerSeconds(100));
    begin(&mut c);
    assert_eq!(c.flow(), ControlFlow::WaitUntil(0));
    run(&mut c, LoopEvent::NewEvents(StartCause::Poll), 0, 0);
    run(&mut c, LoopEvent::Resized { width: 0, height: 0 }, 1, 0);
    assert!(c.is_minimized());
    let updates = run(&mut c, LoopEvent::MainEventsCleared, 25 * MS, 0);
    assert_eq!(
        updates,
        vec![
            Action::UpdateFixedStep { time: 0, dt: 10 * MS },
            Action::UpdateFixedStep { time: 10 * MS, dt: 10 * MS },
            Action::Update { time: 25 * MS },
            Action::Return(ControlFlow::WaitUntil(0)),
        ]
    );
    assert_eq!(c.clock().time(), 20 * MS);
    let render = run(&mut c, LoopEvent::RedrawRequested, 26 * MS, 0);
    assert_eq!(render, vec![Action::Return(ControlFlow::WaitUntil(0))]);
    assert_eq!(c.stats().render, 0);
    let frames = c.frame_count().frame_count();
    let end = run(&mut c, LoopEvent::RedrawEventsCleared, 27 * MS, 0);
    assert_eq!(end.len(), 2);
    assert!(matches!(end[0], Action::Stats(_)));
    assert_eq!(end[1], Action::Return(ControlFlow::WaitUntil(0)));
    assert_eq!(c.frame_count().frame_count(), frames);
    assert_eq!(c.throttle().wait_until(), Some(0));
}

#[test]
fn cancelled_wait_runs_no_update() {
    let mut c = controller(TargetFrameRate::FramePerSeconds(100));
    begin(&mut c);
    run(&mut c, LoopEvent::NewEvents(StartCause::WaitCancelled), 3 * MS, 0);
    run(&mut c, LoopEvent::DeviceEvent, 3 * MS, 0);
    let updates = run(&mut c, LoopEvent::MainEventsCleared, 4 * MS, 9);
    assert_eq!(updates, vec![Action::Return(ControlFlow::WaitUntil(0))]);
    assert_eq!(c.stats().update, 0);
    assert_eq!(c.stats().frame_id, 2);
    assert_eq!(c.stats().frame_duration, 4 * MS);
    // The iteration consumed no time: the clock was moved without accumulating.
    assert_eq!(c.clock().last_frame_time(), Some(4 * MS));
    assert_eq!(c.clock().accumulator(), 0);
    let render = run(&mut c, LoopEvent::RedrawRequested, 5 * MS, 0);
    assert_eq!(render, vec![Action::Return(ControlFlow::WaitUntil(0))]);
    let frames = c.frame_count().frame_count();
    run(&mut c, LoopEvent::RedrawEventsCleared, 6 * MS, 0);
    assert_eq!(c.frame_count().frame_count(), frames);
    assert_eq!(c.flow(), ControlFlow::WaitUntil(0));
}

#[test]
fn resize_during_a_cancelled_wait_redraws() {
    let mut c = controller(TargetFrameRate::Unlimited);
    begin(&mut c);
    run(&mut c, LoopEvent::NewEvents(StartCause::WaitCancelled), 0, 0);
    run(&mut c, LoopEvent::Resized { width: 300, height: 200 }, 1, 0);
    let updates = run(&mut c, LoopEvent::MainEventsCleared, 50 * MS, 0);
    assert_eq!(updates, vec![Action::RequestRedraw, Action::Return(ControlFlow::Poll)]);
    let render = run(&mut c, LoopEvent::RedrawRequested, 51 * MS, 0);
    assert_eq!(
        render,
        vec![Action::Render { lag: 0, dt: 10 * MS }, Action::Return(ControlFlow::Poll)]
    );
}

#[test]
fn resize_alone_does_not_redraw_unless_set_up_to() {
    let plain = GameSetup { redraw_on_resize: false, ..setup(TargetFrameRate::Unlimited) };
    let mut c = LoopController::new(plain).expect("a positive period");
    begin(&mut c);
    run(&mut c, LoopEvent::NewEvents(StartCause::WaitCancelled), 0, 0);
    run(&mut c, LoopEvent::Resized { width: 300, height: 200 }, 1, 0);
    let updates = run(&mut c, LoopEvent::MainEventsCleared, 50 * MS, 0);
    assert_eq!(updates, vec![Action::Return(ControlFlow::Poll)]);
    let render = run(&mut c, LoopEvent::RedrawRequested, 51 * MS, 0);
    assert_eq!(render, vec![Action::Return(ControlFlow::Poll)]);
}

#[test]
fn throttle_sets_the_directive_at_the_end_of_a_frame() {
    let mut c = controller(TargetFrameRate::FramePerSeconds(100));
    run(&mut c, LoopEvent::NewEvents(StartCause::Init), 0, 0);
    run(&mut c, LoopEvent::MainEventsCleared, 1 * MS, 0);
    run(&mut c, LoopEvent::RedrawRequested, 1 * MS, 0);
    let end = run(&mut c, LoopEvent::RedrawEventsCleared, 2 * MS, 1 * MS);
    // The stats hook took a millisecond; the first frame seeds the deadline after it.
    assert_eq!(end[1], Action::Return(ControlFlow::WaitUntil(3 * MS)));
    run(&mut c, LoopEvent::NewEvents(StartCause::ResumeTimeReached), 3 * MS, 0);
    run(&mut c, LoopEvent::MainEventsCleared, 3 * MS, 0);
    let end = run(&mut c, LoopEvent::RedrawEventsCleared, 4 * MS, 0);
    assert_eq!(end[1], Action::Return(ControlFlow::WaitUntil(13 * MS)));
    // A frame that ends more than a period after its deadline polls to catch up.
    run(&mut c, LoopEvent::NewEvents(StartCause::ResumeTimeReached), 13 * MS, 0);
    run(&mut c, LoopEvent::MainEventsCleared, 13 * MS, 0);
    let end = run(&mut c, LoopEvent::RedrawEventsCleared, 40 * MS, 0);
    assert_eq!(end[1], Action::Return(ControlFlow::Poll));
    assert_eq!(c.frame_count().frame_count(), 2);
}

#[test]
fn close_request_exits_for_good() {
    let mut c = controller(TargetFrameRate::FramePerSeconds(100));
    begin(&mut c);
    run(&mut c, LoopEvent::NewEvents(StartCause::Poll), 0, 0);
    let actions = run(&mut c, LoopEvent::CloseRequested, 1, 0);
    assert_eq!(actions, vec![Action::Event, Action::Return(ControlFlow::Exit)]);
    run(&mut c, LoopEvent::MainEventsCleared, 15 * MS, 0);
    run(&mut c, LoopEvent::RedrawRequested, 15 * MS, 0);
    let end = run(&mut c, LoopEvent::RedrawEventsCleared, 16 * MS, 0);
    assert_eq!(end[1], Action::Return(ControlFlow::Exit));
    assert_eq!(c.flow(), ControlFlow::Exit);
}

#[test]
fn escape_exits_when_pressed_only() {
    let mut c = controller(TargetFrameRate::Unlimited);
    begin(&mut c);
    let released = LoopEvent::KeyboardInput { key: Key::Escape, pressed: false };
    assert_eq!(
        run(&mut c, released, 1, 0),
        vec![Action::Event, Action::Return(ControlFlow::Poll)]
    );
    let other = LoopEvent::KeyboardInput { key: Key::Other, pressed: true };
    assert_eq!(
        run(&mut c, other, 2, 0),
        vec![Action::Event, Action::Return(ControlFlow::Poll)]
    );
    let pressed = LoopEvent::KeyboardInput { key: Key::Escape, pressed: true };
    assert_eq!(
        run(&mut c, pressed, 3, 0),
        vec![Action::Event, Action::Return(ControlFlow::Exit)]
    );
}

#[test]
fn destroy_hook_runs_once() {
    let mut c = controller(TargetFrameRate::Unlimited);
    begin(&mut c);
    assert_eq!(c.handle(LoopEvent::LoopDestroyed, 9), Ok(Action::Destroy));
    assert_eq!(c.phase(), Phase::Destroy);
    assert_eq!(c.handle(LoopEvent::LoopDestroyed, 9), Err(LoopError::Busy));
    assert_eq!(c.proceed(10), Action::Return(ControlFlow::Exit));
    assert_eq!(c.phase(), Phase::Destroyed);
    assert_eq!(c.handle(LoopEvent::LoopDestroyed, 11), Err(LoopError::Destroyed));
    assert_eq!(c.handle(LoopEvent::DeviceEvent, 11), Err(LoopError::Destroyed));
    assert_eq!(c.proceed(12), Action::Return(ControlFlow::Exit));
    assert_eq!(c.phase(), Phase::Destroyed);
}

#[test]
fn event_is_refused_while_another_is_handled() {
    let mut c = controller(TargetFrameRate::Unlimited);
    assert_eq!(c.handle(LoopEvent::NewEvents(StartCause::Init), 0), Ok(Action::Init));
    let before = c.stats();
    assert_eq!(c.handle(LoopEvent::DeviceEvent, 1), Err(LoopError::Busy));
    assert_eq!(c.phase(), Phase::Init);
    assert_eq!(c.stats(), before);
    assert_eq!(c.proceed(2), Action::Start);
    assert_eq!(c.handle(LoopEvent::DeviceEvent, 3), Err(LoopError::Busy));
    assert_eq!(c.proceed(4), Action::Return(ControlFlow::Poll));
    assert_eq!(c.handle(LoopEvent::DeviceEvent, 5), Ok(Action::Event));
}

#[test]
fn proceeding_while_idle_hands_control_back() {
    let mut c = controller(TargetFrameRate::Unlimited);
    assert_eq!(c.proceed(1), Action::Return(ControlFlow::Poll));
    assert_eq!(c.phase(), Phase::Idle);
    assert_eq!(c.stats().event_count, 0);
}

#[test]
fn other_events_are_only_counted() {
    let mut c = controller(TargetFrameRate::Unlimited);
    for event in [LoopEvent::UserEvent, LoopEvent::Suspended, LoopEvent::Resumed] {
        assert_eq!(run(&mut c, event, 1, 1), vec![Action::Return(ControlFlow::Poll)]);
    }
    assert_eq!(c.stats().event_count, 3);
    assert_eq!(c.stats().total_event_count, 3);
}

#[test]
fn first_batch_starts_simulated_time_over() {
    let mut c = controller(TargetFrameRate::Unlimited);
    begin(&mut c);
    run(&mut c, LoopEvent::NewEvents(StartCause::Poll), 0, 0);
    run(&mut c, LoopEvent::MainEventsCleared, 35 * MS, 0);
    assert_eq!(c.clock().time(), 30 * MS);
    run(&mut c, LoopEvent::NewEvents(StartCause::Init), 40 * MS, 0);
    assert_eq!(c.clock().time(), 0);
    assert_eq!(c.clock().accumulator(), 0);
}
