//! What the platform tells the controller, and what the controller answers.

use vstd::prelude::*;

verus! {

/// Why the platform started a new batch of events.
#[derive(Clone, Copy, Debug, PartialEq, Eq, Structural)]
pub enum StartCause {
    /// The loop has just been created.
    Init,
    /// The loop was polling.
    Poll,
    /// The instant that the loop asked to sleep until has passed.
    ResumeTimeReached,
    /// An event arrived before the instant that the loop asked to sleep until.
    WaitCancelled,
}

/// A key, as far as the controller cares.
#[derive(Clone, Copy, Debug, PartialEq, Eq, Structural)]
pub enum Key {
    /// The key that cancels the loop.
    Escape,
    /// Any other key.
    Other,
}

/// An event of the platform.
#[derive(Clone, Copy, Debug, PartialEq, Eq, Structural)]
pub enum LoopEvent {
    /// A new batch of events begins.
    NewEvents(StartCause),
    /// Input from a device, not tied to a window.
    DeviceEvent,
    /// The user asked to close the window.
    CloseRequested,
    /// A key was pressed or released.
    KeyboardInput { key: Key, pressed: bool },
    /// The window has a new size; a size of zero by zero means that it is minimized.
    Resized { width: u32, height: u32 },
    /// Any other event of the window.
    WindowEvent,
    /// An event that the application sent to itself.
    UserEvent,
    /// The application was suspended.
    Suspended,
    /// The application was resumed.
    Resumed,
    /// Every event of the batch has been delivered.
    MainEventsCleared,
    /// The window should be redrawn.
    RedrawRequested,
    /// Every redraw of the batch has been delivered.
    RedrawEventsCleared,
    /// The loop is about to end.
    LoopDestroyed,
}

/// What the platform should do once the controller hands control back.
#[derive(Clone, Copy, Debug, PartialEq, Eq, Structural)]
pub enum ControlFlow {
    /// Start the next batch at once.
    Poll,
    /// Sleep until this instant or until an event arrives.
    WaitUntil(u64),
    /// End the loop.
    Exit,
}

/// Timing breakdown and counters of one iteration.
#[derive(Clone, Copy, Debug, PartialEq, Eq, Structural)]
pub struct GameStats {
    /// Number of the iteration.
    pub frame_id: u64,
    /// Wall time since the iteration before.
    pub frame_duration: u64,
    /// Simulated time after the fixed updates of the iteration.
    pub time: u64,
    /// Wall time that those fixed updates left unconsumed.
    pub accumulator: u64,
    /// Wall time between the start of the batch and the end of its redraws.
    pub loop_duration: u64,
    /// Wall time spent in the event hook during the batch.
    pub event: u64,
    /// Wall time spent updating.
    pub update: u64,
    /// Wall time spent rendering.
    pub render: u64,
    /// Number of events seen.
    pub event_count: u64,
    /// Number of events seen since the loop was created.
    pub total_event_count: u64,
}

/// One thing for the caller to do. After doing it, the caller asks the
/// controller how to proceed.
#[derive(Clone, Copy, Debug, PartialEq, Eq, Structural)]
pub enum Action {
    /// Run the init hook.
    Init,
    /// Run the start hook.
    Start,
    /// Hand the event being handled to the event hook.
    Event,
    /// Run the resize hook.
    Resized,
    /// Run one fixed update that starts at simulated time `time` and spans `dt`.
    UpdateFixedStep { time: u64, dt: u64 },
    /// Run the variable update at `time`: simulated time plus leftover lag.
    Update { time: u64 },
    /// Ask the platform for a redraw.
    RequestRedraw,
    /// Run the render hook; `lag` out of `dt` of the next tick has elapsed.
    Render { lag: u64, dt: u64 },
    /// Hand this snapshot to the stats hook.
    Stats(GameStats),
    /// Run the destroy hook.
    Destroy,
    /// Nothing is left to do for this event: hand control back to the
    /// platform with this directive.
    Return(ControlFlow),
}

/// The hook in flight, or the lack of one.
#[derive(Clone, Copy, Debug, PartialEq, Eq, Structural)]
pub enum Phase {
    /// No event is being handled: the platform has control.
    Idle,
    /// The init hook is running; the start hook comes next.
    Init,
    /// The start hook is running.
    Start,
    /// The event hook is running; the resize hook comes next if `resize`.
    Event { resize: bool },
    /// The resize hook is running.
    Resized,
    /// A fixed update is running; `remaining` more follow, the next of them
    /// at simulated time `next_time`.
    FixedUpdate { remaining: u32, next_time: u64 },
    /// The variable update is running.
    Update,
    /// A redraw is being requested.
    RequestRedraw,
    /// The render hook is running.
    Render,
    /// The stats hook is running; pacing comes next.
    Stats,
    /// The destroy hook is running.
    Destroy,
    /// The loop has ended.
    Destroyed,
}

/// Why the controller refused an event.
#[derive(Clone, Copy, Debug, PartialEq, Eq, Structural)]
pub enum LoopError {
    /// The event before this one has not been handled to its end.
    Busy,
    /// The loop has ended.
    Destroyed,
}

/// How a loop is set up.
#[derive(Clone, Copy, Debug, PartialEq, Eq, Structural)]
pub struct GameSetup {
    /// Length of one fixed update.
    pub update_period: u64,
    /// Whether a resize alone makes the window redraw.
    pub redraw_on_resize: bool,
    /// The frame rate to throttle to.
    pub target_frame_rate: crate::utility::frame::TargetFrameRate,
    /// Most fixed updates to run in one iteration.
    pub max_ticks: u32,
}

} // verus!
