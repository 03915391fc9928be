//! Bookkeeping for raising the resolution of the platform timer.
//!
//! The platform call itself is the caller's business. This module decides
//! which period to ask for and keeps begin and end in balance.

use vstd::prelude::*;

verus! {

/// Misuse of the timer resolution.
#[derive(Clone, Copy, Debug, PartialEq, Eq, Structural)]
pub enum TimerError {
    /// The resolution was raised while already raised, or reset while not
    /// raised.
    Unbalanced,
}

/// The period closest to `target_period` that the platform supports: no
/// shorter than `min_period` and, above all, no longer than `max_period`.
pub open spec fn clamp_period(min_period: u64, target_period: u64, max_period: u64) -> u64 {
    let at_least_min = if target_period < min_period {
        min_period
    } else {
        target_period
    };
    if at_least_min > max_period {
        max_period
    } else {
        at_least_min
    }
}

/// Whether the timer resolution is currently raised, and to which period.
#[derive(Clone, Copy, Debug)]
pub struct TimerResolution {
    current_period: Option<u64>,
}

impl View for TimerResolution {
    type V = Option<u64>;

    /// The period in force, if the resolution is raised.
    closed spec fn view(&self) -> Option<u64> {
        self.current_period
    }
}

impl TimerResolution {
    /// A timer at its default resolution.
    pub fn new() -> (timer: TimerResolution)
        ensures
            timer@ is None,
    {
        TimerResolution { current_period: None }
    }

    /// The period in force, if the resolution is raised.
    pub fn current_period(&self) -> (period: Option<u64>)
        ensures
            period == self@,
    {
        self.current_period
    }
}

/// Raises the resolution to the supported period closest to `target_period`
/// and returns that period. Refused, with nothing changed, while the
/// resolution is already raised.
pub fn set_timer_resolution(
    timer: &mut TimerResolution,
    min_period: u64,
    max_period: u64,
    target_period: u64,
) -> (granted: Result<u64, TimerError>)
    ensures
        granted is Err <==> old(timer)@ is Some,
        granted matches Err(e) ==> e == TimerError::Unbalanced && final(timer)@ == old(timer)@,
        granted matches Ok(period) ==> period == clamp_period(
            min_period,
            target_period,
            max_period,
        ) && final(timer)@ == Some(period),
{
    if timer.current_period.is_some() {
        return Err(TimerError::Unbalanced);
    }
    let at_least_min = if target_period < min_period {
        min_period
    } else {
        target_period
    };
    let period = if at_least_min > max_period {
        max_period
    } else {
        at_least_min
    };
    timer.current_period = Some(period);
    Ok(period)
}

/// Raises the resolution to the shortest period that the platform supports.
pub fn set_timer_max_resolution(timer: &mut TimerResolution, min_period: u64, max_period: u64) -> (granted:
    Result<u64, TimerError>)
    ensures
        granted is Err <==> old(timer)@ is Some,
        granted matches Err(e) ==> e == TimerError::Unbalanced && final(timer)@ == old(timer)@,
        granted matches Ok(period) ==> period == clamp_period(min_period, min_period, max_period)
            && final(timer)@ == Some(period),
{
    set_timer_resolution(timer, min_period, max_period, min_period)
}

/// Puts the resolution back to its default and returns the period that was in
/// force. Refused while the resolution is not raised.
pub fn reset_timer_resolution(timer: &mut TimerResolution) -> (released: Result<u64, TimerError>)
    ensures
        released is Err <==> old(timer)@ is None,
        released matches Err(e) ==> e == TimerError::Unbalanced && final(timer)@ is None,
        released matches Ok(period) ==> old(timer)@ == Some(period) && final(timer)@ is None,
{
    match timer.current_period {
        Some(period) => {
            timer.current_period = None;
            Ok(period)
        },
        None => Err(TimerError::Unbalanced),
    }
}

} // verus!
