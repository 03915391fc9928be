//! The loop controller: a state machine that sequences one iteration of a
//! platform event loop.
//!
//! The platform delivers events; the controller answers each with the
//! actions to perform, one at a time, and ends every event by handing control
//! back with a scheduling directive. The controller performs no action
//! itself and reads no clock: the caller runs each hook and reports the
//! instant at which it asks for the next step.

pub mod controller;
pub mod event;
pub mod laws;
pub mod model;
