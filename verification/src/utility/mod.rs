//! Timing components used by the loop controller.

pub mod clock;
pub mod frame;
pub mod timer;
