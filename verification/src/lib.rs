//! Frame pacing for a fixed-timestep game loop.
//!
//! Every instant is a count of nanoseconds since an origin that the caller
//! picks (typically the moment the loop was created), and every duration is a
//! count of nanoseconds. The crate never reads a clock itself.

pub mod game_loop;
pub mod utility;
pub mod voxel;
