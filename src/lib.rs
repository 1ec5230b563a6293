//! A Newton's cradle toy, as a verified core: the topology of each pendulum
//! unit, the impact-sound trigger with its cooldown, and the pick-and-drag
//! state machine. The physics engine, rendering and audio playback are
//! collaborators driven by the application around this library.
//!
//! All quantities are integers in fixed units: positions in micro-units,
//! velocities in milli-units per second, times in microseconds and volumes
//! in thousandths of full scale.

pub mod body;
pub mod audio;
pub mod cradle;
pub mod geometry;
pub mod interaction;

pub use body::BodyId;
pub use geometry::Vec3;
