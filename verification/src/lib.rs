//! Randomized, structurally valid instances of a fixed set of robotics
//! messages, for use as test fixtures.
//!
//! Integers, flags and text are drawn from the thread-local generator of the
//! `rand` crate, and time stamps are read from the system clock. Real-valued
//! components are opaque to this library: every record that carries them is
//! generic over the scalar type, and the caller supplies the draw.

pub mod clock;
mod entropy;
pub mod geometry_msgs;
pub mod primitives;
pub mod sensor_msgs;
pub mod std_msgs;

pub use crate::primitives::{empty_bytes, random_bytes, random_scalars, random_string};
