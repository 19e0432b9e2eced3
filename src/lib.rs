//! A 2D skeletal animation engine: bodies as eleven joints, keyframe
//! animations sampled at a fixed interval and interpolated in between, a
//! playback loop that re-anchors each cycle at the body's hip, and a pose
//! editor driven by pointer and key events.
//!
//! Coordinates and times are integers: coordinates in fixed-point steps of
//! the drawing space (see `point::UNIT`), times in microseconds.

use vstd::prelude::*;

pub mod animation;
pub mod human;
pub mod point;
pub mod tester;
