//! Orientation and movement core of a third-person character/camera rig.
//!
//! Every simulation tick the rig decides where the controlled character
//! faces, where it moves, and how an orbiting camera pivot tracks the
//! character while staying independently steerable by mouse and keyboard.
//! All geometry is planar: headings are angles about the world up axis,
//! kept in millidegrees, and positions are fixed-point micro-units, so the
//! whole pipeline is exact integer arithmetic.

pub mod angle;
pub mod character;
pub mod geom;
pub mod input;
pub mod pivot;
pub mod rig;
pub mod settings;
pub mod trig;
