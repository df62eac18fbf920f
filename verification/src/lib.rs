//! Deterministic planning for a short rendered scene: a field of bobbing
//! spheres around a block of text, an orbiting camera, a ground texture that
//! fades towards its rim, and a capture schedule that hands an encoder an
//! exact number of frames.
//!
//! Everything here is integer arithmetic. Lengths are fixed-point counts of
//! [`units::UNITS`] per whole, time is counted in milliseconds, and the values
//! of sine and cosine are supplied by the caller.

pub mod animation;
pub mod capture;
pub mod cli;
pub mod jitter;
pub mod numeric;
pub mod replay;
pub mod scene;
pub mod text2mesh;
pub mod texturegen;
pub mod units;
