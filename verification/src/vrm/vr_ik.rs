//! VR IK driven by a head-mounted display and two controllers.
//!
//! The geometry (two-bone IK, hip estimation, spine distribution) works on
//! floating-point vectors and lives with the engine integration; this module
//! holds its structure: when the rest-pose calibration of a VRM can be built
//! ([`calibration`]) and which bones one frame of IK writes ([`plan`]).
pub mod calibration;
pub mod plan;
