//! Verified core of a VRM 1.0 avatar runtime: the update order of the VRM
//! system sets, the humanoid bone table, the structural part of the VR IK
//! (calibration readiness and the per-frame bone write plan), the capsule
//! layout of a humanoid, first-person mesh annotations and the MToon outline
//! width modes.
pub mod system_set;
pub mod text;
pub mod vrm;
