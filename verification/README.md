# bevy_vrm1 (verified core)

The decision logic of a Bevy VRM 1.0 avatar runtime, written in Verus and
proved against its contracts. Floating-point geometry and the ECS wiring live
in `app/`, which drives the verified functions.

- `src/system_set.rs` — the VRM system sets and the order of the `PostUpdate`
  set chain (animation, VR IK, constraints, gaze, overlay, expressions, spring
  bones, redraw, transform propagation), with proofs that it is a strict total
  order.
- `src/vrm/humanoid_bone.rs` — the humanoid bones and a per-bone table;
  `capsule_fit.rs` — which bones each body capsule joins.
- `src/vrm/vr_ik/calibration.rs` — when the rest-pose calibration of a VRM can
  be built, and which leg chains it gets.
- `src/vrm/vr_ik/plan.rs` — which bone transforms one frame of VR IK writes,
  with proofs of its skip rules.
- `src/vrm/first_person.rs` — first-person mesh annotations resolved to mesh
  names, kept in bevy's `HashMap` behind specified wrappers.
- `src/vrm/mtoon/material/outline.rs` — MToon outline width modes.
- `tests/` — executable tests of the library.
