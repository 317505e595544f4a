use bevy_vrm1::vrm::humanoid_bone::{HumanoidBone, HumanoidBoneMap};
use bevy_vrm1::vrm::vr_ik::calibration::{
    resolve_rest_positions, BoneLookup, CalibrationStatus, VrIkRestPositions,
};
use bevy_vrm1::vrm::vr_ik::plan::{
    plan_vr_ik_writes, BoneAvailability, Side, SpineSlot, VrIkFrameInput, VrIkWrite,
};

type P = [f32; 3];

/// Rest positions of a T-pose skeleton (head y=1.7, hips y=1.0, arms 0.3+0.3,
/// legs 0.45+0.5).
fn rest_position(bone: HumanoidBone) -> P {
    match bone {
        HumanoidBone::Hips => [0.0, 1.0, 0.0],
        HumanoidBone::Spine => [0.0, 1.2, 0.0],
        HumanoidBone::Chest => [0.0, 1.4, 0.0],
        HumanoidBone::Neck => [0.0, 1.6, 0.0],
        HumanoidBone::Head => [0.0, 1.7, 0.0],
        HumanoidBone::LeftShoulder => [-0.15, 1.55, 0.0],
        HumanoidBone::LeftUpperArm => [-0.2, 1.5, 0.0],
        HumanoidBone::LeftLowerArm => [-0.5, 1.5, 0.0],
        HumanoidBone::LeftHand => [-0.8, 1.5, 0.0],
        HumanoidBone::RightShoulder => [0.15, 1.55, 0.0],
        HumanoidBone::RightUpperArm => [0.2, 1.5, 0.0],
        HumanoidBone::RightLowerArm => [0.5, 1.5, 0.0],
        HumanoidBone::RightHand => [0.8, 1.5, 0.0],
        HumanoidBone::LeftUpperLeg => [-0.1, 0.95, 0.0],
        HumanoidBone::LeftLowerLeg => [-0.1, 0.5, 0.0],
        HumanoidBone::LeftFoot => [-0.1, 0.0, 0.0],
        HumanoidBone::RightUpperLeg => [0.1, 0.95, 0.0],
        HumanoidBone::RightLowerLeg => [0.1, 0.5, 0.0],
        HumanoidBone::RightFoot => [0.1, 0.0, 0.0],
    }
}

fn all_resolved() -> HumanoidBoneMap<BoneLookup<P>> {
    HumanoidBoneMap::from_fn(|b| BoneLookup::Resolved(rest_position(b)))
}

fn ready(status: CalibrationStatus<P>) -> VrIkRestPositions<P> {
    match status {
        CalibrationStatus::Ready(r) => r,
        other => panic!("calibration should be ready, got {other:?}"),
    }
}

#[test]
fn calibration_ready_when_all_bones_resolved() {
    let rest = ready(resolve_rest_positions(&all_resolved()));
    assert_eq!(rest.head, [0.0, 1.7, 0.0]);
    assert_eq!(rest.hips, [0.0, 1.0, 0.0]);
    assert_eq!(rest.left_hand, [-0.8, 1.5, 0.0]);
    assert_eq!(rest.right_upper_arm, [0.2, 1.5, 0.0]);
    assert_eq!(rest.neck, Some([0.0, 1.6, 0.0]));
    assert_eq!(rest.right_foot, Some([0.1, 0.0, 0.0]));
    let legs = rest.leg_chain().expect("all six leg bones resolved");
    assert_eq!(legs.left_upper_leg, [-0.1, 0.95, 0.0]);
    assert_eq!(legs.right_foot, [0.1, 0.0, 0.0]);
}

#[test]
fn calibration_waits_for_rest_transforms() {
    let mut lookups = all_resolved();
    lookups.left_lower_arm = BoneLookup::Pending;
    assert!(matches!(resolve_rest_positions(&lookups), CalibrationStatus::Waiting));
    // Once the rest transform is spawned the next attempt succeeds.
    lookups.left_lower_arm = BoneLookup::Resolved(rest_position(HumanoidBone::LeftLowerArm));
    assert!(matches!(resolve_rest_positions(&lookups), CalibrationStatus::Ready(_)));
}

#[test]
fn calibration_never_completes_without_a_required_bone() {
    let mut lookups = all_resolved();
    lookups.left_hand = BoneLookup::Missing;
    assert!(matches!(
        resolve_rest_positions(&lookups),
        CalibrationStatus::MissingRequiredBone(HumanoidBone::LeftHand)
    ));
}

#[test]
fn first_unresolved_required_bone_decides() {
    // head is looked up before the left hand: a pending head means "wait".
    let mut lookups = all_resolved();
    lookups.head = BoneLookup::Pending;
    lookups.left_hand = BoneLookup::Missing;
    assert!(matches!(resolve_rest_positions(&lookups), CalibrationStatus::Waiting));
    lookups.head = BoneLookup::Missing;
    assert!(matches!(
        resolve_rest_positions(&lookups),
        CalibrationStatus::MissingRequiredBone(HumanoidBone::Head)
    ));
}

#[test]
fn optional_bones_missing_still_calibrates_without_legs() {
    let mut lookups = all_resolved();
    lookups.neck = BoneLookup::Missing;
    lookups.chest = BoneLookup::Missing;
    lookups.spine = BoneLookup::Pending;
    lookups.left_shoulder = BoneLookup::Missing;
    lookups.right_shoulder = BoneLookup::Missing;
    lookups.left_foot = BoneLookup::Missing;
    let rest = ready(resolve_rest_positions(&lookups));
    assert_eq!(rest.neck, None);
    assert_eq!(rest.spine, None);
    assert_eq!(rest.left_upper_leg, Some([-0.1, 0.95, 0.0]));
    assert!(rest.leg_chain().is_none());
    // Without shoulder bones the shoulder offsets are measured from the upper arms.
    assert_eq!(rest.shoulder_anchors(), ([-0.2, 1.5, 0.0], [0.2, 1.5, 0.0]));
}

#[test]
fn shoulder_anchors_prefer_shoulder_bones() {
    let rest = ready(resolve_rest_positions(&all_resolved()));
    assert_eq!(rest.shoulder_anchors(), ([-0.15, 1.55, 0.0], [0.15, 1.55, 0.0]));
}

const PRESENT: BoneAvailability = BoneAvailability {
    found: true,
    has_transform: true,
    has_rest: true,
};

fn skeleton() -> HumanoidBoneMap<BoneAvailability> {
    HumanoidBoneMap::from_fn(|_| PRESENT)
}

fn input(head: bool, left: bool, right: bool, legs: bool) -> VrIkFrameInput {
    VrIkFrameInput {
        head_target: head,
        left_hand_target: left,
        right_hand_target: right,
        leg_cache: legs,
    }
}

#[test]
fn full_frame_writes_every_driven_bone_in_order() {
    let plan = plan_vr_ik_writes(&input(true, true, true, true), &skeleton());
    assert_eq!(
        plan,
        vec![
            VrIkWrite::Hips,
            VrIkWrite::SpineBone(SpineSlot::Spine),
            VrIkWrite::SpineBone(SpineSlot::Chest),
            VrIkWrite::SpineBone(SpineSlot::Neck),
            VrIkWrite::SpineBone(SpineSlot::Head),
            VrIkWrite::UpperArm(Side::Left),
            VrIkWrite::LowerArm(Side::Left),
            VrIkWrite::Hand(Side::Left),
            VrIkWrite::UpperArm(Side::Right),
            VrIkWrite::LowerArm(Side::Right),
            VrIkWrite::Hand(Side::Right),
            VrIkWrite::UpperLeg(Side::Left),
            VrIkWrite::LowerLeg(Side::Left),
            VrIkWrite::UpperLeg(Side::Right),
            VrIkWrite::LowerLeg(Side::Right),
        ]
    );
    // Feet are never written: they follow the lower legs.
    assert!(plan
        .iter()
        .all(|w| w.bone() != HumanoidBone::LeftFoot && w.bone() != HumanoidBone::RightFoot));
}

#[test]
fn nothing_written_without_head_target() {
    assert!(plan_vr_ik_writes(&input(false, true, true, true), &skeleton()).is_empty());
}

#[test]
fn nothing_written_when_a_required_bone_is_not_found() {
    let mut bones = skeleton();
    bones.right_lower_arm.found = false;
    assert!(plan_vr_ik_writes(&input(true, true, true, true), &bones).is_empty());
}

#[test]
fn arm_written_only_on_the_side_with_a_hand_target() {
    let left_only = plan_vr_ik_writes(&input(true, true, false, false), &skeleton());
    assert!(left_only.contains(&VrIkWrite::UpperArm(Side::Left)));
    assert!(left_only.contains(&VrIkWrite::Hand(Side::Left)));
    assert!(!left_only.iter().any(|w| matches!(
        w,
        VrIkWrite::UpperArm(Side::Right) | VrIkWrite::LowerArm(Side::Right) | VrIkWrite::Hand(Side::Right)
    )));
    assert!(left_only.contains(&VrIkWrite::Hips));

    let right_only = plan_vr_ik_writes(&input(true, false, true, false), &skeleton());
    assert!(right_only.contains(&VrIkWrite::UpperArm(Side::Right)));
    assert!(!right_only.iter().any(|w| matches!(
        w,
        VrIkWrite::UpperArm(Side::Left) | VrIkWrite::LowerArm(Side::Left) | VrIkWrite::Hand(Side::Left)
    )));
}

#[test]
fn legs_not_written_without_leg_cache() {
    let plan = plan_vr_ik_writes(&input(true, true, false, false), &skeleton());
    assert!(!plan
        .iter()
        .any(|w| matches!(w, VrIkWrite::UpperLeg(_) | VrIkWrite::LowerLeg(_))));
    assert!(plan.contains(&VrIkWrite::Hips));
    assert!(plan.contains(&VrIkWrite::UpperArm(Side::Left)));
}

#[test]
fn legs_not_written_when_a_leg_bone_is_not_found() {
    let mut bones = skeleton();
    bones.right_upper_leg.found = false;
    let plan = plan_vr_ik_writes(&input(true, false, false, true), &bones);
    assert!(!plan
        .iter()
        .any(|w| matches!(w, VrIkWrite::UpperLeg(_) | VrIkWrite::LowerLeg(_))));
}

#[test]
fn missing_spine_bones_drop_their_share() {
    let mut bones = skeleton();
    bones.chest.found = false;
    bones.chest.has_transform = false;
    bones.neck.found = false;
    bones.neck.has_transform = false;
    let plan = plan_vr_ik_writes(&input(true, false, false, false), &bones);
    assert_eq!(
        plan,
        vec![
            VrIkWrite::Hips,
            VrIkWrite::SpineBone(SpineSlot::Spine),
            VrIkWrite::SpineBone(SpineSlot::Head),
        ]
    );
    // Spine and head keep their own weights: nothing is redistributed.
    assert_eq!(SpineSlot::Spine.weight_index(), 0);
    assert_eq!(SpineSlot::Head.weight_index(), 3);
}

#[test]
fn vanished_bone_is_skipped_and_the_rest_is_written() {
    let before = plan_vr_ik_writes(&input(true, true, true, false), &skeleton());
    let mut bones = skeleton();
    bones.left_lower_arm.has_transform = false;
    bones.left_lower_arm.has_rest = false;
    let after = plan_vr_ik_writes(&input(true, true, true, false), &bones);
    let expected: Vec<VrIkWrite> = before
        .into_iter()
        .filter(|w| w.bone() != HumanoidBone::LeftLowerArm)
        .collect();
    assert_eq!(after, expected);
    assert!(after.contains(&VrIkWrite::UpperArm(Side::Right)));
}

#[test]
fn upper_arm_needs_its_rest_transforms() {
    let mut bones = skeleton();
    bones.left_upper_arm.has_rest = false;
    let plan = plan_vr_ik_writes(&input(true, true, false, false), &bones);
    assert!(!plan.contains(&VrIkWrite::UpperArm(Side::Left)));
    assert!(plan.contains(&VrIkWrite::LowerArm(Side::Left)));
    assert!(plan.contains(&VrIkWrite::Hand(Side::Left)));
}

#[test]
fn bone_names_follow_vrm_humanoid() {
    assert_eq!(HumanoidBone::Hips.name(), "hips");
    assert_eq!(HumanoidBone::LeftUpperArm.name(), "leftUpperArm");
    assert_eq!(HumanoidBone::RightLowerLeg.name(), "rightLowerLeg");
    assert_eq!(HumanoidBone::Head.name(), "head");
    assert_eq!(VrIkWrite::Hand(Side::Right).bone(), HumanoidBone::RightHand);
    assert_eq!(SpineSlot::Neck.bone(), HumanoidBone::Neck);
}
