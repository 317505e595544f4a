//! Which bones one frame of VR IK writes.
//!
//! Each frame the IK system of a VRM asks [`plan_vr_ik_writes`] which bone
//! transforms to write, given which pose targets are present this frame and
//! which bone entities, transforms and rest transforms exist; it then computes
//! each listed rotation (and the hips translation) from the targets.
use vstd::prelude::*;

use crate::vrm::humanoid_bone::{HumanoidBone, HumanoidBoneMap};

verus! {

/// What the IK system finds of one humanoid bone of a VRM.
#[derive(Debug, Clone, Copy, PartialEq, Eq, Structural)]
pub struct BoneAvailability {
    /// The VRM's humanoid bone table names an entity for the bone.
    pub found: bool,
    /// That entity has a local `Transform` the IK can write.
    pub has_transform: bool,
    /// That entity has its rest transforms (local and global).
    pub has_rest: bool,
}

/// What the IK system knows of one VRM in the current frame.
#[derive(Debug, Clone, Copy, PartialEq, Eq, Structural)]
pub struct VrIkFrameInput {
    /// A head (HMD) pose target is set. Without it the IK does nothing.
    pub head_target: bool,
    /// A left hand (controller) pose target is set.
    pub left_hand_target: bool,
    /// A right hand (controller) pose target is set.
    pub right_hand_target: bool,
    /// The calibrated chain cache has leg chains.
    pub leg_cache: bool,
}

#[derive(Debug, Clone, Copy, PartialEq, Eq, Hash, Structural)]
pub enum Side {
    Left,
    Right,
}

/// A bone of the spine chain, which receives a weighted share of the rotation
/// between hips and head.
#[derive(Debug, Clone, Copy, PartialEq, Eq, Hash, Structural)]
pub enum SpineSlot {
    Spine,
    Chest,
    Neck,
    Head,
}

/// One transform write of a frame of IK.
#[derive(Debug, Clone, Copy, PartialEq, Eq, Hash, Structural)]
pub enum VrIkWrite {
    /// Hips translation and rotation, estimated from the head pose.
    Hips,
    /// The spine-chain bone's rest rotation turned by its share of the
    /// hips-to-head rotation.
    SpineBone(SpineSlot),
    /// Upper arm rotation from the two-bone IK toward the hand target.
    UpperArm(Side),
    /// Lower arm rotation from the two-bone IK toward the hand target.
    LowerArm(Side),
    /// Hand rotation aligned with the controller.
    Hand(Side),
    /// Upper leg rotation from the two-bone IK toward the foot target.
    UpperLeg(Side),
    /// Lower leg rotation from the two-bone IK toward the foot target.
    LowerLeg(Side),
}

impl SpineSlot {
    pub open spec fn spec_bone(self) -> HumanoidBone {
        match self {
            SpineSlot::Spine => HumanoidBone::Spine,
            SpineSlot::Chest => HumanoidBone::Chest,
            SpineSlot::Neck => HumanoidBone::Neck,
            SpineSlot::Head => HumanoidBone::Head,
        }
    }

    /// The humanoid bone of this slot.
    pub fn bone(self) -> (r: HumanoidBone)
        ensures
            r == self.spec_bone(),
    {
        match self {
            SpineSlot::Spine => HumanoidBone::Spine,
            SpineSlot::Chest => HumanoidBone::Chest,
            SpineSlot::Neck => HumanoidBone::Neck,
            SpineSlot::Head => HumanoidBone::Head,
        }
    }

    pub open spec fn spec_weight_index(self) -> int {
        match self {
            SpineSlot::Spine => 0,
            SpineSlot::Chest => 1,
            SpineSlot::Neck => 2,
            SpineSlot::Head => 3,
        }
    }

    /// Index of this slot's weight among the four spine weights (spine, chest,
    /// neck, head). It does not depend on which other spine bones the model has:
    /// the share of a missing bone is dropped, not handed to another.
    pub fn weight_index(self) -> (r: usize)
        ensures
            r == self.spec_weight_index(),
            r < 4,
    {
        match self {
            SpineSlot::Spine => 0,
            SpineSlot::Chest => 1,
            SpineSlot::Neck => 2,
            SpineSlot::Head => 3,
        }
    }
}

pub open spec fn upper_arm_of(side: Side) -> HumanoidBone {
    match side {
        Side::Left => HumanoidBone::LeftUpperArm,
        Side::Right => HumanoidBone::RightUpperArm,
    }
}

pub open spec fn lower_arm_of(side: Side) -> HumanoidBone {
    match side {
        Side::Left => HumanoidBone::LeftLowerArm,
        Side::Right => HumanoidBone::RightLowerArm,
    }
}

pub open spec fn hand_of(side: Side) -> HumanoidBone {
    match side {
        Side::Left => HumanoidBone::LeftHand,
        Side::Right => HumanoidBone::RightHand,
    }
}

pub open spec fn upper_leg_of(side: Side) -> HumanoidBone {
    match side {
        Side::Left => HumanoidBone::LeftUpperLeg,
        Side::Right => HumanoidBone::RightUpperLeg,
    }
}

pub open spec fn lower_leg_of(side: Side) -> HumanoidBone {
    match side {
        Side::Left => HumanoidBone::LeftLowerLeg,
        Side::Right => HumanoidBone::RightLowerLeg,
    }
}

impl VrIkWrite {
    pub open spec fn spec_bone(self) -> HumanoidBone {
        match self {
            VrIkWrite::Hips => HumanoidBone::Hips,
            VrIkWrite::SpineBone(slot) => slot.spec_bone(),
            VrIkWrite::UpperArm(side) => upper_arm_of(side),
            VrIkWrite::LowerArm(side) => lower_arm_of(side),
            VrIkWrite::Hand(side) => hand_of(side),
            VrIkWrite::UpperLeg(side) => upper_leg_of(side),
            VrIkWrite::LowerLeg(side) => lower_leg_of(side),
        }
    }

    /// The humanoid bone whose transform this write sets.
    pub fn bone(self) -> (r: HumanoidBone)
        ensures
            r == self.spec_bone(),
    {
        match self {
            VrIkWrite::Hips => HumanoidBone::Hips,
            VrIkWrite::SpineBone(slot) => slot.bone(),
            VrIkWrite::UpperArm(Side::Left) => HumanoidBone::LeftUpperArm,
            VrIkWrite::UpperArm(Side::Right) => HumanoidBone::RightUpperArm,
            VrIkWrite::LowerArm(Side::Left) => HumanoidBone::LeftLowerArm,
            VrIkWrite::LowerArm(Side::Right) => HumanoidBone::RightLowerArm,
            VrIkWrite::Hand(Side::Left) => HumanoidBone::LeftHand,
            VrIkWrite::Hand(Side::Right) => HumanoidBone::RightHand,
            VrIkWrite::UpperLeg(Side::Left) => HumanoidBone::LeftUpperLeg,
            VrIkWrite::UpperLeg(Side::Right) => HumanoidBone::RightUpperLeg,
            VrIkWrite::LowerLeg(Side::Left) => HumanoidBone::LeftLowerLeg,
            VrIkWrite::LowerLeg(Side::Right) => HumanoidBone::RightLowerLeg,
        }
    }

    /// The write belongs to the arm of `side`.
    pub open spec fn is_arm_of(self, side: Side) -> bool {
        self == VrIkWrite::UpperArm(side) || self == VrIkWrite::LowerArm(side) || self
            == VrIkWrite::Hand(side)
    }

    /// The write belongs to a leg.
    pub open spec fn is_leg(self) -> bool {
        self is UpperLeg || self is LowerLeg
    }
}

/// The bone's transform can be written.
pub open spec fn can_write(a: BoneAvailability) -> bool {
    a.found && a.has_transform
}

/// The bone's transform can be written relative to its rest pose.
pub open spec fn can_write_from_rest(a: BoneAvailability) -> bool {
    can_write(a) && a.has_rest
}

/// The VRM names entities for all eight required bones (head, hips, both
/// upper arms, lower arms and hands). Otherwise IK skips the VRM.
pub open spec fn required_bones_found(b: HumanoidBoneMap<BoneAvailability>) -> bool {
    &&& b.head.found
    &&& b.hips.found
    &&& b.left_upper_arm.found
    &&& b.left_lower_arm.found
    &&& b.left_hand.found
    &&& b.right_upper_arm.found
    &&& b.right_lower_arm.found
    &&& b.right_hand.found
}

/// The VRM names entities for the upper and lower legs on both sides.
pub open spec fn leg_bones_found(b: HumanoidBoneMap<BoneAvailability>) -> bool {
    &&& b.left_upper_leg.found
    &&& b.left_lower_leg.found
    &&& b.right_upper_leg.found
    &&& b.right_lower_leg.found
}

pub open spec fn hand_target(i: VrIkFrameInput, side: Side) -> bool {
    match side {
        Side::Left => i.left_hand_target,
        Side::Right => i.right_hand_target,
    }
}

pub open spec fn when(c: bool, w: VrIkWrite) -> Seq<VrIkWrite> {
    if c {
        seq![w]
    } else {
        Seq::empty()
    }
}

pub open spec fn spec_spine_writes(b: HumanoidBoneMap<BoneAvailability>) -> Seq<VrIkWrite> {
    when(can_write_from_rest(b.spine), VrIkWrite::SpineBone(SpineSlot::Spine)) + when(
        can_write_from_rest(b.chest),
        VrIkWrite::SpineBone(SpineSlot::Chest),
    ) + when(can_write_from_rest(b.neck), VrIkWrite::SpineBone(SpineSlot::Neck)) + when(
        can_write_from_rest(b.head),
        VrIkWrite::SpineBone(SpineSlot::Head),
    )
}

pub open spec fn spec_arm_writes(b: HumanoidBoneMap<BoneAvailability>, side: Side) -> Seq<VrIkWrite> {
    when(can_write_from_rest(b.spec_get(upper_arm_of(side))), VrIkWrite::UpperArm(side)) + when(
        can_write(b.spec_get(lower_arm_of(side))),
        VrIkWrite::LowerArm(side),
    ) + when(can_write(b.spec_get(hand_of(side))), VrIkWrite::Hand(side))
}

pub open spec fn spec_leg_writes(b: HumanoidBoneMap<BoneAvailability>) -> Seq<VrIkWrite> {
    if leg_bones_found(b) {
        when(can_write(b.left_upper_leg), VrIkWrite::UpperLeg(Side::Left)) + when(
            can_write(b.left_lower_leg),
            VrIkWrite::LowerLeg(Side::Left),
        ) + when(can_write(b.right_upper_leg), VrIkWrite::UpperLeg(Side::Right)) + when(
            can_write(b.right_lower_leg),
            VrIkWrite::LowerLeg(Side::Right),
        )
    } else {
        Seq::empty()
    }
}

/// The writes of one frame, in order: hips, spine chain, left arm, right arm,
/// legs. Nothing when there is no head target or a required bone is not found.
pub open spec fn spec_plan(i: VrIkFrameInput, b: HumanoidBoneMap<BoneAvailability>) -> Seq<VrIkWrite> {
    if i.head_target && required_bones_found(b) {
        when(can_write(b.hips), VrIkWrite::Hips) + spec_spine_writes(b) + (if i.left_hand_target {
            spec_arm_writes(b, Side::Left)
        } else {
            Seq::empty()
        }) + (if i.right_hand_target {
            spec_arm_writes(b, Side::Right)
        } else {
            Seq::empty()
        }) + (if i.leg_cache {
            spec_leg_writes(b)
        } else {
            Seq::empty()
        })
    } else {
        Seq::empty()
    }
}

/// Whether a frame of IK performs write `w`.
pub open spec fn spec_writes(i: VrIkFrameInput, b: HumanoidBoneMap<BoneAvailability>, w: VrIkWrite) -> bool {
    &&& i.head_target
    &&& required_bones_found(b)
    &&& match w {
        VrIkWrite::Hips => can_write(b.hips),
        VrIkWrite::SpineBone(slot) => can_write_from_rest(b.spec_get(slot.spec_bone())),
        VrIkWrite::UpperArm(side) => hand_target(i, side) && can_write_from_rest(
            b.spec_get(upper_arm_of(side)),
        ),
        VrIkWrite::LowerArm(side) => hand_target(i, side) && can_write(b.spec_get(lower_arm_of(side))),
        VrIkWrite::Hand(side) => hand_target(i, side) && can_write(b.spec_get(hand_of(side))),
        VrIkWrite::UpperLeg(side) => i.leg_cache && leg_bones_found(b) && can_write(
            b.spec_get(upper_leg_of(side)),
        ),
        VrIkWrite::LowerLeg(side) => i.leg_cache && leg_bones_found(b) && can_write(
            b.spec_get(lower_leg_of(side)),
        ),
    }
}

fn push_when(r: &mut Vec<VrIkWrite>, c: bool, w: VrIkWrite)
    ensures
        final(r)@ == old(r)@ + when(c, w),
{
    if c {
        r.push(w);
    }
    assert(r@ =~= old(r)@ + when(c, w));
}

fn can_write_exec(a: &BoneAvailability) -> (r: bool)
    ensures
        r == can_write(*a),
{
    a.found && a.has_transform
}

fn can_write_from_rest_exec(a: &BoneAvailability) -> (r: bool)
    ensures
        r == can_write_from_rest(*a),
{
    a.found && a.has_transform && a.has_rest
}

fn spine_writes(b: &HumanoidBoneMap<BoneAvailability>) -> (r: Vec<VrIkWrite>)
    ensures
        r@ == spec_spine_writes(*b),
{
    let mut r: Vec<VrIkWrite> = Vec::new();
    push_when(&mut r, can_write_from_rest_exec(&b.spine), VrIkWrite::SpineBone(SpineSlot::Spine));
    push_when(&mut r, can_write_from_rest_exec(&b.chest), VrIkWrite::SpineBone(SpineSlot::Chest));
    push_when(&mut r, can_write_from_rest_exec(&b.neck), VrIkWrite::SpineBone(SpineSlot::Neck));
    push_when(&mut r, can_write_from_rest_exec(&b.head), VrIkWrite::SpineBone(SpineSlot::Head));
    assert(r@ =~= spec_spine_writes(*b));
    r
}

fn arm_writes(b: &HumanoidBoneMap<BoneAvailability>, side: Side) -> (r: Vec<VrIkWrite>)
    ensures
        r@ == spec_arm_writes(*b, side),
{
    let (upper, lower, hand) = match side {
        Side::Left => (&b.left_upper_arm, &b.left_lower_arm, &b.left_hand),
        Side::Right => (&b.right_upper_arm, &b.right_lower_arm, &b.right_hand),
    };
    let mut r: Vec<VrIkWrite> = Vec::new();
    push_when(&mut r, can_write_from_rest_exec(upper), VrIkWrite::UpperArm(side));
    push_when(&mut r, can_write_exec(lower), VrIkWrite::LowerArm(side));
    push_when(&mut r, can_write_exec(hand), VrIkWrite::Hand(side));
    assert(r@ =~= spec_arm_writes(*b, side));
    r
}

fn leg_writes(b: &HumanoidBoneMap<BoneAvailability>) -> (r: Vec<VrIkWrite>)
    ensures
        r@ == spec_leg_writes(*b),
{
    let mut r: Vec<VrIkWrite> = Vec::new();
    if b.left_upper_leg.found && b.left_lower_leg.found && b.right_upper_leg.found
        && b.right_lower_leg.found {
        push_when(&mut r, can_write_exec(&b.left_upper_leg), VrIkWrite::UpperLeg(Side::Left));
        push_when(&mut r, can_write_exec(&b.left_lower_leg), VrIkWrite::LowerLeg(Side::Left));
        push_when(&mut r, can_write_exec(&b.right_upper_leg), VrIkWrite::UpperLeg(Side::Right));
        push_when(&mut r, can_write_exec(&b.right_lower_leg), VrIkWrite::LowerLeg(Side::Right));
    }
    assert(r@ =~= spec_leg_writes(*b));
    r
}

/// The transform writes of one frame of VR IK, in the order in which they are
/// made: hips, spine chain, left arm, right arm, legs.
///
/// Nothing is written without a head target, or when the VRM lacks one of the
/// eight required bones. The hips are written when their transform exists; a
/// spine-chain bone (spine, chest and neck are optional) when it exists with
/// its rest transforms; an arm only when its hand target is set, the upper arm
/// needing its rest transforms too; the upper and lower legs only when the
/// cache has leg chains and all four leg bones are found. Feet and shoulders
/// are never written: they follow their parents.
pub fn plan_vr_ik_writes(input: &VrIkFrameInput, bones: &HumanoidBoneMap<BoneAvailability>) -> (r:
    Vec<VrIkWrite>)
    ensures
        r@ == spec_plan(*input, *bones),
        forall|w: VrIkWrite| r@.contains(w) <==> spec_writes(*input, *bones, w),
        r@.no_duplicates(),
        !input.head_target ==> r@.len() == 0,
        forall|k: int|
            0 <= k < r@.len() ==> can_write(bones.spec_get((#[trigger] r@[k]).spec_bone())),
        forall|k: int|
            0 <= k < r@.len() ==> {
                let bone = (#[trigger] r@[k]).spec_bone();
                &&& bone != HumanoidBone::LeftFoot
                &&& bone != HumanoidBone::RightFoot
                &&& bone != HumanoidBone::LeftShoulder
                &&& bone != HumanoidBone::RightShoulder
            },
        !input.left_hand_target ==> forall|k: int| 0 <= k < r@.len() ==> !(#[trigger] r@[k]).is_arm_of(Side::Left),
        !input.right_hand_target ==> forall|k: int| 0 <= k < r@.len() ==> !(#[trigger] r@[k]).is_arm_of(Side::Right),
        !input.leg_cache ==> forall|k: int| 0 <= k < r@.len() ==> !(#[trigger] r@[k]).is_leg(),
{
    let mut r: Vec<VrIkWrite> = Vec::new();
    let required = bones.head.found && bones.hips.found && bones.left_upper_arm.found
        && bones.left_lower_arm.found && bones.left_hand.found && bones.right_upper_arm.found
        && bones.right_lower_arm.found && bones.right_hand.found;
    if input.head_target && required {
        push_when(&mut r, can_write_exec(&bones.hips), VrIkWrite::Hips);
        let mut spine = spine_writes(bones);
        r.append(&mut spine);
        let mut left: Vec<VrIkWrite> = if input.left_hand_target {
            arm_writes(bones, Side::Left)
        } else {
            Vec::new()
        };
        r.append(&mut left);
        let mut right: Vec<VrIkWrite> = if input.right_hand_target {
            arm_writes(bones, Side::Right)
        } else {
            Vec::new()
        };
        r.append(&mut right);
        let mut legs: Vec<VrIkWrite> = if input.leg_cache {
            leg_writes(bones)
        } else {
            Vec::new()
        };
        r.append(&mut legs);
    }
    assert(r@ =~= spec_plan(*input, *bones));
    proof {
        lemma_plan_contains(*input, *bones);
        lemma_plan_no_duplicates(*input, *bones);
        assert forall|k: int| 0 <= k < r@.len() implies can_write(
            bones.spec_get((#[trigger] r@[k]).spec_bone()),
        ) by {
            assert(r@.contains(r@[k]));
        }
        assert forall|k: int| 0 <= k < r@.len() implies {
            let bone = (#[trigger] r@[k]).spec_bone();
            &&& bone != HumanoidBone::LeftFoot
            &&& bone != HumanoidBone::RightFoot
            &&& bone != HumanoidBone::LeftShoulder
            &&& bone != HumanoidBone::RightShoulder
        } by {
            assert(r@.contains(r@[k]));
        }
        assert forall|k: int| 0 <= k < r@.len() && !input.left_hand_target implies !(#[trigger] r@[k]).is_arm_of(Side::Left) by {
            assert(r@.contains(r@[k]));
        }
        assert forall|k: int| 0 <= k < r@.len() && !input.right_hand_target implies !(#[trigger] r@[k]).is_arm_of(Side::Right) by {
            assert(r@.contains(r@[k]));
        }
        assert forall|k: int| 0 <= k < r@.len() && !input.leg_cache implies !(#[trigger] r@[k]).is_leg() by {
            assert(r@.contains(r@[k]));
        }
    }
    r
}

/// Which bone each write sets (the left hand write sets the left hand), the
/// spine weight each spine bone takes (spine, chest, neck, head in that order),
/// and that distinct writes set distinct bones.
pub proof fn lemma_write_targets()
    ensures
        VrIkWrite::Hips.spec_bone() == HumanoidBone::Hips,
        VrIkWrite::SpineBone(SpineSlot::Spine).spec_bone() == HumanoidBone::Spine,
        VrIkWrite::SpineBone(SpineSlot::Chest).spec_bone() == HumanoidBone::Chest,
        VrIkWrite::SpineBone(SpineSlot::Neck).spec_bone() == HumanoidBone::Neck,
        VrIkWrite::SpineBone(SpineSlot::Head).spec_bone() == HumanoidBone::Head,
        VrIkWrite::UpperArm(Side::Left).spec_bone() == HumanoidBone::LeftUpperArm,
        VrIkWrite::LowerArm(Side::Left).spec_bone() == HumanoidBone::LeftLowerArm,
        VrIkWrite::Hand(Side::Left).spec_bone() == HumanoidBone::LeftHand,
        VrIkWrite::UpperLeg(Side::Left).spec_bone() == HumanoidBone::LeftUpperLeg,
        VrIkWrite::LowerLeg(Side::Left).spec_bone() == HumanoidBone::LeftLowerLeg,
        VrIkWrite::UpperArm(Side::Right).spec_bone() == HumanoidBone::RightUpperArm,
        VrIkWrite::LowerArm(Side::Right).spec_bone() == HumanoidBone::RightLowerArm,
        VrIkWrite::Hand(Side::Right).spec_bone() == HumanoidBone::RightHand,
        VrIkWrite::UpperLeg(Side::Right).spec_bone() == HumanoidBone::RightUpperLeg,
        VrIkWrite::LowerLeg(Side::Right).spec_bone() == HumanoidBone::RightLowerLeg,
        SpineSlot::Spine.spec_weight_index() == 0,
        SpineSlot::Chest.spec_weight_index() == 1,
        SpineSlot::Neck.spec_weight_index() == 2,
        SpineSlot::Head.spec_weight_index() == 3,
        forall|v: VrIkWrite, w: VrIkWrite| v != w ==> v.spec_bone() != w.spec_bone(),
{
}

/// Bone by bone, when a frame of IK writes it: only with a head target and the
/// eight required bones (head, hips, both upper arms, lower arms and hands)
/// found; the hips when they have a transform; a spine-chain bone when it has
/// its transform and rest transforms; an arm bone only with that side's hand
/// target (the upper arm also needing its rest transforms); a leg bone only
/// with leg chains calibrated and all four upper and lower leg bones found.
pub proof fn lemma_plan_writes_by_bone(i: VrIkFrameInput, b: HumanoidBoneMap<BoneAvailability>)
    ensures
        spec_plan(i, b).contains(VrIkWrite::Hips) <==> ((i.head_target && b.spec_get(HumanoidBone::Head).found && b.spec_get(HumanoidBone::Hips).found && b.spec_get(HumanoidBone::LeftUpperArm).found && b.spec_get(HumanoidBone::LeftLowerArm).found && b.spec_get(HumanoidBone::LeftHand).found && b.spec_get(HumanoidBone::RightUpperArm).found && b.spec_get(HumanoidBone::RightLowerArm).found && b.spec_get(HumanoidBone::RightHand).found) && (b.spec_get(HumanoidBone::Hips).found && b.spec_get(HumanoidBone::Hips).has_transform)),
        spec_plan(i, b).contains(VrIkWrite::SpineBone(SpineSlot::Spine)) <==> ((i.head_target && b.spec_get(HumanoidBone::Head).found && b.spec_get(HumanoidBone::Hips).found && b.spec_get(HumanoidBone::LeftUpperArm).found && b.spec_get(HumanoidBone::LeftLowerArm).found && b.spec_get(HumanoidBone::LeftHand).found && b.spec_get(HumanoidBone::RightUpperArm).found && b.spec_get(HumanoidBone::RightLowerArm).found && b.spec_get(HumanoidBone::RightHand).found) && (b.spec_get(HumanoidBone::Spine).found && b.spec_get(HumanoidBone::Spine).has_transform && b.spec_get(HumanoidBone::Spine).has_rest)),
        spec_plan(i, b).contains(VrIkWrite::SpineBone(SpineSlot::Chest)) <==> ((i.head_target && b.spec_get(HumanoidBone::Head).found && b.spec_get(HumanoidBone::Hips).found && b.spec_get(HumanoidBone::LeftUpperArm).found && b.spec_get(HumanoidBone::LeftLowerArm).found && b.spec_get(HumanoidBone::LeftHand).found && b.spec_get(HumanoidBone::RightUpperArm).found && b.spec_get(HumanoidBone::RightLowerArm).found && b.spec_get(HumanoidBone::RightHand).found) && (b.spec_get(HumanoidBone::Chest).found && b.spec_get(HumanoidBone::Chest).has_transform && b.spec_get(HumanoidBone::Chest).has_rest)),
        spec_plan(i, b).contains(VrIkWrite::SpineBone(SpineSlot::Neck)) <==> ((i.head_target && b.spec_get(HumanoidBone::Head).found && b.spec_get(HumanoidBone::Hips).found && b.spec_get(HumanoidBone::LeftUpperArm).found && b.spec_get(HumanoidBone::LeftLowerArm).found && b.spec_get(HumanoidBone::LeftHand).found && b.spec_get(HumanoidBone::RightUpperArm).found && b.spec_get(HumanoidBone::RightLowerArm).found && b.spec_get(HumanoidBone::RightHand).found) && (b.spec_get(HumanoidBone::Neck).found && b.spec_get(HumanoidBone::Neck).has_transform && b.spec_get(HumanoidBone::Neck).has_rest)),
        spec_plan(i, b).contains(VrIkWrite::SpineBone(SpineSlot::Head)) <==> ((i.head_target && b.spec_get(HumanoidBone::Head).found && b.spec_get(HumanoidBone::Hips).found && b.spec_get(HumanoidBone::LeftUpperArm).found && b.spec_get(HumanoidBone::LeftLowerArm).found && b.spec_get(HumanoidBone::LeftHand).found && b.spec_get(HumanoidBone::RightUpperArm).found && b.spec_get(HumanoidBone::RightLowerArm).found && b.spec_get(HumanoidBone::RightHand).found) && (b.spec_get(HumanoidBone::Head).found && b.spec_get(HumanoidBone::Head).has_transform && b.spec_get(HumanoidBone::Head).has_rest)),
        spec_plan(i, b).contains(VrIkWrite::UpperArm(Side::Left)) <==> ((i.head_target && b.spec_get(HumanoidBone::Head).found && b.spec_get(HumanoidBone::Hips).found && b.spec_get(HumanoidBone::LeftUpperArm).found && b.spec_get(HumanoidBone::LeftLowerArm).found && b.spec_get(HumanoidBone::LeftHand).found && b.spec_get(HumanoidBone::RightUpperArm).found && b.spec_get(HumanoidBone::RightLowerArm).found && b.spec_get(HumanoidBone::RightHand).found) && i.left_hand_target && (b.spec_get(HumanoidBone::LeftUpperArm).found && b.spec_get(HumanoidBone::LeftUpperArm).has_transform && b.spec_get(HumanoidBone::LeftUpperArm).has_rest)),
        spec_plan(i, b).contains(VrIkWrite::LowerArm(Side::Left)) <==> ((i.head_target && b.spec_get(HumanoidBone::Head).found && b.spec_get(HumanoidBone::Hips).found && b.spec_get(HumanoidBone::LeftUpperArm).found && b.spec_get(HumanoidBone::LeftLowerArm).found && b.spec_get(HumanoidBone::LeftHand).found && b.spec_get(HumanoidBone::RightUpperArm).found && b.spec_get(HumanoidBone::RightLowerArm).found && b.spec_get(HumanoidBone::RightHand).found) && i.left_hand_target && (b.spec_get(HumanoidBone::LeftLowerArm).found && b.spec_get(HumanoidBone::LeftLowerArm).has_transform)),
        spec_plan(i, b).contains(VrIkWrite::Hand(Side::Left)) <==> ((i.head_target && b.spec_get(HumanoidBone::Head).found && b.spec_get(HumanoidBone::Hips).found && b.spec_get(HumanoidBone::LeftUpperArm).found && b.spec_get(HumanoidBone::LeftLowerArm).found && b.spec_get(HumanoidBone::LeftHand).found && b.spec_get(HumanoidBone::RightUpperArm).found && b.spec_get(HumanoidBone::RightLowerArm).found && b.spec_get(HumanoidBone::RightHand).found) && i.left_hand_target && (b.spec_get(HumanoidBone::LeftHand).found && b.spec_get(HumanoidBone::LeftHand).has_transform)),
        spec_plan(i, b).contains(VrIkWrite::UpperArm(Side::Right)) <==> ((i.head_target && b.spec_get(HumanoidBone::Head).found && b.spec_get(HumanoidBone::Hips).found && b.spec_get(HumanoidBone::LeftUpperArm).found && b.spec_get(HumanoidBone::LeftLowerArm).found && b.spec_get(HumanoidBone::LeftHand).found && b.spec_get(HumanoidBone::RightUpperArm).found && b.spec_get(HumanoidBone::RightLowerArm).found && b.spec_get(HumanoidBone::RightHand).found) && i.right_hand_target && (b.spec_get(HumanoidBone::RightUpperArm).found && b.spec_get(HumanoidBone::RightUpperArm).has_transform && b.spec_get(HumanoidBone::RightUpperArm).has_rest)),
        spec_plan(i, b).contains(VrIkWrite::LowerArm(Side::Right)) <==> ((i.head_target && b.spec_get(HumanoidBone::Head).found && b.spec_get(HumanoidBone::Hips).found && b.spec_get(HumanoidBone::LeftUpperArm).found && b.spec_get(HumanoidBone::LeftLowerArm).found && b.spec_get(HumanoidBone::LeftHand).found && b.spec_get(HumanoidBone::RightUpperArm).found && b.spec_get(HumanoidBone::RightLowerArm).found && b.spec_get(HumanoidBone::RightHand).found) && i.right_hand_target && (b.spec_get(HumanoidBone::RightLowerArm).found && b.spec_get(HumanoidBone::RightLowerArm).has_transform)),
        spec_plan(i, b).contains(VrIkWrite::Hand(Side::Right)) <==> ((i.head_target && b.spec_get(HumanoidBone::Head).found && b.spec_get(HumanoidBone::Hips).found && b.spec_get(HumanoidBone::LeftUpperArm).found && b.spec_get(HumanoidBone::LeftLowerArm).found && b.spec_get(HumanoidBone::LeftHand).found && b.spec_get(HumanoidBone::RightUpperArm).found && b.spec_get(HumanoidBone::RightLowerArm).found && b.spec_get(HumanoidBone::RightHand).found) && i.right_hand_target && (b.spec_get(HumanoidBone::RightHand).found && b.spec_get(HumanoidBone::RightHand).has_transform)),
        spec_plan(i, b).contains(VrIkWrite::UpperLeg(Side::Left)) <==> ((i.head_target && b.spec_get(HumanoidBone::Head).found && b.spec_get(HumanoidBone::Hips).found && b.spec_get(HumanoidBone::LeftUpperArm).found && b.spec_get(HumanoidBone::LeftLowerArm).found && b.spec_get(HumanoidBone::LeftHand).found && b.spec_get(HumanoidBone::RightUpperArm).found && b.spec_get(HumanoidBone::RightLowerArm).found && b.spec_get(HumanoidBone::RightHand).found) && i.leg_cache && b.spec_get(HumanoidBone::LeftUpperLeg).found && b.spec_get(HumanoidBone::LeftLowerLeg).found && b.spec_get(HumanoidBone::RightUpperLeg).found && b.spec_get(HumanoidBone::RightLowerLeg).found && (b.spec_get(HumanoidBone::LeftUpperLeg).found && b.spec_get(HumanoidBone::LeftUpperLeg).has_transform)),
        spec_plan(i, b).contains(VrIkWrite::LowerLeg(Side::Left)) <==> ((i.head_target && b.spec_get(HumanoidBone::Head).found && b.spec_get(HumanoidBone::Hips).found && b.spec_get(HumanoidBone::LeftUpperArm).found && b.spec_get(HumanoidBone::LeftLowerArm).found && b.spec_get(HumanoidBone::LeftHand).found && b.spec_get(HumanoidBone::RightUpperArm).found && b.spec_get(HumanoidBone::RightLowerArm).found && b.spec_get(HumanoidBone::RightHand).found) && i.leg_cache && b.spec_get(HumanoidBone::LeftUpperLeg).found && b.spec_get(HumanoidBone::LeftLowerLeg).found && b.spec_get(HumanoidBone::RightUpperLeg).found && b.spec_get(HumanoidBone::RightLowerLeg).found && (b.spec_get(HumanoidBone::LeftLowerLeg).found && b.spec_get(HumanoidBone::LeftLowerLeg).has_transform)),
        spec_plan(i, b).contains(VrIkWrite::UpperLeg(Side::Right)) <==> ((i.head_target && b.spec_get(HumanoidBone::Head).found && b.spec_get(HumanoidBone::Hips).found && b.spec_get(HumanoidBone::LeftUpperArm).found && b.spec_get(HumanoidBone::LeftLowerArm).found && b.spec_get(HumanoidBone::LeftHand).found && b.spec_get(HumanoidBone::RightUpperArm).found && b.spec_get(HumanoidBone::RightLowerArm).found && b.spec_get(HumanoidBone::RightHand).found) && i.leg_cache && b.spec_get(HumanoidBone::LeftUpperLeg).found && b.spec_get(HumanoidBone::LeftLowerLeg).found && b.spec_get(HumanoidBone::RightUpperLeg).found && b.spec_get(HumanoidBone::RightLowerLeg).found && (b.spec_get(HumanoidBone::RightUpperLeg).found && b.spec_get(HumanoidBone::RightUpperLeg).has_transform)),
        spec_plan(i, b).contains(VrIkWrite::LowerLeg(Side::Right)) <==> ((i.head_target && b.spec_get(HumanoidBone::Head).found && b.spec_get(HumanoidBone::Hips).found && b.spec_get(HumanoidBone::LeftUpperArm).found && b.spec_get(HumanoidBone::LeftLowerArm).found && b.spec_get(HumanoidBone::LeftHand).found && b.spec_get(HumanoidBone::RightUpperArm).found && b.spec_get(HumanoidBone::RightLowerArm).found && b.spec_get(HumanoidBone::RightHand).found) && i.leg_cache && b.spec_get(HumanoidBone::LeftUpperLeg).found && b.spec_get(HumanoidBone::LeftLowerLeg).found && b.spec_get(HumanoidBone::RightUpperLeg).found && b.spec_get(HumanoidBone::RightLowerLeg).found && (b.spec_get(HumanoidBone::RightLowerLeg).found && b.spec_get(HumanoidBone::RightLowerLeg).has_transform)),
{
    lemma_plan_contains(i, b);
    assert(b.hips == b.spec_get(HumanoidBone::Hips));
}

/// The availability of a bone whose entity has vanished: the humanoid table
/// still names it, but its transform and rest transforms are gone.
pub open spec fn vanished(a: BoneAvailability) -> BoneAvailability {
    BoneAvailability { found: a.found, has_transform: false, has_rest: false }
}

/// When one bone entity vanishes, only that bone's writes are dropped: every
/// other write of the frame still happens, and IK does not stop.
pub proof fn lemma_vanished_bone_drops_only_its_writes(
    i: VrIkFrameInput,
    b: HumanoidBoneMap<BoneAvailability>,
    lost: HumanoidBone,
)
    ensures
        forall|w: VrIkWrite|
            #[trigger] spec_plan(i, b.spec_with(lost, vanished(b.spec_get(lost)))).contains(w) <==> (
            spec_plan(i, b).contains(w) && w.spec_bone() != lost),
{
    let b2 = b.spec_with(lost, vanished(b.spec_get(lost)));
    lemma_plan_contains(i, b);
    lemma_plan_contains(i, b2);
    assert forall|c: HumanoidBone| #[trigger] b2.spec_get(c) == (if c == lost { vanished(b.spec_get(lost)) } else { b.spec_get(c) }) by {
        b.lemma_with_get(lost, vanished(b.spec_get(lost)), c);
    }
    assert(required_bones_found(b2) == required_bones_found(b)) by {
        assert(b2.spec_get(HumanoidBone::Head).found == b.spec_get(HumanoidBone::Head).found);
        assert(b2.spec_get(HumanoidBone::Hips).found == b.spec_get(HumanoidBone::Hips).found);
        assert(b2.spec_get(HumanoidBone::LeftUpperArm).found == b.spec_get(HumanoidBone::LeftUpperArm).found);
        assert(b2.spec_get(HumanoidBone::LeftLowerArm).found == b.spec_get(HumanoidBone::LeftLowerArm).found);
        assert(b2.spec_get(HumanoidBone::LeftHand).found == b.spec_get(HumanoidBone::LeftHand).found);
        assert(b2.spec_get(HumanoidBone::RightUpperArm).found == b.spec_get(HumanoidBone::RightUpperArm).found);
        assert(b2.spec_get(HumanoidBone::RightLowerArm).found == b.spec_get(HumanoidBone::RightLowerArm).found);
        assert(b2.spec_get(HumanoidBone::RightHand).found == b.spec_get(HumanoidBone::RightHand).found);
    }
    assert(leg_bones_found(b2) == leg_bones_found(b)) by {
        assert(b2.spec_get(HumanoidBone::LeftUpperLeg).found == b.spec_get(HumanoidBone::LeftUpperLeg).found);
        assert(b2.spec_get(HumanoidBone::LeftLowerLeg).found == b.spec_get(HumanoidBone::LeftLowerLeg).found);
        assert(b2.spec_get(HumanoidBone::RightUpperLeg).found == b.spec_get(HumanoidBone::RightUpperLeg).found);
        assert(b2.spec_get(HumanoidBone::RightLowerLeg).found == b.spec_get(HumanoidBone::RightLowerLeg).found);
    }
    assert forall|w: VrIkWrite| spec_writes(i, b2, w) <==> (spec_writes(i, b, w) && w.spec_bone() != lost) by {
        assert(b2.spec_get(w.spec_bone()) == (if w.spec_bone() == lost { vanished(b.spec_get(lost)) } else { b.spec_get(w.spec_bone()) }));
        assert(b2.hips == b2.spec_get(HumanoidBone::Hips));
        assert(b.hips == b.spec_get(HumanoidBone::Hips));
    }
}

broadcast proof fn lemma_when_contains(c: bool, w: VrIkWrite, x: VrIkWrite)
    ensures
        #[trigger] when(c, w).contains(x) <==> (c && x == w),
{
    if c {
        assert(when(c, w)[0] == w);
    }
}

proof fn lemma_spine_contains(b: HumanoidBoneMap<BoneAvailability>, w: VrIkWrite)
    ensures
        spec_spine_writes(b).contains(w) <==> (w matches VrIkWrite::SpineBone(slot)
            && can_write_from_rest(b.spec_get(slot.spec_bone()))),
{
    broadcast use lemma_when_contains, vstd::seq_lib::lemma_seq_concat_contains_all_elements;

}

proof fn lemma_arm_contains(b: HumanoidBoneMap<BoneAvailability>, side: Side, w: VrIkWrite)
    ensures
        spec_arm_writes(b, side).contains(w) <==> ((w == VrIkWrite::UpperArm(side)
            && can_write_from_rest(b.spec_get(upper_arm_of(side)))) || (w == VrIkWrite::LowerArm(
            side,
        ) && can_write(b.spec_get(lower_arm_of(side)))) || (w == VrIkWrite::Hand(side) && can_write(
            b.spec_get(hand_of(side)),
        ))),
{
    broadcast use lemma_when_contains, vstd::seq_lib::lemma_seq_concat_contains_all_elements;

}

proof fn lemma_legs_contains(b: HumanoidBoneMap<BoneAvailability>, w: VrIkWrite)
    ensures
        spec_leg_writes(b).contains(w) <==> (leg_bones_found(b) && ((w == VrIkWrite::UpperLeg(
            Side::Left,
        ) && can_write(b.left_upper_leg)) || (w == VrIkWrite::LowerLeg(Side::Left) && can_write(
            b.left_lower_leg,
        )) || (w == VrIkWrite::UpperLeg(Side::Right) && can_write(b.right_upper_leg)) || (w
            == VrIkWrite::LowerLeg(Side::Right) && can_write(b.right_lower_leg)))),
{
    broadcast use lemma_when_contains, vstd::seq_lib::lemma_seq_concat_contains_all_elements;

    if !leg_bones_found(b) {
        assert(!Seq::<VrIkWrite>::empty().contains(w));
    }
}

/// A write is in the plan exactly when [`spec_writes`] holds of it.
pub proof fn lemma_plan_contains(i: VrIkFrameInput, b: HumanoidBoneMap<BoneAvailability>)
    ensures
        forall|w: VrIkWrite| #[trigger] spec_plan(i, b).contains(w) <==> spec_writes(i, b, w),
{
    assert forall|w: VrIkWrite| #[trigger] spec_plan(i, b).contains(w) <==> spec_writes(i, b, w) by {
        let e = Seq::<VrIkWrite>::empty();
        assert(!e.contains(w));
        if i.head_target && required_bones_found(b) {
            let h = when(can_write(b.hips), VrIkWrite::Hips);
            let spine = spec_spine_writes(b);
            let arms_l = if i.left_hand_target { spec_arm_writes(b, Side::Left) } else { e };
            let arms_r = if i.right_hand_target { spec_arm_writes(b, Side::Right) } else { e };
            let legs = if i.leg_cache { spec_leg_writes(b) } else { e };
            lemma_when_contains(can_write(b.hips), VrIkWrite::Hips, w);
            lemma_spine_contains(b, w);
            lemma_arm_contains(b, Side::Left, w);
            lemma_arm_contains(b, Side::Right, w);
            lemma_legs_contains(b, w);
            vstd::seq_lib::lemma_seq_concat_contains_all_elements(h, spine, w);
            vstd::seq_lib::lemma_seq_concat_contains_all_elements(h + spine, arms_l, w);
            vstd::seq_lib::lemma_seq_concat_contains_all_elements(h + spine + arms_l, arms_r, w);
            vstd::seq_lib::lemma_seq_concat_contains_all_elements(h + spine + arms_l + arms_r, legs, w);
            assert(b.hips == b.spec_get(HumanoidBone::Hips));
        }
    }
}

/// Position of a write in the fixed order of a frame.
spec fn write_rank(w: VrIkWrite) -> int {
    match w {
        VrIkWrite::Hips => 0,
        VrIkWrite::SpineBone(slot) => 1 + slot.spec_weight_index(),
        VrIkWrite::UpperArm(Side::Left) => 5,
        VrIkWrite::LowerArm(Side::Left) => 6,
        VrIkWrite::Hand(Side::Left) => 7,
        VrIkWrite::UpperArm(Side::Right) => 8,
        VrIkWrite::LowerArm(Side::Right) => 9,
        VrIkWrite::Hand(Side::Right) => 10,
        VrIkWrite::UpperLeg(Side::Left) => 11,
        VrIkWrite::LowerLeg(Side::Left) => 12,
        VrIkWrite::UpperLeg(Side::Right) => 13,
        VrIkWrite::LowerLeg(Side::Right) => 14,
    }
}

/// Every write of `s` ranks in `[lo, hi)` and ranks strictly increase along `s`.
spec fn ranked_within(s: Seq<VrIkWrite>, lo: int, hi: int) -> bool {
    &&& forall|k: int| 0 <= k < s.len() ==> lo <= #[trigger] write_rank(s[k]) && write_rank(s[k]) < hi
    &&& forall|x: int, y: int| 0 <= x < y < s.len() ==> write_rank(#[trigger] s[x]) < write_rank(#[trigger] s[y])
}

proof fn lemma_ranked_when(c: bool, w: VrIkWrite)
    ensures
        ranked_within(when(c, w), write_rank(w), write_rank(w) + 1),
{
}

proof fn lemma_ranked_concat(a: Seq<VrIkWrite>, b: Seq<VrIkWrite>, lo: int, mid: int, hi: int)
    requires
        ranked_within(a, lo, mid),
        ranked_within(b, mid, hi),
        lo <= mid <= hi,
    ensures
        ranked_within(a + b, lo, hi),
{
    let s = a + b;
    assert forall|k: int| 0 <= k < s.len() implies lo <= #[trigger] write_rank(s[k]) && write_rank(s[k]) < hi by {
        if k < a.len() {
            assert(s[k] == a[k]);
            assert(lo <= write_rank(a[k]) < mid);
        } else {
            assert(s[k] == b[k - a.len()]);
            assert(mid <= write_rank(b[k - a.len()]) < hi);
        }
    }
    assert forall|x: int, y: int| 0 <= x < y < s.len() implies write_rank(#[trigger] s[x]) < write_rank(#[trigger] s[y]) by {
        if y < a.len() {
            assert(s[x] == a[x] && s[y] == a[y]);
        } else if x >= a.len() {
            assert(s[x] == b[x - a.len()] && s[y] == b[y - a.len()]);
        } else {
            assert(s[x] == a[x] && s[y] == b[y - a.len()]);
            assert(write_rank(a[x]) < mid);
            assert(mid <= write_rank(b[y - a.len()]));
        }
    }
}

proof fn lemma_ranked_empty(lo: int, hi: int)
    ensures
        ranked_within(Seq::<VrIkWrite>::empty(), lo, hi),
{
}

proof fn lemma_arm_ranked(b: HumanoidBoneMap<BoneAvailability>, side: Side)
    ensures
        ranked_within(spec_arm_writes(b, side), if side == Side::Left { 5 } else { 8 }, if side == Side::Left { 8 } else { 11 }),
{
    let lo: int = if side == Side::Left { 5 } else { 8 };
    let u = when(can_write_from_rest(b.spec_get(upper_arm_of(side))), VrIkWrite::UpperArm(side));
    let l = when(can_write(b.spec_get(lower_arm_of(side))), VrIkWrite::LowerArm(side));
    let h = when(can_write(b.spec_get(hand_of(side))), VrIkWrite::Hand(side));
    lemma_ranked_when(can_write_from_rest(b.spec_get(upper_arm_of(side))), VrIkWrite::UpperArm(side));
    lemma_ranked_when(can_write(b.spec_get(lower_arm_of(side))), VrIkWrite::LowerArm(side));
    lemma_ranked_when(can_write(b.spec_get(hand_of(side))), VrIkWrite::Hand(side));
    lemma_ranked_concat(u, l, lo, lo + 1, lo + 2);
    lemma_ranked_concat(u + l, h, lo, lo + 2, lo + 3);
}

proof fn lemma_spine_ranked(b: HumanoidBoneMap<BoneAvailability>)
    ensures
        ranked_within(spec_spine_writes(b), 1, 5),
{
    let s1 = when(can_write_from_rest(b.spine), VrIkWrite::SpineBone(SpineSlot::Spine));
    let s2 = when(can_write_from_rest(b.chest), VrIkWrite::SpineBone(SpineSlot::Chest));
    let s3 = when(can_write_from_rest(b.neck), VrIkWrite::SpineBone(SpineSlot::Neck));
    let s4 = when(can_write_from_rest(b.head), VrIkWrite::SpineBone(SpineSlot::Head));
    lemma_ranked_when(can_write_from_rest(b.spine), VrIkWrite::SpineBone(SpineSlot::Spine));
    lemma_ranked_when(can_write_from_rest(b.chest), VrIkWrite::SpineBone(SpineSlot::Chest));
    lemma_ranked_when(can_write_from_rest(b.neck), VrIkWrite::SpineBone(SpineSlot::Neck));
    lemma_ranked_when(can_write_from_rest(b.head), VrIkWrite::SpineBone(SpineSlot::Head));
    lemma_ranked_concat(s1, s2, 1, 2, 3);
    lemma_ranked_concat(s1 + s2, s3, 1, 3, 4);
    lemma_ranked_concat(s1 + s2 + s3, s4, 1, 4, 5);
}

proof fn lemma_legs_ranked(b: HumanoidBoneMap<BoneAvailability>)
    ensures
        ranked_within(spec_leg_writes(b), 11, 15),
{
    if leg_bones_found(b) {
        let l1 = when(can_write(b.left_upper_leg), VrIkWrite::UpperLeg(Side::Left));
        let l2 = when(can_write(b.left_lower_leg), VrIkWrite::LowerLeg(Side::Left));
        let l3 = when(can_write(b.right_upper_leg), VrIkWrite::UpperLeg(Side::Right));
        let l4 = when(can_write(b.right_lower_leg), VrIkWrite::LowerLeg(Side::Right));
        lemma_ranked_when(can_write(b.left_upper_leg), VrIkWrite::UpperLeg(Side::Left));
        lemma_ranked_when(can_write(b.left_lower_leg), VrIkWrite::LowerLeg(Side::Left));
        lemma_ranked_when(can_write(b.right_upper_leg), VrIkWrite::UpperLeg(Side::Right));
        lemma_ranked_when(can_write(b.right_lower_leg), VrIkWrite::LowerLeg(Side::Right));
        lemma_ranked_concat(l1, l2, 11, 12, 13);
        lemma_ranked_concat(l1 + l2, l3, 11, 13, 14);
        lemma_ranked_concat(l1 + l2 + l3, l4, 11, 14, 15);
    } else {
        lemma_ranked_empty(11, 15);
    }
}

proof fn lemma_plan_ranked(i: VrIkFrameInput, b: HumanoidBoneMap<BoneAvailability>)
    ensures
        ranked_within(spec_plan(i, b), 0, 15),
{
    if i.head_target && required_bones_found(b) {
        let h = when(can_write(b.hips), VrIkWrite::Hips);
        lemma_ranked_when(can_write(b.hips), VrIkWrite::Hips);
        let spine = spec_spine_writes(b);
        lemma_spine_ranked(b);
        let arms_l = if i.left_hand_target { spec_arm_writes(b, Side::Left) } else { Seq::empty() };
        let arms_r = if i.right_hand_target { spec_arm_writes(b, Side::Right) } else { Seq::empty() };
        let legs = if i.leg_cache { spec_leg_writes(b) } else { Seq::empty() };
        lemma_arm_ranked(b, Side::Left);
        lemma_arm_ranked(b, Side::Right);
        lemma_legs_ranked(b);
        lemma_ranked_empty(5, 8);
        lemma_ranked_empty(8, 11);
        lemma_ranked_empty(11, 15);
        lemma_ranked_concat(h, spine, 0, 1, 5);
        lemma_ranked_concat(h + spine, arms_l, 0, 5, 8);
        lemma_ranked_concat(h + spine + arms_l, arms_r, 0, 8, 11);
        lemma_ranked_concat(h + spine + arms_l + arms_r, legs, 0, 11, 15);
    } else {
        lemma_ranked_empty(0, 15);
    }
}

proof fn lemma_plan_no_duplicates(i: VrIkFrameInput, b: HumanoidBoneMap<BoneAvailability>)
    ensures
        spec_plan(i, b).no_duplicates(),
{
    lemma_plan_ranked(i, b);
    let s = spec_plan(i, b);
    assert forall|x: int, y: int| 0 <= x < s.len() && 0 <= y < s.len() && x != y implies s[x] != s[y] by {
        if x < y {
            assert(write_rank(s[x]) < write_rank(s[y]));
        } else {
            assert(write_rank(s[y]) < write_rank(s[x]));
        }
    }
}

} // verus!
