//! Layout of the capsules that approximate a humanoid body: which bone
//! positions each capsule spans and which body part it stands for. The
//! dimensions of a capsule are computed from the two positions by the caller.
use vstd::prelude::*;

use crate::vrm::humanoid_bone::{HumanoidBone, HumanoidBoneMap};

verus! {

/// The body part that a capsule stands for.
#[derive(Debug, Clone, Copy, PartialEq, Eq, Hash, Structural)]
pub enum HumanoidCapsuleKind {
    Head,
    Torso,
    Limb,
}

/// The positions of the humanoid bones that the capsule layout reads.
///
/// `chest` is optional in VRM 1.0: without it the torso is one capsule from
/// the hips to the neck.
#[derive(Debug, Clone, Copy)]
pub struct HumanoidBonePositions<P> {
    pub head: P,
    pub neck: P,
    pub chest: Option<P>,
    pub hips: P,
    pub left_upper_arm: P,
    pub left_lower_arm: P,
    pub left_hand: P,
    pub right_upper_arm: P,
    pub right_lower_arm: P,
    pub right_hand: P,
    pub left_upper_leg: P,
    pub left_lower_leg: P,
    pub left_foot: P,
    pub right_upper_leg: P,
    pub right_lower_leg: P,
    pub right_foot: P,
}

/// One capsule of the layout: its body part and the two positions that its
/// axis joins. A head capsule sits on `from` (the head) and is sized by the
/// distance to `to` (the neck).
#[derive(Debug, Clone, Copy)]
pub struct CapsuleSegment<P> {
    pub kind: HumanoidCapsuleKind,
    pub from: P,
    pub to: P,
}

/// Every bone that the layout needs, chest excepted, has a position.
pub open spec fn required_positions_known<P>(p: HumanoidBoneMap<Option<P>>) -> bool {
    &&& p.head is Some
    &&& p.neck is Some
    &&& p.hips is Some
    &&& p.left_upper_arm is Some
    &&& p.left_lower_arm is Some
    &&& p.left_hand is Some
    &&& p.right_upper_arm is Some
    &&& p.right_lower_arm is Some
    &&& p.right_hand is Some
    &&& p.left_upper_leg is Some
    &&& p.left_lower_leg is Some
    &&& p.left_foot is Some
    &&& p.right_upper_leg is Some
    &&& p.right_lower_leg is Some
    &&& p.right_foot is Some
}

/// The positions read from a per-bone table, when every required one is known.
pub open spec fn spec_positions_from<P>(p: HumanoidBoneMap<Option<P>>) -> Option<HumanoidBonePositions<P>> {
    if required_positions_known(p) {
        Some(
            HumanoidBonePositions {
                head: p.head->0,
                neck: p.neck->0,
                chest: p.chest,
                hips: p.hips->0,
                left_upper_arm: p.left_upper_arm->0,
                left_lower_arm: p.left_lower_arm->0,
                left_hand: p.left_hand->0,
                right_upper_arm: p.right_upper_arm->0,
                right_lower_arm: p.right_lower_arm->0,
                right_hand: p.right_hand->0,
                left_upper_leg: p.left_upper_leg->0,
                left_lower_leg: p.left_lower_leg->0,
                left_foot: p.left_foot->0,
                right_upper_leg: p.right_upper_leg->0,
                right_lower_leg: p.right_lower_leg->0,
                right_foot: p.right_foot->0,
            },
        )
    } else {
        None
    }
}

pub open spec fn segment<P>(kind: HumanoidCapsuleKind, from: P, to: P) -> CapsuleSegment<P> {
    CapsuleSegment { kind, from, to }
}

/// The torso capsules: hips to chest and chest to neck, or hips to neck.
pub open spec fn spec_torso_segments<P>(b: HumanoidBonePositions<P>) -> Seq<CapsuleSegment<P>> {
    match b.chest {
        Some(chest) => seq![
            segment(HumanoidCapsuleKind::Torso, b.hips, chest),
            segment(HumanoidCapsuleKind::Torso, chest, b.neck),
        ],
        None => seq![segment(HumanoidCapsuleKind::Torso, b.hips, b.neck)],
    }
}

/// The limb capsules: upper and lower arm, left then right, then upper and
/// lower leg, left then right.
pub open spec fn spec_limb_segments<P>(b: HumanoidBonePositions<P>) -> Seq<CapsuleSegment<P>> {
    seq![
        segment(HumanoidCapsuleKind::Limb, b.left_upper_arm, b.left_lower_arm),
        segment(HumanoidCapsuleKind::Limb, b.left_lower_arm, b.left_hand),
        segment(HumanoidCapsuleKind::Limb, b.right_upper_arm, b.right_lower_arm),
        segment(HumanoidCapsuleKind::Limb, b.right_lower_arm, b.right_hand),
        segment(HumanoidCapsuleKind::Limb, b.left_upper_leg, b.left_lower_leg),
        segment(HumanoidCapsuleKind::Limb, b.left_lower_leg, b.left_foot),
        segment(HumanoidCapsuleKind::Limb, b.right_upper_leg, b.right_lower_leg),
        segment(HumanoidCapsuleKind::Limb, b.right_lower_leg, b.right_foot),
    ]
}

/// The whole layout: the head, then the torso, then the limbs.
pub open spec fn spec_capsule_segments<P>(b: HumanoidBonePositions<P>) -> Seq<CapsuleSegment<P>> {
    seq![segment(HumanoidCapsuleKind::Head, b.head, b.neck)] + spec_torso_segments(b)
        + spec_limb_segments(b)
}

/// Every field of `b` is the table's position of the humanoid bone of the same
/// name; the chest is whatever the table holds for it.
pub open spec fn positions_read_from<P>(b: HumanoidBonePositions<P>, t: HumanoidBoneMap<Option<P>>) -> bool {
    &&& t.spec_get(HumanoidBone::Head) == Some(b.head)
    &&& t.spec_get(HumanoidBone::Neck) == Some(b.neck)
    &&& t.spec_get(HumanoidBone::Hips) == Some(b.hips)
    &&& t.spec_get(HumanoidBone::LeftUpperArm) == Some(b.left_upper_arm)
    &&& t.spec_get(HumanoidBone::LeftLowerArm) == Some(b.left_lower_arm)
    &&& t.spec_get(HumanoidBone::LeftHand) == Some(b.left_hand)
    &&& t.spec_get(HumanoidBone::RightUpperArm) == Some(b.right_upper_arm)
    &&& t.spec_get(HumanoidBone::RightLowerArm) == Some(b.right_lower_arm)
    &&& t.spec_get(HumanoidBone::RightHand) == Some(b.right_hand)
    &&& t.spec_get(HumanoidBone::LeftUpperLeg) == Some(b.left_upper_leg)
    &&& t.spec_get(HumanoidBone::LeftLowerLeg) == Some(b.left_lower_leg)
    &&& t.spec_get(HumanoidBone::LeftFoot) == Some(b.left_foot)
    &&& t.spec_get(HumanoidBone::RightUpperLeg) == Some(b.right_upper_leg)
    &&& t.spec_get(HumanoidBone::RightLowerLeg) == Some(b.right_lower_leg)
    &&& t.spec_get(HumanoidBone::RightFoot) == Some(b.right_foot)
    &&& t.spec_get(HumanoidBone::Chest) == b.chest
}

/// All bones but the chest have a position in the table.
pub open spec fn capsule_bones_known<P>(t: HumanoidBoneMap<Option<P>>) -> bool {
    &&& t.spec_get(HumanoidBone::Head) is Some
    &&& t.spec_get(HumanoidBone::Neck) is Some
    &&& t.spec_get(HumanoidBone::Hips) is Some
    &&& t.spec_get(HumanoidBone::LeftUpperArm) is Some
    &&& t.spec_get(HumanoidBone::LeftLowerArm) is Some
    &&& t.spec_get(HumanoidBone::LeftHand) is Some
    &&& t.spec_get(HumanoidBone::RightUpperArm) is Some
    &&& t.spec_get(HumanoidBone::RightLowerArm) is Some
    &&& t.spec_get(HumanoidBone::RightHand) is Some
    &&& t.spec_get(HumanoidBone::LeftUpperLeg) is Some
    &&& t.spec_get(HumanoidBone::LeftLowerLeg) is Some
    &&& t.spec_get(HumanoidBone::LeftFoot) is Some
    &&& t.spec_get(HumanoidBone::RightUpperLeg) is Some
    &&& t.spec_get(HumanoidBone::RightLowerLeg) is Some
    &&& t.spec_get(HumanoidBone::RightFoot) is Some
}

/// Segment `s` is a capsule of kind `k` from `a` to `c`.
pub open spec fn joins<P>(s: CapsuleSegment<P>, k: HumanoidCapsuleKind, a: P, c: P) -> bool {
    s.kind == k && s.from == a && s.to == c
}

/// The layout of `b`: the head capsule on the head (sized toward the neck);
/// hips to chest and chest to neck, or hips to neck without a chest; then each
/// limb bone joined to its direct child, left arm, right arm, left leg, right leg.
pub open spec fn layout_joins_adjacent_bones<P>(s: Seq<CapsuleSegment<P>>, b: HumanoidBonePositions<P>) -> bool {
    let t: int = if b.chest is Some { 3 } else { 2 };
    &&& s.len() == t + 8
    &&& joins(s[0], HumanoidCapsuleKind::Head, b.head, b.neck)
    &&& (b.chest matches Some(c) ==> joins(s[1], HumanoidCapsuleKind::Torso, b.hips, c) && joins(s[2], HumanoidCapsuleKind::Torso, c, b.neck))
    &&& (b.chest is None ==> joins(s[1], HumanoidCapsuleKind::Torso, b.hips, b.neck))
    &&& joins(s[t], HumanoidCapsuleKind::Limb, b.left_upper_arm, b.left_lower_arm)
    &&& joins(s[t + 1], HumanoidCapsuleKind::Limb, b.left_lower_arm, b.left_hand)
    &&& joins(s[t + 2], HumanoidCapsuleKind::Limb, b.right_upper_arm, b.right_lower_arm)
    &&& joins(s[t + 3], HumanoidCapsuleKind::Limb, b.right_lower_arm, b.right_hand)
    &&& joins(s[t + 4], HumanoidCapsuleKind::Limb, b.left_upper_leg, b.left_lower_leg)
    &&& joins(s[t + 5], HumanoidCapsuleKind::Limb, b.left_lower_leg, b.left_foot)
    &&& joins(s[t + 6], HumanoidCapsuleKind::Limb, b.right_upper_leg, b.right_lower_leg)
    &&& joins(s[t + 7], HumanoidCapsuleKind::Limb, b.right_lower_leg, b.right_foot)
}

impl<P: Copy> HumanoidBonePositions<P> {
    /// Collects the positions from the per-bone table that the caller resolved
    /// from the bone entities of a VRM. `None` when any bone but the chest has
    /// no position.
    pub fn from_bone_entities(positions: &HumanoidBoneMap<Option<P>>) -> (r: Option<Self>)
        ensures
            r == spec_positions_from(*positions),
            r is Some <==> capsule_bones_known(*positions),
            r matches Some(b) ==> positions_read_from(b, *positions),
    {
        proof {
            lemma_positions_are_the_table(*positions);
        }
        let head = match positions.head { Some(p) => p, None => return None };
        let neck = match positions.neck { Some(p) => p, None => return None };
        let hips = match positions.hips { Some(p) => p, None => return None };
        let left_upper_arm = match positions.left_upper_arm { Some(p) => p, None => return None };
        let left_lower_arm = match positions.left_lower_arm { Some(p) => p, None => return None };
        let left_hand = match positions.left_hand { Some(p) => p, None => return None };
        let right_upper_arm = match positions.right_upper_arm { Some(p) => p, None => return None };
        let right_lower_arm = match positions.right_lower_arm { Some(p) => p, None => return None };
        let right_hand = match positions.right_hand { Some(p) => p, None => return None };
        let left_upper_leg = match positions.left_upper_leg { Some(p) => p, None => return None };
        let left_lower_leg = match positions.left_lower_leg { Some(p) => p, None => return None };
        let left_foot = match positions.left_foot { Some(p) => p, None => return None };
        let right_upper_leg = match positions.right_upper_leg { Some(p) => p, None => return None };
        let right_lower_leg = match positions.right_lower_leg { Some(p) => p, None => return None };
        let right_foot = match positions.right_foot { Some(p) => p, None => return None };
        Some(HumanoidBonePositions {
            head,
            neck,
            chest: positions.chest,
            hips,
            left_upper_arm,
            left_lower_arm,
            left_hand,
            right_upper_arm,
            right_lower_arm,
            right_hand,
            left_upper_leg,
            left_lower_leg,
            left_foot,
            right_upper_leg,
            right_lower_leg,
            right_foot,
        })
    }
}

/// The capsule layout of a humanoid: one head capsule (head to neck), the
/// torso (hips to chest and chest to neck, or hips to neck without a chest)
/// and eight limb capsules (upper and lower arm and leg, left and right).
pub fn capsule_segments<P: Copy>(bones: &HumanoidBonePositions<P>) -> (r: Vec<CapsuleSegment<P>>)
    ensures
        r@ == spec_capsule_segments(*bones),
        layout_joins_adjacent_bones(r@, *bones),
{
    proof {
        lemma_capsules_join_adjacent_bones(*bones);
    }
    let mut r: Vec<CapsuleSegment<P>> = Vec::with_capacity(11);
    r.push(CapsuleSegment { kind: HumanoidCapsuleKind::Head, from: bones.head, to: bones.neck });
    match bones.chest {
        Some(chest) => {
            r.push(CapsuleSegment { kind: HumanoidCapsuleKind::Torso, from: bones.hips, to: chest });
            r.push(CapsuleSegment { kind: HumanoidCapsuleKind::Torso, from: chest, to: bones.neck });
        },
        None => {
            r.push(CapsuleSegment { kind: HumanoidCapsuleKind::Torso, from: bones.hips, to: bones.neck });
        },
    }
    let limb = HumanoidCapsuleKind::Limb;
    r.push(CapsuleSegment { kind: limb, from: bones.left_upper_arm, to: bones.left_lower_arm });
    r.push(CapsuleSegment { kind: limb, from: bones.left_lower_arm, to: bones.left_hand });
    r.push(CapsuleSegment { kind: limb, from: bones.right_upper_arm, to: bones.right_lower_arm });
    r.push(CapsuleSegment { kind: limb, from: bones.right_lower_arm, to: bones.right_hand });
    r.push(CapsuleSegment { kind: limb, from: bones.left_upper_leg, to: bones.left_lower_leg });
    r.push(CapsuleSegment { kind: limb, from: bones.left_lower_leg, to: bones.left_foot });
    r.push(CapsuleSegment { kind: limb, from: bones.right_upper_leg, to: bones.right_lower_leg });
    r.push(CapsuleSegment { kind: limb, from: bones.right_lower_leg, to: bones.right_foot });
    assert(r@ =~= spec_capsule_segments(*bones));
    r
}

/// A skeleton with a chest gets eleven capsules, one without gets ten: the
/// first is the head, then two (or one) torso capsules, then eight limbs.
pub proof fn lemma_capsule_layout_shape<P>(b: HumanoidBonePositions<P>)
    ensures
        ({
            let s = spec_capsule_segments(b);
            let torso_end: int = if b.chest is Some { 3 } else { 2 };
            &&& s.len() == torso_end + 8
            &&& s[0].kind == HumanoidCapsuleKind::Head
            &&& forall|i: int| 1 <= i < torso_end ==> (#[trigger] s[i]).kind == HumanoidCapsuleKind::Torso
            &&& forall|i: int| torso_end <= i < s.len() ==> (#[trigger] s[i]).kind == HumanoidCapsuleKind::Limb
        }),
{
    let s = spec_capsule_segments(b);
    let torso_end: int = if b.chest is Some { 3 } else { 2 };
    let limbs = spec_limb_segments(b);
    assert forall|i: int| torso_end <= i < s.len() implies (#[trigger] s[i]).kind == HumanoidCapsuleKind::Limb by {
        assert(s[i] == limbs[i - torso_end]);
    }
}

/// The positions are read exactly when every bone but the chest has one, and
/// each field is the table's position of the bone of the same name.
pub proof fn lemma_positions_are_the_table<P>(t: HumanoidBoneMap<Option<P>>)
    ensures
        spec_positions_from(t) is Some <==> capsule_bones_known(t),
        spec_positions_from(t) matches Some(b) ==> positions_read_from(b, t),
{
}

/// The head capsule sits on the head, the torso runs hips (to chest) to neck,
/// and each limb capsule joins a limb bone to its direct child (upper arm to
/// lower arm, lower arm to hand, upper leg to lower leg, lower leg to foot).
pub proof fn lemma_capsules_join_adjacent_bones<P>(b: HumanoidBonePositions<P>)
    ensures
        layout_joins_adjacent_bones(spec_capsule_segments(b), b),
{
    let s = spec_capsule_segments(b);
    let t: int = if b.chest is Some { 3 } else { 2 };
    let limbs = spec_limb_segments(b);
    assert forall|k: int| 0 <= k < 8 implies s[t + k] == limbs[k] by {}
}

} // verus!
