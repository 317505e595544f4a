//! Rest-pose calibration: collecting the rest positions of the humanoid bones
//! from which the IK chain lengths and offsets are measured.
use vstd::prelude::*;

use crate::vrm::humanoid_bone::{HumanoidBone, HumanoidBoneMap};

verus! {

/// What is known of one bone's rest position when calibration is attempted.
#[derive(Debug, Clone, Copy)]
pub enum BoneLookup<P> {
    /// The VRM declares no such humanoid bone (a malformed model when the bone
    /// is required; calibration then never completes).
    Missing,
    /// The bone entity exists but its rest transform has not been spawned yet.
    Pending,
    /// The bone's rest-pose position.
    Resolved(P),
}

/// Rest-pose positions of the humanoid bones, the input of the chain cache.
///
/// The `Option` fields are bones that VRM 1.0 leaves optional; without them
/// the IK degrades gracefully.
#[derive(Debug, Clone, Copy)]
pub struct VrIkRestPositions<P> {
    pub head: P,
    pub neck: Option<P>,
    pub chest: Option<P>,
    pub spine: Option<P>,
    pub hips: P,
    pub left_shoulder: Option<P>,
    pub left_upper_arm: P,
    pub left_lower_arm: P,
    pub left_hand: P,
    pub right_shoulder: Option<P>,
    pub right_upper_arm: P,
    pub right_lower_arm: P,
    pub right_hand: P,
    pub left_upper_leg: Option<P>,
    pub left_lower_leg: Option<P>,
    pub left_foot: Option<P>,
    pub right_upper_leg: Option<P>,
    pub right_lower_leg: Option<P>,
    pub right_foot: Option<P>,
}

/// The rest positions of both leg chains.
#[derive(Debug, Clone, Copy)]
pub struct LegRestPositions<P> {
    pub left_upper_leg: P,
    pub left_lower_leg: P,
    pub left_foot: P,
    pub right_upper_leg: P,
    pub right_lower_leg: P,
    pub right_foot: P,
}

/// Outcome of one calibration attempt.
#[derive(Debug, Clone, Copy)]
pub enum CalibrationStatus<P> {
    /// Every required bone has a rest position: the chain cache can be built.
    Ready(VrIkRestPositions<P>),
    /// A required bone's rest transform is not spawned yet: try again next frame.
    Waiting,
    /// The model lacks this required bone, so calibration never completes.
    MissingRequiredBone(HumanoidBone),
}

/// The required bones are exactly head, hips, and the upper arms, lower arms
/// and hands of both sides.
pub proof fn lemma_required_bones()
    ensures
        forall|b: HumanoidBone|
            #![trigger is_required(b)]
            is_required(b) <==> (b == HumanoidBone::Head || b == HumanoidBone::Hips || b
                == HumanoidBone::LeftUpperArm || b == HumanoidBone::LeftLowerArm || b
                == HumanoidBone::LeftHand || b == HumanoidBone::RightUpperArm || b
                == HumanoidBone::RightLowerArm || b == HumanoidBone::RightHand),
{
    lemma_required_members();
}

/// The bones without which no IK chain can be measured, in the order in which
/// calibration looks them up.
pub open spec fn spec_required_bones() -> Seq<HumanoidBone> {
    seq![
        HumanoidBone::Head,
        HumanoidBone::Hips,
        HumanoidBone::LeftUpperArm,
        HumanoidBone::LeftLowerArm,
        HumanoidBone::LeftHand,
        HumanoidBone::RightUpperArm,
        HumanoidBone::RightLowerArm,
        HumanoidBone::RightHand,
    ]
}

pub open spec fn is_required(b: HumanoidBone) -> bool {
    spec_required_bones().contains(b)
}

pub open spec fn resolved_or_none<P>(l: BoneLookup<P>) -> Option<P> {
    match l {
        BoneLookup::Resolved(p) => Some(p),
        _ => None,
    }
}

/// The status that an unresolved required bone `b` gives.
pub open spec fn blocked_by<P>(b: HumanoidBone, l: BoneLookup<P>) -> CalibrationStatus<P> {
    match l {
        BoneLookup::Missing => CalibrationStatus::MissingRequiredBone(b),
        _ => CalibrationStatus::Waiting,
    }
}

/// The rest positions read from a table whose required bones are resolved.
pub open spec fn spec_rest_positions<P>(l: HumanoidBoneMap<BoneLookup<P>>) -> VrIkRestPositions<P> {
    VrIkRestPositions {
        head: l.head->Resolved_0,
        neck: resolved_or_none(l.neck),
        chest: resolved_or_none(l.chest),
        spine: resolved_or_none(l.spine),
        hips: l.hips->Resolved_0,
        left_shoulder: resolved_or_none(l.left_shoulder),
        left_upper_arm: l.left_upper_arm->Resolved_0,
        left_lower_arm: l.left_lower_arm->Resolved_0,
        left_hand: l.left_hand->Resolved_0,
        right_shoulder: resolved_or_none(l.right_shoulder),
        right_upper_arm: l.right_upper_arm->Resolved_0,
        right_lower_arm: l.right_lower_arm->Resolved_0,
        right_hand: l.right_hand->Resolved_0,
        left_upper_leg: resolved_or_none(l.left_upper_leg),
        left_lower_leg: resolved_or_none(l.left_lower_leg),
        left_foot: resolved_or_none(l.left_foot),
        right_upper_leg: resolved_or_none(l.right_upper_leg),
        right_lower_leg: resolved_or_none(l.right_lower_leg),
        right_foot: resolved_or_none(l.right_foot),
    }
}

/// Every field of `p` holds what the lookup table gives for the humanoid bone
/// of the same name: the resolved position of each required bone, and for each
/// optional bone its position when resolved and `None` otherwise.
pub open spec fn rest_positions_read_from<P>(p: VrIkRestPositions<P>, l: HumanoidBoneMap<BoneLookup<P>>) -> bool {
    &&& l.spec_get(HumanoidBone::Head) == BoneLookup::Resolved(p.head)
    &&& l.spec_get(HumanoidBone::Hips) == BoneLookup::Resolved(p.hips)
    &&& l.spec_get(HumanoidBone::LeftUpperArm) == BoneLookup::Resolved(p.left_upper_arm)
    &&& l.spec_get(HumanoidBone::LeftLowerArm) == BoneLookup::Resolved(p.left_lower_arm)
    &&& l.spec_get(HumanoidBone::LeftHand) == BoneLookup::Resolved(p.left_hand)
    &&& l.spec_get(HumanoidBone::RightUpperArm) == BoneLookup::Resolved(p.right_upper_arm)
    &&& l.spec_get(HumanoidBone::RightLowerArm) == BoneLookup::Resolved(p.right_lower_arm)
    &&& l.spec_get(HumanoidBone::RightHand) == BoneLookup::Resolved(p.right_hand)
    &&& (match l.spec_get(HumanoidBone::Neck) { BoneLookup::Resolved(x) => p.neck == Some(x), _ => p.neck is None })
    &&& (match l.spec_get(HumanoidBone::Chest) { BoneLookup::Resolved(x) => p.chest == Some(x), _ => p.chest is None })
    &&& (match l.spec_get(HumanoidBone::Spine) { BoneLookup::Resolved(x) => p.spine == Some(x), _ => p.spine is None })
    &&& (match l.spec_get(HumanoidBone::LeftShoulder) { BoneLookup::Resolved(x) => p.left_shoulder == Some(x), _ => p.left_shoulder is None })
    &&& (match l.spec_get(HumanoidBone::RightShoulder) { BoneLookup::Resolved(x) => p.right_shoulder == Some(x), _ => p.right_shoulder is None })
    &&& (match l.spec_get(HumanoidBone::LeftUpperLeg) { BoneLookup::Resolved(x) => p.left_upper_leg == Some(x), _ => p.left_upper_leg is None })
    &&& (match l.spec_get(HumanoidBone::LeftLowerLeg) { BoneLookup::Resolved(x) => p.left_lower_leg == Some(x), _ => p.left_lower_leg is None })
    &&& (match l.spec_get(HumanoidBone::LeftFoot) { BoneLookup::Resolved(x) => p.left_foot == Some(x), _ => p.left_foot is None })
    &&& (match l.spec_get(HumanoidBone::RightUpperLeg) { BoneLookup::Resolved(x) => p.right_upper_leg == Some(x), _ => p.right_upper_leg is None })
    &&& (match l.spec_get(HumanoidBone::RightLowerLeg) { BoneLookup::Resolved(x) => p.right_lower_leg == Some(x), _ => p.right_lower_leg is None })
    &&& (match l.spec_get(HumanoidBone::RightFoot) { BoneLookup::Resolved(x) => p.right_foot == Some(x), _ => p.right_foot is None })
}

/// The leg chains taken from the rest positions, each bone from its own field.
pub open spec fn legs_read_from<P>(legs: LegRestPositions<P>, r: VrIkRestPositions<P>) -> bool {
    &&& r.left_upper_leg == Some(legs.left_upper_leg)
    &&& r.left_lower_leg == Some(legs.left_lower_leg)
    &&& r.left_foot == Some(legs.left_foot)
    &&& r.right_upper_leg == Some(legs.right_upper_leg)
    &&& r.right_lower_leg == Some(legs.right_lower_leg)
    &&& r.right_foot == Some(legs.right_foot)
}

/// The outcome of calibration: the first required bone (in lookup order) that
/// is not resolved decides, otherwise the rest positions are ready.
pub open spec fn spec_calibration_status<P>(l: HumanoidBoneMap<BoneLookup<P>>) -> CalibrationStatus<P> {
    if !(l.head is Resolved) {
        blocked_by(HumanoidBone::Head, l.head)
    } else if !(l.hips is Resolved) {
        blocked_by(HumanoidBone::Hips, l.hips)
    } else if !(l.left_upper_arm is Resolved) {
        blocked_by(HumanoidBone::LeftUpperArm, l.left_upper_arm)
    } else if !(l.left_lower_arm is Resolved) {
        blocked_by(HumanoidBone::LeftLowerArm, l.left_lower_arm)
    } else if !(l.left_hand is Resolved) {
        blocked_by(HumanoidBone::LeftHand, l.left_hand)
    } else if !(l.right_upper_arm is Resolved) {
        blocked_by(HumanoidBone::RightUpperArm, l.right_upper_arm)
    } else if !(l.right_lower_arm is Resolved) {
        blocked_by(HumanoidBone::RightLowerArm, l.right_lower_arm)
    } else if !(l.right_hand is Resolved) {
        blocked_by(HumanoidBone::RightHand, l.right_hand)
    } else {
        CalibrationStatus::Ready(spec_rest_positions(l))
    }
}

fn lookup_or_none<P: Copy>(l: BoneLookup<P>) -> (r: Option<P>)
    ensures
        r == resolved_or_none(l),
{
    match l {
        BoneLookup::Resolved(p) => Some(p),
        _ => None,
    }
}

fn blocked<P>(b: HumanoidBone, l: BoneLookup<P>) -> (r: CalibrationStatus<P>)
    ensures
        r == blocked_by(b, l),
{
    match l {
        BoneLookup::Missing => CalibrationStatus::MissingRequiredBone(b),
        _ => CalibrationStatus::Waiting,
    }
}

/// Decides one calibration attempt from what is known of each bone.
///
/// The required bones are looked up in the order of [`spec_required_bones`];
/// the first one that is not resolved ends the attempt: a bone the model lacks
/// gives `MissingRequiredBone` (calibration never completes), a bone whose rest
/// transform is not spawned yet gives `Waiting`. When all required bones are
/// resolved the rest positions are returned, optional bones as `Some` exactly
/// when resolved.
pub fn resolve_rest_positions<P: Copy>(lookups: &HumanoidBoneMap<BoneLookup<P>>) -> (r:
    CalibrationStatus<P>)
    ensures
        r == spec_calibration_status(*lookups),
        (r is Ready) <==> (forall|b: HumanoidBone| is_required(b) ==> #[trigger] lookups.spec_get(b) is Resolved),
        (exists|b: HumanoidBone| is_required(b) && #[trigger] lookups.spec_get(b) is Missing) ==> !(r is Ready),
        r matches CalibrationStatus::MissingRequiredBone(b) ==> is_required(b) && lookups.spec_get(b) is Missing,
        r matches CalibrationStatus::Ready(p) ==> rest_positions_read_from(p, *lookups),
        r is Waiting ==> exists|b: HumanoidBone| is_required(b) && #[trigger] lookups.spec_get(b) is Pending,
{
    proof {
        lemma_status_properties(*lookups);
        if spec_calibration_status(*lookups) is Ready {
            lemma_ready_positions_are_the_lookups(*lookups);
        }
    }
    let head = match lookups.head { BoneLookup::Resolved(p) => p, l => return blocked(HumanoidBone::Head, l) };
    let hips = match lookups.hips { BoneLookup::Resolved(p) => p, l => return blocked(HumanoidBone::Hips, l) };
    let left_upper_arm = match lookups.left_upper_arm {
        BoneLookup::Resolved(p) => p,
        l => return blocked(HumanoidBone::LeftUpperArm, l),
    };
    let left_lower_arm = match lookups.left_lower_arm {
        BoneLookup::Resolved(p) => p,
        l => return blocked(HumanoidBone::LeftLowerArm, l),
    };
    let left_hand = match lookups.left_hand {
        BoneLookup::Resolved(p) => p,
        l => return blocked(HumanoidBone::LeftHand, l),
    };
    let right_upper_arm = match lookups.right_upper_arm {
        BoneLookup::Resolved(p) => p,
        l => return blocked(HumanoidBone::RightUpperArm, l),
    };
    let right_lower_arm = match lookups.right_lower_arm {
        BoneLookup::Resolved(p) => p,
        l => return blocked(HumanoidBone::RightLowerArm, l),
    };
    let right_hand = match lookups.right_hand {
        BoneLookup::Resolved(p) => p,
        l => return blocked(HumanoidBone::RightHand, l),
    };
    CalibrationStatus::Ready(VrIkRestPositions {
        head,
        neck: lookup_or_none(lookups.neck),
        chest: lookup_or_none(lookups.chest),
        spine: lookup_or_none(lookups.spine),
        hips,
        left_shoulder: lookup_or_none(lookups.left_shoulder),
        left_upper_arm,
        left_lower_arm,
        left_hand,
        right_shoulder: lookup_or_none(lookups.right_shoulder),
        right_upper_arm,
        right_lower_arm,
        right_hand,
        left_upper_leg: lookup_or_none(lookups.left_upper_leg),
        left_lower_leg: lookup_or_none(lookups.left_lower_leg),
        left_foot: lookup_or_none(lookups.left_foot),
        right_upper_leg: lookup_or_none(lookups.right_upper_leg),
        right_lower_leg: lookup_or_none(lookups.right_lower_leg),
        right_foot: lookup_or_none(lookups.right_foot),
    })
}

proof fn lemma_required_members()
    ensures
        forall|b: HumanoidBone|
            #![trigger is_required(b)]
            is_required(b) <==> (b == HumanoidBone::Head || b == HumanoidBone::Hips || b
                == HumanoidBone::LeftUpperArm || b == HumanoidBone::LeftLowerArm || b
                == HumanoidBone::LeftHand || b == HumanoidBone::RightUpperArm || b
                == HumanoidBone::RightLowerArm || b == HumanoidBone::RightHand),
{
    let s = spec_required_bones();
    assert forall|b: HumanoidBone| #![trigger is_required(b)]
        (b == HumanoidBone::Head || b == HumanoidBone::Hips || b == HumanoidBone::LeftUpperArm
            || b == HumanoidBone::LeftLowerArm || b == HumanoidBone::LeftHand || b
            == HumanoidBone::RightUpperArm || b == HumanoidBone::RightLowerArm || b
            == HumanoidBone::RightHand) implies is_required(b) by {
        if b == HumanoidBone::Head { assert(s[0] == b); }
        if b == HumanoidBone::Hips { assert(s[1] == b); }
        if b == HumanoidBone::LeftUpperArm { assert(s[2] == b); }
        if b == HumanoidBone::LeftLowerArm { assert(s[3] == b); }
        if b == HumanoidBone::LeftHand { assert(s[4] == b); }
        if b == HumanoidBone::RightUpperArm { assert(s[5] == b); }
        if b == HumanoidBone::RightLowerArm { assert(s[6] == b); }
        if b == HumanoidBone::RightHand { assert(s[7] == b); }
    }
}

proof fn lemma_status_properties<P>(l: HumanoidBoneMap<BoneLookup<P>>)
    ensures
        (spec_calibration_status(l) is Ready) <==> (forall|b: HumanoidBone| is_required(b) ==> #[trigger] l.spec_get(b) is Resolved),
        
        spec_calibration_status(l) matches CalibrationStatus::MissingRequiredBone(b) ==> is_required(b) && l.spec_get(b) is Missing,
        spec_calibration_status(l) is Waiting ==> exists|b: HumanoidBone| is_required(b) && #[trigger] l.spec_get(b) is Pending,
{
    lemma_required_members();
    if spec_calibration_status(l) is Ready {
        assert forall|b: HumanoidBone| is_required(b) implies #[trigger] l.spec_get(b) is Resolved by {}
    } else {
        if !(l.head is Resolved) { assert(is_required(HumanoidBone::Head) && !(l.spec_get(HumanoidBone::Head) is Resolved)); }
        else if !(l.hips is Resolved) { assert(is_required(HumanoidBone::Hips) && !(l.spec_get(HumanoidBone::Hips) is Resolved)); }
        else if !(l.left_upper_arm is Resolved) { assert(is_required(HumanoidBone::LeftUpperArm) && !(l.spec_get(HumanoidBone::LeftUpperArm) is Resolved)); }
        else if !(l.left_lower_arm is Resolved) { assert(is_required(HumanoidBone::LeftLowerArm) && !(l.spec_get(HumanoidBone::LeftLowerArm) is Resolved)); }
        else if !(l.left_hand is Resolved) { assert(is_required(HumanoidBone::LeftHand) && !(l.spec_get(HumanoidBone::LeftHand) is Resolved)); }
        else if !(l.right_upper_arm is Resolved) { assert(is_required(HumanoidBone::RightUpperArm) && !(l.spec_get(HumanoidBone::RightUpperArm) is Resolved)); }
        else if !(l.right_lower_arm is Resolved) { assert(is_required(HumanoidBone::RightLowerArm) && !(l.spec_get(HumanoidBone::RightLowerArm) is Resolved)); }
        else { assert(is_required(HumanoidBone::RightHand) && !(l.spec_get(HumanoidBone::RightHand) is Resolved)); }
    }
}

/// Both leg chains, when all six leg bones have rest positions.
pub open spec fn spec_leg_chain<P>(r: VrIkRestPositions<P>) -> Option<LegRestPositions<P>> {
    if r.left_upper_leg is Some && r.left_lower_leg is Some && r.left_foot is Some
        && r.right_upper_leg is Some && r.right_lower_leg is Some && r.right_foot is Some {
        Some(
            LegRestPositions {
                left_upper_leg: r.left_upper_leg->0,
                left_lower_leg: r.left_lower_leg->0,
                left_foot: r.left_foot->0,
                right_upper_leg: r.right_upper_leg->0,
                right_lower_leg: r.right_lower_leg->0,
                right_foot: r.right_foot->0,
            },
        )
    } else {
        None
    }
}

impl<P: Copy> VrIkRestPositions<P> {
    /// The leg chains the IK can drive: `Some` exactly when all six leg bones
    /// (upper leg, lower leg, foot; left and right) have rest positions.
    pub fn leg_chain(&self) -> (r: Option<LegRestPositions<P>>)
        ensures
            r == spec_leg_chain(*self),
            r matches Some(legs) ==> legs_read_from(legs, *self),
            r is Some <==> (self.left_upper_leg is Some && self.left_lower_leg is Some
                && self.left_foot is Some && self.right_upper_leg is Some
                && self.right_lower_leg is Some && self.right_foot is Some),
    {
        proof {
            lemma_leg_chain_bones(*self);
        }
        match (self.left_upper_leg, self.left_lower_leg, self.left_foot, self.right_upper_leg,
            self.right_lower_leg, self.right_foot) {
            (Some(lu), Some(ll), Some(lf), Some(ru), Some(rl), Some(rf)) => Some(LegRestPositions {
                left_upper_leg: lu,
                left_lower_leg: ll,
                left_foot: lf,
                right_upper_leg: ru,
                right_lower_leg: rl,
                right_foot: rf,
            }),
            _ => None,
        }
    }

    /// The points from which the shoulder offsets are measured (left, right):
    /// the shoulder bone, or the upper arm when the model has no shoulder bone.
    pub fn shoulder_anchors(&self) -> (r: (P, P))
        ensures
            r.0 == (match self.left_shoulder { Some(s) => s, None => self.left_upper_arm }),
            r.1 == (match self.right_shoulder { Some(s) => s, None => self.right_upper_arm }),
    {
        let left = match self.left_shoulder { Some(s) => s, None => self.left_upper_arm };
        let right = match self.right_shoulder { Some(s) => s, None => self.right_upper_arm };
        (left, right)
    }
}

/// A calibrated VRM gets leg chains exactly when all six leg bones (upper leg,
/// lower leg and foot, on both sides) had rest positions; otherwise only arms
/// and spine are driven.
pub proof fn lemma_leg_chain_iff_leg_bones_resolved<P>(l: HumanoidBoneMap<BoneLookup<P>>)
    requires
        spec_calibration_status(l) is Ready,
    ensures
        spec_leg_chain(spec_calibration_status(l)->Ready_0) is Some <==> (l.left_upper_leg is Resolved
            && l.left_lower_leg is Resolved && l.left_foot is Resolved && l.right_upper_leg is Resolved
            && l.right_lower_leg is Resolved && l.right_foot is Resolved),
{
}

/// When calibration is ready, each rest position is the one looked up for the
/// humanoid bone of the same name (left stays left, elbows stay elbows), and an
/// optional bone is present exactly when its lookup resolved.
pub proof fn lemma_ready_positions_are_the_lookups<P>(l: HumanoidBoneMap<BoneLookup<P>>)
    requires
        spec_calibration_status(l) is Ready,
    ensures
        rest_positions_read_from(spec_calibration_status(l)->Ready_0, l),
{
}

/// The leg chains exist exactly when all six leg bones have rest positions, and
/// each chain bone is the rest position of the same bone on the same side.
pub proof fn lemma_leg_chain_bones<P>(r: VrIkRestPositions<P>)
    ensures
        spec_leg_chain(r) matches Some(legs) ==> legs_read_from(legs, r),
        spec_leg_chain(r) is Some <==> (r.left_upper_leg is Some && r.left_lower_leg is Some
            && r.left_foot is Some && r.right_upper_leg is Some && r.right_lower_leg is Some
            && r.right_foot is Some),
{
}

} // verus!
