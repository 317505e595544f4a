use vstd::prelude::*;

pub mod capsule_fit;

verus! {

/// The VRM 1.0 humanoid bones that the avatar logic of this crate reads or writes.
#[derive(Debug, Clone, Copy, PartialEq, Eq, Hash, Structural)]
pub enum HumanoidBone {
    Hips,
    Spine,
    Chest,
    Neck,
    Head,
    LeftShoulder,
    LeftUpperArm,
    LeftLowerArm,
    LeftHand,
    RightShoulder,
    RightUpperArm,
    RightLowerArm,
    RightHand,
    LeftUpperLeg,
    LeftLowerLeg,
    LeftFoot,
    RightUpperLeg,
    RightLowerLeg,
    RightFoot,
}

impl HumanoidBone {
    /// The bone's name in `VRMC_vrm.humanoid.humanBones` (camelCase).
    pub open spec fn spec_name(self) -> Seq<char> {
        match self {
            HumanoidBone::Hips => "hips"@,
            HumanoidBone::Spine => "spine"@,
            HumanoidBone::Chest => "chest"@,
            HumanoidBone::Neck => "neck"@,
            HumanoidBone::Head => "head"@,
            HumanoidBone::LeftShoulder => "leftShoulder"@,
            HumanoidBone::LeftUpperArm => "leftUpperArm"@,
            HumanoidBone::LeftLowerArm => "leftLowerArm"@,
            HumanoidBone::LeftHand => "leftHand"@,
            HumanoidBone::RightShoulder => "rightShoulder"@,
            HumanoidBone::RightUpperArm => "rightUpperArm"@,
            HumanoidBone::RightLowerArm => "rightLowerArm"@,
            HumanoidBone::RightHand => "rightHand"@,
            HumanoidBone::LeftUpperLeg => "leftUpperLeg"@,
            HumanoidBone::LeftLowerLeg => "leftLowerLeg"@,
            HumanoidBone::LeftFoot => "leftFoot"@,
            HumanoidBone::RightUpperLeg => "rightUpperLeg"@,
            HumanoidBone::RightLowerLeg => "rightLowerLeg"@,
            HumanoidBone::RightFoot => "rightFoot"@,
        }
    }

    /// The bone's name in `VRMC_vrm.humanoid.humanBones`, the key under which
    /// the bone entity of a loaded VRM is found.
    pub fn name(self) -> (r: &'static str)
        ensures
            r@ == self.spec_name(),
    {
        match self {
            HumanoidBone::Hips => "hips",
            HumanoidBone::Spine => "spine",
            HumanoidBone::Chest => "chest",
            HumanoidBone::Neck => "neck",
            HumanoidBone::Head => "head",
            HumanoidBone::LeftShoulder => "leftShoulder",
            HumanoidBone::LeftUpperArm => "leftUpperArm",
            HumanoidBone::LeftLowerArm => "leftLowerArm",
            HumanoidBone::LeftHand => "leftHand",
            HumanoidBone::RightShoulder => "rightShoulder",
            HumanoidBone::RightUpperArm => "rightUpperArm",
            HumanoidBone::RightLowerArm => "rightLowerArm",
            HumanoidBone::RightHand => "rightHand",
            HumanoidBone::LeftUpperLeg => "leftUpperLeg",
            HumanoidBone::LeftLowerLeg => "leftLowerLeg",
            HumanoidBone::LeftFoot => "leftFoot",
            HumanoidBone::RightUpperLeg => "rightUpperLeg",
            HumanoidBone::RightLowerLeg => "rightLowerLeg",
            HumanoidBone::RightFoot => "rightFoot",
        }
    }
}

/// One value per humanoid bone.
#[derive(Debug, Clone, Copy)]
pub struct HumanoidBoneMap<T> {
    pub hips: T,
    pub spine: T,
    pub chest: T,
    pub neck: T,
    pub head: T,
    pub left_shoulder: T,
    pub left_upper_arm: T,
    pub left_lower_arm: T,
    pub left_hand: T,
    pub right_shoulder: T,
    pub right_upper_arm: T,
    pub right_lower_arm: T,
    pub right_hand: T,
    pub left_upper_leg: T,
    pub left_lower_leg: T,
    pub left_foot: T,
    pub right_upper_leg: T,
    pub right_lower_leg: T,
    pub right_foot: T,
}

impl<T> HumanoidBoneMap<T> {
    /// The value held for `bone`.
    pub open spec fn spec_get(&self, bone: HumanoidBone) -> T {
        match bone {
            HumanoidBone::Hips => self.hips,
            HumanoidBone::Spine => self.spine,
            HumanoidBone::Chest => self.chest,
            HumanoidBone::Neck => self.neck,
            HumanoidBone::Head => self.head,
            HumanoidBone::LeftShoulder => self.left_shoulder,
            HumanoidBone::LeftUpperArm => self.left_upper_arm,
            HumanoidBone::LeftLowerArm => self.left_lower_arm,
            HumanoidBone::LeftHand => self.left_hand,
            HumanoidBone::RightShoulder => self.right_shoulder,
            HumanoidBone::RightUpperArm => self.right_upper_arm,
            HumanoidBone::RightLowerArm => self.right_lower_arm,
            HumanoidBone::RightHand => self.right_hand,
            HumanoidBone::LeftUpperLeg => self.left_upper_leg,
            HumanoidBone::LeftLowerLeg => self.left_lower_leg,
            HumanoidBone::LeftFoot => self.left_foot,
            HumanoidBone::RightUpperLeg => self.right_upper_leg,
            HumanoidBone::RightLowerLeg => self.right_lower_leg,
            HumanoidBone::RightFoot => self.right_foot,
        }
    }

    /// The table with the value for `bone` replaced by `v`.
    pub open spec fn spec_with(self, bone: HumanoidBone, v: T) -> Self {
        match bone {
            HumanoidBone::Hips => HumanoidBoneMap { hips: v, ..self },
            HumanoidBone::Spine => HumanoidBoneMap { spine: v, ..self },
            HumanoidBone::Chest => HumanoidBoneMap { chest: v, ..self },
            HumanoidBone::Neck => HumanoidBoneMap { neck: v, ..self },
            HumanoidBone::Head => HumanoidBoneMap { head: v, ..self },
            HumanoidBone::LeftShoulder => HumanoidBoneMap { left_shoulder: v, ..self },
            HumanoidBone::LeftUpperArm => HumanoidBoneMap { left_upper_arm: v, ..self },
            HumanoidBone::LeftLowerArm => HumanoidBoneMap { left_lower_arm: v, ..self },
            HumanoidBone::LeftHand => HumanoidBoneMap { left_hand: v, ..self },
            HumanoidBone::RightShoulder => HumanoidBoneMap { right_shoulder: v, ..self },
            HumanoidBone::RightUpperArm => HumanoidBoneMap { right_upper_arm: v, ..self },
            HumanoidBone::RightLowerArm => HumanoidBoneMap { right_lower_arm: v, ..self },
            HumanoidBone::RightHand => HumanoidBoneMap { right_hand: v, ..self },
            HumanoidBone::LeftUpperLeg => HumanoidBoneMap { left_upper_leg: v, ..self },
            HumanoidBone::LeftLowerLeg => HumanoidBoneMap { left_lower_leg: v, ..self },
            HumanoidBone::LeftFoot => HumanoidBoneMap { left_foot: v, ..self },
            HumanoidBone::RightUpperLeg => HumanoidBoneMap { right_upper_leg: v, ..self },
            HumanoidBone::RightLowerLeg => HumanoidBoneMap { right_lower_leg: v, ..self },
            HumanoidBone::RightFoot => HumanoidBoneMap { right_foot: v, ..self },
        }
    }

    /// Replacing the value of one bone leaves every other bone's value unchanged.
    pub proof fn lemma_with_get(self, bone: HumanoidBone, v: T, other: HumanoidBone)
        ensures
            self.spec_with(bone, v).spec_get(other) == (if other == bone { v } else { self.spec_get(other) }),
    {
    }

    /// The value held for `bone`.
    pub fn get(&self, bone: HumanoidBone) -> (r: &T)
        ensures
            *r == self.spec_get(bone),
    {
        match bone {
            HumanoidBone::Hips => &self.hips,
            HumanoidBone::Spine => &self.spine,
            HumanoidBone::Chest => &self.chest,
            HumanoidBone::Neck => &self.neck,
            HumanoidBone::Head => &self.head,
            HumanoidBone::LeftShoulder => &self.left_shoulder,
            HumanoidBone::LeftUpperArm => &self.left_upper_arm,
            HumanoidBone::LeftLowerArm => &self.left_lower_arm,
            HumanoidBone::LeftHand => &self.left_hand,
            HumanoidBone::RightShoulder => &self.right_shoulder,
            HumanoidBone::RightUpperArm => &self.right_upper_arm,
            HumanoidBone::RightLowerArm => &self.right_lower_arm,
            HumanoidBone::RightHand => &self.right_hand,
            HumanoidBone::LeftUpperLeg => &self.left_upper_leg,
            HumanoidBone::LeftLowerLeg => &self.left_lower_leg,
            HumanoidBone::LeftFoot => &self.left_foot,
            HumanoidBone::RightUpperLeg => &self.right_upper_leg,
            HumanoidBone::RightLowerLeg => &self.right_lower_leg,
            HumanoidBone::RightFoot => &self.right_foot,
        }
    }

    /// Builds the map by asking `f` for the value of each bone.
    pub fn from_fn<F: Fn(HumanoidBone) -> T>(f: F) -> (r: Self)
        requires
            forall|b: HumanoidBone| f.requires((b,)),
        ensures
            forall|b: HumanoidBone| f.ensures((b,), #[trigger] r.spec_get(b)),
    {
        HumanoidBoneMap {
            hips: f(HumanoidBone::Hips),
            spine: f(HumanoidBone::Spine),
            chest: f(HumanoidBone::Chest),
            neck: f(HumanoidBone::Neck),
            head: f(HumanoidBone::Head),
            left_shoulder: f(HumanoidBone::LeftShoulder),
            left_upper_arm: f(HumanoidBone::LeftUpperArm),
            left_lower_arm: f(HumanoidBone::LeftLowerArm),
            left_hand: f(HumanoidBone::LeftHand),
            right_shoulder: f(HumanoidBone::RightShoulder),
            right_upper_arm: f(HumanoidBone::RightUpperArm),
            right_lower_arm: f(HumanoidBone::RightLowerArm),
            right_hand: f(HumanoidBone::RightHand),
            left_upper_leg: f(HumanoidBone::LeftUpperLeg),
            left_lower_leg: f(HumanoidBone::LeftLowerLeg),
            left_foot: f(HumanoidBone::LeftFoot),
            right_upper_leg: f(HumanoidBone::RightUpperLeg),
            right_lower_leg: f(HumanoidBone::RightLowerLeg),
            right_foot: f(HumanoidBone::RightFoot),
        }
    }
}


/// Each bone is named by its own `VRMC_vrm.humanoid.humanBones` key (the left
/// hand is "leftHand", never the right hand's key), and distinct bones have
/// distinct names, so a name finds exactly one bone's entity.
pub proof fn lemma_bone_names()
    ensures
        HumanoidBone::Hips.spec_name() == seq!['h', 'i', 'p', 's'],
        HumanoidBone::Spine.spec_name() == seq!['s', 'p', 'i', 'n', 'e'],
        HumanoidBone::Chest.spec_name() == seq!['c', 'h', 'e', 's', 't'],
        HumanoidBone::Neck.spec_name() == seq!['n', 'e', 'c', 'k'],
        HumanoidBone::Head.spec_name() == seq!['h', 'e', 'a', 'd'],
        HumanoidBone::LeftShoulder.spec_name() == seq!['l', 'e', 'f', 't', 'S', 'h', 'o', 'u', 'l', 'd', 'e', 'r'],
        HumanoidBone::LeftUpperArm.spec_name() == seq!['l', 'e', 'f', 't', 'U', 'p', 'p', 'e', 'r', 'A', 'r', 'm'],
        HumanoidBone::LeftLowerArm.spec_name() == seq!['l', 'e', 'f', 't', 'L', 'o', 'w', 'e', 'r', 'A', 'r', 'm'],
        HumanoidBone::LeftHand.spec_name() == seq!['l', 'e', 'f', 't', 'H', 'a', 'n', 'd'],
        HumanoidBone::RightShoulder.spec_name() == seq!['r', 'i', 'g', 'h', 't', 'S', 'h', 'o', 'u', 'l', 'd', 'e', 'r'],
        HumanoidBone::RightUpperArm.spec_name() == seq!['r', 'i', 'g', 'h', 't', 'U', 'p', 'p', 'e', 'r', 'A', 'r', 'm'],
        HumanoidBone::RightLowerArm.spec_name() == seq!['r', 'i', 'g', 'h', 't', 'L', 'o', 'w', 'e', 'r', 'A', 'r', 'm'],
        HumanoidBone::RightHand.spec_name() == seq!['r', 'i', 'g', 'h', 't', 'H', 'a', 'n', 'd'],
        HumanoidBone::LeftUpperLeg.spec_name() == seq!['l', 'e', 'f', 't', 'U', 'p', 'p', 'e', 'r', 'L', 'e', 'g'],
        HumanoidBone::LeftLowerLeg.spec_name() == seq!['l', 'e', 'f', 't', 'L', 'o', 'w', 'e', 'r', 'L', 'e', 'g'],
        HumanoidBone::LeftFoot.spec_name() == seq!['l', 'e', 'f', 't', 'F', 'o', 'o', 't'],
        HumanoidBone::RightUpperLeg.spec_name() == seq!['r', 'i', 'g', 'h', 't', 'U', 'p', 'p', 'e', 'r', 'L', 'e', 'g'],
        HumanoidBone::RightLowerLeg.spec_name() == seq!['r', 'i', 'g', 'h', 't', 'L', 'o', 'w', 'e', 'r', 'L', 'e', 'g'],
        HumanoidBone::RightFoot.spec_name() == seq!['r', 'i', 'g', 'h', 't', 'F', 'o', 'o', 't'],
        forall|a: HumanoidBone, b: HumanoidBone| a != b ==> a.spec_name() != b.spec_name(),
{
    reveal_strlit("hips");
    reveal_strlit("spine");
    reveal_strlit("chest");
    reveal_strlit("neck");
    reveal_strlit("head");
    reveal_strlit("leftShoulder");
    reveal_strlit("leftUpperArm");
    reveal_strlit("leftLowerArm");
    reveal_strlit("leftHand");
    reveal_strlit("rightShoulder");
    reveal_strlit("rightUpperArm");
    reveal_strlit("rightLowerArm");
    reveal_strlit("rightHand");
    reveal_strlit("leftUpperLeg");
    reveal_strlit("leftLowerLeg");
    reveal_strlit("leftFoot");
    reveal_strlit("rightUpperLeg");
    reveal_strlit("rightLowerLeg");
    reveal_strlit("rightFoot");
    assert forall|a: HumanoidBone, b: HumanoidBone| a != b implies a.spec_name() != b.spec_name() by {
        let x = a.spec_name();
        let y = b.spec_name();
        // Names of equal length differ at one of these positions.
        if x.len() == y.len() {
            assert(x[0] != y[0] || x[1] != y[1] || x[4] != y[4] || (x.len() > 5 && (x[5] != y[5]
                || x[9] != y[9] || x[10] != y[10])));
        }
    }
}

} // verus!
