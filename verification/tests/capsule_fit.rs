use bevy_vrm1::vrm::humanoid_bone::capsule_fit::{
    capsule_segments, HumanoidBonePositions, HumanoidCapsuleKind,
};
use bevy_vrm1::vrm::humanoid_bone::HumanoidBoneMap;

type P = [f32; 3];

fn standard_bones() -> HumanoidBonePositions<P> {
    HumanoidBonePositions {
        head: [0.0, 1.6, 0.0],
        neck: [0.0, 1.45, 0.0],
        chest: Some([0.0, 1.2, 0.0]),
        hips: [0.0, 0.95, 0.0],
        left_upper_arm: [-0.2, 1.4, 0.0],
        left_lower_arm: [-0.45, 1.4, 0.0],
        left_hand: [-0.7, 1.4, 0.0],
        right_upper_arm: [0.2, 1.4, 0.0],
        right_lower_arm: [0.45, 1.4, 0.0],
        right_hand: [0.7, 1.4, 0.0],
        left_upper_leg: [-0.1, 0.9, 0.0],
        left_lower_leg: [-0.1, 0.5, 0.0],
        left_foot: [-0.1, 0.1, 0.0],
        right_upper_leg: [0.1, 0.9, 0.0],
        right_lower_leg: [0.1, 0.5, 0.0],
        right_foot: [0.1, 0.1, 0.0],
    }
}

fn count(kind: HumanoidCapsuleKind, bones: &HumanoidBonePositions<P>) -> usize {
    capsule_segments(bones)
        .iter()
        .filter(|c| c.kind == kind)
        .count()
}

#[test]
fn with_chest_produces_11_capsules() {
    let capsules = capsule_segments(&standard_bones());
    assert_eq!(capsules.len(), 11);
    assert_eq!(count(HumanoidCapsuleKind::Head, &standard_bones()), 1);
    assert_eq!(count(HumanoidCapsuleKind::Torso, &standard_bones()), 2);
    assert_eq!(count(HumanoidCapsuleKind::Limb, &standard_bones()), 8);
}

#[test]
fn without_chest_falls_back_to_single_torso() {
    let bones = HumanoidBonePositions {
        chest: None,
        ..standard_bones()
    };
    let capsules = capsule_segments(&bones);
    assert_eq!(capsules.len(), 10);
    assert_eq!(count(HumanoidCapsuleKind::Torso, &bones), 1);
}

#[test]
fn capsule_layout_joins_the_expected_bones_in_order() {
    let b = standard_bones();
    let capsules = capsule_segments(&b);
    assert_eq!(capsules[0].kind, HumanoidCapsuleKind::Head);
    assert_eq!((capsules[0].from, capsules[0].to), (b.head, b.neck));
    assert_eq!((capsules[1].from, capsules[1].to), (b.hips, b.chest.unwrap()));
    assert_eq!((capsules[2].from, capsules[2].to), (b.chest.unwrap(), b.neck));
    // The first limb is the left upper arm, the last the right lower leg.
    assert_eq!((capsules[3].from, capsules[3].to), (b.left_upper_arm, b.left_lower_arm));
    assert_eq!((capsules[10].from, capsules[10].to), (b.right_lower_leg, b.right_foot));
}

#[test]
fn single_torso_capsule_joins_hips_and_neck() {
    let b = HumanoidBonePositions {
        chest: None,
        ..standard_bones()
    };
    let capsules = capsule_segments(&b);
    assert_eq!(capsules[1].kind, HumanoidCapsuleKind::Torso);
    assert_eq!((capsules[1].from, capsules[1].to), (b.hips, b.neck));
    assert_eq!(capsules[2].kind, HumanoidCapsuleKind::Limb);
}

fn positions_table(pos: Option<P>) -> HumanoidBoneMap<Option<P>> {
    HumanoidBoneMap::from_fn(|_| pos)
}

#[test]
fn bone_positions_need_every_bone_but_the_chest() {
    let mut table = positions_table(Some([1.0, 2.0, 3.0]));
    table.chest = None;
    let positions = HumanoidBonePositions::from_bone_entities(&table).expect("chest is optional");
    assert_eq!(positions.chest, None);
    assert_eq!(positions.head, [1.0, 2.0, 3.0]);

    table.left_foot = None;
    assert!(HumanoidBonePositions::from_bone_entities(&table).is_none());
}

#[test]
fn bone_positions_keep_each_bone_in_its_field() {
    let mut table = positions_table(Some([0.0, 0.0, 0.0]));
    table.neck = Some([0.0, 1.5, 0.0]);
    table.right_hand = Some([0.7, 1.4, 0.0]);
    table.chest = Some([0.0, 1.2, 0.0]);
    let positions = HumanoidBonePositions::from_bone_entities(&table).unwrap();
    assert_eq!(positions.neck, [0.0, 1.5, 0.0]);
    assert_eq!(positions.right_hand, [0.7, 1.4, 0.0]);
    assert_eq!(positions.chest, Some([0.0, 1.2, 0.0]));
    assert_eq!(positions.hips, [0.0, 0.0, 0.0]);
}
