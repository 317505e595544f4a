use bevy_vrm1::system_set::{runs_before, vrm_core_set_chain, PostUpdateStage, VrmSystemSets};

#[test]
fn vr_ik_runs_between_animation_and_constraints() {
    let mut order = vec![
        ("constraints", PostUpdateStage::Vrm(VrmSystemSets::Constraints)),
        ("vr_ik", PostUpdateStage::VrIk),
        ("animation", PostUpdateStage::Animation),
    ];
    order.sort_by(|a, b| {
        if runs_before(a.1, b.1) {
            std::cmp::Ordering::Less
        } else if runs_before(b.1, a.1) {
            std::cmp::Ordering::Greater
        } else {
            std::cmp::Ordering::Equal
        }
    });
    let names: Vec<&str> = order.iter().map(|(n, _)| *n).collect();
    assert_eq!(names, ["animation", "vr_ik", "constraints"]);
}

#[test]
fn core_set_chain_order() {
    let chain = vrm_core_set_chain();
    assert_eq!(
        chain,
        vec![
            PostUpdateStage::VrIk,
            PostUpdateStage::Vrm(VrmSystemSets::Constraints),
            PostUpdateStage::Vrm(VrmSystemSets::PropagateAfterConstraints),
            PostUpdateStage::Vrm(VrmSystemSets::GazeControl),
            PostUpdateStage::BoneOverlay,
            PostUpdateStage::Vrm(VrmSystemSets::Expressions),
            PostUpdateStage::Vrm(VrmSystemSets::PropagateAfterExpressions),
            PostUpdateStage::Vrm(VrmSystemSets::SpringBone),
            PostUpdateStage::Vrm(VrmSystemSets::DetermineRedraw),
        ]
    );
    for pair in chain.windows(2) {
        assert!(runs_before(pair[0], pair[1]));
        assert!(!runs_before(pair[1], pair[0]));
    }
    for stage in &chain {
        assert!(runs_before(PostUpdateStage::Animation, *stage));
        assert!(runs_before(*stage, PostUpdateStage::TransformPropagate));
        assert!(!runs_before(*stage, *stage));
    }
}
