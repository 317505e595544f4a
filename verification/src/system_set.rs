use vstd::prelude::*;

verus! {

/// The VRM system sets of `PostUpdate`, listed in the order in which they run.
#[derive(Debug, Clone, Copy, PartialEq, Eq, Hash, PartialOrd, Ord, Structural)]
pub enum VrmSystemSets {
    /// Node constraints processing.
    Constraints,
    /// Manual transform propagation after `Constraints`.
    PropagateAfterConstraints,
    /// Look-at binding processing.
    GazeControl,
    /// Expression binding processing.
    Expressions,
    /// Manual transform propagation after `Expressions` (may be empty).
    PropagateAfterExpressions,
    /// Spring bone simulation.
    SpringBone,
    /// Decides whether a redraw is requested.
    DetermineRedraw,
}

/// A point of the `PostUpdate` schedule that the VRM core plugin orders.
#[derive(Debug, Clone, Copy, PartialEq, Eq, Structural)]
pub enum PostUpdateStage {
    /// The engine's animation systems; every VRM set runs after them.
    Animation,
    /// The VR IK systems (cache initialisation, then per-frame application).
    VrIk,
    /// One of the VRM system sets.
    Vrm(VrmSystemSets),
    /// The additive bone rotation overlay.
    BoneOverlay,
    /// The engine's transform propagation; every VRM set runs before it.
    TransformPropagate,
}

/// The sets that the VRM core plugin chains, in running order.
pub open spec fn spec_core_set_chain() -> Seq<PostUpdateStage> {
    seq![
        PostUpdateStage::VrIk,
        PostUpdateStage::Vrm(VrmSystemSets::Constraints),
        PostUpdateStage::Vrm(VrmSystemSets::PropagateAfterConstraints),
        PostUpdateStage::Vrm(VrmSystemSets::GazeControl),
        PostUpdateStage::BoneOverlay,
        PostUpdateStage::Vrm(VrmSystemSets::Expressions),
        PostUpdateStage::Vrm(VrmSystemSets::PropagateAfterExpressions),
        PostUpdateStage::Vrm(VrmSystemSets::SpringBone),
        PostUpdateStage::Vrm(VrmSystemSets::DetermineRedraw),
    ]
}

/// Position of a stage in `PostUpdate`: animation first, then the chain, then
/// transform propagation.
pub open spec fn stage_rank(s: PostUpdateStage) -> int {
    match s {
        PostUpdateStage::Animation => 0,
        PostUpdateStage::VrIk => 1,
        PostUpdateStage::Vrm(VrmSystemSets::Constraints) => 2,
        PostUpdateStage::Vrm(VrmSystemSets::PropagateAfterConstraints) => 3,
        PostUpdateStage::Vrm(VrmSystemSets::GazeControl) => 4,
        PostUpdateStage::BoneOverlay => 5,
        PostUpdateStage::Vrm(VrmSystemSets::Expressions) => 6,
        PostUpdateStage::Vrm(VrmSystemSets::PropagateAfterExpressions) => 7,
        PostUpdateStage::Vrm(VrmSystemSets::SpringBone) => 8,
        PostUpdateStage::Vrm(VrmSystemSets::DetermineRedraw) => 9,
        PostUpdateStage::TransformPropagate => 10,
    }
}

/// `a` is ordered to run before `b`.
pub open spec fn spec_runs_before(a: PostUpdateStage, b: PostUpdateStage) -> bool {
    stage_rank(a) < stage_rank(b)
}

/// The chained VRM sets of `PostUpdate`, in running order. Each one runs after
/// the engine's animation systems and before its transform propagation.
pub fn vrm_core_set_chain() -> (chain: Vec<PostUpdateStage>)
    ensures
        chain@ == spec_core_set_chain(),
{
    let chain = vec![
        PostUpdateStage::VrIk,
        PostUpdateStage::Vrm(VrmSystemSets::Constraints),
        PostUpdateStage::Vrm(VrmSystemSets::PropagateAfterConstraints),
        PostUpdateStage::Vrm(VrmSystemSets::GazeControl),
        PostUpdateStage::BoneOverlay,
        PostUpdateStage::Vrm(VrmSystemSets::Expressions),
        PostUpdateStage::Vrm(VrmSystemSets::PropagateAfterExpressions),
        PostUpdateStage::Vrm(VrmSystemSets::SpringBone),
        PostUpdateStage::Vrm(VrmSystemSets::DetermineRedraw),
    ];
    assert(chain@ =~= spec_core_set_chain());
    chain
}

fn rank(s: PostUpdateStage) -> (r: u8)
    ensures
        r == stage_rank(s),
{
    match s {
        PostUpdateStage::Animation => 0,
        PostUpdateStage::VrIk => 1,
        PostUpdateStage::Vrm(VrmSystemSets::Constraints) => 2,
        PostUpdateStage::Vrm(VrmSystemSets::PropagateAfterConstraints) => 3,
        PostUpdateStage::Vrm(VrmSystemSets::GazeControl) => 4,
        PostUpdateStage::BoneOverlay => 5,
        PostUpdateStage::Vrm(VrmSystemSets::Expressions) => 6,
        PostUpdateStage::Vrm(VrmSystemSets::PropagateAfterExpressions) => 7,
        PostUpdateStage::Vrm(VrmSystemSets::SpringBone) => 8,
        PostUpdateStage::Vrm(VrmSystemSets::DetermineRedraw) => 9,
        PostUpdateStage::TransformPropagate => 10,
    }
}

/// Whether stage `a` is ordered to run before stage `b` in `PostUpdate`.
pub fn runs_before(a: PostUpdateStage, b: PostUpdateStage) -> (r: bool)
    ensures
        r == spec_runs_before(a, b),
{
    rank(a) < rank(b)
}

/// The chain lists each stage at the position given by its rank: every chained
/// set runs after the sets listed before it, after the animation systems and
/// before transform propagation.
pub proof fn lemma_chain_is_running_order()
    ensures
        spec_core_set_chain().len() == 9,
        forall|i: int|
            0 <= i < spec_core_set_chain().len() ==> stage_rank(#[trigger] spec_core_set_chain()[i])
                == i + 1,
        forall|i: int, j: int|
            0 <= i < j < spec_core_set_chain().len() ==> spec_runs_before(
                #[trigger] spec_core_set_chain()[i],
                #[trigger] spec_core_set_chain()[j],
            ),
        forall|i: int|
            0 <= i < spec_core_set_chain().len() ==> spec_runs_before(
                PostUpdateStage::Animation,
                #[trigger] spec_core_set_chain()[i],
            ) && spec_runs_before(spec_core_set_chain()[i], PostUpdateStage::TransformPropagate),
{
    let c = spec_core_set_chain();
    assert(stage_rank(c[0]) == 1);
    assert(stage_rank(c[1]) == 2);
    assert(stage_rank(c[2]) == 3);
    assert(stage_rank(c[3]) == 4);
    assert(stage_rank(c[4]) == 5);
    assert(stage_rank(c[5]) == 6);
    assert(stage_rank(c[6]) == 7);
    assert(stage_rank(c[7]) == 8);
    assert(stage_rank(c[8]) == 9);
}

/// The ordering has no cycle: it is irreflexive and transitive, and any two
/// distinct stages are ordered one way or the other.
pub proof fn lemma_order_is_strict_total(a: PostUpdateStage, b: PostUpdateStage, c: PostUpdateStage)
    ensures
        !spec_runs_before(a, a),
        spec_runs_before(a, b) && spec_runs_before(b, c) ==> spec_runs_before(a, c),
        spec_runs_before(a, b) ==> !spec_runs_before(b, a),
        a != b ==> spec_runs_before(a, b) || spec_runs_before(b, a),
{
}

/// VR IK runs after the animation systems and before the node constraints, so
/// it overwrites animated poses and constraints read its result in the same frame.
pub proof fn lemma_vr_ik_between_animation_and_constraints()
    ensures
        spec_runs_before(PostUpdateStage::Animation, PostUpdateStage::VrIk),
        spec_runs_before(PostUpdateStage::VrIk, PostUpdateStage::Vrm(VrmSystemSets::Constraints)),
{
}

/// The VRM update order: animation, VR IK, node constraints, propagation,
/// gaze (look-at), bone overlay, expressions, propagation, spring bones, redraw
/// decision, then the engine's transform propagation; and the chain lists the
/// nine VRM stages in exactly that order.
pub proof fn lemma_vrm_update_order()
    ensures
        spec_runs_before(PostUpdateStage::Animation, PostUpdateStage::VrIk),
        spec_runs_before(PostUpdateStage::VrIk, PostUpdateStage::Vrm(VrmSystemSets::Constraints)),
        spec_runs_before(PostUpdateStage::Vrm(VrmSystemSets::Constraints), PostUpdateStage::Vrm(VrmSystemSets::PropagateAfterConstraints)),
        spec_runs_before(PostUpdateStage::Vrm(VrmSystemSets::PropagateAfterConstraints), PostUpdateStage::Vrm(VrmSystemSets::GazeControl)),
        spec_runs_before(PostUpdateStage::Vrm(VrmSystemSets::GazeControl), PostUpdateStage::BoneOverlay),
        spec_runs_before(PostUpdateStage::BoneOverlay, PostUpdateStage::Vrm(VrmSystemSets::Expressions)),
        spec_runs_before(PostUpdateStage::Vrm(VrmSystemSets::Expressions), PostUpdateStage::Vrm(VrmSystemSets::PropagateAfterExpressions)),
        spec_runs_before(PostUpdateStage::Vrm(VrmSystemSets::PropagateAfterExpressions), PostUpdateStage::Vrm(VrmSystemSets::SpringBone)),
        spec_runs_before(PostUpdateStage::Vrm(VrmSystemSets::SpringBone), PostUpdateStage::Vrm(VrmSystemSets::DetermineRedraw)),
        spec_runs_before(PostUpdateStage::Vrm(VrmSystemSets::DetermineRedraw), PostUpdateStage::TransformPropagate),
        spec_core_set_chain() == seq![PostUpdateStage::VrIk, PostUpdateStage::Vrm(VrmSystemSets::Constraints), PostUpdateStage::Vrm(VrmSystemSets::PropagateAfterConstraints), PostUpdateStage::Vrm(VrmSystemSets::GazeControl), PostUpdateStage::BoneOverlay, PostUpdateStage::Vrm(VrmSystemSets::Expressions), PostUpdateStage::Vrm(VrmSystemSets::PropagateAfterExpressions), PostUpdateStage::Vrm(VrmSystemSets::SpringBone), PostUpdateStage::Vrm(VrmSystemSets::DetermineRedraw)],
{
}

} // verus!
