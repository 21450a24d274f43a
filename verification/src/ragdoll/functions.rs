//! How a ragdoll is assembled: which body parts are spawned where, and which
//! joints hold them together.
//!
//! Positions are given in tenths of a pixel and angles in tenths of a radian,
//! relative to the ragdoll's spawn point and before its scale is applied.

use vstd::prelude::*;
use crate::ragdoll::components::PartType;

verus! {

/// A body part to spawn, placed relative to the ragdoll's spawn point.
#[derive(Clone, Copy, PartialEq, Eq, Debug, Structural)]
pub struct PartPlacement {
    pub part_type: PartType,
    /// Horizontal offset from the spawn point, in tenths of a pixel.
    pub offset_x: i32,
    /// Vertical offset from the spawn point, in tenths of a pixel.
    pub offset_y: i32,
    /// Initial rotation about the z axis, in tenths of a radian.
    pub rotation: i32,
}

/// A revolute joint between two spawned body parts. Parts are named by the order
/// in which they were spawned, counting from zero.
#[derive(Clone, Copy, PartialEq, Eq, Debug, Structural)]
pub struct JointPlacement {
    pub parent: usize,
    pub child: usize,
    /// Anchor on the parent, in its local frame, in tenths of a pixel.
    pub parent_anchor_x: i32,
    pub parent_anchor_y: i32,
    /// Anchor on the child, in its local frame, in tenths of a pixel.
    pub child_anchor_x: i32,
    pub child_anchor_y: i32,
    /// Angular limits of the joint, in tenths of a radian.
    pub min_angle: i32,
    pub max_angle: i32,
}

/// One step in building a ragdoll.
#[derive(Clone, Copy, PartialEq, Eq, Debug, Structural)]
pub enum SpawnStep {
    /// Spawn a body part.
    Part(PartPlacement),
    /// Join two body parts spawned earlier.
    Joint(JointPlacement),
    /// Pause the simulation clock.
    PauseTime,
}

/// The step that spawns a part of the given type at the given offset and rotation.
pub open spec fn part(part_type: PartType, offset_x: int, offset_y: int, rotation: int) -> SpawnStep {
    SpawnStep::Part(
        PartPlacement {
            part_type,
            offset_x: offset_x as i32,
            offset_y: offset_y as i32,
            rotation: rotation as i32,
        },
    )
}

/// The step that hangs part `child` from part `parent` at the given anchors, within the given limits.
pub open spec fn joint(
    parent: usize,
    child: usize,
    parent_anchor: (int, int),
    child_anchor: (int, int),
    limits: (int, int),
) -> SpawnStep {
    SpawnStep::Joint(
        JointPlacement {
            parent,
            child,
            parent_anchor_x: parent_anchor.0 as i32,
            parent_anchor_y: parent_anchor.1 as i32,
            child_anchor_x: child_anchor.0 as i32,
            child_anchor_y: child_anchor.1 as i32,
            min_angle: limits.0 as i32,
            max_angle: limits.1 as i32,
        },
    )
}

/// The ragdoll: a torso with a head, a right arm of two segments and a right leg
/// of two segments; once it stands, the clock is paused.
pub open spec fn ragdoll_blueprint() -> Seq<SpawnStep> {
    seq![
        part(PartType::Torso, 0, 0, 0),
        part(PartType::Head, 0, 500, 0),
        joint(0, 1, (0, 250), (0, -100), (-5, 5)),
        part(PartType::UpperArmRight, -270, 150, 3),
        part(PartType::LowerArmRight, -270, -250, 3),
        joint(0, 2, (-200, 200), (0, 200), (-10, 20)),
        joint(2, 3, (0, -200), (0, 175), (-1, 25)),
        part(PartType::UpperLegRight, -120, -550, 1),
        part(PartType::LowerLegRight, -120, -1000, 1),
        joint(0, 4, (-150, -300), (0, 225), (-5, 15)),
        joint(4, 5, (0, -225), (0, 200), (-15, 1)),
        SpawnStep::PauseTime,
    ]
}

/// The number of body parts spawned by the steps before index `i`.
pub open spec fn parts_before(steps: Seq<SpawnStep>, i: int) -> nat
    decreases i,
{
    if i <= 0 {
        0
    } else {
        parts_before(steps, i - 1) + if steps[i - 1] is Part {
            1nat
        } else {
            0nat
        }
    }
}

/// The number of joints made by the steps before index `i`.
pub open spec fn joints_before(steps: Seq<SpawnStep>, i: int) -> nat
    decreases i,
{
    if i <= 0 {
        0
    } else {
        joints_before(steps, i - 1) + if steps[i - 1] is Joint {
            1nat
        } else {
            0nat
        }
    }
}

/// Every joint joins a part to one spawned before it, and both are already spawned.
pub open spec fn joints_attach_spawned_parts(steps: Seq<SpawnStep>) -> bool {
    forall|i: int|
        0 <= i < steps.len() ==> (#[trigger] steps[i] matches SpawnStep::Joint(j) ==> j.parent < j.child
            && j.child < parts_before(steps, i))
}

/// No body part is attached by two joints.
pub open spec fn no_part_attached_twice(steps: Seq<SpawnStep>) -> bool {
    forall|i: int, k: int|
        0 <= i < k < steps.len() ==> (#[trigger] steps[i] matches SpawnStep::Joint(a) ==> (
        #[trigger] steps[k] matches SpawnStep::Joint(b) ==> a.child != b.child))
}

/// Every joint's lower angular limit lies below its upper one.
pub open spec fn joint_limits_ordered(steps: Seq<SpawnStep>) -> bool {
    forall|i: int|
        0 <= i < steps.len() ==> (#[trigger] steps[i] matches SpawnStep::Joint(j) ==> j.min_angle
            < j.max_angle)
}

/// The body parts and joints form a tree rooted at the first part spawned: every joint
/// hangs a later part from an earlier one, no part hangs twice, and there is one joint
/// fewer than there are parts, so every part but the first hangs from exactly one joint.
pub open spec fn forms_skeleton(steps: Seq<SpawnStep>) -> bool {
    &&& joints_attach_spawned_parts(steps)
    &&& no_part_attached_twice(steps)
    &&& joints_before(steps, steps.len() as int) + 1 == parts_before(steps, steps.len() as int)
}

/// The first step spawns the torso at the spawn point, upright.
pub open spec fn starts_with_torso(steps: Seq<SpawnStep>) -> bool {
    steps.len() > 0 && steps[0] == part(PartType::Torso, 0, 0, 0)
}

/// The clock is paused once, by the last step.
pub open spec fn ends_by_pausing(steps: Seq<SpawnStep>) -> bool {
    &&& steps.len() > 0
    &&& steps.last() is PauseTime
    &&& forall|i: int| 0 <= i < steps.len() - 1 ==> !(#[trigger] steps[i] is PauseTime)
}

/// Step `i` is a joint that hangs part `c`.
pub open spec fn hangs_part_at(steps: Seq<SpawnStep>, i: int, c: int) -> bool {
    steps[i] matches SpawnStep::Joint(j) && j.child == c
}

/// Some joint among the steps hangs part `c`.
pub open spec fn hangs_from_some_joint(steps: Seq<SpawnStep>, c: int) -> bool {
    exists|i: int| 0 <= i < steps.len() && #[trigger] hangs_part_at(steps, i, c)
}

/// The parts hung by the joints among the steps before index `n`.
pub open spec fn parts_hung_before(steps: Seq<SpawnStep>, n: int) -> Set<int>
    decreases n,
{
    if n <= 0 {
        Set::empty()
    } else {
        let earlier = parts_hung_before(steps, n - 1);
        match steps[n - 1] {
            SpawnStep::Joint(j) => earlier.insert(j.child as int),
            _ => earlier,
        }
    }
}

proof fn lemma_parts_before_monotone(steps: Seq<SpawnStep>, i: int, n: int)
    requires
        i <= n,
    ensures
        parts_before(steps, i) <= parts_before(steps, n),
    decreases n - i,
{
    if i < n {
        lemma_parts_before_monotone(steps, i, n - 1);
    }
}

proof fn lemma_parts_hung_before(steps: Seq<SpawnStep>, n: int)
    requires
        0 <= n <= steps.len(),
        joints_attach_spawned_parts(steps),
        no_part_attached_twice(steps),
    ensures
        parts_hung_before(steps, n).finite(),
        parts_hung_before(steps, n).len() == joints_before(steps, n),
        forall|c: int|
            #[trigger] parts_hung_before(steps, n).contains(c) <==> exists|i: int|
                0 <= i < n && #[trigger] hangs_part_at(steps, i, c),
        forall|c: int|
            #[trigger] parts_hung_before(steps, n).contains(c) ==> 1 <= c < parts_before(steps, n),
    decreases n,
{
    if n > 0 {
        lemma_parts_hung_before(steps, n - 1);
        let earlier = parts_hung_before(steps, n - 1);
        lemma_parts_before_monotone(steps, n - 1, n);
        assert(steps[n - 1] == steps[n - 1]);
        match steps[n - 1] {
            SpawnStep::Joint(j) => {
                if earlier.contains(j.child as int) {
                    let i: int = choose|i: int| 0 <= i < n - 1 && #[trigger] hangs_part_at(steps, i, j.child as int);
                    assert(steps[i] == steps[i]);
                    assert(false);
                }
                assert forall|c: int| parts_hung_before(steps, n).contains(c) implies 1 <= c
                    < parts_before(steps, n) by {
                    if c != j.child as int {
                        assert(earlier.contains(c));
                    }
                }
                assert forall|c: int| #[trigger] parts_hung_before(steps, n).contains(c) <==> exists|i: int|
                    0 <= i < n && #[trigger] hangs_part_at(steps, i, c) by {
                    if c == j.child as int {
                        assert(hangs_part_at(steps, n - 1, c));
                    }
                    if exists|i: int| 0 <= i < n && #[trigger] hangs_part_at(steps, i, c) {
                        let i: int = choose|i: int| 0 <= i < n && #[trigger] hangs_part_at(steps, i, c);
                        if i < n - 1 {
                            assert(earlier.contains(c));
                        }
                    }
                }
            },
            _ => {
                assert forall|c: int| #[trigger] parts_hung_before(steps, n).contains(c) <==> exists|i: int|
                    0 <= i < n && #[trigger] hangs_part_at(steps, i, c) by {
                    if exists|i: int| 0 <= i < n && #[trigger] hangs_part_at(steps, i, c) {
                        let i: int = choose|i: int| 0 <= i < n && #[trigger] hangs_part_at(steps, i, c);
                        if i < n - 1 {
                            assert(earlier.contains(c));
                        }
                    }
                }
            },
        }
    }
}

/// In a skeleton every part but the first hangs from some joint (and, since no part
/// hangs twice, from exactly one), while the first hangs from none.
pub proof fn lemma_skeleton_hangs_every_part(steps: Seq<SpawnStep>)
    requires
        forms_skeleton(steps),
    ensures
        forall|c: int|
            1 <= c < parts_before(steps, steps.len() as int) ==> #[trigger] hangs_from_some_joint(
                steps,
                c,
            ),
        forall|i: int| 0 <= i < steps.len() ==> !#[trigger] hangs_part_at(steps, i, 0),
{
    let n: int = steps.len() as int;
    lemma_parts_hung_before(steps, n);
    let hung = parts_hung_before(steps, n);
    let all = vstd::set_lib::set_int_range(1, parts_before(steps, n) as int);
    vstd::set_lib::lemma_int_range(1, parts_before(steps, n) as int);
    assert(hung.subset_of(all));
    vstd::set_lib::lemma_subset_equality(hung, all);
    assert forall|c: int| 1 <= c < parts_before(steps, n) implies #[trigger] hangs_from_some_joint(
        steps,
        c,
    ) by {
        assert(all.contains(c));
        assert(hung.contains(c));
    }
    assert forall|i: int| 0 <= i < steps.len() implies !#[trigger] hangs_part_at(steps, i, 0) by {
        if hangs_part_at(steps, i, 0) {
            assert(hung.contains(0));
        }
    }
}

proof fn lemma_blueprint_counts()
    ensures
        parts_before(ragdoll_blueprint(), 0) == 0,
        parts_before(ragdoll_blueprint(), 1) == 1,
        parts_before(ragdoll_blueprint(), 2) == 2,
        parts_before(ragdoll_blueprint(), 3) == 2,
        parts_before(ragdoll_blueprint(), 4) == 3,
        parts_before(ragdoll_blueprint(), 5) == 4,
        parts_before(ragdoll_blueprint(), 6) == 4,
        parts_before(ragdoll_blueprint(), 7) == 4,
        parts_before(ragdoll_blueprint(), 8) == 5,
        parts_before(ragdoll_blueprint(), 9) == 6,
        parts_before(ragdoll_blueprint(), 10) == 6,
        parts_before(ragdoll_blueprint(), 11) == 6,
        parts_before(ragdoll_blueprint(), 12) == 6,
        joints_before(ragdoll_blueprint(), 12) == 5,
{
    let b = ragdoll_blueprint();
    assert(parts_before(b, 0) == 0);
    assert(parts_before(b, 1) == 1);
    assert(parts_before(b, 2) == 2);
    assert(parts_before(b, 3) == 2);
    assert(parts_before(b, 4) == 3);
    assert(parts_before(b, 5) == 4);
    assert(parts_before(b, 6) == 4);
    assert(parts_before(b, 7) == 4);
    assert(parts_before(b, 8) == 5);
    assert(parts_before(b, 9) == 6);
    assert(parts_before(b, 10) == 6);
    assert(parts_before(b, 11) == 6);
    assert(parts_before(b, 12) == 6);
    assert(joints_before(b, 0) == 0);
    assert(joints_before(b, 1) == 0);
    assert(joints_before(b, 2) == 0);
    assert(joints_before(b, 3) == 1);
    assert(joints_before(b, 4) == 1);
    assert(joints_before(b, 5) == 1);
    assert(joints_before(b, 6) == 2);
    assert(joints_before(b, 7) == 3);
    assert(joints_before(b, 8) == 3);
    assert(joints_before(b, 9) == 3);
    assert(joints_before(b, 10) == 4);
    assert(joints_before(b, 11) == 5);
    assert(joints_before(b, 12) == 5);
}

/// The ragdoll's parts and joints form a skeleton rooted at its torso, every joint
/// bends within ordered limits, and the clock is paused once, at the end.
pub proof fn lemma_blueprint_is_skeleton()
    ensures
        forms_skeleton(ragdoll_blueprint()),
        joint_limits_ordered(ragdoll_blueprint()),
        starts_with_torso(ragdoll_blueprint()),
        ends_by_pausing(ragdoll_blueprint()),
{
    let b = ragdoll_blueprint();
    lemma_blueprint_counts();
    assert(b.len() == 12);
    assert forall|i: int| 0 <= i < b.len() implies (#[trigger] b[i] matches SpawnStep::Joint(j)
        ==> j.parent < j.child && j.child < parts_before(b, i)) by {
        assert(i == 0 || i == 1 || i == 2 || i == 3 || i == 4 || i == 5 || i == 6 || i == 7 || i
            == 8 || i == 9 || i == 10 || i == 11);
    }
    assert forall|i: int, k: int| 0 <= i < k < b.len() implies (#[trigger] b[i] matches SpawnStep::Joint(x)
        ==> (#[trigger] b[k] matches SpawnStep::Joint(y) ==> x.child != y.child)) by {
        assert(i == 0 || i == 1 || i == 2 || i == 3 || i == 4 || i == 5 || i == 6 || i == 7 || i
            == 8 || i == 9 || i == 10 || i == 11);
        assert(k == 0 || k == 1 || k == 2 || k == 3 || k == 4 || k == 5 || k == 6 || k == 7 || k
            == 8 || k == 9 || k == 10 || k == 11);
    }
    assert forall|i: int| 0 <= i < b.len() implies (#[trigger] b[i] matches SpawnStep::Joint(j)
        ==> j.min_angle < j.max_angle) by {
        assert(i == 0 || i == 1 || i == 2 || i == 3 || i == 4 || i == 5 || i == 6 || i == 7 || i
            == 8 || i == 9 || i == 10 || i == 11);
    }
    assert forall|i: int| 0 <= i < b.len() - 1 implies !(#[trigger] b[i] is PauseTime) by {
        assert(i == 0 || i == 1 || i == 2 || i == 3 || i == 4 || i == 5 || i == 6 || i == 7 || i
            == 8 || i == 9 || i == 10);
    }
}

fn part_step(part_type: PartType, offset_x: i32, offset_y: i32, rotation: i32) -> (s: SpawnStep)
    ensures
        s == part(part_type, offset_x as int, offset_y as int, rotation as int),
{
    SpawnStep::Part(PartPlacement { part_type, offset_x, offset_y, rotation })
}

fn joint_step(
    parent: usize,
    child: usize,
    parent_anchor: (i32, i32),
    child_anchor: (i32, i32),
    limits: (i32, i32),
) -> (s: SpawnStep)
    ensures
        s == joint(
            parent,
            child,
            (parent_anchor.0 as int, parent_anchor.1 as int),
            (child_anchor.0 as int, child_anchor.1 as int),
            (limits.0 as int, limits.1 as int),
        ),
{
    SpawnStep::Joint(
        JointPlacement {
            parent,
            child,
            parent_anchor_x: parent_anchor.0,
            parent_anchor_y: parent_anchor.1,
            child_anchor_x: child_anchor.0,
            child_anchor_y: child_anchor.1,
            min_angle: limits.0,
            max_angle: limits.1,
        },
    )
}

/// The steps that build a ragdoll, in order. The caller spawns each part at the
/// ragdoll's position plus its offset times the scale, joins parts by their spawn
/// order, pauses the clock when told to, and hands back the first part, the torso.
pub fn ragdoll_steps() -> (steps: Vec<SpawnStep>)
    ensures
        steps@ == ragdoll_blueprint(),
        forms_skeleton(steps@),
        joint_limits_ordered(steps@),
        starts_with_torso(steps@),
        ends_by_pausing(steps@),
{
    let mut steps: Vec<SpawnStep> = Vec::new();
    steps.push(part_step(PartType::Torso, 0, 0, 0));
    steps.push(part_step(PartType::Head, 0, 500, 0));
    steps.push(joint_step(0, 1, (0, 250), (0, -100), (-5, 5)));
    steps.push(part_step(PartType::UpperArmRight, -270, 150, 3));
    steps.push(part_step(PartType::LowerArmRight, -270, -250, 3));
    steps.push(joint_step(0, 2, (-200, 200), (0, 200), (-10, 20)));
    steps.push(joint_step(2, 3, (0, -200), (0, 175), (-1, 25)));
    steps.push(part_step(PartType::UpperLegRight, -120, -550, 1));
    steps.push(part_step(PartType::LowerLegRight, -120, -1000, 1));
    steps.push(joint_step(0, 4, (-150, -300), (0, 225), (-5, 15)));
    steps.push(joint_step(4, 5, (0, -225), (0, 200), (-15, 1)));
    steps.push(SpawnStep::PauseTime);
    proof {
        assert(steps@ =~= ragdoll_blueprint());
        lemma_blueprint_is_skeleton();
    }
    steps
}

} // verus!
