use vstd::prelude::*;

use std::collections::HashMap;

use crate::geometry::Vec3Mm;

verus! {

/// Collision layer of the ragdoll bodies; shots test only this layer.
pub const RAGDOLL_GROUP: u32 = 0b10;

/// Collision layer of the arena; ragdoll bodies collide only with it.
pub const WORLD_GROUP: u32 = 0b01;

/// Angular damping of every limb body, per second.
pub const ANGULAR_DAMPING: u32 = 15;

/// Linear damping of every limb body, per second.
pub const LINEAR_DAMPING: u32 = 1;

/// Angular damping of the shoulder joints, and of the elbow and knee hinges.
pub const JOINT_ANGULAR_DAMPING: u32 = 15;

/// Angular damping of the wrist joints.
pub const WRIST_ANGULAR_DAMPING: u32 = 64;

/// Angular damping of the neck joint.
pub const NECK_ANGULAR_DAMPING: u32 = 64;

/// Angular damping of the hip joints.
pub const HIP_ANGULAR_DAMPING: u32 = 15;

/// Angular damping of the ankle joints.
pub const ANKLE_ANGULAR_DAMPING: u32 = 64;

/// Radii and lengths of the limbs, in millimetres.
pub const TORSO_RADIUS: i64 = 180;
pub const HEAD_RADIUS: i64 = 120;
pub const HEAD_OFFSET: i64 = 60;
pub const UPPER_ARM_RADIUS: i64 = 60;
pub const FOREARM_RADIUS: i64 = 50;
pub const HAND_RADIUS: i64 = 60;
pub const HAND_LENGTH: i64 = 240;
pub const THIGH_RADIUS: i64 = 80;
pub const CALF_RADIUS: i64 = 60;
pub const FOOT_RADIUS: i64 = 35;
pub const FOOT_LENGTH: i64 = 240;

/// How many bodies a ragdoll has.
pub const LIMB_COUNT: usize = 14;

/// The bodies of a ragdoll.
#[derive(Clone, Copy, Debug, PartialEq, Eq, Structural, Hash)]
pub enum RagdollBodyPart {
    Torso,
    Head,
    LeftUpperArm,
    LeftForearm,
    LeftHand,
    RightUpperArm,
    RightForearm,
    RightHand,
    LeftThigh,
    LeftCalf,
    LeftFoot,
    RightThigh,
    RightCalf,
    RightFoot,
}

/// A point of the skeleton that a limb is measured from or to.
#[derive(Clone, Debug)]
pub enum BonePoint {
    /// The position of a bone.
    Joint(&'static str),
    /// The position of the first of these bones that the skeleton has.
    First(Vec<&'static str>),
    /// The position of a bone, shifted by an offset.
    Raised { bone: &'static str, offset: Vec3Mm },
    /// The point at `length` from the limb's start toward a bone.
    Extended { toward: &'static str, length: i64 },
}

/// The collider of a limb, with its radius in millimetres.
#[derive(Clone, Copy, Debug, PartialEq, Eq, Structural)]
pub enum Shape {
    Capsule { radius: i64 },
    Sphere { radius: i64 },
}

/// The joint that holds a limb to its parent: a ball joint with some angular
/// damping, or a hinge that bends between two angles, in milliradians.
#[derive(Clone, Copy, Debug, PartialEq, Eq, Structural)]
pub enum JointSpec {
    Spherical { angular_damping: u32 },
    Revolute { min_angle: i64, max_angle: i64 },
}

/// One limb of the ragdoll: which body it is, its shape, the skeleton points
/// it spans, and how it hangs from its parent.
#[derive(Clone, Debug)]
pub struct LimbSpec {
    pub part: RagdollBodyPart,
    pub name: &'static str,
    pub shape: Shape,
    pub start: BonePoint,
    pub end: BonePoint,
    pub parent: Option<RagdollBodyPart>,
    pub joint: Option<JointSpec>,
}

/// The limbs in the order in which they are built: each after its parent.
pub open spec fn spec_limb_parts() -> Seq<RagdollBodyPart> {
    seq![
        RagdollBodyPart::Torso,
        RagdollBodyPart::Head,
        RagdollBodyPart::LeftUpperArm,
        RagdollBodyPart::RightUpperArm,
        RagdollBodyPart::LeftForearm,
        RagdollBodyPart::LeftHand,
        RagdollBodyPart::RightForearm,
        RagdollBodyPart::RightHand,
        RagdollBodyPart::LeftThigh,
        RagdollBodyPart::LeftCalf,
        RagdollBodyPart::LeftFoot,
        RagdollBodyPart::RightThigh,
        RagdollBodyPart::RightCalf,
        RagdollBodyPart::RightFoot,
    ]
}

/// The body each limb hangs from; the torso hangs from nothing.
pub open spec fn spec_parent(part: RagdollBodyPart) -> Option<RagdollBodyPart> {
    match part {
        RagdollBodyPart::Torso => None,
        RagdollBodyPart::Head => Some(RagdollBodyPart::Torso),
        RagdollBodyPart::LeftUpperArm => Some(RagdollBodyPart::Torso),
        RagdollBodyPart::RightUpperArm => Some(RagdollBodyPart::Torso),
        RagdollBodyPart::LeftForearm => Some(RagdollBodyPart::LeftUpperArm),
        RagdollBodyPart::LeftHand => Some(RagdollBodyPart::LeftForearm),
        RagdollBodyPart::RightForearm => Some(RagdollBodyPart::RightUpperArm),
        RagdollBodyPart::RightHand => Some(RagdollBodyPart::RightForearm),
        RagdollBodyPart::LeftThigh => Some(RagdollBodyPart::Torso),
        RagdollBodyPart::LeftCalf => Some(RagdollBodyPart::LeftThigh),
        RagdollBodyPart::LeftFoot => Some(RagdollBodyPart::LeftCalf),
        RagdollBodyPart::RightThigh => Some(RagdollBodyPart::Torso),
        RagdollBodyPart::RightCalf => Some(RagdollBodyPart::RightThigh),
        RagdollBodyPart::RightFoot => Some(RagdollBodyPart::RightCalf),
    }
}

/// The joint of each limb: ball joints at the neck, shoulders, wrists, hips
/// and ankles, hinges at the elbows and knees, none for the torso.
pub open spec fn spec_joint(part: RagdollBodyPart) -> Option<JointSpec> {
    match part {
        RagdollBodyPart::Torso => None,
        RagdollBodyPart::Head => Some(JointSpec::Spherical { angular_damping: NECK_ANGULAR_DAMPING }),
        RagdollBodyPart::LeftUpperArm => Some(
            JointSpec::Spherical { angular_damping: JOINT_ANGULAR_DAMPING },
        ),
        RagdollBodyPart::RightUpperArm => Some(
            JointSpec::Spherical { angular_damping: JOINT_ANGULAR_DAMPING },
        ),
        RagdollBodyPart::LeftForearm => Some(JointSpec::Revolute { min_angle: -2600i64, max_angle: 100 }),
        RagdollBodyPart::LeftHand => Some(JointSpec::Spherical { angular_damping: WRIST_ANGULAR_DAMPING }),
        RagdollBodyPart::RightForearm => Some(JointSpec::Revolute { min_angle: -100i64, max_angle: 2600 }),
        RagdollBodyPart::RightHand => Some(
            JointSpec::Spherical { angular_damping: WRIST_ANGULAR_DAMPING },
        ),
        RagdollBodyPart::LeftThigh => Some(JointSpec::Spherical { angular_damping: HIP_ANGULAR_DAMPING }),
        RagdollBodyPart::LeftCalf => Some(JointSpec::Revolute { min_angle: -100i64, max_angle: 2600 }),
        RagdollBodyPart::LeftFoot => Some(JointSpec::Spherical { angular_damping: ANKLE_ANGULAR_DAMPING }),
        RagdollBodyPart::RightThigh => Some(JointSpec::Spherical { angular_damping: HIP_ANGULAR_DAMPING }),
        RagdollBodyPart::RightCalf => Some(JointSpec::Revolute { min_angle: -100i64, max_angle: 2600 }),
        RagdollBodyPart::RightFoot => Some(
            JointSpec::Spherical { angular_damping: ANKLE_ANGULAR_DAMPING },
        ),
    }
}

/// The collider of each limb: a sphere for the head, capsules elsewhere.
pub open spec fn spec_shape(part: RagdollBodyPart) -> Shape {
    match part {
        RagdollBodyPart::Torso => Shape::Capsule { radius: TORSO_RADIUS },
        RagdollBodyPart::Head => Shape::Sphere { radius: HEAD_RADIUS },
        RagdollBodyPart::LeftUpperArm => Shape::Capsule { radius: UPPER_ARM_RADIUS },
        RagdollBodyPart::RightUpperArm => Shape::Capsule { radius: UPPER_ARM_RADIUS },
        RagdollBodyPart::LeftForearm => Shape::Capsule { radius: FOREARM_RADIUS },
        RagdollBodyPart::LeftHand => Shape::Capsule { radius: HAND_RADIUS },
        RagdollBodyPart::RightForearm => Shape::Capsule { radius: FOREARM_RADIUS },
        RagdollBodyPart::RightHand => Shape::Capsule { radius: HAND_RADIUS },
        RagdollBodyPart::LeftThigh => Shape::Capsule { radius: THIGH_RADIUS },
        RagdollBodyPart::LeftCalf => Shape::Capsule { radius: CALF_RADIUS },
        RagdollBodyPart::LeftFoot => Shape::Capsule { radius: FOOT_RADIUS },
        RagdollBodyPart::RightThigh => Shape::Capsule { radius: THIGH_RADIUS },
        RagdollBodyPart::RightCalf => Shape::Capsule { radius: CALF_RADIUS },
        RagdollBodyPart::RightFoot => Shape::Capsule { radius: FOOT_RADIUS },
    }
}

/// The name of each limb's body.
pub open spec fn spec_name(part: RagdollBodyPart) -> &'static str {
    match part {
        RagdollBodyPart::Torso => "torso",
        RagdollBodyPart::Head => "head",
        RagdollBodyPart::LeftUpperArm => "left_upper_arm",
        RagdollBodyPart::RightUpperArm => "right_upper_arm",
        RagdollBodyPart::LeftForearm => "left_forearm",
        RagdollBodyPart::LeftHand => "left_hand",
        RagdollBodyPart::RightForearm => "right_forearm",
        RagdollBodyPart::RightHand => "right_hand",
        RagdollBodyPart::LeftThigh => "left_thigh",
        RagdollBodyPart::LeftCalf => "left_calf",
        RagdollBodyPart::LeftFoot => "left_foot",
        RagdollBodyPart::RightThigh => "right_thigh",
        RagdollBodyPart::RightCalf => "right_calf",
        RagdollBodyPart::RightFoot => "right_foot",
    }
}

/// The skeleton points each limb spans: from its joint bone to the next
/// joint bone down the limb; the torso from the pelvis to the highest spine
/// bone present; the head up to its bone raised a little; hands and feet
/// over a fixed length toward the middle finger and the ball of the foot.
pub open spec fn spec_endpoints(part: RagdollBodyPart, start: BonePoint, end: BonePoint) -> bool {
    match part {
        RagdollBodyPart::Torso => start == BonePoint::Joint("pelvis") && (end matches BonePoint::First(
            names,
        ) && names@ == seq!["spine_03", "spine_02"]),
        RagdollBodyPart::Head => start == BonePoint::Joint("neck_01") && end == BonePoint::Raised {
            bone: "Head",
            offset: Vec3Mm { x: 0, y: HEAD_OFFSET, z: 0 },
        },
        RagdollBodyPart::LeftUpperArm => start == BonePoint::Joint("upperarm_l") && end
            == BonePoint::Joint("lowerarm_l"),
        RagdollBodyPart::RightUpperArm => start == BonePoint::Joint("upperarm_r") && end
            == BonePoint::Joint("lowerarm_r"),
        RagdollBodyPart::LeftForearm => start == BonePoint::Joint("lowerarm_l") && end
            == BonePoint::Joint("hand_l"),
        RagdollBodyPart::LeftHand => start == BonePoint::Joint("hand_l") && end
            == BonePoint::Extended { toward: "middle_01_l", length: HAND_LENGTH },
        RagdollBodyPart::RightForearm => start == BonePoint::Joint("lowerarm_r") && end
            == BonePoint::Joint("hand_r"),
        RagdollBodyPart::RightHand => start == BonePoint::Joint("hand_r") && end
            == BonePoint::Extended { toward: "middle_01_r", length: HAND_LENGTH },
        RagdollBodyPart::LeftThigh => start == BonePoint::Joint("thigh_l") && end == BonePoint::Joint(
            "calf_l",
        ),
        RagdollBodyPart::LeftCalf => start == BonePoint::Joint("calf_l") && end == BonePoint::Joint(
            "foot_l",
        ),
        RagdollBodyPart::LeftFoot => start == BonePoint::Joint("foot_l") && end
            == BonePoint::Extended { toward: "ball_l", length: FOOT_LENGTH },
        RagdollBodyPart::RightThigh => start == BonePoint::Joint("thigh_r") && end == BonePoint::Joint(
            "calf_r",
        ),
        RagdollBodyPart::RightCalf => start == BonePoint::Joint("calf_r") && end == BonePoint::Joint(
            "foot_r",
        ),
        RagdollBodyPart::RightFoot => start == BonePoint::Joint("foot_r") && end
            == BonePoint::Extended { toward: "ball_r", length: FOOT_LENGTH },
    }
}

/// `limb` is the limb of the table for `part`.
pub open spec fn limb_matches(limb: LimbSpec, part: RagdollBodyPart) -> bool {
    &&& limb.part == part
    &&& limb.name == spec_name(part)
    &&& limb.shape == spec_shape(part)
    &&& limb.parent == spec_parent(part)
    &&& limb.joint == spec_joint(part)
    &&& spec_endpoints(part, limb.start, limb.end)
}

/// The table of limbs.
pub open spec fn spec_limb_table(limbs: Seq<LimbSpec>) -> bool {
    &&& limbs.len() == spec_limb_parts().len()
    &&& forall|i: int| 0 <= i < limbs.len() ==> limb_matches(#[trigger] limbs[i], spec_limb_parts()[i])
}

/// A limb whose start is a bone and whose end is the next bone.
fn limb(
    part: RagdollBodyPart,
    name: &'static str,
    shape: Shape,
    start: &'static str,
    end: BonePoint,
    parent: Option<RagdollBodyPart>,
    joint: Option<JointSpec>,
) -> (l: LimbSpec)
    ensures
        l == (LimbSpec { part, name, shape, start: BonePoint::Joint(start), end, parent, joint }),
{
    LimbSpec { part, name, shape, start: BonePoint::Joint(start), end, parent, joint }
}

/// The limbs of the ragdoll, each after its parent.
pub fn limbs() -> (table: Vec<LimbSpec>)
    ensures
        spec_limb_table(table@),
{
    let mut table: Vec<LimbSpec> = Vec::new();
    let mut spine: Vec<&'static str> = Vec::new();
    spine.push("spine_03");
    spine.push("spine_02");
    table.push(LimbSpec {
        part: RagdollBodyPart::Torso,
        name: "torso",
        shape: Shape::Capsule { radius: TORSO_RADIUS },
        start: BonePoint::Joint("pelvis"),
        end: BonePoint::First(spine),
        parent: None,
        joint: None,
    });
    table.push(limb(
        RagdollBodyPart::Head,
        "head",
        Shape::Sphere { radius: HEAD_RADIUS },
        "neck_01",
        BonePoint::Raised { bone: "Head", offset: Vec3Mm { x: 0, y: HEAD_OFFSET, z: 0 } },
        Some(RagdollBodyPart::Torso),
        Some(JointSpec::Spherical { angular_damping: NECK_ANGULAR_DAMPING }),
    ));
    table.push(limb(
        RagdollBodyPart::LeftUpperArm,
        "left_upper_arm",
        Shape::Capsule { radius: UPPER_ARM_RADIUS },
        "upperarm_l",
        BonePoint::Joint("lowerarm_l"),
        Some(RagdollBodyPart::Torso),
        Some(JointSpec::Spherical { angular_damping: JOINT_ANGULAR_DAMPING }),
    ));
    table.push(limb(
        RagdollBodyPart::RightUpperArm,
        "right_upper_arm",
        Shape::Capsule { radius: UPPER_ARM_RADIUS },
        "upperarm_r",
        BonePoint::Joint("lowerarm_r"),
        Some(RagdollBodyPart::Torso),
        Some(JointSpec::Spherical { angular_damping: JOINT_ANGULAR_DAMPING }),
    ));
    table.push(limb(
        RagdollBodyPart::LeftForearm,
        "left_forearm",
        Shape::Capsule { radius: FOREARM_RADIUS },
        "lowerarm_l",
        BonePoint::Joint("hand_l"),
        Some(RagdollBodyPart::LeftUpperArm),
        Some(JointSpec::Revolute { min_angle: -2600, max_angle: 100 }),
    ));
    table.push(limb(
        RagdollBodyPart::LeftHand,
        "left_hand",
        Shape::Capsule { radius: HAND_RADIUS },
        "hand_l",
        BonePoint::Extended { toward: "middle_01_l", length: HAND_LENGTH },
        Some(RagdollBodyPart::LeftForearm),
        Some(JointSpec::Spherical { angular_damping: WRIST_ANGULAR_DAMPING }),
    ));
    table.push(limb(
        RagdollBodyPart::RightForearm,
        "right_forearm",
        Shape::Capsule { radius: FOREARM_RADIUS },
        "lowerarm_r",
        BonePoint::Joint("hand_r"),
        Some(RagdollBodyPart::RightUpperArm),
        Some(JointSpec::Revolute { min_angle: -100, max_angle: 2600 }),
    ));
    table.push(limb(
        RagdollBodyPart::RightHand,
        "right_hand",
        Shape::Capsule { radius: HAND_RADIUS },
        "hand_r",
        BonePoint::Extended { toward: "middle_01_r", length: HAND_LENGTH },
        Some(RagdollBodyPart::RightForearm),
        Some(JointSpec::Spherical { angular_damping: WRIST_ANGULAR_DAMPING }),
    ));
    table.push(limb(
        RagdollBodyPart::LeftThigh,
        "left_thigh",
        Shape::Capsule { radius: THIGH_RADIUS },
        "thigh_l",
        BonePoint::Joint("calf_l"),
        Some(RagdollBodyPart::Torso),
        Some(JointSpec::Spherical { angular_damping: HIP_ANGULAR_DAMPING }),
    ));
    table.push(limb(
        RagdollBodyPart::LeftCalf,
        "left_calf",
        Shape::Capsule { radius: CALF_RADIUS },
        "calf_l",
        BonePoint::Joint("foot_l"),
        Some(RagdollBodyPart::LeftThigh),
        Some(JointSpec::Revolute { min_angle: -100, max_angle: 2600 }),
    ));
    table.push(limb(
        RagdollBodyPart::LeftFoot,
        "left_foot",
        Shape::Capsule { radius: FOOT_RADIUS },
        "foot_l",
        BonePoint::Extended { toward: "ball_l", length: FOOT_LENGTH },
        Some(RagdollBodyPart::LeftCalf),
        Some(JointSpec::Spherical { angular_damping: ANKLE_ANGULAR_DAMPING }),
    ));
    table.push(limb(
        RagdollBodyPart::RightThigh,
        "right_thigh",
        Shape::Capsule { radius: THIGH_RADIUS },
        "thigh_r",
        BonePoint::Joint("calf_r"),
        Some(RagdollBodyPart::Torso),
        Some(JointSpec::Spherical { angular_damping: HIP_ANGULAR_DAMPING }),
    ));
    table.push(limb(
        RagdollBodyPart::RightCalf,
        "right_calf",
        Shape::Capsule { radius: CALF_RADIUS },
        "calf_r",
        BonePoint::Joint("foot_r"),
        Some(RagdollBodyPart::RightThigh),
        Some(JointSpec::Revolute { min_angle: -100, max_angle: 2600 }),
    ));
    table.push(limb(
        RagdollBodyPart::RightFoot,
        "right_foot",
        Shape::Capsule { radius: FOOT_RADIUS },
        "foot_r",
        BonePoint::Extended { toward: "ball_r", length: FOOT_LENGTH },
        Some(RagdollBodyPart::RightCalf),
        Some(JointSpec::Spherical { angular_damping: ANKLE_ANGULAR_DAMPING }),
    ));
    assert(table@[0].end matches BonePoint::First(names) && names@ =~= seq!["spine_03", "spine_02"]);
    assert forall|i: int| 0 <= i < table@.len() implies limb_matches(
        #[trigger] table@[i],
        spec_limb_parts()[i],
    ) by {}
    table
}

/// The ragdoll has one body per part: every part appears in the table
/// exactly once.
pub proof fn lemma_one_body_per_part(part: RagdollBodyPart)
    ensures
        spec_limb_parts().len() == LIMB_COUNT,
        exists|i: int| 0 <= i < LIMB_COUNT && spec_limb_parts()[i] == part,
        forall|i: int, j: int|
            0 <= i < j < LIMB_COUNT ==> spec_limb_parts()[i] != spec_limb_parts()[j],
{
    let parts = spec_limb_parts();
    assert(parts.len() == 14);
    match part {
        RagdollBodyPart::Torso => assert(parts[0] == part),
        RagdollBodyPart::Head => assert(parts[1] == part),
        RagdollBodyPart::LeftUpperArm => assert(parts[2] == part),
        RagdollBodyPart::RightUpperArm => assert(parts[3] == part),
        RagdollBodyPart::LeftForearm => assert(parts[4] == part),
        RagdollBodyPart::LeftHand => assert(parts[5] == part),
        RagdollBodyPart::RightForearm => assert(parts[6] == part),
        RagdollBodyPart::RightHand => assert(parts[7] == part),
        RagdollBodyPart::LeftThigh => assert(parts[8] == part),
        RagdollBodyPart::LeftCalf => assert(parts[9] == part),
        RagdollBodyPart::LeftFoot => assert(parts[10] == part),
        RagdollBodyPart::RightThigh => assert(parts[11] == part),
        RagdollBodyPart::RightCalf => assert(parts[12] == part),
        RagdollBodyPart::RightFoot => assert(parts[13] == part),
    }
}

/// Each limb comes after the limb it hangs from, so that a limb's parent body
/// already exists when the limb is built; a limb has a joint exactly when it
/// has a parent, and the torso is the only limb without one.
pub proof fn lemma_parents_come_first()
    ensures
        forall|i: int|
            0 <= i < LIMB_COUNT ==> match #[trigger] spec_parent(spec_limb_parts()[i]) {
                Some(p) => exists|j: int| 0 <= j < i && spec_limb_parts()[j] == p,
                None => spec_limb_parts()[i] == RagdollBodyPart::Torso,
            },
        forall|p: RagdollBodyPart| #[trigger] spec_joint(p).is_some() == spec_parent(p).is_some(),
{
    let parts = spec_limb_parts();
    assert forall|i: int| 0 <= i < LIMB_COUNT implies match #[trigger] spec_parent(parts[i]) {
        Some(p) => exists|j: int| 0 <= j < i && parts[j] == p,
        None => parts[i] == RagdollBodyPart::Torso,
    } by {
        assert(parts[0] == RagdollBodyPart::Torso);
        assert(parts[2] == RagdollBodyPart::LeftUpperArm);
        assert(parts[3] == RagdollBodyPart::RightUpperArm);
        assert(parts[4] == RagdollBodyPart::LeftForearm);
        assert(parts[6] == RagdollBodyPart::RightForearm);
        assert(parts[8] == RagdollBodyPart::LeftThigh);
        assert(parts[9] == RagdollBodyPart::LeftCalf);
        assert(parts[11] == RagdollBodyPart::RightThigh);
        assert(parts[12] == RagdollBodyPart::RightCalf);
    }
}

/// The body `steps` hops up the hierarchy from `part` (staying at the torso
/// once there).
pub open spec fn spec_ancestor(part: RagdollBodyPart, steps: nat) -> RagdollBodyPart
    decreases steps,
{
    if steps == 0 {
        part
    } else {
        match spec_parent(spec_ancestor(part, (steps - 1) as nat)) {
            Some(p) => p,
            None => spec_ancestor(part, (steps - 1) as nat),
        }
    }
}

/// Every limb hangs, through at most three joints, from the torso.
pub proof fn lemma_every_limb_hangs_from_the_torso(part: RagdollBodyPart)
    ensures
        spec_ancestor(part, 3) == RagdollBodyPart::Torso,
{
    reveal_with_fuel(spec_ancestor, 4);
}

/// Hinges bend the elbows and knees; every other joint (neck, shoulders,
/// wrists, hips, ankles) is a ball joint; the head is the only sphere.
pub proof fn lemma_joint_and_shape_kinds(part: RagdollBodyPart)
    ensures
        (spec_joint(part) matches Some(JointSpec::Revolute { .. })) <==> (part
            == RagdollBodyPart::LeftForearm || part == RagdollBodyPart::RightForearm || part
            == RagdollBodyPart::LeftCalf || part == RagdollBodyPart::RightCalf),
        (spec_joint(part) matches Some(JointSpec::Spherical { .. })) <==> (part
            != RagdollBodyPart::Torso && !(part == RagdollBodyPart::LeftForearm || part
            == RagdollBodyPart::RightForearm || part == RagdollBodyPart::LeftCalf || part
            == RagdollBodyPart::RightCalf)),
        (spec_shape(part) matches Shape::Sphere { .. }) <==> part == RagdollBodyPart::Head,
{
}

/// The elbows are mirror images of each other: the left hinge bends from
/// -2.6 to 0.1 rad and the right one from -0.1 to 2.6 rad, the same range
/// with its ends negated and swapped; the knees bend alike, from -0.1 to
/// 2.6 rad, so that neither limb folds backward.
pub proof fn lemma_elbows_mirror_knees_match()
    ensures
        spec_joint(RagdollBodyPart::LeftForearm) == Some(
            JointSpec::Revolute { min_angle: -2600i64, max_angle: 100i64 },
        ),
        spec_joint(RagdollBodyPart::RightForearm) == Some(
            JointSpec::Revolute { min_angle: -100i64, max_angle: 2600i64 },
        ),
        spec_joint(RagdollBodyPart::LeftCalf) == Some(
            JointSpec::Revolute { min_angle: -100i64, max_angle: 2600i64 },
        ),
        spec_joint(RagdollBodyPart::RightCalf) == Some(
            JointSpec::Revolute { min_angle: -100i64, max_angle: 2600i64 },
        ),
        ({
            let left = spec_joint(RagdollBodyPart::LeftForearm);
            let right = spec_joint(RagdollBodyPart::RightForearm);
            left matches Some(JointSpec::Revolute { min_angle: l0, max_angle: l1 }) && right matches Some(
                JointSpec::Revolute { min_angle: r0, max_angle: r1 },
            ) && r0 == -l1 && r1 == -l0 && l0 < l1
        }),
{
}

/// In the table of limbs, each limb's joint and parent are those of its
/// part: in particular the right elbow's hinge at death, joining the right
/// forearm to the right upper arm, bends from -0.1 to 2.6 rad.
pub proof fn lemma_right_elbow_in_the_table(limbs: Seq<LimbSpec>)
    requires
        spec_limb_table(limbs),
    ensures
        limbs[6].part == RagdollBodyPart::RightForearm,
        limbs[6].parent == Some(RagdollBodyPart::RightUpperArm),
        limbs[6].joint == Some(JointSpec::Revolute { min_angle: -100i64, max_angle: 2600i64 }),
        limbs[4].part == RagdollBodyPart::LeftForearm,
        limbs[4].joint == Some(JointSpec::Revolute { min_angle: -2600i64, max_angle: 100i64 }),
{
    assert(limb_matches(limbs[6], spec_limb_parts()[6]));
    assert(limb_matches(limbs[4], spec_limb_parts()[4]));
}

/// The bones a skeleton point is measured from, in order.
pub open spec fn spec_point_bones(point: BonePoint) -> Seq<&'static str> {
    match point {
        BonePoint::Joint(name) => seq![name],
        BonePoint::First(names) => names@,
        BonePoint::Raised { bone, .. } => seq![bone],
        BonePoint::Extended { toward, .. } => seq![toward],
    }
}

/// The bones a limb is measured from: those of its start, then of its end.
pub open spec fn spec_bone_names(limb: LimbSpec) -> Seq<&'static str> {
    spec_point_bones(limb.start) + spec_point_bones(limb.end)
}

/// The bones whose motion a limb's body drives once the ragdoll is loose:
/// the bone it starts at, and the bone a raised or extended end is taken from.
pub open spec fn spec_driven_bones(limb: LimbSpec) -> Seq<&'static str> {
    let from_start = match limb.start {
        BonePoint::Joint(name) => seq![name],
        _ => Seq::empty(),
    };
    let from_end = match limb.end {
        BonePoint::Raised { bone, .. } => seq![bone],
        BonePoint::Extended { toward, .. } => seq![toward],
        _ => Seq::empty(),
    };
    from_start + from_end
}

/// The bones of one skeleton point, appended to `names`.
fn push_point_bones(point: &BonePoint, names: &mut Vec<&'static str>)
    ensures
        final(names)@ == old(names)@ + spec_point_bones(*point),
{
    match point {
        BonePoint::Joint(name) => names.push(*name),
        BonePoint::First(bone_names) => {
            let ghost start = names@;
            let mut i: usize = 0;
            while i < bone_names.len()
                invariant
                    i <= bone_names.len(),
                    names@ == start + bone_names@.take(i as int),
                decreases bone_names.len() - i,
            {
                names.push(bone_names[i]);
                assert(bone_names@.take(i + 1) =~= bone_names@.take(i as int).push(bone_names@[i as int]));
                i = i + 1;
            }
            assert(bone_names@.take(i as int) =~= bone_names@);
        },
        BonePoint::Raised { bone, .. } => names.push(*bone),
        BonePoint::Extended { toward, .. } => names.push(*toward),
    }
    assert(final(names)@ =~= old(names)@ + spec_point_bones(*point));
}

impl LimbSpec {
    /// The bones this limb is measured from, start first.
    pub fn bone_names(&self) -> (names: Vec<&'static str>)
        ensures
            names@ == spec_bone_names(*self),
    {
        let mut names: Vec<&'static str> = Vec::new();
        push_point_bones(&self.start, &mut names);
        push_point_bones(&self.end, &mut names);
        assert(names@ =~= spec_bone_names(*self));
        names
    }

    /// The bones this limb's body drives once the ragdoll is loose.
    pub fn driven_bones(&self) -> (names: Vec<&'static str>)
        ensures
            names@ == spec_driven_bones(*self),
    {
        let mut names: Vec<&'static str> = Vec::new();
        if let BonePoint::Joint(name) = &self.start {
            names.push(*name);
        }
        match &self.end {
            BonePoint::Raised { bone, .. } => names.push(*bone),
            BonePoint::Extended { toward, .. } => names.push(*toward),
            _ => {},
        }
        assert(names@ =~= spec_driven_bones(*self));
        names
    }
}

/// A limb drives only bones that it is measured from.
pub proof fn lemma_driven_bones_are_measured(limb: LimbSpec)
    ensures
        forall|k: int|
            0 <= k < spec_driven_bones(limb).len() ==> spec_bone_names(limb).contains(
                #[trigger] spec_driven_bones(limb)[k],
            ),
{
    let d = spec_driven_bones(limb);
    let b = spec_bone_names(limb);
    let s = spec_point_bones(limb.start);
    let e = spec_point_bones(limb.end);
    assert forall|k: int| 0 <= k < d.len() implies b.contains(#[trigger] d[k]) by {
        match limb.start {
            BonePoint::Joint(name) => {
                if k == 0 {
                    assert(b[0] == name);
                } else {
                    assert(b[s.len() as int] == d[k]);
                }
            },
            _ => {
                assert(b[s.len() as int] == d[k]);
            },
        }
    }
}

/// The bones of a character's skeleton, found by name: for each name, the
/// entity (by its id) of the bone that bears it.
#[derive(Debug)]
pub struct BoneMap {
    entries: Vec<(String, u64)>,
}

impl BoneMap {
    /// The names held, in the order they were first inserted.
    pub closed spec fn spec_names(&self) -> Seq<Seq<char>> {
        self.entries@.map_values(|e: (String, u64)| e.0@)
    }

    /// Each name is held once.
    #[verifier::type_invariant]
    spec fn names_unique(&self) -> bool {
        forall|i: int, j: int|
            0 <= i < j < self.entries@.len() ==> self.entries@[i].0@ != self.entries@[j].0@
    }

    /// The bone named `name`, if any.
    pub closed spec fn spec_get(&self, name: Seq<char>) -> Option<u64> {
        if exists|i: int| 0 <= i < self.entries@.len() && self.entries@[i].0@ == name {
            let i = choose|i: int| 0 <= i < self.entries@.len() && self.entries@[i].0@ == name;
            Some(self.entries@[i].1)
        } else {
            None
        }
    }

    /// The names of a map whose entries hold each name once are themselves
    /// free of repeats, and a name is held exactly when a bone is found
    /// under it.
    proof fn lemma_names(&self)
        requires
            self.names_unique(),
        ensures
            self.spec_names().no_duplicates(),
            forall|name: Seq<char>| #[trigger]
                self.spec_get(name).is_some() == self.spec_names().contains(name),
    {
        assert forall|name: Seq<char>| #[trigger]
            self.spec_get(name).is_some() == self.spec_names().contains(name) by {
            if self.spec_get(name).is_some() {
                let i = choose|i: int| 0 <= i < self.entries@.len() && self.entries@[i].0@ == name;
                assert(self.spec_names()[i] == name);
            }
            if self.spec_names().contains(name) {
                let i = choose|i: int| 0 <= i < self.spec_names().len() && self.spec_names()[i] == name;
                assert(self.entries@[i].0@ == name);
            }
        }
    }

    /// An empty map.
    pub fn new() -> (m: BoneMap)
        ensures
            m.spec_names() == Seq::<Seq<char>>::empty(),
            forall|name: Seq<char>| #[trigger] m.spec_get(name).is_none(),
    {
        let m = BoneMap { entries: Vec::new() };
        assert(m.spec_names() =~= Seq::<Seq<char>>::empty());
        m
    }

    /// Index of the entry named `name`, if any.
    fn position(&self, name: &String) -> (at: Option<usize>)
        ensures
            match at {
                Some(i) => i < self.entries@.len() && self.entries@[i as int].0@ == name@,
                None => forall|i: int| 0 <= i < self.entries@.len() ==> self.entries@[i].0@ != name@,
            },
    {
        let mut i: usize = 0;
        while i < self.entries.len()
            invariant
                i <= self.entries@.len(),
                forall|j: int| 0 <= j < i ==> self.entries@[j].0@ != name@,
            decreases self.entries.len() - i,
        {
            if self.entries[i].0 == *name {
                return Some(i);
            }
            i = i + 1;
        }
        None
    }

    /// Records the bone `entity` under `name`, in place of any bone already
    /// recorded under it: a new name joins the end of the names, a known one
    /// keeps its place.
    pub fn insert(&mut self, name: String, entity: u64)
        ensures
            final(self).spec_names() == (if old(self).spec_names().contains(name@) {
                old(self).spec_names()
            } else {
                old(self).spec_names().push(name@)
            }),
            final(self).spec_names().no_duplicates(),
            forall|k: Seq<char>| #[trigger]
                final(self).spec_get(k) == (if k == name@ {
                    Some(entity)
                } else {
                    old(self).spec_get(k)
                }),
    {
        proof {
            use_type_invariant(&*self);
            self.lemma_names();
        }
        let ghost before = self.entries@;
        let ghost key = name@;
        match self.position(&name) {
            Some(i) => {
                let mut entries: Vec<(String, u64)> = Vec::new();
                std::mem::swap(&mut entries, &mut self.entries);
                entries.set(i, (name, entity));
                self.entries = entries;
                assert(old(self).spec_names().contains(key)) by {
                    assert(old(self).spec_names()[i as int] == key);
                }
                assert(self.spec_names() =~= old(self).spec_names());
                assert forall|k: Seq<char>| #[trigger]
                    self.spec_get(k) == (if k == key {
                        Some(entity)
                    } else {
                        old(self).spec_get(k)
                    }) by {
                    if k == key {
                        assert(self.entries@[i as int].0@ == k);
                    } else if exists|j: int| 0 <= j < before.len() && before[j].0@ == k {
                        let j = choose|j: int| 0 <= j < before.len() && before[j].0@ == k;
                        assert(self.entries@[j].0@ == k);
                    }
                }
            },
            None => {
                let mut entries: Vec<(String, u64)> = Vec::new();
                std::mem::swap(&mut entries, &mut self.entries);
                entries.push((name, entity));
                assert forall|a: int, b: int|
                    0 <= a < b < entries@.len() implies entries@[a].0@ != entries@[b].0@ by {
                    if b == before.len() {
                        assert(before[a].0@ != key);
                    }
                }
                self.entries = entries;
                let ghost n = before.len() as int;
                assert(!old(self).spec_names().contains(key)) by {
                    if old(self).spec_names().contains(key) {
                        let j = choose|j: int|
                            0 <= j < old(self).spec_names().len() && old(self).spec_names()[j] == key;
                        assert(before[j].0@ == key);
                    }
                }
                assert(self.spec_names() =~= old(self).spec_names().push(key));
                assert forall|k: Seq<char>| #[trigger]
                    self.spec_get(k) == (if k == key {
                        Some(entity)
                    } else {
                        old(self).spec_get(k)
                    }) by {
                    if k == key {
                        assert(self.entries@[n].0@ == k);
                    } else if exists|j: int| 0 <= j < before.len() && before[j].0@ == k {
                        let j = choose|j: int| 0 <= j < before.len() && before[j].0@ == k;
                        assert(self.entries@[j].0@ == k);
                    }
                }
            },
        }
        proof {
            use_type_invariant(&*self);
            self.lemma_names();
        }
    }

    /// The bone named `name`, if any.
    pub fn get(&self, name: &str) -> (entity: Option<u64>)
        ensures
            entity == self.spec_get(name@),
    {
        proof {
            use_type_invariant(self);
        }
        let key = name.to_owned();
        match self.position(&key) {
            Some(i) => Some(self.entries[i].1),
            None => None,
        }
    }

    /// The bones, one per name, in the order of `spec_names`.
    pub fn entities(&self) -> (bones: Vec<u64>)
        ensures
            self.spec_names().no_duplicates(),
            forall|name: Seq<char>| #[trigger]
                self.spec_get(name).is_some() == self.spec_names().contains(name),
            bones@.len() == self.spec_names().len(),
            forall|i: int|
                0 <= i < bones@.len() ==> self.spec_get(#[trigger] self.spec_names()[i]) == Some(
                    bones@[i],
                ),
    {
        proof {
            use_type_invariant(self);
            self.lemma_names();
        }
        let mut bones: Vec<u64> = Vec::new();
        let mut i: usize = 0;
        while i < self.entries.len()
            invariant
                self.names_unique(),
                i <= self.entries@.len(),
                bones@.len() == i,
                forall|j: int| 0 <= j < i ==> bones@[j] == self.entries@[j].1,
            decreases self.entries.len() - i,
        {
            bones.push(self.entries[i].1);
            i = i + 1;
        }
        assert forall|i: int| 0 <= i < bones@.len() implies self.spec_get(
            #[trigger] self.spec_names()[i],
        ) == Some(bones@[i]) by {
            assert(self.entries@[i].0@ == self.spec_names()[i]);
        }
        bones
    }
}

/// All bones the limbs are measured from, limb after limb.
pub open spec fn spec_all_bone_names(limbs: Seq<LimbSpec>) -> Seq<&'static str>
    decreases limbs.len(),
{
    if limbs.len() == 0 {
        Seq::empty()
    } else {
        spec_all_bone_names(limbs.drop_last()) + spec_bone_names(limbs.last())
    }
}

/// The first bone, in the order of the limbs, that the skeleton lacks; with
/// one missing the ragdoll cannot be built.
pub fn first_missing_bone(limbs: &Vec<LimbSpec>, bones: &BoneMap) -> (missing: Option<&'static str>)
    ensures
        ({
            let all = spec_all_bone_names(limbs@);
            match missing {
                Some(name) => exists|k: int|
                    0 <= k < all.len() && all[k] == name && bones.spec_get(name@).is_none() && forall|
                        j: int,
                    |
                        0 <= j < k ==> (#[trigger] bones.spec_get(all[j]@)).is_some(),
                None => forall|j: int|
                    0 <= j < all.len() ==> (#[trigger] bones.spec_get(all[j]@)).is_some(),
            }
        }),
{
    let ghost all = spec_all_bone_names(limbs@);
    let mut i: usize = 0;
    while i < limbs.len()
        invariant
            i <= limbs@.len(),
            all == spec_all_bone_names(limbs@),
            forall|j: int|
                0 <= j < spec_all_bone_names(limbs@.take(i as int)).len() ==> (
                #[trigger] bones.spec_get(spec_all_bone_names(limbs@.take(i as int))[j]@)).is_some(),
            spec_all_bone_names(limbs@.take(i as int)).is_prefix_of(all),
        decreases limbs.len() - i,
    {
        let ghost done = spec_all_bone_names(limbs@.take(i as int));
        let names = limbs[i].bone_names();
        assert(limbs@.take(i + 1).drop_last() =~= limbs@.take(i as int));
        assert(spec_all_bone_names(limbs@.take(i + 1)) == done + names@);
        proof {
            lemma_bone_names_prefix(limbs@, i as int + 1);
        }
        let mut j: usize = 0;
        while j < names.len()
            invariant
                j <= names@.len(),
                all == spec_all_bone_names(limbs@),
                (done + names@).is_prefix_of(all),
                forall|k: int| 0 <= k < done.len() ==> (#[trigger] bones.spec_get(done[k]@)).is_some(),
                forall|k: int| 0 <= k < j ==> (#[trigger] bones.spec_get(names@[k]@)).is_some(),
            decreases names.len() - j,
        {
            let name = names[j];
            if bones.get(name).is_none() {
                let ghost k = done.len() + j;
                assert(all[k] == (done + names@)[k]);
                assert forall|m: int| 0 <= m < k implies (#[trigger] bones.spec_get(all[m]@)).is_some() by {
                    assert(all[m] == (done + names@)[m]);
                    if m >= done.len() {
                        assert(bones.spec_get(names@[m - done.len()]@).is_some());
                    }
                }
                return Some(name);
            }
            j = j + 1;
        }
        assert forall|k: int|
            0 <= k < spec_all_bone_names(limbs@.take(i + 1)).len() implies (#[trigger] bones.spec_get(
            spec_all_bone_names(limbs@.take(i + 1))[k]@,
        )).is_some() by {
            if k >= done.len() {
                assert(bones.spec_get(names@[k - done.len()]@).is_some());
            }
        }
        i = i + 1;
    }
    assert(limbs@.take(limbs@.len() as int) =~= limbs@);
    None
}

/// The names of the first `n` limbs come first among the names of all limbs.
proof fn lemma_bone_names_prefix(limbs: Seq<LimbSpec>, n: int)
    requires
        0 <= n <= limbs.len(),
    ensures
        spec_all_bone_names(limbs.take(n)).is_prefix_of(spec_all_bone_names(limbs)),
    decreases limbs.len() - n,
{
    if n < limbs.len() {
        lemma_bone_names_prefix(limbs, n + 1);
        assert(limbs.take(n + 1).drop_last() =~= limbs.take(n));
    } else {
        assert(limbs.take(n) =~= limbs);
    }
}

/// The entity `k` levels up from `entity` along `parents` (staying at an
/// entity that has no parent).
pub open spec fn spec_ancestor_entity(parents: Map<u64, u64>, entity: u64, k: nat) -> u64
    decreases k,
{
    if k == 0 {
        entity
    } else {
        let a = spec_ancestor_entity(parents, entity, (k - 1) as nat);
        if parents.contains_key(a) {
            parents[a]
        } else {
            a
        }
    }
}

/// Going up from `entity` along `parents` ends at an entity without a parent
/// (the hierarchy above it has no cycle).
pub open spec fn reaches_root(parents: Map<u64, u64>, entity: u64) -> bool {
    exists|d: nat| !parents.contains_key(#[trigger] spec_ancestor_entity(parents, entity, d))
}

/// `part` is the body that drives `entity`: the driver of the nearest of
/// `entity` and its ancestors that has one, or `default` when none up to the
/// root has.
pub open spec fn is_nearest_driver(
    drivers: Map<u64, u64>,
    parents: Map<u64, u64>,
    entity: u64,
    default: u64,
    part: u64,
) -> bool {
    exists|k: nat|
        {
            &&& forall|j: nat|
                j < k ==> !drivers.contains_key(#[trigger] spec_ancestor_entity(parents, entity, j))
                    && parents.contains_key(spec_ancestor_entity(parents, entity, j))
            &&& if drivers.contains_key(spec_ancestor_entity(parents, entity, k)) {
                part == drivers[spec_ancestor_entity(parents, entity, k)]
            } else {
                !parents.contains_key(spec_ancestor_entity(parents, entity, k)) && part == default
            }
        }
}

/// The body that drives the bone `entity`: the driver of the nearest of the
/// bone and its ancestors (by `parents`) that has one in `drivers`, or
/// `default` when none has.
pub fn nearest_driver(
    entity: u64,
    drivers: &HashMap<u64, u64>,
    parents: &HashMap<u64, u64>,
    default: u64,
) -> (part: u64)
    requires
        reaches_root(parents@, entity),
    ensures
        is_nearest_driver(drivers@, parents@, entity, default, part),
{
    broadcast use vstd::std_specs::hash::group_hash_axioms;

    let ghost d = choose|d: nat| !parents@.contains_key(#[trigger] spec_ancestor_entity(parents@, entity, d));
    let mut current = entity;
    let ghost mut i: nat = 0;
    loop
        invariant
            current == spec_ancestor_entity(parents@, entity, i),
            forall|j: nat|
                j < i ==> !drivers@.contains_key(#[trigger] spec_ancestor_entity(parents@, entity, j))
                    && parents@.contains_key(spec_ancestor_entity(parents@, entity, j)),
            i <= d,
            !parents@.contains_key(spec_ancestor_entity(parents@, entity, d)),
        decreases d - i,
    {
        match drivers.get(&current) {
            Some(part) => {
                assert(is_nearest_driver(drivers@, parents@, entity, default, *part)) by {
                    assert(drivers@.contains_key(spec_ancestor_entity(parents@, entity, i)));
                }
                return *part;
            },
            None => {},
        }
        match parents.get(&current) {
            Some(parent) => {
                proof {
                    assert(i != d);
                    assert(spec_ancestor_entity(parents@, entity, i + 1) == *parent);
                    i = i + 1;
                }
                current = *parent;
            },
            None => {
                assert(is_nearest_driver(drivers@, parents@, entity, default, default)) by {
                    assert(!drivers@.contains_key(spec_ancestor_entity(parents@, entity, i)));
                }
                return default;
            },
        }
    }
}

/// The driving body of each bone, in order.
pub fn assign_bones_to_parts(
    bones: &Vec<u64>,
    drivers: &HashMap<u64, u64>,
    parents: &HashMap<u64, u64>,
    torso: u64,
) -> (parts: Vec<u64>)
    requires
        forall|i: int| 0 <= i < bones@.len() ==> reaches_root(parents@, #[trigger] bones@[i]),
    ensures
        parts@.len() == bones@.len(),
        forall|i: int|
            0 <= i < bones@.len() ==> is_nearest_driver(
                drivers@,
                parents@,
                #[trigger] bones@[i],
                torso,
                parts@[i],
            ),
{
    let mut parts: Vec<u64> = Vec::new();
    let mut i: usize = 0;
    while i < bones.len()
        invariant
            i <= bones@.len(),
            parts@.len() == i,
            forall|k: int| 0 <= k < bones@.len() ==> reaches_root(parents@, #[trigger] bones@[k]),
            forall|k: int|
                0 <= k < i ==> is_nearest_driver(drivers@, parents@, #[trigger] bones@[k], torso, parts@[k]),
        decreases bones.len() - i,
    {
        let part = nearest_driver(bones[i], drivers, parents, torso);
        parts.push(part);
        i = i + 1;
    }
    parts
}

/// The drivers after adding, for each of `names` that the skeleton has, its
/// bone driven by `part` (a later entry replacing an earlier one).
pub open spec fn spec_add_drivers(
    drivers: Map<u64, u64>,
    names: Seq<&'static str>,
    part: u64,
    bones: BoneMap,
) -> Map<u64, u64>
    decreases names.len(),
{
    if names.len() == 0 {
        drivers
    } else {
        let before = spec_add_drivers(drivers, names.drop_last(), part, bones);
        match bones.spec_get(names.last()@) {
            Some(bone) => before.insert(bone, part),
            None => before,
        }
    }
}

/// The drivers of a skeleton: limb after limb, each limb's body drives the
/// bones it names as driven.
pub open spec fn spec_drivers(limbs: Seq<LimbSpec>, part_entities: Seq<u64>, bones: BoneMap) -> Map<
    u64,
    u64,
>
    decreases limbs.len(),
{
    if limbs.len() == 0 {
        Map::empty()
    } else {
        spec_add_drivers(
            spec_drivers(limbs.drop_last(), part_entities, bones),
            spec_driven_bones(limbs.last()),
            part_entities[limbs.len() - 1],
            bones,
        )
    }
}

/// Maps each bone driven by a limb to that limb's body, given the body built
/// for each limb.
pub fn assign_drivers(limbs: &Vec<LimbSpec>, part_entities: &Vec<u64>, bones: &BoneMap) -> (drivers:
    HashMap<u64, u64>)
    requires
        part_entities@.len() == limbs@.len(),
    ensures
        drivers@ == spec_drivers(limbs@, part_entities@, *bones),
{
    broadcast use vstd::std_specs::hash::group_hash_axioms;

    let mut drivers: HashMap<u64, u64> = HashMap::new();
    let mut i: usize = 0;
    while i < limbs.len()
        invariant
            part_entities@.len() == limbs@.len(),
            i <= limbs@.len(),
            drivers@ == spec_drivers(limbs@.take(i as int), part_entities@, *bones),
        decreases limbs.len() - i,
    {
        let ghost before = drivers@;
        let names = limbs[i].driven_bones();
        let part = part_entities[i];
        let mut j: usize = 0;
        while j < names.len()
            invariant
                j <= names@.len(),
                drivers@ == spec_add_drivers(before, names@.take(j as int), part, *bones),
            decreases names.len() - j,
        {
            match bones.get(names[j]) {
                Some(bone) => {
                    drivers.insert(bone, part);
                },
                None => {},
            }
            assert(names@.take(j + 1).drop_last() =~= names@.take(j as int));
            j = j + 1;
        }
        assert(names@.take(j as int) =~= names@);
        assert(limbs@.take(i + 1).drop_last() =~= limbs@.take(i as int));
        i = i + 1;
    }
    assert(limbs@.take(limbs@.len() as int) =~= limbs@);
    drivers
}

/// The ids of the bodies owned by `owner`, in order, given each body with
/// its owner.
pub open spec fn spec_owned_by(owner: u64, bodies: Seq<(u64, u64)>) -> Seq<u64>
    decreases bodies.len(),
{
    if bodies.len() == 0 {
        Seq::empty()
    } else {
        let rest = spec_owned_by(owner, bodies.drop_last());
        if bodies.last().1 == owner {
            rest.push(bodies.last().0)
        } else {
            rest
        }
    }
}

/// The bodies owned by the enemy `owner`, in order, given each one with its
/// owner: those the enemy's own collision probes ignore.
pub fn bodies_owned_by(owner: u64, bodies: &Vec<(u64, u64)>) -> (owned: Vec<u64>)
    ensures
        owned@ == spec_owned_by(owner, bodies@),
{
    let mut owned: Vec<u64> = Vec::new();
    let mut i: usize = 0;
    while i < bodies.len()
        invariant
            i <= bodies@.len(),
            owned@ == spec_owned_by(owner, bodies@.take(i as int)),
        decreases bodies.len() - i,
    {
        let (body, body_owner) = bodies[i];
        if body_owner == owner {
            owned.push(body);
        }
        assert(bodies@.take(i + 1).drop_last() =~= bodies@.take(i as int));
        i = i + 1;
    }
    assert(bodies@.take(bodies@.len() as int) =~= bodies@);
    owned
}

/// Exactly the bodies whose owner is `owner` are selected.
pub proof fn lemma_owned_by_selects_owner(owner: u64, bodies: Seq<(u64, u64)>)
    ensures
        forall|b: u64|
            spec_owned_by(owner, bodies).contains(b) <==> exists|i: int|
                0 <= i < bodies.len() && #[trigger] bodies[i] == (b, owner),
    decreases bodies.len(),
{
    if bodies.len() > 0 {
        let rest = bodies.drop_last();
        lemma_owned_by_selects_owner(owner, rest);
        assert forall|b: u64|
            spec_owned_by(owner, bodies).contains(b) <==> exists|i: int|
                0 <= i < bodies.len() && #[trigger] bodies[i] == (b, owner) by {
            if spec_owned_by(owner, bodies).contains(b) {
                if bodies.last() == (b, owner) {
                    assert(bodies[bodies.len() - 1] == (b, owner));
                } else {
                    assert(spec_owned_by(owner, rest).contains(b)) by {
                        if bodies.last().1 == owner {
                            let k = choose|k: int|
                                0 <= k < spec_owned_by(owner, bodies).len()
                                    && spec_owned_by(owner, bodies)[k] == b;
                            assert(k < spec_owned_by(owner, rest).len());
                            assert(spec_owned_by(owner, rest)[k] == b);
                        }
                    }
                    let i = choose|i: int| 0 <= i < rest.len() && rest[i] == (b, owner);
                    assert(bodies[i] == (b, owner));
                }
            }
            if exists|i: int| 0 <= i < bodies.len() && #[trigger] bodies[i] == (b, owner) {
                let i = choose|i: int| 0 <= i < bodies.len() && #[trigger] bodies[i] == (b, owner);
                if i == bodies.len() - 1 {
                    let s = spec_owned_by(owner, bodies);
                    assert(s[s.len() - 1] == b);
                } else {
                    assert(rest[i] == (b, owner));
                    let r = spec_owned_by(owner, rest);
                    assert(r.contains(b));
                    let k = choose|k: int| 0 <= k < r.len() && r[k] == b;
                    let s = spec_owned_by(owner, bodies);
                    if bodies.last().1 == owner {
                        assert(s == r.push(bodies.last().0));
                        assert(s[k] == b);
                    } else {
                        assert(s == r);
                    }
                }
            }
        }
    }
}

/// While an enemy lives, its ragdoll bodies are built inert (and without
/// joints): animation drives the skeleton and the bodies only catch shots.
pub fn starts_inert(dying: bool) -> (inert: bool)
    ensures
        inert == !dying,
{
    !dying
}

/// The ragdoll bodies follow the animated bones while the enemy lives, and
/// once more on the frame it dies (to take the death pose); afterwards the
/// physics drives the bones.
pub fn follows_animation(dying: bool, died_this_frame: bool) -> (follows: bool)
    ensures
        follows == (!dying || died_this_frame),
{
    !dying || died_this_frame
}

/// The position of `part` in the table of limbs.
pub open spec fn spec_part_index(part: RagdollBodyPart) -> int {
    match part {
        RagdollBodyPart::Torso => 0,
        RagdollBodyPart::Head => 1,
        RagdollBodyPart::LeftUpperArm => 2,
        RagdollBodyPart::RightUpperArm => 3,
        RagdollBodyPart::LeftForearm => 4,
        RagdollBodyPart::LeftHand => 5,
        RagdollBodyPart::RightForearm => 6,
        RagdollBodyPart::RightHand => 7,
        RagdollBodyPart::LeftThigh => 8,
        RagdollBodyPart::LeftCalf => 9,
        RagdollBodyPart::LeftFoot => 10,
        RagdollBodyPart::RightThigh => 11,
        RagdollBodyPart::RightCalf => 12,
        RagdollBodyPart::RightFoot => 13,
    }
}

/// The position of `part` in the table of limbs.
pub fn part_index(part: RagdollBodyPart) -> (index: usize)
    ensures
        index == spec_part_index(part),
        spec_limb_parts()[index as int] == part,
{
    match part {
        RagdollBodyPart::Torso => 0,
        RagdollBodyPart::Head => 1,
        RagdollBodyPart::LeftUpperArm => 2,
        RagdollBodyPart::RightUpperArm => 3,
        RagdollBodyPart::LeftForearm => 4,
        RagdollBodyPart::LeftHand => 5,
        RagdollBodyPart::RightForearm => 6,
        RagdollBodyPart::RightHand => 7,
        RagdollBodyPart::LeftThigh => 8,
        RagdollBodyPart::LeftCalf => 9,
        RagdollBodyPart::LeftFoot => 10,
        RagdollBodyPart::RightThigh => 11,
        RagdollBodyPart::RightCalf => 12,
        RagdollBodyPart::RightFoot => 13,
    }
}

/// A joint to build: between the body of limb `child` and the body of limb
/// `parent` (positions in the table of limbs).
#[derive(Clone, Copy, Debug, PartialEq, Eq, Structural)]
pub struct JointPlan {
    pub child: usize,
    pub parent: usize,
    pub joint: JointSpec,
}

/// What to build of a ragdoll when its enemy's skeleton is ready: the bodies
/// of the first `built` limbs, and whether that is the whole ragdoll.
#[derive(Clone, Copy, Debug, PartialEq, Eq, Structural)]
pub struct RagdollPlan {
    pub built: usize,
    pub complete: bool,
}

/// The joints of the first `n` limbs, in order: one for each limb that has a
/// parent and a joint, to its parent.
pub open spec fn spec_joint_plans(limbs: Seq<LimbSpec>, n: int) -> Seq<JointPlan>
    decreases n,
{
    if n <= 0 {
        Seq::empty()
    } else {
        let earlier = spec_joint_plans(limbs, n - 1);
        let limb = limbs[n - 1];
        match (limb.parent, limb.joint) {
            (Some(parent), Some(joint)) => earlier.push(
                JointPlan { child: (n - 1) as usize, parent: spec_part_index(parent) as usize, joint },
            ),
            _ => earlier,
        }
    }
}

/// Plans the bodies of a ragdoll from the table of limbs, given for each limb
/// whether it could be measured on the current pose: limbs are built in order
/// until the first that cannot be measured; the ragdoll is complete when
/// every limb was built. Joints are not part of it: they are built at death,
/// from the pose the enemy died in (see `plan_joints`).
pub fn plan_ragdoll(limbs: &Vec<LimbSpec>, measured: &Vec<bool>) -> (plan: RagdollPlan)
    requires
        measured@.len() == limbs@.len(),
    ensures
        plan.built <= limbs@.len(),
        forall|j: int| 0 <= j < plan.built ==> measured@[j],
        plan.built == limbs@.len() || !measured@[plan.built as int],
        plan.complete == (plan.built == limbs@.len()),
{
    let mut built: usize = 0;
    while built < measured.len() && measured[built]
        invariant
            built <= measured@.len(),
            forall|j: int| 0 <= j < built ==> measured@[j],
        decreases measured.len() - built,
    {
        built = built + 1;
    }
    RagdollPlan { built, complete: built == limbs.len() }
}

/// The joints that hold the bodies of the first `built` limbs together: one
/// for each of them that hangs from a parent, joining it to its parent's
/// body, in the order of the limbs.
pub fn plan_joints(limbs: &Vec<LimbSpec>, built: usize) -> (joints: Vec<JointPlan>)
    requires
        spec_limb_table(limbs@),
        built <= limbs@.len(),
    ensures
        joints@ == spec_joint_plans(limbs@, built as int),
        forall|k: int|
            0 <= k < joints@.len() ==> (#[trigger] joints@[k]).parent < joints@[k].child < built,
{
    let mut joints: Vec<JointPlan> = Vec::new();
    let mut i: usize = 0;
    while i < built
        invariant
            spec_limb_table(limbs@),
            built <= limbs@.len(),
            i <= built,
            joints@ == spec_joint_plans(limbs@, i as int),
            forall|k: int|
                0 <= k < joints@.len() ==> (#[trigger] joints@[k]).parent < joints@[k].child < i,
        decreases built - i,
    {
        let limb = &limbs[i];
        assert(limb_matches(limbs@[i as int], spec_limb_parts()[i as int]));
        match (limb.parent, limb.joint) {
            (Some(parent), Some(joint)) => {
                let parent_index = part_index(parent);
                proof {
                    lemma_parent_index_precedes(i as int);
                }
                joints.push(JointPlan { child: i, parent: parent_index, joint });
            },
            _ => {},
        }
        i = i + 1;
    }
    joints
}

/// The joints of the first `n` limbs number one fewer than the limbs: every
/// limb but the torso hangs from its parent by a joint.
proof fn lemma_joint_plan_count(limbs: Seq<LimbSpec>, n: int)
    requires
        spec_limb_table(limbs),
        1 <= n <= LIMB_COUNT,
    ensures
        spec_joint_plans(limbs, n).len() == n - 1,
    decreases n,
{
    lemma_one_body_per_part(RagdollBodyPart::Torso);
    let parts = spec_limb_parts();
    assert(parts[0] == RagdollBodyPart::Torso);
    assert(limb_matches(limbs[n - 1], parts[n - 1]));
    if n > 1 {
        lemma_joint_plan_count(limbs, n - 1);
        assert(parts[n - 1] != parts[0]);
    } else {
        assert(spec_joint_plans(limbs, 0).len() == 0);
    }
}

/// At death the whole ragdoll is joined: one joint for each limb but the
/// torso, each to the limb it hangs from, which comes earlier in the table.
pub proof fn lemma_death_joins_every_limb(limbs: Seq<LimbSpec>)
    requires
        spec_limb_table(limbs),
    ensures
        spec_joint_plans(limbs, LIMB_COUNT as int).len() == LIMB_COUNT - 1,
{
    lemma_joint_plan_count(limbs, LIMB_COUNT as int);
}

/// A ragdoll is built for a character whose skeleton is ready only when it
/// has none yet: a skeleton that is instanced again keeps its bodies.
pub fn builds_ragdoll(has_ragdoll: bool) -> (build: bool)
    ensures
        build == !has_ragdoll,
{
    !has_ragdoll
}

/// A ragdoll goes loose (its bodies woken, its joints built from the death
/// pose, the pending kick applied) on the first frame its enemy is dying;
/// one already loose is left alone.
pub fn goes_loose(dying: bool, loose: bool) -> (activate: bool)
    ensures
        activate == (dying && !loose),
{
    dying && !loose
}

/// The fastest a killing shot may launch the limb it hits, in metres per
/// second.
pub const MAX_KICK_SPEED: u64 = 8;

/// `impulse` capped at what launches a limb of `mass` at `MAX_KICK_SPEED`.
pub open spec fn spec_capped_impulse(impulse: int, mass: int) -> int {
    if impulse <= mass * MAX_KICK_SPEED {
        impulse
    } else {
        mass * MAX_KICK_SPEED
    }
}

/// The impulse a killing shot gives the limb it hits, in millinewton-seconds:
/// the shot's `impulse`, capped by the limb's `mass` (in grams) so that the
/// limb is launched at no more than `MAX_KICK_SPEED`.
pub fn capped_impulse(impulse: u64, mass: u64) -> (capped: u64)
    ensures
        capped == spec_capped_impulse(impulse as int, mass as int),
{
    if mass > u64::MAX / MAX_KICK_SPEED {
        impulse
    } else {
        let limit = mass * MAX_KICK_SPEED;
        if impulse <= limit {
            impulse
        } else {
            limit
        }
    }
}

/// A kick never launches a limb faster than `MAX_KICK_SPEED`, whatever its
/// mass, and never exceeds the shot's own impulse; a light limb gets less
/// than a heavy one.
pub proof fn lemma_kick_is_capped(impulse: int, mass: int, heavier: int)
    requires
        0 <= impulse,
        0 <= mass <= heavier,
    ensures
        spec_capped_impulse(impulse, mass) <= mass * MAX_KICK_SPEED,
        spec_capped_impulse(impulse, mass) <= impulse,
        spec_capped_impulse(impulse, mass) <= spec_capped_impulse(impulse, heavier),
        MAX_KICK_SPEED < 12,
{
}

/// The parent of the `i`-th limb of the table stands before it in the table.
proof fn lemma_parent_index_precedes(i: int)
    requires
        0 <= i < LIMB_COUNT,
    ensures
        spec_parent(spec_limb_parts()[i]) matches Some(p) ==> spec_part_index(p) < i,
{
    let parts = spec_limb_parts();
    assert(parts[0] == RagdollBodyPart::Torso);
    assert(parts[1] == RagdollBodyPart::Head);
    assert(parts[2] == RagdollBodyPart::LeftUpperArm);
    assert(parts[3] == RagdollBodyPart::RightUpperArm);
    assert(parts[4] == RagdollBodyPart::LeftForearm);
    assert(parts[5] == RagdollBodyPart::LeftHand);
    assert(parts[6] == RagdollBodyPart::RightForearm);
    assert(parts[7] == RagdollBodyPart::RightHand);
    assert(parts[8] == RagdollBodyPart::LeftThigh);
    assert(parts[9] == RagdollBodyPart::LeftCalf);
    assert(parts[10] == RagdollBodyPart::LeftFoot);
    assert(parts[11] == RagdollBodyPart::RightThigh);
    assert(parts[12] == RagdollBodyPart::RightCalf);
    assert(parts[13] == RagdollBodyPart::RightFoot);
}

/// A hinge's axis is taken from the shoulders and the torso; these limbs are
/// built before any limb that hangs from a hinge.
pub proof fn lemma_hinge_axis_limbs_come_first(i: int)
    requires
        0 <= i < LIMB_COUNT,
        spec_joint(spec_limb_parts()[i]) matches Some(JointSpec::Revolute { .. }),
    ensures
        spec_part_index(RagdollBodyPart::Torso) < i,
        spec_part_index(RagdollBodyPart::LeftUpperArm) < i,
        spec_part_index(RagdollBodyPart::RightUpperArm) < i,
{
    lemma_parent_index_precedes(i);
}

} // verus!
