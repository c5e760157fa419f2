use std::collections::HashMap;

use cathedral::ragdoll::{
    assign_bones_to_parts, assign_drivers, bodies_owned_by, builds_ragdoll, capped_impulse,
    first_missing_bone, follows_animation, goes_loose, limbs, nearest_driver, part_index, plan_joints,
    plan_ragdoll, starts_inert, BoneMap, JointPlan, JointSpec, RagdollBodyPart, Shape, LIMB_COUNT,
    MAX_KICK_SPEED, RAGDOLL_GROUP, WORLD_GROUP,
};
use cathedral::shooting::{shot_victim, SHOT_IMPULSE, SHOT_MASK};

const BODIES_PER_ENEMY: usize = 14;

const SKELETON: [&str; 25] = [
    "pelvis", "spine_02", "spine_03", "neck_01", "Head", "upperarm_l", "lowerarm_l", "hand_l",
    "middle_01_l", "upperarm_r", "lowerarm_r", "hand_r", "middle_01_r", "thigh_l", "calf_l", "foot_l",
    "ball_l", "thigh_r", "calf_r", "foot_r", "ball_r", "root", "Armature", "index_01_l", "index_01_r",
];

fn skeleton() -> BoneMap {
    let mut bones = BoneMap::new();
    for (i, name) in SKELETON.iter().enumerate() {
        bones.insert(name.to_string(), 100 + i as u64);
    }
    bones
}

#[test]
fn ragdoll_has_fourteen_limbs() {
    let table = limbs();
    assert_eq!(table.len(), BODIES_PER_ENEMY);
    assert_eq!(LIMB_COUNT, BODIES_PER_ENEMY);
    assert_eq!(table[0].part, RagdollBodyPart::Torso);
    assert_eq!(table[0].parent, None);
    assert_eq!(table[1].shape, Shape::Sphere { radius: 120 });
    for (i, limb) in table.iter().enumerate() {
        if let Some(parent) = limb.parent {
            assert!(table[..i].iter().any(|earlier| earlier.part == parent));
        }
        assert_eq!(limb.parent.is_some(), limb.joint.is_some());
    }
}

#[test]
fn elbows_and_knees_are_hinges() {
    let table = limbs();
    let hinges: Vec<RagdollBodyPart> = table
        .iter()
        .filter(|limb| matches!(limb.joint, Some(JointSpec::Revolute { .. })))
        .map(|limb| limb.part)
        .collect();
    assert_eq!(
        hinges,
        vec![
            RagdollBodyPart::LeftForearm,
            RagdollBodyPart::RightForearm,
            RagdollBodyPart::LeftCalf,
            RagdollBodyPart::RightCalf
        ]
    );
    assert_eq!(table[4].joint, Some(JointSpec::Revolute { min_angle: -2600, max_angle: 100 }));
}

#[test]
fn limb_bone_names() {
    let table = limbs();
    assert_eq!(table[0].bone_names(), vec!["pelvis", "spine_03", "spine_02"]);
    assert_eq!(table[0].driven_bones(), vec!["pelvis"]);
    assert_eq!(table[1].bone_names(), vec!["neck_01", "Head"]);
    assert_eq!(table[1].driven_bones(), vec!["neck_01", "Head"]);
    assert_eq!(table[2].driven_bones(), vec!["upperarm_l"]);
    assert_eq!(table[5].bone_names(), vec!["hand_l", "middle_01_l"]);
    assert_eq!(table[5].driven_bones(), vec!["hand_l", "middle_01_l"]);
}

#[test]
fn bone_map_finds_bones_by_name() {
    let mut bones = BoneMap::new();
    assert_eq!(bones.get("pelvis"), None);
    bones.insert("pelvis".to_string(), 7);
    bones.insert("Head".to_string(), 9);
    bones.insert("pelvis".to_string(), 8);
    assert_eq!(bones.get("pelvis"), Some(8));
    assert_eq!(bones.get("Head"), Some(9));
    assert_eq!(bones.get("head"), None);
    assert_eq!(bones.entities(), vec![8, 9]);
}

#[test]
fn bone_map_holds_one_bone_per_name() {
    let mut bones = BoneMap::new();
    assert!(bones.entities().is_empty());
    bones.insert("pelvis".to_string(), 7);
    assert_eq!(bones.entities(), vec![7]);
    bones.insert("pelvis".to_string(), 8);
    assert_eq!(bones.entities(), vec![8]);
    assert_eq!(skeleton().entities().len(), SKELETON.len());
}

#[test]
fn missing_bone_is_reported_in_limb_order() {
    let table = limbs();
    assert_eq!(first_missing_bone(&table, &skeleton()), None);
    let mut partial = BoneMap::new();
    for name in ["pelvis", "spine_03", "neck_01"] {
        partial.insert(name.to_string(), 1);
    }
    assert_eq!(first_missing_bone(&table, &partial), Some("spine_02"));
    partial.insert("spine_02".to_string(), 2);
    assert_eq!(first_missing_bone(&table, &partial), Some("Head"));
}

#[test]
fn bones_are_driven_by_their_nearest_limb() {
    let table = limbs();
    let bones = skeleton();
    let part_entities: Vec<u64> = (0..table.len() as u64).map(|i| 1000 + i).collect();
    let drivers = assign_drivers(&table, &part_entities, &bones);
    let pelvis = bones.get("pelvis").unwrap();
    let head = bones.get("Head").unwrap();
    let hand = bones.get("hand_l").unwrap();
    let finger = bones.get("index_01_l").unwrap();
    let root = bones.get("root").unwrap();
    assert_eq!(drivers.get(&pelvis), Some(&1000));
    assert_eq!(drivers.get(&head), Some(&1001));
    assert_eq!(drivers.get(&hand), Some(&1005));
    assert_eq!(drivers.get(&finger), None);

    let mut parents: HashMap<u64, u64> = HashMap::new();
    parents.insert(finger, hand);
    parents.insert(hand, bones.get("lowerarm_l").unwrap());
    parents.insert(pelvis, root);
    assert_eq!(nearest_driver(finger, &drivers, &parents, 1000), 1005);
    assert_eq!(nearest_driver(root, &drivers, &parents, 1000), 1000);
    assert_eq!(nearest_driver(12345, &drivers, &parents, 1000), 1000);
    let parts = assign_bones_to_parts(&vec![finger, head, root], &drivers, &parents, 1000);
    assert_eq!(parts, vec![1005, 1001, 1000]);
}

#[test]
fn owned_bodies_are_those_of_their_enemy() {
    let bodies = vec![(1, 10), (2, 20), (3, 10), (4, 30)];
    assert_eq!(bodies_owned_by(10, &bodies), vec![1, 3]);
    assert_eq!(bodies_owned_by(40, &bodies), Vec::<u64>::new());
}

#[test]
fn ragdoll_is_inert_until_death() {
    assert!(starts_inert(false));
    assert!(!starts_inert(true));
    assert!(follows_animation(false, false));
    assert!(follows_animation(true, true));
    assert!(!follows_animation(true, false));
}

#[test]
fn shots_kill_only_living_enemies_they_hit() {
    assert_eq!(SHOT_MASK, RAGDOLL_GROUP);
    assert_eq!(RAGDOLL_GROUP & WORLD_GROUP, 0);
    assert_eq!(shot_victim(true, Some(5), true), Some(5));
    assert_eq!(shot_victim(true, Some(5), false), None);
    assert_eq!(shot_victim(true, None, true), None);
    assert_eq!(shot_victim(false, Some(5), true), None);
}

#[test]
fn full_ragdoll_plan_builds_every_body() {
    let table = limbs();
    let plan = plan_ragdoll(&table, &vec![true; LIMB_COUNT]);
    assert!(plan.complete);
    assert_eq!(plan.built, LIMB_COUNT);
    assert_eq!(part_index(RagdollBodyPart::RightFoot), 13);
}

#[test]
fn death_joins_every_limb_to_its_parent() {
    let table = limbs();
    let joints = plan_joints(&table, LIMB_COUNT);
    assert_eq!(joints.len(), LIMB_COUNT - 1);
    assert_eq!(
        joints[0],
        JointPlan { child: 1, parent: 0, joint: JointSpec::Spherical { angular_damping: 64 } }
    );
    assert_eq!(
        joints[3],
        JointPlan { child: 4, parent: 2, joint: JointSpec::Revolute { min_angle: -2600, max_angle: 100 } }
    );
    for joint in &joints {
        assert!(joint.parent < joint.child);
        assert_eq!(Some(table[joint.parent].part), table[joint.child].parent);
    }
    assert_eq!(plan_joints(&table, 5).len(), 4);
    assert!(plan_joints(&table, 1).is_empty());
}

#[test]
fn ragdoll_plan_stops_at_the_first_unmeasured_limb() {
    let table = limbs();
    let mut measured = vec![true; LIMB_COUNT];
    measured[5] = false;
    measured[9] = false;
    let plan = plan_ragdoll(&table, &measured);
    assert!(!plan.complete);
    assert_eq!(plan.built, 5);
    let none = plan_ragdoll(&table, &vec![false; LIMB_COUNT]);
    assert_eq!(none.built, 0);
    assert!(!none.complete);
}

#[test]
fn ragdoll_is_built_once_and_goes_loose_once() {
    assert!(builds_ragdoll(false));
    assert!(!builds_ragdoll(true));
    assert!(!goes_loose(false, false));
    assert!(goes_loose(true, false));
    assert!(!goes_loose(true, true));
}

#[test]
fn kick_is_capped_by_the_mass_of_the_hit_limb() {
    assert_eq!(SHOT_IMPULSE, 100_000);
    assert_eq!(MAX_KICK_SPEED, 8);
    // A head of about 7.24 kg takes 57.92 N s: 8 m/s, below the 12 m/s bound.
    assert_eq!(capped_impulse(SHOT_IMPULSE, 7_238), 57_904);
    // A hand of about 2.26 kg would fly at 44 m/s uncapped.
    assert_eq!(capped_impulse(SHOT_IMPULSE, 2_262), 18_096);
    // A body heavy enough takes the whole shot.
    assert_eq!(capped_impulse(SHOT_IMPULSE, 20_000), 100_000);
    assert_eq!(capped_impulse(SHOT_IMPULSE, 12_500), 100_000);
    assert_eq!(capped_impulse(SHOT_IMPULSE, 0), 0);
    assert_eq!(capped_impulse(5, u64::MAX), 5);
    for mass in [1_000u64, 2_262, 7_238, 30_000] {
        let kick = capped_impulse(SHOT_IMPULSE, mass);
        assert!(kick <= SHOT_IMPULSE);
        assert!(kick as f64 / mass as f64 <= MAX_KICK_SPEED as f64);
        assert!((kick as f64 / mass as f64) < 12.0);
    }
}
