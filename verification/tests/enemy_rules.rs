use cathedral::enemies::{
    avoidance_angle_degrees, first_clear_candidate, AnimationState, ArmatureAnimation, EnemyActivity,
    EnemyKind, Fighter, Gunner, Maneuver,
};
use cathedral::geometry::Vec3Mm;

#[test]
fn default_fighter_and_gunner() {
    let fighter = Fighter::default();
    assert_eq!(fighter.reach, 2500);
    assert_eq!(fighter.move_speed, 3000);
    assert_eq!(fighter.rig.weapon.path, "weapon/katana.glb");
    assert_eq!(fighter.rig.weapon.collider_half_extents, Vec3Mm::new(10, 40, 350));
    let gunner = Gunner::default();
    assert_eq!(gunner.flee_distance, 4000);
    assert_eq!(gunner.attack_distance, 12000);
    assert_eq!(gunner.rig.weapon.scale_permille, 150);
    assert_eq!(gunner.rig.animation_index(AnimationState::Idle), 21);
    assert_eq!(gunner.rig.animation_index(AnimationState::Moving), 36);
    assert_eq!(gunner.rig.animation_index(AnimationState::Attacking), 23);
}

#[test]
fn fighter_walks_to_the_player_then_strikes() {
    let fighter = Fighter::default();
    let mut activity = EnemyActivity::default();
    let far = fighter.update(&mut activity, Some(6000));
    assert_eq!(far, Maneuver::Advance { speed: 3000, around_obstacles: true });
    assert_eq!(activity.state, AnimationState::Moving);
    let close = fighter.update(&mut activity, Some(2500));
    assert_eq!(close, Maneuver::Stand);
    assert_eq!(activity.state, AnimationState::Attacking);
    assert_eq!(activity.attack_cooldown, 2_000_000);
}

#[test]
fn fighter_with_player_straight_above_does_nothing() {
    let fighter = Fighter::default();
    let mut activity = EnemyActivity::default();
    assert_eq!(fighter.update(&mut activity, None), Maneuver::Stand);
    assert_eq!(activity.state, AnimationState::Idle);
    assert_eq!(activity.attack_cooldown, 0);
}

#[test]
fn gunner_keeps_its_distance() {
    let gunner = EnemyKind::Gunner(Gunner::default());
    let mut activity = EnemyActivity::default();
    assert_eq!(gunner.update(&mut activity, Some(3999)), Maneuver::Retreat { speed: 1000 });
    assert_eq!(activity.state, AnimationState::Moving);
    assert_eq!(
        gunner.update(&mut activity, Some(12001)),
        Maneuver::Advance { speed: 1000, around_obstacles: false }
    );
    assert_eq!(gunner.update(&mut activity, Some(4000)), Maneuver::FacePlayer);
    assert_eq!(activity.state, AnimationState::Attacking);
    assert_eq!(gunner.update(&mut activity, Some(12000)), Maneuver::FacePlayer);
}

#[test]
fn attack_plays_for_the_first_part_of_each_cooldown() {
    let gunner = Gunner::default();
    let mut activity = EnemyActivity::default();
    activity.attack_on_cooldown(gunner.attack_cooldown, gunner.attack_animation);
    assert_eq!(activity.state, AnimationState::Attacking);
    activity.tick(999_999);
    activity.attack_on_cooldown(gunner.attack_cooldown, gunner.attack_animation);
    assert_eq!(activity.state, AnimationState::Attacking);
    activity.tick(1);
    activity.attack_on_cooldown(gunner.attack_cooldown, gunner.attack_animation);
    assert_eq!(activity.state, AnimationState::Idle);
    activity.tick(1_000_000);
    activity.attack_on_cooldown(gunner.attack_cooldown, gunner.attack_animation);
    assert_eq!(activity.attack_cooldown, 2_000_000);
    assert_eq!(activity.state, AnimationState::Attacking);
}

#[test]
fn timer_stops_at_its_lowest_value() {
    let mut activity = EnemyActivity { state: AnimationState::Moving, attack_cooldown: i64::MIN + 5 };
    activity.tick(10);
    assert_eq!(activity.attack_cooldown, i64::MIN);
    assert_eq!(activity.state, AnimationState::Moving);
}

#[test]
fn obstacle_avoidance_prefers_straight_ahead() {
    assert_eq!(avoidance_angle_degrees(0), 0);
    assert_eq!(avoidance_angle_degrees(1), 45);
    assert_eq!(avoidance_angle_degrees(2), -45);
    assert_eq!(avoidance_angle_degrees(3), 90);
    assert_eq!(avoidance_angle_degrees(4), -90);
    assert_eq!(first_clear_candidate(&vec![true, true, true, true, true]), Some(0));
    assert_eq!(first_clear_candidate(&vec![false, false, true, true, false]), Some(2));
    assert_eq!(first_clear_candidate(&vec![false; 5]), None);
}

#[test]
fn animation_restarts_only_on_a_new_state() {
    let mut armature = ArmatureAnimation::new();
    assert_eq!(armature.transition(AnimationState::Idle), Some(AnimationState::Idle));
    assert_eq!(armature.transition(AnimationState::Idle), None);
    assert_eq!(armature.transition(AnimationState::Moving), Some(AnimationState::Moving));
    assert_eq!(armature.current, Some(AnimationState::Moving));
}
