use vstd::prelude::*;

use crate::geometry::Vec3Mm;

verus! {

/// Largest magnitude of a duration or a timer, in microseconds, that the
/// enemy rules take: about 146 000 years.
pub const DURATION_LIMIT_US: i64 = 4_611_686_018_427_387_903;

/// Radius of the sphere with which an enemy collides, in millimetres.
pub const ENEMY_COLLISION_RADIUS_MM: i64 = 350;

/// Height of that sphere's centre above the enemy's feet, in millimetres.
pub const ENEMY_COLLISION_CENTER_HEIGHT_MM: i64 = 1000;

/// How far ahead a fighter probes for obstacles, in millimetres.
pub const OBSTACLE_PROBE_DISTANCE_MM: i64 = 2000;

/// How many directions a fighter tries when the way ahead is blocked.
pub const OBSTACLE_AVOIDANCE_CANDIDATES: usize = 5;

/// What an enemy's body is doing, and so which animation it plays.
#[derive(Clone, Copy, Debug, PartialEq, Eq, Structural, Hash)]
pub enum AnimationState {
    Idle,
    Moving,
    Attacking,
}

impl Default for AnimationState {
    /// An enemy starts idle.
    fn default() -> (s: Self)
        ensures
            s == AnimationState::Idle,
    {
        AnimationState::Idle
    }
}

/// The weapon an enemy holds in its right hand.
#[derive(Clone, Copy, Debug)]
pub struct WeaponSpec {
    /// Asset path of the weapon's model.
    pub path: &'static str,
    /// Scale of the model, in thousandths.
    pub scale_permille: u32,
    /// Yaw, pitch and roll of the model in the hand (Euler order YXZ), in
    /// ten-thousandths of a radian.
    pub rotation_euler_yxz: (i64, i64, i64),
    /// Offset of the model from the hand bone.
    pub translation: Vec3Mm,
    /// Half extents of the box collider the weapon gets once dropped.
    pub collider_half_extents: Vec3Mm,
}

/// The model, animations and weapon of an enemy.
#[derive(Clone, Copy, Debug)]
pub struct EnemyRig {
    /// Asset path of the character model.
    pub scene: &'static str,
    /// Asset path of the file that holds the animation clips.
    pub animation_source: &'static str,
    /// Index of the idle clip in that file.
    pub idle_animation: usize,
    /// Index of the walking clip.
    pub moving_animation: usize,
    /// Index of the attack clip.
    pub attack_animation: usize,
    pub weapon: WeaponSpec,
}

/// The clip index that `rig` plays for `state`.
pub open spec fn spec_animation_index(rig: EnemyRig, state: AnimationState) -> usize {
    match state {
        AnimationState::Idle => rig.idle_animation,
        AnimationState::Moving => rig.moving_animation,
        AnimationState::Attacking => rig.attack_animation,
    }
}

impl EnemyRig {
    /// The index of the clip that plays while the enemy is in `state`.
    pub fn animation_index(&self, state: AnimationState) -> (index: usize)
        ensures
            index == spec_animation_index(*self, state),
    {
        match state {
            AnimationState::Idle => self.idle_animation,
            AnimationState::Moving => self.moving_animation,
            AnimationState::Attacking => self.attack_animation,
        }
    }
}

/// A melee enemy: it walks up to the player, around obstacles, and strikes
/// once in reach.
#[derive(Clone, Copy, Debug)]
pub struct Fighter {
    pub rig: EnemyRig,
    /// Walking speed, in millimetres per second.
    pub move_speed: i64,
    /// Distance to the player at which it strikes, in millimetres.
    pub reach: i64,
    /// Time between two strikes, in microseconds.
    pub attack_cooldown: i64,
    /// Length of the strike animation, in microseconds.
    pub attack_animation: i64,
}

/// A ranged enemy: it keeps the player between two distances and shoots
/// from there.
#[derive(Clone, Copy, Debug)]
pub struct Gunner {
    pub rig: EnemyRig,
    /// Walking speed, in millimetres per second.
    pub move_speed: i64,
    /// Below this distance to the player it backs away, in millimetres.
    pub flee_distance: i64,
    /// Above this distance to the player it closes in, in millimetres.
    pub attack_distance: i64,
    /// Time between two shots, in microseconds.
    pub attack_cooldown: i64,
    /// Length of the shooting animation, in microseconds.
    pub attack_animation: i64,
}

/// The katana fighter of the arenas.
pub open spec fn spec_default_fighter() -> Fighter {
    Fighter {
        rig: EnemyRig {
            scene: "animation/Unreal-Godot/UAL1_Standard.glb",
            animation_source: "animation/Unreal-Godot/UAL1_Standard.glb",
            idle_animation: 40,
            moving_animation: 36,
            attack_animation: 39,
            weapon: WeaponSpec {
                path: "weapon/katana.glb",
                scale_permille: 1000,
                rotation_euler_yxz: (0, 0, 0),
                translation: Vec3Mm { x: 0, y: 0, z: 0 },
                collider_half_extents: Vec3Mm { x: 10, y: 40, z: 350 },
            },
        },
        move_speed: 3000,
        reach: 2500,
        attack_cooldown: 2_000_000,
        attack_animation: 1_530_000,
    }
}

/// The pistol gunner of the arenas.
pub open spec fn spec_default_gunner() -> Gunner {
    Gunner {
        rig: EnemyRig {
            scene: "universal-base-characters/Base Characters/Godot - UE/Superhero_Female_FullBody.gltf",
            animation_source: "animation/Unreal-Godot/UAL1_Standard.glb",
            idle_animation: 21,
            moving_animation: 36,
            attack_animation: 23,
            weapon: WeaponSpec {
                path: "weapon/pistol.glb",
                scale_permille: 150,
                rotation_euler_yxz: (15240, 217, 13841),
                translation: Vec3Mm { x: -50i64, y: 0, z: 0 },
                collider_half_extents: Vec3Mm { x: 880, y: 150, z: 100 },
            },
        },
        move_speed: 1000,
        flee_distance: 4000,
        attack_distance: 12000,
        attack_cooldown: 2_000_000,
        attack_animation: 1_000_000,
    }
}

impl Default for Fighter {
    /// The katana fighter of the arenas.
    fn default() -> (f: Self)
        ensures
            f == spec_default_fighter(),
    {
        Fighter {
            rig: EnemyRig {
                scene: "animation/Unreal-Godot/UAL1_Standard.glb",
                animation_source: "animation/Unreal-Godot/UAL1_Standard.glb",
                idle_animation: 40,
                moving_animation: 36,
                attack_animation: 39,
                weapon: WeaponSpec {
                    path: "weapon/katana.glb",
                    scale_permille: 1000,
                    rotation_euler_yxz: (0, 0, 0),
                    translation: Vec3Mm { x: 0, y: 0, z: 0 },
                    collider_half_extents: Vec3Mm { x: 10, y: 40, z: 350 },
                },
            },
            move_speed: 3000,
            reach: 2500,
            attack_cooldown: 2_000_000,
            attack_animation: 1_530_000,
        }
    }
}

impl Default for Gunner {
    /// The pistol gunner of the arenas.
    fn default() -> (g: Self)
        ensures
            g == spec_default_gunner(),
    {
        Gunner {
            rig: EnemyRig {
                scene: "universal-base-characters/Base Characters/Godot - UE/Superhero_Female_FullBody.gltf",
                animation_source: "animation/Unreal-Godot/UAL1_Standard.glb",
                idle_animation: 21,
                moving_animation: 36,
                attack_animation: 23,
                weapon: WeaponSpec {
                    path: "weapon/pistol.glb",
                    scale_permille: 150,
                    rotation_euler_yxz: (15240, 217, 13841),
                    translation: Vec3Mm { x: -50, y: 0, z: 0 },
                    collider_half_extents: Vec3Mm { x: 880, y: 150, z: 100 },
                },
            },
            move_speed: 1000,
            flee_distance: 4000,
            attack_distance: 12000,
            attack_cooldown: 2_000_000,
            attack_animation: 1_000_000,
        }
    }
}

/// The two kinds of enemy.
#[derive(Clone, Copy, Debug)]
pub enum EnemyKind {
    Fighter(Fighter),
    Gunner(Gunner),
}

/// A duration lies within the range the enemy rules take.
pub open spec fn duration_ok(d: int) -> bool {
    -DURATION_LIMIT_US <= d <= DURATION_LIMIT_US
}

/// An enemy's animation state and the time left before its next attack.
#[derive(Clone, Copy, Debug)]
pub struct EnemyActivity {
    pub state: AnimationState,
    /// Microseconds left before the next attack may start; at or below zero
    /// the enemy is ready.
    pub attack_cooldown: i64,
}

impl Default for EnemyActivity {
    /// A new enemy is idle and ready to attack.
    fn default() -> (a: Self)
        ensures
            a.state == AnimationState::Idle,
            a.attack_cooldown == 0,
    {
        EnemyActivity { state: AnimationState::Idle, attack_cooldown: 0 }
    }
}

/// The timer after `delta` microseconds have passed: it counts down, and
/// stops at the smallest value it can hold.
pub open spec fn spec_ticked(cooldown: i64, delta: i64) -> i64 {
    if cooldown - delta >= i64::MIN {
        (cooldown - delta) as i64
    } else {
        i64::MIN
    }
}

/// The activity after an attack step with a cooldown of `cooldown` and an
/// attack animation lasting `animation`: a ready enemy starts a new cooldown
/// period, and it plays the attack animation during the first `animation`
/// microseconds of each period and stands idle for the rest.
pub open spec fn spec_attack_on_cooldown(a: EnemyActivity, cooldown: i64, animation: i64) -> EnemyActivity {
    let timer = if a.attack_cooldown <= 0 {
        cooldown
    } else {
        a.attack_cooldown
    };
    EnemyActivity {
        state: if timer > cooldown - animation {
            AnimationState::Attacking
        } else {
            AnimationState::Idle
        },
        attack_cooldown: timer,
    }
}

impl EnemyActivity {
    /// Lets `delta_us` microseconds pass on the attack timer.
    pub fn tick(&mut self, delta_us: i64)
        requires
            0 <= delta_us,
        ensures
            final(self).state == old(self).state,
            final(self).attack_cooldown == spec_ticked(old(self).attack_cooldown, delta_us),
    {
        if self.attack_cooldown >= i64::MIN + delta_us {
            self.attack_cooldown = self.attack_cooldown - delta_us;
        } else {
            self.attack_cooldown = i64::MIN;
        }
    }

    /// One attack step: restart the cooldown if it has run out, and play the
    /// attack animation while the cooldown is still within its first
    /// `animation_us` microseconds.
    pub fn attack_on_cooldown(&mut self, cooldown_us: i64, animation_us: i64)
        requires
            duration_ok(cooldown_us as int),
            duration_ok(animation_us as int),
        ensures
            *final(self) == spec_attack_on_cooldown(*old(self), cooldown_us, animation_us),
    {
        if self.attack_cooldown <= 0 {
            self.attack_cooldown = cooldown_us;
        }
        let attacking = self.attack_cooldown > cooldown_us - animation_us;
        self.state = if attacking {
            AnimationState::Attacking
        } else {
            AnimationState::Idle
        };
    }
}

/// How an enemy moves this frame, toward or away from the player.
#[derive(Clone, Copy, Debug, PartialEq, Eq, Structural)]
pub enum Maneuver {
    /// Neither turns nor moves.
    Stand,
    /// Turns to face the player and stays in place.
    FacePlayer,
    /// Faces the player and walks toward it at `speed` millimetres per
    /// second, steering around obstacles when `around_obstacles` holds.
    Advance { speed: i64, around_obstacles: bool },
    /// Turns its back to the player and walks away at `speed` millimetres per
    /// second.
    Retreat { speed: i64 },
}

/// The parameters of a fighter lie within the range the rules take.
pub open spec fn fighter_ok(f: Fighter) -> bool {
    duration_ok(f.attack_cooldown as int) && duration_ok(f.attack_animation as int)
}

/// The parameters of a gunner lie within the range the rules take.
pub open spec fn gunner_ok(g: Gunner) -> bool {
    duration_ok(g.attack_cooldown as int) && duration_ok(g.attack_animation as int)
}

/// What a fighter does at planar distance `distance` from the player.
pub open spec fn spec_fighter_update(
    f: Fighter,
    a: EnemyActivity,
    distance: Option<i64>,
) -> (EnemyActivity, Maneuver) {
    match distance {
        None => (a, Maneuver::Stand),
        Some(d) => if d <= f.reach {
            (spec_attack_on_cooldown(a, f.attack_cooldown, f.attack_animation), Maneuver::Stand)
        } else {
            (
                EnemyActivity { state: AnimationState::Moving, ..a },
                Maneuver::Advance { speed: f.move_speed, around_obstacles: true },
            )
        },
    }
}

/// What a gunner does at planar distance `distance` from the player.
pub open spec fn spec_gunner_update(
    g: Gunner,
    a: EnemyActivity,
    distance: Option<i64>,
) -> (EnemyActivity, Maneuver) {
    match distance {
        None => (a, Maneuver::Stand),
        Some(d) => if d < g.flee_distance {
            (EnemyActivity { state: AnimationState::Moving, ..a }, Maneuver::Retreat { speed: g.move_speed })
        } else if d > g.attack_distance {
            (
                EnemyActivity { state: AnimationState::Moving, ..a },
                Maneuver::Advance { speed: g.move_speed, around_obstacles: false },
            )
        } else {
            (spec_attack_on_cooldown(a, g.attack_cooldown, g.attack_animation), Maneuver::FacePlayer)
        },
    }
}

impl Fighter {
    /// One decision of the fighter, given its planar distance to the player
    /// in millimetres (`None` when the player stands exactly above or below
    /// it): strike on cooldown when within reach, otherwise walk toward the
    /// player around obstacles.
    pub fn update(&self, activity: &mut EnemyActivity, distance: Option<i64>) -> (m: Maneuver)
        requires
            fighter_ok(*self),
        ensures
            (*final(activity), m) == spec_fighter_update(*self, *old(activity), distance),
    {
        match distance {
            None => Maneuver::Stand,
            Some(d) => {
                if d <= self.reach {
                    activity.attack_on_cooldown(self.attack_cooldown, self.attack_animation);
                    Maneuver::Stand
                } else {
                    activity.state = AnimationState::Moving;
                    Maneuver::Advance { speed: self.move_speed, around_obstacles: true }
                }
            },
        }
    }
}

impl Gunner {
    /// One decision of the gunner, given its planar distance to the player in
    /// millimetres (`None` when the player stands exactly above or below it):
    /// back away when too close, close in when too far, and otherwise face the
    /// player and shoot on cooldown.
    pub fn update(&self, activity: &mut EnemyActivity, distance: Option<i64>) -> (m: Maneuver)
        requires
            gunner_ok(*self),
        ensures
            (*final(activity), m) == spec_gunner_update(*self, *old(activity), distance),
    {
        match distance {
            None => Maneuver::Stand,
            Some(d) => {
                if d < self.flee_distance {
                    activity.state = AnimationState::Moving;
                    Maneuver::Retreat { speed: self.move_speed }
                } else if d > self.attack_distance {
                    activity.state = AnimationState::Moving;
                    Maneuver::Advance { speed: self.move_speed, around_obstacles: false }
                } else {
                    activity.attack_on_cooldown(self.attack_cooldown, self.attack_animation);
                    Maneuver::FacePlayer
                }
            },
        }
    }
}

/// The parameters of an enemy lie within the range the rules take.
pub open spec fn kind_ok(k: EnemyKind) -> bool {
    match k {
        EnemyKind::Fighter(f) => fighter_ok(f),
        EnemyKind::Gunner(g) => gunner_ok(g),
    }
}

/// The rig of an enemy of kind `k`.
pub open spec fn spec_rig(k: EnemyKind) -> EnemyRig {
    match k {
        EnemyKind::Fighter(f) => f.rig,
        EnemyKind::Gunner(g) => g.rig,
    }
}

/// What an enemy of kind `k` does at planar distance `distance`.
pub open spec fn spec_kind_update(
    k: EnemyKind,
    a: EnemyActivity,
    distance: Option<i64>,
) -> (EnemyActivity, Maneuver) {
    match k {
        EnemyKind::Fighter(f) => spec_fighter_update(f, a, distance),
        EnemyKind::Gunner(g) => spec_gunner_update(g, a, distance),
    }
}

impl EnemyKind {
    /// The model, animations and weapon of this kind of enemy.
    pub fn rig(&self) -> (r: &EnemyRig)
        ensures
            *r == spec_rig(*self),
    {
        match self {
            EnemyKind::Fighter(fighter) => &fighter.rig,
            EnemyKind::Gunner(gunner) => &gunner.rig,
        }
    }

    /// One decision of the enemy, by its kind.
    pub fn update(&self, activity: &mut EnemyActivity, distance: Option<i64>) -> (m: Maneuver)
        requires
            kind_ok(*self),
        ensures
            (*final(activity), m) == spec_kind_update(*self, *old(activity), distance),
    {
        match self {
            EnemyKind::Fighter(fighter) => fighter.update(activity, distance),
            EnemyKind::Gunner(gunner) => gunner.update(activity, distance),
        }
    }
}

/// The angle, in degrees about the vertical axis, of the `index`-th direction
/// a fighter tries: straight ahead, then half right and half left, then a
/// quarter turn either way.
pub open spec fn spec_avoidance_angle(index: int) -> int {
    if index == 0 {
        0
    } else if index == 1 {
        45
    } else if index == 2 {
        -45
    } else if index == 3 {
        90
    } else {
        -90
    }
}

/// The angle of the `index`-th candidate direction, in degrees.
pub fn avoidance_angle_degrees(index: usize) -> (angle: i32)
    requires
        index < OBSTACLE_AVOIDANCE_CANDIDATES,
    ensures
        angle as int == spec_avoidance_angle(index as int),
{
    if index == 0 {
        0
    } else if index == 1 {
        45
    } else if index == 2 {
        -45i32
    } else if index == 3 {
        90
    } else {
        -90i32
    }
}

/// The candidate a fighter walks along, given for each candidate whether a
/// probe along it found the way clear: the first clear one in the order of
/// preference, or none (then it stays where it is).
pub fn first_clear_candidate(clear: &Vec<bool>) -> (chosen: Option<usize>)
    ensures
        match chosen {
            Some(i) => i < clear.len() && clear[i as int] && forall|j: int| 0 <= j < i ==> !clear[j],
            None => forall|j: int| 0 <= j < clear.len() ==> !clear[j],
        },
{
    let mut i: usize = 0;
    while i < clear.len()
        invariant
            i <= clear.len(),
            forall|j: int| 0 <= j < i ==> !clear[j],
        decreases clear.len() - i,
    {
        if clear[i] {
            return Some(i);
        }
        i = i + 1;
    }
    None
}

/// The clip that an armature is playing, so that it is restarted only when
/// the enemy's state changes.
#[derive(Clone, Copy, Debug)]
pub struct ArmatureAnimation {
    pub current: Option<AnimationState>,
}

impl ArmatureAnimation {
    /// An armature that plays nothing yet.
    pub fn new() -> (a: ArmatureAnimation)
        ensures
            a.current.is_none(),
    {
        ArmatureAnimation { current: None }
    }

    /// Brings the armature to the clip of `state`: returns the state whose
    /// clip must be started (after stopping all others), or `None` when that
    /// clip is already the one playing.
    pub fn transition(&mut self, state: AnimationState) -> (start: Option<AnimationState>)
        ensures
            final(self).current == Some(state),
            start == (if old(self).current == Some(state) {
                None
            } else {
                Some(state)
            }),
    {
        match self.current {
            Some(current) => {
                if current == state {
                    return None;
                }
            },
            None => {},
        }
        self.current = Some(state);
        Some(state)
    }
}

/// The attack rhythm of an enemy that stays in range: a ready enemy starts a
/// cooldown period; for as long as the period lasts the timer is not
/// restarted, and the attack animation plays exactly during its first
/// `animation` microseconds.
pub proof fn lemma_attack_rhythm(a: EnemyActivity, cooldown: i64, animation: i64, elapsed: i64)
    requires
        a.attack_cooldown <= 0,
        0 < cooldown,
        duration_ok(cooldown as int),
        duration_ok(animation as int),
        0 <= elapsed < cooldown,
    ensures
        ({
            let started = spec_attack_on_cooldown(a, cooldown, animation);
            let waited = EnemyActivity {
                state: started.state,
                attack_cooldown: spec_ticked(started.attack_cooldown, elapsed),
            };
            let later = spec_attack_on_cooldown(waited, cooldown, animation);
            &&& started.attack_cooldown == cooldown
            &&& later.attack_cooldown == cooldown - elapsed
            &&& (later.state == AnimationState::Attacking) == (elapsed < animation)
        }),
{
}

/// An enemy that walks (toward the player or away from it) plays its walking
/// clip, and walking leaves its attack timer alone; an enemy that stays where
/// it is never plays the walking clip unless it already did and cannot tell
/// where the player is.
pub proof fn lemma_walking_plays_the_walk_clip(k: EnemyKind, a: EnemyActivity, distance: Option<i64>)
    ensures
        ({
            let (after, m) = spec_kind_update(k, a, distance);
            &&& (m is Advance || m is Retreat) ==> after.state == AnimationState::Moving
                && after.attack_cooldown == a.attack_cooldown
            &&& (distance is Some && !(m is Advance || m is Retreat)) ==> after.state
                != AnimationState::Moving
            &&& distance is None ==> after == a && m == Maneuver::Stand
        }),
{
}

/// A gunner keeps the player between its two distances: too close, it backs
/// away at its walking speed; too far, it walks straight toward the player
/// at that speed; in between it faces the player and shoots on cooldown.
/// Whenever it walks it plays the walking clip.
pub proof fn lemma_gunner_keeps_its_distance(g: Gunner, a: EnemyActivity, d: i64)
    ensures
        ({
            let (after, m) = spec_gunner_update(g, a, Some(d));
            &&& d < g.flee_distance ==> m == Maneuver::Retreat { speed: g.move_speed }
                && after.state == AnimationState::Moving
            &&& g.flee_distance <= d && d > g.attack_distance ==> m == (Maneuver::Advance {
                speed: g.move_speed,
                around_obstacles: false,
            }) && after.state == AnimationState::Moving
            &&& g.flee_distance <= d <= g.attack_distance ==> m == Maneuver::FacePlayer
                && after.state != AnimationState::Moving
        }),
{
}

/// A fighter out of reach walks toward the player around obstacles, playing
/// its walking clip; in reach it stands and strikes on cooldown.
pub proof fn lemma_fighter_closes_in(f: Fighter, a: EnemyActivity, d: i64)
    ensures
        ({
            let (after, m) = spec_fighter_update(f, a, Some(d));
            &&& d > f.reach ==> m == (Maneuver::Advance { speed: f.move_speed, around_obstacles: true })
                && after.state == AnimationState::Moving
            &&& d <= f.reach ==> m == Maneuver::Stand && after.state != AnimationState::Moving
        }),
{
}

} // verus!
