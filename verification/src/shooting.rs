use vstd::prelude::*;

use crate::ragdoll::RAGDOLL_GROUP;

verus! {

/// The collision layers a shot tests: those of the ragdoll bodies only.
pub const SHOT_MASK: u32 = RAGDOLL_GROUP;

/// How far a shot reaches, in millimetres.
pub const SHOT_DISTANCE: i64 = 100_000;

/// The impulse a shot carries to the body it hits, in millinewton-seconds;
/// the ragdoll caps it by the mass of that body (see
/// `ragdoll::capped_impulse`).
pub const SHOT_IMPULSE: u64 = 100_000;

/// Offset of the gun from the player's eyes, in the camera's own space, in
/// millimetres: a little right, down and forward.
pub const GUN_OFFSET_X: i64 = 200;
pub const GUN_OFFSET_Y: i64 = -200;
pub const GUN_OFFSET_Z: i64 = -400;

/// The enemy a shot kills: when the trigger was just pulled and the ray hit
/// a body owned by an enemy that is still alive, that enemy; otherwise none.
pub fn shot_victim(fired: bool, hit_owner: Option<u64>, owner_alive: bool) -> (victim: Option<u64>)
    ensures
        victim == (if fired && hit_owner.is_some() && owner_alive {
            hit_owner
        } else {
            None
        }),
{
    if !fired {
        return None;
    }
    match hit_owner {
        Some(owner) => {
            if owner_alive {
                Some(owner)
            } else {
                None
            }
        },
        None => None,
    }
}

} // verus!
