use vstd::prelude::*;

verus! {

/// Walking speed of the player, in millimetres per second.
pub const PLAYER_MOVE_SPEED: i64 = 5000;

/// Radius of the sphere with which the player collides, in millimetres.
pub const PLAYER_COLLISION_RADIUS: i64 = 400;

/// Height of the player's eyes above the ground, in millimetres.
pub const PLAYER_EYE_HEIGHT: i64 = 1800;

/// The direction the movement keys ask for, relative to where the player
/// looks: `forward` and `right` are each -1, 0 or 1.
#[derive(Clone, Copy, Debug, PartialEq, Eq, Structural)]
pub struct MovementInput {
    pub forward: i8,
    pub right: i8,
}

/// 1 for a held key, 0 otherwise.
pub open spec fn key(pressed: bool) -> int {
    if pressed {
        1
    } else {
        0
    }
}

/// The movement asked for by the held keys: W forward, S back, D right,
/// A left; opposite keys cancel out.
pub fn movement_axes(w: bool, s: bool, d: bool, a: bool) -> (input: MovementInput)
    ensures
        input.forward == key(w) - key(s),
        input.right == key(d) - key(a),
{
    let mut forward: i8 = 0;
    let mut right: i8 = 0;
    if w {
        forward = forward + 1;
    }
    if s {
        forward = forward - 1;
    }
    if d {
        right = right + 1;
    }
    if a {
        right = right - 1;
    }
    MovementInput { forward, right }
}

impl MovementInput {
    /// The keys ask for some movement.
    pub fn is_moving(&self) -> (moving: bool)
        ensures
            moving == (self.forward != 0 || self.right != 0),
    {
        self.forward != 0 || self.right != 0
    }
}

/// Holding a key and its opposite asks for no movement along that axis, and
/// holding all four keys asks for none at all.
pub proof fn lemma_opposite_keys_cancel(w: bool, s: bool, d: bool, a: bool)
    ensures
        (w == s) ==> key(w) - key(s) == 0,
        (d == a) ==> key(d) - key(a) == 0,
{
}

} // verus!
