use vstd::prelude::*;

verus! {

/// Largest magnitude, in millimetres, of a coordinate that the map builders
/// accept: a thousand kilometres, far beyond any arena.
pub const MAX_EXTENT_MM: i64 = 1_000_000_000;

/// A point or an extent in space, in whole millimetres.
/// `y` points up; pieces are authored facing `-z`.
#[derive(Clone, Copy, Debug, PartialEq, Eq, Structural)]
pub struct Vec3Mm {
    pub x: i64,
    pub y: i64,
    pub z: i64,
}

/// A rotation about the vertical axis by a whole number of quarter turns,
/// counter-clockwise seen from above (the sense of a rotation by a positive
/// angle about `+y`).
#[derive(Clone, Copy, Debug, PartialEq, Eq, Structural)]
pub enum Yaw {
    Zero,
    Quarter,
    Half,
    ThreeQuarters,
}

/// Where a piece stands: a translation and a yaw.
#[derive(Clone, Copy, Debug, PartialEq, Eq, Structural)]
pub struct Placement {
    pub translation: Vec3Mm,
    pub yaw: Yaw,
}

/// Every coordinate of `v` lies within `limit` of zero.
pub open spec fn within(v: Vec3Mm, limit: int) -> bool {
    coords_within(coords(v), limit)
}

/// Integer coordinates of a point, as used in specifications.
pub type Coords = (int, int, int);

/// The coordinates of `v`.
pub open spec fn coords(v: Vec3Mm) -> Coords {
    (v.x as int, v.y as int, v.z as int)
}

/// The image of `c` under the rotation `yaw` about `+y`:
/// `(x cos a + z sin a, y, -x sin a + z cos a)`.
pub open spec fn spec_rotate(yaw: Yaw, c: Coords) -> Coords {
    match yaw {
        Yaw::Zero => c,
        Yaw::Quarter => (c.2, c.1, -c.0),
        Yaw::Half => (-c.0, c.1, -c.2),
        Yaw::ThreeQuarters => (-c.2, c.1, c.0),
    }
}

/// The sum of two coordinate triples.
pub open spec fn spec_add(a: Coords, b: Coords) -> Coords {
    (a.0 + b.0, a.1 + b.1, a.2 + b.2)
}

/// Every coordinate of `c` lies within `limit` of zero.
pub open spec fn coords_within(c: Coords, limit: int) -> bool {
    &&& -limit <= c.0 <= limit
    &&& -limit <= c.1 <= limit
    &&& -limit <= c.2 <= limit
}

/// The yaw of two rotations applied one after the other.
pub open spec fn spec_compose(a: Yaw, b: Yaw) -> Yaw {
    let n = (yaw_quarters(a) + yaw_quarters(b)) % 4;
    if n == 0 {
        Yaw::Zero
    } else if n == 1 {
        Yaw::Quarter
    } else if n == 2 {
        Yaw::Half
    } else {
        Yaw::ThreeQuarters
    }
}

/// The number of quarter turns of `yaw`.
pub open spec fn yaw_quarters(yaw: Yaw) -> int {
    match yaw {
        Yaw::Zero => 0,
        Yaw::Quarter => 1,
        Yaw::Half => 2,
        Yaw::ThreeQuarters => 3,
    }
}

impl Vec3Mm {
    /// The vector `(x, y, z)`.
    pub fn new(x: i64, y: i64, z: i64) -> (v: Vec3Mm)
        ensures
            v.x == x,
            v.y == y,
            v.z == z,
    {
        Vec3Mm { x, y, z }
    }

    /// The zero vector.
    pub fn zero() -> (v: Vec3Mm)
        ensures
            v.x == 0,
            v.y == 0,
            v.z == 0,
    {
        Vec3Mm { x: 0, y: 0, z: 0 }
    }

    /// The sum `self + other`.
    pub fn add(self, other: Vec3Mm) -> (v: Vec3Mm)
        requires
            within(self, (i64::MAX / 2) as int),
            within(other, (i64::MAX / 2) as int),
        ensures
            coords(v) == spec_add(coords(self), coords(other)),
    {
        Vec3Mm { x: self.x + other.x, y: self.y + other.y, z: self.z + other.z }
    }
}

impl Placement {
    /// A placement at `translation` with no rotation.
    pub fn from_translation(translation: Vec3Mm) -> (p: Placement)
        ensures
            p.translation == translation,
            p.yaw == Yaw::Zero,
    {
        Placement { translation, yaw: Yaw::Zero }
    }

    /// A placement at `translation` turned by `yaw`.
    pub fn new(translation: Vec3Mm, yaw: Yaw) -> (p: Placement)
        ensures
            p.translation == translation,
            p.yaw == yaw,
    {
        Placement { translation, yaw }
    }
}

/// Rotates `v` by `yaw` about the vertical axis.
pub fn rotate(yaw: Yaw, v: Vec3Mm) -> (r: Vec3Mm)
    requires
        within(v, i64::MAX as int),
    ensures
        coords(r) == spec_rotate(yaw, coords(v)),
{
    match yaw {
        Yaw::Zero => v,
        Yaw::Quarter => Vec3Mm { x: v.z, y: v.y, z: -v.x },
        Yaw::Half => Vec3Mm { x: -v.x, y: v.y, z: -v.z },
        Yaw::ThreeQuarters => Vec3Mm { x: -v.z, y: v.y, z: v.x },
    }
}

/// A rotation about the vertical axis leaves heights unchanged and keeps
/// every coordinate within the bound it started within.
pub proof fn lemma_rotate_keeps_height_and_bounds(yaw: Yaw, c: Coords, limit: int)
    requires
        coords_within(c, limit),
    ensures
        spec_rotate(yaw, c).1 == c.1,
        coords_within(spec_rotate(yaw, c), limit),
{
}

/// Turning by `a` and then by `b` is turning by the sum of the two yaws.
pub proof fn lemma_rotate_compose(a: Yaw, b: Yaw, c: Coords)
    ensures
        spec_rotate(b, spec_rotate(a, c)) == spec_rotate(spec_compose(a, b), c),
{
}

/// Two half turns, or four quarter turns, bring every point back.
pub proof fn lemma_full_turn_is_identity(c: Coords)
    ensures
        spec_rotate(Yaw::Half, spec_rotate(Yaw::Half, c)) == c,
        spec_rotate(
            Yaw::Quarter,
            spec_rotate(Yaw::Quarter, spec_rotate(Yaw::Quarter, spec_rotate(Yaw::Quarter, c))),
        ) == c,
{
}

} // verus!
