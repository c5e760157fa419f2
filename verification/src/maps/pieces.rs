use vstd::prelude::*;

use crate::geometry::{MAX_EXTENT_MM, Placement, Vec3Mm, Yaw};

verus! {

/// A colour as red, green and blue channels in percent (sRGB, 0 to 100).
#[derive(Clone, Copy, Debug, PartialEq, Eq, Structural)]
pub struct Rgb {
    pub r: u8,
    pub g: u8,
    pub b: u8,
}

/// A box, given by its centre and its full size in the piece's own space.
#[derive(Clone, Copy, Debug, PartialEq, Eq, Structural)]
pub struct CuboidSpec {
    pub position: Vec3Mm,
    pub size: Vec3Mm,
    pub color: Rgb,
}

/// A point light, given by its position in the piece's own space, its colour
/// and its intensity in lumens.
#[derive(Clone, Copy, Debug, PartialEq, Eq, Structural)]
pub struct LightSpec {
    pub position: Vec3Mm,
    pub color: Rgb,
    pub intensity: u32,
}

/// One element of a piece: a solid box or a light.
#[derive(Clone, Copy, Debug, PartialEq, Eq, Structural)]
pub enum Item {
    Cuboid(CuboidSpec),
    Light(LightSpec),
}

/// A piece of an arena: where it stands, and its items in its own space.
#[derive(Debug)]
pub struct Piece {
    pub placement: Placement,
    pub items: Vec<Item>,
}

/// A piece as a value: its placement and the sequence of its items.
pub open spec fn piece_view(p: Piece) -> (Placement, Seq<Item>) {
    (p.placement, p.items@)
}

/// The grey of floors.
pub open spec fn spec_floor_color() -> Rgb {
    Rgb { r: 40, g: 40, b: 40 }
}

/// The grey of walls and door frames.
pub open spec fn spec_wall_color() -> Rgb {
    Rgb { r: 60, g: 60, b: 60 }
}

/// The grey of blocks and stair steps.
pub open spec fn spec_cuboid_color() -> Rgb {
    Rgb { r: 50, g: 50, b: 50 }
}

/// The brown of a torch's handle.
pub open spec fn spec_torch_handle_color() -> Rgb {
    Rgb { r: 35, g: 20, b: 10 }
}

/// The orange of a torch's flame.
pub open spec fn spec_torch_flame_color() -> Rgb {
    Rgb { r: 100, g: 60, b: 20 }
}

/// The grey of floors.
pub fn floor_color() -> (c: Rgb)
    ensures
        c == spec_floor_color(),
{
    Rgb { r: 40, g: 40, b: 40 }
}

/// The grey of walls and door frames.
pub fn wall_color() -> (c: Rgb)
    ensures
        c == spec_wall_color(),
{
    Rgb { r: 60, g: 60, b: 60 }
}

/// The grey of blocks and stair steps.
pub fn cuboid_color() -> (c: Rgb)
    ensures
        c == spec_cuboid_color(),
{
    Rgb { r: 50, g: 50, b: 50 }
}

/// Thickness of a door's posts and of its lintel, in millimetres.
pub const DOOR_FRAME_THICKNESS_MM: i64 = 500;

/// Intensity of a torch's flame, in lumens.
pub const TORCH_INTENSITY: u32 = 900_000;

/// Half of `v`, rounded toward zero.
pub open spec fn spec_half(v: int) -> int {
    if v >= 0 {
        v / 2
    } else {
        -((-v) / 2)
    }
}

/// Half of `v`, rounded toward zero.
pub fn half(v: i64) -> (h: i64)
    requires
        v > i64::MIN,
    ensures
        h == spec_half(v as int),
{
    if v >= 0 {
        v / 2
    } else {
        -((-v) / 2)
    }
}

/// A length that the piece builders take.
pub open spec fn extent_ok(v: int) -> bool {
    -MAX_EXTENT_MM <= v <= MAX_EXTENT_MM
}

/// The point with integer coordinates `(x, y, z)`.
pub open spec fn mm(x: int, y: int, z: int) -> Vec3Mm {
    Vec3Mm { x: x as i64, y: y as i64, z: z as i64 }
}

/// A cuboid item of the given centre, size and colour.
pub open spec fn cuboid_item(position: Vec3Mm, size: Vec3Mm, color: Rgb) -> Item {
    Item::Cuboid(CuboidSpec { position, size, color })
}

/// A single box whose centre is at `position`.
pub open spec fn spec_cuboid(position: Vec3Mm, size: Vec3Mm, color: Rgb) -> (Placement, Seq<Item>) {
    (
        Placement { translation: position, yaw: Yaw::Zero },
        seq![cuboid_item(mm(0, 0, 0), size, color)],
    )
}

/// The `i`-th step of a stair, counting from the bottom: centred across the
/// stair, half a step up and half a step in from the start of its own step.
pub open spec fn spec_stair_step(width: i64, i: int, step_height: i64, step_depth: i64) -> Item {
    cuboid_item(
        mm(0, spec_half(step_height * (2 * i + 1)), -spec_half(step_depth * (2 * i + 1))),
        Vec3Mm { x: width, y: step_height, z: step_depth },
        spec_cuboid_color(),
    )
}

/// A stair of `steps` steps climbing toward `-z` of its own space.
pub open spec fn spec_stair(
    placement: Placement,
    width: i64,
    steps: u32,
    step_height: i64,
    step_depth: i64,
) -> (Placement, Seq<Item>) {
    (
        placement,
        Seq::new(steps as nat, |i: int| spec_stair_step(width, i, step_height, step_depth)),
    )
}

/// A door frame: two posts either side of an opening `width` wide and
/// `height` tall, and a lintel across their tops.
pub open spec fn spec_door(placement: Placement, width: i64, height: i64, thickness: i64) -> (
    Placement,
    Seq<Item>,
) {
    let post_offset = spec_half(width + DOOR_FRAME_THICKNESS_MM);
    let post_size = Vec3Mm { x: DOOR_FRAME_THICKNESS_MM, y: height, z: thickness };
    (
        placement,
        seq![
            cuboid_item(mm(-post_offset, spec_half(height as int), 0), post_size, spec_wall_color()),
            cuboid_item(mm(post_offset, spec_half(height as int), 0), post_size, spec_wall_color()),
            cuboid_item(
                mm(0, height + DOOR_FRAME_THICKNESS_MM / 2, 0),
                mm(width + 2 * DOOR_FRAME_THICKNESS_MM, DOOR_FRAME_THICKNESS_MM as int, thickness as int),
                spec_wall_color(),
            ),
        ],
    )
}

/// A torch on a wall: a handle sticking out toward `-z` and its flame.
pub open spec fn spec_wall_torch(placement: Placement) -> (Placement, Seq<Item>) {
    (
        placement,
        seq![
            cuboid_item(mm(0, 2200, -150), mm(150, 400, 150), spec_torch_handle_color()),
            Item::Light(
                LightSpec {
                    position: mm(0, 2500, -400),
                    color: spec_torch_flame_color(),
                    intensity: TORCH_INTENSITY,
                },
            ),
        ],
    )
}

/// A single box centred at `position`, of the given size and colour.
pub fn cuboid(position: Vec3Mm, size: Vec3Mm, color: Rgb) -> (p: Piece)
    ensures
        piece_view(p) == spec_cuboid(position, size, color),
{
    let items = vec![
        Item::Cuboid(CuboidSpec { position: Vec3Mm { x: 0, y: 0, z: 0 }, size, color }),
    ];
    let p = Piece { placement: Placement { translation: position, yaw: Yaw::Zero }, items };
    assert(piece_view(p).1 =~= spec_cuboid(position, size, color).1);
    p
}

/// A stair of `steps` steps, each `width` wide, `step_height` tall and
/// `step_depth` deep, climbing toward `-z` of its own space from its origin.
pub fn stair(placement: Placement, width: i64, steps: u32, step_height: i64, step_depth: i64) -> (p:
    Piece)
    requires
        extent_ok(step_height as int),
        extent_ok(step_depth as int),
    ensures
        piece_view(p) == spec_stair(placement, width, steps, step_height, step_depth),
{
    let mut items: Vec<Item> = Vec::new();
    let mut i: u32 = 0;
    while i < steps
        invariant
            i <= steps,
            extent_ok(step_height as int),
            extent_ok(step_depth as int),
            items@.len() == i,
            forall|j: int|
                0 <= j < i ==> items@[j] == spec_stair_step(width, j, step_height, step_depth),
        decreases steps - i,
    {
        let along: i64 = 2 * (i as i64) + 1;
        assert(-MAX_EXTENT_MM * along <= step_height * along <= MAX_EXTENT_MM * along)
            by (nonlinear_arith)
            requires
                extent_ok(step_height as int),
                along >= 1,
        ;
        assert(-MAX_EXTENT_MM * along <= step_depth * along <= MAX_EXTENT_MM * along)
            by (nonlinear_arith)
            requires
                extent_ok(step_depth as int),
                along >= 1,
        ;
        let rise = half(step_height * along);
        let run = half(step_depth * along);
        items.push(
            Item::Cuboid(
                CuboidSpec {
                    position: Vec3Mm { x: 0, y: rise, z: -run },
                    size: Vec3Mm { x: width, y: step_height, z: step_depth },
                    color: cuboid_color(),
                },
            ),
        );
        i = i + 1;
    }
    let p = Piece { placement, items };
    assert(piece_view(p).1 =~= spec_stair(placement, width, steps, step_height, step_depth).1);
    p
}

/// A door frame around an opening `width` wide and `height` tall, `thickness`
/// deep, standing on the origin of its own space.
pub fn door(placement: Placement, width: i64, height: i64, thickness: i64) -> (p: Piece)
    requires
        extent_ok(width as int),
        extent_ok(height as int),
    ensures
        piece_view(p) == spec_door(placement, width, height, thickness),
{
    let post_offset = half(width + DOOR_FRAME_THICKNESS_MM);
    let left_post = -post_offset;
    let post_height = half(height);
    let items = vec![
        Item::Cuboid(
            CuboidSpec {
                position: Vec3Mm { x: left_post, y: post_height, z: 0 },
                size: Vec3Mm { x: DOOR_FRAME_THICKNESS_MM, y: height, z: thickness },
                color: wall_color(),
            },
        ),
        Item::Cuboid(
            CuboidSpec {
                position: Vec3Mm { x: post_offset, y: post_height, z: 0 },
                size: Vec3Mm { x: DOOR_FRAME_THICKNESS_MM, y: height, z: thickness },
                color: wall_color(),
            },
        ),
        Item::Cuboid(
            CuboidSpec {
                position: Vec3Mm { x: 0, y: height + DOOR_FRAME_THICKNESS_MM / 2, z: 0 },
                size: Vec3Mm {
                    x: width + 2 * DOOR_FRAME_THICKNESS_MM,
                    y: DOOR_FRAME_THICKNESS_MM,
                    z: thickness,
                },
                color: wall_color(),
            },
        ),
    ];
    let p = Piece { placement, items };
    assert(piece_view(p).1 =~= spec_door(placement, width, height, thickness).1);
    p
}

/// A torch hanging on a wall that faces `+z` of the piece's own space.
pub fn wall_torch(placement: Placement) -> (p: Piece)
    ensures
        piece_view(p) == spec_wall_torch(placement),
{
    let items = vec![
        Item::Cuboid(
            CuboidSpec {
                position: Vec3Mm { x: 0, y: 2200, z: -150 },
                size: Vec3Mm { x: 150, y: 400, z: 150 },
                color: Rgb { r: 35, g: 20, b: 10 },
            },
        ),
        Item::Light(
            LightSpec {
                position: Vec3Mm { x: 0, y: 2500, z: -400 },
                color: Rgb { r: 100, g: 60, b: 20 },
                intensity: TORCH_INTENSITY,
            },
        ),
    ];
    let p = Piece { placement, items };
    assert(piece_view(p).1 =~= spec_wall_torch(placement).1);
    p
}

/// Position of the `i`-th item of a piece.
pub open spec fn item_at(items: Seq<Item>, i: int) -> Vec3Mm {
    crate::maps::spec_item_position(items[i])
}

/// Halving commutes with adding a whole number: half of `a + 2 h` is half of
/// `a` plus `h`, when `a` and `h` have the same sign.
proof fn lemma_half_shift(a: int, h: int)
    requires
        (a >= 0 && h >= 0) || (a <= 0 && h <= 0),
    ensures
        spec_half(a + 2 * h) == spec_half(a) + h,
{
}

/// Each step of a stair is exactly one step higher and one step deeper
/// toward `-z` than the one below it.
pub proof fn lemma_stair_steps_climb(
    placement: Placement,
    width: i64,
    steps: u32,
    step_height: i64,
    step_depth: i64,
    i: int,
)
    requires
        extent_ok(step_height as int),
        extent_ok(step_depth as int),
        0 <= i,
        i + 1 < steps,
    ensures
        ({
            let items = spec_stair(placement, width, steps, step_height, step_depth).1;
            &&& item_at(items, i + 1).y == item_at(items, i).y + step_height
            &&& item_at(items, i + 1).z == item_at(items, i).z - step_depth
            &&& item_at(items, i + 1).x == item_at(items, i).x
        }),
{
    let a = step_height * (2 * i + 1);
    let b = step_depth * (2 * i + 1);
    assert(step_height * (2 * (i + 1) + 1) == a + 2 * step_height) by (nonlinear_arith)
        requires
            a == step_height * (2 * i + 1),
    ;
    assert(step_depth * (2 * (i + 1) + 1) == b + 2 * step_depth) by (nonlinear_arith)
        requires
            b == step_depth * (2 * i + 1),
    ;
    assert((a >= 0 && step_height >= 0) || (a <= 0 && step_height <= 0)) by (nonlinear_arith)
        requires
            a == step_height * (2 * i + 1),
            i >= 0,
    ;
    assert((b >= 0 && step_depth >= 0) || (b <= 0 && step_depth <= 0)) by (nonlinear_arith)
        requires
            b == step_depth * (2 * i + 1),
            i >= 0,
    ;
    lemma_half_shift(a, step_height as int);
    lemma_half_shift(b, step_depth as int);
    assert(-MAX_EXTENT_MM * (2 * i + 3) <= a + 2 * step_height <= MAX_EXTENT_MM * (2 * i + 3))
        by (nonlinear_arith)
        requires
            a + 2 * step_height == step_height * (2 * i + 3),
            extent_ok(step_height as int),
            i >= 0,
    ;
    assert(-MAX_EXTENT_MM * (2 * i + 3) <= b + 2 * step_depth <= MAX_EXTENT_MM * (2 * i + 3))
        by (nonlinear_arith)
        requires
            b + 2 * step_depth == step_depth * (2 * i + 3),
            extent_ok(step_depth as int),
            i >= 0,
    ;
    assert(-MAX_EXTENT_MM * (2 * i + 1) <= a <= MAX_EXTENT_MM * (2 * i + 1)) by (nonlinear_arith)
        requires
            a == step_height * (2 * i + 1),
            extent_ok(step_height as int),
            i >= 0,
    ;
    assert(-MAX_EXTENT_MM * (2 * i + 1) <= b <= MAX_EXTENT_MM * (2 * i + 1)) by (nonlinear_arith)
        requires
            b == step_depth * (2 * i + 1),
            extent_ok(step_depth as int),
            i >= 0,
    ;
}

/// Laid out facing `-z`: with non-negative step sizes every step of a stair
/// stands at or above its origin and at or in front of it along `-z`.
pub proof fn lemma_stair_faces_negative_z(
    placement: Placement,
    width: i64,
    steps: u32,
    step_height: i64,
    step_depth: i64,
    i: int,
)
    requires
        extent_ok(step_height as int),
        extent_ok(step_depth as int),
        0 <= step_height,
        0 <= step_depth,
        0 <= i < steps,
    ensures
        ({
            let items = spec_stair(placement, width, steps, step_height, step_depth).1;
            item_at(items, i).y >= 0 && item_at(items, i).z <= 0
        }),
{
    let a = step_height * (2 * i + 1);
    let b = step_depth * (2 * i + 1);
    assert(0 <= a <= MAX_EXTENT_MM * (2 * i + 1)) by (nonlinear_arith)
        requires
            a == step_height * (2 * i + 1),
            0 <= step_height <= MAX_EXTENT_MM,
            i >= 0,
    ;
    assert(0 <= b <= MAX_EXTENT_MM * (2 * i + 1)) by (nonlinear_arith)
        requires
            b == step_depth * (2 * i + 1),
            0 <= step_depth <= MAX_EXTENT_MM,
            i >= 0,
    ;
}

/// A door frame is symmetric about its centre line: its two posts have the
/// same size, each as tall as the opening, as wide as the frame is thick
/// and as deep as the door, and both stand on the ground (centred at half
/// the opening's height); its lintel rests at exactly the height of the
/// opening and spans the opening and both posts.
pub proof fn lemma_door_frame_shape(placement: Placement, width: i64, height: i64, thickness: i64)
    requires
        extent_ok(width as int),
        extent_ok(height as int),
    ensures
        ({
            let items = spec_door(placement, width, height, thickness).1;
            &&& items.len() == 3
            &&& items[0] matches Item::Cuboid(left) && left.size == (Vec3Mm {
                x: DOOR_FRAME_THICKNESS_MM,
                y: height,
                z: thickness,
            })
            &&& items[1] matches Item::Cuboid(right) && right.size == (Vec3Mm {
                x: DOOR_FRAME_THICKNESS_MM,
                y: height,
                z: thickness,
            })
            &&& item_at(items, 0).y == spec_half(height as int)
            &&& item_at(items, 0).x < 0 < item_at(items, 1).x || width + DOOR_FRAME_THICKNESS_MM < 2
            &&& item_at(items, 0).x == -item_at(items, 1).x
            &&& item_at(items, 0).y == item_at(items, 1).y
            &&& item_at(items, 2).x == 0
            &&& item_at(items, 2).y - DOOR_FRAME_THICKNESS_MM / 2 == height
            &&& items[2] matches Item::Cuboid(lintel) && lintel.size.x == width + 2
                * DOOR_FRAME_THICKNESS_MM
        }),
{
}

} // verus!
