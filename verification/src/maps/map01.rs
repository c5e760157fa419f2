use vstd::prelude::*;

use super::pieces::{
    cuboid, door, floor_color, mm, spec_cuboid, spec_door, spec_floor_color, spec_stair,
    spec_wall_color, spec_wall_torch, stair, wall_color, wall_torch, Rgb,
};
use super::{EnemySpawn, MapLayout, LayoutView, layout_view};
use super::pieces::Piece;
use crate::enemies::{EnemyKind, Fighter, Gunner, spec_default_fighter, spec_default_gunner};
use crate::geometry::{Placement, Vec3Mm, Yaw};

verus! {

/// The blue-grey of the four pillars.
pub open spec fn spec_pillar_color() -> Rgb {
    Rgb { r: 45, g: 45, b: 50 }
}

/// The first arena: a walled square hall with four pillars, a stair against
/// the middle of each end wall, a door frame at the far end and four torches.
/// Two gunners and a fighter wait at the far end.
pub open spec fn spec_map01() -> LayoutView {
    (
        mm(0, 1850, 12000),
        seq![
            EnemySpawn { position: mm(-8000, 0, -8000), kind: EnemyKind::Gunner(spec_default_gunner()) },
            EnemySpawn { position: mm(8000, 0, -8000), kind: EnemyKind::Gunner(spec_default_gunner()) },
            EnemySpawn { position: mm(0, 0, -10000), kind: EnemyKind::Fighter(spec_default_fighter()) },
        ],
        seq![
            spec_cuboid(mm(0, 0, 0), mm(30000, 100, 30000), spec_floor_color()),
            spec_cuboid(mm(0, 1500, -15000), mm(30000, 3000, 100), spec_wall_color()),
            spec_cuboid(mm(0, 1500, 15000), mm(30000, 3000, 100), spec_wall_color()),
            spec_cuboid(mm(-15000, 1500, 0), mm(100, 3000, 30000), spec_wall_color()),
            spec_cuboid(mm(15000, 1500, 0), mm(100, 3000, 30000), spec_wall_color()),
            spec_cuboid(mm(-10000, 10000, -10000), mm(2000, 20000, 2000), spec_pillar_color()),
            spec_cuboid(mm(10000, 10000, -10000), mm(2000, 20000, 2000), spec_pillar_color()),
            spec_cuboid(mm(-10000, 10000, 10000), mm(2000, 20000, 2000), spec_pillar_color()),
            spec_cuboid(mm(10000, 10000, 10000), mm(2000, 20000, 2000), spec_pillar_color()),
            spec_stair(Placement { translation: mm(0, 50, 14950), yaw: Yaw::Zero }, 4000, 15, 100, 1000),
            spec_stair(Placement { translation: mm(0, 50, -14950), yaw: Yaw::Half }, 4000, 15, 100, 1000),
            spec_door(Placement { translation: mm(0, 0, -14950), yaw: Yaw::Zero }, 3000, 2500, 300),
            spec_wall_torch(Placement { translation: mm(-8000, 0, -14950), yaw: Yaw::Half }),
            spec_wall_torch(Placement { translation: mm(8000, 0, -14950), yaw: Yaw::Half }),
            spec_wall_torch(Placement { translation: mm(-8000, 0, 14950), yaw: Yaw::Zero }),
            spec_wall_torch(Placement { translation: mm(8000, 0, 14950), yaw: Yaw::Zero }),
        ],
    )
}

/// The first arena has three enemies.
pub proof fn lemma_map01_roster()
    ensures
        spec_map01().1.len() == 3,
{
}

/// The definition of the first arena.
pub fn definition() -> (m: MapLayout)
    ensures
        layout_view(m) == spec_map01(),
{
    let pillar = Rgb { r: 45, g: 45, b: 50 };
    let mut enemies: Vec<EnemySpawn> = Vec::new();
    enemies.push(
        EnemySpawn { position: Vec3Mm::new(-8000, 0, -8000), kind: EnemyKind::Gunner(Gunner::default()) },
    );
    enemies.push(
        EnemySpawn { position: Vec3Mm::new(8000, 0, -8000), kind: EnemyKind::Gunner(Gunner::default()) },
    );
    enemies.push(
        EnemySpawn { position: Vec3Mm::new(0, 0, -10000), kind: EnemyKind::Fighter(Fighter::default()) },
    );
    let mut pieces: Vec<Piece> = Vec::new();
    pieces.push(cuboid(Vec3Mm::zero(), Vec3Mm::new(30000, 100, 30000), floor_color()));
    pieces.push(cuboid(Vec3Mm::new(0, 1500, -15000), Vec3Mm::new(30000, 3000, 100), wall_color()));
    pieces.push(cuboid(Vec3Mm::new(0, 1500, 15000), Vec3Mm::new(30000, 3000, 100), wall_color()));
    pieces.push(cuboid(Vec3Mm::new(-15000, 1500, 0), Vec3Mm::new(100, 3000, 30000), wall_color()));
    pieces.push(cuboid(Vec3Mm::new(15000, 1500, 0), Vec3Mm::new(100, 3000, 30000), wall_color()));
    pieces.push(cuboid(Vec3Mm::new(-10000, 10000, -10000), Vec3Mm::new(2000, 20000, 2000), pillar));
    pieces.push(cuboid(Vec3Mm::new(10000, 10000, -10000), Vec3Mm::new(2000, 20000, 2000), pillar));
    pieces.push(cuboid(Vec3Mm::new(-10000, 10000, 10000), Vec3Mm::new(2000, 20000, 2000), pillar));
    pieces.push(cuboid(Vec3Mm::new(10000, 10000, 10000), Vec3Mm::new(2000, 20000, 2000), pillar));
    pieces.push(stair(Placement::new(Vec3Mm::new(0, 50, 14950), Yaw::Zero), 4000, 15, 100, 1000));
    pieces.push(stair(Placement::new(Vec3Mm::new(0, 50, -14950), Yaw::Half), 4000, 15, 100, 1000));
    pieces.push(door(Placement::new(Vec3Mm::new(0, 0, -14950), Yaw::Zero), 3000, 2500, 300));
    pieces.push(wall_torch(Placement::new(Vec3Mm::new(-8000, 0, -14950), Yaw::Half)));
    pieces.push(wall_torch(Placement::new(Vec3Mm::new(8000, 0, -14950), Yaw::Half)));
    pieces.push(wall_torch(Placement::new(Vec3Mm::new(-8000, 0, 14950), Yaw::Zero)));
    pieces.push(wall_torch(Placement::new(Vec3Mm::new(8000, 0, 14950), Yaw::Zero)));
    let m = MapLayout { player_start: Vec3Mm::new(0, 1850, 12000), enemies, pieces };
    assert(m.enemies@ =~= spec_map01().1);
    assert(m.pieces@.map_values(|p: Piece| super::pieces::piece_view(p)) =~= spec_map01().2);
    m
}

} // verus!
