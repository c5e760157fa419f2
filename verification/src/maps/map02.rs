use vstd::prelude::*;

use super::pieces::{
    cuboid, cuboid_color, floor_color, mm, spec_cuboid, spec_cuboid_color, spec_floor_color,
    spec_stair, spec_wall_color, stair, wall_color, Piece,
};
use super::{EnemySpawn, MapLayout, LayoutView, layout_view};
use crate::enemies::{EnemyKind, Fighter, Gunner, spec_default_fighter, spec_default_gunner};
use crate::geometry::{Placement, Vec3Mm, Yaw};

verus! {

/// The second arena: the same walled hall with two blocks of different
/// heights at the far end and a short stair in front of the player. Two
/// fighters and two gunners wait in it.
pub open spec fn spec_map02() -> LayoutView {
    (
        mm(0, 1850, 12000),
        seq![
            EnemySpawn { position: mm(-6000, 0, -10000), kind: EnemyKind::Fighter(spec_default_fighter()) },
            EnemySpawn { position: mm(6000, 0, -10000), kind: EnemyKind::Fighter(spec_default_fighter()) },
            EnemySpawn { position: mm(0, 0, -12000), kind: EnemyKind::Gunner(spec_default_gunner()) },
            EnemySpawn { position: mm(0, 0, -4000), kind: EnemyKind::Gunner(spec_default_gunner()) },
        ],
        seq![
            spec_cuboid(mm(0, 0, 0), mm(30000, 100, 30000), spec_floor_color()),
            spec_cuboid(mm(0, 1500, -15000), mm(30000, 3000, 100), spec_wall_color()),
            spec_cuboid(mm(0, 1500, 15000), mm(30000, 3000, 100), spec_wall_color()),
            spec_cuboid(mm(-15000, 1500, 0), mm(100, 3000, 30000), spec_wall_color()),
            spec_cuboid(mm(15000, 1500, 0), mm(100, 3000, 30000), spec_wall_color()),
            spec_cuboid(mm(-6000, 1000, -7000), mm(4000, 2000, 4000), spec_cuboid_color()),
            spec_cuboid(mm(6000, 750, -7000), mm(4000, 1500, 4000), spec_cuboid_color()),
            spec_stair(Placement { translation: mm(-2000, 50, 6000), yaw: Yaw::Zero }, 4000, 4, 500, 1000),
        ],
    )
}

/// The second arena has four enemies.
pub proof fn lemma_map02_roster()
    ensures
        spec_map02().1.len() == 4,
{
}

/// The definition of the second arena.
pub fn definition() -> (m: MapLayout)
    ensures
        layout_view(m) == spec_map02(),
{
    let mut enemies: Vec<EnemySpawn> = Vec::new();
    enemies.push(
        EnemySpawn { position: Vec3Mm::new(-6000, 0, -10000), kind: EnemyKind::Fighter(Fighter::default()) },
    );
    enemies.push(
        EnemySpawn { position: Vec3Mm::new(6000, 0, -10000), kind: EnemyKind::Fighter(Fighter::default()) },
    );
    enemies.push(
        EnemySpawn { position: Vec3Mm::new(0, 0, -12000), kind: EnemyKind::Gunner(Gunner::default()) },
    );
    enemies.push(
        EnemySpawn { position: Vec3Mm::new(0, 0, -4000), kind: EnemyKind::Gunner(Gunner::default()) },
    );
    let mut pieces: Vec<Piece> = Vec::new();
    pieces.push(cuboid(Vec3Mm::zero(), Vec3Mm::new(30000, 100, 30000), floor_color()));
    pieces.push(cuboid(Vec3Mm::new(0, 1500, -15000), Vec3Mm::new(30000, 3000, 100), wall_color()));
    pieces.push(cuboid(Vec3Mm::new(0, 1500, 15000), Vec3Mm::new(30000, 3000, 100), wall_color()));
    pieces.push(cuboid(Vec3Mm::new(-15000, 1500, 0), Vec3Mm::new(100, 3000, 30000), wall_color()));
    pieces.push(cuboid(Vec3Mm::new(15000, 1500, 0), Vec3Mm::new(100, 3000, 30000), wall_color()));
    pieces.push(cuboid(Vec3Mm::new(-6000, 1000, -7000), Vec3Mm::new(4000, 2000, 4000), cuboid_color()));
    pieces.push(cuboid(Vec3Mm::new(6000, 750, -7000), Vec3Mm::new(4000, 1500, 4000), cuboid_color()));
    pieces.push(stair(Placement::new(Vec3Mm::new(-2000, 50, 6000), Yaw::Zero), 4000, 4, 500, 1000));
    let m = MapLayout { player_start: Vec3Mm::new(0, 1850, 12000), enemies, pieces };
    assert(m.enemies@ =~= spec_map02().1);
    assert(m.pieces@.map_values(|p: Piece| super::pieces::piece_view(p)) =~= spec_map02().2);
    m
}

} // verus!
