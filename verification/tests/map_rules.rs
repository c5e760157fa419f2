use cathedral::enemies::EnemyKind;
use cathedral::geometry::{rotate, Placement, Vec3Mm, Yaw};
use cathedral::map::map_enemies;
use cathedral::maps::pieces::{cuboid, door, stair, wall_torch, CuboidSpec, Item, LightSpec, Rgb};
use cathedral::maps::{advance_map, bake_pieces, definition, item_position, restart, CurrentMap};

const MAP01_ENEMY_COUNT: usize = 3;
const MAP02_ENEMY_COUNT: usize = 4;

fn is_fighter(kind: &EnemyKind) -> bool {
    matches!(kind, EnemyKind::Fighter(_))
}

fn cuboid_of(item: &Item) -> CuboidSpec {
    match item {
        Item::Cuboid(spec) => *spec,
        Item::Light(_) => panic!("expected a cuboid"),
    }
}

#[test]
fn map01_has_two_gunners_and_a_fighter() {
    let map = definition(&CurrentMap::Map01);
    assert_eq!(map.enemies.len(), MAP01_ENEMY_COUNT);
    assert_eq!(map.enemies[0].position, Vec3Mm::new(-8000, 0, -8000));
    assert_eq!(map.enemies[1].position, Vec3Mm::new(8000, 0, -8000));
    assert_eq!(map.enemies[2].position, Vec3Mm::new(0, 0, -10000));
    assert!(!is_fighter(&map.enemies[0].kind));
    assert!(!is_fighter(&map.enemies[1].kind));
    assert!(is_fighter(&map.enemies[2].kind));
    assert_eq!(map.player_start, Vec3Mm::new(0, 1850, 12000));
    assert_eq!(map.pieces.len(), 16);
}

#[test]
fn map02_has_two_fighters_and_two_gunners() {
    let map = definition(&CurrentMap::Map02);
    assert_eq!(map.enemies.len(), MAP02_ENEMY_COUNT);
    let fighters = map.enemies.iter().filter(|spawn| is_fighter(&spawn.kind)).count();
    assert_eq!(fighters, 2);
    assert_eq!(map.player_start, Vec3Mm::new(0, 1850, 12000));
    assert_eq!(map.pieces.len(), 8);
}

#[test]
fn map02_pillar_is_where_the_walking_course_expects_it() {
    let map = definition(&CurrentMap::Map02);
    let pillar = &map.pieces[5];
    assert_eq!(pillar.placement.translation, Vec3Mm::new(-6000, 1000, -7000));
    assert_eq!(cuboid_of(&pillar.items[0]).size, Vec3Mm::new(4000, 2000, 4000));
}

#[test]
fn standalone_arena_enemies_match_map01() {
    let spawns = map_enemies();
    let map = definition(&CurrentMap::Map01);
    assert_eq!(spawns.len(), MAP01_ENEMY_COUNT);
    for (a, b) in spawns.iter().zip(map.enemies.iter()) {
        assert_eq!(a.position, b.position);
        assert_eq!(is_fighter(&a.kind), is_fighter(&b.kind));
    }
}

#[test]
fn map_advances_only_when_every_enemy_is_dying() {
    let mut current = CurrentMap::Map01;
    assert!(!advance_map(&mut current, &vec![true, false, true]));
    assert_eq!(current, CurrentMap::Map01);
    assert!(!advance_map(&mut current, &vec![]));
    assert_eq!(current, CurrentMap::Map01);
    assert!(advance_map(&mut current, &vec![true, true, true]));
    assert_eq!(current, CurrentMap::Map02);
}

#[test]
fn map02_is_the_last_map() {
    let mut current = CurrentMap::Map02;
    assert!(!advance_map(&mut current, &vec![true, true, true, true]));
    assert_eq!(current, CurrentMap::Map02);
}

#[test]
fn restart_goes_back_to_map01() {
    let mut current = CurrentMap::Map02;
    let map = restart(&mut current);
    assert_eq!(current, CurrentMap::Map01);
    assert_eq!(map.enemies.len(), MAP01_ENEMY_COUNT);
    assert_eq!(map.player_start, Vec3Mm::new(0, 1850, 12000));
    assert_eq!(CurrentMap::default(), CurrentMap::Map01);
}

#[test]
fn stair_steps_climb_toward_negative_z() {
    let piece = stair(Placement::from_translation(Vec3Mm::zero()), 4000, 15, 100, 1000);
    assert_eq!(piece.items.len(), 15);
    let first = cuboid_of(&piece.items[0]);
    assert_eq!(first.position, Vec3Mm::new(0, 50, -500));
    assert_eq!(first.size, Vec3Mm::new(4000, 100, 1000));
    assert_eq!(first.color, Rgb { r: 50, g: 50, b: 50 });
    let last = cuboid_of(&piece.items[14]);
    assert_eq!(last.position, Vec3Mm::new(0, 1450, -14500));
}

#[test]
fn door_frame_posts_and_lintel() {
    let piece = door(Placement::from_translation(Vec3Mm::zero()), 3000, 2500, 300);
    assert_eq!(piece.items.len(), 3);
    let left = cuboid_of(&piece.items[0]);
    let right = cuboid_of(&piece.items[1]);
    let lintel = cuboid_of(&piece.items[2]);
    assert_eq!(left.position, Vec3Mm::new(-1750, 1250, 0));
    assert_eq!(right.position, Vec3Mm::new(1750, 1250, 0));
    assert_eq!(left.size, Vec3Mm::new(500, 2500, 300));
    assert_eq!(lintel.position, Vec3Mm::new(0, 2750, 0));
    assert_eq!(lintel.size, Vec3Mm::new(4000, 500, 300));
}

#[test]
fn wall_torch_has_a_handle_and_a_flame() {
    let piece = wall_torch(Placement::from_translation(Vec3Mm::zero()));
    assert_eq!(piece.items.len(), 2);
    assert_eq!(cuboid_of(&piece.items[0]).position, Vec3Mm::new(0, 2200, -150));
    match piece.items[1] {
        Item::Light(LightSpec { position, color, intensity }) => {
            assert_eq!(position, Vec3Mm::new(0, 2500, -400));
            assert_eq!(color, Rgb { r: 100, g: 60, b: 20 });
            assert_eq!(intensity, 900_000);
        }
        Item::Cuboid(_) => panic!("expected the flame"),
    }
}

#[test]
fn cuboid_piece_holds_one_box_at_its_origin() {
    let piece = cuboid(Vec3Mm::new(1, 2, 3), Vec3Mm::new(4, 5, 6), Rgb { r: 1, g: 2, b: 3 });
    assert_eq!(piece.placement.translation, Vec3Mm::new(1, 2, 3));
    assert_eq!(piece.placement.yaw, Yaw::Zero);
    assert_eq!(item_position(&piece.items[0]), Vec3Mm::zero());
}

#[test]
fn rotation_by_quarter_turns() {
    let v = Vec3Mm::new(1, 2, 3);
    assert_eq!(rotate(Yaw::Zero, v), Vec3Mm::new(1, 2, 3));
    assert_eq!(rotate(Yaw::Quarter, v), Vec3Mm::new(3, 2, -1));
    assert_eq!(rotate(Yaw::Half, v), Vec3Mm::new(-1, 2, -3));
    assert_eq!(rotate(Yaw::ThreeQuarters, v), Vec3Mm::new(-3, 2, 1));
}

#[test]
fn baking_turns_and_moves_items_into_the_world() {
    let pieces = vec![
        cuboid(Vec3Mm::new(10, 20, 30), Vec3Mm::new(1, 1, 1), Rgb { r: 0, g: 0, b: 0 }),
        wall_torch(Placement::new(Vec3Mm::new(-8000, 0, -14950), Yaw::Half)),
    ];
    let placed = bake_pieces(&pieces);
    assert_eq!(placed.len(), 3);
    assert_eq!(placed[0].placement.translation, Vec3Mm::new(10, 20, 30));
    assert_eq!(placed[1].placement.translation, Vec3Mm::new(-8000, 2200, -14800));
    assert_eq!(placed[1].placement.yaw, Yaw::Half);
    assert_eq!(placed[2].placement.translation, Vec3Mm::new(-8000, 2500, -14550));
    assert_eq!(placed[2].item, pieces[1].items[1]);
}

#[test]
fn baking_map01_keeps_every_item() {
    let map = definition(&CurrentMap::Map01);
    let placed = bake_pieces(&map.pieces);
    let total: usize = map.pieces.iter().map(|piece| piece.items.len()).sum();
    assert_eq!(placed.len(), total);
    assert_eq!(total, 9 + 15 + 15 + 3 + 4 * 2);
}
