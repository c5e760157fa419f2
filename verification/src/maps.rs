pub mod map01;
pub mod map02;
pub mod pieces;

use vstd::prelude::*;

use crate::enemies::EnemyKind;
use crate::geometry::{Coords, Placement, Vec3Mm, coords, coords_within, rotate, spec_add, spec_rotate, within};
use pieces::{Item, Piece, mm, piece_view};

verus! {

/// The arena being played. The game starts in the first one and moves on to
/// the second once every enemy of the first is down.
#[derive(Clone, Copy, Debug, PartialEq, Eq, Structural)]
pub enum CurrentMap {
    Map01,
    Map02,
}

impl Default for CurrentMap {
    /// A game starts in the first arena.
    fn default() -> (m: Self)
        ensures
            m == CurrentMap::Map01,
    {
        CurrentMap::Map01
    }
}

/// An enemy of an arena: where it stands at the start and what it is.
#[derive(Clone, Copy, Debug)]
pub struct EnemySpawn {
    pub position: Vec3Mm,
    pub kind: EnemyKind,
}

/// An arena: where the player starts, its enemies and its pieces.
#[derive(Debug)]
pub struct MapLayout {
    pub player_start: Vec3Mm,
    pub enemies: Vec<EnemySpawn>,
    pub pieces: Vec<Piece>,
}

/// An arena as a value: player start, enemies, and pieces as values.
pub type LayoutView = (Vec3Mm, Seq<EnemySpawn>, Seq<(Placement, Seq<Item>)>);

/// The value of an arena.
pub open spec fn layout_view(m: MapLayout) -> LayoutView {
    (m.player_start, m.enemies@, m.pieces@.map_values(|p: Piece| piece_view(p)))
}

/// The definition of the arena `map`.
pub open spec fn spec_definition(map: CurrentMap) -> LayoutView {
    match map {
        CurrentMap::Map01 => map01::spec_map01(),
        CurrentMap::Map02 => map02::spec_map02(),
    }
}

/// The definition of the arena `map`.
pub fn definition(map: &CurrentMap) -> (m: MapLayout)
    ensures
        layout_view(m) == spec_definition(*map),
{
    match map {
        CurrentMap::Map01 => map01::definition(),
        CurrentMap::Map02 => map02::definition(),
    }
}

/// Where an item stands in its piece's own space.
pub open spec fn spec_item_position(item: Item) -> Vec3Mm {
    match item {
        Item::Cuboid(spec) => spec.position,
        Item::Light(spec) => spec.position,
    }
}

/// Where an item stands in its piece's own space.
pub fn item_position(item: &Item) -> (p: Vec3Mm)
    ensures
        p == spec_item_position(*item),
{
    match item {
        Item::Cuboid(spec) => spec.position,
        Item::Light(spec) => spec.position,
    }
}

/// An item placed in the world: the item and where it stands.
#[derive(Clone, Copy, Debug, PartialEq, Eq, Structural)]
pub struct PlacedItem {
    pub item: Item,
    pub placement: Placement,
}

/// Largest magnitude of a coordinate that baking takes, so that a sum of two
/// of them stays within range.
pub open spec fn bake_limit() -> int {
    (i64::MAX / 2) as int
}

/// The world placement of `item` in a piece placed at `placement`: the
/// piece's translation plus the item's position turned by the piece's yaw,
/// with the piece's yaw.
pub open spec fn spec_bake_item(placement: Placement, item: Item) -> PlacedItem {
    let c: Coords = spec_add(
        coords(placement.translation),
        spec_rotate(placement.yaw, coords(spec_item_position(item))),
    );
    PlacedItem { item, placement: Placement { translation: mm(c.0, c.1, c.2), yaw: placement.yaw } }
}

/// The items of one piece, placed in the world.
pub open spec fn spec_bake_piece(piece: (Placement, Seq<Item>)) -> Seq<PlacedItem> {
    piece.1.map_values(|item: Item| spec_bake_item(piece.0, item))
}

/// The items of all pieces, placed in the world, piece after piece and in
/// each piece in order.
pub open spec fn spec_bake(pieces: Seq<(Placement, Seq<Item>)>) -> Seq<PlacedItem>
    decreases pieces.len(),
{
    if pieces.len() == 0 {
        Seq::empty()
    } else {
        spec_bake(pieces.drop_last()) + spec_bake_piece(pieces.last())
    }
}

/// A piece whose placement and item positions are small enough to bake.
pub open spec fn piece_bakeable(piece: (Placement, Seq<Item>)) -> bool {
    &&& within(piece.0.translation, bake_limit())
    &&& forall|j: int|
        0 <= j < piece.1.len() ==> #[trigger] within(spec_item_position(piece.1[j]), bake_limit())
}

/// Places every item of every piece in the world, without any hierarchy:
/// each item gets the piece's placement composed with its own position.
pub fn bake_pieces(pieces: &Vec<Piece>) -> (placed: Vec<PlacedItem>)
    requires
        forall|i: int| 0 <= i < pieces.len() ==> #[trigger] piece_bakeable(piece_view(pieces[i])),
    ensures
        placed@ == spec_bake(pieces@.map_values(|p: Piece| piece_view(p))),
{
    let ghost views = pieces@.map_values(|p: Piece| piece_view(p));
    let mut placed: Vec<PlacedItem> = Vec::new();
    let mut i: usize = 0;
    while i < pieces.len()
        invariant
            i <= pieces.len(),
            views == pieces@.map_values(|p: Piece| piece_view(p)),
            forall|k: int| 0 <= k < pieces.len() ==> #[trigger] piece_bakeable(piece_view(pieces[k])),
            placed@ == spec_bake(views.take(i as int)),
        decreases pieces.len() - i,
    {
        let piece = &pieces[i];
        assert(piece_bakeable(piece_view(pieces[i as int])));
        let ghost before = placed@;
        let mut j: usize = 0;
        while j < piece.items.len()
            invariant
                j <= piece.items.len(),
                piece_bakeable(piece_view(*piece)),
                placed@ == before + spec_bake_piece(piece_view(*piece)).take(j as int),
            decreases piece.items.len() - j,
        {
            let item = piece.items[j];
            assert(within(spec_item_position(piece.items@[j as int]), bake_limit()));
            let local = rotate(piece.placement.yaw, item_position(&item));
            proof {
                crate::geometry::lemma_rotate_keeps_height_and_bounds(
                    piece.placement.yaw,
                    coords(spec_item_position(item)),
                    bake_limit(),
                );
            }
            let translation = piece.placement.translation.add(local);
            placed.push(PlacedItem {
                item,
                placement: Placement { translation, yaw: piece.placement.yaw },
            });
            assert(spec_bake_piece(piece_view(*piece)).take(j + 1) =~= spec_bake_piece(
                piece_view(*piece),
            ).take(j as int).push(spec_bake_item(piece.placement, item)));
            j = j + 1;
        }
        assert(spec_bake_piece(piece_view(*piece)).take(j as int) =~= spec_bake_piece(
            piece_view(*piece),
        ));
        assert(views.take(i + 1).drop_last() =~= views.take(i as int));
        assert(views.take(i + 1).last() == piece_view(*piece));
        i = i + 1;
    }
    assert(views.take(pieces.len() as int) =~= views);
    placed
}

/// How many items the first `i` pieces hold.
pub open spec fn spec_items_before(pieces: Seq<(Placement, Seq<Item>)>, i: int) -> int
    decreases i,
{
    if i <= 0 {
        0
    } else {
        spec_items_before(pieces, i - 1) + pieces[i - 1].1.len()
    }
}

/// Dropping the last piece does not change the count before an earlier one.
proof fn lemma_items_before_drop_last(pieces: Seq<(Placement, Seq<Item>)>, i: int)
    requires
        0 <= i < pieces.len(),
    ensures
        spec_items_before(pieces.drop_last(), i) == spec_items_before(pieces, i),
    decreases i,
{
    if i > 0 {
        lemma_items_before_drop_last(pieces, i - 1);
    }
}

/// Baking keeps every item: as many placed items as the pieces hold.
proof fn lemma_bake_len(pieces: Seq<(Placement, Seq<Item>)>)
    ensures
        spec_bake(pieces).len() == spec_items_before(pieces, pieces.len() as int),
    decreases pieces.len(),
{
    if pieces.len() > 0 {
        lemma_bake_len(pieces.drop_last());
        lemma_items_before_drop_last(pieces, pieces.len() - 1);
    }
}

/// The `j`-th item of the `i`-th piece, once baked, comes after the items of
/// the earlier pieces; it is the same item, it keeps the piece's yaw, and it
/// stands at the piece's translation plus its own position turned by the
/// piece's yaw (the turn that `geometry::rotate` computes).
pub proof fn lemma_bake_places_each_item(pieces: Seq<(Placement, Seq<Item>)>, i: int, j: int)
    requires
        forall|k: int| 0 <= k < pieces.len() ==> #[trigger] piece_bakeable(pieces[k]),
        0 <= i < pieces.len(),
        0 <= j < pieces[i].1.len(),
    ensures
        ({
            let placed = spec_bake(pieces);
            let n = spec_items_before(pieces, i) + j;
            &&& placed.len() == spec_items_before(pieces, pieces.len() as int)
            &&& 0 <= n < placed.len()
            &&& placed[n].item == pieces[i].1[j]
            &&& placed[n].placement.yaw == pieces[i].0.yaw
            &&& coords(placed[n].placement.translation) == spec_add(
                coords(pieces[i].0.translation),
                spec_rotate(pieces[i].0.yaw, coords(spec_item_position(pieces[i].1[j]))),
            )
        }),
    decreases pieces.len(),
{
    lemma_bake_len(pieces);
    let rest = pieces.drop_last();
    lemma_bake_len(rest);
    lemma_items_before_drop_last(pieces, pieces.len() - 1);
    if i < pieces.len() - 1 {
        assert forall|k: int| 0 <= k < rest.len() implies #[trigger] piece_bakeable(rest[k]) by {
            assert(rest[k] == pieces[k]);
        }
        lemma_bake_places_each_item(rest, i, j);
        lemma_items_before_drop_last(pieces, i);
        lemma_items_before_drop_last(pieces, i + 1);
        assert(spec_items_before(pieces, i) + j < spec_items_before(pieces, i + 1));
        assert(spec_items_before(rest, i + 1) <= spec_items_before(rest, rest.len() as int)) by {
            lemma_items_before_grows(rest, i + 1, rest.len() as int);
        }
        assert(rest[i] == pieces[i]);
    } else {
        let piece = pieces[i];
        assert(piece_bakeable(piece));
        assert(within(spec_item_position(piece.1[j]), bake_limit()));
        crate::geometry::lemma_rotate_keeps_height_and_bounds(
            piece.0.yaw,
            coords(spec_item_position(piece.1[j])),
            bake_limit(),
        );
    }
}

/// The count of items before a piece never decreases along the pieces.
proof fn lemma_items_before_grows(pieces: Seq<(Placement, Seq<Item>)>, a: int, b: int)
    requires
        0 <= a <= b <= pieces.len(),
    ensures
        spec_items_before(pieces, a) <= spec_items_before(pieces, b),
    decreases b - a,
{
    if a < b {
        lemma_items_before_grows(pieces, a, b - 1);
    }
}

/// Every placed item comes from some item of some piece.
proof fn lemma_baked_item_has_a_source(pieces: Seq<(Placement, Seq<Item>)>, n: int)
    requires
        0 <= n < spec_bake(pieces).len(),
    ensures
        exists|i: int, j: int|
            0 <= i < pieces.len() && 0 <= j < pieces[i].1.len() && spec_bake(pieces)[n]
                == #[trigger] spec_bake_item(pieces[i].0, pieces[i].1[j]),
    decreases pieces.len(),
{
    let rest = pieces.drop_last();
    let before = spec_bake(rest);
    if n < before.len() {
        lemma_baked_item_has_a_source(rest, n);
        let (i, j) = choose|i: int, j: int|
            0 <= i < rest.len() && 0 <= j < rest[i].1.len() && before[n] == #[trigger] spec_bake_item(
                rest[i].0,
                rest[i].1[j],
            );
        assert(rest[i] == pieces[i]);
        assert(spec_bake(pieces)[n] == spec_bake_item(pieces[i].0, pieces[i].1[j]));
    } else {
        let i = pieces.len() - 1;
        let j = n - before.len();
        assert(spec_bake(pieces)[n] == spec_bake_item(pieces[i].0, pieces[i].1[j]));
    }
}

/// A placed item stands inside the hall: within 15 m of its centre line in
/// both horizontal directions, the planes of its walls.
pub open spec fn inside_hall(p: PlacedItem) -> bool {
    &&& -15000 <= p.placement.translation.x <= 15000
    &&& -15000 <= p.placement.translation.z <= 15000
}

/// Every item of the first arena, baked from its piece, stands inside the
/// hall.
proof fn lemma_map01_item_inside(i: int, j: int)
    requires
        0 <= i < spec_definition(CurrentMap::Map01).2.len(),
        0 <= j < spec_definition(CurrentMap::Map01).2[i].1.len(),
    ensures
        inside_hall(spec_bake_item(spec_definition(CurrentMap::Map01).2[i].0, spec_definition(CurrentMap::Map01).2[i].1[j])),
{
    let pieces = spec_definition(CurrentMap::Map01).2;
    if i == 9 || i == 10 {
        let v = 1000 * (2 * j + 1);
        assert(pieces[i].1[j] == pieces::spec_stair_step(4000, j, 100, 1000));
        assert(pieces::spec_half(v) == 500 * (2 * j + 1));
    }
}

/// Every item of the second arena, baked from its piece, stands inside the
/// hall.
proof fn lemma_map02_item_inside(i: int, j: int)
    requires
        0 <= i < spec_definition(CurrentMap::Map02).2.len(),
        0 <= j < spec_definition(CurrentMap::Map02).2[i].1.len(),
    ensures
        inside_hall(spec_bake_item(spec_definition(CurrentMap::Map02).2[i].0, spec_definition(CurrentMap::Map02).2[i].1[j])),
{
    let pieces = spec_definition(CurrentMap::Map02).2;
    if i == 7 {
        let v = 1000 * (2 * j + 1);
        assert(pieces[i].1[j] == pieces::spec_stair_step(4000, j, 500, 1000));
        assert(pieces::spec_half(v) == 500 * (2 * j + 1));
    }
}

/// Every item of either arena, once baked, stands inside its hall: no stair,
/// torch or door sticks out through a wall.
pub proof fn lemma_arena_items_inside_hall(map: CurrentMap, n: int)
    requires
        0 <= n < spec_bake(spec_definition(map).2).len(),
    ensures
        inside_hall(spec_bake(spec_definition(map).2)[n]),
{
    let pieces = spec_definition(map).2;
    lemma_baked_item_has_a_source(pieces, n);
    let (i, j) = choose|i: int, j: int|
        0 <= i < pieces.len() && 0 <= j < pieces[i].1.len() && spec_bake(pieces)[n]
            == #[trigger] spec_bake_item(pieces[i].0, pieces[i].1[j]);
    match map {
        CurrentMap::Map01 => lemma_map01_item_inside(i, j),
        CurrentMap::Map02 => lemma_map02_item_inside(i, j),
    }
}

/// Every enemy of the arena is down: there is at least one, and all are
/// dying.
pub open spec fn spec_all_dead(dying: Seq<bool>) -> bool {
    dying.len() > 0 && forall|i: int| 0 <= i < dying.len() ==> dying[i]
}

/// The arena that follows `current` once the enemies are `dying`: the first
/// arena gives way to the second when all its enemies are down, and the
/// second is the last.
pub open spec fn spec_advance(current: CurrentMap, dying: Seq<bool>) -> CurrentMap {
    if current == CurrentMap::Map01 && spec_all_dead(dying) {
        CurrentMap::Map02
    } else {
        current
    }
}

/// Moves on to the next arena when every enemy is down, given for each enemy
/// whether it is dying. Returns whether the arena changed; the caller then
/// clears the old arena and its enemies and builds the new one.
pub fn advance_map(current: &mut CurrentMap, enemies_dying: &Vec<bool>) -> (advanced: bool)
    ensures
        *final(current) == spec_advance(*old(current), enemies_dying@),
        advanced == (*final(current) != *old(current)),
{
    let mut all_dead = enemies_dying.len() > 0;
    let mut i: usize = 0;
    while i < enemies_dying.len()
        invariant
            i <= enemies_dying.len(),
            all_dead == (enemies_dying.len() > 0 && forall|j: int| 0 <= j < i ==> enemies_dying@[j]),
        decreases enemies_dying.len() - i,
    {
        all_dead = all_dead && enemies_dying[i];
        i = i + 1;
    }
    if *current == CurrentMap::Map02 || !all_dead {
        return false;
    }
    *current = CurrentMap::Map02;
    true
}

/// Starts the game over: back to the first arena, whose definition is
/// returned so that the caller can move the player to its start and spawn
/// its enemies.
pub fn restart(current: &mut CurrentMap) -> (map: MapLayout)
    ensures
        *final(current) == CurrentMap::Map01,
        layout_view(map) == spec_definition(CurrentMap::Map01),
{
    *current = CurrentMap::Map01;
    definition(current)
}

/// Once every enemy of the first arena is down, the game moves on to the
/// second arena.
pub proof fn lemma_clearing_map01_leads_to_map02(dying: Seq<bool>)
    requires
        dying.len() == spec_definition(CurrentMap::Map01).1.len(),
        forall|i: int| 0 <= i < dying.len() ==> dying[i],
    ensures
        spec_advance(CurrentMap::Map01, dying) == CurrentMap::Map02,
{
    map01::lemma_map01_roster();
}

/// The second arena is the last: nothing moves the game on from it.
pub proof fn lemma_map02_is_last(dying: Seq<bool>)
    ensures
        spec_advance(CurrentMap::Map02, dying) == CurrentMap::Map02,
{
}

/// While an enemy stands, or when there are none, the arena does not change.
pub proof fn lemma_no_advance_while_an_enemy_stands(current: CurrentMap, dying: Seq<bool>)
    requires
        dying.len() == 0 || exists|i: int| 0 <= i < dying.len() && !dying[i],
    ensures
        spec_advance(current, dying) == current,
{
}

} // verus!
