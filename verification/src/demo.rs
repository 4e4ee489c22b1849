//! A small map for a first walk: two houses and a walkway, each built once
//! as a blueprint and then laid out, and an item beside them.

use vstd::prelude::*;
use crate::builder::{
    all_known, area_in_world, lemma_every_placement_is_a_tile, lemma_replay_moves_every_record,
    replay_in_world, replayed, Layout, MapBuilder, Spot,
};
use crate::location::{Area, Location, RelativePosition, WorldLocation};
use crate::palette::TilePalette;
use crate::tile::{
    Interaction, TileAttributes, TileDefinition, TileInstance, FULL_HARDNESS, HALF_HARDNESS,
};

verus! {

/// `definition` with the given hardness and hit points; its attributes are
/// fully hard.
pub open spec fn hardened(definition: TileDefinition, hardness: u32, hit_points: u32)
    -> TileDefinition {
    TileDefinition {
        hardness,
        tile_attributes: TileAttributes {
            hardness: FULL_HARDNESS,
            hit_points,
            ..definition.tile_attributes
        },
        ..definition
    }
}

/// `definition` with the given interaction.
pub open spec fn acting(definition: TileDefinition, interaction: Interaction) -> TileDefinition {
    TileDefinition { interaction, ..definition }
}

/// `palette` with the template under `name` hardened, if there is one.
pub open spec fn with_hardened(
    palette: Map<Seq<char>, TileDefinition>,
    name: Seq<char>,
    hardness: u32,
    hit_points: u32,
) -> Map<Seq<char>, TileDefinition> {
    if palette.contains_key(name) {
        palette.insert(name, hardened(palette[name], hardness, hit_points))
    } else {
        palette
    }
}

/// `palette` with the template under `name` given `interaction`, if there is
/// one.
pub open spec fn with_acting(
    palette: Map<Seq<char>, TileDefinition>,
    name: Seq<char>,
    interaction: Interaction,
) -> Map<Seq<char>, TileDefinition> {
    if palette.contains_key(name) {
        palette.insert(name, acting(palette[name], interaction))
    } else {
        palette
    }
}

/// `palette` with a locked door beside the closed door, if there is one: the
/// same template with the interaction of a locked door.
pub open spec fn with_locked_door(palette: Map<Seq<char>, TileDefinition>) -> Map<
    Seq<char>,
    TileDefinition,
> {
    if palette.contains_key("brick_door_closed"@) {
        palette.insert(
            "locked_door"@,
            acting(
                hardened(palette["brick_door_closed"@], HALF_HARDNESS, 1),
                Interaction::UnlockDoor,
            ),
        )
    } else {
        palette
    }
}

/// The palette as the map needs it. Walls and bricks are hard; the closed
/// door opens and the window breaks, and both are half as hard; the item
/// tile hands out its item; a locked door is filed beside the closed door.
/// A template that the palette does not hold is passed over.
pub open spec fn configured(palette: Map<Seq<char>, TileDefinition>) -> Map<
    Seq<char>,
    TileDefinition,
> {
    let walls = with_hardened(palette, "wall"@, FULL_HARDNESS, 200);
    let bricks = with_hardened(walls, "brick"@, FULL_HARDNESS, 800);
    let doors = with_acting(
        with_hardened(bricks, "brick_door_closed"@, HALF_HARDNESS, 1),
        "brick_door_closed"@,
        Interaction::OpenDoor,
    );
    let locked = with_locked_door(doors);
    let windows = with_acting(
        with_hardened(locked, "brick_window"@, HALF_HARDNESS, 1),
        "brick_window"@,
        Interaction::BreakWindow,
    );
    with_acting(windows, "item_50"@, Interaction::PickUp)
}

/// The absolute origin.
pub open spec fn zero() -> Location {
    Location { x: 0, y: 0, z: 0, frame: WorldLocation::World }
}

/// The ground that a house stands on.
pub open spec fn house_ground() -> Area {
    Area { width: 6, height: 6 }
}

/// The ground of the walkway.
pub open spec fn walkway_ground() -> Area {
    Area { width: 2, height: 6 }
}

/// `layout` after the basic house was laid out and frozen: a ring of walls
/// with a door in its lower side, on a floor.
pub open spec fn with_basic_house(layout: Layout) -> Layout {
    layout.with_tiles(RelativePosition::RightOf, 5, "wall"@).with_tiles(
        RelativePosition::Below,
        5,
        "wall"@,
    ).with_tiles(RelativePosition::LeftOf, 1, "wall"@).with_tiles(
        RelativePosition::LeftOf,
        1,
        "brick_door_closed"@,
    ).with_tiles(RelativePosition::LeftOf, 1, "wall"@).with_tiles(
        RelativePosition::LeftOf,
        2,
        "wall"@,
    ).with_tiles(RelativePosition::Above, 5, "wall"@).with_area(
        zero(),
        house_ground(),
        "floor"@,
    ).frozen_as("basic_house"@)
}

/// `layout` after the brick house was laid out and frozen: a ring of bricks
/// with a locked door between windows in its lower side, on a floor.
pub open spec fn with_brick_house(layout: Layout) -> Layout {
    layout.with_tiles(RelativePosition::RightOf, 5, "brick"@).with_tiles(
        RelativePosition::Below,
        5,
        "brick"@,
    ).with_tiles(RelativePosition::LeftOf, 2, "brick_window"@).with_tiles(
        RelativePosition::LeftOf,
        1,
        "locked_door"@,
    ).with_tiles(RelativePosition::LeftOf, 1, "brick_window"@).with_tiles(
        RelativePosition::LeftOf,
        1,
        "brick"@,
    ).with_tiles(RelativePosition::Above, 5, "brick"@).with_area(
        zero(),
        house_ground(),
        "floor"@,
    ).frozen_as("brick_house"@)
}

/// `layout` after the walkway was laid out and frozen: a strip of floor.
pub open spec fn with_walkway(layout: Layout) -> Layout {
    layout.with_area(zero(), walkway_ground(), "floor"@).frozen_as("walkway"@)
}

/// The layout of the map on `palette`: the three blueprints are built at the
/// origin; then the basic house, the brick house, the walkway and the basic
/// house once more are laid out there, and one item tile at `(16, 0, 3)`.
pub open spec fn simple_map(palette: Map<Seq<char>, TileDefinition>) -> Layout {
    with_walkway(
        with_brick_house(with_basic_house(Layout::start(palette, zero()))),
    ).with_blueprint("basic_house"@).with_blueprint("brick_house"@).with_blueprint(
        "walkway"@,
    ).with_blueprint("basic_house"@).at_position(
        Location { x: 16, y: 0, z: 3, frame: WorldLocation::World },
    ).with_tiles(RelativePosition::Below, 1, "item_50"@)
}

/// A bound that the coordinates of the map stay below.
spec fn reach() -> int {
    1000
}

/// `location` lies at height zero, no further than `r` from the origin.
spec fn near(location: Location, r: int) -> bool {
    -r <= location.x <= r && -r <= location.y <= r && location.z == 0
}

/// Every place of `spots` is near.
spec fn all_near(spots: Seq<Spot>, r: int) -> bool {
    forall|i: int| 0 <= i < spots.len() ==> near((#[trigger] spots[i]).location, r)
}

/// The origin of `layout` is the absolute origin, and the cursor, every tile
/// and every record of a blueprint are near.
spec fn tidy(layout: Layout, r: int) -> bool {
    &&& layout.origin == zero()
    &&& near(layout.cursor, r)
    &&& layout.cursor.frame == WorldLocation::World
    &&& all_near(layout.placements, r)
    &&& forall|name: Seq<char>|
        layout.blueprints.contains_key(name) ==> all_near(#[trigger] layout.blueprints[name], r)
}

/// Filling an area at the origin keeps a layout tidy.
proof fn lemma_tidy_with_area(layout: Layout, area: Area, tile_name: Seq<char>, r: int)
    requires
        tidy(layout, r),
        0 < area.width <= r,
        0 < area.height <= r,
        r <= reach(),
    ensures
        tidy(layout.with_area(zero(), area, tile_name), r),
        area_in_world(zero(), area),
{
    let after = layout.with_area(zero(), area, tile_name);
    assert forall|i: int| 0 <= i < after.placements.len() implies near(
        (#[trigger] after.placements[i]).location,
        r,
    ) by {
        if i >= layout.placements.len() {
            let k = i - layout.placements.len();
            let w = area.width as int;
            assert(0 <= k / w < area.height) by (nonlinear_arith)
                requires
                    0 <= k < w * area.height,
                    0 < w,
            ;
        }
    }
}

/// A replay at the origin stays as near as the records are.
proof fn lemma_replayed_near(
    records: Seq<Spot>,
    palette: Map<Seq<char>, TileDefinition>,
    r: int,
)
    requires
        all_near(records, r),
        0 <= r <= reach(),
    ensures
        all_near(replayed(records, zero(), palette), r),
        replay_in_world(records, zero()),
    decreases records.len(),
{
    if records.len() > 0 {
        lemma_replayed_near(records.drop_last(), palette, r);
    }
}

/// Replaying a blueprint at the origin keeps a layout tidy, and stays
/// within the world.
proof fn lemma_tidy_with_blueprint(layout: Layout, name: Seq<char>, r: int)
    requires
        tidy(layout, r),
        0 <= r <= reach(),
    ensures
        tidy(layout.with_blueprint(name), r),
        layout.blueprints.contains_key(name) ==> replay_in_world(
            layout.blueprints[name],
            layout.origin,
        ),
{
    if layout.blueprints.contains_key(name) {
        lemma_replayed_near(layout.blueprints[name], layout.palette, r);
    }
}

/// Lays out a run of tiles near the origin.
fn lay(
    builder: &mut MapBuilder,
    direction: RelativePosition,
    count: u32,
    tile_name: &str,
    Ghost(r): Ghost<int>,
)
    requires
        old(builder).wf(),
        tidy(old(builder)@, r),
        0 <= r,
        r + count <= reach(),
    ensures
        final(builder).wf(),
        final(builder)@ == old(builder)@.with_tiles(direction, count as nat, tile_name@),
        tidy(final(builder)@, r + count),
{
    builder.add_tiles(direction, count, tile_name.to_owned());
}

/// Fills an area at the origin with floor.
fn floor(builder: &mut MapBuilder, area: Area, Ghost(r): Ghost<int>)
    requires
        old(builder).wf(),
        tidy(old(builder)@, r),
        0 < area.width <= r,
        0 < area.height <= r,
        r <= reach(),
    ensures
        final(builder).wf(),
        final(builder)@ == old(builder)@.with_area(zero(), area, "floor"@),
        tidy(final(builder)@, r),
{
    proof {
        lemma_tidy_with_area(builder@, area, "floor"@, r);
    }
    builder.add_tiles_to_area(&Location::default(), area, "floor".to_owned());
}

/// Freezes the tiles laid out near the origin.
fn freeze(builder: &mut MapBuilder, name: &str, Ghost(r): Ghost<int>)
    requires
        old(builder).wf(),
        tidy(old(builder)@, r),
        0 <= r <= reach(),
    ensures
        final(builder).wf(),
        final(builder)@ == old(builder)@.frozen_as(name@),
        tidy(final(builder)@, r),
{
    builder.to_blueprint(name);
}

/// Replays a blueprint at the origin.
fn replay(builder: &mut MapBuilder, name: &str, Ghost(r): Ghost<int>)
    requires
        old(builder).wf(),
        tidy(old(builder)@, r),
        0 <= r <= reach(),
    ensures
        final(builder).wf(),
        final(builder)@ == old(builder)@.with_blueprint(name@),
        tidy(final(builder)@, r),
{
    proof {
        lemma_tidy_with_blueprint(builder@, name@, r);
    }
    builder.add_tiles_from_blueprint(name);
}

/// Hardens the template under `name`, if the palette holds it.
fn harden(palette: &mut TilePalette, name: &str, hardness: u32, hit_points: u32)
    requires
        old(palette).wf(),
    ensures
        final(palette).wf(),
        final(palette)@ == with_hardened(old(palette)@, name@, hardness, hit_points),
{
    match palette.get_mut(name) {
        Some(tiles) => {
            tiles.hardness = hardness;
            tiles.tile_attributes.hardness = FULL_HARDNESS;
            tiles.tile_attributes.hit_points = hit_points;
        },
        None => {},
    }
}

/// Gives the template under `name` the interaction, if the palette holds it.
fn set_interaction(palette: &mut TilePalette, name: &str, interaction: Interaction)
    requires
        old(palette).wf(),
    ensures
        final(palette).wf(),
        final(palette)@ == with_acting(old(palette)@, name@, interaction),
{
    match palette.get_mut(name) {
        Some(tiles) => {
            tiles.interaction = interaction;
        },
        None => {},
    }
}

/// Sets up the templates that the map is made of.
pub fn configure_palette(palette: &mut TilePalette)
    requires
        old(palette).wf(),
    ensures
        final(palette).wf(),
        final(palette)@ == configured(old(palette)@),
{
    harden(palette, "wall", FULL_HARDNESS, 200);
    harden(palette, "brick", FULL_HARDNESS, 800);
    harden(palette, "brick_door_closed", HALF_HARDNESS, 1);
    set_interaction(palette, "brick_door_closed", Interaction::OpenDoor);
    let locked: Option<TileDefinition> = match palette.get("brick_door_closed") {
        Some(tiles) => {
            let mut new_tile = tiles.clone();
            new_tile.hardness = HALF_HARDNESS;
            new_tile.tile_attributes.hardness = FULL_HARDNESS;
            new_tile.tile_attributes.hit_points = 1;
            new_tile.interaction = Interaction::UnlockDoor;
            Some(new_tile)
        },
        None => None,
    };
    match locked {
        Some(new_tile) => {
            palette.insert("locked_door".to_owned(), new_tile);
        },
        None => {},
    }
    harden(palette, "brick_window", HALF_HARDNESS, 1);
    set_interaction(palette, "brick_window", Interaction::BreakWindow);
    set_interaction(palette, "item_50", Interaction::PickUp);
}

/// Lays out the basic house and freezes it.
fn basic_house(builder: &mut MapBuilder, Ghost(r): Ghost<int>)
    requires
        old(builder).wf(),
        tidy(old(builder)@, r),
        6 <= r,
        r + 20 <= reach(),
    ensures
        final(builder).wf(),
        final(builder)@ == with_basic_house(old(builder)@),
        tidy(final(builder)@, r + 20),
{
    lay(builder, RelativePosition::RightOf, 5, "wall", Ghost(r));
    lay(builder, RelativePosition::Below, 5, "wall", Ghost(r + 5));
    lay(builder, RelativePosition::LeftOf, 1, "wall", Ghost(r + 10));
    lay(builder, RelativePosition::LeftOf, 1, "brick_door_closed", Ghost(r + 11));
    lay(builder, RelativePosition::LeftOf, 1, "wall", Ghost(r + 12));
    lay(builder, RelativePosition::LeftOf, 2, "wall", Ghost(r + 13));
    lay(builder, RelativePosition::Above, 5, "wall", Ghost(r + 15));
    floor(builder, Area { width: 6, height: 6 }, Ghost(r + 20));
    freeze(builder, "basic_house", Ghost(r + 20));
}

/// Lays out the brick house and freezes it.
fn brick_house(builder: &mut MapBuilder, Ghost(r): Ghost<int>)
    requires
        old(builder).wf(),
        tidy(old(builder)@, r),
        6 <= r,
        r + 20 <= reach(),
    ensures
        final(builder).wf(),
        final(builder)@ == with_brick_house(old(builder)@),
        tidy(final(builder)@, r + 20),
{
    lay(builder, RelativePosition::RightOf, 5, "brick", Ghost(r));
    lay(builder, RelativePosition::Below, 5, "brick", Ghost(r + 5));
    lay(builder, RelativePosition::LeftOf, 2, "brick_window", Ghost(r + 10));
    lay(builder, RelativePosition::LeftOf, 1, "locked_door", Ghost(r + 12));
    lay(builder, RelativePosition::LeftOf, 1, "brick_window", Ghost(r + 13));
    lay(builder, RelativePosition::LeftOf, 1, "brick", Ghost(r + 14));
    lay(builder, RelativePosition::Above, 5, "brick", Ghost(r + 15));
    floor(builder, Area { width: 6, height: 6 }, Ghost(r + 20));
    freeze(builder, "brick_house", Ghost(r + 20));
}

/// Sets up the palette and builds the map on it: returns the tiles of the
/// map in the order in which they were laid out.
pub fn create_simple_map_system(palette: &mut TilePalette) -> (tiles: Vec<TileInstance>)
    requires
        old(palette).wf(),
    ensures
        final(palette).wf(),
        final(palette)@ == configured(old(palette)@),
        tiles@ == simple_map(final(palette)@).tiles(),
        forall|i: int|
            0 <= i < tiles@.len() ==> (#[trigger] tiles@[i]).location.frame
                == WorldLocation::World,
{
    configure_palette(palette);
    let mut mb = MapBuilder::new(palette.clone(), &Location::default());
    basic_house(&mut mb, Ghost(6));
    brick_house(&mut mb, Ghost(26));
    floor(&mut mb, Area { width: 2, height: 6 }, Ghost(46));
    freeze(&mut mb, "walkway", Ghost(46));
    replay(&mut mb, "basic_house", Ghost(46));
    replay(&mut mb, "brick_house", Ghost(46));
    replay(&mut mb, "walkway", Ghost(46));
    replay(&mut mb, "basic_house", Ghost(46));
    mb.set_position(Location::world(16, 0, 3));
    mb.add_tiles(RelativePosition::Below, 1, "item_50".to_owned());
    mb.iter()
}

/// `palette` holds every template that the map is made of.
pub open spec fn stocked(palette: Map<Seq<char>, TileDefinition>) -> bool {
    &&& palette.contains_key("wall"@)
    &&& palette.contains_key("floor"@)
    &&& palette.contains_key("brick"@)
    &&& palette.contains_key("brick_door_closed"@)
    &&& palette.contains_key("locked_door"@)
    &&& palette.contains_key("brick_window"@)
    &&& palette.contains_key("item_50"@)
}

/// `palette` holds the templates that the set-up works on.
pub open spec fn in_stock(palette: Map<Seq<char>, TileDefinition>) -> bool {
    &&& palette.contains_key("wall"@)
    &&& palette.contains_key("floor"@)
    &&& palette.contains_key("brick"@)
    &&& palette.contains_key("brick_door_closed"@)
    &&& palette.contains_key("brick_window"@)
    &&& palette.contains_key("item_50"@)
}

/// Set up, a palette that holds the templates that the set-up works on
/// holds every template that the map is made of: each of them is changed as
/// the set-up says, the locked door is new, and the floor is as it was.
pub proof fn lemma_configured_when_in_stock(palette: Map<Seq<char>, TileDefinition>)
    requires
        in_stock(palette),
    ensures
        stocked(configured(palette)),
        configured(palette).dom() == palette.dom().insert("locked_door"@),
        configured(palette)["wall"@] == hardened(palette["wall"@], FULL_HARDNESS, 200),
        configured(palette)["brick"@] == hardened(palette["brick"@], FULL_HARDNESS, 800),
        configured(palette)["brick_door_closed"@] == acting(
            hardened(palette["brick_door_closed"@], HALF_HARDNESS, 1),
            Interaction::OpenDoor,
        ),
        configured(palette)["locked_door"@] == acting(
            hardened(palette["brick_door_closed"@], HALF_HARDNESS, 1),
            Interaction::UnlockDoor,
        ),
        configured(palette)["brick_window"@] == acting(
            hardened(palette["brick_window"@], HALF_HARDNESS, 1),
            Interaction::BreakWindow,
        ),
        configured(palette)["item_50"@] == acting(palette["item_50"@], Interaction::PickUp),
        configured(palette)["floor"@] == palette["floor"@],
{
    reveal_strlit("wall");
    reveal_strlit("floor");
    reveal_strlit("brick");
    reveal_strlit("brick_door_closed");
    reveal_strlit("locked_door");
    reveal_strlit("brick_window");
    reveal_strlit("item_50");
    assert("brick_door_closed"@.len() == 17 && "locked_door"@.len() == 11);
    assert("brick_window"@.len() == 12 && "item_50"@.len() == 7);
    assert("floor"@[0] != "brick"@[0]);
}

/// The number of tiles of a house: twenty in the ring, and the floor.
pub open spec fn house_size() -> nat {
    56
}

/// On a palette that holds every template, the map has three houses, a
/// walkway and an item; each house is laid out from the origin, five tiles to
/// the right first, and the item lies last, at `(16, 0, 3)`.
pub proof fn lemma_simple_map_when_stocked(palette: Map<Seq<char>, TileDefinition>)
    requires
        stocked(palette),
    ensures
        simple_map(palette).placements.len() == 3 * house_size() + 12 + 1,
        simple_map(palette).tiles().len() == 3 * house_size() + 12 + 1,
        forall|i: int|
            0 <= i < 5 ==> (#[trigger] simple_map(palette).placements[i]) == (Spot {
                location: Location { x: i as i32, y: 0, z: 0, frame: WorldLocation::World },
                tile_name: "wall"@,
            }),
        simple_map(palette).placements[11] == (Spot {
            location: Location { x: 4, y: -5i32, z: 0, frame: WorldLocation::World },
            tile_name: "brick_door_closed"@,
        }),
        simple_map(palette).placements.last() == (Spot {
            location: Location { x: 16, y: 0, z: 3, frame: WorldLocation::World },
            tile_name: "item_50"@,
        }),
{
    reveal_strlit("basic_house");
    reveal_strlit("brick_house");
    reveal_strlit("walkway");
    assert("basic_house"@[1] != "brick_house"@[1]);
    assert("brick_house"@.len() != "walkway"@.len());
    let start = Layout::start(palette, zero());
    let house = with_basic_house(start);
    let brick = with_brick_house(house);
    let walk = with_walkway(brick);
    let basic_records = house.blueprints["basic_house"@];
    let brick_records = brick.blueprints["brick_house"@];
    let walk_records = walk.blueprints["walkway"@];
    lemma_replay_moves_every_record(basic_records, zero(), palette);
    lemma_replay_moves_every_record(brick_records, zero(), palette);
    lemma_replay_moves_every_record(walk_records, zero(), palette);
    lemma_every_placement_is_a_tile(simple_map(palette).placements, palette);
}

} // verus!
