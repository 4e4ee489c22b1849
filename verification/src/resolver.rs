//! The movement resolver: once per tick it holds the movers that have moved
//! against the hard tiles and against the things that can be pushed.
//!
//! Places are whole world units here. A mover and a tile are `WORLD_TILE_SIZE`
//! wide and high, a thing that can be pushed `PUSHABLE_SIZE`.

use vstd::prelude::*;
use crate::collision::{boxes_meet, collide, collide_spec, Collision};
use crate::interaction::is_handed_item;
use crate::inventory::{Inventory, Item};
use crate::location::{Area, CardinalDirection, Location, Movement};
use crate::palette::TilePalette;
use crate::tile::{Interaction, TileInstance};

verus! {

/// The width and height of a tile and of a mover, in world units.
pub const WORLD_TILE_SIZE: u32 = 48;

/// The width and height of a thing that can be pushed, in world units.
pub const PUSHABLE_SIZE: u32 = 32;

/// Something that moves by itself: where it is now, and how it got there.
#[derive(Clone, Copy, Debug, PartialEq, Eq, Structural)]
pub struct Mover {
    pub position: Location,
    pub movement: Movement,
}

/// The player: a mover who carries things.
#[derive(Debug)]
pub struct Player {
    pub position: Location,
    pub movement: Movement,
    pub inventory: Inventory,
}

/// What holding the player against the tiles leaves behind.
pub struct Pass {
    /// Where the player is.
    pub position: Location,
    /// The tiles, each in its place in the order.
    pub tiles: Seq<TileInstance>,
    /// The number of items that the player carries.
    pub carried: nat,
    /// The number of interactions that were invoked.
    pub hits: nat,
}

/// The footprint of a tile and of a mover.
pub open spec fn tile_area() -> Area {
    Area { width: WORLD_TILE_SIZE, height: WORLD_TILE_SIZE }
}

/// The footprint of a thing that can be pushed.
pub open spec fn pushable_area() -> Area {
    Area { width: PUSHABLE_SIZE, height: PUSHABLE_SIZE }
}

/// `position` taken back to where `movement` began; the height stays.
pub open spec fn rolled_back(position: Location, movement: Movement) -> Location {
    Location { x: movement.from.x, y: movement.from.y, ..position }
}

/// `tile` is hard and a mover at `position` meets it.
pub open spec fn blocks(tile: TileInstance, position: Location) -> bool {
    tile.is_hard() && boxes_meet(position, tile_area(), tile.location, tile_area())
}

/// Some tile of `tiles` blocks a mover at `position`.
pub open spec fn any_blocks(tiles: Seq<TileInstance>, position: Location) -> bool {
    exists|k: int| 0 <= k < tiles.len() && blocks(#[trigger] tiles[k], position)
}

/// Whether `tile` blocks a mover at `position`.
pub fn is_blocked_by(tile: &TileInstance, position: &Location) -> (blocked: bool)
    ensures
        blocked == blocks(*tile, *position),
{
    if tile.hardness == 0 {
        return false;
    }
    let size = Area { width: WORLD_TILE_SIZE, height: WORLD_TILE_SIZE };
    collide(position, &size, &tile.location, &size).is_some()
}

/// Holds a mover other than the player against the hard tiles: where any
/// hard tile meets it, it is taken back to where its movement began.
pub fn resolve_non_player(mover: &mut Mover, tiles: &Vec<TileInstance>)
    ensures
        final(mover).movement == old(mover).movement,
        final(mover).position == if any_blocks(tiles@, old(mover).position) {
            rolled_back(old(mover).position, old(mover).movement)
        } else {
            old(mover).position
        },
{
    let ghost start = mover.position;
    let ghost back = rolled_back(mover.position, mover.movement);
    let mut i: usize = 0;
    while i < tiles.len()
        invariant
            i <= tiles@.len(),
            mover.movement == old(mover).movement,
            start == old(mover).position,
            back == rolled_back(start, mover.movement),
            mover.position == if any_blocks(tiles@.take(i as int), start) {
                back
            } else {
                start
            },
        decreases tiles@.len() - i,
    {
        if is_blocked_by(&tiles[i], &mover.position) {
            mover.position.x = mover.movement.from.x;
            mover.position.y = mover.movement.from.y;
        }
        proof {
            lemma_any_blocks_grows(tiles@.take(i + 1), start);
        }
        i = i + 1;
    }
    assert(tiles@.take(i as int) =~= tiles@);
}

/// Where a thing at `at` is pushed to by a player who met it on `side` and
/// whose last movement was `movement`: a tile's width beyond the place that
/// the player moved to, away from the side that was met; for the side
/// `Unknown`, along the direction of the movement.
pub open spec fn pushed(at: Location, side: Collision, movement: Movement) -> Location {
    match side {
        Collision::Left => Location { x: (movement.to.x + WORLD_TILE_SIZE) as i32, ..at },
        Collision::Right => Location { x: (movement.to.x - WORLD_TILE_SIZE) as i32, ..at },
        Collision::Top => Location { y: (movement.to.y - WORLD_TILE_SIZE) as i32, ..at },
        Collision::Bottom => Location { y: (movement.to.y + WORLD_TILE_SIZE) as i32, ..at },
        Collision::Unknown => match movement.direction {
            CardinalDirection::East => Location {
                x: (movement.to.x + WORLD_TILE_SIZE) as i32,
                ..at
            },
            CardinalDirection::West => Location {
                x: (movement.to.x - WORLD_TILE_SIZE) as i32,
                ..at
            },
            CardinalDirection::South => Location {
                y: (movement.to.y - WORLD_TILE_SIZE) as i32,
                ..at
            },
            CardinalDirection::North => Location {
                y: (movement.to.y + WORLD_TILE_SIZE) as i32,
                ..at
            },
            CardinalDirection::Stationary => at,
        },
    }
}

/// Where a thing at `at` is after a player at `player`, whose last movement
/// was `movement`, has been held against it.
pub open spec fn after_push(at: Location, player: Location, movement: Movement) -> Location {
    match collide_spec(player, tile_area(), at, pushable_area()) {
        Some(side) => pushed(at, side, movement),
        None => at,
    }
}

/// Pushes the thing at `at`, met on `side`.
pub fn push(at: &Location, side: Collision, movement: &Movement) -> (to: Location)
    requires
        movement.to.in_world(),
    ensures
        to == pushed(*at, side, *movement),
{
    let step: i32 = WORLD_TILE_SIZE as i32;
    let right = Location { x: movement.to.x + step, y: at.y, z: at.z, frame: at.frame };
    let left = Location { x: movement.to.x - step, y: at.y, z: at.z, frame: at.frame };
    let up = Location { x: at.x, y: movement.to.y + step, z: at.z, frame: at.frame };
    let down = Location { x: at.x, y: movement.to.y - step, z: at.z, frame: at.frame };
    match side {
        Collision::Left => right,
        Collision::Right => left,
        Collision::Top => down,
        Collision::Bottom => up,
        Collision::Unknown => match movement.direction {
            CardinalDirection::East => right,
            CardinalDirection::West => left,
            CardinalDirection::South => down,
            CardinalDirection::North => up,
            CardinalDirection::Stationary => *at,
        },
    }
}

/// Holds the player against the things that can be pushed: each one that the
/// player meets is pushed; the others stay.
pub fn push_objects(player: &Mover, pushables: &mut Vec<Location>)
    requires
        player.movement.to.in_world(),
    ensures
        final(pushables)@.len() == old(pushables)@.len(),
        forall|i: int|
            0 <= i < old(pushables)@.len() ==> #[trigger] final(pushables)@[i] == after_push(
                old(pushables)@[i],
                player.position,
                player.movement,
            ),
{
    let mover_size = Area { width: WORLD_TILE_SIZE, height: WORLD_TILE_SIZE };
    let pushable_size = Area { width: PUSHABLE_SIZE, height: PUSHABLE_SIZE };
    let mut i: usize = 0;
    while i < pushables.len()
        invariant
            i <= pushables@.len(),
            pushables@.len() == old(pushables)@.len(),
            player.movement.to.in_world(),
            mover_size == tile_area(),
            pushable_size == pushable_area(),
            forall|k: int|
                0 <= k < i ==> #[trigger] pushables@[k] == after_push(
                    old(pushables)@[k],
                    player.position,
                    player.movement,
                ),
            forall|k: int| i <= k < pushables@.len() ==> pushables@[k] == old(pushables)@[k],
        decreases pushables@.len() - i,
    {
        let at = pushables[i];
        match collide(&player.position, &mover_size, &at, &pushable_size) {
            Some(side) => {
                let to = push(&at, side, &player.movement);
                pushables[i] = to;
            },
            None => {},
        }
        i = i + 1;
    }
}

/// Holding a player at `start`, who carries `carried` items and whose last
/// movement was `movement`, against `tiles` in order. A hard tile that meets
/// the player where the player is by then has its interaction invoked, and
/// takes the player back to where the movement began, whatever the
/// interaction answers; an item tile hands the player one more item.
pub open spec fn player_pass(
    start: Location,
    movement: Movement,
    tiles: Seq<TileInstance>,
    palette: &TilePalette,
    carried: nat,
) -> Pass
    decreases tiles.len(),
{
    if tiles.len() == 0 {
        Pass { position: start, tiles: Seq::empty(), carried, hits: 0 }
    } else {
        let before = player_pass(start, movement, tiles.drop_last(), palette, carried);
        let tile = tiles.last();
        if blocks(tile, before.position) {
            Pass {
                position: rolled_back(start, movement),
                tiles: before.tiles.push(tile.after_trigger(Some(palette), before.carried > 0)),
                carried: if tile.interaction == Interaction::PickUp {
                    before.carried + 1
                } else {
                    before.carried
                },
                hits: before.hits + 1,
            }
        } else {
            Pass { tiles: before.tiles.push(tile), ..before }
        }
    }
}

/// `camera` centred on `position`; the height stays.
pub open spec fn following(camera: Location, position: Location) -> Location {
    Location { x: position.x, y: position.y, ..camera }
}

/// `after` holds `before` and, behind it, `added` items that tiles handed out.
pub open spec fn picked_up(before: Seq<Item>, after: Seq<Item>, added: int) -> bool {
    &&& after.len() == before.len() + added
    &&& after.take(before.len() as int) == before
    &&& forall|j: int| before.len() <= j < after.len() ==> is_handed_item(#[trigger] after[j])
}

/// Holds the player against the tiles, in order, and returns the number of
/// interactions that were invoked.
pub fn resolve_player(player: &mut Player, tiles: &mut Vec<TileInstance>, palette: &TilePalette) -> (hits:
    usize)
    requires
        palette.wf(),
    ensures
        final(player).movement == old(player).movement,
        ({
            let pass = player_pass(
                old(player).position,
                old(player).movement,
                old(tiles)@,
                palette,
                old(player).inventory.items@.len(),
            );
            &&& final(player).position == pass.position
            &&& final(tiles)@ == pass.tiles
            &&& hits == pass.hits
            &&& picked_up(
                old(player).inventory.items@,
                final(player).inventory.items@,
                pass.carried - old(player).inventory.items@.len(),
            )
        }),
{
    let ghost start = player.position;
    let ghost movement = player.movement;
    let ghost carried = player.inventory.items@.len();
    let mut hits: usize = 0;
    let mut i: usize = 0;
    assert(player.inventory.items@.take(carried as int) =~= player.inventory.items@);
    while i < tiles.len()
        invariant
            i <= tiles@.len(),
            tiles@.len() == old(tiles)@.len(),
            palette.wf(),
            hits <= i,
            player.movement == movement,
            start == old(player).position,
            movement == old(player).movement,
            carried == old(player).inventory.items@.len(),
            tiles@.skip(i as int) == old(tiles)@.skip(i as int),
            ({
                let pass = player_pass(start, movement, old(tiles)@.take(i as int), palette, carried);
                &&& player.position == pass.position
                &&& tiles@.take(i as int) == pass.tiles
                &&& hits == pass.hits
                &&& picked_up(
                    old(player).inventory.items@,
                    player.inventory.items@,
                    pass.carried - carried,
                )
            }),
        decreases tiles@.len() - i,
    {
        let ghost seen = old(tiles)@.take(i as int);
        let ghost items_before = player.inventory.items@;
        let mut tile = tiles[i];
        proof {
            assert(old(tiles)@.take(i + 1).drop_last() =~= seen);
            assert(tiles@.skip(i as int)[0] == old(tiles)@.skip(i as int)[0]);
            lemma_player_is_rolled_back(start, movement, seen, palette, carried);
        }
        if is_blocked_by(&tile, &player.position) {
            let result = tile.trigger(palette, Some(&mut player.inventory));
            tiles[i] = tile;
            player.position.x = player.movement.from.x;
            player.position.y = player.movement.from.y;
            hits = hits + 1;
            proof {
                assert(player.inventory.items@.take(carried as int) =~= items_before.take(
                    carried as int,
                ));
            }
        }
        proof {
            assert(old(tiles)@.skip(i + 1) =~= old(tiles)@.skip(i as int).skip(1));
        }
        i = i + 1;
    }
    assert(old(tiles)@.take(i as int) =~= old(tiles)@);
    hits
}

/// One tick of the resolver.
///
/// Each of `non_players` is held against the hard tiles by itself. The
/// player, if there is one, is held first against `pushables`, then against
/// `tiles`; where no interaction was invoked, `camera` is centred on the
/// player. Returns the number of interactions that were invoked.
pub fn collision_detection_system(
    non_players: &mut Vec<Mover>,
    player: Option<&mut Player>,
    pushables: &mut Vec<Location>,
    tiles: &mut Vec<TileInstance>,
    camera: &mut Location,
    palette: &TilePalette,
) -> (hits: usize)
    requires
        palette.wf(),
        player matches Some(p) ==> p.movement.to.in_world(),
    ensures
        final(non_players)@.len() == old(non_players)@.len(),
        forall|i: int|
            0 <= i < old(non_players)@.len() ==> {
                let before = old(non_players)@[i];
                let after = #[trigger] final(non_players)@[i];
                &&& after.movement == before.movement
                &&& after.position == if any_blocks(old(tiles)@, before.position) {
                    rolled_back(before.position, before.movement)
                } else {
                    before.position
                }
            },
        match player {
            Some(p) => {
                let pass = player_pass(
                    p.position,
                    p.movement,
                    old(tiles)@,
                    palette,
                    p.inventory.items@.len(),
                );
                &&& final(p).movement == p.movement
                &&& final(p).position == pass.position
                &&& final(tiles)@ == pass.tiles
                &&& hits == pass.hits
                &&& picked_up(
                    p.inventory.items@,
                    final(p).inventory.items@,
                    pass.carried - p.inventory.items@.len(),
                )
                &&& final(pushables)@.len() == old(pushables)@.len()
                &&& forall|i: int|
                    0 <= i < old(pushables)@.len() ==> #[trigger] final(pushables)@[i]
                        == after_push(old(pushables)@[i], p.position, p.movement)
                &&& *final(camera) == if pass.hits == 0 {
                    following(*old(camera), pass.position)
                } else {
                    *old(camera)
                }
            },
            None => {
                &&& hits == 0
                &&& *final(tiles) == *old(tiles)
                &&& *final(pushables) == *old(pushables)
                &&& *final(camera) == *old(camera)
            },
        },
{
    let mut i: usize = 0;
    while i < non_players.len()
        invariant
            i <= non_players@.len(),
            non_players@.len() == old(non_players)@.len(),
            *tiles == *old(tiles),
            forall|k: int|
                0 <= k < i ==> {
                    let before = old(non_players)@[k];
                    let after = #[trigger] non_players@[k];
                    &&& after.movement == before.movement
                    &&& after.position == if any_blocks(tiles@, before.position) {
                        rolled_back(before.position, before.movement)
                    } else {
                        before.position
                    }
                },
            forall|k: int| i <= k < non_players@.len() ==> non_players@[k] == old(non_players)@[k],
        decreases non_players@.len() - i,
    {
        let mut mover = non_players[i];
        resolve_non_player(&mut mover, tiles);
        non_players[i] = mover;
        i = i + 1;
    }
    match player {
        Some(p) => {
            let at_push = Mover { position: p.position, movement: p.movement };
            push_objects(&at_push, pushables);
            let hits = resolve_player(p, tiles, palette);
            if hits == 0 {
                camera.x = p.position.x;
                camera.y = p.position.y;
            }
            hits
        },
        None => 0,
    }
}

/// The player ends where the movement began if a hard tile meets the place
/// that the player moved to, and stays there if none does.
pub proof fn lemma_player_is_rolled_back(
    start: Location,
    movement: Movement,
    tiles: Seq<TileInstance>,
    palette: &TilePalette,
    carried: nat,
)
    ensures
        player_pass(start, movement, tiles, palette, carried).position == if any_blocks(
            tiles,
            start,
        ) {
            rolled_back(start, movement)
        } else {
            start
        },
        player_pass(start, movement, tiles, palette, carried).hits == 0 <==> !any_blocks(
            tiles,
            start,
        ),
        player_pass(start, movement, tiles, palette, carried).tiles.len() == tiles.len(),
        player_pass(start, movement, tiles, palette, carried).hits <= tiles.len(),
        player_pass(start, movement, tiles, palette, carried).carried >= carried,
    decreases tiles.len(),
{
    if tiles.len() > 0 {
        lemma_player_is_rolled_back(start, movement, tiles.drop_last(), palette, carried);
        lemma_any_blocks_grows(tiles, start);
    }
}

/// A tile blocks among `tiles` if the last one blocks or one before it does.
proof fn lemma_any_blocks_grows(tiles: Seq<TileInstance>, position: Location)
    requires
        tiles.len() > 0,
    ensures
        any_blocks(tiles, position) <==> any_blocks(tiles.drop_last(), position) || blocks(
            tiles.last(),
            position,
        ),
{
    let seen = tiles.drop_last();
    if any_blocks(tiles, position) {
        let k = choose|k: int| 0 <= k < tiles.len() && blocks(#[trigger] tiles[k], position);
        if k < seen.len() {
            assert(blocks(seen[k], position));
        }
    }
}

/// A tile that is passable, or that the player meets neither at the place
/// moved to nor at the place where the movement began, is left as it was.
pub proof fn lemma_unmet_tile_is_untouched(
    start: Location,
    movement: Movement,
    tiles: Seq<TileInstance>,
    palette: &TilePalette,
    carried: nat,
    k: int,
)
    requires
        0 <= k < tiles.len(),
        !blocks(tiles[k], start),
        !blocks(tiles[k], rolled_back(start, movement)),
    ensures
        player_pass(start, movement, tiles, palette, carried).tiles.len() == tiles.len(),
        player_pass(start, movement, tiles, palette, carried).tiles[k] == tiles[k],
    decreases tiles.len(),
{
    let seen = tiles.drop_last();
    lemma_player_is_rolled_back(start, movement, seen, palette, carried);
    if k < tiles.len() - 1 {
        lemma_unmet_tile_is_untouched(start, movement, seen, palette, carried, k);
    }
}

} // verus!
