//! Wandering: movers that take a step in a direction drawn at random
//! whenever their timer has run out.

use rand::Rng;
use vstd::prelude::*;
use crate::location::{CardinalDirection, Location, Movement};
use crate::resolver::{Mover, WORLD_TILE_SIZE};
use crate::timer::Timer;

verus! {

/// A mover that wanders, with the timer that says when.
#[derive(Clone, Copy, Debug, PartialEq, Eq, Structural)]
pub struct Wanderer {
    pub mover: Mover,
    pub timer: Timer,
}

/// Draws a number below `bound` with `rand::Rng::gen_range` on the thread's
/// generator. The documentation of `gen_range` promises a value from `low`
/// up to, not including, `high`, and a panic where `low >= high`; `low` is
/// zero here. Which value comes is left open.
#[verifier::external_body]
fn random_below(bound: u32) -> (n: u32)
    requires
        bound > 0,
    ensures
        n < bound,
{
    rand::thread_rng().gen_range(0, bound)
}

/// The number of directions that a wanderer chooses from.
pub const DIRECTIONS: u32 = 5;

/// The direction that the number `n` stands for.
pub open spec fn spec_direction_of(n: u32) -> CardinalDirection {
    if n == 0 {
        CardinalDirection::North
    } else if n == 1 {
        CardinalDirection::South
    } else if n == 2 {
        CardinalDirection::West
    } else if n == 3 {
        CardinalDirection::East
    } else {
        CardinalDirection::Stationary
    }
}

/// The direction that the number `n` stands for.
pub fn direction_of(n: u32) -> (direction: CardinalDirection)
    ensures
        direction == spec_direction_of(n),
{
    if n == 0 {
        CardinalDirection::North
    } else if n == 1 {
        CardinalDirection::South
    } else if n == 2 {
        CardinalDirection::West
    } else if n == 3 {
        CardinalDirection::East
    } else {
        CardinalDirection::Stationary
    }
}

/// `at` moved by one tile in `direction`.
pub open spec fn one_tile_on(at: Location, direction: CardinalDirection) -> Location {
    Location {
        x: (at.x + direction.dx() * WORLD_TILE_SIZE) as i32,
        y: (at.y + direction.dy() * WORLD_TILE_SIZE) as i32,
        ..at
    }
}

/// `wanderer` after a step in `direction`: it stands one tile further, its
/// movement leads from where it stood to where it stands, and its timer
/// starts anew.
pub open spec fn stepped(wanderer: Wanderer, direction: CardinalDirection) -> Wanderer {
    Wanderer {
        mover: Mover {
            position: one_tile_on(wanderer.mover.position, direction),
            movement: Movement {
                from: wanderer.mover.position,
                to: one_tile_on(wanderer.mover.position, direction),
                direction,
            },
        },
        timer: wanderer.timer.restarted(),
    }
}

/// Moves `wanderer` by one tile in `direction` and starts its timer anew.
pub fn step(wanderer: &mut Wanderer, direction: CardinalDirection)
    requires
        old(wanderer).mover.position.in_world(),
    ensures
        *final(wanderer) == stepped(*old(wanderer), direction),
{
    let from = wanderer.mover.position;
    let tile: i32 = WORLD_TILE_SIZE as i32;
    let to = match direction {
        CardinalDirection::West => Location { x: from.x - tile, y: from.y, z: from.z, frame: from.frame },
        CardinalDirection::East => Location { x: from.x + tile, y: from.y, z: from.z, frame: from.frame },
        CardinalDirection::North => Location { x: from.x, y: from.y + tile, z: from.z, frame: from.frame },
        CardinalDirection::South => Location { x: from.x, y: from.y - tile, z: from.z, frame: from.frame },
        CardinalDirection::Stationary => from,
    };
    wanderer.mover.position = to;
    wanderer.mover.movement = Movement { from, to, direction };
    wanderer.timer.reset();
}

/// `after` is `before` left alone, where its timer is not finished, or
/// `before` after a step in some direction.
pub open spec fn wandered(before: Wanderer, after: Wanderer) -> bool {
    if before.timer.finished {
        exists|n: u32| n < DIRECTIONS && after == stepped(before, #[trigger] spec_direction_of(n))
    } else {
        after == before
    }
}

/// Lets every wanderer whose timer is finished take one step, each in a
/// direction drawn at random.
pub fn npc_move_system(wanderers: &mut Vec<Wanderer>)
    requires
        forall|i: int|
            0 <= i < old(wanderers)@.len() && old(wanderers)@[i].timer.finished ==> (
            #[trigger] old(wanderers)@[i]).mover.position.in_world(),
    ensures
        final(wanderers)@.len() == old(wanderers)@.len(),
        forall|i: int|
            0 <= i < old(wanderers)@.len() ==> wandered(
                old(wanderers)@[i],
                #[trigger] final(wanderers)@[i],
            ),
{
    let mut i: usize = 0;
    while i < wanderers.len()
        invariant
            i <= wanderers@.len(),
            wanderers@.len() == old(wanderers)@.len(),
            forall|k: int| 0 <= k < i ==> wandered(old(wanderers)@[k], #[trigger] wanderers@[k]),
            forall|k: int| i <= k < wanderers@.len() ==> wanderers@[k] == old(wanderers)@[k],
            forall|k: int|
                0 <= k < old(wanderers)@.len() && old(wanderers)@[k].timer.finished ==> (
                #[trigger] old(wanderers)@[k]).mover.position.in_world(),
        decreases wanderers@.len() - i,
    {
        let mut wanderer = wanderers[i];
        if wanderer.timer.finished {
            let n = random_below(DIRECTIONS);
            step(&mut wanderer, direction_of(n));
            wanderers[i] = wanderer;
        }
        i = i + 1;
    }
}

} // verus!
