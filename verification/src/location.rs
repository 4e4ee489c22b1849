//! Places, footprints and directions.

use vstd::prelude::*;

verus! {

/// The frame that a location is measured in.
#[derive(Clone, Copy, Debug, PartialEq, Eq, Structural)]
pub enum WorldLocation {
    /// Absolute.
    World,
    /// Relative to an origin that is fixed elsewhere.
    Local,
}

/// A point of the world, or an offset from an origin.
#[derive(Clone, Copy, Debug, PartialEq, Eq, Structural)]
pub struct Location {
    pub x: i32,
    pub y: i32,
    pub z: i32,
    pub frame: WorldLocation,
}

/// A rectangular footprint.
#[derive(Clone, Copy, Debug, PartialEq, Eq, Structural)]
pub struct Area {
    pub width: u32,
    pub height: u32,
}

/// The direction in which a run of tiles grows.
#[derive(Clone, Copy, Debug, PartialEq, Eq, Structural)]
pub enum RelativePosition {
    RightOf,
    LeftOf,
    Above,
    Below,
}

/// The direction of a displacement.
#[derive(Clone, Copy, Debug, PartialEq, Eq, Structural)]
pub enum CardinalDirection {
    North,
    South,
    East,
    West,
    Stationary,
}

/// The last displacement of a mover.
#[derive(Clone, Copy, Debug, PartialEq, Eq, Structural)]
pub struct Movement {
    pub from: Location,
    pub to: Location,
    pub direction: CardinalDirection,
}

/// The largest magnitude of a coordinate of the world. The difference of two
/// coordinates of the world is a coordinate again.
pub const WORLD_LIMIT: i32 = 536_870_912;

/// `v` is a coordinate of the world.
pub open spec fn in_bounds(v: int) -> bool {
    -WORLD_LIMIT <= v <= WORLD_LIMIT
}

/// `v` is a value of `i32`.
pub open spec fn fits_i32(v: int) -> bool {
    i32::MIN <= v <= i32::MAX
}

impl RelativePosition {
    /// The horizontal step of one tile in this direction.
    pub open spec fn dx(self) -> int {
        match self {
            RelativePosition::RightOf => 1,
            RelativePosition::LeftOf => -1,
            _ => 0,
        }
    }

    /// The vertical step of one tile in this direction.
    pub open spec fn dy(self) -> int {
        match self {
            RelativePosition::Above => 1,
            RelativePosition::Below => -1,
            _ => 0,
        }
    }
}

impl CardinalDirection {
    /// The horizontal component of a unit step in this direction.
    pub open spec fn dx(self) -> int {
        match self {
            CardinalDirection::East => 1,
            CardinalDirection::West => -1,
            _ => 0,
        }
    }

    /// The vertical component of a unit step in this direction.
    pub open spec fn dy(self) -> int {
        match self {
            CardinalDirection::North => 1,
            CardinalDirection::South => -1,
            _ => 0,
        }
    }
}

impl Location {
    /// The absolute location with the given coordinates.
    pub fn world(x: i32, y: i32, z: i32) -> (loc: Location)
        ensures
            loc == (Location { x, y, z, frame: WorldLocation::World }),
    {
        Location { x, y, z, frame: WorldLocation::World }
    }

    /// The relative location with the given coordinates.
    pub fn local(x: i32, y: i32, z: i32) -> (loc: Location)
        ensures
            loc == (Location { x, y, z, frame: WorldLocation::Local }),
    {
        Location { x, y, z, frame: WorldLocation::Local }
    }

    /// This location moved by `(dx, dy, dz)` is a location again.
    pub open spec fn can_shift(self, dx: int, dy: int, dz: int) -> bool {
        fits_i32(self.x + dx) && fits_i32(self.y + dy) && fits_i32(self.z + dz)
    }

    /// This location moved by `(dx, dy, dz)`, in the given frame.
    pub open spec fn shifted(self, dx: int, dy: int, dz: int, frame: WorldLocation) -> Location {
        Location { x: (self.x + dx) as i32, y: (self.y + dy) as i32, z: (self.z + dz) as i32, frame }
    }

    /// Every coordinate lies within the world.
    pub open spec fn in_world(self) -> bool {
        in_bounds(self.x as int) && in_bounds(self.y as int) && in_bounds(self.z as int)
    }

    /// This location moved by `(dx, dy, dz)` lies within the world.
    pub open spec fn lands_in_world(self, dx: int, dy: int, dz: int) -> bool {
        in_bounds(self.x + dx) && in_bounds(self.y + dy) && in_bounds(self.z + dz)
    }

    /// This location after `steps` steps of one unit in `direction`.
    pub open spec fn stepped(self, direction: RelativePosition, steps: int) -> Location {
        match direction {
            RelativePosition::RightOf => Location { x: (self.x + steps) as i32, ..self },
            RelativePosition::LeftOf => Location { x: (self.x - steps) as i32, ..self },
            RelativePosition::Above => Location { y: (self.y + steps) as i32, ..self },
            RelativePosition::Below => Location { y: (self.y - steps) as i32, ..self },
        }
    }

    /// `steps` steps of one unit in `direction` end within the world.
    pub open spec fn can_step(self, direction: RelativePosition, steps: int) -> bool {
        match direction {
            RelativePosition::RightOf => in_bounds(self.x + steps),
            RelativePosition::LeftOf => in_bounds(self.x - steps),
            RelativePosition::Above => in_bounds(self.y + steps),
            RelativePosition::Below => in_bounds(self.y - steps),
        }
    }

    /// Whether every coordinate lies within the world.
    pub fn is_in_world(&self) -> (inside: bool)
        ensures
            inside == self.in_world(),
    {
        -WORLD_LIMIT <= self.x && self.x <= WORLD_LIMIT && -WORLD_LIMIT <= self.y && self.y
            <= WORLD_LIMIT && -WORLD_LIMIT <= self.z && self.z <= WORLD_LIMIT
    }

    /// Whether this location moved by `by` lies within the world.
    pub fn fits_shift(&self, by: &Location) -> (fits: bool)
        ensures
            fits == self.lands_in_world(by.x as int, by.y as int, by.z as int),
    {
        let limit: i64 = WORLD_LIMIT as i64;
        let x: i64 = self.x as i64 + by.x as i64;
        let y: i64 = self.y as i64 + by.y as i64;
        let z: i64 = self.z as i64 + by.z as i64;
        -limit <= x && x <= limit && -limit <= y && y <= limit && -limit <= z && z <= limit
    }

    /// Whether `steps` steps of one unit in `direction` end within the world.
    pub fn fits_steps(&self, direction: RelativePosition, steps: u32) -> (fits: bool)
        ensures
            fits == self.can_step(direction, steps as int),
    {
        let limit: i64 = WORLD_LIMIT as i64;
        let end: i64 = match direction {
            RelativePosition::RightOf => self.x as i64 + steps as i64,
            RelativePosition::LeftOf => self.x as i64 - steps as i64,
            RelativePosition::Above => self.y as i64 + steps as i64,
            RelativePosition::Below => self.y as i64 - steps as i64,
        };
        -limit <= end && end <= limit
    }

    /// Takes `steps` steps of one unit in `direction`.
    pub fn step(&self, direction: RelativePosition, steps: u32) -> (loc: Location)
        requires
            self.can_step(direction, steps as int),
        ensures
            loc == self.stepped(direction, steps as int),
            self.in_world() ==> loc.in_world(),
    {
        let end: i64 = match direction {
            RelativePosition::RightOf => self.x as i64 + steps as i64,
            RelativePosition::LeftOf => self.x as i64 - steps as i64,
            RelativePosition::Above => self.y as i64 + steps as i64,
            RelativePosition::Below => self.y as i64 - steps as i64,
        };
        match direction {
            RelativePosition::RightOf | RelativePosition::LeftOf => Location {
                x: end as i32,
                y: self.y,
                z: self.z,
                frame: self.frame,
            },
            RelativePosition::Above | RelativePosition::Below => Location {
                x: self.x,
                y: end as i32,
                z: self.z,
                frame: self.frame,
            },
        }
    }

    /// This offset, taken from `origin`: an absolute location.
    pub open spec fn spec_placed_at(self, origin: Location) -> Location {
        self.shifted(origin.x as int, origin.y as int, origin.z as int, WorldLocation::World)
    }

    /// This location as an offset from `origin`.
    pub open spec fn spec_relative_to(self, origin: Location) -> Location {
        self.shifted(-origin.x, -origin.y, -origin.z, WorldLocation::Local)
    }

    /// The absolute location that this one names for a reader standing at
    /// `origin`: itself where it is absolute, else `origin` moved by it.
    pub open spec fn spec_resolve(self, origin: Location) -> Location {
        match self.frame {
            WorldLocation::World => self,
            WorldLocation::Local => self.spec_placed_at(origin),
        }
    }

    /// Adds `origin` to this offset.
    pub fn placed_at(&self, origin: &Location) -> (loc: Location)
        requires
            self.can_shift(origin.x as int, origin.y as int, origin.z as int),
        ensures
            loc == self.spec_placed_at(*origin),
            loc.x == self.x + origin.x,
            loc.y == self.y + origin.y,
            loc.z == self.z + origin.z,
            loc.frame == WorldLocation::World,
    {
        Location {
            x: self.x + origin.x,
            y: self.y + origin.y,
            z: self.z + origin.z,
            frame: WorldLocation::World,
        }
    }

    /// Subtracts `origin` from this location.
    pub fn relative_to(&self, origin: &Location) -> (loc: Location)
        requires
            self.can_shift(-origin.x, -origin.y, -origin.z),
        ensures
            loc == self.spec_relative_to(*origin),
            loc.x == self.x - origin.x,
            loc.y == self.y - origin.y,
            loc.z == self.z - origin.z,
            loc.frame == WorldLocation::Local,
    {
        Location {
            x: self.x - origin.x,
            y: self.y - origin.y,
            z: self.z - origin.z,
            frame: WorldLocation::Local,
        }
    }

    /// Resolves this location against `origin`.
    pub fn resolve(&self, origin: &Location) -> (loc: Location)
        requires
            self.frame == WorldLocation::Local ==> self.can_shift(
                origin.x as int,
                origin.y as int,
                origin.z as int,
            ),
        ensures
            loc == self.spec_resolve(*origin),
            loc.frame == WorldLocation::World,
    {
        match self.frame {
            WorldLocation::World => *self,
            WorldLocation::Local => self.placed_at(origin),
        }
    }
}

impl Default for Location {
    /// The absolute origin.
    fn default() -> (loc: Location)
        ensures
            loc == (Location { x: 0, y: 0, z: 0, frame: WorldLocation::World }),
    {
        Location { x: 0, y: 0, z: 0, frame: WorldLocation::World }
    }
}

impl Movement {
    /// The movement of something that rests at `at`.
    pub fn at_rest(at: Location) -> (m: Movement)
        ensures
            m == (Movement { from: at, to: at, direction: CardinalDirection::Stationary }),
    {
        Movement { from: at, to: at, direction: CardinalDirection::Stationary }
    }
}

} // verus!
