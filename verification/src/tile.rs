//! Tiles: their kinds, their templates, and the palette of templates.

use vstd::prelude::*;
use crate::location::Location;

verus! {

/// Hardness is counted in thousandths: this is the hardness of a wall.
pub const FULL_HARDNESS: u32 = 1000;

/// The hardness of a door or a window that gives way.
pub const HALF_HARDNESS: u32 = 500;

/// The family of a tile.
#[derive(Clone, Copy, Debug, PartialEq, Eq, Structural)]
pub enum TileType {
    Wall,
    Brick,
    BrickDoorOpen,
    BrickDoorClosed,
    BrickWindow,
    BrickWindowBroken,
    Floor,
    Lava,
    Bar,
    Grass,
    Chair,
    Shelf,
    Bed,
    Table,
    Fridge,
    Key,
}

/// The attributes of a tile that an interaction may replace.
#[derive(Clone, Copy, Debug, PartialEq, Eq, Structural)]
pub struct TileAttributes {
    /// Zero for a passable tile; any positive value blocks.
    pub hardness: u32,
    pub hit_points: u32,
    pub sprite_index: Option<u32>,
}

/// What a tile does when something acts on it or moves into it.
#[derive(Clone, Copy, Debug, PartialEq, Eq, Structural)]
pub enum Interaction {
    /// Nothing.
    Inert,
    /// A closed door opens.
    OpenDoor,
    /// A locked door opens for whoever carries something.
    UnlockDoor,
    /// A window breaks.
    BreakWindow,
    /// An item is handed out.
    PickUp,
}

/// A named cell of a sprite atlas.
#[derive(Debug)]
pub struct Sprite {
    pub name: String,
    pub atlas_sprite: u32,
}

/// The template of a tile, as the palette holds it.
#[derive(Debug)]
pub struct TileDefinition {
    pub name: String,
    pub tile_type: TileType,
    /// Zero for a passable tile; any positive value blocks.
    pub hardness: u32,
    pub tile_attributes: TileAttributes,
    pub interaction: Interaction,
    pub sprite: Sprite,
    pub description: String,
}

/// A tile of the world.
#[derive(Clone, Copy, Debug, PartialEq, Eq, Structural)]
pub struct TileInstance {
    pub tile_type: TileType,
    /// Zero for a passable tile; any positive value blocks.
    pub hardness: u32,
    pub location: Location,
    pub interaction: Interaction,
    pub attributes: TileAttributes,
    pub sprite: u32,
}

impl TileType {
    /// The name under which the sprite of this family is filed.
    pub open spec fn spec_sprite_name(self) -> Seq<char> {
        match self {
            TileType::Wall => "wall"@,
            TileType::Brick => "brick"@,
            TileType::BrickDoorOpen => "brick_door_open"@,
            TileType::BrickDoorClosed => "brick_door_closed"@,
            TileType::BrickWindow => "brick_window"@,
            TileType::BrickWindowBroken => "brick_window_broken"@,
            TileType::Chair => "chair"@,
            TileType::Shelf => "shelf"@,
            TileType::Bed => "bed"@,
            TileType::Table => "table"@,
            TileType::Fridge => "fridge"@,
            TileType::Floor | TileType::Lava | TileType::Bar | TileType::Grass | TileType::Key
                => "floor"@,
        }
    }

    /// The name under which the sprite of this family is filed.
    pub fn sprite_name(&self) -> (name: &'static str)
        ensures
            name@ == self.spec_sprite_name(),
    {
        match self {
            TileType::Wall => "wall",
            TileType::Brick => "brick",
            TileType::BrickDoorOpen => "brick_door_open",
            TileType::BrickDoorClosed => "brick_door_closed",
            TileType::BrickWindow => "brick_window",
            TileType::BrickWindowBroken => "brick_window_broken",
            TileType::Chair => "chair",
            TileType::Shelf => "shelf",
            TileType::Bed => "bed",
            TileType::Table => "table",
            TileType::Fridge => "fridge",
            TileType::Floor | TileType::Lava | TileType::Bar | TileType::Grass | TileType::Key
                => "floor",
        }
    }
}

impl Default for TileAttributes {
    /// A passable tile without hit points or sprite.
    fn default() -> (attributes: TileAttributes)
        ensures
            attributes == (TileAttributes { hardness: 0, hit_points: 0, sprite_index: None }),
    {
        TileAttributes { hardness: 0, hit_points: 0, sprite_index: None }
    }
}

impl Interaction {
    /// The family that a tile with this interaction turns into, if any.
    pub open spec fn spec_target(self) -> Option<TileType> {
        match self {
            Interaction::OpenDoor | Interaction::UnlockDoor => Some(TileType::BrickDoorOpen),
            Interaction::BreakWindow => Some(TileType::BrickWindowBroken),
            Interaction::Inert | Interaction::PickUp => None,
        }
    }

    /// The family that a tile with this interaction turns into, if any.
    pub fn target(&self) -> (target: Option<TileType>)
        ensures
            target == self.spec_target(),
    {
        match self {
            Interaction::OpenDoor | Interaction::UnlockDoor => Some(TileType::BrickDoorOpen),
            Interaction::BreakWindow => Some(TileType::BrickWindowBroken),
            Interaction::Inert | Interaction::PickUp => None,
        }
    }

    /// What the interaction is called.
    pub open spec fn spec_description(self) -> Seq<char> {
        match self {
            Interaction::Inert => ""@,
            Interaction::OpenDoor | Interaction::UnlockDoor => "Open Door"@,
            Interaction::BreakWindow => "Break Window"@,
            Interaction::PickUp => "Get Item"@,
        }
    }

    /// What the interaction is called.
    pub fn description(&self) -> (text: &'static str)
        ensures
            text@ == self.spec_description(),
    {
        match self {
            Interaction::Inert => "",
            Interaction::OpenDoor | Interaction::UnlockDoor => "Open Door",
            Interaction::BreakWindow => "Break Window",
            Interaction::PickUp => "Get Item",
        }
    }
}

impl Clone for Sprite {
    fn clone(&self) -> (copy: Sprite)
        ensures
            copy == *self,
    {
        Sprite { name: self.name.clone(), atlas_sprite: self.atlas_sprite }
    }
}

impl Clone for TileDefinition {
    fn clone(&self) -> (copy: TileDefinition)
        ensures
            copy == *self,
    {
        TileDefinition {
            name: self.name.clone(),
            tile_type: self.tile_type,
            hardness: self.hardness,
            tile_attributes: self.tile_attributes,
            interaction: self.interaction,
            sprite: self.sprite.clone(),
            description: self.description.clone(),
        }
    }
}

impl TileDefinition {
    /// The tile that this template stamps at `location`.
    pub open spec fn spec_stamp(self, location: Location) -> TileInstance {
        TileInstance {
            tile_type: self.tile_type,
            hardness: self.hardness,
            location,
            interaction: self.interaction,
            attributes: self.tile_attributes,
            sprite: self.sprite.atlas_sprite,
        }
    }

    /// Stamps a tile of this template at `location`.
    pub fn stamp(&self, location: Location) -> (tile: TileInstance)
        ensures
            tile == self.spec_stamp(location),
    {
        TileInstance {
            tile_type: self.tile_type,
            hardness: self.hardness,
            location,
            interaction: self.interaction,
            attributes: self.tile_attributes,
            sprite: self.sprite.atlas_sprite,
        }
    }
}

impl TileInstance {
    /// The tile takes part in blocking.
    pub open spec fn is_hard(self) -> bool {
        self.hardness != 0
    }
}

} // verus!
