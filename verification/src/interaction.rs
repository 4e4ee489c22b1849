//! What happens when something acts on a tile or moves into it.
//!
//! Every tile carries the kind of its interaction. One function, `interact`,
//! answers for all kinds; `TileInstance::trigger` calls it for a tile and
//! writes the answer back into the tile.

use vstd::prelude::*;
use crate::inventory::{Inventory, Item, ItemSlot, ItemType};
use crate::palette::TilePalette;
use crate::tile::{Interaction, TileAttributes, TileInstance};

verus! {

/// The answer of an interaction.
#[derive(Debug)]
pub enum InteractionResult {
    /// Nothing happens.
    Nothing,
    /// The action or movement is not allowed.
    Block,
    /// The attributes of the tile are replaced by these.
    ChangeTile(TileAttributes),
    /// This item was handed out.
    PickUp(Item),
}

/// What an interaction sees of the world when it is invoked.
pub struct Context<'a> {
    /// The atlas cell that the tile shows at present.
    pub sprite_info: Option<u32>,
    /// The palette, to look up the sibling that the tile turns into.
    pub tile_palette: Option<&'a TilePalette>,
    /// What the acting mover carries.
    pub inventory: Option<&'a mut Inventory>,
}

/// The attributes of a tile that has turned passable and shows `sprite`.
pub open spec fn passable(sprite: u32) -> TileAttributes {
    TileAttributes { hardness: 0, hit_points: 0, sprite_index: Some(sprite) }
}

/// The atlas cell of the sibling that a tile with this interaction turns
/// into: none where the interaction turns the tile into nothing, where there is
/// no palette, or where the palette does not hold the sibling.
pub open spec fn target_sprite(interaction: Interaction, palette: Option<&TilePalette>) -> Option<
    u32,
> {
    match (interaction.spec_target(), palette) {
        (Some(family), Some(palette)) => match palette.lookup(family.spec_sprite_name()) {
            Some(definition) => Some(definition.sprite.atlas_sprite),
            None => None,
        },
        _ => None,
    }
}

/// The attributes that replace those of the tile, if the interaction changes
/// the tile. `carries` says that the acting mover has an inventory with at
/// least one item.
pub open spec fn tile_change(
    interaction: Interaction,
    sprite_info: Option<u32>,
    target: Option<u32>,
    carries: bool,
) -> Option<TileAttributes> {
    match (interaction, target) {
        (Interaction::OpenDoor, Some(sprite)) => Some(passable(sprite)),
        (Interaction::BreakWindow, Some(sprite)) => Some(passable(sprite)),
        (Interaction::UnlockDoor, Some(sprite)) => if sprite_info != Some(sprite) && carries {
            Some(passable(sprite))
        } else {
            None
        },
        _ => None,
    }
}

/// The interaction refuses: a locked door that is not open yet, before a
/// mover who carries nothing.
pub open spec fn is_blocked(
    interaction: Interaction,
    sprite_info: Option<u32>,
    target: Option<u32>,
    carries: bool,
) -> bool {
    match (interaction, target) {
        (Interaction::UnlockDoor, Some(sprite)) => sprite_info != Some(sprite) && !carries,
        _ => false,
    }
}

/// The item that a tile hands out.
pub open spec fn is_handed_item(item: Item) -> bool {
    &&& item.id == 1
    &&& item.name@ == "Test Item"@
    &&& item.weight == 100
    &&& item.item_type == ItemType::Weapon
    &&& item.item_slot == ItemSlot::LeftHand
}

/// `inventory` holds at least one item.
pub open spec fn carries_something(inventory: Option<&mut Inventory>) -> bool {
    match inventory {
        Some(inventory) => inventory.items@.len() > 0,
        None => false,
    }
}

/// `result` is the answer of `interaction` to a mover who sees the tile show
/// `sprite_info`, where `target` is the atlas cell of the tile's sibling.
pub open spec fn answers(
    result: InteractionResult,
    interaction: Interaction,
    sprite_info: Option<u32>,
    target: Option<u32>,
    carries: bool,
) -> bool {
    match result {
        InteractionResult::ChangeTile(attributes) => tile_change(
            interaction,
            sprite_info,
            target,
            carries,
        ) == Some(attributes),
        InteractionResult::Block => is_blocked(interaction, sprite_info, target, carries),
        InteractionResult::PickUp(item) => interaction == Interaction::PickUp && is_handed_item(
            item,
        ),
        InteractionResult::Nothing => {
            &&& interaction != Interaction::PickUp
            &&& tile_change(interaction, sprite_info, target, carries) is None
            &&& !is_blocked(interaction, sprite_info, target, carries)
        },
    }
}

/// The item that a tile hands out.
fn handed_item() -> (item: Item)
    ensures
        is_handed_item(item),
{
    Item {
        id: 1,
        name: "Test Item".to_owned(),
        weight: 100,
        item_type: ItemType::Weapon,
        item_slot: ItemSlot::LeftHand,
    }
}

/// Invokes `interaction` in the context `ctx`.
///
/// A door opens and a window breaks whenever the palette holds the sibling
/// that they turn into. A locked door answers nothing once it shows the open
/// sprite; before that it opens for a mover who carries something and blocks
/// any other. An item tile hands out its item and appends a copy to the
/// inventory, if there is one. Where the palette is absent or lacks the
/// sibling, the answer is `Nothing`.
pub fn interact(interaction: Interaction, ctx: Context) -> (result: InteractionResult)
    requires
        ctx.tile_palette matches Some(palette) ==> palette.wf(),
    ensures
        answers(
            result,
            interaction,
            ctx.sprite_info,
            target_sprite(interaction, ctx.tile_palette),
            carries_something(ctx.inventory),
        ),
        match ctx.inventory {
            Some(inventory) => match result {
                InteractionResult::PickUp(item) => final(inventory).items@
                    == inventory.items@.push(item),
                _ => *final(inventory) == *inventory,
            },
            None => true,
        },
{
    let target: Option<u32> = match (interaction.target(), ctx.tile_palette) {
        (Some(family), Some(palette)) => match palette.get(family.sprite_name()) {
            Some(definition) => Some(definition.sprite.atlas_sprite),
            None => None,
        },
        _ => None,
    };
    match interaction {
        Interaction::Inert => InteractionResult::Nothing,
        Interaction::OpenDoor | Interaction::BreakWindow => match target {
            Some(sprite) => InteractionResult::ChangeTile(
                TileAttributes { hardness: 0, hit_points: 0, sprite_index: Some(sprite) },
            ),
            None => InteractionResult::Nothing,
        },
        Interaction::UnlockDoor => match target {
            Some(sprite) => {
                let shown: bool = match ctx.sprite_info {
                    Some(current) => current == sprite,
                    None => false,
                };
                let carries: bool = match ctx.inventory {
                    Some(inventory) => inventory.items.len() > 0,
                    None => false,
                };
                if shown {
                    InteractionResult::Nothing
                } else if carries {
                    InteractionResult::ChangeTile(
                        TileAttributes { hardness: 0, hit_points: 0, sprite_index: Some(sprite) },
                    )
                } else {
                    InteractionResult::Block
                }
            },
            None => InteractionResult::Nothing,
        },
        Interaction::PickUp => {
            let item = handed_item();
            match ctx.inventory {
                Some(inventory) => {
                    inventory.items.push(item.clone());
                },
                None => {},
            }
            InteractionResult::PickUp(item)
        },
    }
}

impl TileInstance {
    /// This tile with its attributes replaced by `attributes`: it takes their
    /// hardness, their sprite if they name one, and the family that its
    /// interaction turns it into, if any. Place and interaction stay.
    pub open spec fn spec_changed(self, attributes: TileAttributes) -> TileInstance {
        TileInstance {
            tile_type: match self.interaction.spec_target() {
                Some(family) => family,
                None => self.tile_type,
            },
            hardness: attributes.hardness,
            location: self.location,
            interaction: self.interaction,
            attributes,
            sprite: match attributes.sprite_index {
                Some(sprite) => sprite,
                None => self.sprite,
            },
        }
    }

    /// This tile after its interaction was invoked once, by a mover who
    /// carries something or not.
    pub open spec fn after_trigger(self, palette: Option<&TilePalette>, carries: bool)
        -> TileInstance {
        match tile_change(
            self.interaction,
            Some(self.sprite),
            target_sprite(self.interaction, palette),
            carries,
        ) {
            Some(attributes) => self.spec_changed(attributes),
            None => self,
        }
    }

    /// Replaces the attributes of this tile by `attributes`.
    pub fn change(&mut self, attributes: TileAttributes)
        ensures
            *final(self) == old(self).spec_changed(attributes),
    {
        match self.interaction.target() {
            Some(family) => {
                self.tile_type = family;
            },
            None => {},
        }
        self.hardness = attributes.hardness;
        match attributes.sprite_index {
            Some(sprite) => {
                self.sprite = sprite;
            },
            None => {},
        }
        self.attributes = attributes;
    }

    /// Invokes the interaction of this tile for a mover with the given
    /// inventory, and writes a change of attributes back into the tile.
    pub fn trigger(&mut self, palette: &TilePalette, inventory: Option<&mut Inventory>) -> (result:
        InteractionResult)
        requires
            palette.wf(),
        ensures
            answers(
                result,
                old(self).interaction,
                Some(old(self).sprite),
                target_sprite(old(self).interaction, Some(palette)),
                carries_something(inventory),
            ),
            *final(self) == old(self).after_trigger(Some(palette), carries_something(inventory)),
            match inventory {
                Some(inventory) => match result {
                    InteractionResult::PickUp(item) => final(inventory).items@
                        == inventory.items@.push(item),
                    _ => *final(inventory) == *inventory,
                },
                None => true,
            },
    {
        let result = interact(
            self.interaction,
            Context { sprite_info: Some(self.sprite), tile_palette: Some(palette), inventory },
        );
        match &result {
            InteractionResult::ChangeTile(attributes) => {
                self.change(*attributes);
            },
            _ => {},
        }
        result
    }
}

/// Invoking the interaction of a tile twice leaves the tile as invoking it
/// once does.
pub proof fn lemma_trigger_twice(tile: TileInstance, palette: Option<&TilePalette>, carries: bool)
    ensures
        tile.after_trigger(palette, carries).after_trigger(palette, carries) == tile.after_trigger(
            palette,
            carries,
        ),
{
}

/// An interaction never makes a tile harder: a tile keeps its hardness or
/// turns passable, and a passable tile stays passable.
pub proof fn lemma_trigger_never_hardens(
    tile: TileInstance,
    palette: Option<&TilePalette>,
    carries: bool,
)
    ensures
        tile.after_trigger(palette, carries).hardness == tile.hardness || tile.after_trigger(
            palette,
            carries,
        ).hardness == 0,
        tile.after_trigger(palette, carries).location == tile.location,
        tile.after_trigger(palette, carries).interaction == tile.interaction,
{
}

/// A locked door that does not show the open sprite yet blocks a mover who
/// carries nothing, and stays as it is; for a mover who carries something it
/// answers with a change to hardness zero, and turns passable.
pub proof fn lemma_locked_door(
    result: InteractionResult,
    tile: TileInstance,
    palette: &TilePalette,
    carries: bool,
)
    requires
        tile.interaction == Interaction::UnlockDoor,
        target_sprite(tile.interaction, Some(palette)) matches Some(open) && open != tile.sprite,
        answers(
            result,
            tile.interaction,
            Some(tile.sprite),
            target_sprite(tile.interaction, Some(palette)),
            carries,
        ),
    ensures
        !carries ==> (result is Block && tile.after_trigger(Some(palette), carries) == tile),
        carries ==> (result matches InteractionResult::ChangeTile(attributes)
            && attributes.hardness == 0 && tile.after_trigger(Some(palette), carries).hardness
            == 0),
{
}

} // verus!
