//! Items and the inventory that carries them.

use vstd::prelude::*;

verus! {

/// What an item is used as.
#[derive(Clone, Copy, Debug, PartialEq, Eq, Structural)]
pub enum ItemType {
    Weapon,
    Armor,
    Consumable,
}

/// Where an item is worn or held.
#[derive(Clone, Copy, Debug, PartialEq, Eq, Structural)]
pub enum ItemSlot {
    LeftHand,
    RightHand,
    Body,
}

/// Something that can be carried.
#[derive(Debug)]
pub struct Item {
    pub id: u32,
    pub name: String,
    /// In thousandths of the unit of weight.
    pub weight: u32,
    pub item_type: ItemType,
    pub item_slot: ItemSlot,
}

/// The items that a mover carries, in the order in which they were picked up.
#[derive(Debug)]
pub struct Inventory {
    pub items: Vec<Item>,
}

impl Clone for Item {
    fn clone(&self) -> (copy: Item)
        ensures
            copy == *self,
    {
        Item {
            id: self.id,
            name: self.name.clone(),
            weight: self.weight,
            item_type: self.item_type,
            item_slot: self.item_slot,
        }
    }
}

impl Inventory {
    /// An inventory without items.
    pub fn new() -> (inventory: Inventory)
        ensures
            inventory.items@ == Seq::<Item>::empty(),
    {
        Inventory { items: Vec::new() }
    }

    /// The number of items carried.
    pub fn len(&self) -> (n: usize)
        ensures
            n == self.items@.len(),
    {
        self.items.len()
    }

    /// Whether nothing is carried.
    pub fn is_empty(&self) -> (empty: bool)
        ensures
            empty == (self.items@.len() == 0),
    {
        self.items.len() == 0
    }
}

} // verus!
