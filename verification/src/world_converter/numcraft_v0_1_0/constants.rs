//! Block and item tables.

use vstd::prelude::*;

pub mod world;

verus! {

#[derive(Clone, Copy, PartialEq, Eq, Debug, Structural)]
pub enum EntityType {
    Player,
    Item,
}

#[derive(Clone, Copy, PartialEq, Eq, Debug, Structural)]
pub enum BlockType {
    Air,
    Stone,
    Grass,
    Dirt,
}

#[derive(Clone, Copy, PartialEq, Eq, Debug, Structural)]
pub enum ItemType {
    Air,
    StoneBlock,
    GrassBlock,
    DirtBlock,
}

impl ItemType {
    /// The code under which the item type is stored.
    pub open spec fn id(self) -> u8 {
        match self {
            ItemType::Air => 0,
            ItemType::StoneBlock => 1,
            ItemType::GrassBlock => 2,
            ItemType::DirtBlock => 3,
        }
    }

    /// The item type stored under `id`, if there is one.
    pub open spec fn from_id(id: u8) -> Option<ItemType> {
        match id {
            0 => Some(ItemType::Air),
            1 => Some(ItemType::StoneBlock),
            2 => Some(ItemType::GrassBlock),
            3 => Some(ItemType::DirtBlock),
            _ => None,
        }
    }

    /// How many items of this type one slot can hold.
    pub open spec fn max_stack(self) -> u8 {
        match self {
            ItemType::Air => 0,
            ItemType::StoneBlock => 64,
            ItemType::GrassBlock => 64,
            ItemType::DirtBlock => 64,
        }
    }

    /// The block that placing this item puts into the world.
    pub open spec fn matching_block(self) -> Option<BlockType> {
        match self {
            ItemType::Air => None,
            ItemType::StoneBlock => Some(BlockType::Stone),
            ItemType::GrassBlock => Some(BlockType::Grass),
            ItemType::DirtBlock => Some(BlockType::Dirt),
        }
    }

    pub fn get_id(&self) -> (id: u8)
        ensures
            id == self.id(),
    {
        match self {
            ItemType::Air => 0,
            ItemType::StoneBlock => 1,
            ItemType::GrassBlock => 2,
            ItemType::DirtBlock => 3,
        }
    }

    pub fn get_from_id(id: u8) -> (item: Option<Self>)
        ensures
            item == ItemType::from_id(id),
    {
        match id {
            0 => Some(ItemType::Air),
            1 => Some(ItemType::StoneBlock),
            2 => Some(ItemType::GrassBlock),
            3 => Some(ItemType::DirtBlock),
            _ => None,
        }
    }

    pub fn get_max_stack_amount(&self) -> (amount: u8)
        ensures
            amount == self.max_stack(),
    {
        match *self {
            ItemType::Air => 0,
            ItemType::StoneBlock => 64,
            ItemType::GrassBlock => 64,
            ItemType::DirtBlock => 64,
        }
    }

    pub fn get_matching_block_type(&self) -> (block: Option<BlockType>)
        ensures
            block == self.matching_block(),
    {
        match self {
            ItemType::Air => None,
            ItemType::StoneBlock => Some(BlockType::Stone),
            ItemType::GrassBlock => Some(BlockType::Grass),
            ItemType::DirtBlock => Some(BlockType::Dirt),
        }
    }

    /// Every item type is found again under its own code, and no code
    /// outside the table names one.
    pub proof fn lemma_id_round_trip(item: ItemType, id: u8)
        ensures
            ItemType::from_id(item.id()) == Some(item),
            ItemType::from_id(id) matches Some(found) ==> found.id() == id,
            ItemType::from_id(id) is Some <==> id < 4,
    {
    }
}

impl BlockType {
    /// The code under which the block type is stored in a chunk.
    pub open spec fn id(self) -> u8 {
        match self {
            BlockType::Air => 0,
            BlockType::Stone => 1,
            BlockType::Grass => 2,
            BlockType::Dirt => 3,
        }
    }

    /// The block type stored under `id`, if there is one.
    pub open spec fn from_id(id: u8) -> Option<BlockType> {
        match id {
            0 => Some(BlockType::Air),
            1 => Some(BlockType::Stone),
            2 => Some(BlockType::Grass),
            3 => Some(BlockType::Dirt),
            _ => None,
        }
    }

    /// The item that breaking this block leaves behind.
    pub open spec fn dropped_item(self) -> ItemType {
        match self {
            BlockType::Air => ItemType::Air,
            BlockType::Stone => ItemType::StoneBlock,
            BlockType::Grass => ItemType::DirtBlock,
            BlockType::Dirt => ItemType::DirtBlock,
        }
    }

    pub fn is_air(&self) -> (air: bool)
        ensures
            air == (*self == BlockType::Air),
    {
        *self == BlockType::Air
    }

    pub fn get_id(&self) -> (id: u8)
        ensures
            id == self.id(),
    {
        match self {
            BlockType::Air => 0,
            BlockType::Stone => 1,
            BlockType::Grass => 2,
            BlockType::Dirt => 3,
        }
    }

    pub fn get_from_id(id: u8) -> (block: Option<Self>)
        ensures
            block == BlockType::from_id(id),
    {
        match id {
            0 => Some(BlockType::Air),
            1 => Some(BlockType::Stone),
            2 => Some(BlockType::Grass),
            3 => Some(BlockType::Dirt),
            _ => None,
        }
    }

    pub fn get_dropped_item_type(&self) -> (item: ItemType)
        ensures
            item == self.dropped_item(),
    {
        match self {
            BlockType::Air => ItemType::Air,
            BlockType::Stone => ItemType::StoneBlock,
            BlockType::Grass => ItemType::DirtBlock,
            BlockType::Dirt => ItemType::DirtBlock,
        }
    }

    /// Every block type is found again under its own code, and no code
    /// outside the table names one.
    pub proof fn lemma_id_round_trip(block: BlockType, id: u8)
        ensures
            BlockType::from_id(block.id()) == Some(block),
            BlockType::from_id(id) matches Some(found) ==> found.id() == id,
            BlockType::from_id(id) is Some <==> id < 4,
    {
    }
}

} // verus!
