//! Block and item tables.

use vstd::prelude::*;

pub mod save_manager;
pub mod world;

verus! {

#[derive(Clone, Copy, PartialEq, Eq, Debug, Structural)]
pub enum EntityType {
    Player,
    Item,
}

#[derive(Clone, Copy, PartialEq, Eq, Debug, Structural)]
pub enum BlockType {
    Air,
    Stone,
    Grass,
    Dirt,
    Sand,
    Cobblestone,
    Border,
    Log,
    Leaves,
    Planks,
}

#[derive(Clone, Copy, PartialEq, Eq, Debug, Structural)]
pub enum ItemType {
    Air,
    StoneBlock,
    GrassBlock,
    DirtBlock,
    SandBlock,
    CobblestoneBlock,
    BorderBlock,
    LogBlock,
    LeavesBlock,
    PlanksBlock,
}

impl ItemType {
    /// The code under which the item type is stored.
    pub open spec fn id(self) -> u8 {
        match self {
            ItemType::Air => 0,
            ItemType::StoneBlock => 1,
            ItemType::GrassBlock => 2,
            ItemType::DirtBlock => 3,
            ItemType::SandBlock => 4,
            ItemType::CobblestoneBlock => 5,
            ItemType::BorderBlock => 6,
            ItemType::LogBlock => 7,
            ItemType::LeavesBlock => 8,
            ItemType::PlanksBlock => 9,
        }
    }

    /// The item type stored under `id`, if there is one.
    pub open spec fn from_id(id: u8) -> Option<ItemType> {
        match id {
            0 => Some(ItemType::Air),
            1 => Some(ItemType::StoneBlock),
            2 => Some(ItemType::GrassBlock),
            3 => Some(ItemType::DirtBlock),
            4 => Some(ItemType::SandBlock),
            5 => Some(ItemType::CobblestoneBlock),
            6 => Some(ItemType::BorderBlock),
            7 => Some(ItemType::LogBlock),
            8 => Some(ItemType::LeavesBlock),
            9 => Some(ItemType::PlanksBlock),
            _ => None,
        }
    }

    /// How many items of this type one slot can hold.
    pub open spec fn max_stack(self) -> u8 {
        match self {
            ItemType::Air => 0,
            ItemType::StoneBlock => 64,
            ItemType::GrassBlock => 64,
            ItemType::DirtBlock => 64,
            ItemType::SandBlock => 64,
            ItemType::CobblestoneBlock => 64,
            ItemType::BorderBlock => 64,
            ItemType::LogBlock => 64,
            ItemType::LeavesBlock => 64,
            ItemType::PlanksBlock => 64,
        }
    }

    /// The block that placing this item puts into the world.
    pub open spec fn matching_block(self) -> Option<BlockType> {
        match self {
            ItemType::Air => None,
            ItemType::StoneBlock => Some(BlockType::Stone),
            ItemType::GrassBlock => Some(BlockType::Grass),
            ItemType::DirtBlock => Some(BlockType::Dirt),
            ItemType::SandBlock => Some(BlockType::Sand),
            ItemType::CobblestoneBlock => Some(BlockType::Cobblestone),
            ItemType::BorderBlock => Some(BlockType::Border),
            ItemType::LogBlock => Some(BlockType::Log),
            ItemType::LeavesBlock => Some(BlockType::Leaves),
            ItemType::PlanksBlock => Some(BlockType::Planks),
        }
    }

    pub fn get_id(&self) -> (id: u8)
        ensures
            id == self.id(),
    {
        match self {
            ItemType::Air => 0,
            ItemType::StoneBlock => 1,
            ItemType::GrassBlock => 2,
            ItemType::DirtBlock => 3,
            ItemType::SandBlock => 4,
            ItemType::CobblestoneBlock => 5,
            ItemType::BorderBlock => 6,
            ItemType::LogBlock => 7,
            ItemType::LeavesBlock => 8,
            ItemType::PlanksBlock => 9,
        }
    }

    pub fn get_from_id(id: u8) -> (item: Option<Self>)
        ensures
            item == ItemType::from_id(id),
    {
        match id {
            0 => Some(ItemType::Air),
            1 => Some(ItemType::StoneBlock),
            2 => Some(ItemType::GrassBlock),
            3 => Some(ItemType::DirtBlock),
            4 => Some(ItemType::SandBlock),
            5 => Some(ItemType::CobblestoneBlock),
            6 => Some(ItemType::BorderBlock),
            7 => Some(ItemType::LogBlock),
            8 => Some(ItemType::LeavesBlock),
            9 => Some(ItemType::PlanksBlock),
            _ => None,
        }
    }

    pub fn get_max_stack_amount(&self) -> (amount: u8)
        ensures
            amount == self.max_stack(),
    {
        match *self {
            ItemType::Air => 0,
            ItemType::StoneBlock => 64,
            ItemType::GrassBlock => 64,
            ItemType::DirtBlock => 64,
            ItemType::SandBlock => 64,
            ItemType::CobblestoneBlock => 64,
            ItemType::BorderBlock => 64,
            ItemType::LogBlock => 64,
            ItemType::LeavesBlock => 64,
            ItemType::PlanksBlock => 64,
        }
    }

    pub fn get_matching_block_type(&self) -> (block: Option<BlockType>)
        ensures
            block == self.matching_block(),
    {
        match self {
            ItemType::Air => None,
            ItemType::StoneBlock => Some(BlockType::Stone),
            ItemType::GrassBlock => Some(BlockType::Grass),
            ItemType::DirtBlock => Some(BlockType::Dirt),
            ItemType::SandBlock => Some(BlockType::Sand),
            ItemType::CobblestoneBlock => Some(BlockType::Cobblestone),
            ItemType::BorderBlock => Some(BlockType::Border),
            ItemType::LogBlock => Some(BlockType::Log),
            ItemType::LeavesBlock => Some(BlockType::Leaves),
            ItemType::PlanksBlock => Some(BlockType::Planks),
        }
    }

    /// Every item type is found again under its own code, and no code
    /// outside the table names one.
    pub proof fn lemma_id_round_trip(item: ItemType, id: u8)
        ensures
            ItemType::from_id(item.id()) == Some(item),
            ItemType::from_id(id) matches Some(found) ==> found.id() == id,
            ItemType::from_id(id) is Some <==> id < 10,
    {
    }
}

impl BlockType {
    /// The code under which the block type is stored in a chunk.
    pub open spec fn id(self) -> u8 {
        match self {
            BlockType::Air => 0,
            BlockType::Stone => 1,
            BlockType::Grass => 2,
            BlockType::Dirt => 3,
            BlockType::Sand => 4,
            BlockType::Cobblestone => 5,
            BlockType::Border => 6,
            BlockType::Log => 7,
            BlockType::Leaves => 8,
            BlockType::Planks => 9,
        }
    }

    /// The block type stored under `id`, if there is one.
    pub open spec fn from_id(id: u8) -> Option<BlockType> {
        match id {
            0 => Some(BlockType::Air),
            1 => Some(BlockType::Stone),
            2 => Some(BlockType::Grass),
            3 => Some(BlockType::Dirt),
            4 => Some(BlockType::Sand),
            5 => Some(BlockType::Cobblestone),
            6 => Some(BlockType::Border),
            7 => Some(BlockType::Log),
            8 => Some(BlockType::Leaves),
            9 => Some(BlockType::Planks),
            _ => None,
        }
    }

    /// The item that breaking this block leaves behind.
    pub open spec fn dropped_item(self) -> ItemType {
        match self {
            BlockType::Air => ItemType::Air,
            BlockType::Stone => ItemType::CobblestoneBlock,
            BlockType::Grass => ItemType::DirtBlock,
            BlockType::Dirt => ItemType::DirtBlock,
            BlockType::Sand => ItemType::SandBlock,
            BlockType::Cobblestone => ItemType::CobblestoneBlock,
            BlockType::Border => ItemType::BorderBlock,
            BlockType::Log => ItemType::LogBlock,
            BlockType::Leaves => ItemType::LeavesBlock,
            BlockType::Planks => ItemType::PlanksBlock,
        }
    }

    pub fn is_air(&self) -> (air: bool)
        ensures
            air == (*self == BlockType::Air),
    {
        *self == BlockType::Air
    }

    pub fn get_id(&self) -> (id: u8)
        ensures
            id == self.id(),
    {
        match self {
            BlockType::Air => 0,
            BlockType::Stone => 1,
            BlockType::Grass => 2,
            BlockType::Dirt => 3,
            BlockType::Sand => 4,
            BlockType::Cobblestone => 5,
            BlockType::Border => 6,
            BlockType::Log => 7,
            BlockType::Leaves => 8,
            BlockType::Planks => 9,
        }
    }

    pub fn get_from_id(id: u8) -> (block: Option<Self>)
        ensures
            block == BlockType::from_id(id),
    {
        match id {
            0 => Some(BlockType::Air),
            1 => Some(BlockType::Stone),
            2 => Some(BlockType::Grass),
            3 => Some(BlockType::Dirt),
            4 => Some(BlockType::Sand),
            5 => Some(BlockType::Cobblestone),
            6 => Some(BlockType::Border),
            7 => Some(BlockType::Log),
            8 => Some(BlockType::Leaves),
            9 => Some(BlockType::Planks),
            _ => None,
        }
    }

    pub fn get_dropped_item_type(&self) -> (item: ItemType)
        ensures
            item == self.dropped_item(),
    {
        match self {
            BlockType::Air => ItemType::Air,
            BlockType::Stone => ItemType::CobblestoneBlock,
            BlockType::Grass => ItemType::DirtBlock,
            BlockType::Dirt => ItemType::DirtBlock,
            BlockType::Sand => ItemType::SandBlock,
            BlockType::Cobblestone => ItemType::CobblestoneBlock,
            BlockType::Border => ItemType::BorderBlock,
            BlockType::Log => ItemType::LogBlock,
            BlockType::Leaves => ItemType::LeavesBlock,
            BlockType::Planks => ItemType::PlanksBlock,
        }
    }

    /// Every block type is found again under its own code, and no code
    /// outside the table names one.
    pub proof fn lemma_id_round_trip(block: BlockType, id: u8)
        ensures
            BlockType::from_id(block.id()) == Some(block),
            BlockType::from_id(id) matches Some(found) ==> found.id() == id,
            BlockType::from_id(id) is Some <==> id < 10,
    {
    }
}

} // verus!
