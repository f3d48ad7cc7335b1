//! Reading a save file of format version 0.1.0.

use vstd::prelude::*;
use vstd::slice::slice_subrange;
use crate::codecs::decode_info_v2;
use crate::codecs::decode_player;
use crate::codecs::lz4_unpacked;
use crate::codecs::lz4_unpacked_prepended;
use crate::codecs::postcard_info_v2;
use crate::codecs::postcard_player;
use crate::codecs::unpack_block;
use crate::codecs::unpack_prepended;
use crate::codecs::PlayerRecord;
use crate::save_format::chunk_index;
use crate::save_format::in_world;
use crate::save_format::length_prefixed;
use crate::save_format::linear_index;
use crate::save_format::parse_body;
use crate::save_format::split_body;
use crate::save_format::take_length_prefixed;
use crate::save_format::ChunkStore;
use crate::world_converter::numcraft_v0_1_0::chunk::Chunk;
use crate::world_converter::numcraft_v0_1_0::constants::BlockType;
use crate::world_converter::numcraft_v0_1_0::constants::ItemType;
use crate::world_converter::numcraft_v0_1_0::inventory::Inventory;
use crate::world_converter::numcraft_v0_1_0::inventory::ItemStack;
use crate::world_converter::vector::Vector3;

verus! {

#[derive(Clone, Copy, PartialEq, Eq, Debug, Structural)]
pub enum GameMode {
    Survival,
    Creative,
}

impl GameMode {
    /// The number under which the mode is stored.
    pub open spec fn index(self) -> u32 {
        match self {
            GameMode::Survival => 0,
            GameMode::Creative => 1,
        }
    }

    /// The mode stored under `index`, if there is one.
    pub open spec fn from_index(index: u32) -> Option<GameMode> {
        match index {
            0 => Some(GameMode::Survival),
            1 => Some(GameMode::Creative),
            _ => None,
        }
    }

    pub fn get_from_index(index: u32) -> (mode: Option<Self>)
        ensures
            mode == GameMode::from_index(index),
    {
        match index {
            0 => Some(GameMode::Survival),
            1 => Some(GameMode::Creative),
            _ => None,
        }
    }
}

/// The player: position and rotation as the bit patterns of their
/// single-precision numbers, and the inventory.
pub struct PlayerData {
    pub pos: (u32, u32, u32),
    pub rotation: (u32, u32),
    pub inventory: Inventory,
}

/// What a [`PlayerData`] holds.
pub struct PlayerDataView {
    pub pos: (u32, u32, u32),
    pub rotation: (u32, u32),
    pub slots: Seq<ItemStack>,
    pub modified: bool,
}

pub struct WorldInfo {
    pub world_name: String,
    pub world_seed: i32,
    pub gamemode: GameMode,
}

/// What a [`WorldInfo`] holds.
pub struct WorldInfoView {
    pub world_name: Seq<char>,
    pub world_seed: i32,
    pub gamemode: GameMode,
}

impl WorldInfo {
    pub open spec fn view(&self) -> WorldInfoView {
        WorldInfoView {
            world_name: self.world_name@,
            world_seed: self.world_seed,
            gamemode: self.gamemode,
        }
    }

    pub fn new() -> (info: Self)
        ensures
            info@ == (WorldInfoView {
                world_name: Seq::empty(),
                world_seed: 1,
                gamemode: GameMode::Survival,
            }),
    {
        WorldInfo { world_name: String::new(), world_seed: 1, gamemode: GameMode::Survival }
    }
}

impl PlayerData {
    pub open spec fn view(&self) -> PlayerDataView {
        PlayerDataView {
            pos: self.pos,
            rotation: self.rotation,
            slots: self.inventory@,
            modified: self.inventory.modified_flag(),
        }
    }

    pub fn new() -> (player: Self)
        ensures
            player@ == (PlayerDataView {
                pos: (0, 0, 0),
                rotation: (0, 0),
                slots: Seq::empty(),
                modified: true,
            }),
    {
        let player = PlayerData { pos: (0, 0, 0), rotation: (0, 0), inventory: Inventory::new(0) };
        assert(player.inventory@ =~= Seq::empty());
        player
    }
}

#[derive(Clone, Copy, PartialEq, Eq, Debug, Structural)]
pub enum ChunkReadingError {
    OOBChunk,
    CorruptedChunk,
}

#[derive(Clone, Copy, PartialEq, Eq, Debug, Structural)]
pub enum SaveFileLoadError {
    CorruptedWorld,
}

/// The stack that a stored slot stands for, if its item number names an
/// item type.
pub open spec fn slot_from_wire(wire: (u32, u8, bool)) -> Option<ItemStack> {
    if wire.0 > 0xFF {
        None
    } else {
        match ItemType::from_id(wire.0 as u8) {
            Some(item_type) => Some(ItemStack { item_type, amount: wire.1, creative_slot: wire.2 }),
            None => None,
        }
    }
}

/// The player that a stored record stands for, if every slot of it stands
/// for a stack.
pub open spec fn player_from_wire(
    record: ((u32, u32, u32), (u32, u32), Seq<(u32, u8, bool)>, bool),
) -> Option<PlayerDataView> {
    if forall|i: int| 0 <= i < record.2.len() ==> slot_from_wire(#[trigger] record.2[i]) is Some {
        Some(
            PlayerDataView {
                pos: record.0,
                rotation: record.1,
                slots: Seq::new(record.2.len(), |i: int| slot_from_wire(record.2[i])->0),
                modified: record.3,
            },
        )
    } else {
        None
    }
}

/// The header that a stored record stands for, if its mode number names a
/// game mode.
pub open spec fn info_from_wire(record: (Seq<char>, i32, u32)) -> Option<WorldInfoView> {
    match GameMode::from_index(record.2) {
        Some(gamemode) => Some(
            WorldInfoView { world_name: record.0, world_seed: record.1, gamemode },
        ),
        None => None,
    }
}

/// The header of a save file, and where the packed body starts. Nothing
/// if the header is cut short or does not decode.
pub open spec fn parse_world_info(raw: Seq<u8>, word_bits: nat) -> Option<(WorldInfoView, int)> {
    match length_prefixed(raw, 0) {
        Some((header, offset)) => match postcard_info_v2(header, word_bits) {
            Some(record) => match info_from_wire(record) {
                Some(info) => Some((info, offset)),
                None => None,
            },
            None => None,
        },
        None => None,
    }
}

/// What a loaded save file holds.
pub struct SaveView {
    pub chunks: Seq<Seq<u8>>,
    pub player: PlayerDataView,
    pub info: WorldInfoView,
}

/// The world that a save file holds; nothing if any part of the file is cut
/// short, does not unpack or does not decode. `word_bits` is the width of
/// `usize` on the machine that reads the file.
pub open spec fn parse_save(raw: Seq<u8>, word_bits: nat) -> Option<SaveView> {
    match parse_world_info(raw, word_bits) {
        Some((info, offset)) => match lz4_unpacked_prepended(raw.skip(offset)) {
            Some(body) => match parse_body(body) {
                Some((chunks, player_bytes)) => match postcard_player(player_bytes, word_bits) {
                    Some(record) => match player_from_wire(record) {
                        Some(player) => Some(SaveView { chunks, player, info }),
                        None => None,
                    },
                    None => None,
                },
                None => None,
            },
            None => None,
        },
        None => None,
    }
}

/// The blocks that 512 stored codes stand for, if every code names a block
/// type.
pub open spec fn blocks_from_codes(codes: Seq<u8>) -> Option<Seq<BlockType>> {
    if codes.len() == 512 && forall|i: int|
        0 <= i < 512 ==> BlockType::from_id(#[trigger] codes[i]) is Some {
        Some(Seq::new(512, |i: int| BlockType::from_id(codes[i])->0))
    } else {
        None
    }
}

/// The blocks that a packed chunk holds. Nothing if it does not unpack to
/// exactly 512 codes of block types.
pub open spec fn blocks_from_blob(blob: Seq<u8>) -> Option<Seq<BlockType>> {
    match lz4_unpacked(blob, 512) {
        Some(codes) => blocks_from_codes(codes),
        None => None,
    }
}

/// Turns stored slots into stacks.
pub fn slots_from_record(wire: &Vec<(u32, u8, bool)>) -> (slots: Option<Vec<ItemStack>>)
    ensures
        slots is Some <==> forall|i: int|
            0 <= i < wire@.len() ==> slot_from_wire(#[trigger] wire@[i]) is Some,
        slots is Some ==> slots->0@ == Seq::new(wire@.len(), |i: int| slot_from_wire(wire@[i])->0),
{
    let mut slots: Vec<ItemStack> = Vec::new();
    let mut i: usize = 0;
    while i < wire.len()
        invariant
            i <= wire@.len(),
            slots@.len() == i,
            forall|j: int| 0 <= j < i ==> slot_from_wire(#[trigger] wire@[j]) == Some(slots@[j]),
        decreases wire@.len() - i,
    {
        let (number, amount, creative_slot) = wire[i];
        if number > 0xFF {
            return None;
        }
        match ItemType::get_from_id(number as u8) {
            Some(item_type) => slots.push(ItemStack::new(item_type, amount, creative_slot)),
            None => {
                return None;
            },
        }
        i += 1;
    }
    assert(slots@ =~= Seq::new(wire@.len(), |i: int| slot_from_wire(wire@[i])->0));
    Some(slots)
}

/// Turns a stored player record into a player.
pub fn player_from_record(record: PlayerRecord) -> (player: Option<PlayerData>)
    ensures
        match player {
            Some(p) => player_from_wire(record@) == Some(p@),
            None => player_from_wire(record@) is None,
        },
{
    match slots_from_record(&record.slots) {
        Some(slots) => Some(
            PlayerData {
                pos: record.pos,
                rotation: record.rotation,
                inventory: Inventory::from_slots(slots, record.modified),
            },
        ),
        None => None,
    }
}

/// Turns 512 stored codes into the blocks of a chunk.
pub fn blocks_of_codes(codes: &Vec<u8>) -> (blocks: Option<[BlockType; 512]>)
    ensures
        match blocks {
            Some(b) => blocks_from_codes(codes@) == Some(b@),
            None => blocks_from_codes(codes@) is None,
        },
{
    if codes.len() != 512 {
        return None;
    }
    let mut blocks = [BlockType::Air;512];
    let mut i: usize = 0;
    while i < 512
        invariant
            i <= 512,
            codes@.len() == 512,
            forall|j: int| 0 <= j < i ==> BlockType::from_id(#[trigger] codes@[j]) == Some(blocks@[j]),
        decreases 512 - i,
    {
        match BlockType::get_from_id(codes[i]) {
            Some(block) => {
                blocks[i] = block;
            },
            None => {
                return None;
            },
        }
        i += 1;
    }
    assert(blocks@ =~= Seq::new(512, |i: int| BlockType::from_id(codes@[i])->0));
    Some(blocks)
}

/// Unpacks a chunk blob into the blocks of a chunk. The chunk is corrupted
/// if the blob does not unpack, unpacks to more or fewer than 512 bytes, or
/// holds a byte that is the code of no block type.
pub fn decompress_chunk(blob: &[u8]) -> (blocks: Result<[BlockType; 512], ChunkReadingError>)
    ensures
        match blocks_from_blob(blob@) {
            Some(expected) => blocks is Ok && blocks->Ok_0@ == expected,
            None => blocks is Err && blocks->Err_0 == ChunkReadingError::CorruptedChunk,
        },
{
    let codes = match unpack_block(blob, 512) {
        Some(codes) => codes,
        None => {
            return Err(ChunkReadingError::CorruptedChunk);
        },
    };
    match blocks_of_codes(&codes) {
        Some(blocks) => Ok(blocks),
        None => Err(ChunkReadingError::CorruptedChunk),
    }
}

pub struct SaveManager {
    pub chunks_data: ChunkStore,
    pub player_data: PlayerData,
    pub world_info: WorldInfo,
}

impl SaveManager {
    pub open spec fn view(&self) -> SaveView {
        SaveView { chunks: self.chunks_data@, player: self.player_data@, info: self.world_info@ }
    }

    pub fn new() -> (manager: Self)
        ensures
            manager@.chunks.len() == 64,
            forall|i: int| 0 <= i < 64 ==> manager@.chunks[i] == Seq::<u8>::empty(),
            manager@.player == (PlayerDataView {
                pos: (0, 0, 0),
                rotation: (0, 0),
                slots: Seq::empty(),
                modified: true,
            }),
            manager@.info == (WorldInfoView {
                world_name: Seq::empty(),
                world_seed: 1,
                gamemode: GameMode::Survival,
            }),
    {
        SaveManager {
            chunks_data: ChunkStore::new(),
            player_data: PlayerData::new(),
            world_info: WorldInfo::new(),
        }
    }

    pub fn get_game_mode(&self) -> (mode: GameMode)
        ensures
            mode == self@.info.gamemode,
    {
        self.world_info.gamemode
    }

    /// Reads the header, and finds where the packed body starts.
    fn read_world_info(data: &[u8]) -> (read: Result<(WorldInfo, usize), SaveFileLoadError>)
        ensures
            match read {
                Ok((info, offset)) => offset <= data@.len() && parse_world_info(
                    data@,
                    usize::BITS as nat,
                ) == Some((info@, offset as int)),
                Err(_) => parse_world_info(data@, usize::BITS as nat) is None,
            },
    {
        let (start, end) = match take_length_prefixed(data, 0) {
            Some(found) => found,
            None => {
                return Err(SaveFileLoadError::CorruptedWorld);
            },
        };
        let (world_name, world_seed, mode) = match decode_info_v2(slice_subrange(data, start, end)) {
            Some(record) => record,
            None => {
                return Err(SaveFileLoadError::CorruptedWorld);
            },
        };
        match GameMode::get_from_index(mode) {
            Some(gamemode) => Ok((WorldInfo { world_name, world_seed, gamemode }, end)),
            None => Err(SaveFileLoadError::CorruptedWorld),
        }
    }

    pub fn load_from_file(&mut self, raw_data: &Vec<u8>) -> (loaded: Result<(), SaveFileLoadError>)
        ensures
            loaded is Ok <==> parse_save(raw_data@, usize::BITS as nat) is Some,
            loaded is Ok ==> Some(final(self)@) == parse_save(raw_data@, usize::BITS as nat),
            loaded is Err ==> *final(self) == *old(self),
    {
        let (world_info, offset) = match Self::read_world_info(raw_data.as_slice()) {
            Ok(read) => read,
            Err(_) => {
                return Err(SaveFileLoadError::CorruptedWorld);
            },
        };
        let packed = slice_subrange(raw_data.as_slice(), offset, raw_data.len());
        assert(packed@ =~= raw_data@.skip(offset as int));
        let body = match unpack_prepended(packed) {
            Some(body) => body,
            None => {
                return Err(SaveFileLoadError::CorruptedWorld);
            },
        };
        let (chunks_data, player_bytes) = match split_body(body.as_slice()) {
            Some(parts) => parts,
            None => {
                return Err(SaveFileLoadError::CorruptedWorld);
            },
        };
        let record = match decode_player(player_bytes.as_slice()) {
            Some(record) => record,
            None => {
                return Err(SaveFileLoadError::CorruptedWorld);
            },
        };
        let player_data = match player_from_record(record) {
            Some(player) => player,
            None => {
                return Err(SaveFileLoadError::CorruptedWorld);
            },
        };
        self.chunks_data = chunks_data;
        self.player_data = player_data;
        self.world_info = world_info;
        Ok(())
    }

    pub fn get_chunk_at_pos(&self, pos: Vector3<isize>) -> (chunk: Result<Chunk, ChunkReadingError>)
        ensures
            !in_world(pos.x as int, pos.y as int, pos.z as int) ==> chunk is Err && chunk->Err_0
                == ChunkReadingError::OOBChunk,
            in_world(pos.x as int, pos.y as int, pos.z as int) ==> {
                let blob = self@.chunks[chunk_index(pos.x as int, pos.y as int, pos.z as int)];
                match blocks_from_blob(blob) {
                    Some(blocks) => chunk is Ok && chunk->Ok_0.blocks@ == blocks && chunk->Ok_0.pos
                        == pos && !chunk->Ok_0.generated && chunk->Ok_0.need_new_mesh
                        && !chunk->Ok_0.need_sorting,
                    None => chunk is Err && chunk->Err_0 == ChunkReadingError::CorruptedChunk,
                }
            },
    {
        let index = match linear_index(&pos) {
            Some(index) => index,
            None => {
                return Err(ChunkReadingError::OOBChunk);
            },
        };
        let raw_chunk = match self.chunks_data.get(index) {
            Some(blob) => blob,
            None => {
                return Err(ChunkReadingError::OOBChunk);
            },
        };
        match decompress_chunk(raw_chunk.as_slice()) {
            Ok(blocks) => {
                let mut chunk = Chunk::new(pos);
                chunk.blocks = blocks;
                Ok(chunk)
            },
            Err(error) => Err(error),
        }
    }
}

} // verus!
