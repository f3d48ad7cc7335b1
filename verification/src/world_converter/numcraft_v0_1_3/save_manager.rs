//! Reading and writing a save file of format version 0.1.3.

use vstd::prelude::*;
use vstd::slice::slice_subrange;
use crate::codecs::decode_info_v3;
use crate::codecs::decode_player;
use crate::codecs::encode_info_v3;
use crate::codecs::encode_player;
use crate::codecs::lz4_unpacked;
use crate::codecs::lz4_unpacked_prepended;
use crate::codecs::pack_block;
use crate::codecs::pack_prepended;
use crate::codecs::postcard_info_v3;
use crate::codecs::postcard_info_v3_bytes;
use crate::codecs::postcard_player;
use crate::codecs::postcard_player_bytes;
use crate::codecs::unpack_block;
use crate::codecs::unpack_prepended;
use crate::codecs::PlayerRecord;
use crate::save_format::be16_bytes;
use crate::save_format::blobs_fit;
use crate::save_format::body_bytes;
use crate::save_format::build_body;
use crate::save_format::chunk_index;
use crate::save_format::in_world;
use crate::save_format::lemma_be16_round_trip;
use crate::save_format::lemma_body_round_trip;
use crate::save_format::lemma_body_size;
use crate::save_format::lemma_parsed_lengths_fit;
use crate::save_format::length_prefixed;
use crate::save_format::lengths_fit;
use crate::save_format::linear_index;
use crate::save_format::parse_body;
use crate::save_format::push_be16;
use crate::save_format::split_body;
use crate::save_format::take_length_prefixed;
use crate::save_format::ChunkStore;
use crate::world_converter::numcraft_v0_1_3::chunk::Chunk;
use crate::world_converter::numcraft_v0_1_3::constants::BlockType;
use crate::world_converter::numcraft_v0_1_3::constants::save_manager::WORLD_VERSION;
use crate::world_converter::numcraft_v0_1_3::constants::ItemType;
use crate::world_converter::numcraft_v0_1_3::inventory::Inventory;
use crate::world_converter::numcraft_v0_1_3::inventory::ItemStack;
use crate::world_converter::vector::Vector3;

verus! {

#[derive(Clone, Copy, PartialEq, Eq, Debug, Structural)]
pub enum GameMode {
    Survival,
    Creative,
}

impl GameMode {
    /// The number under which the mode is stored.
    pub open spec fn index(self) -> u32 {
        match self {
            GameMode::Survival => 0,
            GameMode::Creative => 1,
        }
    }

    /// The mode stored under `index`, if there is one.
    pub open spec fn from_index(index: u32) -> Option<GameMode> {
        match index {
            0 => Some(GameMode::Survival),
            1 => Some(GameMode::Creative),
            _ => None,
        }
    }

    pub fn get_index(&self) -> (index: u32)
        ensures
            index == self.index(),
    {
        match self {
            GameMode::Survival => 0,
            GameMode::Creative => 1,
        }
    }

    pub fn get_from_index(index: u32) -> (mode: Option<Self>)
        ensures
            mode == GameMode::from_index(index),
    {
        match index {
            0 => Some(GameMode::Survival),
            1 => Some(GameMode::Creative),
            _ => None,
        }
    }
}

/// The player: position and rotation as the bit patterns of their
/// single-precision numbers, and the inventory.
pub struct PlayerData {
    pub pos: (u32, u32, u32),
    pub rotation: (u32, u32),
    pub inventory: Inventory,
}

/// What a [`PlayerData`] holds.
pub struct PlayerDataView {
    pub pos: (u32, u32, u32),
    pub rotation: (u32, u32),
    pub slots: Seq<ItemStack>,
    pub modified: bool,
}

pub struct WorldInfo {
    pub world_version: u16,
    pub world_name: String,
    pub world_seed: i32,
    pub gamemode: GameMode,
}

/// What a [`WorldInfo`] holds.
pub struct WorldInfoView {
    pub world_version: u16,
    pub world_name: Seq<char>,
    pub world_seed: i32,
    pub gamemode: GameMode,
}

impl WorldInfo {
    pub open spec fn view(&self) -> WorldInfoView {
        WorldInfoView {
            world_version: self.world_version,
            world_name: self.world_name@,
            world_seed: self.world_seed,
            gamemode: self.gamemode,
        }
    }

    pub fn new() -> (info: Self)
        ensures
            info@ == (WorldInfoView {
                world_version: WORLD_VERSION,
                world_name: Seq::empty(),
                world_seed: 1,
                gamemode: GameMode::Survival,
            }),
    {
        WorldInfo {
            world_version: WORLD_VERSION,
            world_name: String::new(),
            world_seed: 1,
            gamemode: GameMode::Survival,
        }
    }
}

impl PlayerData {
    pub open spec fn view(&self) -> PlayerDataView {
        PlayerDataView {
            pos: self.pos,
            rotation: self.rotation,
            slots: self.inventory@,
            modified: self.inventory.modified_flag(),
        }
    }

    pub fn new() -> (player: Self)
        ensures
            player@ == (PlayerDataView {
                pos: (0, 0, 0),
                rotation: (0, 0),
                slots: Seq::empty(),
                modified: true,
            }),
    {
        let player = PlayerData { pos: (0, 0, 0), rotation: (0, 0), inventory: Inventory::new(0) };
        assert(player.inventory@ =~= Seq::empty());
        player
    }
}

#[derive(Clone, Copy, PartialEq, Eq, Debug, Structural)]
pub enum ChunkReadingError {
    OOBChunk,
    CorruptedChunk,
}

#[derive(Clone, Copy, PartialEq, Eq, Debug, Structural)]
pub enum SaveFileLoadError {
    FileNotFound,
    CorruptedWorld,
}

/// The stack that a stored slot stands for, if its item number names an
/// item type.
pub open spec fn slot_from_wire(wire: (u32, u8, bool)) -> Option<ItemStack> {
    if wire.0 > 0xFF {
        None
    } else {
        match ItemType::from_id(wire.0 as u8) {
            Some(item_type) => Some(ItemStack { item_type, amount: wire.1, creative_slot: wire.2 }),
            None => None,
        }
    }
}

/// The player that a stored record stands for, if every slot of it stands
/// for a stack.
pub open spec fn player_from_wire(
    record: ((u32, u32, u32), (u32, u32), Seq<(u32, u8, bool)>, bool),
) -> Option<PlayerDataView> {
    if forall|i: int| 0 <= i < record.2.len() ==> slot_from_wire(#[trigger] record.2[i]) is Some {
        Some(
            PlayerDataView {
                pos: record.0,
                rotation: record.1,
                slots: Seq::new(record.2.len(), |i: int| slot_from_wire(record.2[i])->0),
                modified: record.3,
            },
        )
    } else {
        None
    }
}

/// The header that a stored record stands for, if its mode number names a
/// game mode.
pub open spec fn info_from_wire(record: (u16, Seq<char>, i32, u32)) -> Option<WorldInfoView> {
    match GameMode::from_index(record.3) {
        Some(gamemode) => Some(
            WorldInfoView {
                world_version: record.0,
                world_name: record.1,
                world_seed: record.2,
                gamemode,
            },
        ),
        None => None,
    }
}

/// The header of a save file, and where the packed body starts. Nothing
/// if the header is cut short or does not decode.
pub open spec fn parse_world_info(raw: Seq<u8>, word_bits: nat) -> Option<(WorldInfoView, int)> {
    match length_prefixed(raw, 0) {
        Some((header, offset)) => match postcard_info_v3(header, word_bits) {
            Some(record) => match info_from_wire(record) {
                Some(info) => Some((info, offset)),
                None => None,
            },
            None => None,
        },
        None => None,
    }
}

/// What a loaded save file holds.
pub struct SaveView {
    pub chunks: Seq<Seq<u8>>,
    pub player: PlayerDataView,
    pub info: WorldInfoView,
}

/// The world that a save file holds; nothing if any part of the file is cut
/// short, does not unpack or does not decode. `word_bits` is the width of
/// `usize` on the machine that reads the file.
pub open spec fn parse_save(raw: Seq<u8>, word_bits: nat) -> Option<SaveView> {
    match parse_world_info(raw, word_bits) {
        Some((info, offset)) => match lz4_unpacked_prepended(raw.skip(offset)) {
            Some(body) => match parse_body(body) {
                Some((chunks, player_bytes)) => match postcard_player(player_bytes, word_bits) {
                    Some(record) => match player_from_wire(record) {
                        Some(player) => Some(SaveView { chunks, player, info }),
                        None => None,
                    },
                    None => None,
                },
                None => None,
            },
            None => None,
        },
        None => None,
    }
}

/// The blocks that 512 stored codes stand for, if every code names a block
/// type.
pub open spec fn blocks_from_codes(codes: Seq<u8>) -> Option<Seq<BlockType>> {
    if codes.len() == 512 && forall|i: int|
        0 <= i < 512 ==> BlockType::from_id(#[trigger] codes[i]) is Some {
        Some(Seq::new(512, |i: int| BlockType::from_id(codes[i])->0))
    } else {
        None
    }
}

/// The blocks that a packed chunk holds. Nothing if it does not unpack to
/// exactly 512 codes of block types.
pub open spec fn blocks_from_blob(blob: Seq<u8>) -> Option<Seq<BlockType>> {
    match lz4_unpacked(blob, 512) {
        Some(codes) => blocks_from_codes(codes),
        None => None,
    }
}

/// Turns stored slots into stacks.
pub fn slots_from_record(wire: &Vec<(u32, u8, bool)>) -> (slots: Option<Vec<ItemStack>>)
    ensures
        slots is Some <==> forall|i: int|
            0 <= i < wire@.len() ==> slot_from_wire(#[trigger] wire@[i]) is Some,
        slots is Some ==> slots->0@ == Seq::new(wire@.len(), |i: int| slot_from_wire(wire@[i])->0),
{
    let mut slots: Vec<ItemStack> = Vec::new();
    let mut i: usize = 0;
    while i < wire.len()
        invariant
            i <= wire@.len(),
            slots@.len() == i,
            forall|j: int| 0 <= j < i ==> slot_from_wire(#[trigger] wire@[j]) == Some(slots@[j]),
        decreases wire@.len() - i,
    {
        let (number, amount, creative_slot) = wire[i];
        if number > 0xFF {
            return None;
        }
        match ItemType::get_from_id(number as u8) {
            Some(item_type) => slots.push(ItemStack::new(item_type, amount, creative_slot)),
            None => {
                return None;
            },
        }
        i += 1;
    }
    assert(slots@ =~= Seq::new(wire@.len(), |i: int| slot_from_wire(wire@[i])->0));
    Some(slots)
}

/// Turns a stored player record into a player.
pub fn player_from_record(record: PlayerRecord) -> (player: Option<PlayerData>)
    ensures
        match player {
            Some(p) => player_from_wire(record@) == Some(p@),
            None => player_from_wire(record@) is None,
        },
{
    match slots_from_record(&record.slots) {
        Some(slots) => Some(
            PlayerData {
                pos: record.pos,
                rotation: record.rotation,
                inventory: Inventory::from_slots(slots, record.modified),
            },
        ),
        None => None,
    }
}

/// Turns 512 stored codes into the blocks of a chunk.
pub fn blocks_of_codes(codes: &Vec<u8>) -> (blocks: Option<[BlockType; 512]>)
    ensures
        match blocks {
            Some(b) => blocks_from_codes(codes@) == Some(b@),
            None => blocks_from_codes(codes@) is None,
        },
{
    if codes.len() != 512 {
        return None;
    }
    let mut blocks = [BlockType::Air;512];
    let mut i: usize = 0;
    while i < 512
        invariant
            i <= 512,
            codes@.len() == 512,
            forall|j: int| 0 <= j < i ==> BlockType::from_id(#[trigger] codes@[j]) == Some(blocks@[j]),
        decreases 512 - i,
    {
        match BlockType::get_from_id(codes[i]) {
            Some(block) => {
                blocks[i] = block;
            },
            None => {
                return None;
            },
        }
        i += 1;
    }
    assert(blocks@ =~= Seq::new(512, |i: int| BlockType::from_id(codes@[i])->0));
    Some(blocks)
}

/// The codes under which blocks are stored.
pub open spec fn codes_from_blocks(blocks: Seq<BlockType>) -> Seq<u8> {
    Seq::new(blocks.len(), |i: int| blocks[i].id())
}

/// The blocks of a chunk are read back from the codes they are stored
/// under.
pub proof fn lemma_codes_round_trip(blocks: Seq<BlockType>)
    requires
        blocks.len() == 512,
    ensures
        blocks_from_codes(codes_from_blocks(blocks)) == Some(blocks),
{
    let codes = codes_from_blocks(blocks);
    assert forall|i: int| 0 <= i < 512 implies BlockType::from_id(#[trigger] codes[i]) == Some(
        blocks[i],
    ) by {
        BlockType::lemma_id_round_trip(blocks[i], 0);
    }
    assert(Seq::new(512, |i: int| BlockType::from_id(codes[i])->0) =~= blocks);
}

/// How a stack is stored.
pub open spec fn slot_to_wire(slot: ItemStack) -> (u32, u8, bool) {
    (slot.item_type.id() as u32, slot.amount, slot.creative_slot)
}

/// How a player is stored.
pub open spec fn player_to_wire(player: PlayerDataView) -> (
    (u32, u32, u32),
    (u32, u32),
    Seq<(u32, u8, bool)>,
    bool,
) {
    (
        player.pos,
        player.rotation,
        Seq::new(player.slots.len(), |i: int| slot_to_wire(player.slots[i])),
        player.modified,
    )
}

/// A player is read back from the record it is stored as.
pub proof fn lemma_player_wire_round_trip(player: PlayerDataView)
    ensures
        player_from_wire(player_to_wire(player)) == Some(player),
{
    let record = player_to_wire(player);
    assert forall|i: int| 0 <= i < record.2.len() implies slot_from_wire(#[trigger] record.2[i])
        == Some(player.slots[i]) by {
        ItemType::lemma_id_round_trip(player.slots[i].item_type, 0);
    }
    assert(Seq::new(record.2.len(), |i: int| slot_from_wire(record.2[i])->0) =~= player.slots);
}

/// The bytes of the header record.
pub open spec fn info_bytes(info: WorldInfoView) -> Seq<u8> {
    postcard_info_v3_bytes(
        info.world_version,
        info.world_name,
        info.world_seed,
        info.gamemode.index(),
    )
}

/// The bytes of the player record.
pub open spec fn player_bytes(player: PlayerDataView) -> Seq<u8> {
    let record = player_to_wire(player);
    postcard_player_bytes(record.0, record.1, record.2, record.3)
}

/// The unpacked body of the save file of a world.
pub open spec fn save_body(save: SaveView) -> Seq<u8> {
    body_bytes(save.chunks, player_bytes(save.player))
}

/// Whether `raw` is a save file of the world `save`: the header record
/// behind its length, then a packed block that unpacks to the body. Which
/// bytes the packed block holds is the packer's choice.
pub open spec fn is_saved(save: SaveView, raw: Seq<u8>) -> bool {
    let header = info_bytes(save.info);
    &&& raw.len() >= 2 + header.len()
    &&& raw.subrange(0, 2 + header.len() as int) == be16_bytes(header.len()) + header
    &&& save_body(save).len() <= u32::MAX ==> lz4_unpacked_prepended(raw.skip(2 + header.len() as int))
        == Some(save_body(save))
}

/// Whether every length of the save file of a world fits the two bytes
/// that store it: the header record, each chunk blob and the player record.
pub open spec fn lengths_can_be_stored(save: SaveView) -> bool {
    &&& info_bytes(save.info).len() <= 0xFFFF
    &&& lengths_fit(save.chunks, player_bytes(save.player))
}

/// Reading a save file gives back the world it was written for, as long as
/// every length of the file fits the two bytes that store it and the two
/// records are read back from their bytes as they were written.
pub proof fn lemma_saved_world_loads(save: SaveView, raw: Seq<u8>, word_bits: nat)
    requires
        is_saved(save, raw),
        lengths_can_be_stored(save),
        postcard_info_v3(info_bytes(save.info), word_bits) == Some(
            (
                save.info.world_version,
                save.info.world_name,
                save.info.world_seed,
                save.info.gamemode.index(),
            ),
        ),
        postcard_player(player_bytes(save.player), word_bits) == Some(player_to_wire(save.player)),
    ensures
        parse_save(raw, word_bits) == Some(save),
{
    let header = info_bytes(save.info);
    let offset = 2 + header.len() as int;
    let front = raw.subrange(0, offset);
    lemma_be16_round_trip(header.len());
    assert(raw[0] == front[0] && raw[1] == front[1]);
    assert(raw.subrange(2, offset) =~= front.subrange(2, offset));
    assert(front.subrange(2, offset) =~= header);
    assert(length_prefixed(raw, 0) == Some((header, offset)));
    assert(parse_world_info(raw, word_bits) == Some((save.info, offset)));
    lemma_body_size(save.chunks, player_bytes(save.player));
    lemma_body_round_trip(save.chunks, player_bytes(save.player));
    lemma_player_wire_round_trip(save.player);
}

/// Turns the blocks of a chunk into the codes they are stored under.
pub fn codes_of_blocks(blocks: &[BlockType; 512]) -> (codes: Vec<u8>)
    ensures
        codes@ == codes_from_blocks(blocks@),
{
    let mut codes: Vec<u8> = Vec::new();
    let mut i: usize = 0;
    while i < 512
        invariant
            i <= 512,
            blocks@.len() == 512,
            codes@.len() == i,
            forall|j: int| 0 <= j < i ==> codes@[j] == blocks@[j].id(),
        decreases 512 - i,
    {
        codes.push(blocks[i].get_id());
        i += 1;
    }
    assert(codes@ =~= codes_from_blocks(blocks@));
    codes
}

/// Turns a player into the record it is stored as.
pub fn record_of_player(player: &PlayerData) -> (record: PlayerRecord)
    ensures
        record@ == player_to_wire(player@),
{
    let stacks = player.inventory.get_all_slots();
    let mut slots: Vec<(u32, u8, bool)> = Vec::new();
    let mut i: usize = 0;
    while i < stacks.len()
        invariant
            i <= stacks@.len(),
            slots@.len() == i,
            forall|j: int| 0 <= j < i ==> slots@[j] == slot_to_wire(stacks@[j]),
        decreases stacks@.len() - i,
    {
        let stack = stacks[i];
        slots.push((stack.item_type.get_id() as u32, stack.amount, stack.creative_slot));
        i += 1;
    }
    assert(slots@ =~= player_to_wire(player@).2);
    PlayerRecord {
        pos: player.pos,
        rotation: player.rotation,
        slots,
        modified: player.inventory.is_modified(),
    }
}

/// Unpacks a chunk blob into the blocks of a chunk. The chunk is corrupted
/// if the blob does not unpack, unpacks to more or fewer than 512 bytes, or
/// holds a byte that is the code of no block type.
pub fn decompress_chunk(blob: &[u8]) -> (blocks: Result<[BlockType; 512], ChunkReadingError>)
    ensures
        match blocks_from_blob(blob@) {
            Some(expected) => blocks is Ok && blocks->Ok_0@ == expected,
            None => blocks is Err && blocks->Err_0 == ChunkReadingError::CorruptedChunk,
        },
{
    let codes = match unpack_block(blob, 512) {
        Some(codes) => codes,
        None => {
            return Err(ChunkReadingError::CorruptedChunk);
        },
    };
    match blocks_of_codes(&codes) {
        Some(blocks) => Ok(blocks),
        None => Err(ChunkReadingError::CorruptedChunk),
    }
}

/// Packs the blocks of a chunk into a chunk blob, from which they are
/// unpacked again. Which bytes the blob holds is the packer's choice.
pub fn compress_chunk(blocks: &[BlockType; 512]) -> (blob: Vec<u8>)
    ensures
        lz4_unpacked(blob@, 512) == Some(codes_from_blocks(blocks@)),
        blocks_from_blob(blob@) == Some(blocks@),
{
    let codes = codes_of_blocks(blocks);
    proof {
        lemma_codes_round_trip(blocks@);
    }
    pack_block(codes.as_slice())
}

pub struct SaveManager {
    pub chunks_data: ChunkStore,
    pub player_data: PlayerData,
    pub world_info: WorldInfo,
    pub file_name: Option<String>,
}

impl SaveManager {
    pub open spec fn view(&self) -> SaveView {
        SaveView { chunks: self.chunks_data@, player: self.player_data@, info: self.world_info@ }
    }

    pub fn new() -> (manager: Self)
        ensures
            manager@.chunks.len() == 64,
            forall|i: int| 0 <= i < 64 ==> manager@.chunks[i] == Seq::<u8>::empty(),
            manager@.player == (PlayerDataView {
                pos: (0, 0, 0),
                rotation: (0, 0),
                slots: Seq::empty(),
                modified: true,
            }),
            manager@.info == (WorldInfoView {
                world_version: WORLD_VERSION,
                world_name: Seq::empty(),
                world_seed: 1,
                gamemode: GameMode::Survival,
            }),
            manager.file_name is None,
    {
        SaveManager {
            chunks_data: ChunkStore::new(),
            player_data: PlayerData::new(),
            world_info: WorldInfo::new(),
            file_name: None,
        }
    }

    pub fn get_current_loaded_world_info(&self) -> (info: &WorldInfo)
        ensures
            *info == self.world_info,
    {
        &self.world_info
    }

    pub fn set_world_seed(&mut self, seed: i32)
        ensures
            *final(self) == (SaveManager {
                world_info: WorldInfo { world_seed: seed, ..old(self).world_info },
                ..*old(self)
            }),
    {
        self.world_info.world_seed = seed;
    }

    pub fn set_world_name(&mut self, world_name: &String)
        ensures
            *final(self) == (SaveManager {
                world_info: WorldInfo { world_name: *world_name, ..old(self).world_info },
                ..*old(self)
            }),
    {
        self.world_info.world_name = world_name.clone();
    }

    pub fn set_gamemode(&mut self, gamemode: GameMode)
        ensures
            *final(self) == (SaveManager {
                world_info: WorldInfo { gamemode, ..old(self).world_info },
                ..*old(self)
            }),
    {
        self.world_info.gamemode = gamemode;
    }

    pub fn get_game_mode(&self) -> (mode: GameMode)
        ensures
            mode == self@.info.gamemode,
    {
        self.world_info.gamemode
    }

    /// Packs `chunk` and stores it at its position, if that position is
    /// inside the world.
    pub fn set_chunk(&mut self, chunk: &Chunk) -> (stored: bool)
        ensures
            stored == in_world(chunk.pos.x as int, chunk.pos.y as int, chunk.pos.z as int),
            !stored ==> *final(self) == *old(self),
            stored ==> {
                let index = chunk_index(chunk.pos.x as int, chunk.pos.y as int, chunk.pos.z as int);
                &&& *final(self) == (SaveManager {
                    chunks_data: final(self).chunks_data,
                    ..*old(self)
                })
                &&& final(self)@.chunks.len() == 64
                &&& forall|i: int|
                    0 <= i < 64 && i != index ==> final(self)@.chunks[i] == old(self)@.chunks[i]
                &&& lz4_unpacked(final(self)@.chunks[index], 512) == Some(
                    codes_from_blocks(chunk.blocks@),
                )
                &&& blocks_from_blob(final(self)@.chunks[index]) == Some(chunk.blocks@)
            },
    {
        let index = match linear_index(&chunk.pos) {
            Some(index) => index,
            None => {
                return false;
            },
        };
        let compressed = compress_chunk(&chunk.blocks);
        self.chunks_data.set(index, compressed)
    }

    /// The save file of the world. Reading it gives the world back, as long
    /// as every length of it fits the two bytes that store it.
    pub fn get_raw(&self) -> (data: Vec<u8>)
        ensures
            is_saved(self@, data@),
            lengths_can_be_stored(self@) ==> parse_save(data@, usize::BITS as nat) == Some(self@),
    {
        let mut data: Vec<u8> = Vec::new();
        let raw_world_info = encode_info_v3(
            self.world_info.world_version,
            &self.world_info.world_name,
            self.world_info.world_seed,
            self.world_info.gamemode.get_index(),
        );
        push_be16(&mut data, raw_world_info.len());
        data.extend_from_slice(raw_world_info.as_slice());
        let ghost header = raw_world_info@;
        assert(data@ =~= be16_bytes(header.len()) + header);

        let record = record_of_player(&self.player_data);
        let raw_player_data = encode_player(&record);
        let body = build_body(&self.chunks_data, &raw_player_data);
        let packed = pack_prepended(body.as_slice());
        let ghost front = data@;
        data.extend_from_slice(packed.as_slice());
        assert(data@ =~= front + packed@);
        assert(data@.subrange(0, 2 + header.len() as int) =~= front);
        assert(data@.skip(2 + header.len() as int) =~= packed@);
        proof {
            if lengths_can_be_stored(self@) {
                lemma_saved_world_loads(self@, data@, usize::BITS as nat);
            }
        }
        data
    }

    /// Reads the header, and finds where the packed body starts.
    fn read_world_info(data: &[u8]) -> (read: Result<(WorldInfo, usize), SaveFileLoadError>)
        ensures
            match read {
                Ok((info, offset)) => offset <= data@.len() && parse_world_info(
                    data@,
                    usize::BITS as nat,
                ) == Some((info@, offset as int)),
                Err(_) => parse_world_info(data@, usize::BITS as nat) is None,
            },
    {
        let (start, end) = match take_length_prefixed(data, 0) {
            Some(found) => found,
            None => {
                return Err(SaveFileLoadError::CorruptedWorld);
            },
        };
        let (world_version, world_name, world_seed, mode) = match decode_info_v3(
            slice_subrange(data, start, end),
        ) {
            Some(record) => record,
            None => {
                return Err(SaveFileLoadError::CorruptedWorld);
            },
        };
        match GameMode::get_from_index(mode) {
            Some(gamemode) => Ok(
                (WorldInfo { world_version, world_name, world_seed, gamemode }, end),
            ),
            None => Err(SaveFileLoadError::CorruptedWorld),
        }
    }

    /// Reads the header of a save file, and nothing else of it.
    pub fn get_world_info(&self, raw_data: Vec<u8>) -> (info: Option<WorldInfo>)
        ensures
            match info {
                Some(found) => parse_world_info(
                    raw_data@,
                    usize::BITS as nat,
                ) matches Some((expected, _)) && expected == found@,
                None => parse_world_info(raw_data@, usize::BITS as nat) is None,
            },
    {
        match Self::read_world_info(raw_data.as_slice()) {
            Ok((info, _)) => Some(info),
            Err(_) => None,
        }
    }

    pub fn load_from_file(&mut self, raw_data: Vec<u8>) -> (loaded: Result<(), SaveFileLoadError>)
        ensures
            loaded is Ok <==> parse_save(raw_data@, usize::BITS as nat) is Some,
            loaded is Ok ==> Some(final(self)@) == parse_save(raw_data@, usize::BITS as nat),
            loaded is Ok ==> final(self).file_name == old(self).file_name,
            loaded is Ok ==> blobs_fit(final(self)@.chunks),
            loaded is Err ==> *final(self) == *old(self),
            loaded is Err ==> loaded->Err_0 == SaveFileLoadError::CorruptedWorld,
    {
        let (world_info, offset) = match Self::read_world_info(raw_data.as_slice()) {
            Ok(read) => read,
            Err(_) => {
                return Err(SaveFileLoadError::CorruptedWorld);
            },
        };
        let packed = slice_subrange(raw_data.as_slice(), offset, raw_data.len());
        assert(packed@ =~= raw_data@.skip(offset as int));
        let body = match unpack_prepended(packed) {
            Some(body) => body,
            None => {
                return Err(SaveFileLoadError::CorruptedWorld);
            },
        };
        let (chunks_data, player_bytes) = match split_body(body.as_slice()) {
            Some(parts) => {
                proof {
                    lemma_parsed_lengths_fit(body@);
                }
                parts
            },
            None => {
                return Err(SaveFileLoadError::CorruptedWorld);
            },
        };
        let record = match decode_player(player_bytes.as_slice()) {
            Some(record) => record,
            None => {
                return Err(SaveFileLoadError::CorruptedWorld);
            },
        };
        let player_data = match player_from_record(record) {
            Some(player) => player,
            None => {
                return Err(SaveFileLoadError::CorruptedWorld);
            },
        };
        self.chunks_data = chunks_data;
        self.player_data = player_data;
        self.world_info = world_info;
        Ok(())
    }

    pub fn get_chunk_at_pos(&self, pos: Vector3<isize>) -> (chunk: Result<Chunk, ChunkReadingError>)
        ensures
            !in_world(pos.x as int, pos.y as int, pos.z as int) ==> chunk is Err && chunk->Err_0
                == ChunkReadingError::OOBChunk,
            in_world(pos.x as int, pos.y as int, pos.z as int) ==> {
                let blob = self@.chunks[chunk_index(pos.x as int, pos.y as int, pos.z as int)];
                match blocks_from_blob(blob) {
                    Some(blocks) => chunk is Ok && chunk->Ok_0.blocks@ == blocks && chunk->Ok_0.pos
                        == pos && !chunk->Ok_0.generated && chunk->Ok_0.need_new_mesh
                        && !chunk->Ok_0.need_sorting,
                    None => chunk is Err && chunk->Err_0 == ChunkReadingError::CorruptedChunk,
                }
            },
    {
        let index = match linear_index(&pos) {
            Some(index) => index,
            None => {
                return Err(ChunkReadingError::OOBChunk);
            },
        };
        let raw_chunk = match self.chunks_data.get(index) {
            Some(blob) => blob,
            None => {
                return Err(ChunkReadingError::OOBChunk);
            },
        };
        match decompress_chunk(raw_chunk.as_slice()) {
            Ok(blocks) => {
                let mut chunk = Chunk::new(pos);
                chunk.blocks = blocks;
                Ok(chunk)
            },
            Err(error) => Err(error),
        }
    }
    /// The player's position, as bit patterns.
    pub fn get_player_pos(&self) -> (pos: Vector3<u32>)
        ensures
            pos == (Vector3 {
                x: self.player_data.pos.0,
                y: self.player_data.pos.1,
                z: self.player_data.pos.2,
            }),
    {
        Vector3::new(self.player_data.pos.0, self.player_data.pos.1, self.player_data.pos.2)
    }

    pub fn get_player_inventory(&self) -> (inventory: Inventory)
        ensures
            inventory@ == self@.player.slots,
            inventory.modified_flag() == self@.player.modified,
    {
        self.player_data.inventory.clone()
    }

    /// The player's pitch and yaw, as bit patterns, with zero as the third
    /// component.
    pub fn get_player_rot(&self) -> (rot: Vector3<u32>)
        ensures
            rot == (Vector3 { x: self.player_data.rotation.0, y: self.player_data.rotation.1, z: 0u32 }),
    {
        Vector3::new(self.player_data.rotation.0, self.player_data.rotation.1, 0)
    }

    /// Empties every chunk and puts a new player in place. The header stays.
    pub fn clean(&mut self)
        ensures
            final(self)@.chunks.len() == 64,
            forall|i: int| 0 <= i < 64 ==> final(self)@.chunks[i] == Seq::<u8>::empty(),
            final(self)@.player == (PlayerDataView {
                pos: (0, 0, 0),
                rotation: (0, 0),
                slots: Seq::empty(),
                modified: true,
            }),
            final(self).world_info == old(self).world_info,
            final(self).file_name == old(self).file_name,
    {
        self.chunks_data.clear();
        self.player_data = PlayerData::new();
    }
}

} // verus!
