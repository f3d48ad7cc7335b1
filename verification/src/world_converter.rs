//! The two historical save formats and the migration from the older one to
//! the newer one.
//!
//! The migration mirrors the world about its two horizontal centre planes:
//! chunks change place in the world, and blocks change place in their
//! chunk. Block and item codes are looked up in the newer tables.

use vstd::prelude::*;
use crate::save_format::chunk_index;
use crate::save_format::in_world;
use crate::save_format::block_index;
use crate::save_format::in_chunk;
use crate::save_format::lemma_block_index_unique;
use crate::save_format::lemma_chunk_index_unique;
use crate::world_converter::vector::Vector3;

pub mod numcraft_v0_1_0;
pub mod numcraft_v0_1_3;
pub mod vector;

verus! {

/// The mirror image of `coordinate` on an axis of `extent` cells.
pub open spec fn mirror(extent: int, coordinate: int) -> int {
    extent - 1 - coordinate
}

/// Mirroring twice on the same axis gives the coordinate back, and a
/// coordinate is on the axis exactly when its mirror image is.
pub proof fn lemma_mirror_involution(extent: int, coordinate: int)
    ensures
        mirror(extent, mirror(extent, coordinate)) == coordinate,
        0 <= coordinate < extent <==> 0 <= mirror(extent, coordinate) < extent,
{
}

/// The index of the chunk that is the mirror image of chunk `index`.
pub open spec fn mirrored_chunk_index(index: int) -> int {
    chunk_index(mirror(4, index % 4), mirror(4, (index / 4) % 4), index / 16)
}

/// The index of the block that is the mirror image of block `index` of a
/// chunk.
pub open spec fn mirrored_block_index(index: int) -> int {
    block_index(mirror(8, index % 8), mirror(8, (index / 8) % 8), index / 64)
}

/// Mirroring a chunk index twice gives it back, and the mirror image of the
/// chunk at (`x`, `y`, `z`) is the chunk at the mirrored position.
pub proof fn lemma_mirrored_chunk_index(index: int, x: int, y: int, z: int)
    ensures
        0 <= index < 64 ==> 0 <= mirrored_chunk_index(index) < 64 && mirrored_chunk_index(
            mirrored_chunk_index(index),
        ) == index,
        in_world(x, y, z) ==> mirrored_chunk_index(chunk_index(x, y, z)) == chunk_index(
            mirror(4, x),
            mirror(4, y),
            z,
        ),
{
    if in_world(x, y, z) {
        lemma_chunk_index_unique(x, y, z);
    }
    if 0 <= index < 64 {
        let cx = index % 4;
        let cy = (index / 4) % 4;
        let cz = index / 16;
        assert(index == chunk_index(cx, cy, cz));
        lemma_chunk_index_unique(3 - cx, 3 - cy, cz);
    }
}

/// Mirroring a block index twice gives it back, and the mirror image of the
/// block at (`x`, `y`, `z`) is the block at the mirrored position.
pub proof fn lemma_mirrored_block_index(index: int, x: int, y: int, z: int)
    ensures
        0 <= index < 512 ==> 0 <= mirrored_block_index(index) < 512 && mirrored_block_index(
            mirrored_block_index(index),
        ) == index,
        in_chunk(x, y, z) ==> mirrored_block_index(block_index(x, y, z))
            == block_index(mirror(8, x), mirror(8, y), z),
{
    if in_chunk(x, y, z) {
        lemma_block_index_unique(x, y, z);
    }
    if 0 <= index < 512 {
        let bx = index % 8;
        let by = (index / 8) % 8;
        let bz = index / 64;
        assert(index == block_index(bx, by, bz));
        lemma_block_index_unique(7 - bx, 7 - by, bz);
    }
}

/// The block type of the newer table that stands for `block`: the one with
/// the same code, if there is one.
pub open spec fn remapped_block(block: numcraft_v0_1_0::constants::BlockType) -> Option<
    numcraft_v0_1_3::constants::BlockType,
> {
    numcraft_v0_1_3::constants::BlockType::from_id(block.id())
}

/// The item type of the newer table that stands for `item`: the one with
/// the same code, if there is one.
pub open spec fn remapped_item(item: numcraft_v0_1_0::constants::ItemType) -> Option<
    numcraft_v0_1_3::constants::ItemType,
> {
    numcraft_v0_1_3::constants::ItemType::from_id(item.id())
}

/// Every block and item type of the older tables has one in the newer
/// tables, under the same code.
pub proof fn lemma_every_code_maps(
    block: numcraft_v0_1_0::constants::BlockType,
    item: numcraft_v0_1_0::constants::ItemType,
)
    ensures
        remapped_block(block) matches Some(found) && found.id() == block.id(),
        remapped_item(item) matches Some(found) && found.id() == item.id(),
{
}

/// The game mode of the newer format that stands for `mode`: creative for
/// creative, survival for everything else.
pub open spec fn converted_mode(
    mode: numcraft_v0_1_0::save_manager::GameMode,
) -> numcraft_v0_1_3::save_manager::GameMode {
    if mode == numcraft_v0_1_0::save_manager::GameMode::Creative {
        numcraft_v0_1_3::save_manager::GameMode::Creative
    } else {
        numcraft_v0_1_3::save_manager::GameMode::Survival
    }
}

/// The stack of the newer format that stands for `stack`: the remapped item
/// type, the amount that the stack reports, and its creative flag.
pub open spec fn converted_stack(stack: numcraft_v0_1_0::inventory::ItemStack) -> Option<
    numcraft_v0_1_3::inventory::ItemStack,
> {
    match remapped_item(stack.item_type) {
        Some(item_type) => Some(
            numcraft_v0_1_3::inventory::ItemStack {
                item_type,
                amount: stack.reported_amount(),
                creative_slot: stack.creative_slot,
            },
        ),
        None => None,
    }
}

/// The slots of the newer format that stand for `slots`, one for one.
pub open spec fn converted_slots(slots: Seq<numcraft_v0_1_0::inventory::ItemStack>) -> Option<
    Seq<numcraft_v0_1_3::inventory::ItemStack>,
> {
    if forall|i: int| 0 <= i < slots.len() ==> converted_stack(#[trigger] slots[i]) is Some {
        Some(Seq::new(slots.len(), |i: int| converted_stack(slots[i])->0))
    } else {
        None
    }
}

/// The blocks of the mirrored chunk: at every place the remapped block
/// of the mirror image of that place.
pub open spec fn converted_blocks(blocks: Seq<numcraft_v0_1_0::constants::BlockType>) -> Option<
    Seq<numcraft_v0_1_3::constants::BlockType>,
> {
    if blocks.len() == 512 && forall|i: int|
        0 <= i < 512 ==> remapped_block(#[trigger] blocks[i]) is Some {
        Some(Seq::new(512, |i: int| remapped_block(blocks[mirrored_block_index(i)])->0))
    } else {
        None
    }
}

/// The newer tables hold every block and item of the older ones, so
/// every inventory and every chunk of 512 blocks has a converted form.
pub proof fn lemma_tables_suffice(
    slots: Seq<numcraft_v0_1_0::inventory::ItemStack>,
    blocks: Seq<numcraft_v0_1_0::constants::BlockType>,
)
    ensures
        converted_slots(slots) is Some,
        blocks.len() == 512 ==> converted_blocks(blocks) is Some,
{
    assert forall|i: int| 0 <= i < slots.len() implies converted_stack(#[trigger] slots[i])
        is Some by {
        lemma_every_code_maps(numcraft_v0_1_0::constants::BlockType::Air, slots[i].item_type);
    }
    assert forall|i: int| 0 <= i < blocks.len() implies remapped_block(#[trigger] blocks[i])
        is Some by {
        lemma_every_code_maps(blocks[i], numcraft_v0_1_0::constants::ItemType::Air);
    }
}

/// The blocks that the migrated form of a packed chunk holds. Nothing if
/// the chunk does not unpack to blocks, or holds a block that the newer
/// table lacks.
pub open spec fn converted_blob(blob: Seq<u8>) -> Option<
    Seq<numcraft_v0_1_3::constants::BlockType>,
> {
    match numcraft_v0_1_0::save_manager::blocks_from_blob(blob) {
        Some(blocks) => converted_blocks(blocks),
        None => None,
    }
}

/// Whether a loaded world can be migrated: every chunk of it unpacks to
/// blocks that the newer table has, and every slot holds an item that the
/// newer table has. With the tables as they are, that is the case as soon
/// as every chunk unpacks to blocks.
pub open spec fn can_convert(source: numcraft_v0_1_0::save_manager::SaveView) -> bool {
    &&& converted_slots(source.player.slots) is Some
    &&& forall|i: int| 0 <= i < 64 ==> converted_blob(#[trigger] source.chunks[i]) is Some
}

/// A world can be migrated exactly when each of its chunks can be read.
pub proof fn lemma_readable_world_converts(source: numcraft_v0_1_0::save_manager::SaveView)
    ensures
        can_convert(source) <==> forall|i: int|
            0 <= i < 64 ==> numcraft_v0_1_0::save_manager::blocks_from_blob(
                #[trigger] source.chunks[i],
            ) is Some,
{
    lemma_tables_suffice(source.player.slots, Seq::empty());
    assert forall|i: int| 0 <= i < 64 implies (converted_blob(#[trigger] source.chunks[i]) is Some
        <==> numcraft_v0_1_0::save_manager::blocks_from_blob(source.chunks[i]) is Some) by {
        if let Some(blocks) = numcraft_v0_1_0::save_manager::blocks_from_blob(source.chunks[i]) {
            lemma_tables_suffice(Seq::empty(), blocks);
        }
    }
}

/// Whether `target` is the migrated form of `source`, with the player at
/// `player_pos`: name and seed are kept, the game mode is converted, the
/// player keeps rotation and converted inventory, and every chunk of the
/// target holds the converted blocks of the chunk that is its mirror image.
/// Which bytes a packed chunk holds is the packer's choice.
pub open spec fn is_conversion(
    source: numcraft_v0_1_0::save_manager::SaveView,
    player_pos: (u32, u32, u32),
    target: numcraft_v0_1_3::save_manager::SaveView,
) -> bool {
    &&& target.info == (numcraft_v0_1_3::save_manager::WorldInfoView {
        world_version: numcraft_v0_1_3::constants::save_manager::WORLD_VERSION,
        world_name: source.info.world_name,
        world_seed: source.info.world_seed,
        gamemode: converted_mode(source.info.gamemode),
    })
    &&& target.player.pos == player_pos
    &&& target.player.rotation == source.player.rotation
    &&& Some(target.player.slots) == converted_slots(source.player.slots)
    &&& target.player.modified
    &&& target.chunks.len() == 64
    &&& forall|i: int|
        0 <= i < 64 ==> converted_blob(source.chunks[mirrored_chunk_index(i)]) is Some
            && numcraft_v0_1_3::save_manager::blocks_from_blob(#[trigger] target.chunks[i])
            == converted_blob(source.chunks[mirrored_chunk_index(i)])
}

/// Whether `raw` is a save file of `target`, and `target` the migrated
/// form of `source` with the player at `player_pos`. Such a file is read
/// back as `target` as long as every length of it fits the two bytes that
/// store it.
pub open spec fn is_saved_conversion(
    source: numcraft_v0_1_0::save_manager::SaveView,
    player_pos: (u32, u32, u32),
    target: numcraft_v0_1_3::save_manager::SaveView,
    raw: Seq<u8>,
    word_bits: nat,
) -> bool {
    &&& is_conversion(source, player_pos, target)
    &&& numcraft_v0_1_3::save_manager::is_saved(target, raw)
    &&& numcraft_v0_1_3::save_manager::lengths_can_be_stored(target)
        ==> numcraft_v0_1_3::save_manager::parse_save(raw, word_bits) == Some(target)
}

/// The position of the chunk that is the mirror image of the chunk at
/// `pos`, if `pos` is inside the world: mirrored on the two horizontal
/// axes, at the same height.
pub fn mirrored_chunk_pos(pos: &Vector3<isize>) -> (mirrored: Option<Vector3<isize>>)
    ensures
        mirrored is Some <==> in_world(pos.x as int, pos.y as int, pos.z as int),
        mirrored matches Some(m) ==> m.x == mirror(4, pos.x as int) && m.y == mirror(
            4,
            pos.y as int,
        ) && m.z == pos.z,
{
    if pos.x < 0 || pos.x >= 4 || pos.y < 0 || pos.y >= 4 || pos.z < 0 || pos.z >= 4 {
        None
    } else {
        Some(Vector3::new(3 - pos.x, 3 - pos.y, pos.z))
    }
}

/// The position of the block that is the mirror image of the block at
/// `pos`, if `pos` is inside the chunk: mirrored on the two horizontal
/// axes, at the same height.
pub fn mirrored_block_pos(pos: &Vector3<usize>) -> (mirrored: Option<Vector3<usize>>)
    ensures
        mirrored is Some <==> in_chunk(pos.x as int, pos.y as int, pos.z as int),
        mirrored matches Some(m) ==> m.x == mirror(8, pos.x as int) && m.y == mirror(
            8,
            pos.y as int,
        ) && m.z == pos.z,
{
    if pos.x >= 8 || pos.y >= 8 || pos.z >= 8 {
        None
    } else {
        Some(Vector3::new(7 - pos.x, 7 - pos.y, pos.z))
    }
}

pub fn convert_block(block: numcraft_v0_1_0::constants::BlockType) -> (converted: Option<
    numcraft_v0_1_3::constants::BlockType,
>)
    ensures
        converted == remapped_block(block),
{
    numcraft_v0_1_3::constants::BlockType::get_from_id(block.get_id())
}

pub fn convert_item(item: numcraft_v0_1_0::constants::ItemType) -> (converted: Option<
    numcraft_v0_1_3::constants::ItemType,
>)
    ensures
        converted == remapped_item(item),
{
    numcraft_v0_1_3::constants::ItemType::get_from_id(item.get_id())
}

pub fn convert_game_mode(
    mode: numcraft_v0_1_0::save_manager::GameMode,
) -> (converted: numcraft_v0_1_3::save_manager::GameMode)
    ensures
        converted == converted_mode(mode),
{
    if mode == numcraft_v0_1_0::save_manager::GameMode::Creative {
        numcraft_v0_1_3::save_manager::GameMode::Creative
    } else {
        numcraft_v0_1_3::save_manager::GameMode::Survival
    }
}

pub fn convert_item_stack(stack: &numcraft_v0_1_0::inventory::ItemStack) -> (converted: Option<
    numcraft_v0_1_3::inventory::ItemStack,
>)
    ensures
        converted == converted_stack(*stack),
{
    match convert_item(stack.get_item_type()) {
        Some(item_type) => Some(
            numcraft_v0_1_3::inventory::ItemStack::new(
                item_type,
                stack.get_amount(),
                stack.creative_slot,
            ),
        ),
        None => None,
    }
}

/// Converts an inventory slot by slot. The new inventory counts as
/// modified.
pub fn convert_inventory(inventory: &numcraft_v0_1_0::inventory::Inventory) -> (converted: Option<
    numcraft_v0_1_3::inventory::Inventory,
>)
    ensures
        converted is Some,
        match converted {
            Some(target) => Some(target@) == converted_slots(inventory@) && target.modified_flag(),
            None => converted_slots(inventory@) is None,
        },
{
    proof {
        lemma_tables_suffice(inventory@, Seq::empty());
    }
    let stacks = inventory.get_all_slots();
    let mut slots: Vec<numcraft_v0_1_3::inventory::ItemStack> = Vec::new();
    let mut i: usize = 0;
    while i < stacks.len()
        invariant
            i <= stacks@.len(),
            slots@.len() == i,
            forall|j: int| 0 <= j < i ==> converted_stack(#[trigger] stacks@[j]) == Some(slots@[j]),
        decreases stacks@.len() - i,
    {
        match convert_item_stack(&stacks[i]) {
            Some(stack) => slots.push(stack),
            None => {
                return None;
            },
        }
        i += 1;
    }
    assert(slots@ =~= Seq::new(stacks@.len(), |i: int| converted_stack(stacks@[i])->0));
    Some(numcraft_v0_1_3::inventory::Inventory::from_slots(slots, true))
}

/// Converts a chunk: its position in the world and the position of every
/// block in it are mirrored on the two horizontal axes, and every block is
/// remapped. Nothing if the chunk is not inside the world.
pub fn convert_chunk(chunk: &numcraft_v0_1_0::chunk::Chunk) -> (converted: Option<
    numcraft_v0_1_3::chunk::Chunk,
>)
    ensures
        converted is Some <==> in_world(chunk.pos.x as int, chunk.pos.y as int, chunk.pos.z as int),
        converted matches Some(target) ==> {
            &&& target.pos.x == mirror(4, chunk.pos.x as int)
            &&& target.pos.y == mirror(4, chunk.pos.y as int)
            &&& target.pos.z == chunk.pos.z
            &&& Some(target.blocks@) == converted_blocks(chunk.blocks@)
            &&& forall|x: int, y: int, z: int|
                in_chunk(x, y, z) ==> remapped_block(
                    chunk.blocks@[block_index(x, y, z)],
                ) == Some(#[trigger] target.blocks@[block_index(mirror(8, x), mirror(8, y), z)])
            &&& !target.generated
            &&& target.need_new_mesh
            &&& !target.need_sorting
        },
{
    proof {
        lemma_tables_suffice(Seq::empty(), chunk.blocks@);
    }
    let mut target = match mirrored_chunk_pos(chunk.get_pos()) {
        Some(pos) => numcraft_v0_1_3::chunk::Chunk::new(pos),
        None => {
            return None;
        },
    };
    let mut i: usize = 0;
    while i < 512
        invariant
            i <= 512,
            chunk.blocks@.len() == 512,
            target.pos.x == mirror(4, chunk.pos.x as int),
            target.pos.y == mirror(4, chunk.pos.y as int),
            target.pos.z == chunk.pos.z,
            !target.generated,
            target.need_new_mesh,
            !target.need_sorting,
            forall|j: int|
                0 <= j < i ==> remapped_block(chunk.blocks@[mirrored_block_index(j)]) == Some(
                    #[trigger] target.blocks@[j],
                ),
            forall|j: int|
                0 <= j < i ==> remapped_block(#[trigger] chunk.blocks@[mirrored_block_index(j)])
                    is Some,
        decreases 512 - i,
    {
        let from = match mirrored_block_pos(&Vector3::new(i % 8, (i / 8) % 8, i / 64)) {
            Some(from) => from,
            None => {
                return None;
            },
        };
        match convert_block(chunk.blocks[from.x + from.y * 8 + from.z * 64]) {
            Some(block) => {
                target.blocks[i] = block;
            },
            None => {
                return None;
            },
        }
        i += 1;
    }
    proof {
        assert forall|j: int| 0 <= j < 512 implies remapped_block(#[trigger] chunk.blocks@[j])
            is Some by {
            lemma_mirrored_block_index(j, 0, 0, 0);
            let k = mirrored_block_index(j);
            assert(remapped_block(chunk.blocks@[mirrored_block_index(k)]) is Some);
        }
        assert(target.blocks@ =~= converted_blocks(chunk.blocks@)->0);
        assert forall|x: int, y: int, z: int| in_chunk(x, y, z) implies remapped_block(
            chunk.blocks@[block_index(x, y, z)],
        ) == Some(#[trigger] target.blocks@[block_index(mirror(8, x), mirror(8, y), z)]) by {
            lemma_mirrored_block_index(0, mirror(8, x), mirror(8, y), z);
        }
    }
    Some(target)
}

/// Migrates a loaded world, putting the player at `player_pos`: the
/// position it had in the source, mirrored on the two horizontal axes, as
/// bit patterns. Nothing if a chunk of the source cannot be read or an
/// item or block has no counterpart.
pub fn convert_world(
    source: &numcraft_v0_1_0::save_manager::SaveManager,
    player_pos: (u32, u32, u32),
) -> (converted: Option<numcraft_v0_1_3::save_manager::SaveManager>)
    ensures
        converted is Some <==> can_convert(source@),
        converted matches Some(target) ==> is_conversion(source@, player_pos, target@)
            && target.file_name is None,
{
    let count = source.chunks_data.len();
    let mut target = numcraft_v0_1_3::save_manager::SaveManager::new();
    target.set_gamemode(convert_game_mode(source.get_game_mode()));
    target.set_world_name(&source.world_info.world_name);
    target.set_world_seed(source.world_info.world_seed);
    let inventory = match convert_inventory(&source.player_data.inventory) {
        Some(inventory) => inventory,
        None => {
            return None;
        },
    };
    target.player_data = numcraft_v0_1_3::save_manager::PlayerData {
        pos: player_pos,
        rotation: source.player_data.rotation,
        inventory,
    };
    let ghost info = target.world_info;
    let ghost player = target.player_data;

    let mut i: usize = 0;
    while i < count
        invariant
            i <= 64,
            count == 64,
            source@.chunks.len() == 64,
            target@.chunks.len() == 64,
            target.world_info == info,
            target.player_data == player,
            target.file_name is None,
            forall|j: int|
                0 <= j < i ==> converted_blob(source@.chunks[mirrored_chunk_index(j)]) is Some
                    && numcraft_v0_1_3::save_manager::blocks_from_blob(#[trigger] target@.chunks[j])
                    == converted_blob(source@.chunks[mirrored_chunk_index(j)]),
        decreases 64 - i,
    {
        let x: isize = (i % 4) as isize;
        let y: isize = ((i / 4) % 4) as isize;
        let z: isize = (i / 16) as isize;
        proof {
            lemma_mirrored_chunk_index(i as int, 0, 0, 0);
        }
        let from = match mirrored_chunk_pos(&Vector3::new(x, y, z)) {
            Some(from) => from,
            None => {
                return None;
            },
        };
        let chunk = match source.get_chunk_at_pos(from) {
            Ok(chunk) => chunk,
            Err(_) => {
                return None;
            },
        };
        let mirrored = match convert_chunk(&chunk) {
            Some(mirrored) => mirrored,
            None => {
                return None;
            },
        };
        assert(chunk_index(mirrored.pos.x as int, mirrored.pos.y as int, mirrored.pos.z as int) == i);
        target.set_chunk(&mirrored);
        i += 1;
    }
    proof {
        assert forall|j: int| 0 <= j < 64 implies converted_blob(#[trigger] source@.chunks[j])
            is Some by {
            lemma_mirrored_chunk_index(j, 0, 0, 0);
            let k = mirrored_chunk_index(j);
            assert(numcraft_v0_1_3::save_manager::blocks_from_blob(target@.chunks[k])
                == converted_blob(source@.chunks[mirrored_chunk_index(k)]));
        }
    }
    Some(target)
}

/// Migrates a loaded world of format version 0.1.0 and writes it as a save
/// file of format version 0.1.3. `player_pos` is the player's position in
/// the migrated world, as bit patterns.
pub fn from_v0_1_0_to_0_1_3(
    source: &numcraft_v0_1_0::save_manager::SaveManager,
    player_pos: (u32, u32, u32),
) -> (data: Option<Vec<u8>>)
    ensures
        data is Some <==> can_convert(source@),
        data is Some ==> exists|target: numcraft_v0_1_3::save_manager::SaveView|
            #[trigger] is_saved_conversion(
                source@,
                player_pos,
                target,
                data->0@,
                usize::BITS as nat,
            ),
{
    match convert_world(source, player_pos) {
        Some(target) => {
            let bytes = target.get_raw();
            let data = Some(bytes);
            assert(is_saved_conversion(source@, player_pos, target@, data->0@, usize::BITS as nat));
            data
        },
        None => None,
    }
}

} // verus!
