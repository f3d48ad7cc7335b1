use numcraft_world::world_converter::convert_block;
use numcraft_world::world_converter::convert_chunk;
use numcraft_world::world_converter::convert_game_mode;
use numcraft_world::world_converter::convert_inventory;
use numcraft_world::world_converter::convert_item;
use numcraft_world::world_converter::convert_item_stack;
use numcraft_world::world_converter::convert_world;
use numcraft_world::world_converter::from_v0_1_0_to_0_1_3;
use numcraft_world::world_converter::mirrored_block_pos;
use numcraft_world::world_converter::mirrored_chunk_pos;
use numcraft_world::world_converter::numcraft_v0_1_0;
use numcraft_world::world_converter::numcraft_v0_1_0::constants::BlockType as OldBlock;
use numcraft_world::world_converter::numcraft_v0_1_0::constants::ItemType as OldItem;
use numcraft_world::world_converter::numcraft_v0_1_3;
use numcraft_world::world_converter::numcraft_v0_1_3::constants::BlockType as NewBlock;
use numcraft_world::world_converter::numcraft_v0_1_3::constants::ItemType as NewItem;
use numcraft_world::world_converter::vector::Vector3;

fn old_codes(x: usize, y: usize, z: usize) -> Vec<u8> {
    let mut codes = vec![0u8; 512];
    codes[0] = 1;
    codes[x + y * 8 + z * 64] = 2;
    codes[7 + 7 * 8 + 7 * 64] = 3;
    codes
}

fn old_save(mode: u32, spoiled_chunk: Option<usize>) -> Vec<u8> {
    let header = postcard::to_allocvec(&("Old World", 1234i32, mode)).unwrap();
    let mut raw = (header.len() as u16).to_be_bytes().to_vec();
    raw.extend(&header);
    let mut blobs = Vec::new();
    for index in 0..64usize {
        let (x, y, z) = (index % 4, (index / 4) % 4, index / 16);
        let mut codes = old_codes(x + 1, y + 2, z + 3);
        if spoiled_chunk == Some(index) {
            codes[9] = 4;
        }
        blobs.push(lz4_flex::compress(&codes));
    }
    let mut body = Vec::new();
    for blob in &blobs {
        body.extend((blob.len() as u16).to_be_bytes());
    }
    for blob in &blobs {
        body.extend(blob);
    }
    let player = postcard::to_allocvec(&(
        (3.5f32, 10.0f32, -1.0f32),
        (0.25f32, 1.0f32),
        (vec![(1u32, 5u8, false), (0u32, 0u8, false), (3u32, 9u8, true)], false),
    ))
    .unwrap();
    body.extend((player.len() as u16).to_be_bytes());
    body.extend(&player);
    raw.extend(lz4_flex::compress_prepend_size(&body));
    raw
}

fn load_old(raw: &Vec<u8>) -> numcraft_v0_1_0::save_manager::SaveManager {
    let mut manager = numcraft_v0_1_0::save_manager::SaveManager::new();
    assert_eq!(manager.load_from_file(raw), Ok(()));
    manager
}

#[test]
fn old_save_is_loaded() {
    let manager = load_old(&old_save(1, None));
    assert_eq!(manager.world_info.world_name, "Old World");
    assert_eq!(manager.world_info.world_seed, 1234);
    assert_eq!(manager.get_game_mode(), numcraft_v0_1_0::save_manager::GameMode::Creative);
    assert_eq!(
        manager.player_data.pos,
        (3.5f32.to_bits(), 10.0f32.to_bits(), (-1.0f32).to_bits())
    );
    assert_eq!(manager.player_data.rotation, (0.25f32.to_bits(), 1.0f32.to_bits()));
    assert_eq!(
        manager.player_data.inventory.get_all_slots(),
        &vec![
            numcraft_v0_1_0::inventory::ItemStack::new(
                numcraft_v0_1_0::constants::ItemType::StoneBlock,
                5,
                false
            ),
            numcraft_v0_1_0::inventory::ItemStack::void(),
            numcraft_v0_1_0::inventory::ItemStack::new(
                numcraft_v0_1_0::constants::ItemType::DirtBlock,
                9,
                true
            ),
        ]
    );
    assert!(!manager.player_data.inventory.modified);
    let chunk = manager.get_chunk_at_pos(Vector3::new(2, 1, 3)).unwrap();
    assert_eq!(*chunk.get_pos(), Vector3::new(2, 1, 3));
    assert_eq!(chunk.get_at(Vector3::new(0, 0, 0)), Some(numcraft_v0_1_0::constants::BlockType::Stone));
    assert_eq!(chunk.get_at(Vector3::new(3, 3, 6)), Some(numcraft_v0_1_0::constants::BlockType::Grass));
    assert_eq!(chunk.get_at(Vector3::new(7, 7, 7)), Some(numcraft_v0_1_0::constants::BlockType::Dirt));
    assert_eq!(chunk.get_at(Vector3::new(1, 2, 3)), Some(numcraft_v0_1_0::constants::BlockType::Air));
}

#[test]
fn old_save_of_one_byte_is_a_corrupted_world() {
    let mut manager = numcraft_v0_1_0::save_manager::SaveManager::new();
    assert_eq!(
        manager.load_from_file(&vec![1]),
        Err(numcraft_v0_1_0::save_manager::SaveFileLoadError::CorruptedWorld)
    );
    let raw = old_save(0, None);
    for cut in [0, 2, 8, raw.len() - 1] {
        assert_eq!(
            manager.load_from_file(&raw[..cut].to_vec()),
            Err(numcraft_v0_1_0::save_manager::SaveFileLoadError::CorruptedWorld)
        );
    }
    assert_eq!(manager.world_info.world_name, "");
    assert_eq!(manager.world_info.world_seed, 1);
    assert_eq!(
        load_old(&old_save(0, None)).get_game_mode(),
        numcraft_v0_1_0::save_manager::GameMode::Survival
    );
    assert!(manager.load_from_file(&old_save(2, None)).is_err());
}

#[test]
fn old_chunk_errors() {
    let manager = load_old(&old_save(0, Some(5)));
    assert_eq!(
        manager.get_chunk_at_pos(Vector3::new(1, 1, 0)).err(),
        Some(numcraft_v0_1_0::save_manager::ChunkReadingError::CorruptedChunk)
    );
    assert!(manager.get_chunk_at_pos(Vector3::new(0, 1, 0)).is_ok());
    assert_eq!(
        manager.get_chunk_at_pos(Vector3::new(0, 0, 4)).err(),
        Some(numcraft_v0_1_0::save_manager::ChunkReadingError::OOBChunk)
    );
    assert_eq!(
        manager.get_chunk_at_pos(Vector3::new(-1, 0, 0)).err(),
        Some(numcraft_v0_1_0::save_manager::ChunkReadingError::OOBChunk)
    );
}

#[test]
fn codes_keep_their_number() {
    assert_eq!(convert_block(OldBlock::Air), Some(NewBlock::Air));
    assert_eq!(convert_block(OldBlock::Stone), Some(NewBlock::Stone));
    assert_eq!(convert_block(OldBlock::Grass), Some(NewBlock::Grass));
    assert_eq!(convert_block(OldBlock::Dirt), Some(NewBlock::Dirt));
    assert_eq!(convert_item(OldItem::Air), Some(NewItem::Air));
    assert_eq!(convert_item(OldItem::StoneBlock), Some(NewItem::StoneBlock));
    assert_eq!(convert_item(OldItem::GrassBlock), Some(NewItem::GrassBlock));
    assert_eq!(convert_item(OldItem::DirtBlock), Some(NewItem::DirtBlock));
}

#[test]
fn game_mode_is_kept() {
    assert_eq!(
        convert_game_mode(numcraft_v0_1_0::save_manager::GameMode::Creative),
        numcraft_v0_1_3::save_manager::GameMode::Creative
    );
    assert_eq!(
        convert_game_mode(numcraft_v0_1_0::save_manager::GameMode::Survival),
        numcraft_v0_1_3::save_manager::GameMode::Survival
    );
}

#[test]
fn stacks_keep_reported_amount_and_flag() {
    let plain = numcraft_v0_1_0::inventory::ItemStack::new(OldItem::GrassBlock, 33, false);
    assert_eq!(
        convert_item_stack(&plain),
        Some(numcraft_v0_1_3::inventory::ItemStack::new(NewItem::GrassBlock, 33, false))
    );
    let creative = numcraft_v0_1_0::inventory::ItemStack::new(OldItem::DirtBlock, 2, true);
    assert_eq!(
        convert_item_stack(&creative),
        Some(numcraft_v0_1_3::inventory::ItemStack::new(NewItem::DirtBlock, 64, true))
    );
    let mut inventory = numcraft_v0_1_0::inventory::Inventory::new(3);
    inventory.replace_slot_item_stack(0, plain);
    inventory.replace_slot_item_stack(2, creative);
    inventory.modified = false;
    let converted = convert_inventory(&inventory).unwrap();
    assert_eq!(
        converted.get_all_slots(),
        &vec![
            numcraft_v0_1_3::inventory::ItemStack::new(NewItem::GrassBlock, 33, false),
            numcraft_v0_1_3::inventory::ItemStack::void(),
            numcraft_v0_1_3::inventory::ItemStack::new(NewItem::DirtBlock, 64, true),
        ]
    );
    assert!(converted.modified);
}

#[test]
fn corner_chunk_and_corner_block_go_to_the_far_corner() {
    let mut chunk = numcraft_v0_1_0::chunk::Chunk::new(Vector3::new(0, 0, 0));
    chunk.set_at(Vector3::new(0, 0, 0), numcraft_v0_1_0::constants::BlockType::Stone);
    let converted = convert_chunk(&chunk).unwrap();
    assert_eq!(*converted.get_pos(), Vector3::new(3, 3, 0));
    assert_eq!(
        converted.get_at(Vector3::new(7, 7, 0)),
        Some(numcraft_v0_1_3::constants::BlockType::Stone)
    );
    assert_eq!(
        converted
            .get_all_blocks()
            .iter()
            .filter(|b| **b != numcraft_v0_1_3::constants::BlockType::Air)
            .count(),
        1
    );
}

#[test]
fn every_block_goes_to_its_mirror_image() {
    let mut chunk = numcraft_v0_1_0::chunk::Chunk::new(Vector3::new(1, 2, 3));
    let kinds = [
        numcraft_v0_1_0::constants::BlockType::Air,
        numcraft_v0_1_0::constants::BlockType::Stone,
        numcraft_v0_1_0::constants::BlockType::Grass,
        numcraft_v0_1_0::constants::BlockType::Dirt,
    ];
    for x in 0..8usize {
        for y in 0..8usize {
            for z in 0..8usize {
                chunk.set_at(Vector3::new(x, y, z), kinds[(x + 3 * y + 5 * z) % 4]);
            }
        }
    }
    let converted = convert_chunk(&chunk).unwrap();
    assert_eq!(*converted.get_pos(), Vector3::new(2, 1, 3));
    for x in 0..8isize {
        for y in 0..8isize {
            for z in 0..8isize {
                let old = chunk.get_at(Vector3::new(x, y, z)).unwrap();
                let new = converted.get_at(Vector3::new(7 - x, 7 - y, z)).unwrap();
                assert_eq!(Some(new), convert_block(old));
            }
        }
    }
}

#[test]
fn chunk_outside_the_world_is_not_converted() {
    for pos in [(4, 0, 0), (0, -1, 0), (0, 0, 4), (isize::MIN, 0, 0), (0, isize::MAX, 0)] {
        let chunk = numcraft_v0_1_0::chunk::Chunk::new(Vector3::new(pos.0, pos.1, pos.2));
        assert!(convert_chunk(&chunk).is_none());
    }
}

#[test]
fn world_is_mirrored() {
    let source = load_old(&old_save(1, None));
    let pos = (28.5f32.to_bits(), 22.0f32.to_bits(), (-1.0f32).to_bits());
    let target = convert_world(&source, pos).unwrap();
    assert_eq!(target.world_info.world_version, 0);
    assert_eq!(target.world_info.world_name, "Old World");
    assert_eq!(target.world_info.world_seed, 1234);
    assert_eq!(target.get_game_mode(), numcraft_v0_1_3::save_manager::GameMode::Creative);
    assert_eq!(target.player_data.pos, pos);
    assert_eq!(target.player_data.rotation, (0.25f32.to_bits(), 1.0f32.to_bits()));
    assert_eq!(target.player_data.inventory.get_all_slots().len(), 3);
    assert!(target.file_name.is_none());
    for x in 0..4isize {
        for y in 0..4isize {
            for z in 0..4isize {
                let chunk = target.get_chunk_at_pos(Vector3::new(3 - x, 3 - y, z)).unwrap();
                let marked = Vector3::new(7 - (x + 1), 7 - (y + 2), z + 3);
                assert_eq!(chunk.get_at(marked), Some(numcraft_v0_1_3::constants::BlockType::Grass));
                assert_eq!(
                    chunk.get_at(Vector3::new(7, 7, 0)),
                    Some(numcraft_v0_1_3::constants::BlockType::Stone)
                );
                assert_eq!(
                    chunk.get_at(Vector3::new(0, 0, 7)),
                    Some(numcraft_v0_1_3::constants::BlockType::Dirt)
                );
                assert_eq!(
                    chunk
                        .get_all_blocks()
                        .iter()
                        .filter(|b| **b != numcraft_v0_1_3::constants::BlockType::Air)
                        .count(),
                    3
                );
            }
        }
    }
}

#[test]
fn migrated_save_loads_in_the_new_format() {
    let source = load_old(&old_save(0, None));
    let pos = (1f32.to_bits(), 2f32.to_bits(), 3f32.to_bits());
    let raw = from_v0_1_0_to_0_1_3(&source, pos).unwrap();
    let mut loaded = numcraft_v0_1_3::save_manager::SaveManager::new();
    assert_eq!(loaded.load_from_file(raw), Ok(()));
    let direct = convert_world(&source, pos).unwrap();
    assert_eq!(loaded.world_info.world_name, "Old World");
    assert_eq!(loaded.get_game_mode(), numcraft_v0_1_3::save_manager::GameMode::Survival);
    assert_eq!(loaded.player_data.pos, pos);
    assert_eq!(
        loaded.player_data.inventory.get_all_slots(),
        direct.player_data.inventory.get_all_slots()
    );
    assert_eq!(
        loaded.player_data.inventory.get_all_slots()[2],
        numcraft_v0_1_3::inventory::ItemStack::new(
            numcraft_v0_1_3::constants::ItemType::DirtBlock,
            64,
            true
        )
    );
    for i in 0..64 {
        assert_eq!(loaded.chunks_data.get(i), direct.chunks_data.get(i));
    }
}

#[test]
fn world_with_an_unreadable_chunk_is_not_migrated() {
    for spoiled in [0usize, 31, 63] {
        let source = load_old(&old_save(0, Some(spoiled)));
        assert!(convert_world(&source, (0, 0, 0)).is_none());
        assert!(from_v0_1_0_to_0_1_3(&source, (0, 0, 0)).is_none());
    }
    let fresh = numcraft_v0_1_0::save_manager::SaveManager::new();
    assert!(from_v0_1_0_to_0_1_3(&fresh, (0, 0, 0)).is_none());
}

#[test]
fn mirroring_twice_gives_the_position_back() {
    for x in 0..4isize {
        for y in 0..4isize {
            for z in 0..4isize {
                let pos = Vector3::new(x, y, z);
                let once = mirrored_chunk_pos(&pos).unwrap();
                assert_eq!(once, Vector3::new(3 - x, 3 - y, z));
                assert_eq!(mirrored_chunk_pos(&once), Some(pos));
            }
        }
    }
    for x in 0..8usize {
        for y in 0..8usize {
            for z in 0..8usize {
                let pos = Vector3::new(x, y, z);
                let once = mirrored_block_pos(&pos).unwrap();
                assert_eq!(once, Vector3::new(7 - x, 7 - y, z));
                assert_eq!(mirrored_block_pos(&once), Some(pos));
            }
        }
    }
    assert_eq!(mirrored_chunk_pos(&Vector3::new(0, 0, 0)), Some(Vector3::new(3, 3, 0)));
    assert_eq!(mirrored_block_pos(&Vector3::new(0, 0, 0)), Some(Vector3::new(7, 7, 0)));
    assert_eq!(mirrored_chunk_pos(&Vector3::new(4, 0, 0)), None);
    assert_eq!(mirrored_chunk_pos(&Vector3::new(0, -1, 0)), None);
    assert_eq!(mirrored_chunk_pos(&Vector3::new(0, 0, isize::MIN)), None);
    assert_eq!(mirrored_block_pos(&Vector3::new(8, 0, 0)), None);
    assert_eq!(mirrored_block_pos(&Vector3::new(0, usize::MAX, 0)), None);
    assert_eq!(mirrored_block_pos(&Vector3::new(0, 0, 8)), None);
}
