use numcraft_world::world_converter::numcraft_v0_1_3::chunk::Chunk;
use numcraft_world::world_converter::numcraft_v0_1_3::constants::BlockType;
use numcraft_world::world_converter::numcraft_v0_1_3::constants::EntityType;
use numcraft_world::world_converter::numcraft_v0_1_3::constants::ItemType;
use numcraft_world::world_converter::numcraft_v0_1_3::constants::save_manager::SETTINGS_FILENAME;
use numcraft_world::world_converter::numcraft_v0_1_3::constants::save_manager::WORLD_VERSION;
use numcraft_world::world_converter::numcraft_v0_1_3::constants::world::CHUNK_SIZE;
use numcraft_world::world_converter::vector::Vector3;

#[test]
fn constants_of_the_new_format() {
    assert_eq!(CHUNK_SIZE, 8);
    assert_eq!(WORLD_VERSION, 0);
    assert_eq!(SETTINGS_FILENAME, "settings.ncd");
    assert_ne!(EntityType::Player, EntityType::Item);
}

#[test]
fn item_table_of_the_new_format() {
    let items = [
        ItemType::Air,
        ItemType::StoneBlock,
        ItemType::GrassBlock,
        ItemType::DirtBlock,
        ItemType::SandBlock,
        ItemType::CobblestoneBlock,
        ItemType::BorderBlock,
        ItemType::LogBlock,
        ItemType::LeavesBlock,
        ItemType::PlanksBlock,
    ];
    let blocks = [
        BlockType::Air,
        BlockType::Stone,
        BlockType::Grass,
        BlockType::Dirt,
        BlockType::Sand,
        BlockType::Cobblestone,
        BlockType::Border,
        BlockType::Log,
        BlockType::Leaves,
        BlockType::Planks,
    ];
    for (id, item) in items.iter().enumerate() {
        assert_eq!(ItemType::get_from_id(id as u8), Some(*item));
        assert_eq!(item.get_id(), id as u8);
        assert_eq!(item.get_max_stack_amount(), if id == 0 { 0 } else { 64 });
        assert_eq!(
            item.get_matching_block_type(),
            if id == 0 { None } else { Some(blocks[id]) }
        );
        assert_eq!(BlockType::get_from_id(id as u8), Some(blocks[id]));
        assert_eq!(blocks[id].get_id(), id as u8);
        assert_eq!(blocks[id].is_air(), id == 0);
    }
    for id in 10u8..=255 {
        assert_eq!(ItemType::get_from_id(id), None);
        assert_eq!(BlockType::get_from_id(id), None);
    }
    assert_eq!(BlockType::Air.get_dropped_item_type(), ItemType::Air);
    assert_eq!(BlockType::Stone.get_dropped_item_type(), ItemType::CobblestoneBlock);
    assert_eq!(BlockType::Grass.get_dropped_item_type(), ItemType::DirtBlock);
    assert_eq!(BlockType::Dirt.get_dropped_item_type(), ItemType::DirtBlock);
    assert_eq!(BlockType::Sand.get_dropped_item_type(), ItemType::SandBlock);
    assert_eq!(BlockType::Cobblestone.get_dropped_item_type(), ItemType::CobblestoneBlock);
    assert_eq!(BlockType::Border.get_dropped_item_type(), ItemType::BorderBlock);
    assert_eq!(BlockType::Log.get_dropped_item_type(), ItemType::LogBlock);
    assert_eq!(BlockType::Leaves.get_dropped_item_type(), ItemType::LeavesBlock);
    assert_eq!(BlockType::Planks.get_dropped_item_type(), ItemType::PlanksBlock);
}

#[test]
fn new_chunk_is_air() {
    let chunk = Chunk::new(Vector3::new(1, 2, 3));
    assert_eq!(*chunk.get_pos(), Vector3::new(1, 2, 3));
    assert!(chunk.get_all_blocks().iter().all(|b| *b == BlockType::Air));
    assert_eq!(chunk.get_all_blocks().len(), 512);
    assert!(!chunk.generated);
    assert!(chunk.need_new_mesh);
    assert!(!chunk.need_sorting);
}

#[test]
fn blocks_are_stored_by_x_then_y_then_z() {
    let mut chunk = Chunk::new(Vector3::new(0, 0, 0));
    assert!(chunk.set_at(Vector3::new(1, 0, 0), BlockType::Stone));
    assert!(chunk.set_at(Vector3::new(0, 1, 0), BlockType::Dirt));
    assert!(chunk.set_at(Vector3::new(0, 0, 1), BlockType::Sand));
    assert!(chunk.set_at(Vector3::new(7, 7, 7), BlockType::Log));
    assert!(chunk.set_at(Vector3::new(3, 4, 5), BlockType::Planks));
    let blocks = chunk.get_all_blocks();
    assert_eq!(blocks[1], BlockType::Stone);
    assert_eq!(blocks[8], BlockType::Dirt);
    assert_eq!(blocks[64], BlockType::Sand);
    assert_eq!(blocks[511], BlockType::Log);
    assert_eq!(blocks[3 + 4 * 8 + 5 * 64], BlockType::Planks);
    assert_eq!(blocks.iter().filter(|b| **b != BlockType::Air).count(), 5);
    assert_eq!(chunk.get_at(Vector3::new(3, 4, 5)), Some(BlockType::Planks));
    assert_eq!(chunk.get_at_unchecked(Vector3::new(3, 4, 5)), BlockType::Planks);
    assert_eq!(chunk.get_at(Vector3::new(5, 4, 3)), Some(BlockType::Air));
}

#[test]
fn positions_outside_the_chunk_are_refused() {
    let mut chunk = Chunk::new(Vector3::new(0, 0, 0));
    let before = *chunk.get_all_blocks();
    assert!(!chunk.set_at(Vector3::new(8, 0, 0), BlockType::Stone));
    assert!(!chunk.set_at(Vector3::new(0, 8, 0), BlockType::Stone));
    assert!(!chunk.set_at(Vector3::new(0, 0, 8), BlockType::Stone));
    assert!(!chunk.set_at(Vector3::new(usize::MAX, usize::MAX, usize::MAX), BlockType::Stone));
    assert_eq!(*chunk.get_all_blocks(), before);
    assert_eq!(chunk.get_at(Vector3::new(-1, 0, 0)), None);
    assert_eq!(chunk.get_at(Vector3::new(0, -1, 0)), None);
    assert_eq!(chunk.get_at(Vector3::new(0, 0, -1)), None);
    assert_eq!(chunk.get_at(Vector3::new(8, 0, 0)), None);
    assert_eq!(chunk.get_at(Vector3::new(0, 8, 0)), None);
    assert_eq!(chunk.get_at(Vector3::new(0, 0, 8)), None);
    assert_eq!(chunk.get_at(Vector3::new(isize::MIN, isize::MAX, 0)), None);
}

#[test]
fn terrain_is_laid_from_the_column_heights() {
    let mut heights = [100isize; 64];
    heights[2 + 3 * 8] = 12;
    heights[0] = 8;
    heights[7 + 7 * 8] = -5;
    let mut chunk = Chunk::new(Vector3::new(0, 1, 0));
    chunk.set_at(Vector3::new(2, 0, 3), BlockType::Stone);
    chunk.generate_chunk(&heights);
    assert!(chunk.generated);
    for x in 0..8isize {
        for y in 0..8isize {
            for z in 0..8isize {
                let height = heights[(x + z * 8) as usize];
                let expected = if 8 + y >= height {
                    BlockType::Grass
                } else if (x, y, z) == (2, 0, 3) {
                    BlockType::Stone
                } else {
                    BlockType::Air
                };
                assert_eq!(chunk.get_at(Vector3::new(x, y, z)), Some(expected));
            }
        }
    }
    assert_eq!(chunk.get_at(Vector3::new(2, 3, 3)), Some(BlockType::Air));
    assert_eq!(chunk.get_at(Vector3::new(2, 4, 3)), Some(BlockType::Grass));
}

#[test]
fn terrain_is_laid_only_once() {
    let mut chunk = Chunk::new(Vector3::new(0, 0, 0));
    chunk.generate_chunk(&[1000isize; 64]);
    assert!(chunk.generated);
    chunk.generate_chunk(&[0isize; 64]);
    assert!(chunk.get_all_blocks().iter().all(|b| *b == BlockType::Air));
}

#[test]
fn terrain_of_a_far_chunk_does_not_overflow() {
    let mut chunk = Chunk::new(Vector3::new(0, isize::MAX, 0));
    chunk.generate_chunk(&[isize::MAX; 64]);
    assert!(chunk.get_all_blocks().iter().all(|b| *b == BlockType::Grass));
    let mut low = Chunk::new(Vector3::new(0, isize::MIN, 0));
    low.generate_chunk(&[isize::MIN; 64]);
    assert!(low.get_all_blocks().iter().all(|b| *b == BlockType::Air));
}
