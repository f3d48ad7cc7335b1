//! One 8 x 8 x 8 region of blocks.

use vstd::prelude::*;
use crate::save_format::block_index;
use crate::save_format::in_chunk;
use crate::save_format::lemma_block_index_unique;
use crate::world_converter::numcraft_v0_1_3::constants::BlockType;
use crate::world_converter::vector::Vector3;

verus! {

const CHUNK_SIZE: usize = 8;

const BLOCK_COUNT: usize = 512;

const CHUNK_SIZE_I: isize = 8;

/// Where the column at (`x`, `z`) stands in a chunk's list of terrain
/// heights.
pub open spec fn column_index(x: int, z: int) -> int {
    x + z * 8
}

/// Whether generating the terrain puts grass at height `y` of a chunk whose
/// position along the vertical axis is `chunk_y`, in a column of terrain
/// height `height`.
pub open spec fn terrain_covers(chunk_y: int, y: int, height: int) -> bool {
    chunk_y * 8 + y >= height
}

pub struct Chunk {
    pub blocks: [BlockType; 512],
    pub pos: Vector3<isize>,
    pub generated: bool,
    pub need_new_mesh: bool,
    pub need_sorting: bool,
}

impl Chunk {
    pub fn new(pos: Vector3<isize>) -> (chunk: Self)
        ensures
            chunk.pos == pos,
            forall|i: int| 0 <= i < 512 ==> chunk.blocks@[i] == BlockType::Air,
            !chunk.generated,
            chunk.need_new_mesh,
            !chunk.need_sorting,
    {
        Chunk {
            blocks: [BlockType::Air; 512],
            pos,
            generated: false,
            need_new_mesh: true,
            need_sorting: false,
        }
    }

    pub fn set_at(&mut self, pos: Vector3<usize>, block_type: BlockType) -> (set: bool)
        ensures
            set == in_chunk(pos.x as int, pos.y as int, pos.z as int),
            set ==> *final(self) == (Chunk {
                blocks: final(self).blocks,
                ..*old(self)
            }) && final(self).blocks@ == old(self).blocks@.update(
                block_index(pos.x as int, pos.y as int, pos.z as int),
                block_type,
            ),
            !set ==> *final(self) == *old(self),
    {
        if pos.x < CHUNK_SIZE && pos.y < CHUNK_SIZE && pos.z < CHUNK_SIZE {
            self.blocks[pos.x + pos.y * CHUNK_SIZE + pos.z * CHUNK_SIZE * CHUNK_SIZE] = block_type;
            true
        } else {
            false
        }
    }

    pub fn get_at(&self, pos: Vector3<isize>) -> (block: Option<BlockType>)
        ensures
            block is Some <==> in_chunk(pos.x as int, pos.y as int, pos.z as int),
            block is Some ==> block->0 == self.blocks@[block_index(
                pos.x as int,
                pos.y as int,
                pos.z as int,
            )],
    {
        if pos.x < CHUNK_SIZE_I && pos.y < CHUNK_SIZE_I && pos.z < CHUNK_SIZE_I && pos.x >= 0 && pos.y
            >= 0 && pos.z >= 0 {
            Some(
                self.blocks[(pos.x + pos.y * CHUNK_SIZE_I + pos.z * CHUNK_SIZE_I * CHUNK_SIZE_I) as usize],
            )
        } else {
            None
        }
    }

    pub fn get_at_unchecked(&self, pos: Vector3<isize>) -> (block: BlockType)
        requires
            in_chunk(pos.x as int, pos.y as int, pos.z as int),
        ensures
            block == self.blocks@[block_index(pos.x as int, pos.y as int, pos.z as int)],
    {
        self.blocks[(pos.x + pos.y * CHUNK_SIZE_I + pos.z * CHUNK_SIZE_I * CHUNK_SIZE_I) as usize]
    }

    pub fn get_pos(&self) -> (pos: &Vector3<isize>)
        ensures
            *pos == self.pos,
    {
        &self.pos
    }

    /// Generates the terrain of the chunk from the terrain height of each
    /// of its 64 columns, unless it was generated before.
    pub fn generate_chunk(&mut self, heights: &[isize; 64])
        ensures
            old(self).generated ==> *final(self) == *old(self),
            !old(self).generated ==> *final(self) == (Chunk {
                blocks: final(self).blocks,
                generated: true,
                ..*old(self)
            }),
            !old(self).generated ==> forall|x: int, y: int, z: int|
                in_chunk(x, y, z) ==> #[trigger] final(self).blocks@[block_index(x, y, z)] == if terrain_covers(
                    old(self).pos.y as int,
                    y,
                    heights@[column_index(x, z)] as int,
                ) {
                    BlockType::Grass
                } else {
                    old(self).blocks@[block_index(x, y, z)]
                },
    {
        if self.generated {
            return ;
        }
        let base: i128 = (self.pos.y as i128) * 8;
        let mut i: usize = 0;
        while i < BLOCK_COUNT
            invariant
                i <= 512,
                heights@.len() == 64,
                base == old(self).pos.y * 8,
                *self == (Chunk { blocks: self.blocks, ..*old(self) }),
                forall|j: int|
                    0 <= j < 512 ==> #[trigger] self.blocks@[j] == if j < i && terrain_covers(
                        old(self).pos.y as int,
                        (j / 8) % 8,
                        heights@[column_index(j % 8, j / 64)] as int,
                    ) {
                        BlockType::Grass
                    } else {
                        old(self).blocks@[j]
                    },
            decreases 512 - i,
        {
            let x = i % 8;
            let y = (i / 8) % 8;
            let z = i / 64;
            if base + y as i128 >= heights[x + z * 8] as i128 {
                self.blocks[i] = BlockType::Grass;
            }
            i += 1;
        }
        self.generated = true;
        assert forall|x: int, y: int, z: int| in_chunk(x, y, z) implies #[trigger] self.blocks@[block_index(
            x,
            y,
            z,
        )] == if terrain_covers(old(self).pos.y as int, y, heights@[column_index(x, z)] as int) {
            BlockType::Grass
        } else {
            old(self).blocks@[block_index(x, y, z)]
        } by {
            lemma_block_index_unique(x, y, z);
        }
    }

    pub fn get_all_blocks(&self) -> (blocks: &[BlockType; 512])
        ensures
            *blocks == self.blocks,
    {
        &self.blocks
    }
}

} // verus!
