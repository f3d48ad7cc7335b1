//! One 8 x 8 x 8 region of blocks.

use vstd::prelude::*;
use crate::save_format::block_index;
use crate::save_format::in_chunk;
use crate::world_converter::numcraft_v0_1_0::constants::BlockType;
use crate::world_converter::vector::Vector3;

verus! {

const CHUNK_SIZE: usize = 8;

const BLOCK_COUNT: usize = 512;

const CHUNK_SIZE_I: isize = 8;

pub struct Chunk {
    pub blocks: [BlockType; 512],
    pub pos: Vector3<isize>,
    pub generated: bool,
    pub need_new_mesh: bool,
    pub need_sorting: bool,
}

impl Chunk {
    pub fn new(pos: Vector3<isize>) -> (chunk: Self)
        ensures
            chunk.pos == pos,
            forall|i: int| 0 <= i < 512 ==> chunk.blocks@[i] == BlockType::Air,
            !chunk.generated,
            chunk.need_new_mesh,
            !chunk.need_sorting,
    {
        Chunk {
            blocks: [BlockType::Air; 512],
            pos,
            generated: false,
            need_new_mesh: true,
            need_sorting: false,
        }
    }

    pub fn set_at(&mut self, pos: Vector3<usize>, block_type: BlockType) -> (set: bool)
        ensures
            set == in_chunk(pos.x as int, pos.y as int, pos.z as int),
            set ==> *final(self) == (Chunk {
                blocks: final(self).blocks,
                ..*old(self)
            }) && final(self).blocks@ == old(self).blocks@.update(
                block_index(pos.x as int, pos.y as int, pos.z as int),
                block_type,
            ),
            !set ==> *final(self) == *old(self),
    {
        if pos.x < CHUNK_SIZE && pos.y < CHUNK_SIZE && pos.z < CHUNK_SIZE {
            self.blocks[pos.x + pos.y * CHUNK_SIZE + pos.z * CHUNK_SIZE * CHUNK_SIZE] = block_type;
            true
        } else {
            false
        }
    }

    pub fn get_at(&self, pos: Vector3<isize>) -> (block: Option<BlockType>)
        ensures
            block is Some <==> in_chunk(pos.x as int, pos.y as int, pos.z as int),
            block is Some ==> block->0 == self.blocks@[block_index(
                pos.x as int,
                pos.y as int,
                pos.z as int,
            )],
    {
        if pos.x < CHUNK_SIZE_I && pos.y < CHUNK_SIZE_I && pos.z < CHUNK_SIZE_I && pos.x >= 0 && pos.y
            >= 0 && pos.z >= 0 {
            Some(
                self.blocks[(pos.x + pos.y * CHUNK_SIZE_I + pos.z * CHUNK_SIZE_I * CHUNK_SIZE_I) as usize],
            )
        } else {
            None
        }
    }

    pub fn get_at_unchecked(&self, pos: Vector3<isize>) -> (block: BlockType)
        requires
            in_chunk(pos.x as int, pos.y as int, pos.z as int),
        ensures
            block == self.blocks@[block_index(pos.x as int, pos.y as int, pos.z as int)],
    {
        self.blocks[(pos.x + pos.y * CHUNK_SIZE_I + pos.z * CHUNK_SIZE_I * CHUNK_SIZE_I) as usize]
    }

    pub fn get_pos(&self) -> (pos: &Vector3<isize>)
        ensures
            *pos == self.pos,
    {
        &self.pos
    }

    pub fn get_all_blocks(&self) -> (blocks: &[BlockType; 512])
        ensures
            *blocks == self.blocks,
    {
        &self.blocks
    }
}

} // verus!
