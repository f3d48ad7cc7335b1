//! A save file as it is listed: the file, and what its header tells.

use vstd::prelude::*;
use crate::deserializer::get_world_info;
use crate::deserializer::world_summary;
use crate::deserializer::WorldInfo;

verus! {

#[derive(Debug, Clone)]
pub struct WorldRecord {
    pub record_index: usize,
    pub file_name: String,
    pub world_data: Vec<u8>,
    pub world_info: WorldInfo,
    pub need_remove: bool,
}

impl WorldRecord {
    pub fn new(
        record_index: usize,
        file_name: String,
        world_data: Vec<u8>,
        world_info: WorldInfo,
        need_remove: bool,
    ) -> (record: Self)
        ensures
            record == (WorldRecord { record_index, file_name, world_data, world_info, need_remove }),
    {
        WorldRecord { record_index, file_name, world_data, world_info, need_remove }
    }

    /// The record for a file that was read from the device, not yet marked
    /// for removal. Nothing if the file's header is not that of a world.
    pub fn from_download(record_index: usize, file_name: String, world_data: Vec<u8>) -> (record:
        Option<Self>)
        ensures
            match record {
                Some(found) => {
                    &&& world_summary(world_data@, usize::BITS as nat) == Some(found.world_info@)
                    &&& found.record_index == record_index
                    &&& found.file_name == file_name
                    &&& found.world_data == world_data
                    &&& !found.need_remove
                },
                None => world_summary(world_data@, usize::BITS as nat) is None,
            },
    {
        match get_world_info(&world_data) {
            Some(world_info) => Some(
                WorldRecord::new(record_index, file_name, world_data, world_info, false),
            ),
            None => None,
        }
    }
}

} // verus!
