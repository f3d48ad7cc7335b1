//! Save files of a small voxel game: reading and validating them, editing the
//! decoded world in memory, and migrating a world from one on-disk format
//! version to the next.

pub mod codecs;
pub mod deserializer;
pub mod save_format;
pub mod world_converter;
pub mod world_record;
