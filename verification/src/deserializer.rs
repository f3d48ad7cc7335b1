//! Finding out which version of the game wrote a save file, from the
//! header alone.
//!
//! The older formats carry no version number. The header record is
//! therefore read against each known layout in turn, newest first, and the
//! first layout that it decodes under decides the version.

use vstd::prelude::*;
use vstd::slice::slice_subrange;
use crate::codecs::decode_info_v1;
use crate::codecs::decode_info_v2;
use crate::codecs::decode_info_v3;
use crate::codecs::postcard_info_v1;
use crate::codecs::postcard_info_v2;
use crate::codecs::postcard_info_v3;
use crate::save_format::length_prefixed;
use crate::save_format::take_length_prefixed;

verus! {

#[derive(Clone, Copy, PartialEq, Eq, Debug, Structural)]
pub enum GameMode {
    Survival,
    Creative,
}

impl GameMode {
    /// The mode stored under `index`, if there is one.
    pub open spec fn from_index(index: u32) -> Option<GameMode> {
        match index {
            0 => Some(GameMode::Survival),
            1 => Some(GameMode::Creative),
            _ => None,
        }
    }

    pub fn get_from_index(index: u32) -> (mode: Option<Self>)
        ensures
            mode == GameMode::from_index(index),
    {
        match index {
            0 => Some(GameMode::Survival),
            1 => Some(GameMode::Creative),
            _ => None,
        }
    }
}

#[allow(non_camel_case_types)]
#[derive(Clone, Copy, PartialEq, Eq, Debug, Structural)]
pub enum WorldVersion {
    V0_0_7_,
    V0_1_0,
    V0_1_3,
    UNKNOWN,
}

impl WorldVersion {
    /// The name under which the version is shown.
    pub open spec fn matching_name(self) -> Seq<char> {
        match self {
            WorldVersion::V0_0_7_ => "v0.0.7/8/9"@,
            WorldVersion::V0_1_0 => "v0.1.0"@,
            WorldVersion::V0_1_3 => "v0.1.3"@,
            WorldVersion::UNKNOWN => "unknown"@,
        }
    }

    pub fn get_matching_name(&self) -> (name: String)
        ensures
            name@ == self.matching_name(),
    {
        match *self {
            WorldVersion::V0_0_7_ => "v0.0.7/8/9".to_owned(),
            WorldVersion::V0_1_0 => "v0.1.0".to_owned(),
            WorldVersion::V0_1_3 => "v0.1.3".to_owned(),
            WorldVersion::UNKNOWN => "unknown".to_owned(),
        }
    }
}

/// What the header tells of a world, whichever version wrote it.
#[derive(Debug, Clone)]
pub struct WorldInfo {
    pub world_version: WorldVersion,
    pub world_name: String,
    pub gamemode: GameMode,
}

/// What a [`WorldInfo`] holds.
pub struct WorldInfoView {
    pub world_version: WorldVersion,
    pub world_name: Seq<char>,
    pub gamemode: GameMode,
}

impl WorldInfo {
    pub open spec fn view(&self) -> WorldInfoView {
        WorldInfoView {
            world_version: self.world_version,
            world_name: self.world_name@,
            gamemode: self.gamemode,
        }
    }
}

/// The header record since version 0.1.3.
#[derive(Debug)]
pub struct WorldInfo3 {
    pub world_version: u16,
    pub world_name: String,
    pub world_seed: i32,
    pub gamemode: GameMode,
}

/// The header record of version 0.1.0.
#[derive(Debug)]
pub struct WorldInfo2 {
    pub world_name: String,
    pub world_seed: i32,
    pub gamemode: GameMode,
}

/// The header record of versions 0.0.7 to 0.0.9.
#[derive(Debug)]
pub struct WorldInfo1 {
    pub world_name: String,
    pub world_seed: i32,
}

impl WorldInfo3 {
    pub open spec fn view(&self) -> (u16, Seq<char>, i32, GameMode) {
        (self.world_version, self.world_name@, self.world_seed, self.gamemode)
    }
}

impl WorldInfo2 {
    pub open spec fn view(&self) -> (Seq<char>, i32, GameMode) {
        (self.world_name@, self.world_seed, self.gamemode)
    }
}

impl WorldInfo1 {
    pub open spec fn view(&self) -> (Seq<char>, i32) {
        (self.world_name@, self.world_seed)
    }
}

/// The version that a header's version number stands for.
pub open spec fn version_of_number(version_number: u16) -> WorldVersion {
    if version_number == 0 {
        WorldVersion::V0_1_3
    } else {
        WorldVersion::UNKNOWN
    }
}

/// A header record read in the layout used since version 0.1.3. A record
/// whose mode number names no game mode does not fit the layout.
pub open spec fn layout3(header: Seq<u8>, word_bits: nat) -> Option<
    (u16, Seq<char>, i32, GameMode),
> {
    match postcard_info_v3(header, word_bits) {
        Some(record) => match GameMode::from_index(record.3) {
            Some(gamemode) => Some((record.0, record.1, record.2, gamemode)),
            None => None,
        },
        None => None,
    }
}

/// A header record read in the layout of version 0.1.0. A record whose
/// mode number names no game mode does not fit the layout.
pub open spec fn layout2(header: Seq<u8>, word_bits: nat) -> Option<(Seq<char>, i32, GameMode)> {
    match postcard_info_v2(header, word_bits) {
        Some(record) => match GameMode::from_index(record.2) {
            Some(gamemode) => Some((record.0, record.1, gamemode)),
            None => None,
        },
        None => None,
    }
}

/// A header record read in the layout of versions 0.0.7 to 0.0.9.
pub open spec fn layout1(header: Seq<u8>, word_bits: nat) -> Option<(Seq<char>, i32)> {
    postcard_info_v1(header, word_bits)
}

/// What a header record tells of the world. The layouts are tried newest
/// first, and the first one that the record fits decides. The oldest layout
/// has no game mode: such a world is a creative one.
pub open spec fn probe_header(header: Seq<u8>, word_bits: nat) -> Option<WorldInfoView> {
    match layout3(header, word_bits) {
        Some(record) => Some(
            WorldInfoView {
                world_version: version_of_number(record.0),
                world_name: record.1,
                gamemode: record.3,
            },
        ),
        None => match layout2(header, word_bits) {
            Some(record) => Some(
                WorldInfoView {
                    world_version: WorldVersion::V0_1_0,
                    world_name: record.0,
                    gamemode: record.2,
                },
            ),
            None => match layout1(header, word_bits) {
                Some(record) => Some(
                    WorldInfoView {
                        world_version: WorldVersion::V0_0_7_,
                        world_name: record.0,
                        gamemode: GameMode::Creative,
                    },
                ),
                None => None,
            },
        },
    }
}

/// What the header of a save file tells of the world. Nothing if the file
/// is too short to hold the header it announces, or the header fits no
/// known layout.
pub open spec fn world_summary(raw: Seq<u8>, word_bits: nat) -> Option<WorldInfoView> {
    match length_prefixed(raw, 0) {
        Some((header, _)) => probe_header(header, word_bits),
        None => None,
    }
}

pub fn get_version_from_version_number(version_number: u16) -> (version: WorldVersion)
    ensures
        version == version_of_number(version_number),
{
    match version_number {
        0 => WorldVersion::V0_1_3,
        _ => WorldVersion::UNKNOWN,
    }
}

/// Reads a header record in the layout used since version 0.1.3.
pub fn read_world_info3(header: &[u8]) -> (info: Option<WorldInfo3>)
    ensures
        match info {
            Some(found) => layout3(header@, usize::BITS as nat) == Some(found@),
            None => layout3(header@, usize::BITS as nat) is None,
        },
{
    match decode_info_v3(header) {
        Some((world_version, world_name, world_seed, mode)) => match GameMode::get_from_index(
            mode,
        ) {
            Some(gamemode) => Some(WorldInfo3 { world_version, world_name, world_seed, gamemode }),
            None => None,
        },
        None => None,
    }
}

/// Reads a header record in the layout of version 0.1.0.
pub fn read_world_info2(header: &[u8]) -> (info: Option<WorldInfo2>)
    ensures
        match info {
            Some(found) => layout2(header@, usize::BITS as nat) == Some(found@),
            None => layout2(header@, usize::BITS as nat) is None,
        },
{
    match decode_info_v2(header) {
        Some((world_name, world_seed, mode)) => match GameMode::get_from_index(mode) {
            Some(gamemode) => Some(WorldInfo2 { world_name, world_seed, gamemode }),
            None => None,
        },
        None => None,
    }
}

/// Reads a header record in the layout of versions 0.0.7 to 0.0.9.
pub fn read_world_info1(header: &[u8]) -> (info: Option<WorldInfo1>)
    ensures
        match info {
            Some(found) => layout1(header@, usize::BITS as nat) == Some(found@),
            None => layout1(header@, usize::BITS as nat) is None,
        },
{
    match decode_info_v1(header) {
        Some((world_name, world_seed)) => Some(WorldInfo1 { world_name, world_seed }),
        None => None,
    }
}

pub fn get_world_info(raw: &Vec<u8>) -> (info: Option<WorldInfo>)
    ensures
        match info {
            Some(found) => world_summary(raw@, usize::BITS as nat) == Some(found@),
            None => world_summary(raw@, usize::BITS as nat) is None,
        },
{
    let (start, end) = match take_length_prefixed(raw.as_slice(), 0) {
        Some(found) => found,
        None => {
            return None;
        },
    };
    let header = slice_subrange(raw.as_slice(), start, end);
    if let Some(world_info) = read_world_info3(header) {
        Some(
            WorldInfo {
                world_version: get_version_from_version_number(world_info.world_version),
                world_name: world_info.world_name,
                gamemode: world_info.gamemode,
            },
        )
    } else if let Some(world_info) = read_world_info2(header) {
        Some(
            WorldInfo {
                world_version: WorldVersion::V0_1_0,
                world_name: world_info.world_name,
                gamemode: world_info.gamemode,
            },
        )
    } else if let Some(world_info) = read_world_info1(header) {
        Some(
            WorldInfo {
                world_version: WorldVersion::V0_0_7_,
                world_name: world_info.world_name,
                gamemode: GameMode::Creative,
            },
        )
    } else {
        None
    }
}

} // verus!
