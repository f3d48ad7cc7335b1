use numcraft_world::deserializer::get_version_from_version_number;
use numcraft_world::deserializer::get_world_info;
use numcraft_world::deserializer::read_world_info1;
use numcraft_world::deserializer::read_world_info2;
use numcraft_world::deserializer::read_world_info3;
use numcraft_world::deserializer::GameMode;
use numcraft_world::deserializer::WorldVersion;
use numcraft_world::world_record::WorldRecord;

fn framed(header: Vec<u8>) -> Vec<u8> {
    let mut raw = (header.len() as u16).to_be_bytes().to_vec();
    raw.extend(header);
    raw.extend([0xAA; 20]);
    raw
}

fn newest(version: u16, name: &str, mode: u32) -> Vec<u8> {
    framed(postcard::to_allocvec(&(version, name, 99i32, mode)).unwrap())
}

#[test]
fn version_names() {
    assert_eq!(WorldVersion::V0_0_7_.get_matching_name(), "v0.0.7/8/9");
    assert_eq!(WorldVersion::V0_1_0.get_matching_name(), "v0.1.0");
    assert_eq!(WorldVersion::V0_1_3.get_matching_name(), "v0.1.3");
    assert_eq!(WorldVersion::UNKNOWN.get_matching_name(), "unknown");
}

#[test]
fn version_numbers() {
    assert_eq!(get_version_from_version_number(0), WorldVersion::V0_1_3);
    assert_eq!(get_version_from_version_number(1), WorldVersion::UNKNOWN);
    assert_eq!(get_version_from_version_number(u16::MAX), WorldVersion::UNKNOWN);
}

#[test]
fn newest_header_is_recognised() {
    let info = get_world_info(&newest(0, "My World", 0)).unwrap();
    assert_eq!(info.world_version, WorldVersion::V0_1_3);
    assert_eq!(info.world_name, "My World");
    assert_eq!(info.gamemode, GameMode::Survival);
    let info = get_world_info(&newest(0, "", 1)).unwrap();
    assert_eq!(info.world_name, "");
    assert_eq!(info.gamemode, GameMode::Creative);
}

#[test]
fn newest_header_with_unknown_version_number_reports_unknown() {
    let info = get_world_info(&newest(7, "Later", 1)).unwrap();
    assert_eq!(info.world_version, WorldVersion::UNKNOWN);
    assert_eq!(info.world_version.get_matching_name(), "unknown");
    assert_eq!(info.world_name, "Later");
    assert_eq!(info.gamemode, GameMode::Creative);
}

#[test]
fn middle_header_is_recognised() {
    let raw = framed(postcard::to_allocvec(&("A world with a long name", -5i32, 0u32)).unwrap());
    let info = get_world_info(&raw).unwrap();
    assert_eq!(info.world_version, WorldVersion::V0_1_0);
    assert_eq!(info.world_name, "A world with a long name");
    assert_eq!(info.gamemode, GameMode::Survival);
}

#[test]
fn oldest_header_is_a_creative_world() {
    let raw = framed(postcard::to_allocvec(&("An old world with a long name", 3i32)).unwrap());
    let info = get_world_info(&raw).unwrap();
    assert_eq!(info.world_version, WorldVersion::V0_0_7_);
    assert_eq!(info.world_name, "An old world with a long name");
    assert_eq!(info.gamemode, GameMode::Creative);
}

#[test]
fn layouts_are_read_one_by_one() {
    let header = postcard::to_allocvec(&(5u16, "abc", -1i32, 1u32)).unwrap();
    let info = read_world_info3(&header).unwrap();
    assert_eq!(info.world_version, 5);
    assert_eq!(info.world_name, "abc");
    assert_eq!(info.world_seed, -1);
    assert_eq!(info.gamemode, GameMode::Creative);
    assert!(read_world_info3(&postcard::to_allocvec(&(5u16, "abc", -1i32, 2u32)).unwrap()).is_none());
    let header = postcard::to_allocvec(&("abc", 70000i32, 0u32)).unwrap();
    let info = read_world_info2(&header).unwrap();
    assert_eq!(info.world_name, "abc");
    assert_eq!(info.world_seed, 70000);
    assert_eq!(info.gamemode, GameMode::Survival);
    assert!(read_world_info2(&postcard::to_allocvec(&("abc", 1i32, 9u32)).unwrap()).is_none());
    let info = read_world_info1(&postcard::to_allocvec(&("abc", i32::MIN)).unwrap()).unwrap();
    assert_eq!(info.world_name, "abc");
    assert_eq!(info.world_seed, i32::MIN);
    assert!(read_world_info1(&[]).is_none());
    assert!(read_world_info1(&[5, b'a']).is_none());
    assert!(read_world_info1(&[1, 0xFF, 0]).is_none());
}

#[test]
fn short_or_unreadable_header_gives_nothing() {
    assert!(get_world_info(&vec![]).is_none());
    assert!(get_world_info(&vec![0]).is_none());
    assert!(get_world_info(&vec![0, 0]).is_none());
    assert!(get_world_info(&vec![0, 5, 1, 2]).is_none());
    assert!(get_world_info(&vec![0xFF, 0xFF, 1, 2, 3]).is_none());
    assert!(get_world_info(&vec![0, 3, 9, 0xFF, 0xFF]).is_none());
    let mut cut = newest(0, "My World", 0);
    cut.truncate(6);
    assert!(get_world_info(&cut).is_none());
}

#[test]
fn listed_file_carries_its_summary() {
    let raw = newest(0, "Listed", 1);
    let record = WorldRecord::from_download(4, "save1".to_string(), raw.clone()).unwrap();
    assert_eq!(record.record_index, 4);
    assert_eq!(record.file_name, "save1");
    assert_eq!(record.world_data, raw);
    assert_eq!(record.world_info.world_name, "Listed");
    assert_eq!(record.world_info.world_version, WorldVersion::V0_1_3);
    assert!(!record.need_remove);
    assert!(WorldRecord::from_download(0, "x".to_string(), vec![1]).is_none());
    let made = WorldRecord::new(1, "n".to_string(), vec![2], record.world_info.clone(), true);
    assert!(made.need_remove);
    assert_eq!(made.world_data, vec![2]);
    assert_eq!(made.clone().file_name, "n");
}
