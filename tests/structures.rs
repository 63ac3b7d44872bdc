use shell_link::string_data::StringDataSection;
use shell_link::{HotKey, HotKeyModifier, ShowCmd};
use shell_link::{
    CommonNetworkRelativeLinkFlags, CursorSize, DriveType, ExtraData, ExtraDataParseError,
    FontFamily, IdList, LinkFlags, LinkInfo, LinkInfoHeaderSize, LinkInfoParseError,
    LinkTargetIdList, LinkTargetIdListParseError, NetworkProviderType, StringData,
    StringDataParseError,
};

fn u16le(v: u16) -> [u8; 2] {
    v.to_le_bytes()
}

fn u32le(v: u32) -> [u8; 4] {
    v.to_le_bytes()
}

#[test]
fn id_list_single_item() {
    let bytes = [0x08, 0x00, 0x06, 0x00, 0xAA, 0xBB, 0xCC, 0xDD, 0x00, 0x00];
    let l = LinkTargetIdList::try_from(&bytes).unwrap();
    assert_eq!(l.id_list_size, 8);
    assert_eq!(l.id_list.item_id_list.len(), 1);
    assert_eq!(l.id_list.item_id_list[0].item_id_size, 6);
    assert_eq!(l.id_list.item_id_list[0].data, vec![0xAA, 0xBB, 0xCC, 0xDD]);
}

#[test]
fn id_list_keeps_order() {
    let bytes = [0x0B, 0x00, 0x03, 0x00, 0x01, 0x04, 0x00, 0x02, 0x03, 0x00, 0x00, 0x00, 0x00, 0xEE];
    let l = LinkTargetIdList::try_from(&bytes).unwrap();
    let items: Vec<Vec<u8>> = l.id_list.item_id_list.iter().map(|i| i.data.clone()).collect();
    assert_eq!(items, vec![vec![0x01], vec![0x02, 0x03]]);
    let empty = LinkTargetIdList::try_from(&[0x02, 0x00, 0x00, 0x00]).unwrap();
    assert!(empty.id_list.item_id_list.is_empty());
}

#[test]
fn id_list_errors() {
    assert_eq!(LinkTargetIdList::try_from(&[0x08]), Err(LinkTargetIdListParseError::Truncated));
    assert_eq!(
        LinkTargetIdList::try_from(&[0x08, 0x00, 0x06, 0x00]),
        Err(LinkTargetIdListParseError::Truncated)
    );
    assert_eq!(
        LinkTargetIdList::try_from(&[0x04, 0x00, 0x06, 0x00, 0xAA, 0xBB, 0xCC, 0xDD]),
        Err(LinkTargetIdListParseError::ItemIdExceedsBound(6))
    );
    assert_eq!(
        LinkTargetIdList::try_from(&[0x04, 0x00, 0x01, 0x00, 0x00, 0x00]),
        Err(LinkTargetIdListParseError::Truncated)
    );
    assert_eq!(
        LinkTargetIdList::try_from(&[0x04, 0x00, 0x04, 0x00, 0xAA, 0xBB]),
        Err(LinkTargetIdListParseError::Truncated)
    );
    assert_eq!(
        IdList::parse(&[0x04, 0x00, 0xAA, 0xBB], 0, 4),
        Err(LinkTargetIdListParseError::Truncated)
    );
}

/// A LinkInfo with a VolumeID labelled "DATA", local base path "C:\x" and an empty suffix.
fn local_link_info() -> Vec<u8> {
    let mut v = Vec::new();
    v.extend_from_slice(&u32le(0x37));
    v.extend_from_slice(&u32le(0x1C));
    v.extend_from_slice(&u32le(1));
    v.extend_from_slice(&u32le(0x1C));
    v.extend_from_slice(&u32le(0x31));
    v.extend_from_slice(&u32le(0));
    v.extend_from_slice(&u32le(0x36));
    v.extend_from_slice(&u32le(0x15));
    v.extend_from_slice(&u32le(3));
    v.extend_from_slice(&u32le(0xDEAD_BEEF));
    v.extend_from_slice(&u32le(0x10));
    v.extend_from_slice(b"DATA\0");
    v.extend_from_slice(b"C:\\x\0");
    v.extend_from_slice(b"\0");
    assert_eq!(v.len(), 0x37);
    v
}

#[test]
fn link_info_local_path() {
    let l = LinkInfo::try_from(&local_link_info()).unwrap();
    assert_eq!(l.link_info_size, 0x37);
    assert_eq!(l.link_info_size_header, LinkInfoHeaderSize::Unspecified(0x1C));
    let vol = l.volume_id.unwrap();
    assert_eq!(vol.drive_type, DriveType::Fixed);
    assert_eq!(vol.drive_serial_number, 0xDEAD_BEEF);
    assert_eq!(vol.data, "DATA");
    assert_eq!(vol.volume_label_offset_unicode, None);
    assert_eq!(l.local_base_path.as_deref(), Some("C:\\x"));
    assert_eq!(l.common_path_suffix, "");
    assert!(l.common_network_relative_link.is_none());
    assert_eq!(l.local_base_path_unicode, None);
    assert_eq!(l.common_path_suffix_unicode, None);
}

#[test]
fn link_info_errors() {
    let good = local_link_info();
    assert_eq!(LinkInfo::try_from(&good[..0x36]), Err(LinkInfoParseError::Truncated));
    assert_eq!(LinkInfo::try_from(&good[..0x10]), Err(LinkInfoParseError::Truncated));

    let mut bad = good.clone();
    bad[4] = 0x10;
    assert_eq!(LinkInfo::try_from(&bad), Err(LinkInfoParseError::InvalidHeaderSize(0x10)));

    let mut bad = good.clone();
    bad[8] = 0x04;
    assert_eq!(LinkInfo::try_from(&bad), Err(LinkInfoParseError::InvalidFlags(4)));

    let mut bad = good.clone();
    bad[12..16].copy_from_slice(&u32le(0x40));
    assert_eq!(LinkInfo::try_from(&bad), Err(LinkInfoParseError::OffsetOutOfBounds(0x40)));

    let mut bad = good.clone();
    bad[0x1C + 4] = 9;
    assert_eq!(LinkInfo::try_from(&bad), Err(LinkInfoParseError::InvalidDriveType(9)));

    let mut bad = good.clone();
    bad[0x1C..0x20].copy_from_slice(&u32le(0x08));
    assert_eq!(LinkInfo::try_from(&bad), Err(LinkInfoParseError::BlockSizeTooSmall(8)));

    // The suffix loses its NUL: no terminator before LinkInfoSize.
    let mut bad = good.clone();
    bad[0x36] = b'y';
    assert_eq!(LinkInfo::try_from(&bad), Err(LinkInfoParseError::OffsetOutOfBounds(0x36)));
}

/// A LinkInfo with only a CommonNetworkRelativeLink to `\\srv\share` mapped to `Z:`.
fn network_link_info(provider: u32) -> Vec<u8> {
    let mut cnrl = Vec::new();
    let strings = b"\\\\srv\\share\0Z:\0";
    cnrl.extend_from_slice(&u32le(0x14 + strings.len() as u32));
    cnrl.extend_from_slice(&u32le(3));
    cnrl.extend_from_slice(&u32le(0x14));
    cnrl.extend_from_slice(&u32le(0x14 + 12));
    cnrl.extend_from_slice(&u32le(provider));
    cnrl.extend_from_slice(strings);
    let size = 0x1C + cnrl.len() as u32 + 4;
    let mut v = Vec::new();
    v.extend_from_slice(&u32le(size));
    v.extend_from_slice(&u32le(0x1C));
    v.extend_from_slice(&u32le(2));
    v.extend_from_slice(&u32le(0));
    v.extend_from_slice(&u32le(0));
    v.extend_from_slice(&u32le(0x1C));
    v.extend_from_slice(&u32le(0x1C + cnrl.len() as u32));
    v.extend_from_slice(&cnrl);
    v.extend_from_slice(b"a\\b\0");
    assert_eq!(v.len() as u32, size);
    v
}

#[test]
fn link_info_network_share() {
    let l = LinkInfo::try_from(&network_link_info(0x0020_0000)).unwrap();
    assert!(l.volume_id.is_none());
    assert_eq!(l.local_base_path, None);
    let c = l.common_network_relative_link.unwrap();
    assert!(c.common_network_relative_link_flags.contains(CommonNetworkRelativeLinkFlags::VALID_NET_TYPE));
    assert_eq!(c.network_provider_type, Some(NetworkProviderType::Decorb));
    assert_eq!(c.net_name, "\\\\srv\\share");
    assert_eq!(c.device_name.as_deref(), Some("Z:"));
    assert_eq!(c.net_name_unicode, None);
    assert_eq!(l.common_path_suffix, "a\\b");
}

#[test]
fn link_info_invalid_provider() {
    assert_eq!(
        LinkInfo::try_from(&network_link_info(0x0028_0000)),
        Err(LinkInfoParseError::InvalidNetworkProviderType(0x0028_0000))
    );
}

#[test]
fn drive_and_provider_tables() {
    assert_eq!(DriveType::try_from(0), Some(DriveType::Unknown));
    assert_eq!(DriveType::try_from(6), Some(DriveType::RamDisk));
    assert_eq!(DriveType::try_from(7), None);
    assert_eq!(DriveType::CdRom.to_u32(), 5);
    assert_eq!(NetworkProviderType::try_from(0x001A_0000), Some(NetworkProviderType::Avid));
    assert_eq!(NetworkProviderType::try_from(0x0027_0000), Some(NetworkProviderType::_3in1));
    assert_eq!(NetworkProviderType::try_from(0x0043_0000), Some(NetworkProviderType::Google));
    assert_eq!(NetworkProviderType::try_from(0x0044_0000), None);
    assert_eq!(NetworkProviderType::Extendnet.to_u32(), 0x0029_0000);
}

#[test]
fn string_data_counted_strings() {
    let flags = LinkFlags::from_bits(LinkFlags::HAS_NAME | LinkFlags::HAS_ARGUMENTS).unwrap();
    let mut bytes = vec![0xEE];
    bytes.extend_from_slice(&u16le(3));
    bytes.extend_from_slice(b"abc");
    bytes.extend_from_slice(&u16le(2));
    bytes.extend_from_slice(b"-x");
    bytes.push(0x55);
    let (d, next) = StringDataSection::parse(&bytes, 1, flags).unwrap();
    assert_eq!(d.name, Some(StringData { count_characters: 3, string: "abc".to_string() }));
    assert_eq!(d.relative_path, None);
    assert_eq!(d.working_dir, None);
    assert_eq!(d.command_line_arguments.map(|s| s.string), Some("-x".to_string()));
    assert_eq!(d.icon_location, None);
    assert_eq!(next, 10);
}

#[test]
fn string_data_unicode() {
    let flags = LinkFlags::from_bits(LinkFlags::HAS_WORKING_DIR | LinkFlags::IS_UNICODE).unwrap();
    let mut bytes = Vec::new();
    bytes.extend_from_slice(&u16le(2));
    bytes.extend_from_slice(&[0x48, 0x00, 0xE9, 0x00]);
    let (d, next) = StringDataSection::parse(&bytes, 0, flags).unwrap();
    assert_eq!(d.working_dir.map(|s| s.string), Some("H\u{e9}".to_string()));
    assert_eq!(next, 6);
    let (s, end) = StringData::parse(&[0x00, 0x00], 0, true).unwrap();
    assert_eq!((s.string.as_str(), end), ("", 2));
}

#[test]
fn string_data_truncated() {
    let flags = LinkFlags::from_bits(LinkFlags::HAS_NAME | LinkFlags::IS_UNICODE).unwrap();
    let bytes = [0x02, 0x00, 0x41, 0x00, 0x42];
    assert_eq!(StringDataSection::parse(&bytes, 0, flags), Err(StringDataParseError::Truncated));
    assert_eq!(StringDataSection::parse(&[0x01], 0, flags), Err(StringDataParseError::Truncated));
    let none = LinkFlags::from_bits(0).unwrap();
    assert_eq!(StringDataSection::parse(&[], 0, none).map(|(_, n)| n), Ok(0));
}

fn block(sig: u32, body: &[u8]) -> Vec<u8> {
    let mut v = Vec::new();
    v.extend_from_slice(&u32le(8 + body.len() as u32));
    v.extend_from_slice(&u32le(sig));
    v.extend_from_slice(body);
    v
}

#[test]
fn extra_data_terminator_ends_section() {
    let mut bytes = block(0xA000_0004, &u32le(1252));
    bytes.extend_from_slice(&u32le(0));
    bytes.extend_from_slice(&block(0xA000_0004, &u32le(437)));
    let blocks = ExtraData::parse_all(&bytes, 0).unwrap();
    assert_eq!(blocks.len(), 1);
    match &blocks[0] {
        ExtraData::ConsoleFeProps(b) => {
            assert_eq!((b.block_size, b.block_signature, b.code_page), (0x0C, 0xA000_0004, 1252))
        }
        other => panic!("unexpected block {:?}", other),
    }
    let mut only_end = Vec::new();
    only_end.extend_from_slice(&u32le(3));
    assert_eq!(ExtraData::parse_all(&only_end, 0), Ok(vec![]));
    assert_eq!(ExtraData::parse_all(&[], 0), Ok(vec![]));
}

#[test]
fn extra_data_skips_unknown_signatures() {
    let mut body = Vec::new();
    body.extend_from_slice(&u32le(0x25));
    body.extend_from_slice(&u32le(0x10));
    let mut bytes = block(0xA000_00FF, &[1, 2, 3, 4]);
    bytes.extend_from_slice(&block(0xA000_0005, &body));
    bytes.extend_from_slice(&u32le(0));
    let blocks = ExtraData::parse_all(&bytes, 0).unwrap();
    assert_eq!(blocks.len(), 1);
    match &blocks[0] {
        ExtraData::SpecialFolderProps(b) => assert_eq!((b.special_folder_id, b.offset), (0x25, 0x10)),
        other => panic!("unexpected block {:?}", other),
    }
}

#[test]
fn extra_data_block_errors() {
    let bytes = block(0xA000_0002, &[0u8; 8]);
    assert_eq!(
        ExtraData::parse_all(&bytes, 0),
        Err(ExtraDataParseError::InvalidBlockSize(0xA000_0002, 0x10))
    );
    let mut tracker = Vec::new();
    tracker.extend_from_slice(&u32le(0x50));
    tracker.extend_from_slice(&[0u8; 0x54]);
    let bytes = block(0xA000_0003, &tracker);
    assert_eq!(
        ExtraData::parse_all(&bytes, 0),
        Err(ExtraDataParseError::InvalidValue(0xA000_0003, 0x50))
    );
    let mut bytes = Vec::new();
    bytes.extend_from_slice(&u32le(0x100));
    bytes.extend_from_slice(&u32le(0xA000_0009));
    assert_eq!(ExtraData::parse_all(&bytes, 0), Err(ExtraDataParseError::Truncated));
    let bytes = block(0xA000_000C, &[0x06, 0x00]);
    assert_eq!(
        ExtraData::parse_all(&bytes, 0),
        Err(ExtraDataParseError::IdList(LinkTargetIdListParseError::ItemIdExceedsBound(6)))
    );
}

#[test]
fn extra_data_tracker_and_known_folder() {
    let mut tracker = Vec::new();
    tracker.extend_from_slice(&u32le(0x58));
    tracker.extend_from_slice(&u32le(0));
    let mut machine = [0u8; 16];
    machine[..4].copy_from_slice(b"host");
    tracker.extend_from_slice(&machine);
    for i in 0..4u128 {
        tracker.extend_from_slice(&(i + 1).to_le_bytes());
    }
    let mut known = Vec::new();
    known.extend_from_slice(&7u128.to_le_bytes());
    known.extend_from_slice(&u32le(0x2A));
    let mut bytes = block(0xA000_0003, &tracker);
    bytes.extend_from_slice(&block(0xA000_000B, &known));
    let blocks = ExtraData::parse_all(&bytes, 0).unwrap();
    assert_eq!(blocks.len(), 2);
    match &blocks[0] {
        ExtraData::TrackerProps(t) => {
            assert_eq!(t.machine_id, "host");
            assert_eq!(t.droid, [1, 2]);
            assert_eq!(t.droid_birth, [3, 4]);
        }
        other => panic!("unexpected block {:?}", other),
    }
    match &blocks[1] {
        ExtraData::KnownFolderProps(k) => assert_eq!((k.known_folder_id, k.offset), (7, 0x2A)),
        other => panic!("unexpected block {:?}", other),
    }
}

#[test]
fn extra_data_strings_and_bytes() {
    let mut env = vec![0u8; 260 + 520];
    env[..5].copy_from_slice(b"%x%\\y");
    env[260] = b'%';
    env[262] = b'z';
    let mut bytes = block(0xA000_0001, &env);
    bytes.extend_from_slice(&block(0xA000_0009, &[9, 8, 7, 6]));
    bytes.extend_from_slice(&block(0xA000_000C, &[0x03, 0x00, 0x11, 0x00, 0x00]));
    let blocks = ExtraData::parse_all(&bytes, 0).unwrap();
    assert_eq!(blocks.len(), 3);
    match &blocks[0] {
        ExtraData::EnvironmentProps(e) => {
            assert_eq!(e.target_ansi, "%x%\\y");
            assert_eq!(e.target_unicode, "%z");
        }
        other => panic!("unexpected block {:?}", other),
    }
    match &blocks[1] {
        ExtraData::PropertyStoreProps(p) => assert_eq!(p.property_store, vec![9, 8, 7, 6]),
        other => panic!("unexpected block {:?}", other),
    }
    match &blocks[2] {
        ExtraData::VistaAndAboveIdListProps(v) => {
            assert_eq!(v.id_list.item_id_list.len(), 1);
            assert_eq!(v.id_list.item_id_list[0].data, vec![0x11]);
        }
        other => panic!("unexpected block {:?}", other),
    }
}

#[test]
fn extra_data_console_block() {
    let mut body = vec![0u8; 0xCC - 8];
    body[0..2].copy_from_slice(&u16le(0x07));
    body[2..4].copy_from_slice(&u16le(0xF5));
    body[4..6].copy_from_slice(&u16le(120));
    body[24..28].copy_from_slice(&u32le(0x0010_0000));
    body[28..32].copy_from_slice(&u32le(0x36));
    body[32..36].copy_from_slice(&u32le(700));
    body[36..38].copy_from_slice(&u16le(0x41));
    body[100..104].copy_from_slice(&u32le(25));
    body[104..108].copy_from_slice(&u32le(1));
    body[132..136].copy_from_slice(&u32le(0x00FF_0000));
    let blocks = ExtraData::parse_all(&block(0xA000_0002, &body), 0).unwrap();
    match &blocks[0] {
        ExtraData::ConsoleProps(c) => {
            assert_eq!(c.block_size, 0xCC);
            assert_eq!(c.fill_attributes.bits, 0x07);
            assert_eq!(c.screen_buffer_size_x, 120);
            assert_eq!(c.font_size, 0x0010_0000);
            assert_eq!(c.font_family, FontFamily::Modern);
            assert_eq!(c.font_weight, shell_link::FontWeight::Bold);
            assert_eq!(c.face_name, "A");
            assert_eq!(c.cursor_size, CursorSize::Small(25));
            assert!(c.full_screen);
            assert!(!c.quick_edit);
            assert_eq!(c.color_table.len(), 16);
            assert_eq!(c.color_table[0], 0x00FF_0000);
        }
        other => panic!("unexpected block {:?}", other),
    }
    body[100..104].copy_from_slice(&u32le(101));
    assert_eq!(
        ExtraData::parse_all(&block(0xA000_0002, &body), 0),
        Err(ExtraDataParseError::InvalidValue(0xA000_0002, 101))
    );
}

#[test]
fn console_tables() {
    assert_eq!(CursorSize::try_from(0), Some(CursorSize::Small(0)));
    assert_eq!(CursorSize::try_from(26), Some(CursorSize::Medium(26)));
    assert_eq!(CursorSize::try_from(100), Some(CursorSize::Large(100)));
    assert_eq!(CursorSize::try_from(101), None);
    assert_eq!(CursorSize::Medium(40).to_u32(), 40);
    assert_eq!(FontFamily::try_from(0x30), Some(FontFamily::Modern));
    assert_eq!(FontFamily::try_from(0x35), None);
    assert_eq!(FontFamily::Decorative.to_u16(), 0x50);
}

#[test]
fn from_conversions() {
    assert_eq!(ShowCmd::from(3u32), ShowCmd::ShowMaximized);
    assert_eq!(ShowCmd::from(1u32), ShowCmd::ShowNormal);
    assert_eq!(u32::from(ShowCmd::ShowMinNoActive), 7);
    assert_eq!(u8::from(HotKey::A), 0x41);
    assert_eq!(u8::from(HotKey::F12), 0x7B);
    assert_eq!(u8::from(HotKeyModifier::Alt), 0x04);
    assert_eq!(u32::from(DriveType::Remote), 4);
    assert_eq!(u32::from(NetworkProviderType::Google), 0x0043_0000);
    assert_eq!(u16::from(FontFamily::Roman), 0x10);
    assert_eq!(u32::from(CursorSize::Large(80)), 80);
}

#[test]
fn link_info_checks_offsets_it_does_not_follow() {
    let mut v = Vec::new();
    for w in [0x26u32, 0x24, 0, 0, 0, 0, 0x24, 0xFFFF_FFFF, 0x24] {
        v.extend_from_slice(&u32le(w));
    }
    v.extend_from_slice(b"\0\0");
    assert_eq!(v.len(), 0x26);
    assert_eq!(LinkInfo::try_from(&v), Err(LinkInfoParseError::OffsetOutOfBounds(0xFFFF_FFFF)));

    v[28..32].copy_from_slice(&u32le(0));
    let l = LinkInfo::try_from(&v).unwrap();
    assert_eq!(l.link_info_size_header, LinkInfoHeaderSize::Specified(0x24));
    assert_eq!(l.local_base_path_offset_unicode, Some(0));
    assert_eq!(l.local_base_path_unicode, None);
    assert_eq!(l.common_path_suffix_unicode.as_deref(), Some(""));

    let mut bad = local_link_info();
    bad[20..24].copy_from_slice(&u32le(0x37));
    assert_eq!(LinkInfo::try_from(&bad), Err(LinkInfoParseError::OffsetOutOfBounds(0x37)));
}

#[test]
fn network_link_checks_device_offset() {
    let mut v = network_link_info(0x0020_0000);
    // Clear ValidDevice: the device name is no longer followed, but its offset is still read.
    v[0x1C + 4..0x1C + 8].copy_from_slice(&u32le(2));
    v[0x1C + 12..0x1C + 16].copy_from_slice(&u32le(0x40));
    assert_eq!(LinkInfo::try_from(&v), Err(LinkInfoParseError::OffsetOutOfBounds(0x40)));
    v[0x1C + 12..0x1C + 16].copy_from_slice(&u32le(0));
    let c = LinkInfo::try_from(&v).unwrap().common_network_relative_link.unwrap();
    assert_eq!(c.device_name, None);
}
