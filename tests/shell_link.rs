use shell_link::{
    ExtraData, ExtraDataParseError, LinkFlags, LinkInfoParseError, LinkTargetIdListParseError,
    ShellLink, ShellLinkHeaderParseError, ShellLinkParseError, StringDataParseError,
};

const CLSID: [u8; 16] = [
    0x01, 0x14, 0x02, 0x00, 0x00, 0x00, 0x00, 0x00, 0xC0, 0x00, 0x00, 0x00, 0x00, 0x00, 0x00, 0x46,
];

fn u32le(v: u32) -> [u8; 4] {
    v.to_le_bytes()
}

fn header(flags: u32) -> Vec<u8> {
    let mut v = Vec::new();
    v.extend_from_slice(&u32le(0x4C));
    v.extend_from_slice(&CLSID);
    v.extend_from_slice(&u32le(flags));
    v.extend_from_slice(&u32le(0x20));
    v.extend_from_slice(&116444736000000000u64.to_le_bytes());
    v.extend_from_slice(&0u64.to_le_bytes());
    v.extend_from_slice(&132274532967890000u64.to_le_bytes());
    v.extend_from_slice(&u32le(4096));
    v.extend_from_slice(&u32le(0));
    v.extend_from_slice(&u32le(1));
    v.extend_from_slice(&[0x41, 0x02]);
    v.extend_from_slice(&[0u8; 10]);
    v
}

fn link_info() -> Vec<u8> {
    let mut v = Vec::new();
    for w in [0x37u32, 0x1C, 1, 0x1C, 0x31, 0, 0x36, 0x15, 3, 0x1234_5678, 0x10] {
        v.extend_from_slice(&u32le(w));
    }
    v.extend_from_slice(b"DATA\0C:\\ProgramData\0");
    v.truncate(0x31);
    v.extend_from_slice(b"C:\\x\0\0");
    v
}

/// A link with every structure: an IDList, a LinkInfo, two Unicode strings, and a
/// ConsoleFE block before the terminal block.
fn full_link() -> Vec<u8> {
    let flags = LinkFlags::HAS_LINK_TARGET_ID_LIST
        | LinkFlags::HAS_LINK_INFO
        | LinkFlags::HAS_NAME
        | LinkFlags::HAS_WORKING_DIR
        | LinkFlags::IS_UNICODE;
    let mut v = header(flags);
    v.extend_from_slice(&[0x08, 0x00, 0x06, 0x00, 0xAA, 0xBB, 0xCC, 0xDD, 0x00, 0x00]);
    v.extend_from_slice(&link_info());
    v.extend_from_slice(&[0x02, 0x00, b'H', 0x00, b'i', 0x00]);
    v.extend_from_slice(&[0x02, 0x00, b'C', 0x00, b':', 0x00]);
    v.extend_from_slice(&u32le(0x0C));
    v.extend_from_slice(&u32le(0xA000_0004));
    v.extend_from_slice(&u32le(65001));
    v.extend_from_slice(&u32le(0));
    v
}

#[test]
fn parse_program_data_file() {
    let bytes = full_link();
    let shell_link = ShellLink::try_from(&bytes).unwrap();
    println!("shell_link: {:#?}", shell_link);
    assert_eq!(shell_link.header.creation_time.map(|t| t.year), Some(1970));
    assert_eq!(shell_link.header.file_size, 4096);
    let id_list = shell_link.link_target_id_list.as_ref().unwrap();
    assert_eq!(id_list.id_list.item_id_list[0].data, vec![0xAA, 0xBB, 0xCC, 0xDD]);
    let info = shell_link.link_info.as_ref().unwrap();
    assert_eq!(info.local_base_path.as_deref(), Some("C:\\x"));
    assert_eq!(info.volume_id.as_ref().map(|v| v.data.as_str()), Some("DATA"));
    let strings = &shell_link.string_data;
    assert_eq!(strings.name.as_ref().map(|s| s.string.as_str()), Some("Hi"));
    assert_eq!(strings.working_dir.as_ref().map(|s| s.string.as_str()), Some("C:"));
    assert!(strings.relative_path.is_none());
    assert_eq!(shell_link.extra_data.len(), 1);
    assert!(matches!(&shell_link.extra_data[0], ExtraData::ConsoleFeProps(b) if b.code_page == 65001));
}

#[test]
fn header_only_link() {
    let bytes = header(0);
    let l = ShellLink::try_from(&bytes).unwrap();
    assert!(l.link_target_id_list.is_none());
    assert!(l.link_info.is_none());
    assert!(l.string_data.name.is_none());
    assert!(l.extra_data.is_empty());
}

#[test]
fn decoding_is_deterministic_and_leaves_input_alone() {
    let bytes = full_link();
    let copy = bytes.clone();
    let first = ShellLink::try_from(&bytes);
    let second = ShellLink::try_from(&bytes);
    assert_eq!(first, second);
    assert_eq!(bytes, copy);
    let bad = header(1 << 10);
    assert_eq!(ShellLink::try_from(&bad), ShellLink::try_from(&bad));
}

#[test]
fn first_failing_structure_gives_the_error() {
    assert_eq!(
        ShellLink::try_from(&[0u8; 10]),
        Err(ShellLinkParseError::HeaderParseError(ShellLinkHeaderParseError::InvalidHeaderLength(10)))
    );

    let mut bytes = header(LinkFlags::HAS_LINK_TARGET_ID_LIST);
    bytes.extend_from_slice(&[0x08, 0x00, 0x06, 0x00]);
    assert_eq!(
        ShellLink::try_from(&bytes),
        Err(ShellLinkParseError::IdListParseError(LinkTargetIdListParseError::Truncated))
    );

    let mut bytes = header(LinkFlags::HAS_LINK_INFO);
    bytes.extend_from_slice(&link_info()[..0x20]);
    assert_eq!(
        ShellLink::try_from(&bytes),
        Err(ShellLinkParseError::LinkInfoParseError(LinkInfoParseError::Truncated))
    );

    let mut bytes = header(LinkFlags::HAS_ARGUMENTS);
    bytes.extend_from_slice(&[0x05, 0x00, b'a']);
    assert_eq!(
        ShellLink::try_from(&bytes),
        Err(ShellLinkParseError::StringDataParseError(StringDataParseError::Truncated))
    );

    let mut bytes = header(0);
    bytes.extend_from_slice(&u32le(0x20));
    bytes.extend_from_slice(&u32le(0xA000_0004));
    bytes.extend_from_slice(&[0u8; 0x18]);
    assert_eq!(
        ShellLink::try_from(&bytes),
        Err(ShellLinkParseError::ExtraDataParseError(ExtraDataParseError::InvalidBlockSize(
            0xA000_0004,
            0x20
        )))
    );
}
