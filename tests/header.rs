use shell_link::shell_link_header::HEADER_LEN;
use shell_link::{
    filetime_to_utc, FileAttributes, HotKey, HotKeyFlags, HotKeyFlagsParseError, HotKeyModifier,
    LinkFlags, ShellLinkHeader, ShellLinkHeaderParseError, ShowCmd, Timestamp,
};

const CLSID: [u8; 16] = [
    0x01, 0x14, 0x02, 0x00, 0x00, 0x00, 0x00, 0x00, 0xC0, 0x00, 0x00, 0x00, 0x00, 0x00, 0x00, 0x46,
];

fn header_bytes(flags: u32, attrs: u32, times: [u64; 3], show: u32, hot_key: [u8; 2]) -> Vec<u8> {
    let mut v = Vec::new();
    v.extend_from_slice(&0x4Cu32.to_le_bytes());
    v.extend_from_slice(&CLSID);
    v.extend_from_slice(&flags.to_le_bytes());
    v.extend_from_slice(&attrs.to_le_bytes());
    for t in times.iter() {
        v.extend_from_slice(&t.to_le_bytes());
    }
    v.extend_from_slice(&0x1234u32.to_le_bytes());
    v.extend_from_slice(&(-3i32).to_le_bytes());
    v.extend_from_slice(&show.to_le_bytes());
    v.extend_from_slice(&hot_key);
    v.extend_from_slice(&[0u8; 10]);
    assert_eq!(v.len(), 76);
    v
}

fn plain_header() -> Vec<u8> {
    header_bytes(0, 0, [0, 0, 0], 0, [0, 0])
}

#[test]
fn short_input_fails_with_its_length() {
    for n in [0usize, 1, 4, 20, 75] {
        let bytes = vec![0u8; n];
        assert_eq!(
            ShellLinkHeader::try_from(&bytes),
            Err(ShellLinkHeaderParseError::InvalidHeaderLength(n))
        );
    }
    let full = plain_header();
    assert_eq!(
        ShellLinkHeader::try_from(&full[..75]),
        Err(ShellLinkHeaderParseError::InvalidHeaderLength(75))
    );
}

#[test]
fn wrong_header_size_fails_with_that_size() {
    let mut bytes = plain_header();
    bytes[0] = 0x4D;
    assert_eq!(
        ShellLinkHeader::try_from(&bytes),
        Err(ShellLinkHeaderParseError::CorruptHeaderLength(0x4D))
    );
    bytes[0..4].copy_from_slice(&0x0100_004Cu32.to_le_bytes());
    assert_eq!(
        ShellLinkHeader::try_from(&bytes),
        Err(ShellLinkHeaderParseError::CorruptHeaderLength(0x0100_004C))
    );
}

#[test]
fn wrong_clsid_fails() {
    let mut bytes = plain_header();
    bytes[19] = 0x47;
    assert_eq!(
        ShellLinkHeader::try_from(&bytes),
        Err(ShellLinkHeaderParseError::CorruptHeaderClsId([0x00021401, 0, 0xC0, 0x47000000]))
    );
    let mut bytes = plain_header();
    bytes[4] = 0x00;
    assert!(matches!(
        ShellLinkHeader::try_from(&bytes),
        Err(ShellLinkHeaderParseError::CorruptHeaderClsId(_))
    ));
}

#[test]
fn minimal_header_decodes() {
    let bytes = plain_header();
    let h = ShellLinkHeader::try_from(&bytes).unwrap();
    assert_eq!(h.link_flags.bits(), 0);
    assert_eq!(h.file_attributes.bits(), 0);
    assert_eq!(h.creation_time, None);
    assert_eq!(h.access_time, None);
    assert_eq!(h.write_time, None);
    assert_eq!(h.hot_key_flags, None);
    assert_eq!(h.show_cmd, ShowCmd::ShowNormal);
    assert_eq!(h.file_size, 0x1234);
    assert_eq!(h.icon_index, -3);
    assert_eq!(HEADER_LEN, 76);
}

#[test]
fn bytes_after_the_header_are_ignored() {
    let mut bytes = plain_header();
    bytes.extend_from_slice(&[0xFF; 8]);
    assert!(ShellLinkHeader::try_from(&bytes).is_ok());
}

#[test]
fn show_command_values() {
    let cases = [
        (0u32, ShowCmd::ShowNormal),
        (1, ShowCmd::ShowNormal),
        (2, ShowCmd::ShowNormal),
        (3, ShowCmd::ShowMaximized),
        (7, ShowCmd::ShowMinNoActive),
        (8, ShowCmd::ShowNormal),
        (0xFFFF_FFFF, ShowCmd::ShowNormal),
    ];
    for (v, c) in cases.iter() {
        let bytes = header_bytes(0, 0, [0, 0, 0], *v, [0, 0]);
        assert_eq!(ShellLinkHeader::try_from(&bytes).unwrap().show_cmd, *c);
        assert_eq!(ShowCmd::from_u32(*v), *c);
    }
    assert_eq!(ShowCmd::ShowNormal.to_u32(), 1);
    assert_eq!(ShowCmd::ShowMaximized.to_u32(), 3);
    assert_eq!(ShowCmd::ShowMinNoActive.to_u32(), 7);
}

#[test]
fn hot_key_control_a() {
    let bytes = header_bytes(0, 0, [0, 0, 0], 1, [0x41, 0x02]);
    let h = ShellLinkHeader::try_from(&bytes).unwrap();
    assert_eq!(
        h.hot_key_flags,
        Some(HotKeyFlags { hot_key: HotKey::A, modifier: HotKeyModifier::Control })
    );
    assert_eq!(HotKeyFlags::try_from(&[0, 0]), Ok(None));
}

#[test]
fn hot_key_errors() {
    let bytes = header_bytes(0, 0, [0, 0, 0], 1, [0x01, 0x02]);
    assert_eq!(
        ShellLinkHeader::try_from(&bytes),
        Err(ShellLinkHeaderParseError::InvalidHotKeyFlags(HotKeyFlagsParseError::InvalidHotKey(1)))
    );
    let bytes = header_bytes(0, 0, [0, 0, 0], 1, [0x41, 0x03]);
    assert_eq!(
        ShellLinkHeader::try_from(&bytes),
        Err(ShellLinkHeaderParseError::InvalidHotKeyFlags(
            HotKeyFlagsParseError::InvalidHotKeyModifier(3)
        ))
    );
    assert_eq!(
        HotKeyFlags::try_from(&[0x00, 0x01]),
        Err(HotKeyFlagsParseError::InvalidHotKey(0))
    );
}

#[test]
fn hot_key_table() {
    assert_eq!(HotKey::try_from(0x30), Some(HotKey::Zero));
    assert_eq!(HotKey::try_from(0x32), Some(HotKey::Two));
    assert_eq!(HotKey::try_from(0x5A), Some(HotKey::Z));
    assert_eq!(HotKey::try_from(0x70), Some(HotKey::F1));
    assert_eq!(HotKey::try_from(0x87), Some(HotKey::F24));
    assert_eq!(HotKey::try_from(0x90), Some(HotKey::NumLock));
    assert_eq!(HotKey::try_from(0x91), Some(HotKey::ScrollLock));
    assert_eq!(HotKey::try_from(0x40), None);
    assert_eq!(HotKey::try_from(0x3A), None);
    assert_eq!(HotKey::try_from(0x88), None);
    for b in 0..=255u8 {
        if let Some(k) = HotKey::try_from(b) {
            assert_eq!(k.to_u8(), b);
        }
    }
    assert_eq!(HotKeyModifier::try_from(1), Some(HotKeyModifier::Shift));
    assert_eq!(HotKeyModifier::try_from(4), Some(HotKeyModifier::Alt));
    assert_eq!(HotKeyModifier::try_from(6), None);
    assert_eq!(HotKeyModifier::Control.to_u8(), 2);
}

#[test]
fn unknown_flag_bits_fail() {
    let bytes = header_bytes(1 << 10, 0, [0, 0, 0], 1, [0, 0]);
    assert_eq!(
        ShellLinkHeader::try_from(&bytes),
        Err(ShellLinkHeaderParseError::InvalidLinkFlags(1 << 10))
    );
    let bytes = header_bytes(1 << 27, 0, [0, 0, 0], 1, [0, 0]);
    assert_eq!(
        ShellLinkHeader::try_from(&bytes),
        Err(ShellLinkHeaderParseError::InvalidLinkFlags(1 << 27))
    );
    let bytes = header_bytes(0, 1 << 3, [0, 0, 0], 1, [0, 0]);
    assert_eq!(
        ShellLinkHeader::try_from(&bytes),
        Err(ShellLinkHeaderParseError::InvalidFileAttributes(1 << 3))
    );
    let flags = LinkFlags::HAS_LINK_TARGET_ID_LIST | LinkFlags::IS_UNICODE | LinkFlags::KEEP_LOCAL_ID_LIST_FOR_UNC_TARGET;
    let attrs = FileAttributes::ARCHIVE | FileAttributes::ENCRYPTED;
    let bytes = header_bytes(flags, attrs, [0, 0, 0], 1, [0, 0]);
    let h = ShellLinkHeader::try_from(&bytes).unwrap();
    assert!(h.link_flags.contains(LinkFlags::IS_UNICODE));
    assert!(!h.link_flags.contains(LinkFlags::HAS_LINK_INFO));
    assert!(h.file_attributes.contains(FileAttributes::ENCRYPTED));
    assert_eq!(LinkFlags::from_bits(0x07FE_FBFF).map(|f| f.bits()), Some(0x07FE_FBFF));
    assert_eq!(LinkFlags::from_bits(0x0800_0000), None);
    assert_eq!(FileAttributes::from_bits(0x8000), None);
}

#[test]
fn filetime_unix_epoch() {
    let t = filetime_to_utc(116444736000000000);
    assert_eq!(
        t,
        Timestamp {
            year: 1970,
            month: 1,
            day: 1,
            hour: 0,
            minute: 0,
            second: 0,
            nanosecond: 0,
            day_of_year: 0,
            day_of_week: 0,
        }
    );
}

#[test]
fn filetime_leap_day() {
    let t = filetime_to_utc(132274532967890000);
    assert_eq!((t.year, t.month, t.day), (2020, 2, 29));
    assert_eq!((t.hour, t.minute, t.second), (12, 34, 56));
    assert_eq!(t.nanosecond, 789_000_000);
    assert_eq!(t.day_of_year, 59);
    assert_eq!(t.day_of_week, 59 % 7);
}

#[test]
fn filetime_end_of_leap_century_year() {
    let t = filetime_to_utc(126227807990000000);
    assert_eq!((t.year, t.month, t.day, t.hour, t.minute, t.second), (2000, 12, 31, 23, 59, 59));
    assert_eq!(t.day_of_year, 365);
}

#[test]
fn filetime_before_1900_saturates() {
    let start = filetime_to_utc(94354848000000000);
    assert_eq!((start.year, start.month, start.day, start.hour), (1900, 1, 1, 0));
    assert_eq!(filetime_to_utc(1), start);
    assert_eq!(filetime_to_utc(94354847999999999), start);
}

#[test]
fn header_timestamps() {
    let bytes = header_bytes(0, 0, [116444736000000000, 0, 132274532967890000], 1, [0, 0]);
    let h = ShellLinkHeader::try_from(&bytes).unwrap();
    assert_eq!(h.creation_time.map(|t| t.year), Some(1970));
    assert_eq!(h.access_time, None);
    assert_eq!(h.write_time.map(|t| (t.month, t.day)), Some((2, 29)));
}
