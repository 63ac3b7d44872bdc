//! The fixed 76-byte ShellLinkHeader and the small types it is made of.
use vstd::prelude::*;
use crate::bytes::{u16_at, u32_at, i32_at, u64_at, u32_from_input, i32_from_input, u64_from_input};
use crate::filetime::{Timestamp, filetime_to_utc, is_utc_of};
pub use crate::error::{ShellLinkHeaderParseError, HotKeyFlagsParseError};

verus! {

/// Header length - 76 in decimal
pub const HEADER_LEN: usize = 0x4C;

/// The four little-endian words of LinkCLSID `00021401-0000-0000-C000-000000000046`.
pub const LINK_CLSID_0: u32 = 0x00021401;
pub const LINK_CLSID_1: u32 = 0x00000000;
pub const LINK_CLSID_2: u32 = 0x000000C0;
pub const LINK_CLSID_3: u32 = 0x46000000;

/// LinkFlags: which optional structures follow the header, and how the link behaves.
/// Each flag is one bit; any other bit set makes the field invalid.
#[derive(Debug, Copy, Clone, PartialEq, Eq, Hash, Ord, PartialOrd)]
pub struct LinkFlags {
    pub bits: u32,
}

impl LinkFlags {
    pub const HAS_LINK_TARGET_ID_LIST: u32 = 1 << 0;
    pub const HAS_LINK_INFO: u32 = 1 << 1;
    pub const HAS_NAME: u32 = 1 << 2;
    pub const HAS_RELATIVE_PATH: u32 = 1 << 3;
    pub const HAS_WORKING_DIR: u32 = 1 << 4;
    pub const HAS_ARGUMENTS: u32 = 1 << 5;
    pub const HAS_ICON_LOCATION: u32 = 1 << 6;
    pub const IS_UNICODE: u32 = 1 << 7;
    pub const FORCE_NO_LINK_INFO: u32 = 1 << 8;
    pub const HAS_EXP_STRING: u32 = 1 << 9;
    pub const RUN_IN_SEPARATE_PROCESS: u32 = 1 << 11;
    pub const HAS_DARWIN_ID: u32 = 1 << 12;
    pub const RUN_AS_USER: u32 = 1 << 13;
    pub const HAS_EXP_ICON: u32 = 1 << 14;
    pub const NO_PIDL_ALIAS: u32 = 1 << 15;
    pub const RUN_WITH_SHIM_LAYER: u32 = 1 << 17;
    pub const FORCE_NO_LINK_TRACK: u32 = 1 << 18;
    pub const ENABLE_TARGET_METADATA: u32 = 1 << 19;
    pub const DISABLE_LINK_PATH_TRACKING: u32 = 1 << 20;
    pub const DISABLE_KNOWN_FOLDER_TRACKING: u32 = 1 << 21;
    pub const DISABLE_KNOWN_FOLDER_ALIAS: u32 = 1 << 22;
    pub const ALLOW_LINK_TO_LINK: u32 = 1 << 23;
    pub const UNALIAS_ON_SAVE: u32 = 1 << 24;
    pub const PREFER_ENVIRONMENT_PATH: u32 = 1 << 25;
    pub const KEEP_LOCAL_ID_LIST_FOR_UNC_TARGET: u32 = 1 << 26;
    /// Every defined flag.
    pub const ALL: u32 = 0x07FE_FBFF;

    /// Only defined flags are set.
    pub open spec fn wf(&self) -> bool {
        self.bits & !Self::ALL == 0
    }

    /// The flags of `bits`, or `None` when a bit outside the defined flags is set.
    pub fn from_bits(bits: u32) -> (r: Option<Self>)
        ensures
            r is Some <==> bits & !Self::ALL == 0,
            r matches Some(f) ==> f.bits == bits && f.wf(),
    {
        if bits & !Self::ALL == 0 {
            Some(LinkFlags { bits })
        } else {
            None
        }
    }

    pub fn bits(&self) -> (r: u32)
        ensures
            r == self.bits,
    {
        self.bits
    }

    /// All bits of `flag` are set.
    pub fn contains(&self, flag: u32) -> (r: bool)
        ensures
            r == (self.bits & flag == flag),
    {
        self.bits & flag == flag
    }
}

/// FileAttributes of the link target. Each attribute is one bit; any other bit set makes
/// the field invalid.
#[derive(Debug, Copy, Clone, PartialEq, Eq, Hash, Ord, PartialOrd)]
pub struct FileAttributes {
    pub bits: u32,
}

impl FileAttributes {
    pub const READ_ONLY: u32 = 1 << 0;
    pub const HIDDEN: u32 = 1 << 1;
    pub const SYSTEM: u32 = 1 << 2;
    pub const DIRECTORY: u32 = 1 << 4;
    pub const ARCHIVE: u32 = 1 << 5;
    pub const NORMAL: u32 = 1 << 7;
    pub const TEMPORARY: u32 = 1 << 8;
    pub const SPARSE: u32 = 1 << 9;
    pub const REPARSE_POINT: u32 = 1 << 10;
    pub const COMPRESSED: u32 = 1 << 11;
    pub const OFFLINE: u32 = 1 << 12;
    pub const NOT_CONTENT_INDEXED: u32 = 1 << 13;
    pub const ENCRYPTED: u32 = 1 << 14;
    /// Every defined attribute.
    pub const ALL: u32 = 0x7FB7;

    /// Only defined attributes are set.
    pub open spec fn wf(&self) -> bool {
        self.bits & !Self::ALL == 0
    }

    /// The attributes of `bits`, or `None` when a bit outside the defined ones is set.
    pub fn from_bits(bits: u32) -> (r: Option<Self>)
        ensures
            r is Some <==> bits & !Self::ALL == 0,
            r matches Some(f) ==> f.bits == bits && f.wf(),
    {
        if bits & !Self::ALL == 0 {
            Some(FileAttributes { bits })
        } else {
            None
        }
    }

    pub fn bits(&self) -> (r: u32)
        ensures
            r == self.bits,
    {
        self.bits
    }

    /// All bits of `attribute` are set.
    pub fn contains(&self, attribute: u32) -> (r: bool)
        ensures
            r == (self.bits & attribute == attribute),
    {
        self.bits & attribute == attribute
    }
}

/// The expected window state of an application launched by the link.
#[derive(Debug, Copy, Clone, PartialEq, Eq, Hash, Ord, PartialOrd)]
pub enum ShowCmd {
    /// `SW_SHOWNORMAL: 0x00000001`: The window is open in a normal fashion.
    ShowNormal,
    /// `SW_SHOWMAXIMIZED: 0x00000003`: The window is maximized.
    ShowMaximized,
    /// `SW_SHOWMINNOACTIVE: 0x00000007`: The window is minimized and not given the focus.
    ShowMinNoActive,
}

pub const SW_SHOWNORMAL: u32 = 0x00000001;
pub const SW_SHOWMAXIMIZED: u32 = 0x00000003;
pub const SW_SHOWMINNOACTIVE: u32 = 0x00000007;

/// The window state of a ShowCommand value: any value but the two others is normal.
pub open spec fn show_cmd_of(v: u32) -> ShowCmd {
    if v == SW_SHOWMAXIMIZED {
        ShowCmd::ShowMaximized
    } else if v == SW_SHOWMINNOACTIVE {
        ShowCmd::ShowMinNoActive
    } else {
        ShowCmd::ShowNormal
    }
}

/// The ShowCommand value written for a window state.
pub open spec fn show_cmd_code(c: ShowCmd) -> u32 {
    match c {
        ShowCmd::ShowNormal => SW_SHOWNORMAL,
        ShowCmd::ShowMaximized => SW_SHOWMAXIMIZED,
        ShowCmd::ShowMinNoActive => SW_SHOWMINNOACTIVE,
    }
}

impl ShowCmd {
    /// Decodes a ShowCommand value.
    pub fn from_u32(input: u32) -> (r: ShowCmd)
        ensures
            r == show_cmd_of(input),
    {
        if input == SW_SHOWMAXIMIZED {
            ShowCmd::ShowMaximized
        } else if input == SW_SHOWMINNOACTIVE {
            ShowCmd::ShowMinNoActive
        } else {
            ShowCmd::ShowNormal
        }
    }

    /// The ShowCommand value of this window state.
    pub fn to_u32(self) -> (r: u32)
        ensures
            r == show_cmd_code(self),
    {
        match self {
            ShowCmd::ShowNormal => SW_SHOWNORMAL,
            ShowCmd::ShowMaximized => SW_SHOWMAXIMIZED,
            ShowCmd::ShowMinNoActive => SW_SHOWMINNOACTIVE,
        }
    }
}

impl From<u32> for ShowCmd {
    fn from(input: u32) -> ShowCmd {
        ShowCmd::from_u32(input)
    }
}

impl vstd::std_specs::convert::FromSpecImpl<u32> for ShowCmd {
    open spec fn obeys_from_spec() -> bool {
        true
    }

    open spec fn from_spec(v: u32) -> ShowCmd {
        show_cmd_of(v)
    }
}

impl From<ShowCmd> for u32 {
    fn from(input: ShowCmd) -> u32 {
        input.to_u32()
    }
}

impl vstd::std_specs::convert::FromSpecImpl<ShowCmd> for u32 {
    open spec fn obeys_from_spec() -> bool {
        true
    }

    open spec fn from_spec(v: ShowCmd) -> u32 {
        show_cmd_code(v)
    }
}

/// Every window state survives being written as a ShowCommand value and read back.
pub proof fn lemma_show_cmd_round_trip(c: ShowCmd)
    ensures
        show_cmd_of(show_cmd_code(c)) == c,
{
}

/// A virtual key code of a hot key.
#[derive(Debug, Copy, Clone, PartialEq, Eq, Hash, Ord, PartialOrd)]
pub enum HotKey {
    Zero,
    One,
    Two,
    Three,
    Four,
    Five,
    Six,
    Seven,
    Eight,
    Nine,
    A,
    B,
    C,
    D,
    E,
    F,
    G,
    H,
    I,
    J,
    K,
    L,
    M,
    N,
    O,
    P,
    Q,
    R,
    S,
    T,
    U,
    V,
    W,
    X,
    Y,
    Z,
    F1,
    F2,
    F3,
    F4,
    F5,
    F6,
    F7,
    F8,
    F9,
    F10,
    F11,
    F12,
    F13,
    F14,
    F15,
    F16,
    F17,
    F18,
    F19,
    F20,
    F21,
    F22,
    F23,
    F24,
    NumLock,
    ScrollLock,
}

/// The key of a HotKey low byte: digits, letters, F1 to F24, NumLock and ScrollLock.
pub open spec fn hot_key_of(b: u8) -> Option<HotKey> {
    match b {
        0x30 => Some(HotKey::Zero),
        0x31 => Some(HotKey::One),
        0x32 => Some(HotKey::Two),
        0x33 => Some(HotKey::Three),
        0x34 => Some(HotKey::Four),
        0x35 => Some(HotKey::Five),
        0x36 => Some(HotKey::Six),
        0x37 => Some(HotKey::Seven),
        0x38 => Some(HotKey::Eight),
        0x39 => Some(HotKey::Nine),
        0x41 => Some(HotKey::A),
        0x42 => Some(HotKey::B),
        0x43 => Some(HotKey::C),
        0x44 => Some(HotKey::D),
        0x45 => Some(HotKey::E),
        0x46 => Some(HotKey::F),
        0x47 => Some(HotKey::G),
        0x48 => Some(HotKey::H),
        0x49 => Some(HotKey::I),
        0x4A => Some(HotKey::J),
        0x4B => Some(HotKey::K),
        0x4C => Some(HotKey::L),
        0x4D => Some(HotKey::M),
        0x4E => Some(HotKey::N),
        0x4F => Some(HotKey::O),
        0x50 => Some(HotKey::P),
        0x51 => Some(HotKey::Q),
        0x52 => Some(HotKey::R),
        0x53 => Some(HotKey::S),
        0x54 => Some(HotKey::T),
        0x55 => Some(HotKey::U),
        0x56 => Some(HotKey::V),
        0x57 => Some(HotKey::W),
        0x58 => Some(HotKey::X),
        0x59 => Some(HotKey::Y),
        0x5A => Some(HotKey::Z),
        0x70 => Some(HotKey::F1),
        0x71 => Some(HotKey::F2),
        0x72 => Some(HotKey::F3),
        0x73 => Some(HotKey::F4),
        0x74 => Some(HotKey::F5),
        0x75 => Some(HotKey::F6),
        0x76 => Some(HotKey::F7),
        0x77 => Some(HotKey::F8),
        0x78 => Some(HotKey::F9),
        0x79 => Some(HotKey::F10),
        0x7A => Some(HotKey::F11),
        0x7B => Some(HotKey::F12),
        0x7C => Some(HotKey::F13),
        0x7D => Some(HotKey::F14),
        0x7E => Some(HotKey::F15),
        0x7F => Some(HotKey::F16),
        0x80 => Some(HotKey::F17),
        0x81 => Some(HotKey::F18),
        0x82 => Some(HotKey::F19),
        0x83 => Some(HotKey::F20),
        0x84 => Some(HotKey::F21),
        0x85 => Some(HotKey::F22),
        0x86 => Some(HotKey::F23),
        0x87 => Some(HotKey::F24),
        0x90 => Some(HotKey::NumLock),
        0x91 => Some(HotKey::ScrollLock),
        _ => None,
    }
}

/// The low byte written for a key.
pub open spec fn hot_key_code(k: HotKey) -> u8 {
    match k {
        HotKey::Zero => 0x30,
        HotKey::One => 0x31,
        HotKey::Two => 0x32,
        HotKey::Three => 0x33,
        HotKey::Four => 0x34,
        HotKey::Five => 0x35,
        HotKey::Six => 0x36,
        HotKey::Seven => 0x37,
        HotKey::Eight => 0x38,
        HotKey::Nine => 0x39,
        HotKey::A => 0x41,
        HotKey::B => 0x42,
        HotKey::C => 0x43,
        HotKey::D => 0x44,
        HotKey::E => 0x45,
        HotKey::F => 0x46,
        HotKey::G => 0x47,
        HotKey::H => 0x48,
        HotKey::I => 0x49,
        HotKey::J => 0x4A,
        HotKey::K => 0x4B,
        HotKey::L => 0x4C,
        HotKey::M => 0x4D,
        HotKey::N => 0x4E,
        HotKey::O => 0x4F,
        HotKey::P => 0x50,
        HotKey::Q => 0x51,
        HotKey::R => 0x52,
        HotKey::S => 0x53,
        HotKey::T => 0x54,
        HotKey::U => 0x55,
        HotKey::V => 0x56,
        HotKey::W => 0x57,
        HotKey::X => 0x58,
        HotKey::Y => 0x59,
        HotKey::Z => 0x5A,
        HotKey::F1 => 0x70,
        HotKey::F2 => 0x71,
        HotKey::F3 => 0x72,
        HotKey::F4 => 0x73,
        HotKey::F5 => 0x74,
        HotKey::F6 => 0x75,
        HotKey::F7 => 0x76,
        HotKey::F8 => 0x77,
        HotKey::F9 => 0x78,
        HotKey::F10 => 0x79,
        HotKey::F11 => 0x7A,
        HotKey::F12 => 0x7B,
        HotKey::F13 => 0x7C,
        HotKey::F14 => 0x7D,
        HotKey::F15 => 0x7E,
        HotKey::F16 => 0x7F,
        HotKey::F17 => 0x80,
        HotKey::F18 => 0x81,
        HotKey::F19 => 0x82,
        HotKey::F20 => 0x83,
        HotKey::F21 => 0x84,
        HotKey::F22 => 0x85,
        HotKey::F23 => 0x86,
        HotKey::F24 => 0x87,
        HotKey::NumLock => 0x90,
        HotKey::ScrollLock => 0x91,
    }
}

impl HotKey {
    /// The key of a HotKey low byte, or `None` for a byte that names no key.
    pub fn try_from(input: u8) -> (r: Option<Self>)
        ensures
            r == hot_key_of(input),
    {
        match input {
            0x30 => Some(HotKey::Zero),
            0x31 => Some(HotKey::One),
            0x32 => Some(HotKey::Two),
            0x33 => Some(HotKey::Three),
            0x34 => Some(HotKey::Four),
            0x35 => Some(HotKey::Five),
            0x36 => Some(HotKey::Six),
            0x37 => Some(HotKey::Seven),
            0x38 => Some(HotKey::Eight),
            0x39 => Some(HotKey::Nine),
            0x41 => Some(HotKey::A),
            0x42 => Some(HotKey::B),
            0x43 => Some(HotKey::C),
            0x44 => Some(HotKey::D),
            0x45 => Some(HotKey::E),
            0x46 => Some(HotKey::F),
            0x47 => Some(HotKey::G),
            0x48 => Some(HotKey::H),
            0x49 => Some(HotKey::I),
            0x4A => Some(HotKey::J),
            0x4B => Some(HotKey::K),
            0x4C => Some(HotKey::L),
            0x4D => Some(HotKey::M),
            0x4E => Some(HotKey::N),
            0x4F => Some(HotKey::O),
            0x50 => Some(HotKey::P),
            0x51 => Some(HotKey::Q),
            0x52 => Some(HotKey::R),
            0x53 => Some(HotKey::S),
            0x54 => Some(HotKey::T),
            0x55 => Some(HotKey::U),
            0x56 => Some(HotKey::V),
            0x57 => Some(HotKey::W),
            0x58 => Some(HotKey::X),
            0x59 => Some(HotKey::Y),
            0x5A => Some(HotKey::Z),
            0x70 => Some(HotKey::F1),
            0x71 => Some(HotKey::F2),
            0x72 => Some(HotKey::F3),
            0x73 => Some(HotKey::F4),
            0x74 => Some(HotKey::F5),
            0x75 => Some(HotKey::F6),
            0x76 => Some(HotKey::F7),
            0x77 => Some(HotKey::F8),
            0x78 => Some(HotKey::F9),
            0x79 => Some(HotKey::F10),
            0x7A => Some(HotKey::F11),
            0x7B => Some(HotKey::F12),
            0x7C => Some(HotKey::F13),
            0x7D => Some(HotKey::F14),
            0x7E => Some(HotKey::F15),
            0x7F => Some(HotKey::F16),
            0x80 => Some(HotKey::F17),
            0x81 => Some(HotKey::F18),
            0x82 => Some(HotKey::F19),
            0x83 => Some(HotKey::F20),
            0x84 => Some(HotKey::F21),
            0x85 => Some(HotKey::F22),
            0x86 => Some(HotKey::F23),
            0x87 => Some(HotKey::F24),
            0x90 => Some(HotKey::NumLock),
            0x91 => Some(HotKey::ScrollLock),
            _ => None,
        }
    }

    /// The low byte written for this key.
    pub fn to_u8(self) -> (r: u8)
        ensures
            r == hot_key_code(self),
    {
        match self {
            HotKey::Zero => 0x30,
            HotKey::One => 0x31,
            HotKey::Two => 0x32,
            HotKey::Three => 0x33,
            HotKey::Four => 0x34,
            HotKey::Five => 0x35,
            HotKey::Six => 0x36,
            HotKey::Seven => 0x37,
            HotKey::Eight => 0x38,
            HotKey::Nine => 0x39,
            HotKey::A => 0x41,
            HotKey::B => 0x42,
            HotKey::C => 0x43,
            HotKey::D => 0x44,
            HotKey::E => 0x45,
            HotKey::F => 0x46,
            HotKey::G => 0x47,
            HotKey::H => 0x48,
            HotKey::I => 0x49,
            HotKey::J => 0x4A,
            HotKey::K => 0x4B,
            HotKey::L => 0x4C,
            HotKey::M => 0x4D,
            HotKey::N => 0x4E,
            HotKey::O => 0x4F,
            HotKey::P => 0x50,
            HotKey::Q => 0x51,
            HotKey::R => 0x52,
            HotKey::S => 0x53,
            HotKey::T => 0x54,
            HotKey::U => 0x55,
            HotKey::V => 0x56,
            HotKey::W => 0x57,
            HotKey::X => 0x58,
            HotKey::Y => 0x59,
            HotKey::Z => 0x5A,
            HotKey::F1 => 0x70,
            HotKey::F2 => 0x71,
            HotKey::F3 => 0x72,
            HotKey::F4 => 0x73,
            HotKey::F5 => 0x74,
            HotKey::F6 => 0x75,
            HotKey::F7 => 0x76,
            HotKey::F8 => 0x77,
            HotKey::F9 => 0x78,
            HotKey::F10 => 0x79,
            HotKey::F11 => 0x7A,
            HotKey::F12 => 0x7B,
            HotKey::F13 => 0x7C,
            HotKey::F14 => 0x7D,
            HotKey::F15 => 0x7E,
            HotKey::F16 => 0x7F,
            HotKey::F17 => 0x80,
            HotKey::F18 => 0x81,
            HotKey::F19 => 0x82,
            HotKey::F20 => 0x83,
            HotKey::F21 => 0x84,
            HotKey::F22 => 0x85,
            HotKey::F23 => 0x86,
            HotKey::F24 => 0x87,
            HotKey::NumLock => 0x90,
            HotKey::ScrollLock => 0x91,
        }
    }
}

/// The key table reads back every key that it writes.
pub proof fn lemma_hot_key_round_trip(k: HotKey)
    ensures
        hot_key_of(hot_key_code(k)) == Some(k),
{
}

/// A modifier key of a hot key.
#[derive(Debug, Copy, Clone, PartialEq, Eq, Hash, Ord, PartialOrd)]
pub enum HotKeyModifier {
    Shift,
    Control,
    Alt,
}

pub const HOTKEYF_SHIFT: u8 = 0x01;
pub const HOTKEYF_CONTROL: u8 = 0x02;
pub const HOTKEYF_ALT: u8 = 0x04;

/// The modifier of a HotKey high byte.
pub open spec fn hot_key_modifier_of(b: u8) -> Option<HotKeyModifier> {
    if b == HOTKEYF_SHIFT {
        Some(HotKeyModifier::Shift)
    } else if b == HOTKEYF_CONTROL {
        Some(HotKeyModifier::Control)
    } else if b == HOTKEYF_ALT {
        Some(HotKeyModifier::Alt)
    } else {
        None
    }
}

/// The high byte written for a modifier.
pub open spec fn hot_key_modifier_code(m: HotKeyModifier) -> u8 {
    match m {
        HotKeyModifier::Shift => HOTKEYF_SHIFT,
        HotKeyModifier::Control => HOTKEYF_CONTROL,
        HotKeyModifier::Alt => HOTKEYF_ALT,
    }
}

impl HotKeyModifier {
    /// The modifier of a HotKey high byte, or `None` for any other byte.
    pub fn try_from(input: u8) -> (r: Option<Self>)
        ensures
            r == hot_key_modifier_of(input),
    {
        match input {
            HOTKEYF_SHIFT => Some(HotKeyModifier::Shift),
            HOTKEYF_CONTROL => Some(HotKeyModifier::Control),
            HOTKEYF_ALT => Some(HotKeyModifier::Alt),
            _ => None,
        }
    }

    /// The high byte written for this modifier.
    pub fn to_u8(self) -> (r: u8)
        ensures
            r == hot_key_modifier_code(self),
    {
        match self {
            HotKeyModifier::Shift => HOTKEYF_SHIFT,
            HotKeyModifier::Control => HOTKEYF_CONTROL,
            HotKeyModifier::Alt => HOTKEYF_ALT,
        }
    }
}

/// The modifier table reads back every modifier that it writes.
pub proof fn lemma_hot_key_modifier_round_trip(m: HotKeyModifier)
    ensures
        hot_key_modifier_of(hot_key_modifier_code(m)) == Some(m),
{
}

/// The keystrokes that activate the link target.
#[derive(Debug, Copy, Clone, PartialEq, Eq, Hash, Ord, PartialOrd)]
pub struct HotKeyFlags {
    pub hot_key: HotKey,
    pub modifier: HotKeyModifier,
}

/// The HotKeyFlags of the key byte `k` and modifier byte `m`: none when both are zero.
pub open spec fn hot_key_flags_of(k: u8, m: u8) -> Result<Option<HotKeyFlags>, HotKeyFlagsParseError> {
    if k == 0 && m == 0 {
        Ok(None)
    } else {
        match hot_key_of(k) {
            None => Err(HotKeyFlagsParseError::InvalidHotKey(k)),
            Some(hot_key) => match hot_key_modifier_of(m) {
                None => Err(HotKeyFlagsParseError::InvalidHotKeyModifier(m)),
                Some(modifier) => Ok(Some(HotKeyFlags { hot_key, modifier })),
            },
        }
    }
}

impl HotKeyFlags {
    /// Decodes the two HotKeyFlags bytes: key, then modifier.
    pub fn try_from(input: &[u8]) -> (r: Result<Option<Self>, HotKeyFlagsParseError>)
        requires
            input@.len() == 2,
        ensures
            r == hot_key_flags_of(input@[0], input@[1]),
    {
        let hot_key = input[0];
        let hot_key_modifier = input[1];
        if hot_key == 0 && hot_key_modifier == 0 {
            return Ok(None);
        }
        let hot_key = match HotKey::try_from(hot_key) {
            Some(k) => k,
            None => return Err(HotKeyFlagsParseError::InvalidHotKey(hot_key)),
        };
        let modifier = match HotKeyModifier::try_from(hot_key_modifier) {
            Some(m) => m,
            None => return Err(HotKeyFlagsParseError::InvalidHotKeyModifier(hot_key_modifier)),
        };
        Ok(Some(HotKeyFlags { hot_key, modifier }))
    }
}

/// A FILETIME field at `pos`: absent when its eight bytes are zero, else its UTC time.
pub open spec fn filetime_field(s: Seq<u8>, pos: int, t: Option<Timestamp>) -> bool {
    match t {
        None => u64_at(s, pos) == 0,
        Some(t) => u64_at(s, pos) != 0 && is_utc_of(u64_at(s, pos), t),
    }
}

/// Decodes the FILETIME at `pos`; eight zero bytes mean no time.
fn parse_tm(input: &[u8], pos: usize) -> (r: Option<Timestamp>)
    requires
        pos + 8 <= input@.len(),
    ensures
        filetime_field(input@, pos as int, r),
{
    let ticks = u64_from_input(input, pos);
    if ticks == 0 {
        None
    } else {
        Some(filetime_to_utc(ticks))
    }
}

/// The header's CLSID words are those of LinkCLSID.
pub open spec fn clsid_ok(s: Seq<u8>) -> bool {
    &&& u32_at(s, 4) == LINK_CLSID_0
    &&& u32_at(s, 8) == LINK_CLSID_1
    &&& u32_at(s, 12) == LINK_CLSID_2
    &&& u32_at(s, 16) == LINK_CLSID_3
}

/// The header checks up to the CLSID pass.
pub open spec fn header_prefix_ok(s: Seq<u8>) -> bool {
    s.len() >= HEADER_LEN && u32_at(s, 0) == HEADER_LEN && clsid_ok(s)
}

/// The header checks up to the file attributes pass.
pub open spec fn header_bits_ok(s: Seq<u8>) -> bool {
    &&& header_prefix_ok(s)
    &&& u32_at(s, 20) & !LinkFlags::ALL == 0
    &&& u32_at(s, 24) & !FileAttributes::ALL == 0
}

/// `s` starts with a valid 76-byte header.
pub open spec fn header_ok(s: Seq<u8>) -> bool {
    header_bits_ok(s) && hot_key_flags_of(s[64], s[65]) is Ok
}

/// `h` holds the fields of the valid header that `s` starts with.
pub open spec fn header_fields(s: Seq<u8>, h: ShellLinkHeader) -> bool {
    &&& h.link_flags.bits == u32_at(s, 20)
    &&& h.file_attributes.bits == u32_at(s, 24)
    &&& filetime_field(s, 28, h.creation_time)
    &&& filetime_field(s, 36, h.access_time)
    &&& filetime_field(s, 44, h.write_time)
    &&& h.file_size == u32_at(s, 52)
    &&& h.icon_index == i32_at(s, 56)
    &&& h.show_cmd == show_cmd_of(u32_at(s, 60))
    &&& hot_key_flags_of(s[64], s[65]) == Ok::<Option<HotKeyFlags>, HotKeyFlagsParseError>(h.hot_key_flags)
}

/// The error of the first header check that `s` fails.
pub open spec fn header_error(s: Seq<u8>, e: ShellLinkHeaderParseError) -> bool {
    match e {
        ShellLinkHeaderParseError::InvalidHeaderLength(n) => s.len() < HEADER_LEN && n == s.len(),
        ShellLinkHeaderParseError::CorruptHeaderLength(v) => s.len() >= HEADER_LEN && v == u32_at(
            s,
            0,
        ) && v != HEADER_LEN,
        ShellLinkHeaderParseError::CorruptHeaderClsId(w) => {
            &&& s.len() >= HEADER_LEN && u32_at(s, 0) == HEADER_LEN && !clsid_ok(s)
            &&& w@ == seq![u32_at(s, 4), u32_at(s, 8), u32_at(s, 12), u32_at(s, 16)]
        },
        ShellLinkHeaderParseError::InvalidLinkFlags(v) => header_prefix_ok(s) && v == u32_at(s, 20)
            && v & !LinkFlags::ALL != 0,
        ShellLinkHeaderParseError::InvalidFileAttributes(v) => {
            &&& header_prefix_ok(s) && u32_at(s, 20) & !LinkFlags::ALL == 0
            &&& v == u32_at(s, 24) && v & !FileAttributes::ALL != 0
        },
        ShellLinkHeaderParseError::InvalidHotKeyFlags(he) => header_bits_ok(s) && hot_key_flags_of(
            s[64],
            s[65],
        ) == Err::<Option<HotKeyFlags>, _>(he),
    }
}

/// The ShellLinkHeader: identification, flags, target attributes and times, and how the
/// target is shown and activated. Always 76 bytes on the wire.
#[derive(Debug, Copy, Clone, PartialEq, Eq, Hash, Ord, PartialOrd)]
pub struct ShellLinkHeader {
    /// Which optional structures follow the header.
    pub link_flags: LinkFlags,
    /// The attributes of the link target.
    pub file_attributes: FileAttributes,
    /// The creation time of the link target, if set.
    pub creation_time: Option<Timestamp>,
    /// The access time of the link target, if set.
    pub access_time: Option<Timestamp>,
    /// The write time of the link target, if set.
    pub write_time: Option<Timestamp>,
    /// The least significant 32 bits of the target's size in bytes.
    pub file_size: u32,
    /// The index of an icon within the icon location.
    pub icon_index: i32,
    /// The window state of the launched application.
    pub show_cmd: ShowCmd,
    /// The keystrokes that activate the target, if any.
    pub hot_key_flags: Option<HotKeyFlags>,
}

impl ShellLinkHeader {
    /// Decodes the header at the start of `input`; bytes after the first 76 are ignored.
    pub fn try_from(input: &[u8]) -> (r: Result<Self, ShellLinkHeaderParseError>)
        ensures
            r is Ok <==> header_ok(input@),
            r matches Ok(h) ==> header_fields(input@, h),
            r matches Err(e) ==> header_error(input@, e),
    {
        if input.len() < HEADER_LEN {
            return Err(ShellLinkHeaderParseError::InvalidHeaderLength(input.len()));
        }
        let header_len = u32_from_input(input, 0);
        if header_len != HEADER_LEN as u32 {
            return Err(ShellLinkHeaderParseError::CorruptHeaderLength(header_len));
        }
        let w0 = u32_from_input(input, 4);
        let w1 = u32_from_input(input, 8);
        let w2 = u32_from_input(input, 12);
        let w3 = u32_from_input(input, 16);
        if w0 != LINK_CLSID_0 || w1 != LINK_CLSID_1 || w2 != LINK_CLSID_2 || w3 != LINK_CLSID_3 {
            let words = [w0, w1, w2, w3];
            assert(words@ =~= seq![w0, w1, w2, w3]);
            return Err(ShellLinkHeaderParseError::CorruptHeaderClsId(words));
        }
        let link_flags_bits = u32_from_input(input, 20);
        let link_flags = match LinkFlags::from_bits(link_flags_bits) {
            Some(f) => f,
            None => return Err(ShellLinkHeaderParseError::InvalidLinkFlags(link_flags_bits)),
        };
        let file_attributes_bits = u32_from_input(input, 24);
        let file_attributes = match FileAttributes::from_bits(file_attributes_bits) {
            Some(f) => f,
            None => return Err(ShellLinkHeaderParseError::InvalidFileAttributes(file_attributes_bits)),
        };
        let creation_time = parse_tm(input, 28);
        let access_time = parse_tm(input, 36);
        let write_time = parse_tm(input, 44);
        let file_size = u32_from_input(input, 52);
        let icon_index = i32_from_input(input, 56);
        let show_cmd = ShowCmd::from_u32(u32_from_input(input, 60));
        let hot_key_bytes = &input[64..66];
        assert(hot_key_bytes@ =~= seq![input@[64], input@[65]]);
        let hot_key_flags = match HotKeyFlags::try_from(hot_key_bytes) {
            Ok(h) => h,
            Err(e) => return Err(ShellLinkHeaderParseError::InvalidHotKeyFlags(e)),
        };
        Ok(ShellLinkHeader {
            link_flags,
            file_attributes,
            creation_time,
            access_time,
            write_time,
            file_size,
            icon_index,
            show_cmd,
            hot_key_flags,
        })
    }
}

/// Any input shorter than 76 bytes fails with the length error, carrying its length.
pub proof fn lemma_short_input_fails(s: Seq<u8>, e: ShellLinkHeaderParseError)
    requires
        s.len() < HEADER_LEN,
        header_error(s, e),
    ensures
        !header_ok(s),
        e == ShellLinkHeaderParseError::InvalidHeaderLength(s.len() as usize),
{
}

/// A header whose HeaderSize is not 0x4C fails with the size error, carrying that size.
pub proof fn lemma_header_size_mismatch_fails(s: Seq<u8>, e: ShellLinkHeaderParseError)
    requires
        s.len() >= HEADER_LEN,
        u32_at(s, 0) != HEADER_LEN,
        header_error(s, e),
    ensures
        !header_ok(s),
        e == ShellLinkHeaderParseError::CorruptHeaderLength(u32_at(s, 0)),
{
}

/// A header of the right size whose CLSID is any other 16 bytes fails with the CLSID error.
pub proof fn lemma_clsid_mismatch_fails(s: Seq<u8>, e: ShellLinkHeaderParseError)
    requires
        s.len() >= HEADER_LEN,
        u32_at(s, 0) == HEADER_LEN,
        !clsid_ok(s),
        header_error(s, e),
    ensures
        !header_ok(s),
        e is CorruptHeaderClsId,
{
}

/// Every ShowCommand value other than 0x3 and 0x7 means a normal window.
pub proof fn lemma_show_cmd_default(v: u32)
    requires
        v != SW_SHOWMAXIMIZED,
        v != SW_SHOWMINNOACTIVE,
    ensures
        show_cmd_of(v) == ShowCmd::ShowNormal,
{
}

/// A header that fails has exactly one error.
pub proof fn lemma_header_error_unique(s: Seq<u8>, e1: ShellLinkHeaderParseError, e2: ShellLinkHeaderParseError)
    requires
        header_error(s, e1),
        header_error(s, e2),
    ensures
        e1 == e2,
        !header_ok(s),
{
    if let ShellLinkHeaderParseError::CorruptHeaderClsId(w1) = e1 {
        if let ShellLinkHeaderParseError::CorruptHeaderClsId(w2) = e2 {
            assert(w1 =~= w2);
        }
    }
}

/// A valid header decodes to exactly one value.
pub proof fn lemma_header_deterministic(s: Seq<u8>, h1: ShellLinkHeader, h2: ShellLinkHeader)
    requires
        header_fields(s, h1),
        header_fields(s, h2),
    ensures
        h1 == h2,
{
    if h1.creation_time is Some {
        crate::filetime::lemma_utc_unique(u64_at(s, 28), h1.creation_time->Some_0, h2.creation_time->Some_0);
    }
    if h1.access_time is Some {
        crate::filetime::lemma_utc_unique(u64_at(s, 36), h1.access_time->Some_0, h2.access_time->Some_0);
    }
    if h1.write_time is Some {
        crate::filetime::lemma_utc_unique(u64_at(s, 44), h1.write_time->Some_0, h2.write_time->Some_0);
    }
}

impl From<HotKey> for u8 {
    fn from(input: HotKey) -> u8 {
        input.to_u8()
    }
}

impl vstd::std_specs::convert::FromSpecImpl<HotKey> for u8 {
    open spec fn obeys_from_spec() -> bool {
        true
    }

    open spec fn from_spec(v: HotKey) -> u8 {
        hot_key_code(v)
    }
}

impl From<HotKeyModifier> for u8 {
    fn from(input: HotKeyModifier) -> u8 {
        input.to_u8()
    }
}

impl vstd::std_specs::convert::FromSpecImpl<HotKeyModifier> for u8 {
    open spec fn obeys_from_spec() -> bool {
        true
    }

    open spec fn from_spec(v: HotKeyModifier) -> u8 {
        hot_key_modifier_code(v)
    }
}

} // verus!
