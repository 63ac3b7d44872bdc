//! The ExtraData section: a sequence of self-describing blocks, each a 4-byte size, a
//! 4-byte signature and a body, ended by a size below 4.
use vstd::prelude::*;
use crate::bytes::{u16_at, u32_at, u128_at, u32_table, u16_from_input, u32_from_input, u128_from_input, u32_table_from_input, copy_bytes};
use crate::text::{fixed_text, read_fixed_text};
use crate::id_list::{IdList, items_view, parse_items};
pub use crate::error::{ExtraDataParseError, LinkTargetIdListParseError};

verus! {

pub const ENVIRONMENT_PROPS_SIGNATURE: u32 = 0xA000_0001;
pub const CONSOLE_PROPS_SIGNATURE: u32 = 0xA000_0002;
pub const TRACKER_PROPS_SIGNATURE: u32 = 0xA000_0003;
pub const CONSOLE_FE_PROPS_SIGNATURE: u32 = 0xA000_0004;
pub const SPECIAL_FOLDER_PROPS_SIGNATURE: u32 = 0xA000_0005;
pub const DARWIN_PROPS_SIGNATURE: u32 = 0xA000_0006;
pub const ICON_ENVIRONMENT_PROPS_SIGNATURE: u32 = 0xA000_0007;
pub const SHIM_PROPS_SIGNATURE: u32 = 0xA000_0008;
pub const PROPERTY_STORE_PROPS_SIGNATURE: u32 = 0xA000_0009;
pub const KNOWN_FOLDER_PROPS_SIGNATURE: u32 = 0xA000_000B;
pub const VISTA_AND_ABOVE_ID_LIST_PROPS_SIGNATURE: u32 = 0xA000_000C;

/// The size of a cursor in a console window, in percent of a character cell.
#[derive(Debug, Copy, Clone, PartialEq, Eq, Hash, Ord, PartialOrd)]
pub enum CursorSize {
    /// 25 or less.
    Small(u32),
    /// 26 to 50.
    Medium(u32),
    /// 51 to 100.
    Large(u32),
}

pub open spec fn cursor_size_of(v: u32) -> Option<CursorSize> {
    if v <= 25 {
        Some(CursorSize::Small(v))
    } else if v <= 50 {
        Some(CursorSize::Medium(v))
    } else if v <= 100 {
        Some(CursorSize::Large(v))
    } else {
        None
    }
}

pub open spec fn cursor_size_value(c: CursorSize) -> u32 {
    match c {
        CursorSize::Small(v) => v,
        CursorSize::Medium(v) => v,
        CursorSize::Large(v) => v,
    }
}

impl CursorSize {
    /// The cursor size of a CursorSize value, or `None` above 100.
    pub fn try_from(input: u32) -> (r: Option<Self>)
        ensures
            r == cursor_size_of(input),
    {
        if input <= 25 {
            Some(CursorSize::Small(input))
        } else if input <= 50 {
            Some(CursorSize::Medium(input))
        } else if input <= 100 {
            Some(CursorSize::Large(input))
        } else {
            None
        }
    }

    /// The CursorSize value of this size.
    pub fn to_u32(self) -> (r: u32)
        ensures
            r == cursor_size_value(self),
    {
        match self {
            CursorSize::Small(i) => i,
            CursorSize::Medium(i) => i,
            CursorSize::Large(i) => i,
        }
    }
}

/// Every cursor size value of 100 or less survives being decoded and written back.
pub proof fn lemma_cursor_size_round_trip(v: u32)
    requires
        v <= 100,
    ensures
        cursor_size_of(v) matches Some(c) && cursor_size_value(c) == v,
{
}

/// The family of a console font.
#[derive(Debug, Copy, Clone, PartialEq, Eq, Hash, Ord, PartialOrd)]
pub enum FontFamily {
    /// The font family is unknown.
    DontCare,
    /// Variable-width with serifs, such as "Times New Roman".
    Roman,
    /// Variable-width without serifs, such as "Arial".
    Swiss,
    /// Fixed-width, such as "Courier New".
    Modern,
    /// Like handwriting, such as "Cursive".
    Script,
    /// A novelty font, such as "Old English".
    Decorative,
}

pub open spec fn font_family_of(v: u16) -> Option<FontFamily> {
    if v == 0x00 {
        Some(FontFamily::DontCare)
    } else if v == 0x10 {
        Some(FontFamily::Roman)
    } else if v == 0x20 {
        Some(FontFamily::Swiss)
    } else if v == 0x30 {
        Some(FontFamily::Modern)
    } else if v == 0x40 {
        Some(FontFamily::Script)
    } else if v == 0x50 {
        Some(FontFamily::Decorative)
    } else {
        None
    }
}

pub open spec fn font_family_code(f: FontFamily) -> u16 {
    match f {
        FontFamily::DontCare => 0x00,
        FontFamily::Roman => 0x10,
        FontFamily::Swiss => 0x20,
        FontFamily::Modern => 0x30,
        FontFamily::Script => 0x40,
        FontFamily::Decorative => 0x50,
    }
}

impl FontFamily {
    /// The family of an FF_* value, or `None` for any other value.
    pub fn try_from(input: u16) -> (r: Option<Self>)
        ensures
            r == font_family_of(input),
    {
        match input {
            0x00 => Some(FontFamily::DontCare),
            0x10 => Some(FontFamily::Roman),
            0x20 => Some(FontFamily::Swiss),
            0x30 => Some(FontFamily::Modern),
            0x40 => Some(FontFamily::Script),
            0x50 => Some(FontFamily::Decorative),
            _ => None,
        }
    }

    /// The FF_* value of this family.
    pub fn to_u16(self) -> (r: u16)
        ensures
            r == font_family_code(self),
    {
        match self {
            FontFamily::DontCare => 0x00,
            FontFamily::Roman => 0x10,
            FontFamily::Swiss => 0x20,
            FontFamily::Modern => 0x30,
            FontFamily::Script => 0x40,
            FontFamily::Decorative => 0x50,
        }
    }
}

/// The family table reads back every family that it writes.
pub proof fn lemma_font_family_round_trip(f: FontFamily)
    ensures
        font_family_of(font_family_code(f)) == Some(f),
{
}

/// The stroke weight of a console font: bold from 700 up.
#[derive(Debug, Copy, Clone, PartialEq, Eq, Hash, Ord, PartialOrd)]
pub enum FontWeight {
    Regular,
    Bold,
}

pub open spec fn font_weight_of(v: u32) -> FontWeight {
    if v >= 700 {
        FontWeight::Bold
    } else {
        FontWeight::Regular
    }
}

/// Foreground and background colors of console text, one bit each.
#[derive(Debug, Copy, Clone, PartialEq, Eq, Hash, Ord, PartialOrd)]
pub struct FillAttributes {
    pub bits: u16,
}

impl FillAttributes {
    pub const FOREGROUND_BLUE: u16 = 0x0001;
    pub const FOREGROUND_GREEN: u16 = 0x0002;
    pub const FOREGROUND_RED: u16 = 0x0004;
    pub const FOREGROUND_INTENSITY: u16 = 0x0008;
    pub const BACKGROUND_BLUE: u16 = 0x0010;
    pub const BACKGROUND_GREEN: u16 = 0x0020;
    pub const BACKGROUND_RED: u16 = 0x0040;
    pub const BACKGROUND_INTENSITY: u16 = 0x0080;
    pub const ALL: u16 = 0x00FF;

    pub open spec fn wf(&self) -> bool {
        self.bits & !Self::ALL == 0
    }

    /// All bits of `flag` are set.
    pub fn contains(&self, flag: u16) -> (r: bool)
        ensures
            r == (self.bits & flag == flag),
    {
        self.bits & flag == flag
    }
}

/// Display settings of a console window (ConsoleDataBlock).
#[derive(Debug, Clone, PartialEq, Eq, Hash, Ord, PartialOrd)]
pub struct ConsoleDataBlock {
    /// Always 0xCC.
    pub block_size: u32,
    pub fill_attributes: FillAttributes,
    pub popup_fill_attributes: FillAttributes,
    pub screen_buffer_size_x: u16,
    pub screen_buffer_size_y: u16,
    pub window_size_x: u16,
    pub window_size_y: u16,
    pub window_origin_x: u16,
    pub window_origin_y: u16,
    pub font_size: u32,
    /// The family, from the high nibble of FontFamily; the low nibble holds pitch bits.
    pub font_family: FontFamily,
    pub font_weight: FontWeight,
    /// The face name of the font, up to 32 UTF-16 characters.
    pub face_name: String,
    pub cursor_size: CursorSize,
    pub full_screen: bool,
    pub quick_edit: bool,
    pub insert_mode: bool,
    pub auto_position: bool,
    pub history_buffer_size: u32,
    pub number_of_history_buffers: u32,
    pub history_no_dup: u32,
    /// Sixteen RGB colors, indexed by the fill attributes.
    pub color_table: Vec<u32>,
}

/// The code page of a console window (ConsoleFEDataBlock).
#[derive(Debug, Copy, Clone, PartialEq, Eq, Hash, Ord, PartialOrd)]
pub struct ConsoleFeDataBlock {
    /// Always 0x0C.
    pub block_size: u32,
    pub block_signature: u32,
    pub code_page: u32,
}

/// An application identifier used instead of the target IDList (DarwinDataBlock).
#[derive(Debug, Clone, PartialEq, Eq, Hash, Ord, PartialOrd)]
pub struct DarwinDataBlock {
    /// Always 0x314.
    pub block_size: u32,
    pub block_signature: u32,
    pub darwin_data_ansi: String,
    pub darwin_data_unicode: String,
}

/// A path to environment variable information (EnvironmentVariableDataBlock).
#[derive(Debug, Clone, PartialEq, Eq, Hash, Ord, PartialOrd)]
pub struct EnvironmentVariableDataBlock {
    /// Always 0x314.
    pub block_size: u32,
    pub block_signature: u32,
    pub target_ansi: String,
    pub target_unicode: String,
}

/// The path to an icon, written with environment variables (IconEnvironmentDataBlock).
#[derive(Debug, Clone, PartialEq, Eq, Hash, Ord, PartialOrd)]
pub struct IconEnvironmentDataBlock {
    /// Always 0x314.
    pub block_size: u32,
    pub block_signature: u32,
    pub target_ansi: String,
    pub target_unicode: String,
}

/// The location of a known folder (KnownFolderDataBlock).
#[derive(Debug, Copy, Clone, PartialEq, Eq, Hash, Ord, PartialOrd)]
pub struct KnownFolderDataBlock {
    /// Always 0x1C.
    pub block_size: u32,
    pub block_signature: u32,
    /// The folder GUID, as its 16 bytes read little-endian.
    pub known_folder_id: u128,
    /// The offset, in bytes, into the link target IDList of the first child segment.
    pub offset: u32,
}

/// A serialized property store (PropertyStoreDataBlock).
#[derive(Debug, Clone, PartialEq, Eq, Hash, Ord, PartialOrd)]
pub struct PropertyStoreDataBlock {
    /// At least 0x0C.
    pub block_size: u32,
    pub block_signature: u32,
    pub property_store: Vec<u8>,
}

/// The name of a shim layer to apply when activating the target (ShimDataBlock).
#[derive(Debug, Clone, PartialEq, Eq, Hash, Ord, PartialOrd)]
pub struct ShimDataBlock {
    /// At least 0x88.
    pub block_size: u32,
    pub block_signature: u32,
    pub layer_name: String,
}

/// The location of a special folder (SpecialFolderDataBlock).
#[derive(Debug, Copy, Clone, PartialEq, Eq, Hash, Ord, PartialOrd)]
pub struct SpecialFolderDataBlock {
    /// Always 0x10.
    pub block_size: u32,
    pub block_signature: u32,
    pub special_folder_id: u32,
    /// The offset, in bytes, into the link target IDList of the first child segment.
    pub offset: u32,
}

/// Data for the link tracking service (TrackerDataBlock).
#[derive(Debug, Clone, PartialEq, Eq, Hash, Ord, PartialOrd)]
pub struct TrackerDataBlock {
    /// Always 0x60.
    pub block_size: u32,
    pub block_signature: u32,
    /// At least 0x58.
    pub length: u32,
    /// Always 0.
    pub version: u32,
    /// The NetBIOS name of the machine where the target last was.
    pub machine_id: String,
    pub droid: [u128; 2],
    pub droid_birth: [u128; 2],
}

/// An alternate IDList for the target (VistaAndAboveIDListDataBlock).
#[derive(Debug, Clone, PartialEq, Eq, Hash, Ord, PartialOrd)]
pub struct VistaAndAboveIdListDataBlock {
    /// At least 0x0A.
    pub block_size: u32,
    pub block_signature: u32,
    pub id_list: IdList,
}

/// One block of the ExtraData section.
#[derive(Debug, Clone, PartialEq, Eq, Hash, Ord, PartialOrd)]
pub enum ExtraData {
    ConsoleProps(ConsoleDataBlock),
    ConsoleFeProps(ConsoleFeDataBlock),
    DarwinProps(DarwinDataBlock),
    EnvironmentProps(EnvironmentVariableDataBlock),
    IconEnvironmentProps(IconEnvironmentDataBlock),
    KnownFolderProps(KnownFolderDataBlock),
    PropertyStoreProps(PropertyStoreDataBlock),
    ShimProps(ShimDataBlock),
    SpecialFolderProps(SpecialFolderDataBlock),
    TrackerProps(TrackerDataBlock),
    VistaAndAboveIdListProps(VistaAndAboveIdListDataBlock),
}

/// The signatures of the blocks that are decoded; others are skipped.
pub open spec fn known_signature(sig: u32) -> bool {
    ||| sig == ENVIRONMENT_PROPS_SIGNATURE
    ||| sig == CONSOLE_PROPS_SIGNATURE
    ||| sig == TRACKER_PROPS_SIGNATURE
    ||| sig == CONSOLE_FE_PROPS_SIGNATURE
    ||| sig == SPECIAL_FOLDER_PROPS_SIGNATURE
    ||| sig == DARWIN_PROPS_SIGNATURE
    ||| sig == ICON_ENVIRONMENT_PROPS_SIGNATURE
    ||| sig == SHIM_PROPS_SIGNATURE
    ||| sig == PROPERTY_STORE_PROPS_SIGNATURE
    ||| sig == KNOWN_FOLDER_PROPS_SIGNATURE
    ||| sig == VISTA_AND_ABOVE_ID_LIST_PROPS_SIGNATURE
}

/// The error, if any, of the console block at `pos`, of `size` bytes.
pub open spec fn console_error(s: Seq<u8>, pos: int, size: u32) -> Option<ExtraDataParseError> {
    let sig = CONSOLE_PROPS_SIGNATURE;
    if size != 0xCC {
        Some(ExtraDataParseError::InvalidBlockSize(sig, size))
    } else if u16_at(s, pos + 8) & !FillAttributes::ALL != 0 {
        Some(ExtraDataParseError::InvalidValue(sig, u16_at(s, pos + 8) as u32))
    } else if u16_at(s, pos + 10) & !FillAttributes::ALL != 0 {
        Some(ExtraDataParseError::InvalidValue(sig, u16_at(s, pos + 10) as u32))
    } else if u32_at(s, pos + 36) & !0xFFu32 != 0 {
        Some(ExtraDataParseError::InvalidValue(sig, u32_at(s, pos + 36)))
    } else if font_family_of((u32_at(s, pos + 36) & 0xF0) as u16) is None {
        Some(ExtraDataParseError::InvalidValue(sig, u32_at(s, pos + 36)))
    } else if cursor_size_of(u32_at(s, pos + 108)) is None {
        Some(ExtraDataParseError::InvalidValue(sig, u32_at(s, pos + 108)))
    } else {
        None
    }
}

/// `d` holds the fields of the valid console block at `pos`.
pub open spec fn console_fields(s: Seq<u8>, pos: int, d: ConsoleDataBlock) -> bool {
    &&& d.block_size == 0xCC
    &&& d.fill_attributes.bits == u16_at(s, pos + 8)
    &&& d.popup_fill_attributes.bits == u16_at(s, pos + 10)
    &&& d.screen_buffer_size_x == u16_at(s, pos + 12)
    &&& d.screen_buffer_size_y == u16_at(s, pos + 14)
    &&& d.window_size_x == u16_at(s, pos + 16)
    &&& d.window_size_y == u16_at(s, pos + 18)
    &&& d.window_origin_x == u16_at(s, pos + 20)
    &&& d.window_origin_y == u16_at(s, pos + 22)
    &&& d.font_size == u32_at(s, pos + 32)
    &&& Some(d.font_family) == font_family_of((u32_at(s, pos + 36) & 0xF0) as u16)
    &&& d.font_weight == font_weight_of(u32_at(s, pos + 40))
    &&& d.face_name@ == fixed_text(s, pos + 44, 32, true)
    &&& Some(d.cursor_size) == cursor_size_of(u32_at(s, pos + 108))
    &&& d.full_screen == (u32_at(s, pos + 112) != 0)
    &&& d.quick_edit == (u32_at(s, pos + 116) != 0)
    &&& d.insert_mode == (u32_at(s, pos + 120) != 0)
    &&& d.auto_position == (u32_at(s, pos + 124) != 0)
    &&& d.history_buffer_size == u32_at(s, pos + 128)
    &&& d.number_of_history_buffers == u32_at(s, pos + 132)
    &&& d.history_no_dup == u32_at(s, pos + 136)
    &&& d.color_table@ == u32_table(s, pos + 140, 16)
}

fn parse_console(input: &[u8], pos: usize, size: u32) -> (r: Result<ConsoleDataBlock, ExtraDataParseError>)
    requires
        8 <= size,
        pos + size <= input@.len(),
    ensures
        r is Err <==> console_error(input@, pos as int, size) is Some,
        r matches Err(e) ==> console_error(input@, pos as int, size) == Some(e),
        r matches Ok(d) ==> console_fields(input@, pos as int, d),
{
    assert(input.len() == input@.len());
    let sig = CONSOLE_PROPS_SIGNATURE;
    if size != 0xCC {
        return Err(ExtraDataParseError::InvalidBlockSize(sig, size));
    }
    let fill = u16_from_input(input, pos + 8);
    if fill & !FillAttributes::ALL != 0 {
        return Err(ExtraDataParseError::InvalidValue(sig, fill as u32));
    }
    let popup = u16_from_input(input, pos + 10);
    if popup & !FillAttributes::ALL != 0 {
        return Err(ExtraDataParseError::InvalidValue(sig, popup as u32));
    }
    let family_value = u32_from_input(input, pos + 36);
    if family_value & !0xFFu32 != 0 {
        return Err(ExtraDataParseError::InvalidValue(sig, family_value));
    }
    let family_bits = family_value & 0xF0;
    assert(family_bits <= 0xF0) by (bit_vector)
        requires
            family_bits == family_value & 0xF0,
    ;
    let font_family = match FontFamily::try_from(family_bits as u16) {
        Some(f) => f,
        None => return Err(ExtraDataParseError::InvalidValue(sig, family_value)),
    };
    let cursor_value = u32_from_input(input, pos + 108);
    let cursor_size = match CursorSize::try_from(cursor_value) {
        Some(c) => c,
        None => return Err(ExtraDataParseError::InvalidValue(sig, cursor_value)),
    };
    let font_weight = if u32_from_input(input, pos + 40) >= 700 {
        FontWeight::Bold
    } else {
        FontWeight::Regular
    };
    Ok(ConsoleDataBlock {
        block_size: size,
        fill_attributes: FillAttributes { bits: fill },
        popup_fill_attributes: FillAttributes { bits: popup },
        screen_buffer_size_x: u16_from_input(input, pos + 12),
        screen_buffer_size_y: u16_from_input(input, pos + 14),
        window_size_x: u16_from_input(input, pos + 16),
        window_size_y: u16_from_input(input, pos + 18),
        window_origin_x: u16_from_input(input, pos + 20),
        window_origin_y: u16_from_input(input, pos + 22),
        font_size: u32_from_input(input, pos + 32),
        font_family,
        font_weight,
        face_name: read_fixed_text(input, pos + 44, 32, true),
        cursor_size,
        full_screen: u32_from_input(input, pos + 112) != 0,
        quick_edit: u32_from_input(input, pos + 116) != 0,
        insert_mode: u32_from_input(input, pos + 120) != 0,
        auto_position: u32_from_input(input, pos + 124) != 0,
        history_buffer_size: u32_from_input(input, pos + 128),
        number_of_history_buffers: u32_from_input(input, pos + 132),
        history_no_dup: u32_from_input(input, pos + 136),
        color_table: u32_table_from_input(input, pos + 140, 16),
    })
}

/// The error, if any, of the block at `pos`, of `size` bytes: a size that its signature
/// does not allow, or a value outside its table or range.
pub open spec fn block_error(s: Seq<u8>, pos: int, size: u32) -> Option<ExtraDataParseError> {
    let sig = u32_at(s, pos + 4);
    let bad_size = Some(ExtraDataParseError::InvalidBlockSize(sig, size));
    if sig == CONSOLE_PROPS_SIGNATURE {
        console_error(s, pos, size)
    } else if sig == CONSOLE_FE_PROPS_SIGNATURE {
        if size != 0x0C { bad_size } else { None }
    } else if sig == DARWIN_PROPS_SIGNATURE || sig == ENVIRONMENT_PROPS_SIGNATURE || sig
        == ICON_ENVIRONMENT_PROPS_SIGNATURE {
        if size != 0x314 { bad_size } else { None }
    } else if sig == KNOWN_FOLDER_PROPS_SIGNATURE {
        if size != 0x1C { bad_size } else { None }
    } else if sig == PROPERTY_STORE_PROPS_SIGNATURE {
        if size < 0x0C { bad_size } else { None }
    } else if sig == SHIM_PROPS_SIGNATURE {
        if size < 0x88 { bad_size } else { None }
    } else if sig == SPECIAL_FOLDER_PROPS_SIGNATURE {
        if size != 0x10 { bad_size } else { None }
    } else if sig == TRACKER_PROPS_SIGNATURE {
        if size != 0x60 {
            bad_size
        } else if u32_at(s, pos + 8) < 0x58 {
            Some(ExtraDataParseError::InvalidValue(sig, u32_at(s, pos + 8)))
        } else if u32_at(s, pos + 12) != 0 {
            Some(ExtraDataParseError::InvalidValue(sig, u32_at(s, pos + 12)))
        } else {
            None
        }
    } else if sig == VISTA_AND_ABOVE_ID_LIST_PROPS_SIGNATURE {
        if size < 0x0A {
            bad_size
        } else {
            match parse_items(s, pos + 8, pos + size) {
                Err(e) => Some(ExtraDataParseError::IdList(e)),
                Ok(_) => None,
            }
        }
    } else {
        None
    }
}

/// `b` is the valid block of `size` bytes at `pos`.
pub open spec fn block_matches(s: Seq<u8>, pos: int, size: u32, b: ExtraData) -> bool {
    let sig = u32_at(s, pos + 4);
    match b {
        ExtraData::ConsoleProps(d) => sig == CONSOLE_PROPS_SIGNATURE && console_fields(s, pos, d),
        ExtraData::ConsoleFeProps(d) => sig == CONSOLE_FE_PROPS_SIGNATURE && d == (ConsoleFeDataBlock {
            block_size: size,
            block_signature: sig,
            code_page: u32_at(s, pos + 8),
        }),
        ExtraData::DarwinProps(d) => {
            &&& sig == DARWIN_PROPS_SIGNATURE && d.block_size == size && d.block_signature == sig
            &&& d.darwin_data_ansi@ == fixed_text(s, pos + 8, 260, false)
            &&& d.darwin_data_unicode@ == fixed_text(s, pos + 268, 260, true)
        },
        ExtraData::EnvironmentProps(d) => {
            &&& sig == ENVIRONMENT_PROPS_SIGNATURE && d.block_size == size && d.block_signature == sig
            &&& d.target_ansi@ == fixed_text(s, pos + 8, 260, false)
            &&& d.target_unicode@ == fixed_text(s, pos + 268, 260, true)
        },
        ExtraData::IconEnvironmentProps(d) => {
            &&& sig == ICON_ENVIRONMENT_PROPS_SIGNATURE && d.block_size == size && d.block_signature
                == sig
            &&& d.target_ansi@ == fixed_text(s, pos + 8, 260, false)
            &&& d.target_unicode@ == fixed_text(s, pos + 268, 260, true)
        },
        ExtraData::KnownFolderProps(d) => sig == KNOWN_FOLDER_PROPS_SIGNATURE && d == (
        KnownFolderDataBlock {
            block_size: size,
            block_signature: sig,
            known_folder_id: u128_at(s, pos + 8),
            offset: u32_at(s, pos + 24),
        }),
        ExtraData::PropertyStoreProps(d) => {
            &&& sig == PROPERTY_STORE_PROPS_SIGNATURE && d.block_size == size && d.block_signature
                == sig
            &&& d.property_store@ == s.subrange(pos + 8, pos + size)
        },
        ExtraData::ShimProps(d) => {
            &&& sig == SHIM_PROPS_SIGNATURE && d.block_size == size && d.block_signature == sig
            &&& d.layer_name@ == fixed_text(s, pos + 8, (size - 8) / 2, true)
        },
        ExtraData::SpecialFolderProps(d) => sig == SPECIAL_FOLDER_PROPS_SIGNATURE && d == (
        SpecialFolderDataBlock {
            block_size: size,
            block_signature: sig,
            special_folder_id: u32_at(s, pos + 8),
            offset: u32_at(s, pos + 12),
        }),
        ExtraData::TrackerProps(d) => {
            &&& sig == TRACKER_PROPS_SIGNATURE && d.block_size == size && d.block_signature == sig
            &&& d.length == u32_at(s, pos + 8) && d.version == u32_at(s, pos + 12)
            &&& d.machine_id@ == fixed_text(s, pos + 16, 16, false)
            &&& d.droid@ == seq![u128_at(s, pos + 32), u128_at(s, pos + 48)]
            &&& d.droid_birth@ == seq![u128_at(s, pos + 64), u128_at(s, pos + 80)]
        },
        ExtraData::VistaAndAboveIdListProps(d) => {
            &&& sig == VISTA_AND_ABOVE_ID_LIST_PROPS_SIGNATURE && d.block_size == size
                && d.block_signature == sig
            &&& parse_items(s, pos + 8, pos + size) == Ok::<
                Seq<(u16, Seq<u8>)>,
                LinkTargetIdListParseError,
            >(items_view(d.id_list.item_id_list@))
        },
    }
}

impl ExtraData {
    /// Decodes the block of `size` bytes at `pos`; `None` for a block whose signature is
    /// not known, which is skipped.
    pub fn parse(input: &[u8], pos: usize, size: u32) -> (r: Result<Option<Self>, ExtraDataParseError>)
        requires
            8 <= size,
            pos + size <= input@.len(),
        ensures
            r is Err <==> block_error(input@, pos as int, size) is Some,
            match r {
                Ok(Some(b)) => known_signature(u32_at(input@, pos + 4)) && block_matches(input@, pos as int, size, b),
                Ok(None) => !known_signature(u32_at(input@, pos + 4)),
                Err(e) => block_error(input@, pos as int, size) == Some(e),
            },
    {
        assert(input.len() == input@.len());
        let sig = u32_from_input(input, pos + 4);
        let bad_size = ExtraDataParseError::InvalidBlockSize(sig, size);
        let end = pos + size as usize;
        if sig == CONSOLE_PROPS_SIGNATURE {
            let d = parse_console(input, pos, size)?;
            Ok(Some(ExtraData::ConsoleProps(d)))
        } else if sig == CONSOLE_FE_PROPS_SIGNATURE {
            if size != 0x0C {
                return Err(bad_size);
            }
            Ok(Some(ExtraData::ConsoleFeProps(ConsoleFeDataBlock {
                block_size: size,
                block_signature: sig,
                code_page: u32_from_input(input, pos + 8),
            })))
        } else if sig == DARWIN_PROPS_SIGNATURE || sig == ENVIRONMENT_PROPS_SIGNATURE || sig
            == ICON_ENVIRONMENT_PROPS_SIGNATURE {
            if size != 0x314 {
                return Err(bad_size);
            }
            let ansi = read_fixed_text(input, pos + 8, 260, false);
            let unicode = read_fixed_text(input, pos + 268, 260, true);
            if sig == DARWIN_PROPS_SIGNATURE {
                Ok(Some(ExtraData::DarwinProps(DarwinDataBlock {
                    block_size: size,
                    block_signature: sig,
                    darwin_data_ansi: ansi,
                    darwin_data_unicode: unicode,
                })))
            } else if sig == ENVIRONMENT_PROPS_SIGNATURE {
                Ok(Some(ExtraData::EnvironmentProps(EnvironmentVariableDataBlock {
                    block_size: size,
                    block_signature: sig,
                    target_ansi: ansi,
                    target_unicode: unicode,
                })))
            } else {
                Ok(Some(ExtraData::IconEnvironmentProps(IconEnvironmentDataBlock {
                    block_size: size,
                    block_signature: sig,
                    target_ansi: ansi,
                    target_unicode: unicode,
                })))
            }
        } else if sig == KNOWN_FOLDER_PROPS_SIGNATURE {
            if size != 0x1C {
                return Err(bad_size);
            }
            Ok(Some(ExtraData::KnownFolderProps(KnownFolderDataBlock {
                block_size: size,
                block_signature: sig,
                known_folder_id: u128_from_input(input, pos + 8),
                offset: u32_from_input(input, pos + 24),
            })))
        } else if sig == PROPERTY_STORE_PROPS_SIGNATURE {
            if size < 0x0C {
                return Err(bad_size);
            }
            Ok(Some(ExtraData::PropertyStoreProps(PropertyStoreDataBlock {
                block_size: size,
                block_signature: sig,
                property_store: copy_bytes(input, pos + 8, end),
            })))
        } else if sig == SHIM_PROPS_SIGNATURE {
            if size < 0x88 {
                return Err(bad_size);
            }
            Ok(Some(ExtraData::ShimProps(ShimDataBlock {
                block_size: size,
                block_signature: sig,
                layer_name: read_fixed_text(input, pos + 8, ((size - 8) / 2) as usize, true),
            })))
        } else if sig == SPECIAL_FOLDER_PROPS_SIGNATURE {
            if size != 0x10 {
                return Err(bad_size);
            }
            Ok(Some(ExtraData::SpecialFolderProps(SpecialFolderDataBlock {
                block_size: size,
                block_signature: sig,
                special_folder_id: u32_from_input(input, pos + 8),
                offset: u32_from_input(input, pos + 12),
            })))
        } else if sig == TRACKER_PROPS_SIGNATURE {
            if size != 0x60 {
                return Err(bad_size);
            }
            let length = u32_from_input(input, pos + 8);
            if length < 0x58 {
                return Err(ExtraDataParseError::InvalidValue(sig, length));
            }
            let version = u32_from_input(input, pos + 12);
            if version != 0 {
                return Err(ExtraDataParseError::InvalidValue(sig, version));
            }
            let d0 = u128_from_input(input, pos + 32);
            let d1 = u128_from_input(input, pos + 48);
            let b0 = u128_from_input(input, pos + 64);
            let b1 = u128_from_input(input, pos + 80);
            let droid = [d0, d1];
            let droid_birth = [b0, b1];
            assert(droid@ =~= seq![d0, d1]);
            assert(droid_birth@ =~= seq![b0, b1]);
            Ok(Some(ExtraData::TrackerProps(TrackerDataBlock {
                block_size: size,
                block_signature: sig,
                length,
                version,
                machine_id: read_fixed_text(input, pos + 16, 16, false),
                droid,
                droid_birth,
            })))
        } else if sig == VISTA_AND_ABOVE_ID_LIST_PROPS_SIGNATURE {
            if size < 0x0A {
                return Err(bad_size);
            }
            let id_list = match IdList::parse(input, pos + 8, end) {
                Ok(l) => l,
                Err(e) => return Err(ExtraDataParseError::IdList(e)),
            };
            Ok(Some(ExtraData::VistaAndAboveIdListProps(VistaAndAboveIdListDataBlock {
                block_size: size,
                block_signature: sig,
                id_list,
            })))
        } else {
            Ok(None)
        }
    }
}

/// The error, if any, of the ExtraData section from `pos`: blocks are read until a size
/// below 4 or the end of `s`; a block must hold its size and signature and fit in `s`.
pub open spec fn extra_data_error(s: Seq<u8>, pos: int) -> Option<ExtraDataParseError>
    decreases s.len() - pos,
{
    if pos < 0 || pos + 4 > s.len() || u32_at(s, pos) < 4 {
        None
    } else if u32_at(s, pos) < 8 || u32_at(s, pos) > s.len() - pos {
        Some(ExtraDataParseError::Truncated)
    } else {
        match block_error(s, pos, u32_at(s, pos)) {
            Some(e) => Some(e),
            None => extra_data_error(s, pos + u32_at(s, pos)),
        }
    }
}

/// `blocks` are the blocks of the ExtraData section from `pos`, in order, those of unknown
/// signature left out.
pub open spec fn extra_data_blocks(s: Seq<u8>, pos: int, blocks: Seq<ExtraData>) -> bool
    decreases s.len() - pos,
{
    if pos < 0 || pos + 4 > s.len() || u32_at(s, pos) < 4 {
        blocks.len() == 0
    } else if u32_at(s, pos) < 8 || u32_at(s, pos) > s.len() - pos {
        false
    } else {
        let size = u32_at(s, pos);
        if known_signature(u32_at(s, pos + 4)) {
            &&& blocks.len() > 0
            &&& block_matches(s, pos, size, blocks[0])
            &&& extra_data_blocks(s, pos + size, blocks.drop_first())
        } else {
            extra_data_blocks(s, pos + size, blocks)
        }
    }
}

/// A block size below 4 ends the section where it stands: no error, and no block after
/// it.
pub proof fn lemma_terminator_ends_extra_data(s: Seq<u8>, pos: int)
    requires
        0 <= pos,
        pos + 4 <= s.len(),
        u32_at(s, pos) < 4,
    ensures
        extra_data_error(s, pos) is None,
        forall|blocks: Seq<ExtraData>| extra_data_blocks(s, pos, blocks) <==> blocks.len() == 0,
{
}

impl ExtraData {
    /// Decodes the ExtraData section from `pos` to a block size below 4 or to the end of
    /// `input`, skipping blocks of unknown signature.
    pub fn parse_all(input: &[u8], pos: usize) -> (r: Result<Vec<Self>, ExtraDataParseError>)
        requires
            pos <= input@.len(),
        ensures
            match r {
                Ok(v) => extra_data_error(input@, pos as int) is None && extra_data_blocks(input@, pos as int, v@),
                Err(e) => extra_data_error(input@, pos as int) == Some(e),
            },
    {
        let ghost s = input@;
        let len = input.len();
        let mut blocks: Vec<ExtraData> = Vec::new();
        let mut p: usize = pos;
        loop
            invariant
                pos <= p <= len,
                s == input@,
                len == s.len(),
                extra_data_error(s, pos as int) == extra_data_error(s, p as int),
                forall|rest: Seq<ExtraData>|
                    #![trigger extra_data_blocks(s, p as int, rest)]
                    extra_data_blocks(s, p as int, rest) ==> extra_data_blocks(s, pos as int, blocks@ + rest),
            decreases len - p,
        {
            if len - p < 4 {
                assert(extra_data_blocks(s, p as int, seq![]));
                assert(blocks@ + seq![] =~= blocks@);
                return Ok(blocks);
            }
            let size = u32_from_input(input, p);
            if size < 4 {
                assert(extra_data_blocks(s, p as int, seq![]));
                assert(blocks@ + seq![] =~= blocks@);
                return Ok(blocks);
            }
            if size < 8 || size as usize > len - p {
                return Err(ExtraDataParseError::Truncated);
            }
            let block = ExtraData::parse(input, p, size)?;
            let ghost old_blocks = blocks@;
            let ghost old_p = p as int;
            match block {
                Some(b) => {
                    blocks.push(b);
                    proof {
                        assert forall|rest: Seq<ExtraData>|
                            #![trigger extra_data_blocks(s, old_p + size, rest)]
                            extra_data_blocks(s, old_p + size, rest) implies extra_data_blocks(
                                s,
                                pos as int,
                                blocks@ + rest,
                            ) by {
                            let r2 = seq![b] + rest;
                            assert(r2.drop_first() =~= rest);
                            assert(r2[0] == b);
                            assert(extra_data_blocks(s, old_p, r2));
                            assert(old_blocks + r2 =~= blocks@ + rest);
                        }
                    }
                },
                None => {
                    proof {
                        assert forall|rest: Seq<ExtraData>|
                            #![trigger extra_data_blocks(s, old_p + size, rest)]
                            extra_data_blocks(s, old_p + size, rest) implies extra_data_blocks(
                                s,
                                pos as int,
                                blocks@ + rest,
                            ) by {
                            assert(extra_data_blocks(s, old_p, rest));
                        }
                    }
                },
            }
            p = p + size as usize;
        }
    }
}

/// Two blocks hold the same values, their strings compared as text.
pub open spec fn same_block(b1: ExtraData, b2: ExtraData) -> bool {
    match (b1, b2) {
        (ExtraData::ConsoleProps(x), ExtraData::ConsoleProps(y)) => {
            &&& x.block_size == y.block_size
            &&& x.fill_attributes == y.fill_attributes
            &&& x.popup_fill_attributes == y.popup_fill_attributes
            &&& x.screen_buffer_size_x == y.screen_buffer_size_x
            &&& x.screen_buffer_size_y == y.screen_buffer_size_y
            &&& x.window_size_x == y.window_size_x
            &&& x.window_size_y == y.window_size_y
            &&& x.window_origin_x == y.window_origin_x
            &&& x.window_origin_y == y.window_origin_y
            &&& x.font_size == y.font_size
            &&& x.font_family == y.font_family
            &&& x.font_weight == y.font_weight
            &&& x.face_name@ == y.face_name@
            &&& x.cursor_size == y.cursor_size
            &&& x.full_screen == y.full_screen
            &&& x.quick_edit == y.quick_edit
            &&& x.insert_mode == y.insert_mode
            &&& x.auto_position == y.auto_position
            &&& x.history_buffer_size == y.history_buffer_size
            &&& x.number_of_history_buffers == y.number_of_history_buffers
            &&& x.history_no_dup == y.history_no_dup
            &&& x.color_table@ == y.color_table@
        },
        (ExtraData::ConsoleFeProps(x), ExtraData::ConsoleFeProps(y)) => x == y,
        (ExtraData::DarwinProps(x), ExtraData::DarwinProps(y)) => {
            &&& x.block_size == y.block_size
            &&& x.block_signature == y.block_signature
            &&& x.darwin_data_ansi@ == y.darwin_data_ansi@
            &&& x.darwin_data_unicode@ == y.darwin_data_unicode@
        },
        (ExtraData::EnvironmentProps(x), ExtraData::EnvironmentProps(y)) => {
            &&& x.block_size == y.block_size
            &&& x.block_signature == y.block_signature
            &&& x.target_ansi@ == y.target_ansi@
            &&& x.target_unicode@ == y.target_unicode@
        },
        (ExtraData::IconEnvironmentProps(x), ExtraData::IconEnvironmentProps(y)) => {
            &&& x.block_size == y.block_size
            &&& x.block_signature == y.block_signature
            &&& x.target_ansi@ == y.target_ansi@
            &&& x.target_unicode@ == y.target_unicode@
        },
        (ExtraData::KnownFolderProps(x), ExtraData::KnownFolderProps(y)) => x == y,
        (ExtraData::PropertyStoreProps(x), ExtraData::PropertyStoreProps(y)) => {
            &&& x.block_size == y.block_size
            &&& x.block_signature == y.block_signature
            &&& x.property_store@ == y.property_store@
        },
        (ExtraData::ShimProps(x), ExtraData::ShimProps(y)) => {
            &&& x.block_size == y.block_size
            &&& x.block_signature == y.block_signature
            &&& x.layer_name@ == y.layer_name@
        },
        (ExtraData::SpecialFolderProps(x), ExtraData::SpecialFolderProps(y)) => x == y,
        (ExtraData::TrackerProps(x), ExtraData::TrackerProps(y)) => {
            &&& x.block_size == y.block_size
            &&& x.block_signature == y.block_signature
            &&& x.length == y.length
            &&& x.version == y.version
            &&& x.machine_id@ == y.machine_id@
            &&& x.droid@ == y.droid@
            &&& x.droid_birth@ == y.droid_birth@
        },
        (ExtraData::VistaAndAboveIdListProps(x), ExtraData::VistaAndAboveIdListProps(y)) => {
            &&& x.block_size == y.block_size
            &&& x.block_signature == y.block_signature
            &&& items_view(x.id_list.item_id_list@) == items_view(y.id_list.item_id_list@)
        },
        _ => false,
    }
}

/// A block of the section has one value, up to the text of its strings.
pub proof fn lemma_block_matches_unique(s: Seq<u8>, pos: int, size: u32, b1: ExtraData, b2: ExtraData)
    requires
        block_matches(s, pos, size, b1),
        block_matches(s, pos, size, b2),
    ensures
        same_block(b1, b2),
{
}

/// The ExtraData section from `pos` has one value: the same number of blocks, each the
/// same up to the text of its strings.
pub proof fn lemma_extra_data_blocks_unique(s: Seq<u8>, pos: int, b1: Seq<ExtraData>, b2: Seq<ExtraData>)
    requires
        extra_data_blocks(s, pos, b1),
        extra_data_blocks(s, pos, b2),
    ensures
        b1.len() == b2.len(),
        forall|i: int| 0 <= i < b1.len() ==> same_block(#[trigger] b1[i], b2[i]),
    decreases s.len() - pos,
{
    if pos < 0 || pos + 4 > s.len() || u32_at(s, pos) < 4 {
    } else {
        let size = u32_at(s, pos);
        if known_signature(u32_at(s, pos + 4)) {
            lemma_block_matches_unique(s, pos, size, b1[0], b2[0]);
            lemma_extra_data_blocks_unique(s, pos + size, b1.drop_first(), b2.drop_first());
            assert forall|i: int| 0 <= i < b1.len() implies same_block(#[trigger] b1[i], b2[i]) by {
                if i > 0 {
                    assert(b1.drop_first()[i - 1] == b1[i]);
                    assert(b2.drop_first()[i - 1] == b2[i]);
                }
            }
        } else {
            lemma_extra_data_blocks_unique(s, pos + size, b1, b2);
        }
    }
}

/// `b` is a block of known signature that starts at `start`, ends at `next` inside `s`,
/// and is accepted by its decoder.
pub open spec fn block_at(s: Seq<u8>, start: int, next: int, b: ExtraData) -> bool {
    &&& 0 <= start
    &&& start + 8 <= next <= s.len()
    &&& u32_at(s, start) as int == next - start
    &&& known_signature(u32_at(s, start + 4))
    &&& block_error(s, start, u32_at(s, start)) is None
    &&& block_matches(s, start, u32_at(s, start), b)
}

/// The section from `starts[0]` holds the blocks `blocks`, block `i` from `starts[i]` to
/// `starts[i + 1]`, and then a block size below 4.
pub open spec fn blocks_then_terminator(s: Seq<u8>, starts: Seq<int>, blocks: Seq<ExtraData>) -> bool {
    &&& starts.len() == blocks.len() + 1
    &&& forall|i: int| 0 <= i < blocks.len() ==> block_at(s, starts[i], starts[i + 1], #[trigger] blocks[i])
    &&& 0 <= starts.last()
    &&& starts.last() + 4 <= s.len()
    &&& u32_at(s, starts.last()) < 4
}

/// Any number of well-formed blocks of known signature followed by a block size below 4
/// decode, without error, to exactly those blocks in wire order; what follows the
/// terminator is not read.
pub proof fn lemma_blocks_then_terminator(s: Seq<u8>, starts: Seq<int>, blocks: Seq<ExtraData>)
    requires
        blocks_then_terminator(s, starts, blocks),
    ensures
        extra_data_error(s, starts[0]) is None,
        extra_data_blocks(s, starts[0], blocks),
    decreases blocks.len(),
{
    if blocks.len() > 0 {
        let rest_starts = starts.drop_first();
        let rest_blocks = blocks.drop_first();
        assert forall|i: int| 0 <= i < rest_blocks.len() implies block_at(
            s,
            rest_starts[i],
            rest_starts[i + 1],
            #[trigger] rest_blocks[i],
        ) by {
            assert(block_at(s, starts[i + 1], starts[i + 2], blocks[i + 1]));
        }
        assert(rest_starts.last() == starts.last());
        lemma_blocks_then_terminator(s, rest_starts, rest_blocks);
        assert(block_at(s, starts[0], starts[1], blocks[0]));
    }
}

impl From<FontFamily> for u16 {
    fn from(input: FontFamily) -> u16 {
        input.to_u16()
    }
}

impl vstd::std_specs::convert::FromSpecImpl<FontFamily> for u16 {
    open spec fn obeys_from_spec() -> bool {
        true
    }

    open spec fn from_spec(v: FontFamily) -> u16 {
        font_family_code(v)
    }
}

impl From<CursorSize> for u32 {
    fn from(input: CursorSize) -> u32 {
        input.to_u32()
    }
}

impl vstd::std_specs::convert::FromSpecImpl<CursorSize> for u32 {
    open spec fn obeys_from_spec() -> bool {
        true
    }

    open spec fn from_spec(v: CursorSize) -> u32 {
        cursor_size_value(v)
    }
}

} // verus!
