//! Errors of the decoders.
use vstd::prelude::*;

verus! {

/// Why a HotKeyFlags field could not be decoded.
#[derive(Debug, Copy, Clone, PartialEq, Eq, Hash, Ord, PartialOrd)]
pub enum HotKeyFlagsParseError {
    /// The key byte is no known virtual key code.
    InvalidHotKey(u8),
    /// The modifier byte is none of shift, control and alt.
    InvalidHotKeyModifier(u8),
}

/// Why a ShellLinkHeader could not be decoded.
#[derive(Debug, Copy, Clone, PartialEq, Eq, Hash, Ord, PartialOrd)]
pub enum ShellLinkHeaderParseError {
    /// Header too short, expected 76 bytes, got n bytes instead
    InvalidHeaderLength(usize),
    /// Header says it's n bytes long, but the correct size is 76 bytes - corrupt header
    CorruptHeaderLength(u32),
    /// Shell link is not of class LINK_CLSID; the four little-endian words read.
    CorruptHeaderClsId([u32; 4]),
    /// Link flags field contains unknown bits
    InvalidLinkFlags(u32),
    /// File attributes field contains unknown bits
    InvalidFileAttributes(u32),
    InvalidHotKeyFlags(HotKeyFlagsParseError),
}

/// Why a LinkTargetIDList could not be decoded.
#[derive(Debug, Copy, Clone, PartialEq, Eq, Hash, Ord, PartialOrd)]
pub enum LinkTargetIdListParseError {
    /// The input ends before the IDListSize field, before the declared end of the list, or
    /// before the terminal ItemID; or an ItemID declares a size of 1, too short to hold its
    /// own size field.
    Truncated,
    /// An ItemID declares a size that reaches past the end of the list.
    ItemIdExceedsBound(u16),
}

/// Why a LinkInfo structure could not be decoded.
#[derive(Debug, Copy, Clone, PartialEq, Eq, Hash, Ord, PartialOrd)]
pub enum LinkInfoParseError {
    /// The input ends before the declared LinkInfoSize, or the header is shorter than
    /// LinkInfoSize allows.
    Truncated,
    /// LinkInfoHeaderSize is below the minimum of 0x1C, or reaches past LinkInfoSize.
    InvalidHeaderSize(u32),
    /// LinkInfoFlags has bits other than the two defined ones.
    InvalidFlags(u32),
    /// An offset, or a structure or string it locates, is not inside the LinkInfo structure.
    OffsetOutOfBounds(u32),
    /// A VolumeID or CommonNetworkRelativeLink declares a size below its minimum.
    BlockSizeTooSmall(u32),
    /// The DriveType value is not in the table of drive types.
    InvalidDriveType(u32),
    /// The NetworkProviderType value is not in the table of providers.
    InvalidNetworkProviderType(u32),
}

/// Why the StringData section could not be decoded.
#[derive(Debug, Copy, Clone, PartialEq, Eq, Hash, Ord, PartialOrd)]
pub enum StringDataParseError {
    /// The input ends inside a count or the characters of a string.
    Truncated,
}

/// Why the ExtraData section could not be decoded.
#[derive(Debug, Copy, Clone, PartialEq, Eq, Hash, Ord, PartialOrd)]
pub enum ExtraDataParseError {
    /// The input ends before the declared end of a block or of its signature.
    Truncated,
    /// A block declares a size that its signature does not allow: (signature, size).
    InvalidBlockSize(u32, u32),
    /// A value inside a block is outside its table or range: (signature, value).
    InvalidValue(u32, u32),
    /// The IDList of a VistaAndAboveIDListDataBlock is malformed.
    IdList(LinkTargetIdListParseError),
}

/// Why a shell link could not be decoded: the error of the first structure that failed.
#[derive(Debug, Copy, Clone, PartialEq, Eq, Hash, Ord, PartialOrd)]
pub enum ShellLinkParseError {
    HeaderParseError(ShellLinkHeaderParseError),
    IdListParseError(LinkTargetIdListParseError),
    LinkInfoParseError(LinkInfoParseError),
    StringDataParseError(StringDataParseError),
    ExtraDataParseError(ExtraDataParseError),
}

} // verus!
