//! The LinkInfo structure: where the link target was, as a local volume path and/or a
//! network share, located by offsets from the structure's start.
use vstd::prelude::*;
use crate::bytes::{u32_at, u32_from_input};
use crate::text::{nul_terminated_text, read_nul_terminated};
pub use crate::error::LinkInfoParseError;

verus! {

/// The type of drive that the link target was stored on.
#[derive(Debug, Copy, Clone, PartialEq, Eq, Hash, Ord, PartialOrd)]
pub enum DriveType {
    Unknown,
    NoRootDir,
    Removable,
    Fixed,
    Remote,
    CdRom,
    RamDisk,
}

/// The drive type of a DriveType value: the values 0 to 6, in declaration order.
pub open spec fn drive_type_of(v: u32) -> Option<DriveType> {
    if v == 0 {
        Some(DriveType::Unknown)
    } else if v == 1 {
        Some(DriveType::NoRootDir)
    } else if v == 2 {
        Some(DriveType::Removable)
    } else if v == 3 {
        Some(DriveType::Fixed)
    } else if v == 4 {
        Some(DriveType::Remote)
    } else if v == 5 {
        Some(DriveType::CdRom)
    } else if v == 6 {
        Some(DriveType::RamDisk)
    } else {
        None
    }
}

pub open spec fn drive_type_code(d: DriveType) -> u32 {
    match d {
        DriveType::Unknown => 0,
        DriveType::NoRootDir => 1,
        DriveType::Removable => 2,
        DriveType::Fixed => 3,
        DriveType::Remote => 4,
        DriveType::CdRom => 5,
        DriveType::RamDisk => 6,
    }
}

impl DriveType {
    /// The drive type of a DriveType value, or `None` for an undefined value.
    pub fn try_from(input: u32) -> (r: Option<Self>)
        ensures
            r == drive_type_of(input),
    {
        match input {
            0 => Some(DriveType::Unknown),
            1 => Some(DriveType::NoRootDir),
            2 => Some(DriveType::Removable),
            3 => Some(DriveType::Fixed),
            4 => Some(DriveType::Remote),
            5 => Some(DriveType::CdRom),
            6 => Some(DriveType::RamDisk),
            _ => None,
        }
    }

    /// The DriveType value of this drive type.
    pub fn to_u32(self) -> (r: u32)
        ensures
            r == drive_type_code(self),
    {
        match self {
            DriveType::Unknown => 0,
            DriveType::NoRootDir => 1,
            DriveType::Removable => 2,
            DriveType::Fixed => 3,
            DriveType::Remote => 4,
            DriveType::CdRom => 5,
            DriveType::RamDisk => 6,
        }
    }
}

/// The drive type table reads back every drive type that it writes.
pub proof fn lemma_drive_type_round_trip(d: DriveType)
    ensures
        drive_type_of(drive_type_code(d)) == Some(d),
{
}

/// The type of network provider of a network share.
#[derive(Debug, Copy, Clone, PartialEq, Eq, Hash, Ord, PartialOrd)]
pub enum NetworkProviderType {
    Avid,
    Docuspace,
    Mangosoft,
    Sernet,
    Riverfront1,
    Riverfront2,
    Decorb,
    Protstor,
    FjRedir,
    Distinct,
    Twins,
    Rdr2sample,
    Csc,
    _3in1,
    Extendnet,
    Stac,
    Foxbat,
    Yahoo,
    Exifs,
    Dav,
    Knoware,
    ObjectDire,
    Masfax,
    HobNfs,
    Shiva,
    Ibmal,
    Lock,
    Termsrv,
    Srt,
    Quincy,
    Openafs,
    Avid1,
    Dfs,
    Kwnp,
    Zenworks,
    Driveonweb,
    Vmware,
    Rsfx,
    Mfiles,
    MsNfs,
    Google,
}

/// The provider of a NetworkProviderType value (the WNNC_NET_* constants).
pub open spec fn network_provider_type_of(v: u32) -> Option<NetworkProviderType> {
    match v {
        0x001A0000 => Some(NetworkProviderType::Avid),
        0x001B0000 => Some(NetworkProviderType::Docuspace),
        0x001C0000 => Some(NetworkProviderType::Mangosoft),
        0x001D0000 => Some(NetworkProviderType::Sernet),
        0x001E0000 => Some(NetworkProviderType::Riverfront1),
        0x001F0000 => Some(NetworkProviderType::Riverfront2),
        0x00200000 => Some(NetworkProviderType::Decorb),
        0x00210000 => Some(NetworkProviderType::Protstor),
        0x00220000 => Some(NetworkProviderType::FjRedir),
        0x00230000 => Some(NetworkProviderType::Distinct),
        0x00240000 => Some(NetworkProviderType::Twins),
        0x00250000 => Some(NetworkProviderType::Rdr2sample),
        0x00260000 => Some(NetworkProviderType::Csc),
        0x00270000 => Some(NetworkProviderType::_3in1),
        0x00290000 => Some(NetworkProviderType::Extendnet),
        0x002A0000 => Some(NetworkProviderType::Stac),
        0x002B0000 => Some(NetworkProviderType::Foxbat),
        0x002C0000 => Some(NetworkProviderType::Yahoo),
        0x002D0000 => Some(NetworkProviderType::Exifs),
        0x002E0000 => Some(NetworkProviderType::Dav),
        0x002F0000 => Some(NetworkProviderType::Knoware),
        0x00300000 => Some(NetworkProviderType::ObjectDire),
        0x00310000 => Some(NetworkProviderType::Masfax),
        0x00320000 => Some(NetworkProviderType::HobNfs),
        0x00330000 => Some(NetworkProviderType::Shiva),
        0x00340000 => Some(NetworkProviderType::Ibmal),
        0x00350000 => Some(NetworkProviderType::Lock),
        0x00360000 => Some(NetworkProviderType::Termsrv),
        0x00370000 => Some(NetworkProviderType::Srt),
        0x00380000 => Some(NetworkProviderType::Quincy),
        0x00390000 => Some(NetworkProviderType::Openafs),
        0x003A0000 => Some(NetworkProviderType::Avid1),
        0x003B0000 => Some(NetworkProviderType::Dfs),
        0x003C0000 => Some(NetworkProviderType::Kwnp),
        0x003D0000 => Some(NetworkProviderType::Zenworks),
        0x003E0000 => Some(NetworkProviderType::Driveonweb),
        0x003F0000 => Some(NetworkProviderType::Vmware),
        0x00400000 => Some(NetworkProviderType::Rsfx),
        0x00410000 => Some(NetworkProviderType::Mfiles),
        0x00420000 => Some(NetworkProviderType::MsNfs),
        0x00430000 => Some(NetworkProviderType::Google),
        _ => None,
    }
}

pub open spec fn network_provider_type_code(p: NetworkProviderType) -> u32 {
    match p {
        NetworkProviderType::Avid => 0x001A0000,
        NetworkProviderType::Docuspace => 0x001B0000,
        NetworkProviderType::Mangosoft => 0x001C0000,
        NetworkProviderType::Sernet => 0x001D0000,
        NetworkProviderType::Riverfront1 => 0x001E0000,
        NetworkProviderType::Riverfront2 => 0x001F0000,
        NetworkProviderType::Decorb => 0x00200000,
        NetworkProviderType::Protstor => 0x00210000,
        NetworkProviderType::FjRedir => 0x00220000,
        NetworkProviderType::Distinct => 0x00230000,
        NetworkProviderType::Twins => 0x00240000,
        NetworkProviderType::Rdr2sample => 0x00250000,
        NetworkProviderType::Csc => 0x00260000,
        NetworkProviderType::_3in1 => 0x00270000,
        NetworkProviderType::Extendnet => 0x00290000,
        NetworkProviderType::Stac => 0x002A0000,
        NetworkProviderType::Foxbat => 0x002B0000,
        NetworkProviderType::Yahoo => 0x002C0000,
        NetworkProviderType::Exifs => 0x002D0000,
        NetworkProviderType::Dav => 0x002E0000,
        NetworkProviderType::Knoware => 0x002F0000,
        NetworkProviderType::ObjectDire => 0x00300000,
        NetworkProviderType::Masfax => 0x00310000,
        NetworkProviderType::HobNfs => 0x00320000,
        NetworkProviderType::Shiva => 0x00330000,
        NetworkProviderType::Ibmal => 0x00340000,
        NetworkProviderType::Lock => 0x00350000,
        NetworkProviderType::Termsrv => 0x00360000,
        NetworkProviderType::Srt => 0x00370000,
        NetworkProviderType::Quincy => 0x00380000,
        NetworkProviderType::Openafs => 0x00390000,
        NetworkProviderType::Avid1 => 0x003A0000,
        NetworkProviderType::Dfs => 0x003B0000,
        NetworkProviderType::Kwnp => 0x003C0000,
        NetworkProviderType::Zenworks => 0x003D0000,
        NetworkProviderType::Driveonweb => 0x003E0000,
        NetworkProviderType::Vmware => 0x003F0000,
        NetworkProviderType::Rsfx => 0x00400000,
        NetworkProviderType::Mfiles => 0x00410000,
        NetworkProviderType::MsNfs => 0x00420000,
        NetworkProviderType::Google => 0x00430000,
    }
}

impl NetworkProviderType {
    /// The provider of a NetworkProviderType value, or `None` for an undefined value.
    pub fn try_from(input: u32) -> (r: Option<Self>)
        ensures
            r == network_provider_type_of(input),
    {
        match input {
            0x001A0000 => Some(NetworkProviderType::Avid),
            0x001B0000 => Some(NetworkProviderType::Docuspace),
            0x001C0000 => Some(NetworkProviderType::Mangosoft),
            0x001D0000 => Some(NetworkProviderType::Sernet),
            0x001E0000 => Some(NetworkProviderType::Riverfront1),
            0x001F0000 => Some(NetworkProviderType::Riverfront2),
            0x00200000 => Some(NetworkProviderType::Decorb),
            0x00210000 => Some(NetworkProviderType::Protstor),
            0x00220000 => Some(NetworkProviderType::FjRedir),
            0x00230000 => Some(NetworkProviderType::Distinct),
            0x00240000 => Some(NetworkProviderType::Twins),
            0x00250000 => Some(NetworkProviderType::Rdr2sample),
            0x00260000 => Some(NetworkProviderType::Csc),
            0x00270000 => Some(NetworkProviderType::_3in1),
            0x00290000 => Some(NetworkProviderType::Extendnet),
            0x002A0000 => Some(NetworkProviderType::Stac),
            0x002B0000 => Some(NetworkProviderType::Foxbat),
            0x002C0000 => Some(NetworkProviderType::Yahoo),
            0x002D0000 => Some(NetworkProviderType::Exifs),
            0x002E0000 => Some(NetworkProviderType::Dav),
            0x002F0000 => Some(NetworkProviderType::Knoware),
            0x00300000 => Some(NetworkProviderType::ObjectDire),
            0x00310000 => Some(NetworkProviderType::Masfax),
            0x00320000 => Some(NetworkProviderType::HobNfs),
            0x00330000 => Some(NetworkProviderType::Shiva),
            0x00340000 => Some(NetworkProviderType::Ibmal),
            0x00350000 => Some(NetworkProviderType::Lock),
            0x00360000 => Some(NetworkProviderType::Termsrv),
            0x00370000 => Some(NetworkProviderType::Srt),
            0x00380000 => Some(NetworkProviderType::Quincy),
            0x00390000 => Some(NetworkProviderType::Openafs),
            0x003A0000 => Some(NetworkProviderType::Avid1),
            0x003B0000 => Some(NetworkProviderType::Dfs),
            0x003C0000 => Some(NetworkProviderType::Kwnp),
            0x003D0000 => Some(NetworkProviderType::Zenworks),
            0x003E0000 => Some(NetworkProviderType::Driveonweb),
            0x003F0000 => Some(NetworkProviderType::Vmware),
            0x00400000 => Some(NetworkProviderType::Rsfx),
            0x00410000 => Some(NetworkProviderType::Mfiles),
            0x00420000 => Some(NetworkProviderType::MsNfs),
            0x00430000 => Some(NetworkProviderType::Google),
            _ => None,
        }
    }

    /// The NetworkProviderType value of this provider.
    pub fn to_u32(self) -> (r: u32)
        ensures
            r == network_provider_type_code(self),
    {
        match self {
            NetworkProviderType::Avid => 0x001A0000,
            NetworkProviderType::Docuspace => 0x001B0000,
            NetworkProviderType::Mangosoft => 0x001C0000,
            NetworkProviderType::Sernet => 0x001D0000,
            NetworkProviderType::Riverfront1 => 0x001E0000,
            NetworkProviderType::Riverfront2 => 0x001F0000,
            NetworkProviderType::Decorb => 0x00200000,
            NetworkProviderType::Protstor => 0x00210000,
            NetworkProviderType::FjRedir => 0x00220000,
            NetworkProviderType::Distinct => 0x00230000,
            NetworkProviderType::Twins => 0x00240000,
            NetworkProviderType::Rdr2sample => 0x00250000,
            NetworkProviderType::Csc => 0x00260000,
            NetworkProviderType::_3in1 => 0x00270000,
            NetworkProviderType::Extendnet => 0x00290000,
            NetworkProviderType::Stac => 0x002A0000,
            NetworkProviderType::Foxbat => 0x002B0000,
            NetworkProviderType::Yahoo => 0x002C0000,
            NetworkProviderType::Exifs => 0x002D0000,
            NetworkProviderType::Dav => 0x002E0000,
            NetworkProviderType::Knoware => 0x002F0000,
            NetworkProviderType::ObjectDire => 0x00300000,
            NetworkProviderType::Masfax => 0x00310000,
            NetworkProviderType::HobNfs => 0x00320000,
            NetworkProviderType::Shiva => 0x00330000,
            NetworkProviderType::Ibmal => 0x00340000,
            NetworkProviderType::Lock => 0x00350000,
            NetworkProviderType::Termsrv => 0x00360000,
            NetworkProviderType::Srt => 0x00370000,
            NetworkProviderType::Quincy => 0x00380000,
            NetworkProviderType::Openafs => 0x00390000,
            NetworkProviderType::Avid1 => 0x003A0000,
            NetworkProviderType::Dfs => 0x003B0000,
            NetworkProviderType::Kwnp => 0x003C0000,
            NetworkProviderType::Zenworks => 0x003D0000,
            NetworkProviderType::Driveonweb => 0x003E0000,
            NetworkProviderType::Vmware => 0x003F0000,
            NetworkProviderType::Rsfx => 0x00400000,
            NetworkProviderType::Mfiles => 0x00410000,
            NetworkProviderType::MsNfs => 0x00420000,
            NetworkProviderType::Google => 0x00430000,
        }
    }
}

/// The provider table reads back every provider that it writes.
pub proof fn lemma_network_provider_type_round_trip(p: NetworkProviderType)
    ensures
        network_provider_type_of(network_provider_type_code(p)) == Some(p),
{
}

/// LinkInfoFlags: which optional parts a LinkInfo has.
#[derive(Debug, Copy, Clone, PartialEq, Eq, Hash, Ord, PartialOrd)]
pub struct LinkInfoFlags {
    pub bits: u32,
}

impl LinkInfoFlags {
    /// VolumeID and LocalBasePath are present.
    pub const VOLUME_ID_AND_LOCAL_BASE_PATH: u32 = 1 << 0;
    /// CommonNetworkRelativeLink is present.
    pub const COMMON_NETWORK_RELATIVE_LINK_AND_PATH_SUFFIX: u32 = 1 << 1;
    pub const ALL: u32 = 0x3;

    pub open spec fn wf(&self) -> bool {
        self.bits & !Self::ALL == 0
    }

    /// All bits of `flag` are set.
    pub fn contains(&self, flag: u32) -> (r: bool)
        ensures
            r == (self.bits & flag == flag),
    {
        self.bits & flag == flag
    }
}

/// Flags of a CommonNetworkRelativeLink.
#[derive(Debug, Copy, Clone, PartialEq, Eq, Hash, Ord, PartialOrd)]
pub struct CommonNetworkRelativeLinkFlags {
    pub bits: u32,
}

impl CommonNetworkRelativeLinkFlags {
    /// DeviceNameOffset locates a device name.
    pub const VALID_DEVICE: u32 = 1 << 0;
    /// NetworkProviderType holds a provider.
    pub const VALID_NET_TYPE: u32 = 1 << 1;
    pub const ALL: u32 = 0x3;

    pub open spec fn wf(&self) -> bool {
        self.bits & !Self::ALL == 0
    }

    /// All bits of `flag` are set.
    pub fn contains(&self, flag: u32) -> (r: bool)
        ensures
            r == (self.bits & flag == flag),
    {
        self.bits & flag == flag
    }
}

/// An optional string as its text.
pub open spec fn opt_text(o: Option<String>) -> Option<Seq<char>> {
    match o {
        Some(t) => Some(t@),
        None => None,
    }
}

/// The NUL-terminated string at offset `off` from `base`, which must lie, NUL included,
/// within the `bound` bytes from `base`.
pub open spec fn string_at_offset(s: Seq<u8>, base: int, off: u32, bound: u32, unicode: bool) -> Result<
    Seq<char>,
    LinkInfoParseError,
> {
    if off >= bound {
        Err(LinkInfoParseError::OffsetOutOfBounds(off))
    } else {
        match nul_terminated_text(s, base + off, base + bound, unicode) {
            Some(t) => Ok(t),
            None => Err(LinkInfoParseError::OffsetOutOfBounds(off)),
        }
    }
}

fn read_string_at(input: &[u8], base: usize, off: u32, bound: u32, unicode: bool) -> (r: Result<String, LinkInfoParseError>)
    requires
        base + bound <= input@.len(),
    ensures
        match r {
            Ok(t) => string_at_offset(input@, base as int, off, bound, unicode) == Ok::<Seq<char>, LinkInfoParseError>(t@),
            Err(e) => string_at_offset(input@, base as int, off, bound, unicode) == Err::<Seq<char>, LinkInfoParseError>(e),
        },
{
    if off >= bound {
        return Err(LinkInfoParseError::OffsetOutOfBounds(off));
    }
    assert(input.len() == input@.len());
    match read_nul_terminated(input, base + off as usize, base + bound as usize, unicode) {
        Some(t) => Ok(t),
        None => Err(LinkInfoParseError::OffsetOutOfBounds(off)),
    }
}

/// The volume that the link target was on when the link was created.
#[derive(Debug, Clone, PartialEq, Eq, Hash, Ord, PartialOrd)]
pub struct VolumeId {
    /// The size, in bytes, of this structure; more than 0x10.
    pub volume_id_size: u32,
    pub drive_type: DriveType,
    pub drive_serial_number: u32,
    /// The offset of the code-page volume label; 0x14 means the label is in UTF-16, at
    /// `volume_label_offset_unicode`.
    pub volume_label_offset: u32,
    pub volume_label_offset_unicode: Option<u32>,
    /// The volume label.
    pub data: String,
}

/// A VolumeId with its label as text.
pub struct VolumeIdView {
    pub volume_id_size: u32,
    pub drive_type: DriveType,
    pub drive_serial_number: u32,
    pub volume_label_offset: u32,
    pub volume_label_offset_unicode: Option<u32>,
    pub data: Seq<char>,
}

impl View for VolumeId {
    type V = VolumeIdView;

    open spec fn view(&self) -> VolumeIdView {
        VolumeIdView {
            volume_id_size: self.volume_id_size,
            drive_type: self.drive_type,
            drive_serial_number: self.drive_serial_number,
            volume_label_offset: self.volume_label_offset,
            volume_label_offset_unicode: self.volume_label_offset_unicode,
            data: self.data@,
        }
    }
}

/// The VolumeID at offset `off` of a LinkInfo that starts at 0 and is `bound` bytes long.
pub open spec fn volume_id_result(s: Seq<u8>, off: u32, bound: u32) -> Result<VolumeIdView, LinkInfoParseError> {
    let vo = off as int;
    if off >= bound || bound - off < 0x10 {
        Err(LinkInfoParseError::OffsetOutOfBounds(off))
    } else if u32_at(s, vo) <= 0x10 {
        Err(LinkInfoParseError::BlockSizeTooSmall(u32_at(s, vo)))
    } else if u32_at(s, vo) > bound - off {
        Err(LinkInfoParseError::OffsetOutOfBounds(u32_at(s, vo)))
    } else {
        let size = u32_at(s, vo);
        match drive_type_of(u32_at(s, vo + 4)) {
            None => Err(LinkInfoParseError::InvalidDriveType(u32_at(s, vo + 4))),
            Some(drive_type) => {
                let label_offset = u32_at(s, vo + 12);
                let unicode = label_offset == 0x14;
                if unicode && size < 0x14 {
                    Err(LinkInfoParseError::OffsetOutOfBounds(label_offset))
                } else {
                    let at = if unicode { u32_at(s, vo + 16) } else { label_offset };
                    match string_at_offset(s, vo, at, size, unicode) {
                        Err(e) => Err(e),
                        Ok(data) => Ok(VolumeIdView {
                            volume_id_size: size,
                            drive_type,
                            drive_serial_number: u32_at(s, vo + 8),
                            volume_label_offset: label_offset,
                            volume_label_offset_unicode: if unicode { Some(at) } else { None },
                            data,
                        }),
                    }
                }
            },
        }
    }
}

impl VolumeId {
    /// Decodes the VolumeID at offset `off` of the LinkInfo that `input` starts with,
    /// `bound` bytes long.
    pub fn parse(input: &[u8], off: u32, bound: u32) -> (r: Result<Self, LinkInfoParseError>)
        requires
            bound <= input@.len(),
        ensures
            match r {
                Ok(v) => volume_id_result(input@, off, bound) == Ok::<VolumeIdView, LinkInfoParseError>(v@),
                Err(e) => volume_id_result(input@, off, bound) == Err::<VolumeIdView, LinkInfoParseError>(e),
            },
    {
        if off >= bound || bound - off < 0x10 {
            return Err(LinkInfoParseError::OffsetOutOfBounds(off));
        }
        let vo = off as usize;
        let size = u32_from_input(input, vo);
        if size <= 0x10 {
            return Err(LinkInfoParseError::BlockSizeTooSmall(size));
        }
        if size > bound - off {
            return Err(LinkInfoParseError::OffsetOutOfBounds(size));
        }
        let drive_type_value = u32_from_input(input, vo + 4);
        let drive_type = match DriveType::try_from(drive_type_value) {
            Some(d) => d,
            None => return Err(LinkInfoParseError::InvalidDriveType(drive_type_value)),
        };
        let drive_serial_number = u32_from_input(input, vo + 8);
        let label_offset = u32_from_input(input, vo + 12);
        let unicode = label_offset == 0x14;
        if unicode && size < 0x14 {
            return Err(LinkInfoParseError::OffsetOutOfBounds(label_offset));
        }
        let at = if unicode {
            u32_from_input(input, vo + 16)
        } else {
            label_offset
        };
        let data = read_string_at(input, vo, at, size, unicode)?;
        Ok(VolumeId {
            volume_id_size: size,
            drive_type,
            drive_serial_number,
            volume_label_offset: label_offset,
            volume_label_offset_unicode: if unicode { Some(at) } else { None },
            data,
        })
    }
}

/// An optional NUL-terminated string: absent unless `present`.
pub open spec fn opt_string_at(s: Seq<u8>, base: int, present: bool, off: u32, bound: u32, unicode: bool) -> Result<
    Option<Seq<char>>,
    LinkInfoParseError,
> {
    if !present {
        Ok(None)
    } else {
        match string_at_offset(s, base, off, bound, unicode) {
            Ok(t) => Ok(Some(t)),
            Err(e) => Err(e),
        }
    }
}

fn read_opt_string_at(input: &[u8], base: usize, present: bool, off: u32, bound: u32, unicode: bool) -> (r: Result<Option<String>, LinkInfoParseError>)
    requires
        base + bound <= input@.len(),
    ensures
        match r {
            Ok(t) => opt_string_at(input@, base as int, present, off, bound, unicode) == Ok::<Option<Seq<char>>, LinkInfoParseError>(opt_text(t)),
            Err(e) => opt_string_at(input@, base as int, present, off, bound, unicode) == Err::<Option<Seq<char>>, LinkInfoParseError>(e),
        },
{
    if !present {
        return Ok(None);
    }
    let t = read_string_at(input, base, off, bound, unicode)?;
    Ok(Some(t))
}

/// The network location where the link target is stored: a share, and the device mapped to
/// it.
#[derive(Debug, Clone, PartialEq, Eq, Hash, Ord, PartialOrd)]
pub struct CommonNetworkRelativeLink {
    /// The size, in bytes, of this structure; at least 0x14.
    pub common_network_relative_link_size: u32,
    pub common_network_relative_link_flags: CommonNetworkRelativeLinkFlags,
    pub net_name_offset: u32,
    pub device_name_offset: u32,
    /// The provider, when the ValidNetType flag is set.
    pub network_provider_type: Option<NetworkProviderType>,
    /// Present when NetNameOffset is more than 0x14.
    pub net_name_offset_unicode: Option<u32>,
    /// Present when NetNameOffset is more than 0x14.
    pub device_name_offset_unicode: Option<u32>,
    /// A server share path, such as `\\server\share`.
    pub net_name: String,
    /// A device, such as the drive letter `D:`; present when the ValidDevice flag is set.
    pub device_name: Option<String>,
    pub net_name_unicode: Option<String>,
    pub device_name_unicode: Option<String>,
}

/// A CommonNetworkRelativeLink with its strings as text.
pub struct CommonNetworkRelativeLinkView {
    pub size: u32,
    pub flags: u32,
    pub net_name_offset: u32,
    pub device_name_offset: u32,
    pub network_provider_type: Option<NetworkProviderType>,
    pub net_name_offset_unicode: Option<u32>,
    pub device_name_offset_unicode: Option<u32>,
    pub net_name: Seq<char>,
    pub device_name: Option<Seq<char>>,
    pub net_name_unicode: Option<Seq<char>>,
    pub device_name_unicode: Option<Seq<char>>,
}

impl View for CommonNetworkRelativeLink {
    type V = CommonNetworkRelativeLinkView;

    open spec fn view(&self) -> CommonNetworkRelativeLinkView {
        CommonNetworkRelativeLinkView {
            size: self.common_network_relative_link_size,
            flags: self.common_network_relative_link_flags.bits,
            net_name_offset: self.net_name_offset,
            device_name_offset: self.device_name_offset,
            network_provider_type: self.network_provider_type,
            net_name_offset_unicode: self.net_name_offset_unicode,
            device_name_offset_unicode: self.device_name_offset_unicode,
            net_name: self.net_name@,
            device_name: opt_text(self.device_name),
            net_name_unicode: opt_text(self.net_name_unicode),
            device_name_unicode: opt_text(self.device_name_unicode),
        }
    }
}

/// The provider of a CommonNetworkRelativeLink: read only when ValidNetType is set.
pub open spec fn provider_result(flags: u32, v: u32) -> Result<Option<NetworkProviderType>, LinkInfoParseError> {
    if flags & CommonNetworkRelativeLinkFlags::VALID_NET_TYPE == 0 {
        Ok(None)
    } else {
        match network_provider_type_of(v) {
            Some(p) => Ok(Some(p)),
            None => Err(LinkInfoParseError::InvalidNetworkProviderType(v)),
        }
    }
}

/// The strings of a CommonNetworkRelativeLink whose fixed fields `v` holds, which starts
/// at `co`.
pub open spec fn network_strings(s: Seq<u8>, co: int, v: CommonNetworkRelativeLinkView) -> Result<
    CommonNetworkRelativeLinkView,
    LinkInfoParseError,
> {
    let valid_device = v.flags & CommonNetworkRelativeLinkFlags::VALID_DEVICE != 0;
    let has_unicode = v.net_name_offset > 0x14;
    match string_at_offset(s, co, v.net_name_offset, v.size, false) {
        Err(e) => Err(e),
        Ok(net_name) => match opt_string_at(s, co, valid_device, v.device_name_offset, v.size, false) {
            Err(e) => Err(e),
            Ok(device_name) => match opt_string_at(
                s,
                co,
                has_unicode,
                v.net_name_offset_unicode->Some_0,
                v.size,
                true,
            ) {
                Err(e) => Err(e),
                Ok(net_name_unicode) => match opt_string_at(
                    s,
                    co,
                    has_unicode && valid_device,
                    v.device_name_offset_unicode->Some_0,
                    v.size,
                    true,
                ) {
                    Err(e) => Err(e),
                    Ok(device_name_unicode) => Ok(
                        CommonNetworkRelativeLinkView {
                            net_name,
                            device_name,
                            net_name_unicode,
                            device_name_unicode,
                            ..v
                        },
                    ),
                },
            },
        },
    }
}

/// The CommonNetworkRelativeLink at offset `off` of a LinkInfo that starts at 0 and is
/// `bound` bytes long. Every offset it holds must be below its size, whether or not a flag
/// says it is followed.
pub open spec fn network_link_result(s: Seq<u8>, off: u32, bound: u32) -> Result<
    CommonNetworkRelativeLinkView,
    LinkInfoParseError,
> {
    let co = off as int;
    if off >= bound || bound - off < 0x14 {
        Err(LinkInfoParseError::OffsetOutOfBounds(off))
    } else if u32_at(s, co) < 0x14 {
        Err(LinkInfoParseError::BlockSizeTooSmall(u32_at(s, co)))
    } else if u32_at(s, co) > bound - off {
        Err(LinkInfoParseError::OffsetOutOfBounds(u32_at(s, co)))
    } else if u32_at(s, co + 4) & !CommonNetworkRelativeLinkFlags::ALL != 0 {
        Err(LinkInfoParseError::InvalidFlags(u32_at(s, co + 4)))
    } else if u32_at(s, co + 8) >= u32_at(s, co) {
        Err(LinkInfoParseError::OffsetOutOfBounds(u32_at(s, co + 8)))
    } else if u32_at(s, co + 8) > 0x14 && u32_at(s, co) < 0x1C {
        Err(LinkInfoParseError::OffsetOutOfBounds(u32_at(s, co + 8)))
    } else if u32_at(s, co + 12) >= u32_at(s, co) {
        Err(LinkInfoParseError::OffsetOutOfBounds(u32_at(s, co + 12)))
    } else if u32_at(s, co + 8) > 0x14 && u32_at(s, co + 20) >= u32_at(s, co) {
        Err(LinkInfoParseError::OffsetOutOfBounds(u32_at(s, co + 20)))
    } else if u32_at(s, co + 8) > 0x14 && u32_at(s, co + 24) >= u32_at(s, co) {
        Err(LinkInfoParseError::OffsetOutOfBounds(u32_at(s, co + 24)))
    } else {
        let has_unicode = u32_at(s, co + 8) > 0x14;
        match provider_result(u32_at(s, co + 4), u32_at(s, co + 16)) {
            Err(e) => Err(e),
            Ok(network_provider_type) => network_strings(
                s,
                co,
                CommonNetworkRelativeLinkView {
                    size: u32_at(s, co),
                    flags: u32_at(s, co + 4),
                    net_name_offset: u32_at(s, co + 8),
                    device_name_offset: u32_at(s, co + 12),
                    network_provider_type,
                    net_name_offset_unicode: if has_unicode { Some(u32_at(s, co + 20)) } else { None },
                    device_name_offset_unicode: if has_unicode { Some(u32_at(s, co + 24)) } else { None },
                    net_name: Seq::empty(),
                    device_name: None,
                    net_name_unicode: None,
                    device_name_unicode: None,
                },
            ),
        }
    }
}

impl CommonNetworkRelativeLink {
    /// Decodes the CommonNetworkRelativeLink at offset `off` of the LinkInfo that `input`
    /// starts with, `bound` bytes long.
    pub fn parse(input: &[u8], off: u32, bound: u32) -> (r: Result<Self, LinkInfoParseError>)
        requires
            bound <= input@.len(),
        ensures
            match r {
                Ok(v) => network_link_result(input@, off, bound) == Ok::<CommonNetworkRelativeLinkView, LinkInfoParseError>(v@),
                Err(e) => network_link_result(input@, off, bound) == Err::<CommonNetworkRelativeLinkView, LinkInfoParseError>(e),
            },
    {
        if off >= bound || bound - off < 0x14 {
            return Err(LinkInfoParseError::OffsetOutOfBounds(off));
        }
        let co = off as usize;
        let size = u32_from_input(input, co);
        if size < 0x14 {
            return Err(LinkInfoParseError::BlockSizeTooSmall(size));
        }
        if size > bound - off {
            return Err(LinkInfoParseError::OffsetOutOfBounds(size));
        }
        let flags = CommonNetworkRelativeLinkFlags { bits: u32_from_input(input, co + 4) };
        if flags.bits & !CommonNetworkRelativeLinkFlags::ALL != 0 {
            return Err(LinkInfoParseError::InvalidFlags(flags.bits));
        }
        let net_name_offset = u32_from_input(input, co + 8);
        let device_name_offset = u32_from_input(input, co + 12);
        let has_unicode = net_name_offset > 0x14;
        if net_name_offset >= size {
            return Err(LinkInfoParseError::OffsetOutOfBounds(net_name_offset));
        }
        if has_unicode && size < 0x1C {
            return Err(LinkInfoParseError::OffsetOutOfBounds(net_name_offset));
        }
        if device_name_offset >= size {
            return Err(LinkInfoParseError::OffsetOutOfBounds(device_name_offset));
        }
        if has_unicode {
            let net_name_offset_unicode = u32_from_input(input, co + 20);
            if net_name_offset_unicode >= size {
                return Err(LinkInfoParseError::OffsetOutOfBounds(net_name_offset_unicode));
            }
            let device_name_offset_unicode = u32_from_input(input, co + 24);
            if device_name_offset_unicode >= size {
                return Err(LinkInfoParseError::OffsetOutOfBounds(device_name_offset_unicode));
            }
        }
        let provider_value = u32_from_input(input, co + 16);
        let network_provider_type = if flags.bits & CommonNetworkRelativeLinkFlags::VALID_NET_TYPE == 0 {
            None
        } else {
            match NetworkProviderType::try_from(provider_value) {
                Some(p) => Some(p),
                None => return Err(LinkInfoParseError::InvalidNetworkProviderType(provider_value)),
            }
        };
        let valid_device = flags.bits & CommonNetworkRelativeLinkFlags::VALID_DEVICE != 0;
        let net_name_offset_unicode = if has_unicode {
            Some(u32_from_input(input, co + 20))
        } else {
            None
        };
        let device_name_offset_unicode = if has_unicode {
            Some(u32_from_input(input, co + 24))
        } else {
            None
        };
        let net_name = read_string_at(input, co, net_name_offset, size, false)?;
        let device_name = read_opt_string_at(input, co, valid_device, device_name_offset, size, false)?;
        let net_name_unicode = read_opt_string_at(
            input,
            co,
            has_unicode,
            if has_unicode { u32_from_input(input, co + 20) } else { 0 },
            size,
            true,
        )?;
        let device_name_unicode = read_opt_string_at(
            input,
            co,
            has_unicode && valid_device,
            if has_unicode { u32_from_input(input, co + 24) } else { 0 },
            size,
            true,
        )?;
        Ok(CommonNetworkRelativeLink {
            common_network_relative_link_size: size,
            common_network_relative_link_flags: flags,
            net_name_offset,
            device_name_offset,
            network_provider_type,
            net_name_offset_unicode,
            device_name_offset_unicode,
            net_name,
            device_name,
            net_name_unicode,
            device_name_unicode,
        })
    }
}

/// LinkInfoHeaderSize: whether the header holds the offsets of the Unicode paths.
#[derive(Debug, Copy, Clone, PartialEq, Eq, Hash, Ord, PartialOrd)]
pub enum LinkInfoHeaderSize {
    /// The header size is below 0x24: offsets to the Unicode paths are not specified.
    Unspecified(u32),
    /// The header size is 0x24 or more: offsets to the Unicode paths are specified.
    Specified(u32),
}

/// The information needed to resolve a link target that is no longer where the link
/// was made: its volume and local path, and/or its network share, and a common suffix.
#[derive(Debug, Clone, PartialEq, Eq, Hash, Ord, PartialOrd)]
pub struct LinkInfo {
    /// The size, in bytes, of the LinkInfo structure; every offset is below it.
    pub link_info_size: u32,
    pub link_info_size_header: LinkInfoHeaderSize,
    pub link_info_flags: LinkInfoFlags,
    pub volume_id_offset: u32,
    pub local_base_path_offset: u32,
    pub common_network_relative_link_offset: u32,
    pub common_path_suffix_offset: u32,
    /// Present when the header size is 0x24 or more.
    pub local_base_path_offset_unicode: Option<u32>,
    /// Present when the header size is 0x24 or more.
    pub common_path_suffix_offset_unicode: Option<u32>,
    /// Present when VolumeIDAndLocalBasePath is set.
    pub volume_id: Option<VolumeId>,
    /// Present when VolumeIDAndLocalBasePath is set.
    pub local_base_path: Option<String>,
    /// Present when CommonNetworkRelativeLinkAndPathSuffix is set.
    pub common_network_relative_link: Option<CommonNetworkRelativeLink>,
    pub common_path_suffix: String,
    /// Present when VolumeIDAndLocalBasePath is set and the header size is 0x24 or more.
    pub local_base_path_unicode: Option<String>,
    /// Present when the header size is 0x24 or more.
    pub common_path_suffix_unicode: Option<String>,
}

/// A LinkInfo with its strings as text and its parts as their views.
pub struct LinkInfoView {
    pub size: u32,
    pub header_size: u32,
    pub flags: u32,
    pub volume_id_offset: u32,
    pub local_base_path_offset: u32,
    pub common_network_relative_link_offset: u32,
    pub common_path_suffix_offset: u32,
    pub local_base_path_offset_unicode: Option<u32>,
    pub common_path_suffix_offset_unicode: Option<u32>,
    pub volume_id: Option<VolumeIdView>,
    pub local_base_path: Option<Seq<char>>,
    pub common_network_relative_link: Option<CommonNetworkRelativeLinkView>,
    pub common_path_suffix: Seq<char>,
    pub local_base_path_unicode: Option<Seq<char>>,
    pub common_path_suffix_unicode: Option<Seq<char>>,
}

pub open spec fn header_size_value(h: LinkInfoHeaderSize) -> u32 {
    match h {
        LinkInfoHeaderSize::Unspecified(v) => v,
        LinkInfoHeaderSize::Specified(v) => v,
    }
}

impl View for LinkInfo {
    type V = LinkInfoView;

    open spec fn view(&self) -> LinkInfoView {
        LinkInfoView {
            size: self.link_info_size,
            header_size: header_size_value(self.link_info_size_header),
            flags: self.link_info_flags.bits,
            volume_id_offset: self.volume_id_offset,
            local_base_path_offset: self.local_base_path_offset,
            common_network_relative_link_offset: self.common_network_relative_link_offset,
            common_path_suffix_offset: self.common_path_suffix_offset,
            local_base_path_offset_unicode: self.local_base_path_offset_unicode,
            common_path_suffix_offset_unicode: self.common_path_suffix_offset_unicode,
            volume_id: match self.volume_id {
                Some(v) => Some(v@),
                None => None,
            },
            local_base_path: opt_text(self.local_base_path),
            common_network_relative_link: match self.common_network_relative_link {
                Some(c) => Some(c@),
                None => None,
            },
            common_path_suffix: self.common_path_suffix@,
            local_base_path_unicode: opt_text(self.local_base_path_unicode),
            common_path_suffix_unicode: opt_text(self.common_path_suffix_unicode),
        }
    }
}

/// The optional VolumeID of a LinkInfo whose fixed fields `v` holds.
pub open spec fn opt_volume_id(s: Seq<u8>, v: LinkInfoView) -> Result<Option<VolumeIdView>, LinkInfoParseError> {
    if v.flags & LinkInfoFlags::VOLUME_ID_AND_LOCAL_BASE_PATH == 0 {
        Ok(None)
    } else {
        match volume_id_result(s, v.volume_id_offset, v.size) {
            Ok(x) => Ok(Some(x)),
            Err(e) => Err(e),
        }
    }
}

/// The optional CommonNetworkRelativeLink of a LinkInfo whose fixed fields `v` holds.
pub open spec fn opt_network_link(s: Seq<u8>, v: LinkInfoView) -> Result<
    Option<CommonNetworkRelativeLinkView>,
    LinkInfoParseError,
> {
    if v.flags & LinkInfoFlags::COMMON_NETWORK_RELATIVE_LINK_AND_PATH_SUFFIX == 0 {
        Ok(None)
    } else {
        match network_link_result(s, v.common_network_relative_link_offset, v.size) {
            Ok(x) => Ok(Some(x)),
            Err(e) => Err(e),
        }
    }
}

/// The parts of a LinkInfo whose fixed fields `v` holds, read in the order VolumeID,
/// LocalBasePath, LocalBasePathUnicode, CommonNetworkRelativeLink, CommonPathSuffix,
/// CommonPathSuffixUnicode; the first that fails gives the error.
pub open spec fn link_info_parts(s: Seq<u8>, v: LinkInfoView) -> Result<LinkInfoView, LinkInfoParseError> {
    let local = v.flags & LinkInfoFlags::VOLUME_ID_AND_LOCAL_BASE_PATH != 0;
    let ext = v.header_size >= 0x24;
    match opt_volume_id(s, v) {
        Err(e) => Err(e),
        Ok(volume_id) => match opt_string_at(s, 0, local, v.local_base_path_offset, v.size, false) {
            Err(e) => Err(e),
            Ok(local_base_path) => match opt_string_at(
                s,
                0,
                local && ext,
                v.local_base_path_offset_unicode->Some_0,
                v.size,
                true,
            ) {
                Err(e) => Err(e),
                Ok(local_base_path_unicode) => match opt_network_link(s, v) {
                    Err(e) => Err(e),
                    Ok(common_network_relative_link) => match string_at_offset(
                        s,
                        0,
                        v.common_path_suffix_offset,
                        v.size,
                        false,
                    ) {
                        Err(e) => Err(e),
                        Ok(common_path_suffix) => match opt_string_at(
                            s,
                            0,
                            ext,
                            v.common_path_suffix_offset_unicode->Some_0,
                            v.size,
                            true,
                        ) {
                            Err(e) => Err(e),
                            Ok(common_path_suffix_unicode) => Ok(
                                LinkInfoView {
                                    volume_id,
                                    local_base_path,
                                    local_base_path_unicode,
                                    common_network_relative_link,
                                    common_path_suffix,
                                    common_path_suffix_unicode,
                                    ..v
                                },
                            ),
                        },
                    },
                },
            },
        },
    }
}

/// The first offset of the LinkInfo header, in wire order, that is not below LinkInfoSize,
/// whether or not a flag says it is followed: the four fixed offsets, then the two Unicode
/// offsets when the header size is 0x24 or more.
pub open spec fn first_offset_out_of_bounds(s: Seq<u8>) -> Option<u32> {
    let size = u32_at(s, 0);
    let ext = u32_at(s, 4) >= 0x24;
    if u32_at(s, 12) >= size {
        Some(u32_at(s, 12))
    } else if u32_at(s, 16) >= size {
        Some(u32_at(s, 16))
    } else if u32_at(s, 20) >= size {
        Some(u32_at(s, 20))
    } else if u32_at(s, 24) >= size {
        Some(u32_at(s, 24))
    } else if ext && u32_at(s, 28) >= size {
        Some(u32_at(s, 28))
    } else if ext && u32_at(s, 32) >= size {
        Some(u32_at(s, 32))
    } else {
        None
    }
}

/// The LinkInfo that `s` starts with. Every offset of its header must be below
/// LinkInfoSize, whether or not a flag says it is followed.
#[verifier::opaque]
pub open spec fn link_info_result(s: Seq<u8>) -> Result<LinkInfoView, LinkInfoParseError> {
    if s.len() < 0x1C || u32_at(s, 0) > s.len() {
        Err(LinkInfoParseError::Truncated)
    } else if u32_at(s, 4) < 0x1C || u32_at(s, 4) > u32_at(s, 0) {
        Err(LinkInfoParseError::InvalidHeaderSize(u32_at(s, 4)))
    } else if u32_at(s, 8) & !LinkInfoFlags::ALL != 0 {
        Err(LinkInfoParseError::InvalidFlags(u32_at(s, 8)))
    } else if first_offset_out_of_bounds(s) is Some {
        Err(LinkInfoParseError::OffsetOutOfBounds(first_offset_out_of_bounds(s)->Some_0))
    } else {
        let ext = u32_at(s, 4) >= 0x24;
        link_info_parts(
            s,
            LinkInfoView {
                size: u32_at(s, 0),
                header_size: u32_at(s, 4),
                flags: u32_at(s, 8),
                volume_id_offset: u32_at(s, 12),
                local_base_path_offset: u32_at(s, 16),
                common_network_relative_link_offset: u32_at(s, 20),
                common_path_suffix_offset: u32_at(s, 24),
                local_base_path_offset_unicode: if ext { Some(u32_at(s, 28)) } else { None },
                common_path_suffix_offset_unicode: if ext { Some(u32_at(s, 32)) } else { None },
                volume_id: None,
                local_base_path: None,
                common_network_relative_link: None,
                common_path_suffix: Seq::empty(),
                local_base_path_unicode: None,
                common_path_suffix_unicode: None,
            },
        )
    }
}

impl LinkInfo {
    /// Decodes the LinkInfo that `input` starts with. Every offset is checked to lie within
    /// LinkInfoSize before it is used.
    pub fn try_from(input: &[u8]) -> (r: Result<Self, LinkInfoParseError>)
        ensures
            match r {
                Ok(l) => link_info_result(input@) == Ok::<LinkInfoView, LinkInfoParseError>(l@),
                Err(e) => link_info_result(input@) == Err::<LinkInfoView, LinkInfoParseError>(e),
            },
            r matches Ok(l) ==> input@.len() >= 0x1C && l.link_info_size == u32_at(input@, 0)
                && l.link_info_size <= input@.len(),
            r matches Ok(l) ==> l.link_info_size_header == if u32_at(input@, 4) >= 0x24 {
                LinkInfoHeaderSize::Specified(u32_at(input@, 4))
            } else {
                LinkInfoHeaderSize::Unspecified(u32_at(input@, 4))
            },
    {
        reveal(link_info_result);
        if input.len() < 0x1C {
            return Err(LinkInfoParseError::Truncated);
        }
        let size = u32_from_input(input, 0);
        if size as usize > input.len() {
            return Err(LinkInfoParseError::Truncated);
        }
        let header_size = u32_from_input(input, 4);
        if header_size < 0x1C || header_size > size {
            return Err(LinkInfoParseError::InvalidHeaderSize(header_size));
        }
        let flags = LinkInfoFlags { bits: u32_from_input(input, 8) };
        if flags.bits & !LinkInfoFlags::ALL != 0 {
            return Err(LinkInfoParseError::InvalidFlags(flags.bits));
        }

        let volume_id_offset = u32_from_input(input, 12);
        let local_base_path_offset = u32_from_input(input, 16);
        let common_network_relative_link_offset = u32_from_input(input, 20);
        let common_path_suffix_offset = u32_from_input(input, 24);
        let ext = header_size >= 0x24;
        if volume_id_offset >= size {
            return Err(LinkInfoParseError::OffsetOutOfBounds(volume_id_offset));
        }
        if local_base_path_offset >= size {
            return Err(LinkInfoParseError::OffsetOutOfBounds(local_base_path_offset));
        }
        if common_network_relative_link_offset >= size {
            return Err(LinkInfoParseError::OffsetOutOfBounds(common_network_relative_link_offset));
        }
        if common_path_suffix_offset >= size {
            return Err(LinkInfoParseError::OffsetOutOfBounds(common_path_suffix_offset));
        }
        if ext {
            let local_unicode = u32_from_input(input, 28);
            if local_unicode >= size {
                return Err(LinkInfoParseError::OffsetOutOfBounds(local_unicode));
            }
            let suffix_unicode = u32_from_input(input, 32);
            if suffix_unicode >= size {
                return Err(LinkInfoParseError::OffsetOutOfBounds(suffix_unicode));
            }
        }
        let local_base_path_offset_unicode = if ext {
            Some(u32_from_input(input, 28))
        } else {
            None
        };
        let common_path_suffix_offset_unicode = if ext {
            Some(u32_from_input(input, 32))
        } else {
            None
        };
        let local = flags.bits & LinkInfoFlags::VOLUME_ID_AND_LOCAL_BASE_PATH != 0;
        let volume_id = if local {
            Some(VolumeId::parse(input, volume_id_offset, size)?)
        } else {
            None
        };
        let local_base_path = read_opt_string_at(input, 0, local, local_base_path_offset, size, false)?;
        let local_base_path_unicode = read_opt_string_at(
            input,
            0,
            local && ext,
            if ext { u32_from_input(input, 28) } else { 0 },
            size,
            true,
        )?;
        let common_network_relative_link = if flags.bits & LinkInfoFlags::COMMON_NETWORK_RELATIVE_LINK_AND_PATH_SUFFIX != 0 {
            Some(CommonNetworkRelativeLink::parse(input, common_network_relative_link_offset, size)?)
        } else {
            None
        };
        let common_path_suffix = read_string_at(input, 0, common_path_suffix_offset, size, false)?;
        let common_path_suffix_unicode = read_opt_string_at(
            input,
            0,
            ext,
            if ext { u32_from_input(input, 32) } else { 0 },
            size,
            true,
        )?;
        let link_info_size_header = if ext {
            LinkInfoHeaderSize::Specified(header_size)
        } else {
            LinkInfoHeaderSize::Unspecified(header_size)
        };
        Ok(LinkInfo {
            link_info_size: size,
            link_info_size_header,
            link_info_flags: flags,
            volume_id_offset,
            local_base_path_offset,
            common_network_relative_link_offset,
            common_path_suffix_offset,
            local_base_path_offset_unicode,
            common_path_suffix_offset_unicode,
            volume_id,
            local_base_path,
            common_network_relative_link,
            common_path_suffix,
            local_base_path_unicode,
            common_path_suffix_unicode,
        })
    }
}

impl From<DriveType> for u32 {
    fn from(input: DriveType) -> u32 {
        input.to_u32()
    }
}

impl vstd::std_specs::convert::FromSpecImpl<DriveType> for u32 {
    open spec fn obeys_from_spec() -> bool {
        true
    }

    open spec fn from_spec(v: DriveType) -> u32 {
        drive_type_code(v)
    }
}

impl From<NetworkProviderType> for u32 {
    fn from(input: NetworkProviderType) -> u32 {
        input.to_u32()
    }
}

impl vstd::std_specs::convert::FromSpecImpl<NetworkProviderType> for u32 {
    open spec fn obeys_from_spec() -> bool {
        true
    }

    open spec fn from_spec(v: NetworkProviderType) -> u32 {
        network_provider_type_code(v)
    }
}

} // verus!
