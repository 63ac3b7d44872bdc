//! A decoder for the Shell Link Binary File Format, the format of Windows shortcut (".LNK")
//! files. A shell link holds what is needed to reach another data object: the target's
//! attributes and times, its item ID list, where it was stored locally or on a network
//! share, command-line strings, and display settings.
//!
//! Every decoder is a pure function of an input byte slice: it returns an owned value or a
//! typed error, and checks every bound before it reads.
use vstd::prelude::*;

pub mod bytes;
pub mod error;
pub mod extra_data;
pub mod filetime;
pub mod id_list;
pub mod link_info;
pub mod shell_link_header;
pub mod string_data;
pub mod text;

use crate::bytes::{u16_at, u32_at};
use crate::extra_data::{extra_data_error, extra_data_blocks, same_block, blocks_then_terminator, lemma_blocks_then_terminator, lemma_extra_data_blocks_unique};
use crate::id_list::{items_view, parse_link_target_id_list};
use crate::link_info::{LinkInfoView, link_info_result};
use crate::shell_link_header::{HEADER_LEN, header_ok, header_fields, header_error, lemma_header_error_unique};
use crate::string_data::{section_fits, section_pos, section_field, field_value, string_present, is_unicode};

pub use crate::error::{
    ShellLinkParseError, ShellLinkHeaderParseError, LinkTargetIdListParseError, LinkInfoParseError,
    HotKeyFlagsParseError, StringDataParseError, ExtraDataParseError,
};
pub use crate::extra_data::{
    ExtraData, ConsoleDataBlock, ConsoleFeDataBlock, DarwinDataBlock, EnvironmentVariableDataBlock,
    IconEnvironmentDataBlock, KnownFolderDataBlock, PropertyStoreDataBlock, ShimDataBlock,
    SpecialFolderDataBlock, TrackerDataBlock, VistaAndAboveIdListDataBlock, CursorSize, FontFamily,
    FontWeight, FillAttributes,
};
pub use crate::filetime::{Timestamp, filetime_to_utc};
pub use crate::id_list::{IdList, ItemId, LinkTargetIdList};
pub use crate::link_info::{
    LinkInfo, LinkInfoHeaderSize, LinkInfoFlags, DriveType, NetworkProviderType, VolumeId,
    CommonNetworkRelativeLink, CommonNetworkRelativeLinkFlags,
};
pub use crate::shell_link_header::{
    ShellLinkHeader, LinkFlags, FileAttributes, ShowCmd, HotKey, HotKeyModifier, HotKeyFlags,
};
pub use crate::string_data::{StringData, StringDataSection};

verus! {

/// A decoded shell link: the header, then the structures that its flags announce.
#[derive(Debug, Clone, PartialEq, Eq, Hash, Ord, PartialOrd)]
pub struct ShellLink {
    pub header: ShellLinkHeader,
    /// Present when the header has HasLinkTargetIDList.
    pub link_target_id_list: Option<LinkTargetIdList>,
    /// Present when the header has HasLinkInfo.
    pub link_info: Option<LinkInfo>,
    /// The strings whose flags the header sets.
    pub string_data: StringDataSection,
    /// The extra data blocks of known signature, in order.
    pub extra_data: Vec<ExtraData>,
}

/// The LinkFlags of the header that `s` starts with.
pub open spec fn flags_of(s: Seq<u8>) -> u32 {
    u32_at(s, 20)
}

pub open spec fn has_flag(s: Seq<u8>, flag: u32) -> bool {
    flags_of(s) & flag == flag
}

/// The bytes of `s` from `pos` on.
pub open spec fn rest_of(s: Seq<u8>, pos: int) -> Seq<u8> {
    s.subrange(pos, s.len() as int)
}

/// Where the LinkTargetIDList, if any, ends.
pub open spec fn after_id_list(s: Seq<u8>) -> int {
    if has_flag(s, LinkFlags::HAS_LINK_TARGET_ID_LIST) {
        HEADER_LEN + 2 + u16_at(s, HEADER_LEN as int)
    } else {
        HEADER_LEN as int
    }
}

/// Where the LinkInfo, if any, ends.
pub open spec fn after_link_info(s: Seq<u8>) -> int {
    let p = after_id_list(s);
    if has_flag(s, LinkFlags::HAS_LINK_INFO) {
        p + u32_at(s, p)
    } else {
        p
    }
}

/// Where the StringData section ends.
pub open spec fn after_string_data(s: Seq<u8>) -> int {
    section_pos(s, after_link_info(s), flags_of(s), 5)
}

pub open spec fn id_list_ok(s: Seq<u8>) -> bool {
    has_flag(s, LinkFlags::HAS_LINK_TARGET_ID_LIST) ==> parse_link_target_id_list(
        rest_of(s, HEADER_LEN as int),
    ) is Ok
}

pub open spec fn link_info_ok(s: Seq<u8>) -> bool {
    has_flag(s, LinkFlags::HAS_LINK_INFO) ==> link_info_result(rest_of(s, after_id_list(s))) is Ok
}

/// `s` holds a valid shell link.
pub open spec fn shell_link_ok(s: Seq<u8>) -> bool {
    &&& header_ok(s)
    &&& id_list_ok(s)
    &&& link_info_ok(s)
    &&& section_fits(s, after_link_info(s), flags_of(s))
    &&& extra_data_error(s, after_string_data(s)) is None
}

/// `l` holds the structures of the valid shell link `s`.
pub open spec fn shell_link_fields(s: Seq<u8>, l: ShellLink) -> bool {
    &&& header_fields(s, l.header)
    &&& match l.link_target_id_list {
        None => !has_flag(s, LinkFlags::HAS_LINK_TARGET_ID_LIST),
        Some(t) => has_flag(s, LinkFlags::HAS_LINK_TARGET_ID_LIST) && parse_link_target_id_list(
            rest_of(s, HEADER_LEN as int),
        ) == Ok::<(u16, Seq<(u16, Seq<u8>)>), crate::error::LinkTargetIdListParseError>(
            (t.id_list_size, items_view(t.id_list.item_id_list@)),
        ),
    }
    &&& match l.link_info {
        None => !has_flag(s, LinkFlags::HAS_LINK_INFO),
        Some(i) => has_flag(s, LinkFlags::HAS_LINK_INFO) && link_info_result(
            rest_of(s, after_id_list(s)),
        ) == Ok::<LinkInfoView, crate::error::LinkInfoParseError>(i@),
    }
    &&& forall|i: int|
        0 <= i < 5 ==> #[trigger] field_value(
            s,
            section_pos(s, after_link_info(s), flags_of(s), i),
            string_present(flags_of(s), i),
            is_unicode(flags_of(s)),
            section_field(l.string_data, i),
        )
    &&& extra_data_blocks(s, after_string_data(s), l.extra_data@)
}

/// `e` is the error of the first structure of `s` that fails.
pub open spec fn shell_link_error(s: Seq<u8>, e: ShellLinkParseError) -> bool {
    match e {
        ShellLinkParseError::HeaderParseError(h) => header_error(s, h),
        ShellLinkParseError::IdListParseError(i) => header_ok(s) && has_flag(
            s,
            LinkFlags::HAS_LINK_TARGET_ID_LIST,
        ) && parse_link_target_id_list(rest_of(s, HEADER_LEN as int)) == Err::<
            (u16, Seq<(u16, Seq<u8>)>),
            crate::error::LinkTargetIdListParseError,
        >(i),
        ShellLinkParseError::LinkInfoParseError(i) => header_ok(s) && id_list_ok(s) && has_flag(
            s,
            LinkFlags::HAS_LINK_INFO,
        ) && link_info_result(rest_of(s, after_id_list(s))) == Err::<
            LinkInfoView,
            crate::error::LinkInfoParseError,
        >(i),
        ShellLinkParseError::StringDataParseError(_) => header_ok(s) && id_list_ok(s)
            && link_info_ok(s) && !section_fits(s, after_link_info(s), flags_of(s)),
        ShellLinkParseError::ExtraDataParseError(x) => {
            &&& header_ok(s) && id_list_ok(s) && link_info_ok(s)
            &&& section_fits(s, after_link_info(s), flags_of(s))
            &&& extra_data_error(s, after_string_data(s)) == Some(x)
        },
    }
}

impl ShellLink {
    /// Decodes a whole shell link: the header, then the LinkTargetIDList and LinkInfo if
    /// the header announces them, the StringData, and the ExtraData blocks. Stops at the
    /// first error.
    pub fn try_from(input: &[u8]) -> (r: Result<Self, ShellLinkParseError>)
        ensures
            r is Ok <==> shell_link_ok(input@),
            r matches Ok(l) ==> shell_link_fields(input@, l),
            r matches Err(e) ==> shell_link_error(input@, e),
            decode_outcome(input@, r),
    {
        let ghost s = input@;
        let len = input.len();
        let header = match ShellLinkHeader::try_from(input) {
            Ok(h) => h,
            Err(e) => return Err(ShellLinkParseError::HeaderParseError(e)),
        };
        let mut pos: usize = HEADER_LEN;
        let link_target_id_list = if header.link_flags.contains(LinkFlags::HAS_LINK_TARGET_ID_LIST) {
            let rest = &input[pos..len];
            assert(rest@ =~= rest_of(s, HEADER_LEN as int));
            match LinkTargetIdList::try_from(rest) {
                Ok(l) => {
                    assert(u16_at(rest@, 0) == u16_at(s, HEADER_LEN as int));
                    pos = pos + 2 + l.id_list_size as usize;
                    Some(l)
                },
                Err(e) => return Err(ShellLinkParseError::IdListParseError(e)),
            }
        } else {
            None
        };
        assert(pos == after_id_list(s));
        let link_info = if header.link_flags.contains(LinkFlags::HAS_LINK_INFO) {
            let rest = &input[pos..len];
            assert(rest@ =~= rest_of(s, pos as int));
            match LinkInfo::try_from(rest) {
                Ok(l) => {
                    assert(rest@[0] == s[pos as int] && rest@[1] == s[pos + 1] && rest@[2] == s[pos + 2]
                        && rest@[3] == s[pos + 3]);
                    assert(u32_at(rest@, 0) == u32_at(s, pos as int));
                    pos = pos + l.link_info_size as usize;
                    Some(l)
                },
                Err(e) => return Err(ShellLinkParseError::LinkInfoParseError(e)),
            }
        } else {
            None
        };
        assert(pos == after_link_info(s));
        let (string_data, next) = match StringDataSection::parse(input, pos, header.link_flags) {
            Ok(x) => x,
            Err(e) => return Err(ShellLinkParseError::StringDataParseError(e)),
        };
        let extra_data = match ExtraData::parse_all(input, next) {
            Ok(v) => v,
            Err(e) => return Err(ShellLinkParseError::ExtraDataParseError(e)),
        };
        Ok(ShellLink { header, link_target_id_list, link_info, string_data, extra_data })
    }
}

/// An optional LinkTargetIDList as its size and items.
pub open spec fn id_list_view(o: Option<LinkTargetIdList>) -> Option<(u16, Seq<(u16, Seq<u8>)>)> {
    match o {
        Some(t) => Some((t.id_list_size, items_view(t.id_list.item_id_list@))),
        None => None,
    }
}

/// An optional LinkInfo as its view.
pub open spec fn link_info_view(o: Option<LinkInfo>) -> Option<LinkInfoView> {
    match o {
        Some(i) => Some(i@),
        None => None,
    }
}

/// An optional counted string as its count and text.
pub open spec fn string_view(o: Option<crate::string_data::StringData>) -> Option<(u16, Seq<char>)> {
    match o {
        Some(d) => Some((d.count_characters, d.string@)),
        None => None,
    }
}

/// Two decoded links hold the same values: the same header, item ID list, LinkInfo,
/// strings and extra data blocks, strings compared as text.
pub open spec fn same_link(l1: ShellLink, l2: ShellLink) -> bool {
    &&& l1.header == l2.header
    &&& id_list_view(l1.link_target_id_list) == id_list_view(l2.link_target_id_list)
    &&& link_info_view(l1.link_info) == link_info_view(l2.link_info)
    &&& forall|i: int|
        0 <= i < 5 ==> string_view(#[trigger] section_field(l1.string_data, i)) == string_view(
            section_field(l2.string_data, i),
        )
    &&& l1.extra_data.len() == l2.extra_data.len()
    &&& forall|i: int|
        0 <= i < l1.extra_data.len() ==> same_block(#[trigger] l1.extra_data@[i], l2.extra_data@[i])
}

/// What `ShellLink::try_from` promises of its result `r` on the bytes `s`.
pub open spec fn decode_outcome(s: Seq<u8>, r: Result<ShellLink, ShellLinkParseError>) -> bool {
    &&& (r is Ok <==> shell_link_ok(s))
    &&& (r matches Ok(l) ==> shell_link_fields(s, l))
    &&& (r matches Err(e) ==> shell_link_error(s, e))
}

/// Two links decoded from the same bytes hold the same values.
pub proof fn lemma_decode_deterministic(s: Seq<u8>, l1: ShellLink, l2: ShellLink)
    requires
        shell_link_fields(s, l1),
        shell_link_fields(s, l2),
    ensures
        same_link(l1, l2),
{
    crate::shell_link_header::lemma_header_deterministic(s, l1.header, l2.header);
    lemma_extra_data_blocks_unique(s, after_string_data(s), l1.extra_data@, l2.extra_data@);
    assert forall|i: int|
        0 <= i < 5 implies string_view(#[trigger] section_field(l1.string_data, i)) == string_view(
            section_field(l2.string_data, i),
        ) by {
        let p = section_pos(s, after_link_info(s), flags_of(s), i);
        assert(field_value(s, p, string_present(flags_of(s), i), is_unicode(flags_of(s)), section_field(l1.string_data, i)));
        assert(field_value(s, p, string_present(flags_of(s), i), is_unicode(flags_of(s)), section_field(l2.string_data, i)));
    }
}

/// A link that fails to decode has exactly one error.
pub proof fn lemma_decode_error_unique(s: Seq<u8>, e1: ShellLinkParseError, e2: ShellLinkParseError)
    requires
        shell_link_error(s, e1),
        shell_link_error(s, e2),
    ensures
        e1 == e2,
{
    if let ShellLinkParseError::HeaderParseError(h1) = e1 {
        if let ShellLinkParseError::HeaderParseError(h2) = e2 {
            lemma_header_error_unique(s, h1, h2);
        } else {
            lemma_header_error_unique(s, h1, h1);
        }
    } else if let ShellLinkParseError::HeaderParseError(h2) = e2 {
        lemma_header_error_unique(s, h2, h2);
    }
}

/// Decoding is deterministic: two results that meet the contract of `ShellLink::try_from`
/// on the same bytes both succeed or both fail; failures carry the same error, and
/// successes hold the same values, strings compared as text.
pub proof fn lemma_decode_outcome_deterministic(
    s: Seq<u8>,
    r1: Result<ShellLink, ShellLinkParseError>,
    r2: Result<ShellLink, ShellLinkParseError>,
)
    requires
        decode_outcome(s, r1),
        decode_outcome(s, r2),
    ensures
        r1 is Ok <==> r2 is Ok,
        r1 is Err ==> r1 == r2,
        r1 matches Ok(l1) ==> (r2 matches Ok(l2) && same_link(l1, l2)),
{
    match (r1, r2) {
        (Ok(l1), Ok(l2)) => lemma_decode_deterministic(s, l1, l2),
        (Err(e1), Err(e2)) => lemma_decode_error_unique(s, e1, e2),
        _ => {},
    }
}

/// A link whose structures before the ExtraData section are valid, followed by any number
/// of well-formed blocks of known signature and then a block size below 4, decodes
/// successfully; its extra data are exactly those blocks, in wire order (strings compared
/// as text), and nothing after the terminator is read.
pub proof fn lemma_link_with_blocks_then_terminator(
    s: Seq<u8>,
    starts: Seq<int>,
    blocks: Seq<ExtraData>,
    l: ShellLink,
)
    requires
        header_ok(s),
        id_list_ok(s),
        link_info_ok(s),
        section_fits(s, after_link_info(s), flags_of(s)),
        blocks_then_terminator(s, starts, blocks),
        starts[0] == after_string_data(s),
    ensures
        shell_link_ok(s),
        shell_link_fields(s, l) ==> l.extra_data.len() == blocks.len() && forall|i: int|
            0 <= i < blocks.len() ==> same_block(#[trigger] l.extra_data@[i], blocks[i]),
{
    lemma_blocks_then_terminator(s, starts, blocks);
    if shell_link_fields(s, l) {
        lemma_extra_data_blocks_unique(s, after_string_data(s), l.extra_data@, blocks);
    }
}

} // verus!
