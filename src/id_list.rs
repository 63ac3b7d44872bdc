//! The LinkTargetIDList structure: a size-prefixed sequence of opaque ItemID records.
use vstd::prelude::*;
use crate::bytes::{u16_at, u16_from_input, copy_bytes};
pub use crate::error::LinkTargetIdListParseError;

verus! {

/// An ItemID: one element of an IDList, whose data is defined by the shell namespace of the
/// ItemIDs before it.
#[derive(Debug, Clone, PartialEq, Eq, Hash, Ord, PartialOrd)]
pub struct ItemId {
    /// The size, in bytes, of the ItemID structure, including the ItemIDSize field.
    pub item_id_size: u16,
    /// The shell data source-defined data that specifies an item.
    pub data: Vec<u8>,
}

/// A stored IDList: ItemIDs, outermost first. The terminal ItemID is not kept.
#[derive(Debug, Clone, PartialEq, Eq, Hash, Ord, PartialOrd)]
pub struct IdList {
    pub item_id_list: Vec<ItemId>,
}

/// The target of the link, present when the header has HasLinkTargetIDList.
#[derive(Debug, Clone, PartialEq, Eq, Hash, Ord, PartialOrd)]
pub struct LinkTargetIdList {
    /// The size, in bytes, of the IDList field.
    pub id_list_size: u16,
    pub id_list: IdList,
}

/// An ItemID as its size and data.
pub open spec fn item_view(i: ItemId) -> (u16, Seq<u8>) {
    (i.item_id_size, i.data@)
}

/// ItemIDs as their sizes and data.
pub open spec fn items_view(v: Seq<ItemId>) -> Seq<(u16, Seq<u8>)> {
    v.map_values(|i: ItemId| item_view(i))
}

/// The ItemIDs stored in `s` from `pos` up to the terminal ItemID, all inside `[pos, end)`.
/// Each record is a 2-byte size, counting itself, and `size - 2` bytes of data; a size of 0
/// ends the list, and a size of 1 is a truncated record.
pub open spec fn parse_items(s: Seq<u8>, pos: int, end: int) -> Result<
    Seq<(u16, Seq<u8>)>,
    LinkTargetIdListParseError,
>
    decreases end - pos,
{
    if pos + 2 > end {
        Err(LinkTargetIdListParseError::Truncated)
    } else {
        let size = u16_at(s, pos);
        if size == 0 {
            Ok(seq![])
        } else if size < 2 {
            Err(LinkTargetIdListParseError::Truncated)
        } else if pos + size > end {
            Err(LinkTargetIdListParseError::ItemIdExceedsBound(size))
        } else {
            match parse_items(s, pos + size, end) {
                Ok(rest) => Ok(seq![(size, s.subrange(pos + 2, pos + size))] + rest),
                Err(e) => Err(e),
            }
        }
    }
}

/// The LinkTargetIDList that `s` starts with: its IDListSize and its ItemIDs.
pub open spec fn parse_link_target_id_list(s: Seq<u8>) -> Result<
    (u16, Seq<(u16, Seq<u8>)>),
    LinkTargetIdListParseError,
> {
    if s.len() < 2 {
        Err(LinkTargetIdListParseError::Truncated)
    } else if 2 + u16_at(s, 0) > s.len() {
        Err(LinkTargetIdListParseError::Truncated)
    } else {
        match parse_items(s, 2, 2 + u16_at(s, 0)) {
            Ok(items) => Ok((u16_at(s, 0), items)),
            Err(e) => Err(e),
        }
    }
}

impl IdList {
    /// Decodes the IDList that starts at `start` and must end by `end`.
    pub fn parse(input: &[u8], start: usize, end: usize) -> (r: Result<Self, LinkTargetIdListParseError>)
        requires
            start <= end <= input@.len(),
        ensures
            match r {
                Ok(l) => parse_items(input@, start as int, end as int) == Ok::<
                    Seq<(u16, Seq<u8>)>,
                    LinkTargetIdListParseError,
                >(items_view(l.item_id_list@)),
                Err(e) => parse_items(input@, start as int, end as int) == Err::<
                    Seq<(u16, Seq<u8>)>,
                    LinkTargetIdListParseError,
                >(e),
            },
    {
        let mut items: Vec<ItemId> = Vec::new();
        let mut pos: usize = start;
        loop
            invariant
                start <= pos <= end <= input@.len(),
                parse_items(input@, start as int, end as int) == match parse_items(
                    input@,
                    pos as int,
                    end as int,
                ) {
                    Ok(rest) => Ok(items_view(items@) + rest),
                    Err(e) => Err(e),
                },
            decreases end - pos,
        {
            if end - pos < 2 {
                return Err(LinkTargetIdListParseError::Truncated);
            }
            let size = u16_from_input(input, pos);
            if size == 0 {
                assert(items_view(items@) + seq![] =~= items_view(items@));
                return Ok(IdList { item_id_list: items });
            }
            if size < 2 {
                return Err(LinkTargetIdListParseError::Truncated);
            }
            if size as usize > end - pos {
                return Err(LinkTargetIdListParseError::ItemIdExceedsBound(size));
            }
            let data = copy_bytes(input, pos + 2, pos + size as usize);
            let ghost old_items = items@;
            let item = ItemId { item_id_size: size, data };
            items.push(item);
            proof {
                let x = (size, input@.subrange(pos + 2, pos + size));
                assert(items_view(items@) =~= items_view(old_items).push(x));
                assert forall|rest: Seq<(u16, Seq<u8>)>|
                    items_view(old_items) + (seq![x] + rest) =~= items_view(items@) + rest by {}
            }
            pos = pos + size as usize;
        }
    }
}

impl LinkTargetIdList {
    /// Decodes the LinkTargetIDList that `input` starts with: a 2-byte IDListSize, then an
    /// IDList that must fit in that many bytes.
    pub fn try_from(input: &[u8]) -> (r: Result<Self, LinkTargetIdListParseError>)
        ensures
            match r {
                Ok(l) => parse_link_target_id_list(input@) == Ok::<
                    (u16, Seq<(u16, Seq<u8>)>),
                    LinkTargetIdListParseError,
                >((l.id_list_size, items_view(l.id_list.item_id_list@))),
                Err(e) => parse_link_target_id_list(input@) == Err::<
                    (u16, Seq<(u16, Seq<u8>)>),
                    LinkTargetIdListParseError,
                >(e),
            },
    {
        if input.len() < 2 {
            return Err(LinkTargetIdListParseError::Truncated);
        }
        let id_list_size = u16_from_input(input, 0);
        if id_list_size as usize > input.len() - 2 {
            return Err(LinkTargetIdListParseError::Truncated);
        }
        let id_list = IdList::parse(input, 2, 2 + id_list_size as usize)?;
        Ok(LinkTargetIdList { id_list_size, id_list })
    }
}

} // verus!
