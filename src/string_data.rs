//! The StringData section: up to five counted strings, each present when its LinkFlags bit
//! is set.
use vstd::prelude::*;
use crate::bytes::{u16_at, u16_from_input};
use crate::text::{text_at, text_width, read_text};
use crate::shell_link_header::LinkFlags;
pub use crate::error::StringDataParseError;

verus! {

/// One counted string: a 2-byte character count, then that many characters, with no NUL.
#[derive(Debug, Clone, PartialEq, Eq, Hash, Ord, PartialOrd)]
pub struct StringData {
    /// The number of characters: code-page bytes, or UTF-16 code units.
    pub count_characters: u16,
    pub string: String,
}

/// The strings of the StringData section, in their order on the wire.
#[derive(Debug, Clone, PartialEq, Eq, Hash, Ord, PartialOrd)]
pub struct StringDataSection {
    /// A description of the shortcut (NAME_STRING).
    pub name: Option<StringData>,
    /// The target's location relative to the link file (RELATIVE_PATH).
    pub relative_path: Option<StringData>,
    /// The working directory of the target (WORKING_DIR).
    pub working_dir: Option<StringData>,
    /// The command-line arguments (COMMAND_LINE_ARGUMENTS).
    pub command_line_arguments: Option<StringData>,
    /// Where the icon is found (ICON_LOCATION).
    pub icon_location: Option<StringData>,
}

/// Where a string that starts at `p` ends; `p` itself if it is not present.
pub open spec fn field_end(s: Seq<u8>, p: int, present: bool, unicode: bool) -> int {
    if present {
        p + 2 + text_width(u16_at(s, p) as int, unicode)
    } else {
        p
    }
}

/// A string that starts at `p`, if present, fits in `s`.
pub open spec fn field_fits(s: Seq<u8>, p: int, present: bool, unicode: bool) -> bool {
    !present || (p + 2 <= s.len() && field_end(s, p, present, unicode) <= s.len())
}

/// `v` is the string that starts at `p`, or `None` when it is not present.
pub open spec fn field_value(s: Seq<u8>, p: int, present: bool, unicode: bool, v: Option<StringData>) -> bool {
    match v {
        None => !present,
        Some(d) => present && d.count_characters == u16_at(s, p) && d.string@ == text_at(
            s,
            p + 2,
            u16_at(s, p) as int,
            unicode,
        ),
    }
}

/// The flag bit of each string, in wire order.
pub open spec fn string_flag(i: int) -> u32 {
    if i == 0 {
        LinkFlags::HAS_NAME
    } else if i == 1 {
        LinkFlags::HAS_RELATIVE_PATH
    } else if i == 2 {
        LinkFlags::HAS_WORKING_DIR
    } else if i == 3 {
        LinkFlags::HAS_ARGUMENTS
    } else {
        LinkFlags::HAS_ICON_LOCATION
    }
}

pub open spec fn string_present(flags: u32, i: int) -> bool {
    flags & string_flag(i) == string_flag(i)
}

pub open spec fn is_unicode(flags: u32) -> bool {
    flags & LinkFlags::IS_UNICODE == LinkFlags::IS_UNICODE
}

/// Where the first `i` strings of the section that starts at `pos` end.
pub open spec fn section_pos(s: Seq<u8>, pos: int, flags: u32, i: int) -> int
    decreases i,
{
    if i <= 0 {
        pos
    } else {
        let p = section_pos(s, pos, flags, i - 1);
        field_end(s, p, string_present(flags, i - 1), is_unicode(flags))
    }
}

/// Every string of the section that starts at `pos` fits in `s`.
pub open spec fn section_fits(s: Seq<u8>, pos: int, flags: u32) -> bool {
    forall|i: int|
        0 <= i < 5 ==> #[trigger] field_fits(
            s,
            section_pos(s, pos, flags, i),
            string_present(flags, i),
            is_unicode(flags),
        )
}

/// String `i` of a section.
pub open spec fn section_field(d: StringDataSection, i: int) -> Option<StringData> {
    if i == 0 {
        d.name
    } else if i == 1 {
        d.relative_path
    } else if i == 2 {
        d.working_dir
    } else if i == 3 {
        d.command_line_arguments
    } else {
        d.icon_location
    }
}

impl StringData {
    /// Decodes the counted string at `pos`; returns it and where it ends.
    pub fn parse(input: &[u8], pos: usize, unicode: bool) -> (r: Result<(Self, usize), StringDataParseError>)
        requires
            pos <= input@.len(),
        ensures
            r is Ok <==> field_fits(input@, pos as int, true, unicode),
            r matches Ok((d, next)) ==> field_value(input@, pos as int, true, unicode, Some(d))
                && next == field_end(input@, pos as int, true, unicode),
    {
        if input.len() - pos < 2 {
            return Err(StringDataParseError::Truncated);
        }
        let count = u16_from_input(input, pos);
        let width: usize = if unicode {
            2 * count as usize
        } else {
            count as usize
        };
        if width > input.len() - pos - 2 {
            return Err(StringDataParseError::Truncated);
        }
        let string = read_text(input, pos + 2, count as usize, unicode);
        Ok((StringData { count_characters: count, string }, pos + 2 + width))
    }
}

/// Decodes the string at `pos` if `present`.
fn parse_field(input: &[u8], pos: usize, present: bool, unicode: bool) -> (r: Result<(Option<StringData>, usize), StringDataParseError>)
    requires
        pos <= input@.len(),
    ensures
        r is Ok <==> field_fits(input@, pos as int, present, unicode),
        r matches Ok((v, next)) ==> field_value(input@, pos as int, present, unicode, v)
            && next == field_end(input@, pos as int, present, unicode) && next <= input@.len(),
{
    if !present {
        return Ok((None, pos));
    }
    let (d, next) = StringData::parse(input, pos, unicode)?;
    Ok((Some(d), next))
}

impl StringDataSection {
    /// Decodes the StringData section at `pos`: the strings whose bits `link_flags` sets,
    /// in wire order, in UTF-16 if it sets IsUnicode. Returns them and where they end.
    pub fn parse(input: &[u8], pos: usize, link_flags: LinkFlags) -> (r: Result<(Self, usize), StringDataParseError>)
        requires
            pos <= input@.len(),
        ensures
            r is Ok <==> section_fits(input@, pos as int, link_flags.bits),
            r matches Ok((d, next)) ==> {
                &&& next == section_pos(input@, pos as int, link_flags.bits, 5)
                &&& next <= input@.len()
                &&& forall|i: int|
                    0 <= i < 5 ==> #[trigger] field_value(
                        input@,
                        section_pos(input@, pos as int, link_flags.bits, i),
                        string_present(link_flags.bits, i),
                        is_unicode(link_flags.bits),
                        section_field(d, i),
                    )
            },
    {
        let ghost s = input@;
        let ghost f = link_flags.bits;
        let unicode = link_flags.contains(LinkFlags::IS_UNICODE);
        proof {
            reveal_with_fuel(section_pos, 6);
        }
        let (name, after_name) = match parse_field(input, pos, link_flags.contains(LinkFlags::HAS_NAME), unicode) {
            Ok(x) => x,
            Err(e) => {
                assert(!field_fits(s, section_pos(s, pos as int, f, 0), string_present(f, 0), is_unicode(f)));
                assert(!section_fits(s, pos as int, f));
                return Err(e);
            },
        };
        let (relative_path, after_relative_path) = match parse_field(input, after_name, link_flags.contains(LinkFlags::HAS_RELATIVE_PATH), unicode) {
            Ok(x) => x,
            Err(e) => {
                assert(!field_fits(s, section_pos(s, pos as int, f, 1), string_present(f, 1), is_unicode(f)));
                assert(!section_fits(s, pos as int, f));
                return Err(e);
            },
        };
        let (working_dir, after_working_dir) = match parse_field(input, after_relative_path, link_flags.contains(LinkFlags::HAS_WORKING_DIR), unicode) {
            Ok(x) => x,
            Err(e) => {
                assert(!field_fits(s, section_pos(s, pos as int, f, 2), string_present(f, 2), is_unicode(f)));
                assert(!section_fits(s, pos as int, f));
                return Err(e);
            },
        };
        let (command_line_arguments, after_arguments) = match parse_field(input, after_working_dir, link_flags.contains(LinkFlags::HAS_ARGUMENTS), unicode) {
            Ok(x) => x,
            Err(e) => {
                assert(!field_fits(s, section_pos(s, pos as int, f, 3), string_present(f, 3), is_unicode(f)));
                assert(!section_fits(s, pos as int, f));
                return Err(e);
            },
        };
        let (icon_location, end) = match parse_field(input, after_arguments, link_flags.contains(LinkFlags::HAS_ICON_LOCATION), unicode) {
            Ok(x) => x,
            Err(e) => {
                assert(!field_fits(s, section_pos(s, pos as int, f, 4), string_present(f, 4), is_unicode(f)));
                assert(!section_fits(s, pos as int, f));
                return Err(e);
            },
        };
        let d = StringDataSection { name, relative_path, working_dir, command_line_arguments, icon_location };
        proof {
            assert forall|i: int| 0 <= i < 5 implies #[trigger] field_fits(
                s,
                section_pos(s, pos as int, f, i),
                string_present(f, i),
                unicode,
            ) by {
                if i == 0 {} else if i == 1 {} else if i == 2 {} else if i == 3 {} else {}
            }
            assert forall|i: int| 0 <= i < 5 implies #[trigger] field_value(
                s,
                section_pos(s, pos as int, f, i),
                string_present(f, i),
                unicode,
                section_field(d, i),
            ) by {
                if i == 0 {} else if i == 1 {} else if i == 2 {} else if i == 3 {} else {}
            }
        }
        Ok((d, end))
    }
}

} // verus!
