//! Strings stored in a shell link: counted or NUL-terminated, in the system code page
//! ("ANSI") or in UTF-16 ("Unicode").
use vstd::prelude::*;
use crate::bytes::{u16_at, u16_from_input, copy_bytes};

verus! {

/// The text of code-page bytes, decoded as UTF-8 with invalid sequences replaced.
pub uninterp spec fn ansi_text(b: Seq<u8>) -> Seq<char>;

/// The text of UTF-16 code units, with unpaired surrogates replaced.
pub uninterp spec fn unicode_text(u: Seq<u16>) -> Seq<char>;

/// Relies on `String::from_utf8_lossy`: the text depends on the bytes alone.
#[verifier::external_body]
fn ansi_string(b: &[u8]) -> (r: String)
    ensures
        r@ == ansi_text(b@),
{
    String::from_utf8_lossy(b).into_owned()
}

/// Relies on `String::from_utf16_lossy`: the text depends on the code units alone.
#[verifier::external_body]
fn unicode_string(u: &[u16]) -> (r: String)
    ensures
        r@ == unicode_text(u@),
{
    String::from_utf16_lossy(u)
}

/// The `count` little-endian UTF-16 code units stored from `pos`.
pub open spec fn units_at(s: Seq<u8>, pos: int, count: int) -> Seq<u16> {
    Seq::new(count as nat, |i: int| u16_at(s, pos + 2 * i))
}

/// The text of `count` characters stored from `pos`: one byte each, or two if `unicode`.
pub open spec fn text_at(s: Seq<u8>, pos: int, count: int, unicode: bool) -> Seq<char> {
    if unicode {
        unicode_text(units_at(s, pos, count))
    } else {
        ansi_text(s.subrange(pos, pos + count))
    }
}

/// The bytes taken by `count` characters.
pub open spec fn text_width(count: int, unicode: bool) -> int {
    if unicode {
        2 * count
    } else {
        count
    }
}

/// Reads `count` little-endian code units from `pos`.
fn read_units(input: &[u8], pos: usize, count: usize) -> (r: Vec<u16>)
    requires
        pos + 2 * count <= input@.len(),
    ensures
        r@ == units_at(input@, pos as int, count as int),
{
    let mut out: Vec<u16> = Vec::new();
    let mut i: usize = 0;
    while i < count
        invariant
            i <= count,
            pos + 2 * count <= input@.len(),
            out@ == units_at(input@, pos as int, i as int),
        decreases count - i,
    {
        assert(input.len() == input@.len());
        out.push(u16_from_input(input, pos + 2 * i));
        i = i + 1;
        assert(out@ =~= units_at(input@, pos as int, i as int));
    }
    out
}

/// Decodes `count` characters stored from `pos`.
pub fn read_text(input: &[u8], pos: usize, count: usize, unicode: bool) -> (r: String)
    requires
        pos + text_width(count as int, unicode) <= input@.len(),
    ensures
        r@ == text_at(input@, pos as int, count as int, unicode),
{
    assert(input.len() == input@.len());
    if unicode {
        let units = read_units(input, pos, count);
        unicode_string(units.as_slice())
    } else {
        let bytes = copy_bytes(input, pos, pos + count);
        ansi_string(bytes.as_slice())
    }
}

/// The number of characters before the first NUL in `[pos, end)`: bytes, or two-byte
/// code units if `unicode`. `None` when no NUL fits before `end`.
pub open spec fn nul_terminated_len(s: Seq<u8>, pos: int, end: int, unicode: bool) -> Option<int> {
    let w = if unicode { 2int } else { 1int };
    if exists|n: int|
        #![trigger char_at(s, pos, n, unicode)]
        0 <= n && pos + w * (n + 1) <= end && char_at(s, pos, n, unicode) == 0 {
        Some(
            choose|n: int|
                #![trigger char_at(s, pos, n, unicode)]
                0 <= n && pos + w * (n + 1) <= end && char_at(s, pos, n, unicode) == 0 && forall|
                    k: int,
                | #![trigger char_at(s, pos, k, unicode)] 0 <= k < n ==> char_at(s, pos, k, unicode) != 0,
        )
    } else {
        None
    }
}

/// Character `n` stored from `pos`: a byte, or a two-byte code unit if `unicode`.
pub open spec fn char_at(s: Seq<u8>, pos: int, n: int, unicode: bool) -> int {
    if unicode {
        u16_at(s, pos + 2 * n) as int
    } else {
        s[pos + n] as int
    }
}

/// The NUL-terminated string stored from `pos` that must end before `end`: `None` when no
/// NUL is found there; else the text before the NUL.
pub open spec fn nul_terminated_text(s: Seq<u8>, pos: int, end: int, unicode: bool) -> Option<Seq<char>> {
    match nul_terminated_len(s, pos, end, unicode) {
        Some(n) => Some(text_at(s, pos, n, unicode)),
        None => None,
    }
}

/// Decodes the NUL-terminated string stored from `pos`, which must end before `end`.
pub fn read_nul_terminated(input: &[u8], pos: usize, end: usize, unicode: bool) -> (r: Option<String>)
    requires
        pos <= end <= input@.len(),
    ensures
        match r {
            Some(t) => nul_terminated_text(input@, pos as int, end as int, unicode) == Some(t@),
            None => nul_terminated_text(input@, pos as int, end as int, unicode) is None,
        },
{
    let w: usize = if unicode { 2 } else { 1 };
    let ghost s = input@;
    let mut n: usize = 0;
    while end - pos - w * n >= w
        invariant
            pos <= end <= input@.len(),
            s == input@,
            w == if unicode { 2usize } else { 1usize },
            w * n <= end - pos,
            forall|k: int| #![trigger char_at(s, pos as int, k, unicode)]
                0 <= k < n ==> char_at(s, pos as int, k, unicode) != 0,
        decreases end - pos - w * n,
    {
        let c: u16 = if unicode {
            u16_from_input(input, pos + 2 * n)
        } else {
            input[pos + n] as u16
        };
        assert(pos + w * (n + 1) <= end) by (nonlinear_arith)
            requires w * n + w <= end - pos, pos <= end;
        assert(c as int == char_at(s, pos as int, n as int, unicode));
        if c == 0 {
            proof {
                let nn = n as int;
                assert(0 <= nn && pos + w * (nn + 1) <= end && char_at(s, pos as int, nn, unicode) == 0);
                let m = nul_terminated_len(s, pos as int, end as int, unicode)->Some_0;
                assert(m == nn) by {
                    let ww = if unicode { 2int } else { 1int };
                    let c = choose|n: int|
                        #![trigger char_at(s, pos as int, n, unicode)]
                        0 <= n && pos + ww * (n + 1) <= end && char_at(s, pos as int, n, unicode) == 0 && forall|
                            k: int,
                        | #![trigger char_at(s, pos as int, k, unicode)] 0 <= k < n ==> char_at(s, pos as int, k, unicode) != 0;
                    assert(0 <= nn && pos + ww * (nn + 1) <= end && char_at(s, pos as int, nn, unicode) == 0 && forall|
                            k: int,
                        | #![trigger char_at(s, pos as int, k, unicode)] 0 <= k < nn ==> char_at(s, pos as int, k, unicode) != 0);
                    if c < nn {
                        assert(char_at(s, pos as int, c, unicode) != 0);
                    } else if c > nn {
                        assert(char_at(s, pos as int, nn, unicode) != 0);
                    }
                }
            }
            return Some(read_text(input, pos, n, unicode));
        }
        n = n + 1;
    }
    proof {
        let ww = if unicode { 2int } else { 1int };
        assert forall|m: int|
            #![trigger char_at(s, pos as int, m, unicode)]
            0 <= m && pos + ww * (m + 1) <= end implies char_at(s, pos as int, m, unicode) != 0 by {
            if m >= n {
                assert(ww * (m + 1) >= ww * (n + 1)) by (nonlinear_arith)
                    requires m >= n, ww >= 1;
            }
        }
    }
    None
}

/// The text of a fixed field of `n` characters from `pos`: up to its first NUL, or all of
/// it when it has none.
pub open spec fn fixed_text(s: Seq<u8>, pos: int, n: int, unicode: bool) -> Seq<char> {
    match nul_terminated_len(s, pos, pos + text_width(n, unicode), unicode) {
        Some(k) => text_at(s, pos, k, unicode),
        None => text_at(s, pos, n, unicode),
    }
}

/// Decodes a fixed field of `n` characters from `pos`.
pub fn read_fixed_text(input: &[u8], pos: usize, n: usize, unicode: bool) -> (r: String)
    requires
        pos + text_width(n as int, unicode) <= input@.len(),
    ensures
        r@ == fixed_text(input@, pos as int, n as int, unicode),
{
    assert(input.len() == input@.len());
    let end = if unicode {
        pos + 2 * n
    } else {
        pos + n
    };
    match read_nul_terminated(input, pos, end, unicode) {
        Some(t) => t,
        None => read_text(input, pos, n, unicode),
    }
}

} // verus!
