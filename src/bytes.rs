//! Little-endian integer readers over byte slices.
use vstd::prelude::*;

verus! {

/// The unsigned 16-bit little-endian value stored at `pos` in `s`.
pub open spec fn u16_at(s: Seq<u8>, pos: int) -> u16 {
    (s[pos] as int + 256 * s[pos + 1] as int) as u16
}

/// The unsigned 32-bit little-endian value stored at `pos` in `s`.
pub open spec fn u32_at(s: Seq<u8>, pos: int) -> u32 {
    (s[pos] as int + 0x100 * s[pos + 1] as int + 0x1_0000 * s[pos + 2] as int + 0x100_0000
        * s[pos + 3] as int) as u32
}

/// The signed 32-bit little-endian (two's complement) value stored at `pos` in `s`.
pub open spec fn i32_at(s: Seq<u8>, pos: int) -> i32 {
    u32_at(s, pos) as i32
}

/// The unsigned 64-bit little-endian value stored at `pos` in `s`.
pub open spec fn u64_at(s: Seq<u8>, pos: int) -> u64 {
    (u32_at(s, pos) as int + 0x1_0000_0000 * u32_at(s, pos + 4) as int) as u64
}

/// Reads the unsigned 16-bit little-endian value at `pos`.
pub fn u16_from_input(input: &[u8], pos: usize) -> (r: u16)
    requires
        pos + 2 <= input@.len(),
    ensures
        r == u16_at(input@, pos as int),
{
    let b0 = input[pos];
    let b1 = input[pos + 1];
    b0 as u16 + 256 * (b1 as u16)
}

/// Reads the unsigned 32-bit little-endian value at `pos`.
pub fn u32_from_input(input: &[u8], pos: usize) -> (r: u32)
    requires
        pos + 4 <= input@.len(),
    ensures
        r == u32_at(input@, pos as int),
{
    let b0 = input[pos];
    let b1 = input[pos + 1];
    let b2 = input[pos + 2];
    let b3 = input[pos + 3];
    b0 as u32 + 0x100 * (b1 as u32) + 0x1_0000 * (b2 as u32) + 0x100_0000 * (b3 as u32)
}

/// Reads the signed 32-bit little-endian value at `pos`.
pub fn i32_from_input(input: &[u8], pos: usize) -> (r: i32)
    requires
        pos + 4 <= input@.len(),
    ensures
        r == i32_at(input@, pos as int),
{
    u32_from_input(input, pos) as i32
}

/// Reads the unsigned 64-bit little-endian value at `pos`.
pub fn u64_from_input(input: &[u8], pos: usize) -> (r: u64)
    requires
        pos + 8 <= input@.len(),
    ensures
        r == u64_at(input@, pos as int),
{
    let low = u32_from_input(input, pos);
    assert(input.len() == input@.len());
    let high = u32_from_input(input, pos + 4);
    low as u64 + 0x1_0000_0000 * (high as u64)
}

} // verus!

verus! {

/// Copies the bytes of `input` in `[from, to)`.
pub fn copy_bytes(input: &[u8], from: usize, to: usize) -> (r: Vec<u8>)
    requires
        from <= to <= input@.len(),
    ensures
        r@ == input@.subrange(from as int, to as int),
{
    let mut out: Vec<u8> = Vec::new();
    let mut i: usize = from;
    while i < to
        invariant
            from <= i <= to <= input@.len(),
            out@ == input@.subrange(from as int, i as int),
        decreases to - i,
    {
        out.push(input[i]);
        i = i + 1;
        assert(out@ =~= input@.subrange(from as int, i as int));
    }
    out
}

} // verus!

verus! {

/// The unsigned 128-bit little-endian value stored at `pos` in `s`.
pub open spec fn u128_at(s: Seq<u8>, pos: int) -> u128 {
    (u64_at(s, pos) as int + 0x1_0000_0000_0000_0000 * u64_at(s, pos + 8) as int) as u128
}

/// The `n` unsigned 32-bit little-endian values stored from `pos`.
pub open spec fn u32_table(s: Seq<u8>, pos: int, n: int) -> Seq<u32> {
    Seq::new(n as nat, |i: int| u32_at(s, pos + 4 * i))
}

/// Reads the unsigned 128-bit little-endian value at `pos`.
pub fn u128_from_input(input: &[u8], pos: usize) -> (r: u128)
    requires
        pos + 16 <= input@.len(),
    ensures
        r == u128_at(input@, pos as int),
{
    assert(input.len() == input@.len());
    let low = u64_from_input(input, pos);
    let high = u64_from_input(input, pos + 8);
    low as u128 + 0x1_0000_0000_0000_0000 * (high as u128)
}

/// Reads `n` unsigned 32-bit little-endian values from `pos`.
pub fn u32_table_from_input(input: &[u8], pos: usize, n: usize) -> (r: Vec<u32>)
    requires
        pos + 4 * n <= input@.len(),
    ensures
        r@ == u32_table(input@, pos as int, n as int),
{
    let mut out: Vec<u32> = Vec::new();
    let mut i: usize = 0;
    while i < n
        invariant
            i <= n,
            pos + 4 * n <= input@.len(),
            out@ == u32_table(input@, pos as int, i as int),
        decreases n - i,
    {
        assert(input.len() == input@.len());
        out.push(u32_from_input(input, pos + 4 * i));
        i = i + 1;
        assert(out@ =~= u32_table(input@, pos as int, i as int));
    }
    out
}

} // verus!
