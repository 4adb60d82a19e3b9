//! Little-endian integers and fixed-size byte arrays read out of a byte buffer.

use vstd::prelude::*;

verus! {

broadcast use vstd::array::group_array_axioms;

/// The `u16` stored little-endian in `s[i..i + 2]`.
pub open spec fn u16_le(s: Seq<u8>, i: int) -> u16 {
    (s[i] as int + 0x100 * (s[i + 1] as int)) as u16
}

/// The `u32` stored little-endian in `s[i..i + 4]`.
pub open spec fn u32_le(s: Seq<u8>, i: int) -> u32 {
    (s[i] as int + 0x100 * (s[i + 1] as int) + 0x1_0000 * (s[i + 2] as int) + 0x100_0000 * (
    s[i + 3] as int)) as u32
}

/// The array of `N` bytes whose contents are `s` (meaningful when `s.len() == N`).
pub open spec fn bytes_to_array<const N: usize>(s: Seq<u8>) -> [u8; N] {
    choose|a: [u8; N]| a@ == s
}

/// An array is the array of its own bytes.
pub proof fn lemma_bytes_to_array<const N: usize>(a: [u8; N])
    ensures
        bytes_to_array::<N>(a@) == a,
{
    let c = bytes_to_array::<N>(a@);
    assert(c@ == a@);
    assert(c =~= a);
}

/// Reads the little-endian `u16` at `data[off..off + 2]`.
pub fn read_u16_le(data: &[u8], off: usize) -> (r: u16)
    requires
        off + 2 <= data@.len(),
    ensures
        r == u16_le(data@, off as int),
{
    let b0 = data[off] as u16;
    let b1 = data[off + 1] as u16;
    b0 + 0x100 * b1
}

/// Reads the little-endian `u32` at `data[off..off + 4]`.
pub fn read_u32_le(data: &[u8], off: usize) -> (r: u32)
    requires
        off + 4 <= data@.len(),
    ensures
        r == u32_le(data@, off as int),
{
    let b0 = data[off] as u32;
    let b1 = data[off + 1] as u32;
    let b2 = data[off + 2] as u32;
    let b3 = data[off + 3] as u32;
    b0 + 0x100 * b1 + 0x1_0000 * b2 + 0x100_0000 * b3
}

/// Copies `data[off..off + N]` into an array.
pub fn read_array<const N: usize>(data: &[u8], off: usize) -> (r: [u8; N])
    requires
        off + N <= data@.len(),
    ensures
        r@ == data@.subrange(off as int, off + N),
        r == bytes_to_array::<N>(data@.subrange(off as int, off + N)),
{
    let mut a: [u8; N] = [0u8; N];
    let mut i: usize = 0;
    while i < N
        invariant
            i <= N,
            off + N <= data.len(),
            a@.len() == N,
            forall|j: int| 0 <= j < i ==> a@[j] == data@[off + j],
        decreases N - i,
    {
        a[i] = data[off + i];
        i = i + 1;
    }
    assert(a@ =~= data@.subrange(off as int, off + N));
    proof {
        lemma_bytes_to_array::<N>(a);
    }
    a
}

/// Copies `data[start..end]` into a new vector.
pub fn bytes_in(data: &[u8], start: usize, end: usize) -> (r: Vec<u8>)
    requires
        start <= end <= data@.len(),
    ensures
        r@ == data@.subrange(start as int, end as int),
{
    let mut v: Vec<u8> = Vec::new();
    let mut i: usize = start;
    while i < end
        invariant
            start <= i <= end,
            end <= data@.len(),
            v@ == data@.subrange(start as int, i as int),
        decreases end - i,
    {
        v.push(data[i]);
        i = i + 1;
        assert(v@ =~= data@.subrange(start as int, i as int));
    }
    v
}

} // verus!
