//! The magic that starts a preloader image, the header offsets around it, and
//! the search for it in a larger buffer.

use vstd::prelude::*;

use crate::le_bytes::bytes_in;

verus! {

pub const MTKPL_LOAD_ADDRESS_OFFSET: u64 = 0x1C;

pub const MTKPL_ENTRY_POINT_OFFSET: u64 = 0x28;

pub const MTKPL_BIN_SIZE_OFFSET: u64 = 0x20;

pub const MTKPL_ADDRESS_WIDTH: u64 = 0x4;

/// One field of the fixed preloader header: its name, where it starts, how
/// many bytes it takes, and whether it is a little-endian integer (otherwise
/// it is a run of bytes).
#[derive(Debug, Clone, Copy, PartialEq, Eq)]
pub struct HeaderMember {
    pub name: &'static str,
    pub offset: u64,
    pub size: u64,
    pub is_integer: bool,
}

/// The member `m` is named `name`, starts at `offset`, takes `size` bytes and
/// is an integer when `is_integer`.
pub open spec fn member_is(
    m: HeaderMember,
    name: Seq<char>,
    offset: u64,
    size: u64,
    is_integer: bool,
) -> bool {
    m.name@ == name && m.offset == offset && m.size == size && m.is_integer == is_integer
}

fn member(name: &'static str, offset: u64, size: u64, is_integer: bool) -> (r: HeaderMember)
    ensures
        member_is(r, name@, offset, size, is_integer),
{
    HeaderMember { name, offset, size, is_integer }
}

/// The fields of the fixed preloader header, in order: the magic, 0x18
/// unknown bytes, the load address, the size, 4 unknown bytes, the entry
/// point offset and the EMI data length. They lie end to end from offset 0,
/// and the load address, size and entry point offset stand at the offsets
/// that the loaders read them from.
pub fn mtkpl_header_members() -> (r: Vec<HeaderMember>)
    ensures
        r@.len() == 7,
        member_is(r@[0], "magic"@, 0, 4, true),
        member_is(r@[1], "unk0"@, 4, 0x18, false),
        member_is(r@[2], "load_addr"@, MTKPL_LOAD_ADDRESS_OFFSET, MTKPL_ADDRESS_WIDTH, true),
        member_is(r@[3], "size"@, MTKPL_BIN_SIZE_OFFSET, MTKPL_ADDRESS_WIDTH, true),
        member_is(r@[4], "unk1"@, 0x24, 4, false),
        member_is(r@[5], "entry_offset"@, MTKPL_ENTRY_POINT_OFFSET, MTKPL_ADDRESS_WIDTH, true),
        member_is(r@[6], "emi_data_len"@, 0x2C, 4, true),
        r@[0].offset == 0,
        forall|i: int| 0 <= i < 6 ==> #[trigger] r@[i + 1].offset == r@[i].offset + r@[i].size,
{
    let mut r: Vec<HeaderMember> = Vec::new();
    r.push(member("magic", 0, 4, true));
    r.push(member("unk0", 4, 0x18, false));
    r.push(member("load_addr", MTKPL_LOAD_ADDRESS_OFFSET, MTKPL_ADDRESS_WIDTH, true));
    r.push(member("size", MTKPL_BIN_SIZE_OFFSET, MTKPL_ADDRESS_WIDTH, true));
    r.push(member("unk1", 0x24, 4, false));
    r.push(member("entry_offset", MTKPL_ENTRY_POINT_OFFSET, MTKPL_ADDRESS_WIDTH, true));
    r.push(member("emi_data_len", 0x2C, 4, true));
    assert forall|i: int| 0 <= i < 6 implies #[trigger] r@[i + 1].offset == r@[i].offset
        + r@[i].size by {
        assert(0 <= i < 6);
    }
    r
}

/// The eight bytes that start a preloader image: `4D 4D 4D 01 38 00 00 00`.
pub open spec fn mtkpl_magic_seq() -> Seq<u8> {
    seq![0x4Du8, 0x4Du8, 0x4Du8, 0x01u8, 0x38u8, 0x00u8, 0x00u8, 0x00u8]
}

/// The preloader magic, `4D 4D 4D 01 38 00 00 00`.
pub fn mtkpl_magic() -> (r: [u8; 8])
    ensures
        r@ == mtkpl_magic_seq(),
{
    let r: [u8; 8] = [0x4D, 0x4D, 0x4D, 0x01, 0x38, 0x00, 0x00, 0x00];
    assert(r@ =~= mtkpl_magic_seq());
    r
}

/// `needle` stands in `hs` at index `i`.
pub open spec fn window_matches(hs: Seq<u8>, needle: Seq<u8>, i: int) -> bool {
    &&& 0 <= i
    &&& i + needle.len() <= hs.len()
    &&& hs.subrange(i, i + needle.len()) == needle
}

/// The first index at or after `i` where `needle` stands in `hs`.
pub open spec fn first_match_from(hs: Seq<u8>, needle: Seq<u8>, i: int) -> Option<int>
    decreases hs.len() - i,
{
    if i < 0 || i >= hs.len() || i + needle.len() > hs.len() {
        None
    } else if window_matches(hs, needle, i) {
        Some(i)
    } else {
        first_match_from(hs, needle, i + 1)
    }
}

/// The first index where `needle` stands in `hs`.
pub open spec fn first_match(hs: Seq<u8>, needle: Seq<u8>) -> Option<int> {
    first_match_from(hs, needle, 0)
}

/// What `first_match` finds is the first occurrence of a non-empty needle, and
/// when it finds nothing the needle occurs nowhere.
pub proof fn lemma_first_match_is_first(hs: Seq<u8>, needle: Seq<u8>)
    requires
        needle.len() > 0,
    ensures
        first_match(hs, needle) matches Some(i) ==> window_matches(hs, needle, i) && forall|j: int|
            0 <= j < i ==> !window_matches(hs, needle, j),
        first_match(hs, needle) is None ==> forall|j: int| !window_matches(hs, needle, j),
{
    lemma_first_match_from(hs, needle, 0);
}

proof fn lemma_first_match_from(hs: Seq<u8>, needle: Seq<u8>, i: int)
    requires
        needle.len() > 0,
        0 <= i,
    ensures
        first_match_from(hs, needle, i) matches Some(k) ==> i <= k && window_matches(hs, needle, k)
            && forall|j: int| i <= j < k ==> !window_matches(hs, needle, j),
        first_match_from(hs, needle, i) is None ==> forall|j: int|
            i <= j ==> !window_matches(hs, needle, j),
    decreases hs.len() - i,
{
    if i >= hs.len() || i + needle.len() > hs.len() {
    } else if window_matches(hs, needle, i) {
    } else {
        lemma_first_match_from(hs, needle, i + 1);
    }
}

/// The offset of the first occurrence of `needle` in `hs`.
pub fn find_byte_seq_offset(hs: &[u8], needle: &[u8]) -> (r: Option<usize>)
    requires
        needle@.len() > 0,
    ensures
        match r {
            Some(i) => first_match(hs@, needle@) == Some(i as int),
            None => first_match(hs@, needle@) is None,
        },
{
    let n = needle.len();
    let len = hs.len();
    if n > len {
        return None;
    }
    let mut i: usize = 0;
    while i <= len - n
        invariant
            n == needle@.len(),
            len == hs@.len(),
            n > 0,
            n <= len,
            i <= len - n + 1,
            first_match_from(hs@, needle@, i as int) == first_match(hs@, needle@),
        decreases len - n + 1 - i,
    {
        let mut j: usize = 0;
        let mut same = true;
        while j < n
            invariant
                n == needle@.len(),
                len == hs@.len(),
                i + n <= len,
                j <= n,
                same == forall|k: int| 0 <= k < j ==> hs@[i + k] == needle@[k],
            decreases n - j,
        {
            if hs[i + j] != needle[j] {
                same = false;
            }
            j = j + 1;
        }
        if same {
            assert(hs@.subrange(i as int, i + n) =~= needle@);
            return Some(i);
        }
        assert(!window_matches(hs@, needle@, i as int)) by {
            if window_matches(hs@, needle@, i as int) {
                let k = choose|k: int| 0 <= k < n && hs@[i + k] != needle@[k];
                assert(hs@.subrange(i as int, i + n)[k] == needle@[k]);
            }
        }
        i = i + 1;
    }
    None
}

/// Where the preloader starts in `data`: at the first occurrence of the magic,
/// or at 0 when the magic does not occur.
pub open spec fn mtkpl_start(data: Seq<u8>) -> int {
    match first_match(data, mtkpl_magic_seq()) {
        Some(i) => i,
        None => 0,
    }
}

/// The preloader starts inside `data`, and at the magic when the magic occurs.
pub proof fn lemma_mtkpl_start_in_range(data: Seq<u8>)
    ensures
        0 <= mtkpl_start(data) <= data.len(),
        first_match(data, mtkpl_magic_seq()) is Some ==> window_matches(
            data,
            mtkpl_magic_seq(),
            mtkpl_start(data),
        ),
{
    lemma_first_match_is_first(data, mtkpl_magic_seq());
}

/// Bytes appended to a buffer do not move where the preloader starts, when the
/// buffer already holds the magic (or the longer buffer holds none): the image
/// of the longer buffer is the image of the shorter one followed by the
/// appended bytes.
pub proof fn lemma_mtkpl_start_after_append(data: Seq<u8>, extra: Seq<u8>)
    requires
        first_match(data, mtkpl_magic_seq()) is Some || first_match(
            data + extra,
            mtkpl_magic_seq(),
        ) is None,
    ensures
        mtkpl_start(data + extra) == mtkpl_start(data),
        (data + extra).subrange(mtkpl_start(data), (data + extra).len() as int) == data.subrange(
            mtkpl_start(data),
            data.len() as int,
        ) + extra,
        (data + extra).subrange(0, mtkpl_start(data)) == data.subrange(0, mtkpl_start(data)),
{
    let n = mtkpl_magic_seq();
    let d2 = data + extra;
    lemma_first_match_is_first(data, n);
    lemma_first_match_is_first(d2, n);
    if let Some(i) = first_match(data, n) {
        assert(d2.subrange(i, i + n.len()) =~= data.subrange(i, i + n.len()));
        assert(window_matches(d2, n, i));
        assert forall|j: int| 0 <= j < i implies !window_matches(d2, n, j) by {
            assert(d2.subrange(j, j + n.len()) =~= data.subrange(j, j + n.len()));
            assert(!window_matches(data, n, j));
        }
        let k = first_match(d2, n).unwrap();
        if k > i {
            assert(!window_matches(d2, n, i));
        }
    }
    lemma_mtkpl_start_in_range(data);
    let s = mtkpl_start(data);
    assert(d2.subrange(s, d2.len() as int) =~= data.subrange(s, data.len() as int) + extra);
    assert(d2.subrange(0, s) =~= data.subrange(0, s));
}

/// Cuts `data` at the preloader magic: the bytes before it, and the image from
/// the magic on (the whole buffer when there is no magic).
pub fn split_at_magic(data: Vec<u8>) -> (r: (Vec<u8>, Vec<u8>))
    ensures
        0 <= mtkpl_start(data@) <= data@.len(),
        r.0@ == data@.subrange(0, mtkpl_start(data@)),
        r.1@ == data@.subrange(mtkpl_start(data@), data@.len() as int),
{
    let magic = mtkpl_magic();
    let offset = match find_byte_seq_offset(data.as_slice(), magic.as_slice()) {
        Some(offset) => offset,
        None => 0,
    };
    proof {
        lemma_mtkpl_start_in_range(data@);
    }
    let drained = bytes_in(data.as_slice(), 0, offset);
    let image = bytes_in(data.as_slice(), offset, data.len());
    (drained, image)
}

} // verus!
