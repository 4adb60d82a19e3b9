//! The GFH ("generic file header") chain at the start of a preloader image.

pub mod gfh_anti_clone;
pub mod gfh_bl_info;
pub mod gfh_bl_sec_key;
pub mod gfh_brom_cfg;
pub mod gfh_brom_sec_cfg;
pub mod gfh_common;
pub mod gfh_file_info;
pub mod gfh_type;

use vstd::prelude::*;

use crate::le_bytes::u16_le;
use crate::mtk_loaders::gfh_headers::gfh_anti_clone::{anti_clone_at, GfhAntiClone};
use crate::mtk_loaders::gfh_headers::gfh_bl_info::{bl_info_at, GfhBlInfo};
use crate::mtk_loaders::gfh_headers::gfh_bl_sec_key::{bl_sec_key_at, GfhBlSecKey};
use crate::mtk_loaders::gfh_headers::gfh_brom_cfg::{brom_cfg_at, GfhBromCfg};
use crate::mtk_loaders::gfh_headers::gfh_brom_sec_cfg::{brom_sec_cfg_at, GfhBromSecCfg};
use crate::mtk_loaders::gfh_headers::gfh_common::{common_at, has_gfh_magic, GfhCommonHeader};
use crate::mtk_loaders::gfh_headers::gfh_file_info::{file_info_at, GfhFileInfo};
use crate::mtk_loaders::gfh_headers::gfh_type::{type_of_code, GfhHeaderType};

verus! {

/// A header that can be read out of a byte buffer at a given offset.
///
/// `load` reads the header at `offset`; it returns `None` when no GFH header
/// starts there. `load_defined` says on which inputs `load` runs to completion
/// (every byte it reads lies inside the buffer, no arithmetic overflows, the
/// header chain walk ends); `try_load` decides that at run time.
pub trait MtkGfhHeader: Sized {
    type Header;

    /// `load(data, offset)` reads only inside `data` and returns.
    spec fn load_defined(data: Seq<u8>, offset: int) -> bool;

    /// What `load(data, offset)` returns.
    spec fn spec_load(data: Seq<u8>, offset: int) -> Option<Self::Header>;

    /// `header_size` returns on `self`.
    spec fn header_size_defined(&self) -> bool;

    /// What `header_size` returns.
    spec fn spec_header_size(&self) -> int;

    fn load(data: &[u8], offset: usize) -> (r: Option<Self::Header>)
        requires
            Self::load_defined(data@, offset as int),
        ensures
            r == Self::spec_load(data@, offset as int),
    ;

    /// `None` exactly when `load(data, offset)` would read outside `data` (or not
    /// return); otherwise what `load` returns.
    fn try_load(data: &[u8], offset: usize) -> (r: Option<Option<Self::Header>>)
        ensures
            r is Some <==> Self::load_defined(data@, offset as int),
            r matches Some(h) ==> h == Self::spec_load(data@, offset as int),
    ;

    fn header_size(&self) -> (r: usize)
        requires
            self.header_size_defined(),
        ensures
            r == self.spec_header_size(),
    ;
}

/// The headers of a GFH chain, at most one of each kind.
#[derive(Debug, Clone, Copy)]
pub struct GfhHeader {
    pub gfh_file_info: Option<GfhFileInfo>,
    pub gfh_bl_info: Option<GfhBlInfo>,
    pub gfh_brom_cfg: Option<GfhBromCfg>,
    pub gfh_bl_sec_key: Option<GfhBlSecKey>,
    pub gfh_anti_clone: Option<GfhAntiClone>,
    pub gfh_brom_sec_cfg: Option<GfhBromSecCfg>,
}

/// The chain with no header found yet.
pub open spec fn empty_gfh_header() -> GfhHeader {
    GfhHeader {
        gfh_file_info: None,
        gfh_bl_info: None,
        gfh_brom_cfg: None,
        gfh_bl_sec_key: None,
        gfh_anti_clone: None,
        gfh_brom_sec_cfg: None,
    }
}

impl Default for GfhHeader {
    fn default() -> (r: GfhHeader)
        ensures
            r == empty_gfh_header(),
    {
        GfhHeader {
            gfh_file_info: None,
            gfh_bl_info: None,
            gfh_brom_cfg: None,
            gfh_bl_sec_key: None,
            gfh_anti_clone: None,
            gfh_brom_sec_cfg: None,
        }
    }
}

/// The kind of the header whose common header stands at `data[o..o + 8]`.
pub open spec fn gfh_type_at(data: Seq<u8>, o: int) -> GfhHeaderType {
    type_of_code(u16_le(data, o + 6))
}

/// The size that the header at `data[o..]` records for itself.
pub open spec fn gfh_size_at(data: Seq<u8>, o: int) -> int {
    u16_le(data, o + 4) as int
}

/// Reading the header at `o`, of the kind its type field names, stays inside
/// `data`, and moving past it does not overflow a `usize`.
pub open spec fn gfh_step_defined(data: Seq<u8>, o: int) -> bool {
    &&& GfhCommonHeader::load_defined(data, o)
    &&& has_gfh_magic(data, o) ==> match gfh_type_at(data, o) {
        GfhHeaderType::GFH_TYPE_FILE_INFO => GfhFileInfo::load_defined(data, o),
        GfhHeaderType::GFH_TYPE_BL_INFO => GfhBlInfo::load_defined(data, o),
        GfhHeaderType::GFH_TYPE_BROM_CFG => GfhBromCfg::load_defined(data, o),
        GfhHeaderType::GFH_TYPE_BL_SEC_KEY => GfhBlSecKey::load_defined(data, o),
        GfhHeaderType::GFH_TYPE_ANTI_CLONE => GfhAntiClone::load_defined(data, o),
        GfhHeaderType::GFH_TYPE_BROM_SEC_CFG => GfhBromSecCfg::load_defined(data, o),
        GfhHeaderType::Unknown => true,
    }
    &&& has_gfh_magic(data, o) && gfh_type_at(data, o) != GfhHeaderType::Unknown ==> o
        + gfh_size_at(data, o) <= usize::MAX
}

/// Where the walk goes after the header at `o`: past it by its recorded size
/// for a known kind, nowhere for an unknown one.
pub open spec fn gfh_next_offset(data: Seq<u8>, o: int) -> int {
    if gfh_type_at(data, o) == GfhHeaderType::Unknown {
        o
    } else {
        o + gfh_size_at(data, o)
    }
}

/// `acc` with the header at `o` recorded in the slot of its kind, unless that
/// slot already holds a header (the first header of each kind is kept).
pub open spec fn gfh_record(data: Seq<u8>, o: int, acc: GfhHeader) -> GfhHeader {
    match gfh_type_at(data, o) {
        GfhHeaderType::GFH_TYPE_FILE_INFO => if acc.gfh_file_info is None {
            GfhHeader { gfh_file_info: Some(file_info_at(data, o)), ..acc }
        } else {
            acc
        },
        GfhHeaderType::GFH_TYPE_BL_INFO => if acc.gfh_bl_info is None {
            GfhHeader { gfh_bl_info: Some(bl_info_at(data, o)), ..acc }
        } else {
            acc
        },
        GfhHeaderType::GFH_TYPE_BROM_CFG => if acc.gfh_brom_cfg is None {
            GfhHeader { gfh_brom_cfg: Some(brom_cfg_at(data, o)), ..acc }
        } else {
            acc
        },
        GfhHeaderType::GFH_TYPE_BL_SEC_KEY => if acc.gfh_bl_sec_key is None {
            GfhHeader { gfh_bl_sec_key: Some(bl_sec_key_at(data, o)), ..acc }
        } else {
            acc
        },
        GfhHeaderType::GFH_TYPE_ANTI_CLONE => if acc.gfh_anti_clone is None {
            GfhHeader { gfh_anti_clone: Some(anti_clone_at(data, o)), ..acc }
        } else {
            acc
        },
        GfhHeaderType::GFH_TYPE_BROM_SEC_CFG => if acc.gfh_brom_sec_cfg is None {
            GfhHeader { gfh_brom_sec_cfg: Some(brom_sec_cfg_at(data, o)), ..acc }
        } else {
            acc
        },
        GfhHeaderType::Unknown => acc,
    }
}

/// The walk along the header chain from offset `o`, with the headers found so
/// far in `acc`, until the offset reaches `limit` (the total size that the
/// file-info header gives) or no GFH magic stands at the offset.
///
/// `None` when the walk reads outside `data`, overflows, or stays forever at
/// one offset below `limit` (an unknown header, or a header of size 0).
pub open spec fn gfh_walk(data: Seq<u8>, limit: int, o: int, acc: GfhHeader) -> Option<GfhHeader>
    decreases limit - o,
{
    if !gfh_step_defined(data, o) {
        None
    } else if !has_gfh_magic(data, o) {
        Some(acc)
    } else {
        let next = gfh_next_offset(data, o);
        let acc2 = gfh_record(data, o, acc);
        if next >= limit {
            Some(acc2)
        } else if next <= o {
            None
        } else {
            gfh_walk(data, limit, next, acc2)
        }
    }
}

/// Every header in `h` sits in the slot of its own kind.
pub open spec fn slots_hold_their_kind(h: GfhHeader) -> bool {
    &&& h.gfh_file_info matches Some(x) ==> x.gfh_common.gfh_type
        == GfhHeaderType::GFH_TYPE_FILE_INFO
    &&& h.gfh_bl_info matches Some(x) ==> x.gfh_common.gfh_type == GfhHeaderType::GFH_TYPE_BL_INFO
    &&& h.gfh_brom_cfg matches Some(x) ==> x.gfh_common.gfh_type
        == GfhHeaderType::GFH_TYPE_BROM_CFG
    &&& h.gfh_bl_sec_key matches Some(x) ==> x.gfh_common.gfh_type
        == GfhHeaderType::GFH_TYPE_BL_SEC_KEY
    &&& h.gfh_anti_clone matches Some(x) ==> x.gfh_common.gfh_type
        == GfhHeaderType::GFH_TYPE_ANTI_CLONE
    &&& h.gfh_brom_sec_cfg matches Some(x) ==> x.gfh_common.gfh_type
        == GfhHeaderType::GFH_TYPE_BROM_SEC_CFG
}

/// A file-info header in `h` has the body stored at `data[8..56]`.
pub open spec fn file_info_body_from(h: GfhHeader, data: Seq<u8>) -> bool {
    h.gfh_file_info matches Some(x) ==> {
        &&& x.load_addr == crate::le_bytes::u32_le(data, 28)
        &&& x.total_size == crate::le_bytes::u32_le(data, 32)
        &&& x.hdr_size == crate::le_bytes::u32_le(data, 40)
        &&& x.sig_size == crate::le_bytes::u32_le(data, 44)
        &&& x.jump_offset == crate::le_bytes::u32_le(data, 48)
    }
}

/// Every slot filled in `before` holds the same header in `after`.
pub open spec fn keeps_found_headers(before: GfhHeader, after: GfhHeader) -> bool {
    &&& before.gfh_file_info is Some ==> after.gfh_file_info == before.gfh_file_info
    &&& before.gfh_bl_info is Some ==> after.gfh_bl_info == before.gfh_bl_info
    &&& before.gfh_brom_cfg is Some ==> after.gfh_brom_cfg == before.gfh_brom_cfg
    &&& before.gfh_bl_sec_key is Some ==> after.gfh_bl_sec_key == before.gfh_bl_sec_key
    &&& before.gfh_anti_clone is Some ==> after.gfh_anti_clone == before.gfh_anti_clone
    &&& before.gfh_brom_sec_cfg is Some ==> after.gfh_brom_sec_cfg == before.gfh_brom_sec_cfg
}

/// Along the chain, a header of a kind already found is skipped: the walk
/// keeps the first header of each kind, and every header it records sits in
/// the slot of its own kind.
pub proof fn lemma_walk_keeps_first_of_each_kind(
    data: Seq<u8>,
    limit: int,
    o: int,
    acc: GfhHeader,
)
    requires
        slots_hold_their_kind(acc),
        file_info_body_from(acc, data),
    ensures
        gfh_walk(data, limit, o, acc) matches Some(r) ==> keeps_found_headers(acc, r)
            && slots_hold_their_kind(r) && file_info_body_from(r, data),
    decreases limit - o,
{
    if gfh_step_defined(data, o) && has_gfh_magic(data, o) {
        let next = gfh_next_offset(data, o);
        let acc2 = gfh_record(data, o, acc);
        assert(keeps_found_headers(acc, acc2) && slots_hold_their_kind(acc2)
            && file_info_body_from(acc2, data));
        if next < limit && next > o {
            lemma_walk_keeps_first_of_each_kind(data, limit, next, acc2);
        }
    }
}

/// A loaded GFH chain holds every header in the slot of its own kind, and its
/// file-info header has the body stored at `data[8..56]`.
pub proof fn lemma_load_slots_hold_their_kind(data: Seq<u8>, offset: int)
    ensures
        GfhHeader::spec_load(data, offset) matches Some(h) ==> slots_hold_their_kind(h)
            && file_info_body_from(h, data),
{
    let limit = file_info_at(data, offset).hdr_size as int;
    lemma_walk_keeps_first_of_each_kind(data, limit, offset, empty_gfh_header());
}

/// The three bytes `4D 4D 4D` stand at `data[o..o + 3]`.
pub open spec fn three_magic_bytes_at(data: Seq<u8>, o: int) -> bool {
    data.subrange(o, o + 3) == seq![0x4Du8, 0x4Du8, 0x4Du8]
}

/// A GFH header is recognised by the three bytes `4D 4D 4D` alone: every kind
/// of header loads at `o` exactly when they stand there, whatever the fourth
/// byte (the header version) holds, and the loaded magic and version is the
/// little-endian value of all four bytes. Changing the version byte changes
/// neither whether a header loads nor its size and type.
pub proof fn lemma_gfh_header_recognised_by_three_bytes(data: Seq<u8>, o: int, version: u8)
    requires
        0 <= o,
        o + 4 <= data.len(),
    ensures
        GfhCommonHeader::spec_load(data, o) is Some <==> three_magic_bytes_at(data, o),
        GfhFileInfo::spec_load(data, o) is Some <==> three_magic_bytes_at(data, o),
        GfhBlInfo::spec_load(data, o) is Some <==> three_magic_bytes_at(data, o),
        GfhBromCfg::spec_load(data, o) is Some <==> three_magic_bytes_at(data, o),
        GfhBlSecKey::spec_load(data, o) is Some <==> three_magic_bytes_at(data, o),
        GfhAntiClone::spec_load(data, o) is Some <==> three_magic_bytes_at(data, o),
        GfhBromSecCfg::spec_load(data, o) is Some <==> three_magic_bytes_at(data, o),
        !three_magic_bytes_at(data, o) ==> GfhHeader::spec_load(data, o) is None,
        GfhCommonHeader::spec_load(data, o) matches Some(h) ==> h.magic_version as int == data[o]
            as int + 0x100 * (data[o + 1] as int) + 0x1_0000 * (data[o + 2] as int) + 0x100_0000 * (
        data[o + 3] as int),
        GfhCommonHeader::spec_load(data.update(o + 3, version), o) is Some
            <==> GfhCommonHeader::spec_load(data, o) is Some,
        o + 8 <= data.len() ==> (GfhCommonHeader::spec_load(data.update(o + 3, version), o) matches Some(
            h2,
        ) ==> h2.size == GfhCommonHeader::spec_load(data, o).unwrap().size && h2.gfh_type
            == GfhCommonHeader::spec_load(data, o).unwrap().gfh_type),
{
    let m = seq![0x4Du8, 0x4Du8, 0x4Du8];
    let d2 = data.update(o + 3, version);
    assert(three_magic_bytes_at(data, o) <==> has_gfh_magic(data, o)) by {
        if has_gfh_magic(data, o) {
            assert(data.subrange(o, o + 3) =~= m);
        }
        if three_magic_bytes_at(data, o) {
            assert(data.subrange(o, o + 3)[0] == m[0]);
            assert(data.subrange(o, o + 3)[1] == m[1]);
            assert(data.subrange(o, o + 3)[2] == m[2]);
        }
    }
    assert(has_gfh_magic(d2, o) == has_gfh_magic(data, o));
    if o + 8 <= data.len() {
        assert(d2[o + 4] == data[o + 4] && d2[o + 5] == data[o + 5]);
        assert(d2[o + 6] == data[o + 6] && d2[o + 7] == data[o + 7]);
    }
}

/// Every slot filled in `acc` stays as it is along any walk: a walk only fills
/// empty slots.
proof fn lemma_walk_keeps_found(data: Seq<u8>, limit: int, o: int, acc: GfhHeader)
    ensures
        gfh_walk(data, limit, o, acc) matches Some(r) ==> keeps_found_headers(acc, r),
    decreases limit - o,
{
    if gfh_step_defined(data, o) && has_gfh_magic(data, o) {
        let next = gfh_next_offset(data, o);
        let acc2 = gfh_record(data, o, acc);
        if next < limit && next > o {
            lemma_walk_keeps_found(data, limit, next, acc2);
        }
    }
}

/// The slot of kind `kind` in `h` holds a header (always true of an unknown
/// kind, which has no slot).
pub open spec fn slot_filled(h: GfhHeader, kind: GfhHeaderType) -> bool {
    match kind {
        GfhHeaderType::GFH_TYPE_FILE_INFO => h.gfh_file_info is Some,
        GfhHeaderType::GFH_TYPE_BL_INFO => h.gfh_bl_info is Some,
        GfhHeaderType::GFH_TYPE_BROM_CFG => h.gfh_brom_cfg is Some,
        GfhHeaderType::GFH_TYPE_BL_SEC_KEY => h.gfh_bl_sec_key is Some,
        GfhHeaderType::GFH_TYPE_ANTI_CLONE => h.gfh_anti_clone is Some,
        GfhHeaderType::GFH_TYPE_BROM_SEC_CFG => h.gfh_brom_sec_cfg is Some,
        GfhHeaderType::Unknown => true,
    }
}

/// A walk that reaches a header starting with `4D 4D 4D`, whatever its version
/// byte, does not stop there: when the walk completes, the slot of that
/// header's kind is filled.
pub proof fn lemma_walk_takes_header_with_any_version(
    data: Seq<u8>,
    limit: int,
    o: int,
    acc: GfhHeader,
)
    requires
        0 <= o,
        o + 3 <= data.len(),
        three_magic_bytes_at(data, o),
        gfh_walk(data, limit, o, acc) is Some,
    ensures
        slot_filled(gfh_walk(data, limit, o, acc).unwrap(), gfh_type_at(data, o)),
{
    assert(data.subrange(o, o + 3)[0] == 0x4Du8);
    assert(data.subrange(o, o + 3)[1] == 0x4Du8);
    assert(data.subrange(o, o + 3)[2] == 0x4Du8);
    assert(has_gfh_magic(data, o));
    let next = gfh_next_offset(data, o);
    let acc2 = gfh_record(data, o, acc);
    assert(slot_filled(acc2, gfh_type_at(data, o)));
    if next < limit && next > o {
        lemma_walk_keeps_found(data, limit, next, acc2);
    }
}

/// One step of the walk reads only bytes that `data` holds: with bytes
/// appended, the header at `o` is read the same way.
proof fn lemma_step_after_append(data: Seq<u8>, extra: Seq<u8>, o: int, acc: GfhHeader)
    requires
        gfh_step_defined(data, o),
    ensures
        gfh_step_defined(data + extra, o),
        has_gfh_magic(data + extra, o) == has_gfh_magic(data, o),
        has_gfh_magic(data, o) ==> {
            &&& gfh_type_at(data + extra, o) == gfh_type_at(data, o)
            &&& gfh_size_at(data + extra, o) == gfh_size_at(data, o)
            &&& gfh_next_offset(data + extra, o) == gfh_next_offset(data, o)
            &&& gfh_record(data + extra, o, acc) == gfh_record(data, o, acc)
        },
{
    let d2 = data + extra;
    assert(d2[o] == data[o] && d2[o + 1] == data[o + 1] && d2[o + 2] == data[o + 2]);
    assert(d2[o + 3] == data[o + 3]);
    if has_gfh_magic(data, o) {
        assert forall|i: int| o <= i < o + 8 implies d2[i] == data[i] by {}
        assert(gfh_type_at(d2, o) == gfh_type_at(data, o));
        assert(gfh_size_at(d2, o) == gfh_size_at(data, o));
        assert(common_at(d2, o) == common_at(data, o));
        match gfh_type_at(data, o) {
            GfhHeaderType::GFH_TYPE_FILE_INFO => {
                assert(d2.subrange(8, 20) =~= data.subrange(8, 20));
                assert forall|i: int| 20 <= i < 56 implies d2[i] == data[i] by {}
                assert(file_info_at(d2, o) == file_info_at(data, o));
            },
            GfhHeaderType::GFH_TYPE_BL_INFO => {
                assert forall|i: int| o + 8 <= i < o + 12 implies d2[i] == data[i] by {}
                assert(bl_info_at(d2, o) == bl_info_at(data, o));
            },
            GfhHeaderType::GFH_TYPE_BROM_CFG => {
                assert(d2.subrange(o + 16, o + 16 + 0x45) =~= data.subrange(o + 16, o + 16 + 0x45));
                assert(d2.subrange(o + 86, o + 88) =~= data.subrange(o + 86, o + 88));
                assert forall|i: int| o + 8 <= i < o + 100 implies d2[i] == data[i] by {}
                assert(brom_cfg_at(d2, o) == brom_cfg_at(data, o));
            },
            GfhHeaderType::GFH_TYPE_BL_SEC_KEY => {
                assert(d2.subrange(o + 8, o + 8 + 0x20c) =~= data.subrange(o + 8, o + 8 + 0x20c));
                assert(bl_sec_key_at(d2, o) == bl_sec_key_at(data, o));
            },
            GfhHeaderType::GFH_TYPE_ANTI_CLONE => {
                assert forall|i: int| o + 8 <= i < o + 20 implies d2[i] == data[i] by {}
                assert(anti_clone_at(d2, o) == anti_clone_at(data, o));
            },
            GfhHeaderType::GFH_TYPE_BROM_SEC_CFG => {
                assert(d2.subrange(o + 12, o + 44) =~= data.subrange(o + 12, o + 44));
                assert forall|i: int| o + 8 <= i < o + 48 implies d2[i] == data[i] by {}
                assert(brom_sec_cfg_at(d2, o) == brom_sec_cfg_at(data, o));
            },
            GfhHeaderType::Unknown => {},
        }
    }
}

/// A walk that completes reads only bytes that `data` holds: with bytes
/// appended it gives the same headers.
proof fn lemma_walk_after_append(
    data: Seq<u8>,
    extra: Seq<u8>,
    limit: int,
    o: int,
    acc: GfhHeader,
)
    requires
        gfh_walk(data, limit, o, acc) is Some,
    ensures
        gfh_walk(data + extra, limit, o, acc) == gfh_walk(data, limit, o, acc),
    decreases limit - o,
{
    lemma_step_after_append(data, extra, o, acc);
    if has_gfh_magic(data, o) {
        let next = gfh_next_offset(data, o);
        let acc2 = gfh_record(data, o, acc);
        if next < limit && next > o {
            lemma_walk_after_append(data, extra, limit, next, acc2);
        }
    }
}

/// Loading a GFH chain reads nothing past it: bytes appended after a buffer
/// from which a chain loads change neither whether it loads nor what it
/// holds.
pub proof fn lemma_gfh_load_ignores_appended_bytes(data: Seq<u8>, extra: Seq<u8>, offset: int)
    requires
        GfhHeader::load_defined(data, offset),
    ensures
        GfhHeader::load_defined(data + extra, offset),
        GfhHeader::spec_load(data + extra, offset) == GfhHeader::spec_load(data, offset),
{
    let d2 = data + extra;
    assert(d2[offset] == data[offset] && d2[offset + 1] == data[offset + 1] && d2[offset + 2]
        == data[offset + 2]);
    if has_gfh_magic(data, offset) {
        assert forall|i: int| 0 <= i < 56 implies d2[i] == data[i] by {}
        assert forall|i: int| offset <= i < offset + 8 implies d2[i] == data[i] by {}
        assert(d2.subrange(8, 20) =~= data.subrange(8, 20));
        assert(file_info_at(d2, offset) == file_info_at(data, offset));
        lemma_walk_after_append(
            data,
            extra,
            file_info_at(data, offset).hdr_size as int,
            offset,
            empty_gfh_header(),
        );
    }
}

/// The offsets of the headers that the walk from `o` reads, in order: `o`
/// itself when a GFH header starts there, then each following offset, until
/// the walk stops (empty when no header starts at `o`).
pub open spec fn gfh_chain(data: Seq<u8>, limit: int, o: int) -> Seq<int>
    decreases limit - o,
{
    if !gfh_step_defined(data, o) || !has_gfh_magic(data, o) {
        Seq::empty()
    } else {
        let next = gfh_next_offset(data, o);
        if next >= limit || next <= o {
            seq![o]
        } else {
            seq![o] + gfh_chain(data, limit, next)
        }
    }
}

/// The first offset in `chain` whose header is of kind `kind`.
pub open spec fn first_of_kind(data: Seq<u8>, chain: Seq<int>, kind: GfhHeaderType) -> Option<int>
    decreases chain.len(),
{
    if chain.len() == 0 {
        None
    } else if gfh_type_at(data, chain[0]) == kind {
        Some(chain[0])
    } else {
        first_of_kind(data, chain.drop_first(), kind)
    }
}

/// `first_of_kind` finds an offset of the chain whose header has that kind,
/// with no header of that kind before it; it finds nothing exactly when no
/// header of the chain has that kind.
pub proof fn lemma_first_of_kind(data: Seq<u8>, chain: Seq<int>, kind: GfhHeaderType)
    ensures
        first_of_kind(data, chain, kind) matches Some(o) ==> exists|i: int|
            0 <= i < chain.len() && chain[i] == o && gfh_type_at(data, o) == kind && forall|j: int|
                0 <= j < i ==> gfh_type_at(data, #[trigger] chain[j]) != kind,
        first_of_kind(data, chain, kind) is None ==> forall|i: int|
            0 <= i < chain.len() ==> gfh_type_at(data, #[trigger] chain[i]) != kind,
{
    let kinds = Seq::new(chain.len(), |i: int| gfh_type_at(data, chain[i]));
    lemma_first_of_kind_by_index(data, chain, kind, kinds);
}

/// The first index of `chain` whose entry in `kinds` is `kind`.
spec fn first_index_of(kinds: Seq<GfhHeaderType>, kind: GfhHeaderType) -> Option<int>
    decreases kinds.len(),
{
    if kinds.len() == 0 {
        None
    } else if kinds[0] == kind {
        Some(0)
    } else {
        match first_index_of(kinds.drop_first(), kind) {
            Some(i) => Some(i + 1),
            None => None,
        }
    }
}

/// `first_index_of` over the kinds of the chain's headers finds the first
/// matching index, and `first_of_kind` returns the offset at that index.
proof fn lemma_first_of_kind_by_index(
    data: Seq<u8>,
    chain: Seq<int>,
    kind: GfhHeaderType,
    kinds: Seq<GfhHeaderType>,
)
    requires
        kinds.len() == chain.len(),
        forall|i: int| 0 <= i < chain.len() ==> #[trigger] kinds[i] == gfh_type_at(data, chain[i]),
    ensures
        first_of_kind(data, chain, kind) == match first_index_of(kinds, kind) {
            Some(i) => Some(chain[i]),
            None => None,
        },
        first_index_of(kinds, kind) matches Some(i) ==> 0 <= i < kinds.len() && kinds[i] == kind
            && forall|j: int| 0 <= j < i ==> #[trigger] kinds[j] != kind,
        first_index_of(kinds, kind) is None ==> forall|i: int|
            0 <= i < kinds.len() ==> #[trigger] kinds[i] != kind,
        first_of_kind(data, chain, kind) matches Some(o) ==> exists|i: int|
            0 <= i < chain.len() && chain[i] == o && gfh_type_at(data, o) == kind && forall|j: int|
                0 <= j < i ==> gfh_type_at(data, #[trigger] chain[j]) != kind,
        first_of_kind(data, chain, kind) is None ==> forall|i: int|
            0 <= i < chain.len() ==> gfh_type_at(data, #[trigger] chain[i]) != kind,
    decreases chain.len(),
{
    if chain.len() > 0 {
        assert(kinds[0] == gfh_type_at(data, chain[0]));
        if kinds[0] != kind {
            let rest = chain.drop_first();
            let rest_kinds = kinds.drop_first();
            assert forall|i: int| 0 <= i < rest.len() implies #[trigger] rest_kinds[i]
                == gfh_type_at(data, rest[i]) by {
                assert(kinds[i + 1] == gfh_type_at(data, chain[i + 1]));
            }
            lemma_first_of_kind_by_index(data, rest, kind, rest_kinds);
            assert forall|j: int| 0 < j < kinds.len() implies #[trigger] kinds[j] == rest_kinds[j
                - 1] by {}
        }
    }
    if let Some(i) = first_index_of(kinds, kind) {
        assert forall|j: int| 0 <= j < i implies gfh_type_at(data, #[trigger] chain[j]) != kind by {
            assert(kinds[j] != kind);
        }
        assert(kinds[i] == gfh_type_at(data, chain[i]));
    } else {
        assert forall|j: int| 0 <= j < chain.len() implies gfh_type_at(data, #[trigger] chain[j])
            != kind by {
            assert(kinds[j] != kind);
        }
    }
}

/// Each slot of `r` is the slot of `acc` when that was filled, and otherwise
/// the header at the first offset of `chain` of that slot's kind (or empty
/// when the chain has no header of that kind).
pub open spec fn slots_from_chain(data: Seq<u8>, chain: Seq<int>, acc: GfhHeader, r: GfhHeader) -> bool {
    &&& r.gfh_file_info == if acc.gfh_file_info is Some {
        acc.gfh_file_info
    } else {
        match first_of_kind(data, chain, GfhHeaderType::GFH_TYPE_FILE_INFO) {
            Some(o) => Some(file_info_at(data, o)),
            None => None,
        }
    }
    &&& r.gfh_bl_info == if acc.gfh_bl_info is Some {
        acc.gfh_bl_info
    } else {
        match first_of_kind(data, chain, GfhHeaderType::GFH_TYPE_BL_INFO) {
            Some(o) => Some(bl_info_at(data, o)),
            None => None,
        }
    }
    &&& r.gfh_brom_cfg == if acc.gfh_brom_cfg is Some {
        acc.gfh_brom_cfg
    } else {
        match first_of_kind(data, chain, GfhHeaderType::GFH_TYPE_BROM_CFG) {
            Some(o) => Some(brom_cfg_at(data, o)),
            None => None,
        }
    }
    &&& r.gfh_bl_sec_key == if acc.gfh_bl_sec_key is Some {
        acc.gfh_bl_sec_key
    } else {
        match first_of_kind(data, chain, GfhHeaderType::GFH_TYPE_BL_SEC_KEY) {
            Some(o) => Some(bl_sec_key_at(data, o)),
            None => None,
        }
    }
    &&& r.gfh_anti_clone == if acc.gfh_anti_clone is Some {
        acc.gfh_anti_clone
    } else {
        match first_of_kind(data, chain, GfhHeaderType::GFH_TYPE_ANTI_CLONE) {
            Some(o) => Some(anti_clone_at(data, o)),
            None => None,
        }
    }
    &&& r.gfh_brom_sec_cfg == if acc.gfh_brom_sec_cfg is Some {
        acc.gfh_brom_sec_cfg
    } else {
        match first_of_kind(data, chain, GfhHeaderType::GFH_TYPE_BROM_SEC_CFG) {
            Some(o) => Some(brom_sec_cfg_at(data, o)),
            None => None,
        }
    }
}

/// The first header of a kind along `o` followed by `rest` is at `o` when
/// that header has the kind, and otherwise the first one along `rest`.
proof fn lemma_first_of_kind_cons(data: Seq<u8>, o: int, rest: Seq<int>, kind: GfhHeaderType)
    ensures
        first_of_kind(data, seq![o] + rest, kind) == if gfh_type_at(data, o) == kind {
            Some(o)
        } else {
            first_of_kind(data, rest, kind)
        },
{
    let chain = seq![o] + rest;
    assert(chain[0] == o);
    assert(chain.drop_first() =~= rest);
}

/// Recording the header at `o` and then filling from `rest` fills each empty
/// slot from the first header of its kind along `o` followed by `rest`.
#[verifier::rlimit(40)]
proof fn lemma_record_then_rest(data: Seq<u8>, o: int, rest: Seq<int>, acc: GfhHeader, r: GfhHeader)
    requires
        slots_from_chain(data, rest, gfh_record(data, o, acc), r),
    ensures
        slots_from_chain(data, seq![o] + rest, acc, r),
{
    lemma_first_of_kind_cons(data, o, rest, GfhHeaderType::GFH_TYPE_FILE_INFO);
    lemma_first_of_kind_cons(data, o, rest, GfhHeaderType::GFH_TYPE_BL_INFO);
    lemma_first_of_kind_cons(data, o, rest, GfhHeaderType::GFH_TYPE_BROM_CFG);
    lemma_first_of_kind_cons(data, o, rest, GfhHeaderType::GFH_TYPE_BL_SEC_KEY);
    lemma_first_of_kind_cons(data, o, rest, GfhHeaderType::GFH_TYPE_ANTI_CLONE);
    lemma_first_of_kind_cons(data, o, rest, GfhHeaderType::GFH_TYPE_BROM_SEC_CFG);
    match gfh_type_at(data, o) {
        GfhHeaderType::GFH_TYPE_FILE_INFO => {},
        GfhHeaderType::GFH_TYPE_BL_INFO => {},
        GfhHeaderType::GFH_TYPE_BROM_CFG => {},
        GfhHeaderType::GFH_TYPE_BL_SEC_KEY => {},
        GfhHeaderType::GFH_TYPE_ANTI_CLONE => {},
        GfhHeaderType::GFH_TYPE_BROM_SEC_CFG => {},
        GfhHeaderType::Unknown => {},
    }
}

/// The offsets the walk reads start at `o`, strictly increase, and each holds
/// the GFH magic.
pub proof fn lemma_chain_shape(data: Seq<u8>, limit: int, o: int)
    ensures
        ({
            let chain = gfh_chain(data, limit, o);
            &&& gfh_step_defined(data, o) && has_gfh_magic(data, o) ==> chain.len() > 0
                && chain[0] == o
            &&& forall|i: int, j: int|
                0 <= i < j < chain.len() ==> #[trigger] chain[i] < #[trigger] chain[j]
            &&& forall|i: int| 0 <= i < chain.len() ==> has_gfh_magic(data, #[trigger] chain[i])
            &&& forall|i: int| 0 <= i < chain.len() ==> o <= #[trigger] chain[i]
        }),
    decreases limit - o,
{
    if gfh_step_defined(data, o) && has_gfh_magic(data, o) {
        let next = gfh_next_offset(data, o);
        let chain = gfh_chain(data, limit, o);
        if next < limit && next > o {
            lemma_chain_shape(data, limit, next);
            let rest = gfh_chain(data, limit, next);
            assert(chain == seq![o] + rest);
            assert forall|i: int, j: int| 0 <= i < j < chain.len() implies #[trigger] chain[i]
                < #[trigger] chain[j] by {
                assert(chain[j] == rest[j - 1]);
                if i > 0 {
                    assert(chain[i] == rest[i - 1]);
                }
            }
            assert forall|i: int| 0 <= i < chain.len() implies has_gfh_magic(
                data,
                #[trigger] chain[i],
            ) && o <= chain[i] by {
                if i > 0 {
                    assert(chain[i] == rest[i - 1]);
                }
            }
        } else {
            assert(chain == seq![o]);
        }
    }
}

/// What the walk returns is `acc` with every empty slot filled from the
/// first header of its kind along the offsets the walk reads.
pub proof fn lemma_walk_fills_from_chain(data: Seq<u8>, limit: int, o: int, acc: GfhHeader)
    ensures
        gfh_walk(data, limit, o, acc) matches Some(r) ==> slots_from_chain(
            data,
            gfh_chain(data, limit, o),
            acc,
            r,
        ),
    decreases limit - o,
{
    if gfh_step_defined(data, o) {
        if has_gfh_magic(data, o) {
            let next = gfh_next_offset(data, o);
            let acc2 = gfh_record(data, o, acc);
            if next < limit && next > o {
                lemma_walk_fills_from_chain(data, limit, next, acc2);
                if let Some(r) = gfh_walk(data, limit, o, acc) {
                    lemma_record_then_rest(data, o, gfh_chain(data, limit, next), acc, r);
                }
            } else if next >= limit {
                lemma_record_then_rest(data, o, Seq::empty(), acc, acc2);
                assert(seq![o] + Seq::<int>::empty() =~= seq![o]);
            }
        } else {
            assert(gfh_chain(data, limit, o) =~= Seq::<int>::empty());
        }
    }
}

/// Some header along `chain` has kind `kind`.
pub open spec fn chain_has_kind(data: Seq<u8>, chain: Seq<int>, kind: GfhHeaderType) -> bool {
    exists|i: int| 0 <= i < chain.len() && gfh_type_at(data, #[trigger] chain[i]) == kind
}

/// The offsets at which loading a GFH chain from `offset` reads headers.
pub open spec fn load_chain(data: Seq<u8>, offset: int) -> Seq<int> {
    gfh_chain(data, file_info_at(data, offset).hdr_size as int, offset)
}

/// A loaded GFH chain holds, for each kind, the header at the first offset of
/// the chain whose header has that kind (`first_of_kind`, characterised by
/// `lemma_first_of_kind`); its slot is filled exactly when the chain holds a
/// header of that kind. The chain starts at `offset` and its offsets strictly
/// increase; the bootloader-info header records the first offset of its kind.
pub proof fn lemma_load_keeps_first_of_each_kind(data: Seq<u8>, offset: int)
    ensures
        GfhHeader::spec_load(data, offset) matches Some(h) ==> {
            let chain = load_chain(data, offset);
            &&& slots_from_chain(data, chain, empty_gfh_header(), h)
            &&& chain.len() > 0 && chain[0] == offset
            &&& forall|i: int, j: int|
                0 <= i < j < chain.len() ==> #[trigger] chain[i] < #[trigger] chain[j]
            &&& (h.gfh_file_info is Some <==> chain_has_kind(
                data,
                chain,
                GfhHeaderType::GFH_TYPE_FILE_INFO,
            ))
            &&& (h.gfh_bl_info is Some <==> chain_has_kind(
                data,
                chain,
                GfhHeaderType::GFH_TYPE_BL_INFO,
            ))
            &&& (h.gfh_brom_cfg is Some <==> chain_has_kind(
                data,
                chain,
                GfhHeaderType::GFH_TYPE_BROM_CFG,
            ))
            &&& (h.gfh_bl_sec_key is Some <==> chain_has_kind(
                data,
                chain,
                GfhHeaderType::GFH_TYPE_BL_SEC_KEY,
            ))
            &&& (h.gfh_anti_clone is Some <==> chain_has_kind(
                data,
                chain,
                GfhHeaderType::GFH_TYPE_ANTI_CLONE,
            ))
            &&& (h.gfh_brom_sec_cfg is Some <==> chain_has_kind(
                data,
                chain,
                GfhHeaderType::GFH_TYPE_BROM_SEC_CFG,
            ))
            &&& h.gfh_bl_info matches Some(b) ==> b.gfh_type_offset == first_of_kind(
                data,
                chain,
                GfhHeaderType::GFH_TYPE_BL_INFO,
            ).unwrap() as u32
        },
{
    let limit = file_info_at(data, offset).hdr_size as int;
    lemma_walk_fills_from_chain(data, limit, offset, empty_gfh_header());
    lemma_chain_shape(data, limit, offset);
    let chain = load_chain(data, offset);
    lemma_first_of_kind(data, chain, GfhHeaderType::GFH_TYPE_FILE_INFO);
    lemma_first_of_kind(data, chain, GfhHeaderType::GFH_TYPE_BL_INFO);
    lemma_first_of_kind(data, chain, GfhHeaderType::GFH_TYPE_BROM_CFG);
    lemma_first_of_kind(data, chain, GfhHeaderType::GFH_TYPE_BL_SEC_KEY);
    lemma_first_of_kind(data, chain, GfhHeaderType::GFH_TYPE_ANTI_CLONE);
    lemma_first_of_kind(data, chain, GfhHeaderType::GFH_TYPE_BROM_SEC_CFG);
}

impl GfhHeader {
    pub fn get_gfh_file_info(&self) -> (r: Option<GfhFileInfo>)
        ensures
            r == self.gfh_file_info,
    {
        self.gfh_file_info
    }

    pub fn get_gfh_bl_info(&self) -> (r: Option<GfhBlInfo>)
        ensures
            r == self.gfh_bl_info,
    {
        self.gfh_bl_info
    }

    pub fn get_gfh_brom_cfg(&self) -> (r: Option<GfhBromCfg>)
        ensures
            r == self.gfh_brom_cfg,
    {
        self.gfh_brom_cfg
    }

    pub fn get_gfh_bl_sec_key(&self) -> (r: Option<GfhBlSecKey>)
        ensures
            r == self.gfh_bl_sec_key,
    {
        self.gfh_bl_sec_key
    }

    pub fn get_gfh_anti_clone(&self) -> (r: Option<GfhAntiClone>)
        ensures
            r == self.gfh_anti_clone,
    {
        self.gfh_anti_clone
    }

    pub fn get_gfh_brom_sec_cfg(&self) -> (r: Option<GfhBromSecCfg>)
        ensures
            r == self.gfh_brom_sec_cfg,
    {
        self.gfh_brom_sec_cfg
    }
}

impl MtkGfhHeader for GfhHeader {
    type Header = GfhHeader;

    /// The file-info header at `offset` can be read, and the walk from there
    /// (bounded by its total size) ends inside `data`.
    open spec fn load_defined(data: Seq<u8>, offset: int) -> bool {
        &&& GfhFileInfo::load_defined(data, offset)
        &&& has_gfh_magic(data, offset) ==> gfh_walk(
            data,
            file_info_at(data, offset).hdr_size as int,
            offset,
            empty_gfh_header(),
        ) is Some
    }

    /// `None` when no GFH header starts at `offset`; otherwise the headers that
    /// the walk from `offset` finds.
    open spec fn spec_load(data: Seq<u8>, offset: int) -> Option<GfhHeader> {
        if has_gfh_magic(data, offset) {
            gfh_walk(data, file_info_at(data, offset).hdr_size as int, offset, empty_gfh_header())
        } else {
            None
        }
    }

    open spec fn header_size_defined(&self) -> bool {
        self.gfh_file_info is Some
    }

    /// The total size of the chain, from its file-info header.
    open spec fn spec_header_size(&self) -> int {
        self.gfh_file_info.unwrap().hdr_size as int
    }

    fn load(data: &[u8], offset: usize) -> (r: Option<GfhHeader>) {
        match Self::try_load(data, offset) {
            Some(r) => r,
            None => None,
        }
    }

    fn try_load(data: &[u8], offset: usize) -> (r: Option<Option<GfhHeader>>) {
        let file_info = match GfhFileInfo::try_load(data, offset) {
            None => return None,
            Some(None) => return Some(None),
            Some(Some(fi)) => fi,
        };
        let limit: usize = file_info.get_gfh_header_total_size() as usize;
        let mut pos = offset;
        let mut gfh_header = GfhHeader::default();
        loop
            invariant
                has_gfh_magic(data@, offset as int),
                GfhFileInfo::load_defined(data@, offset as int),
                limit == file_info_at(data@, offset as int).hdr_size,
                gfh_walk(data@, limit as int, pos as int, gfh_header) == gfh_walk(
                    data@,
                    limit as int,
                    offset as int,
                    empty_gfh_header(),
                ),
            decreases limit - pos,
        {
            let before = pos;
            let header_type = match GfhCommonHeader::try_load(data, pos) {
                None => return None,
                Some(None) => return Some(Some(gfh_header)),
                Some(Some(c)) => c,
            };
            match header_type.get_type() {
                GfhHeaderType::GFH_TYPE_FILE_INFO => {
                    match GfhFileInfo::try_load(data, pos) {
                        Some(Some(header)) => {
                            let size = header.header_size();
                            if size > usize::MAX - pos {
                                return None;
                            }
                            pos = pos + size;
                            if gfh_header.gfh_file_info.is_none() {
                                gfh_header.gfh_file_info = Some(header);
                            }
                        },
                        _ => return None,
                    }
                },
                GfhHeaderType::GFH_TYPE_BL_INFO => {
                    match GfhBlInfo::try_load(data, pos) {
                        Some(Some(header)) => {
                            let size = header.header_size();
                            if size > usize::MAX - pos {
                                return None;
                            }
                            pos = pos + size;
                            if gfh_header.gfh_bl_info.is_none() {
                                gfh_header.gfh_bl_info = Some(header);
                            }
                        },
                        _ => return None,
                    }
                },
                GfhHeaderType::GFH_TYPE_BROM_CFG => {
                    match GfhBromCfg::try_load(data, pos) {
                        Some(Some(header)) => {
                            let size = header.header_size();
                            if size > usize::MAX - pos {
                                return None;
                            }
                            pos = pos + size;
                            if gfh_header.gfh_brom_cfg.is_none() {
                                gfh_header.gfh_brom_cfg = Some(header);
                            }
                        },
                        _ => return None,
                    }
                },
                GfhHeaderType::GFH_TYPE_BL_SEC_KEY => {
                    match GfhBlSecKey::try_load(data, pos) {
                        Some(Some(header)) => {
                            let size = header.header_size();
                            if size > usize::MAX - pos {
                                return None;
                            }
                            pos = pos + size;
                            if gfh_header.gfh_bl_sec_key.is_none() {
                                gfh_header.gfh_bl_sec_key = Some(header);
                            }
                        },
                        _ => return None,
                    }
                },
                GfhHeaderType::GFH_TYPE_ANTI_CLONE => {
                    match GfhAntiClone::try_load(data, pos) {
                        Some(Some(header)) => {
                            let size = header.header_size();
                            if size > usize::MAX - pos {
                                return None;
                            }
                            pos = pos + size;
                            if gfh_header.gfh_anti_clone.is_none() {
                                gfh_header.gfh_anti_clone = Some(header);
                            }
                        },
                        _ => return None,
                    }
                },
                GfhHeaderType::GFH_TYPE_BROM_SEC_CFG => {
                    match GfhBromSecCfg::try_load(data, pos) {
                        Some(Some(header)) => {
                            let size = header.header_size();
                            if size > usize::MAX - pos {
                                return None;
                            }
                            pos = pos + size;
                            if gfh_header.gfh_brom_sec_cfg.is_none() {
                                gfh_header.gfh_brom_sec_cfg = Some(header);
                            }
                        },
                        _ => return None,
                    }
                },
                GfhHeaderType::Unknown => {},
            }
            if pos >= limit {
                return Some(Some(gfh_header));
            }
            if pos <= before {
                return None;
            }
        }
    }

    fn header_size(&self) -> (r: usize) {
        match &self.gfh_file_info {
            Some(file_info) => file_info.get_gfh_header_total_size() as usize,
            None => 0,
        }
    }
}

} // verus!
