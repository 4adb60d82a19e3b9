//! Loader for GFH-based MediaTek preloader images.

pub mod emi;
pub mod gfh_headers;
pub mod layout;
pub mod magic;

use vstd::prelude::*;

pub use crate::mtk_loaders::layout::{SectionData, SegmentMappingData};
pub use crate::mtk_loaders::magic::{
    MTKPL_ADDRESS_WIDTH, MTKPL_BIN_SIZE_OFFSET, MTKPL_ENTRY_POINT_OFFSET, MTKPL_LOAD_ADDRESS_OFFSET,
};

use std::ops::Range;

use crate::le_bytes::{read_u32_le, u32_le};
use crate::mtk_loaders::emi::{
    emi_data_size, emi_defined, emi_offset, emi_parsed, signature_offset, GeneralEMIInformation,
};
use crate::mtk_loaders::gfh_headers::gfh_file_info::GfhFileInfo;
use crate::mtk_loaders::gfh_headers::{GfhHeader, MtkGfhHeader};
use crate::mtk_loaders::layout::{
    append_segment_lines, clone_sections, clone_segments, section_is, segment_is, segment_lines,
    SegmentFlags,
};
use crate::mtk_loaders::gfh_headers::{
    lemma_gfh_load_ignores_appended_bytes, lemma_load_slots_hold_their_kind,
};
use crate::mtk_loaders::emi::lemma_emi_ignores_appended_bytes;
use crate::mtk_loaders::layout::{names_unique, same_section, same_segment};
use crate::mtk_loaders::magic::{
    first_match, lemma_mtkpl_start_after_append, lemma_mtkpl_start_in_range, mtkpl_magic_seq,
    mtkpl_start, split_at_magic,
};

verus! {

/// Flags of the GFH header segment: readable and executable.
pub open spec fn gfh_segment_flags() -> SegmentFlags {
    SegmentFlags {
        readable: true,
        writable: false,
        executable: true,
        contains_data: false,
        contains_code: false,
        deny_write: false,
        deny_execute: false,
    }
}

/// Flags of the code and data segment: readable, writable, executable, code
/// and data.
pub open spec fn code_data_segment_flags() -> SegmentFlags {
    SegmentFlags {
        readable: true,
        writable: true,
        executable: true,
        contains_data: true,
        contains_code: true,
        deny_write: false,
        deny_execute: false,
    }
}

/// Flags of the EMI and signature segments: readable data.
pub open spec fn data_segment_flags() -> SegmentFlags {
    SegmentFlags {
        readable: true,
        writable: false,
        executable: false,
        contains_data: true,
        contains_code: false,
        deny_write: false,
        deny_execute: false,
    }
}

/// The image: the bytes of `data` from the preloader magic on.
pub open spec fn boot_image(data: Seq<u8>) -> Seq<u8> {
    data.subrange(mtkpl_start(data), data.len() as int)
}

/// The GFH chain read at the start of the image.
pub open spec fn boot_gfh(data: Seq<u8>) -> GfhHeader {
    GfhHeader::spec_load(boot_image(data), 0).unwrap()
}

/// The segment arithmetic stays within `u64` and never goes below zero, for
/// the image `image` found `fo` bytes into the buffer, with file info `fi`.
pub open spec fn boot_layout_defined(image: Seq<u8>, fo: int, fi: GfhFileInfo) -> bool {
    let ps = fi.total_size as int;
    let sig = fi.sig_size as int;
    let hfs = fi.hdr_size as int;
    let eo = fi.jump_offset as int;
    let la = fi.load_addr as int;
    let emi = emi_data_size(image, sig, ps);
    &&& hfs + sig + emi + 4 <= ps
    &&& eo + sig + emi <= ps
    &&& fo + hfs <= u64::MAX
    &&& 4 <= fo + hfs + (ps - eo - sig - emi) <= u64::MAX
    &&& la + image.len() <= u64::MAX
}

/// `MTKBootRomLoader::new(data)` runs to completion: the GFH chain at the
/// start of the image can be read and is there, and, when it has a file-info
/// header, the EMI trailer can be read and the segment arithmetic neither
/// underflows nor overflows.
pub open spec fn boot_loader_defined(data: Seq<u8>) -> bool {
    let image = boot_image(data);
    &&& GfhHeader::load_defined(image, 0)
    &&& GfhHeader::spec_load(image, 0) is Some
    &&& match boot_gfh(data).gfh_file_info {
        None => true,
        Some(fi) => {
            &&& emi_defined(image, fi.sig_size as int, fi.total_size as int)
            &&& boot_layout_defined(image, mtkpl_start(data), fi)
        },
    }
}

/// The four segments and four sections of a loaded image: the GFH header, the
/// code and data, the EMI blob and the signature, in that order.
pub open spec fn boot_layout(pl: MTKBootRomLoader, image: Seq<u8>, fo: int, fi: GfhFileInfo) -> bool {
    let ps = fi.total_size as int;
    let sig = fi.sig_size as int;
    let hfs = fi.hdr_size as int;
    let hs = fi.hdr_size as int;
    let eo = fi.jump_offset as int;
    let la = fi.load_addr as int;
    let emi = emi_data_size(image, sig, ps);
    let emi_off = emi_offset(image, sig, ps);
    let sig_off = signature_offset(sig, ps);
    let sig_len = image.len() - sig_off;
    let code_map_start = hfs + la;
    let code_map_end = code_map_start + (ps - hfs - sig - emi - 4);
    let code_fb_start = fo + hfs;
    let code_fb_end = code_fb_start + (ps - eo - sig - emi) - 4;
    &&& pl.segment_data@.len() == 4
    &&& segment_is(pl.segment_data@[0], ".gfh"@, la, la + hs, fo, fo + hs, gfh_segment_flags())
    &&& segment_is(
        pl.segment_data@[1],
        ".code.data"@,
        code_map_start,
        code_map_end,
        code_fb_start,
        code_fb_end,
        code_data_segment_flags(),
    )
    &&& segment_is(
        pl.segment_data@[2],
        ".emi.data"@,
        la + emi_off,
        la + emi_off + emi,
        emi_off,
        emi_off + emi,
        data_segment_flags(),
    )
    &&& segment_is(
        pl.segment_data@[3],
        ".signature.data"@,
        la + sig_off,
        la + sig_off + sig_len,
        sig_off,
        sig_off + sig_len,
        data_segment_flags(),
    )
    &&& pl.section_data@.len() == 4
    &&& section_is(pl.section_data@[0], ".gfh"@, la, la + hs)
    &&& section_is(pl.section_data@[1], ".code.data"@, code_map_start, code_map_end)
    &&& section_is(pl.section_data@[2], ".emi.data"@, la + emi_off, la + emi_off + emi)
    &&& section_is(pl.section_data@[3], ".signature.data"@, la + sig_off, la + sig_off + sig_len)
}

/// What `MTKBootRomLoader::new(data)` returns: `Err(())` when the GFH chain
/// has no file-info header, and otherwise the loader over the image with the
/// bytes before the magic set aside and the layout of `boot_layout`.
pub open spec fn boot_loader_result(data: Seq<u8>, r: Result<MTKBootRomLoader, ()>) -> bool {
    let fo = mtkpl_start(data);
    let image = boot_image(data);
    match boot_gfh(data).gfh_file_info {
        None => r is Err,
        Some(fi) => r matches Ok(pl) && {
            &&& pl.image_data@ == image
            &&& pl.drained_data@ == data.subrange(0, fo)
            &&& boot_layout(pl, image, fo, fi)
        },
    }
}

/// A preloader image, with its segments and sections.
pub struct MTKBootRomLoader {
    pub image_data: Vec<u8>,
    pub drained_data: Vec<u8>,
    pub segment_data: Vec<(String, SegmentMappingData)>,
    pub section_data: Vec<(String, SectionData)>,
}

impl MTKBootRomLoader {
    /// Loads the preloader found in `data`.
    pub fn new(data: Vec<u8>) -> (r: Result<Self, ()>)
        requires
            boot_loader_defined(data@),
        ensures
            boot_loader_result(data@, r),
    {
        match Self::try_new(data) {
            Some(r) => r,
            None => Err(()),
        }
    }

    /// `None` exactly when `new(data)` would not run to completion; otherwise
    /// what `new(data)` returns.
    pub fn try_new(data: Vec<u8>) -> (r: Option<Result<Self, ()>>)
        ensures
            r is Some <==> boot_loader_defined(data@),
            r matches Some(res) ==> boot_loader_result(data@, res),
    {
        let ghost input = data@;
        let (drained_data, image_data) = split_at_magic(data);
        let mtkl = match GfhHeader::try_load(image_data.as_slice(), 0) {
            Some(Some(h)) => h,
            _ => return None,
        };
        let file_offset_to_gfh_header = drained_data.len();
        let file_info = match mtkl.get_gfh_file_info() {
            Some(fi) => fi,
            None => return Some(Err(())),
        };
        let load_addr = file_info.get_load_addr() as u64;
        let entry_offset = file_info.get_jump_offset() as u64;
        let hdr_full_size = file_info.get_hdr_full_size() as u64;
        let preloader_size = file_info.get_total_size() as usize;
        let header_size = file_info.get_hdr_size() as u64;
        let signature_length = file_info.get_signature_size();

        let emi_parser = match GeneralEMIInformation::try_new(
            &image_data,
            signature_length as usize,
            preloader_size,
        ) {
            Some(e) => e,
            None => return None,
        };
        let emi_len = emi_parser.emi_buffer.len() as u64;
        let ps = preloader_size as u64;
        let sig = signature_length as u64;
        let fo = file_offset_to_gfh_header as u64;

        if ps < hdr_full_size || ps - hdr_full_size < sig || ps - hdr_full_size - sig < emi_len
            || ps - hdr_full_size - sig - emi_len < 4 {
            return None;
        }
        if ps < entry_offset || ps - entry_offset < sig || ps - entry_offset - sig < emi_len {
            return None;
        }
        if fo > u64::MAX - hdr_full_size {
            return None;
        }
        let code_span = ps - entry_offset - sig - emi_len;
        if fo + hdr_full_size > u64::MAX - code_span || fo + hdr_full_size + code_span < 4 {
            return None;
        }
        if load_addr > u64::MAX - image_data.len() as u64 {
            return None;
        }
        proof {
            crate::mtk_loaders::emi::lemma_emi_layout_contiguous(
                emi_parser,
                image_data@,
                signature_length as int,
                preloader_size as int,
            );
        }

        let code_data_map_start = hdr_full_size + load_addr;
        let code_data_map_end = code_data_map_start + (ps - hdr_full_size - sig - emi_len - 0x4);
        let code_data_fb_start = fo + hdr_full_size;
        let code_data_fb_end = code_data_fb_start + code_span - 0x4;

        let emi_map_start = load_addr + emi_parser.emi_file_offset as u64;
        let emi_map_end = emi_map_start + emi_len;
        let emi_fb_start = emi_parser.emi_file_offset as u64;
        let emi_fb_end = emi_parser.emi_file_offset as u64 + emi_len;

        let signature_len = emi_parser.signature_buffer.len() as u64;
        let signature_map_start = load_addr + emi_parser.signature_file_offset as u64;
        let signature_map_end = signature_map_start + signature_len;
        let signature_fb_start = emi_parser.signature_file_offset as u64;
        let signature_fb_end = emi_parser.signature_file_offset as u64 + signature_len;

        let header_seg_flags = SegmentFlags {
            readable: true,
            writable: false,
            executable: true,
            contains_data: false,
            contains_code: false,
            deny_write: false,
            deny_execute: false,
        };
        let header_segment = SegmentMappingData::new(
            Range { start: load_addr, end: load_addr + header_size },
            Range { start: fo, end: fo + header_size },
            header_seg_flags,
        );
        let header_section = SectionData::new(
            ".gfh",
            Range { start: load_addr, end: load_addr + header_size },
        );

        let code_data_seg_flags = SegmentFlags {
            readable: true,
            writable: true,
            executable: true,
            contains_data: true,
            contains_code: true,
            deny_write: false,
            deny_execute: false,
        };
        let code_data_segment = SegmentMappingData::new(
            Range { start: code_data_map_start, end: code_data_map_end },
            Range { start: code_data_fb_start, end: code_data_fb_end },
            code_data_seg_flags,
        );
        let code_data_section = SectionData::new(
            ".code.data",
            Range { start: code_data_map_start, end: code_data_map_end },
        );

        let emi_data_seg_flags = SegmentFlags {
            readable: true,
            writable: false,
            executable: false,
            contains_data: true,
            contains_code: false,
            deny_write: false,
            deny_execute: false,
        };
        let emi_data_segment = SegmentMappingData::new(
            Range { start: emi_map_start, end: emi_map_end },
            Range { start: emi_fb_start, end: emi_fb_end },
            emi_data_seg_flags,
        );
        let emi_data_section = SectionData::new(
            ".emi.data",
            Range { start: emi_map_start, end: emi_map_end },
        );

        let signature_data_seg_flags = SegmentFlags {
            readable: true,
            writable: false,
            executable: false,
            contains_data: true,
            contains_code: false,
            deny_write: false,
            deny_execute: false,
        };
        let signature_data_segment = SegmentMappingData::new(
            Range { start: signature_map_start, end: signature_map_end },
            Range { start: signature_fb_start, end: signature_fb_end },
            signature_data_seg_flags,
        );
        let signature_data_section = SectionData::new(
            ".signature.data",
            Range { start: signature_map_start, end: signature_map_end },
        );

        let mut segment_data: Vec<(String, SegmentMappingData)> = Vec::new();
        let mut section_data: Vec<(String, SectionData)> = Vec::new();
        segment_data.push((".gfh".to_owned(), header_segment));
        segment_data.push((".code.data".to_owned(), code_data_segment));
        segment_data.push((".emi.data".to_owned(), emi_data_segment));
        segment_data.push((".signature.data".to_owned(), signature_data_segment));
        section_data.push((".gfh".to_owned(), header_section));
        section_data.push((".code.data".to_owned(), code_data_section));
        section_data.push((".emi.data".to_owned(), emi_data_section));
        section_data.push((".signature.data".to_owned(), signature_data_section));

        Some(Ok(MTKBootRomLoader { image_data, drained_data, segment_data, section_data }))
    }

    /// The load address, from bytes `0x1C..0x20` of the image.
    pub fn get_image_load_addr(&self) -> (r: u32)
        requires
            self.image_data@.len() >= 0x20,
        ensures
            r == u32_le(self.image_data@, 0x1C),
    {
        read_u32_le(self.image_data.as_slice(), MTKPL_LOAD_ADDRESS_OFFSET as usize)
    }

    /// The entry point offset, from bytes `0x28..0x2C` of the image.
    pub fn get_entry_point_offset(&self) -> (r: u32)
        requires
            self.image_data@.len() >= 0x2C,
        ensures
            r == u32_le(self.image_data@, 0x28),
    {
        read_u32_le(self.image_data.as_slice(), MTKPL_ENTRY_POINT_OFFSET as usize)
    }

    /// The entry point: load address plus entry point offset, added as `u32`.
    pub fn get_entry_point(&self) -> (r: u64)
        requires
            self.image_data@.len() >= 0x2C,
            u32_le(self.image_data@, 0x1C) + u32_le(self.image_data@, 0x28) <= u32::MAX,
        ensures
            r == u32_le(self.image_data@, 0x1C) + u32_le(self.image_data@, 0x28),
    {
        (self.get_image_load_addr() + self.get_entry_point_offset()) as u64
    }

    /// The preloader size, from bytes `0x20..0x24` of the image.
    pub fn get_preloader_size(&self) -> (r: u32)
        requires
            self.image_data@.len() >= 0x24,
        ensures
            r == u32_le(self.image_data@, 0x20),
    {
        read_u32_le(self.image_data.as_slice(), MTKPL_BIN_SIZE_OFFSET as usize)
    }

    /// The signature length stored 4 bytes after `ep_offset`.
    pub fn get_signature_length(&self, ep_offset: usize) -> (r: u32)
        requires
            ep_offset + 8 <= self.image_data@.len(),
        ensures
            r == u32_le(self.image_data@, ep_offset + 4),
    {
        proof {
            assert(self.image_data@.len() == self.image_data.len());
        }
        read_u32_le(self.image_data.as_slice(), ep_offset + MTKPL_ADDRESS_WIDTH as usize)
    }

    /// Where the image starts in the buffer it was loaded from.
    pub fn get_file_backed_start_offset(&self) -> (r: usize)
        ensures
            r == self.drained_data@.len(),
    {
        self.drained_data.len()
    }

    pub fn get_segments(&self) -> (r: Vec<(String, SegmentMappingData)>)
        ensures
            r@ == self.segment_data@,
    {
        clone_segments(&self.segment_data)
    }

    pub fn get_sections(&self) -> (r: Vec<(String, SectionData)>)
        ensures
            r@ == self.section_data@,
    {
        clone_sections(&self.section_data)
    }

    /// A summary of where the header and the code and data are mapped.
    pub fn to_display_string(&self) -> (r: String)
        ensures
            r@ == "Loaded Preloader Data:\n"@ + segment_lines(self.segment_data@, ".gfh"@)
                + segment_lines(self.segment_data@, ".code.data"@),
    {
        let mut s = String::new();
        s.append("Loaded Preloader Data:\n");
        append_segment_lines(&mut s, &self.segment_data, ".gfh");
        append_segment_lines(&mut s, &self.segment_data, ".code.data");
        assert(s@ =~= "Loaded Preloader Data:\n"@ + segment_lines(self.segment_data@, ".gfh"@)
            + segment_lines(self.segment_data@, ".code.data"@));
        s
    }
}

/// Loading keeps every byte of the input: the bytes set aside before the
/// magic, followed by the image, give back `data`.
pub proof fn lemma_boot_loader_keeps_bytes(data: Seq<u8>, pl: MTKBootRomLoader)
    requires
        boot_loader_result(data, Ok(pl)),
    ensures
        pl.drained_data@ + pl.image_data@ == data,
        pl.drained_data@.len() == mtkpl_start(data),
{
    lemma_mtkpl_start_in_range(data);
    assert(pl.drained_data@ + pl.image_data@ =~= data);
}

/// Each section covers exactly the addresses of the segment at the same
/// position, under the same name, and no two segments (or sections) share a
/// name.
pub proof fn lemma_boot_sections_mirror_segments(data: Seq<u8>, pl: MTKBootRomLoader)
    requires
        boot_loader_result(data, Ok(pl)),
    ensures
        pl.section_data@.len() == pl.segment_data@.len(),
        forall|i: int|
            0 <= i < pl.segment_data@.len() ==> {
                &&& #[trigger] pl.section_data@[i].0@ == pl.segment_data@[i].0@
                &&& pl.section_data@[i].1.mapped_addr_range
                    == pl.segment_data@[i].1.mapped_addr_range
            },
        names_unique(pl.segment_data@),
        names_unique(pl.section_data@),
{
    reveal_strlit(".gfh");
    reveal_strlit(".code.data");
    reveal_strlit(".emi.data");
    reveal_strlit(".signature.data");
    assert(".gfh"@.len() == 4);
    assert(".code.data"@.len() == 10);
    assert(".emi.data"@.len() == 9);
    assert(".signature.data"@.len() == 15);
    assert forall|i: int, j: int|
        0 <= i < pl.segment_data@.len() && 0 <= j < pl.segment_data@.len() && i != j implies
            pl.segment_data@[i].0@ != pl.segment_data@[j].0@ by {
        assert(pl.segment_data@[i].0@.len() != pl.segment_data@[j].0@.len());
    }
    assert forall|i: int, j: int|
        0 <= i < pl.section_data@.len() && 0 <= j < pl.section_data@.len() && i != j implies
            pl.section_data@[i].0@ != pl.section_data@[j].0@ by {
        assert(pl.section_data@[i].0@.len() != pl.section_data@[j].0@.len());
    }
}

/// The header, EMI and signature segments are as long in memory as in the
/// file; the code and data segment is mapped with `jump_offset - hdr_size`
/// bytes more than the file gives it.
pub proof fn lemma_boot_segment_lengths(data: Seq<u8>, pl: MTKBootRomLoader)
    requires
        boot_loader_result(data, Ok(pl)),
    ensures
        forall|i: int|
            0 <= i < 4 && i != 1 ==> #[trigger] pl.segment_data@[i].1.mapped_addr_range.end
                - pl.segment_data@[i].1.mapped_addr_range.start
                == pl.segment_data@[i].1.file_backing.end
                - pl.segment_data@[i].1.file_backing.start,
        ({
            let fi = boot_gfh(data).gfh_file_info.unwrap();
            let seg = pl.segment_data@[1].1;
            (seg.mapped_addr_range.end - seg.mapped_addr_range.start) - (seg.file_backing.end
                - seg.file_backing.start) == fi.jump_offset - fi.hdr_size
        }),
{
}

/// On a loaded image, the header fields at the fixed offsets 0x1C, 0x20 and
/// 0x28 (what `get_image_load_addr`, `get_preloader_size` and
/// `get_entry_point_offset` read) are the load address, total size and header
/// size of the file-info header that `new` used.
pub proof fn lemma_boot_fixed_offsets_match_file_info(data: Seq<u8>, pl: MTKBootRomLoader)
    requires
        boot_loader_defined(data),
        boot_loader_result(data, Ok(pl)),
    ensures
        pl.image_data@.len() >= 0x2C,
        u32_le(pl.image_data@, 0x1C) == boot_gfh(data).gfh_file_info.unwrap().load_addr,
        u32_le(pl.image_data@, 0x20) == boot_gfh(data).gfh_file_info.unwrap().total_size,
        u32_le(pl.image_data@, 0x28) == boot_gfh(data).gfh_file_info.unwrap().hdr_size,
{
    lemma_load_slots_hold_their_kind(boot_image(data), 0);
}

/// `q` is the loader `p` with `extra` appended to its buffer: the same bytes
/// set aside, the image followed by `extra`, and the same segments and
/// sections, but for the signature, which starts where it did and ends
/// `extra.len()` bytes later.
pub open spec fn boot_loader_extended(p: MTKBootRomLoader, q: MTKBootRomLoader, extra: Seq<u8>) -> bool {
    let ps = p.segment_data@[3];
    let qs = q.segment_data@[3];
    let pc = p.section_data@[3];
    let qc = q.section_data@[3];
    &&& q.drained_data@ == p.drained_data@
    &&& q.image_data@ == p.image_data@ + extra
    &&& p.segment_data@.len() == 4 && q.segment_data@.len() == 4
    &&& p.section_data@.len() == 4 && q.section_data@.len() == 4
    &&& forall|i: int| 0 <= i < 3 ==> same_segment(#[trigger] q.segment_data@[i], p.segment_data@[i])
    &&& forall|i: int| 0 <= i < 3 ==> same_section(#[trigger] q.section_data@[i], p.section_data@[i])
    &&& qs.0@ == ps.0@
    &&& qs.1.mapped_segment_flags == ps.1.mapped_segment_flags
    &&& qs.1.mapped_addr_range.start == ps.1.mapped_addr_range.start
    &&& qs.1.mapped_addr_range.end == ps.1.mapped_addr_range.end + extra.len()
    &&& qs.1.file_backing.start == ps.1.file_backing.start
    &&& qs.1.file_backing.end == ps.1.file_backing.end + extra.len()
    &&& qc.0@ == pc.0@
    &&& qc.1.name@ == pc.1.name@
    &&& qc.1.mapped_addr_range.start == pc.1.mapped_addr_range.start
    &&& qc.1.mapped_addr_range.end == pc.1.mapped_addr_range.end + extra.len()
}

/// Bytes after the preloader's total size do not stop it from loading, as in
/// a partition dump: appending bytes to a buffer that loads (one that holds
/// the magic, or whose longer form holds none) leaves it loadable, as long as
/// the signature's addresses still fit a `u64`. The header, code and data and
/// EMI segments stay as they were; the signature runs to the new end of the
/// buffer.
pub proof fn lemma_boot_loader_ignores_trailing_bytes(
    data: Seq<u8>,
    extra: Seq<u8>,
    r1: Result<MTKBootRomLoader, ()>,
    r2: Result<MTKBootRomLoader, ()>,
)
    requires
        first_match(data, mtkpl_magic_seq()) is Some || first_match(
            data + extra,
            mtkpl_magic_seq(),
        ) is None,
        boot_loader_defined(data),
        boot_gfh(data).gfh_file_info matches Some(fi) ==> fi.load_addr + boot_image(data).len()
            + extra.len() <= u64::MAX,
        boot_loader_result(data, r1),
        boot_loader_result(data + extra, r2),
    ensures
        boot_loader_defined(data + extra),
        r1 is Ok <==> r2 is Ok,
        match (r1, r2) {
            (Ok(p), Ok(q)) => boot_loader_extended(p, q, extra),
            _ => true,
        },
{
    lemma_mtkpl_start_after_append(data, extra);
    let image = boot_image(data);
    let image2 = boot_image(data + extra);
    assert(image2 == image + extra);
    lemma_gfh_load_ignores_appended_bytes(image, extra, 0);
    assert(boot_gfh(data + extra) == boot_gfh(data));
    if let Some(fi) = boot_gfh(data).gfh_file_info {
        lemma_emi_ignores_appended_bytes(image, extra, fi.sig_size as int, fi.total_size as int);
    }
}

} // verus!
