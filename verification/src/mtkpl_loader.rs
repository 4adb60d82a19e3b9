//! Loader for raw preloader images that start with the older fixed header:
//! load address at 0x1C, size at 0x20, entry point offset at 0x28.

use vstd::prelude::*;

use std::ops::Range;

use crate::le_bytes::{read_u32_le, u32_le};
pub use crate::mtk_loaders::layout::{SectionData, SegmentFlags, SegmentMappingData};
use crate::mtk_loaders::layout::{
    append_segment_lines, clone_sections, clone_segments, section_is, segment_is, segment_lines,
};
pub use crate::mtk_loaders::magic::{
    mtkpl_header_members, mtkpl_magic, HeaderMember, MTKPL_ADDRESS_WIDTH, MTKPL_BIN_SIZE_OFFSET, MTKPL_ENTRY_POINT_OFFSET,
    MTKPL_LOAD_ADDRESS_OFFSET,
};
use crate::mtk_loaders::layout::{names_unique, same_section, same_segment};
use crate::mtk_loaders::magic::{
    first_match, lemma_mtkpl_start_after_append, lemma_mtkpl_start_in_range, mtkpl_magic_seq,
    mtkpl_start, split_at_magic,
};

verus! {

/// Flags of the preloader header segment: readable and executable.
pub open spec fn plhdr_segment_flags() -> SegmentFlags {
    SegmentFlags {
        readable: true,
        writable: false,
        executable: true,
        contains_data: false,
        contains_code: false,
        deny_write: false,
        deny_execute: false,
    }
}

/// Flags of the code and data segment: readable, writable, executable, code
/// and data.
pub open spec fn pl_code_data_flags() -> SegmentFlags {
    SegmentFlags {
        readable: true,
        writable: true,
        executable: true,
        contains_data: true,
        contains_code: true,
        deny_write: false,
        deny_execute: false,
    }
}

/// The image: the bytes of `data` from the preloader magic on.
pub open spec fn pl_image(data: Seq<u8>) -> Seq<u8> {
    data.subrange(mtkpl_start(data), data.len() as int)
}

/// `MTKPreloaderParser::new(data)` runs to completion: the image holds the
/// header fields up to 0x2C, the size is at least the entry point offset, and
/// the file offsets fit their integer types.
pub open spec fn preloader_defined(data: Seq<u8>) -> bool {
    let image = pl_image(data);
    let fo = mtkpl_start(data);
    &&& image.len() >= 0x2C
    &&& u32_le(image, 0x28) <= u32_le(image, 0x20)
    &&& fo + u32_le(image, 0x28) <= u64::MAX
    &&& fo + u32_le(image, 0x20) <= usize::MAX
}

/// What `MTKPreloaderParser::new(data)` returns: the parser over the image
/// with the bytes before the magic set aside, a header segment and section
/// `.plhdr` from the load address up to the entry point, and a code and data
/// segment and section `.code.data` from the entry point to the end of the
/// preloader.
pub open spec fn preloader_result(data: Seq<u8>, p: MTKPreloaderParser) -> bool {
    let image = pl_image(data);
    let fo = mtkpl_start(data);
    let la = u32_le(image, 0x1C) as int;
    let ps = u32_le(image, 0x20) as int;
    let eo = u32_le(image, 0x28) as int;
    let ea = la + eo;
    &&& p.image_data@ == image
    &&& p.drained_data@ == data.subrange(0, fo)
    &&& p.segment_data@.len() == 2
    &&& segment_is(p.segment_data@[0], ".plhdr"@, la, la + eo, fo, fo + eo, plhdr_segment_flags())
    &&& segment_is(
        p.segment_data@[1],
        ".code.data"@,
        ea,
        ea + (ps - eo),
        fo + eo,
        fo + ps,
        pl_code_data_flags(),
    )
    &&& p.section_data@.len() == 2
    &&& section_is(p.section_data@[0], ".plhdr"@, la, la + eo)
    &&& section_is(p.section_data@[1], ".code.data"@, ea, ea + ps - eo)
}

/// A raw preloader image, with its segments and sections.
pub struct MTKPreloaderParser {
    pub image_data: Vec<u8>,
    pub drained_data: Vec<u8>,
    pub segment_data: Vec<(String, SegmentMappingData)>,
    pub section_data: Vec<(String, SectionData)>,
}

impl MTKPreloaderParser {
    /// Loads the preloader found in `data`.
    pub fn new(data: Vec<u8>) -> (r: Self)
        requires
            preloader_defined(data@),
        ensures
            preloader_result(data@, r),
    {
        let (drained_data, image_data) = split_at_magic(data);
        let mut parser = MTKPreloaderParser {
            image_data,
            drained_data,
            segment_data: Vec::new(),
            section_data: Vec::new(),
        };
        let file_offset_to_pl_header = parser.get_file_backed_start_offset();
        let load_addr = parser.get_image_load_addr() as u64;
        let entry_offset = parser.get_entry_point_offset() as u64;
        let entry_addr = entry_offset + load_addr;
        let preloader_size = parser.get_preloader_size() as usize;
        let header_size = entry_addr - load_addr;
        let code_data_map_start = entry_addr;
        let code_data_map_end = (preloader_size as u64 - entry_offset) + entry_addr;
        let code_data_fb_start = file_offset_to_pl_header as u64 + entry_offset;
        let code_data_fb_end = (file_offset_to_pl_header + preloader_size) as u64;

        let header_seg_flags = SegmentFlags {
            readable: true,
            writable: false,
            executable: true,
            contains_data: false,
            contains_code: false,
            deny_write: false,
            deny_execute: false,
        };
        let header_segment = SegmentMappingData::new(
            Range { start: load_addr, end: load_addr + header_size },
            Range {
                start: file_offset_to_pl_header as u64,
                end: file_offset_to_pl_header as u64 + header_size,
            },
            header_seg_flags,
        );
        let header_section = SectionData::new(
            ".plhdr",
            Range { start: load_addr, end: load_addr + header_size },
        );

        let code_data_seg_flags = SegmentFlags {
            readable: true,
            writable: true,
            executable: true,
            contains_data: true,
            contains_code: true,
            deny_write: false,
            deny_execute: false,
        };
        let code_data_segment = SegmentMappingData::new(
            Range { start: code_data_map_start, end: code_data_map_end },
            Range { start: code_data_fb_start, end: code_data_fb_end },
            code_data_seg_flags,
        );
        let code_data_section = SectionData::new(
            ".code.data",
            Range { start: entry_addr, end: entry_addr + preloader_size as u64 - entry_offset },
        );

        parser.segment_data.push((".plhdr".to_owned(), header_segment));
        parser.segment_data.push((".code.data".to_owned(), code_data_segment));
        parser.section_data.push((".plhdr".to_owned(), header_section));
        parser.section_data.push((".code.data".to_owned(), code_data_section));
        parser
    }

    /// `None` exactly when `new(data)` would not run to completion; otherwise
    /// what `new(data)` returns.
    pub fn try_new(data: Vec<u8>) -> (r: Option<Self>)
        ensures
            r is Some <==> preloader_defined(data@),
            r matches Some(p) ==> preloader_result(data@, p),
    {
        let (drained, image) = split_at_magic(data.clone());
        if image.len() < 0x2C {
            return None;
        }
        let fo = drained.len();
        let size = read_u32_le(image.as_slice(), 0x20);
        let entry_offset = read_u32_le(image.as_slice(), 0x28);
        if entry_offset > size || fo as u64 > u64::MAX - entry_offset as u64 || fo > usize::MAX
            - size as usize {
            return None;
        }
        Some(Self::new(data))
    }

    /// The load address, from bytes `0x1C..0x20` of the image.
    pub fn get_image_load_addr(&self) -> (r: u32)
        requires
            self.image_data@.len() >= 0x20,
        ensures
            r == u32_le(self.image_data@, 0x1C),
    {
        read_u32_le(self.image_data.as_slice(), MTKPL_LOAD_ADDRESS_OFFSET as usize)
    }

    /// The entry point offset, from bytes `0x28..0x2C` of the image.
    pub fn get_entry_point_offset(&self) -> (r: u32)
        requires
            self.image_data@.len() >= 0x2C,
        ensures
            r == u32_le(self.image_data@, 0x28),
    {
        read_u32_le(self.image_data.as_slice(), MTKPL_ENTRY_POINT_OFFSET as usize)
    }

    /// The entry point: load address plus entry point offset, added as `u32`.
    pub fn get_entry_point(&self) -> (r: u64)
        requires
            self.image_data@.len() >= 0x2C,
            u32_le(self.image_data@, 0x1C) + u32_le(self.image_data@, 0x28) <= u32::MAX,
        ensures
            r == u32_le(self.image_data@, 0x1C) + u32_le(self.image_data@, 0x28),
    {
        (self.get_image_load_addr() + self.get_entry_point_offset()) as u64
    }

    /// The preloader size, from bytes `0x20..0x24` of the image.
    pub fn get_preloader_size(&self) -> (r: u32)
        requires
            self.image_data@.len() >= 0x24,
        ensures
            r == u32_le(self.image_data@, 0x20),
    {
        read_u32_le(self.image_data.as_slice(), MTKPL_BIN_SIZE_OFFSET as usize)
    }

    /// Where the image starts in the buffer it was loaded from.
    pub fn get_file_backed_start_offset(&self) -> (r: usize)
        ensures
            r == self.drained_data@.len(),
    {
        self.drained_data.len()
    }

    pub fn get_segments(&self) -> (r: Vec<(String, SegmentMappingData)>)
        ensures
            r@ == self.segment_data@,
    {
        clone_segments(&self.segment_data)
    }

    pub fn get_sections(&self) -> (r: Vec<(String, SectionData)>)
        ensures
            r@ == self.section_data@,
    {
        clone_sections(&self.section_data)
    }

    /// A summary of where the header and the code and data are mapped.
    pub fn to_display_string(&self) -> (r: String)
        ensures
            r@ == "Loaded Preloader Data:\n"@ + segment_lines(self.segment_data@, ".plhdr"@)
                + segment_lines(self.segment_data@, ".code.data"@),
    {
        let mut s = String::new();
        s.append("Loaded Preloader Data:\n");
        append_segment_lines(&mut s, &self.segment_data, ".plhdr");
        append_segment_lines(&mut s, &self.segment_data, ".code.data");
        assert(s@ =~= "Loaded Preloader Data:\n"@ + segment_lines(self.segment_data@, ".plhdr"@)
            + segment_lines(self.segment_data@, ".code.data"@));
        s
    }
}

/// Loading keeps every byte of the input: the bytes set aside before the
/// magic, followed by the image, give back `data`.
pub proof fn lemma_preloader_keeps_bytes(data: Seq<u8>, p: MTKPreloaderParser)
    requires
        preloader_result(data, p),
    ensures
        p.drained_data@ + p.image_data@ == data,
        p.drained_data@.len() == mtkpl_start(data),
{
    lemma_mtkpl_start_in_range(data);
    assert(p.drained_data@ + p.image_data@ =~= data);
}

/// Each section covers exactly the addresses of the segment at the same
/// position, under the same name; the two names differ; and each segment is
/// as long in memory as in the file.
pub proof fn lemma_preloader_layout(data: Seq<u8>, p: MTKPreloaderParser)
    requires
        preloader_result(data, p),
    ensures
        p.section_data@.len() == p.segment_data@.len(),
        forall|i: int|
            0 <= i < p.segment_data@.len() ==> {
                &&& #[trigger] p.section_data@[i].0@ == p.segment_data@[i].0@
                &&& p.section_data@[i].1.mapped_addr_range
                    == p.segment_data@[i].1.mapped_addr_range
                &&& p.segment_data@[i].1.mapped_addr_range.end
                    - p.segment_data@[i].1.mapped_addr_range.start
                    == p.segment_data@[i].1.file_backing.end
                    - p.segment_data@[i].1.file_backing.start
            },
        names_unique(p.segment_data@),
        names_unique(p.section_data@),
{
    reveal_strlit(".plhdr");
    reveal_strlit(".code.data");
    assert(".plhdr"@.len() == 6);
    assert(".code.data"@.len() == 10);
    assert forall|i: int, j: int|
        0 <= i < p.segment_data@.len() && 0 <= j < p.segment_data@.len() && i != j implies
            p.segment_data@[i].0@ != p.segment_data@[j].0@ by {
        assert(p.segment_data@[i].0@.len() != p.segment_data@[j].0@.len());
    }
    assert forall|i: int, j: int|
        0 <= i < p.section_data@.len() && 0 <= j < p.section_data@.len() && i != j implies
            p.section_data@[i].0@ != p.section_data@[j].0@ by {
        assert(p.section_data@[i].0@.len() != p.section_data@[j].0@.len());
    }
}

/// Bytes after the preloader do not matter: the declared size decides what is
/// mapped, not the buffer's length. Appending bytes to a buffer that loads
/// (one that holds the magic, or whose longer form holds none) leaves it
/// loadable, with the same segments and sections, the same bytes set aside,
/// and the appended bytes at the end of the image.
pub proof fn lemma_preloader_ignores_trailing_bytes(
    data: Seq<u8>,
    extra: Seq<u8>,
    p: MTKPreloaderParser,
    q: MTKPreloaderParser,
)
    requires
        first_match(data, mtkpl_magic_seq()) is Some || first_match(
            data + extra,
            mtkpl_magic_seq(),
        ) is None,
        preloader_defined(data),
        preloader_result(data, p),
        preloader_result(data + extra, q),
    ensures
        preloader_defined(data + extra),
        q.segment_data@.len() == p.segment_data@.len(),
        forall|i: int|
            0 <= i < p.segment_data@.len() ==> same_segment(
                #[trigger] q.segment_data@[i],
                p.segment_data@[i],
            ),
        q.section_data@.len() == p.section_data@.len(),
        forall|i: int|
            0 <= i < p.section_data@.len() ==> same_section(
                #[trigger] q.section_data@[i],
                p.section_data@[i],
            ),
        q.drained_data@ == p.drained_data@,
        q.image_data@ == p.image_data@ + extra,
{
    lemma_mtkpl_start_after_append(data, extra);
    let image = pl_image(data);
    let image2 = pl_image(data + extra);
    assert(image2 == image + extra);
    assert forall|i: int| 0 <= i < 0x2C implies image2[i] == image[i] by {}
    assert(u32_le(image2, 0x1C) == u32_le(image, 0x1C));
    assert(u32_le(image2, 0x20) == u32_le(image, 0x20));
    assert(u32_le(image2, 0x28) == u32_le(image, 0x28));
}

} // verus!
