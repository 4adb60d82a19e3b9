//! The bootloader-info header (type 1).

use vstd::prelude::*;

use crate::le_bytes::{read_u32_le, u32_le};
use crate::mtk_loaders::gfh_headers::gfh_common::{
    common_at, common_header_text, has_gfh_magic, GfhCommonHeader,
};
use crate::text::{append_digits, digits};
use crate::mtk_loaders::gfh_headers::MtkGfhHeader;

verus! {

/// The bootloader-info header, with the offset it was read at.
#[derive(Debug, Clone, Copy)]
pub struct GfhBlInfo {
    pub gfh_type_offset: u32,
    pub gfh_common: GfhCommonHeader,
    pub attr: u32,
}

/// The bootloader-info header at `data[o..o + 12]`; the offset is kept
/// truncated to 32 bits.
pub open spec fn bl_info_at(data: Seq<u8>, o: int) -> GfhBlInfo {
    GfhBlInfo { gfh_type_offset: o as u32, gfh_common: common_at(data, o), attr: u32_le(data, o + 8) }
}

/// The text of a bootloader-info header: its common header, then the
/// attribute in decimal on an indented line.
pub open spec fn bl_info_text(h: GfhBlInfo) -> Seq<char> {
    common_header_text(h.gfh_common) + "\n    attr: "@ + digits(h.attr as nat, 10)
}

impl GfhBlInfo {
    /// The fields as text.
    pub fn to_display_string(&self) -> (r: String)
        ensures
            r@ == bl_info_text(*self),
    {
        let mut s = self.gfh_common.to_display_string();
        s.append("\n    attr: ");
        append_digits(&mut s, self.attr as u64, 10);
        assert(s@ =~= bl_info_text(*self));
        s
    }

    /// The offset at which this header was read.
    pub fn get_header_offset(&self) -> (r: u32)
        ensures
            r == self.gfh_type_offset,
    {
        self.gfh_type_offset
    }
}

impl MtkGfhHeader for GfhBlInfo {
    type Header = GfhBlInfo;

    open spec fn load_defined(data: Seq<u8>, offset: int) -> bool {
        &&& GfhCommonHeader::load_defined(data, offset)
        &&& has_gfh_magic(data, offset) ==> offset + 12 <= data.len()
    }

    open spec fn spec_load(data: Seq<u8>, offset: int) -> Option<GfhBlInfo> {
        if has_gfh_magic(data, offset) {
            Some(bl_info_at(data, offset))
        } else {
            None
        }
    }

    open spec fn header_size_defined(&self) -> bool {
        true
    }

    open spec fn spec_header_size(&self) -> int {
        self.gfh_common.size as int
    }

    fn load(data: &[u8], offset: usize) -> (r: Option<GfhBlInfo>) {
        let gfh_type_offset = #[verifier::truncate] (offset as u32);
        let gfh_common = match GfhCommonHeader::load(data, offset) {
            Some(c) => c,
            None => return None,
        };
        proof {
            assert(data@.len() == data.len());
        }
        let pos = offset + gfh_common.get_size() as usize;
        let attr = read_u32_le(data, pos);
        Some(GfhBlInfo { gfh_type_offset, gfh_common, attr })
    }

    fn try_load(data: &[u8], offset: usize) -> (r: Option<Option<GfhBlInfo>>) {
        match GfhCommonHeader::try_load(data, offset) {
            None => None,
            Some(None) => Some(None),
            Some(Some(_)) => {
                if data.len() - offset < 12 {
                    None
                } else {
                    Some(Self::load(data, offset))
                }
            },
        }
    }

    fn header_size(&self) -> (r: usize) {
        self.gfh_common.header_size()
    }
}

} // verus!
