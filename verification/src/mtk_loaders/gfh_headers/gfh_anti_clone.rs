//! The anti-clone header (type 2).

use vstd::prelude::*;

use crate::le_bytes::{read_u16_le, read_u32_le, u16_le, u32_le};
use crate::mtk_loaders::gfh_headers::gfh_common::{common_at, has_gfh_magic, GfhCommonHeader};
use crate::mtk_loaders::gfh_headers::MtkGfhHeader;

verus! {

/// The anti-clone header.
#[derive(Debug, Clone, Copy)]
pub struct GfhAntiClone {
    pub gfh_common: GfhCommonHeader,
    pub ac_b2k: u8,
    pub ac_b2c: u8,
    pub pad: u16,
    pub ac_offset: u32,
    pub ac_len: u32,
}

/// The anti-clone header at `data[o..o + 20]`.
pub open spec fn anti_clone_at(data: Seq<u8>, o: int) -> GfhAntiClone {
    GfhAntiClone {
        gfh_common: common_at(data, o),
        ac_b2k: data[o + 8],
        ac_b2c: data[o + 9],
        pad: u16_le(data, o + 10),
        ac_offset: u32_le(data, o + 12),
        ac_len: u32_le(data, o + 16),
    }
}

impl MtkGfhHeader for GfhAntiClone {
    type Header = GfhAntiClone;

    open spec fn load_defined(data: Seq<u8>, offset: int) -> bool {
        &&& GfhCommonHeader::load_defined(data, offset)
        &&& has_gfh_magic(data, offset) ==> offset + 20 <= data.len()
    }

    open spec fn spec_load(data: Seq<u8>, offset: int) -> Option<GfhAntiClone> {
        if has_gfh_magic(data, offset) {
            Some(anti_clone_at(data, offset))
        } else {
            None
        }
    }

    open spec fn header_size_defined(&self) -> bool {
        true
    }

    open spec fn spec_header_size(&self) -> int {
        self.gfh_common.size as int
    }

    fn load(data: &[u8], offset: usize) -> (r: Option<GfhAntiClone>) {
        let gfh_common = match GfhCommonHeader::load(data, offset) {
            Some(c) => c,
            None => return None,
        };
        proof {
            assert(data@.len() == data.len());
        }
        let pos = offset + gfh_common.get_size() as usize;
        let ac_b2k = data[pos];
        let ac_b2c = data[pos + 1];
        let pad = read_u16_le(data, pos + 2);
        let ac_offset = read_u32_le(data, pos + 4);
        let ac_len = read_u32_le(data, pos + 8);
        Some(GfhAntiClone { gfh_common, ac_b2k, ac_b2c, pad, ac_offset, ac_len })
    }

    fn try_load(data: &[u8], offset: usize) -> (r: Option<Option<GfhAntiClone>>) {
        match GfhCommonHeader::try_load(data, offset) {
            None => None,
            Some(None) => Some(None),
            Some(Some(_)) => {
                if data.len() - offset < 20 {
                    None
                } else {
                    Some(Self::load(data, offset))
                }
            },
        }
    }

    fn header_size(&self) -> (r: usize) {
        self.gfh_common.header_size()
    }
}

} // verus!
