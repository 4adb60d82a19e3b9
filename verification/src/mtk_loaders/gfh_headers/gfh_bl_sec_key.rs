//! The bootloader security-key header (type 3).

use vstd::prelude::*;

use crate::le_bytes::{bytes_to_array, read_array};
use crate::mtk_loaders::gfh_headers::gfh_common::{common_at, has_gfh_magic, GfhCommonHeader};
use crate::mtk_loaders::gfh_headers::MtkGfhHeader;

verus! {

/// The bootloader security-key header: the common header and 0x20c key bytes.
#[derive(Debug, Clone, Copy)]
pub struct GfhBlSecKey {
    pub gfh_common: GfhCommonHeader,
    pub pad: [u8; 0x20c],
}

/// The security-key header at `data[o..o + 8 + 0x20c]`.
pub open spec fn bl_sec_key_at(data: Seq<u8>, o: int) -> GfhBlSecKey {
    GfhBlSecKey {
        gfh_common: common_at(data, o),
        pad: bytes_to_array::<0x20c>(data.subrange(o + 8, o + 8 + 0x20c)),
    }
}

impl MtkGfhHeader for GfhBlSecKey {
    type Header = GfhBlSecKey;

    open spec fn load_defined(data: Seq<u8>, offset: int) -> bool {
        &&& GfhCommonHeader::load_defined(data, offset)
        &&& has_gfh_magic(data, offset) ==> offset + 8 + 0x20c <= data.len()
    }

    open spec fn spec_load(data: Seq<u8>, offset: int) -> Option<GfhBlSecKey> {
        if has_gfh_magic(data, offset) {
            Some(bl_sec_key_at(data, offset))
        } else {
            None
        }
    }

    open spec fn header_size_defined(&self) -> bool {
        true
    }

    open spec fn spec_header_size(&self) -> int {
        self.gfh_common.size as int
    }

    fn load(data: &[u8], offset: usize) -> (r: Option<GfhBlSecKey>) {
        let gfh_common = match GfhCommonHeader::load(data, offset) {
            Some(c) => c,
            None => return None,
        };
        proof {
            assert(data@.len() == data.len());
        }
        let pos = offset + gfh_common.get_size() as usize;
        let pad: [u8; 0x20c] = read_array::<0x20c>(data, pos);
        Some(GfhBlSecKey { gfh_common, pad })
    }

    fn try_load(data: &[u8], offset: usize) -> (r: Option<Option<GfhBlSecKey>>) {
        match GfhCommonHeader::try_load(data, offset) {
            None => None,
            Some(None) => Some(None),
            Some(Some(_)) => {
                if data.len() - offset < 8 + 0x20c {
                    None
                } else {
                    Some(Self::load(data, offset))
                }
            },
        }
    }

    fn header_size(&self) -> (r: usize) {
        self.gfh_common.header_size()
    }
}

} // verus!
