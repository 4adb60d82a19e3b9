//! The boot-ROM security configuration header (type 8).

use vstd::prelude::*;

use crate::le_bytes::{bytes_to_array, read_array, read_u32_le, u32_le};
use crate::mtk_loaders::gfh_headers::gfh_common::{common_at, has_gfh_magic, GfhCommonHeader};
use crate::mtk_loaders::gfh_headers::MtkGfhHeader;

verus! {

/// The boot-ROM security configuration header.
#[derive(Debug, Clone, Copy)]
pub struct GfhBromSecCfg {
    pub gfh_common: GfhCommonHeader,
    pub cfg_bits: u32,
    pub customer_name: [u8; 0x20],
    pub pad: u32,
}

/// The security configuration header at `data[o..o + 48]`.
pub open spec fn brom_sec_cfg_at(data: Seq<u8>, o: int) -> GfhBromSecCfg {
    GfhBromSecCfg {
        gfh_common: common_at(data, o),
        cfg_bits: u32_le(data, o + 8),
        customer_name: bytes_to_array::<0x20>(data.subrange(o + 12, o + 44)),
        pad: u32_le(data, o + 44),
    }
}

impl MtkGfhHeader for GfhBromSecCfg {
    type Header = GfhBromSecCfg;

    open spec fn load_defined(data: Seq<u8>, offset: int) -> bool {
        &&& GfhCommonHeader::load_defined(data, offset)
        &&& has_gfh_magic(data, offset) ==> offset + 48 <= data.len()
    }

    open spec fn spec_load(data: Seq<u8>, offset: int) -> Option<GfhBromSecCfg> {
        if has_gfh_magic(data, offset) {
            Some(brom_sec_cfg_at(data, offset))
        } else {
            None
        }
    }

    open spec fn header_size_defined(&self) -> bool {
        true
    }

    open spec fn spec_header_size(&self) -> int {
        self.gfh_common.size as int
    }

    fn load(data: &[u8], offset: usize) -> (r: Option<GfhBromSecCfg>) {
        let gfh_common = match GfhCommonHeader::load(data, offset) {
            Some(c) => c,
            None => return None,
        };
        proof {
            assert(data@.len() == data.len());
        }
        let pos = offset + gfh_common.get_size() as usize;
        let cfg_bits = read_u32_le(data, pos);
        let customer_name: [u8; 0x20] = read_array::<0x20>(data, pos + 4);
        let pad = read_u32_le(data, pos + 36);
        Some(GfhBromSecCfg { gfh_common, cfg_bits, customer_name, pad })
    }

    fn try_load(data: &[u8], offset: usize) -> (r: Option<Option<GfhBromSecCfg>>) {
        match GfhCommonHeader::try_load(data, offset) {
            None => None,
            Some(None) => Some(None),
            Some(Some(_)) => {
                if data.len() - offset < 48 {
                    None
                } else {
                    Some(Self::load(data, offset))
                }
            },
        }
    }

    fn header_size(&self) -> (r: usize) {
        self.gfh_common.header_size()
    }
}

} // verus!
