//! The boot-ROM configuration header (type 7).

use vstd::prelude::*;

use crate::le_bytes::{bytes_to_array, read_array, read_u32_le, u32_le};
use crate::mtk_loaders::gfh_headers::gfh_common::{common_at, has_gfh_magic, GfhCommonHeader};
use crate::mtk_loaders::gfh_headers::MtkGfhHeader;

verus! {

/// The boot-ROM configuration header.
#[derive(Debug, Clone, Copy)]
pub struct GfhBromCfg {
    pub gfh_common: GfhCommonHeader,
    pub cfg_bits: u32,
    pub usbdl_by_auto_detect_timeout_ms: u32,
    pub unused: [u8; 0x45],
    pub jump_bl_arm64: u8,
    pub unused2: [u8; 0x2],
    pub usbdl_by_kcol0_timeout_ms: u32,
    pub usbdl_by_flag_timeout_ms: u32,
    pub pad: u32,
}

/// The boot-ROM configuration header at `data[o..o + 100]`.
pub open spec fn brom_cfg_at(data: Seq<u8>, o: int) -> GfhBromCfg {
    GfhBromCfg {
        gfh_common: common_at(data, o),
        cfg_bits: u32_le(data, o + 8),
        usbdl_by_auto_detect_timeout_ms: u32_le(data, o + 12),
        unused: bytes_to_array::<0x45>(data.subrange(o + 16, o + 16 + 0x45)),
        jump_bl_arm64: data[o + 85],
        unused2: bytes_to_array::<0x2>(data.subrange(o + 86, o + 88)),
        usbdl_by_kcol0_timeout_ms: u32_le(data, o + 88),
        usbdl_by_flag_timeout_ms: u32_le(data, o + 92),
        pad: u32_le(data, o + 96),
    }
}

impl MtkGfhHeader for GfhBromCfg {
    type Header = GfhBromCfg;

    open spec fn load_defined(data: Seq<u8>, offset: int) -> bool {
        &&& GfhCommonHeader::load_defined(data, offset)
        &&& has_gfh_magic(data, offset) ==> offset + 100 <= data.len()
    }

    open spec fn spec_load(data: Seq<u8>, offset: int) -> Option<GfhBromCfg> {
        if has_gfh_magic(data, offset) {
            Some(brom_cfg_at(data, offset))
        } else {
            None
        }
    }

    open spec fn header_size_defined(&self) -> bool {
        true
    }

    open spec fn spec_header_size(&self) -> int {
        self.gfh_common.size as int
    }

    fn load(data: &[u8], offset: usize) -> (r: Option<GfhBromCfg>) {
        let gfh_common = match GfhCommonHeader::load(data, offset) {
            Some(c) => c,
            None => return None,
        };
        proof {
            assert(data@.len() == data.len());
        }
        let pos = offset + gfh_common.get_size() as usize;
        let cfg_bits = read_u32_le(data, pos);
        let usbdl_by_auto_detect_timeout_ms = read_u32_le(data, pos + 4);
        let unused: [u8; 0x45] = read_array::<0x45>(data, pos + 8);
        let jump_bl_arm64 = data[pos + 77];
        let unused2: [u8; 0x2] = read_array::<0x2>(data, pos + 78);
        let usbdl_by_kcol0_timeout_ms = read_u32_le(data, pos + 80);
        let usbdl_by_flag_timeout_ms = read_u32_le(data, pos + 84);
        let pad = read_u32_le(data, pos + 88);
        Some(
            GfhBromCfg {
                gfh_common,
                cfg_bits,
                usbdl_by_auto_detect_timeout_ms,
                unused,
                jump_bl_arm64,
                unused2,
                usbdl_by_kcol0_timeout_ms,
                usbdl_by_flag_timeout_ms,
                pad,
            },
        )
    }

    fn try_load(data: &[u8], offset: usize) -> (r: Option<Option<GfhBromCfg>>) {
        match GfhCommonHeader::try_load(data, offset) {
            None => None,
            Some(None) => Some(None),
            Some(Some(_)) => {
                if data.len() - offset < 100 {
                    None
                } else {
                    Some(Self::load(data, offset))
                }
            },
        }
    }

    fn header_size(&self) -> (r: usize) {
        self.gfh_common.header_size()
    }
}

} // verus!
