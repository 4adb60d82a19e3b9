//! The file-info header (type 0): load address, sizes and entry offset of the
//! preloader image.

use vstd::prelude::*;

use crate::le_bytes::{bytes_to_array, read_array, read_u16_le, read_u32_le, u16_le, u32_le};
use crate::mtk_loaders::gfh_headers::gfh_common::{
    common_at, common_header_text, has_gfh_magic, GfhCommonHeader,
};
use crate::text::{append_digits, digits, str_debug, str_debug_text, string_from_utf8};
use vstd::utf8::{decode_utf8, valid_utf8};
use crate::mtk_loaders::gfh_headers::MtkGfhHeader;

verus! {

/// The file-info header.
#[derive(Debug, Clone, Copy)]
pub struct GfhFileInfo {
    pub gfh_common: GfhCommonHeader,
    pub name: [u8; 12],
    pub unused: u32,
    pub file_type: u16,
    pub flash_type: u8,
    pub sig_type: u8,
    pub load_addr: u32,
    pub total_size: u32,
    pub max_size: u32,
    pub hdr_size: u32,
    pub sig_size: u32,
    pub jump_offset: u32,
    pub processed: u32,
}

/// The file-info header whose common header stands at `data[o..o + 8]`.
///
/// The body fields are taken from the fixed positions `data[8..56]`, whatever
/// `o` is: the body is read right after the first common header of the image.
pub open spec fn file_info_at(data: Seq<u8>, o: int) -> GfhFileInfo {
    GfhFileInfo {
        gfh_common: common_at(data, o),
        name: bytes_to_array::<12>(data.subrange(8, 20)),
        unused: u32_le(data, 20),
        file_type: u16_le(data, 24),
        flash_type: data[26],
        sig_type: data[27],
        load_addr: u32_le(data, 28),
        total_size: u32_le(data, 32),
        max_size: u32_le(data, 36),
        hdr_size: u32_le(data, 40),
        sig_size: u32_le(data, 44),
        jump_offset: u32_le(data, 48),
        processed: u32_le(data, 52),
    }
}

/// `<label>0x<value>` with the value in upper-case hexadecimal.
pub open spec fn hex_field(label: Seq<char>, value: nat) -> Seq<char> {
    label + "0x"@ + digits(value, 16)
}

/// The text of a file-info header: its common header, the name quoted and
/// escaped as `str`'s `Debug` writes it, and the other fields in upper-case
/// hexadecimal, one per indented line, framed by `GfhFileInfo { ... }`.
pub open spec fn file_info_text(fi: GfhFileInfo) -> Seq<char> {
    "\nGfhFileInfo {\n"@ + common_header_text(fi.gfh_common) + "\n    name: "@ + str_debug_text(
        decode_utf8(fi.name@),
    ) + hex_field("\n    unused: "@, fi.unused as nat) + hex_field(
        "\n    file_type: "@,
        fi.file_type as nat,
    ) + hex_field("\n    flash_type: "@, fi.flash_type as nat) + hex_field(
        "\n    sig_type: "@,
        fi.sig_type as nat,
    ) + hex_field("\n    load_addr: "@, fi.load_addr as nat) + hex_field(
        "\n    total_size: "@,
        fi.total_size as nat,
    ) + hex_field("\n    max_size: "@, fi.max_size as nat) + hex_field(
        "\n    hdr_size: "@,
        fi.hdr_size as nat,
    ) + hex_field("\n    sig_size: "@, fi.sig_size as nat) + hex_field(
        "\n    jump_offset: "@,
        fi.jump_offset as nat,
    ) + hex_field("\n    processed: "@, fi.processed as nat) + "\n}\n"@
}

/// Appends `<label>0x<value>`.
fn append_hex_field(s: &mut String, label: &str, value: u64)
    ensures
        final(s)@ == old(s)@ + hex_field(label@, value as nat),
{
    s.append(label);
    s.append("0x");
    append_digits(s, value, 16);
    assert(final(s)@ =~= old(s)@ + hex_field(label@, value as nat));
}

impl GfhFileInfo {
    /// The fields as text, one per line. The name must be UTF-8.
    pub fn to_display_string(&self) -> (r: String)
        requires
            valid_utf8(self.name@),
        ensures
            r@ == file_info_text(*self),
    {
        let mut name_bytes: Vec<u8> = Vec::new();
        let mut i: usize = 0;
        while i < 12
            invariant
                i <= 12,
                name_bytes@ == self.name@.subrange(0, i as int),
            decreases 12 - i,
        {
            name_bytes.push(self.name[i]);
            i = i + 1;
            assert(name_bytes@ =~= self.name@.subrange(0, i as int));
        }
        assert(name_bytes@ =~= self.name@);
        let name = match string_from_utf8(name_bytes) {
            Some(name) => name,
            None => String::new(),
        };
        let mut s = String::new();
        s.append("\nGfhFileInfo {\n");
        let common = self.gfh_common.to_display_string();
        s.append(common.as_str());
        s.append("\n    name: ");
        let quoted = str_debug(name.as_str());
        s.append(quoted.as_str());
        append_hex_field(&mut s, "\n    unused: ", self.unused as u64);
        append_hex_field(&mut s, "\n    file_type: ", self.file_type as u64);
        append_hex_field(&mut s, "\n    flash_type: ", self.flash_type as u64);
        append_hex_field(&mut s, "\n    sig_type: ", self.sig_type as u64);
        append_hex_field(&mut s, "\n    load_addr: ", self.load_addr as u64);
        append_hex_field(&mut s, "\n    total_size: ", self.total_size as u64);
        append_hex_field(&mut s, "\n    max_size: ", self.max_size as u64);
        append_hex_field(&mut s, "\n    hdr_size: ", self.hdr_size as u64);
        append_hex_field(&mut s, "\n    sig_size: ", self.sig_size as u64);
        append_hex_field(&mut s, "\n    jump_offset: ", self.jump_offset as u64);
        append_hex_field(&mut s, "\n    processed: ", self.processed as u64);
        s.append("\n}\n");
        assert(s@ =~= file_info_text(*self));
        s
    }

    /// The total size of the GFH header chain.
    pub fn get_gfh_header_total_size(&self) -> (r: u32)
        ensures
            r == self.hdr_size,
    {
        self.hdr_size
    }

    pub fn get_load_addr(&self) -> (r: u32)
        ensures
            r == self.load_addr,
    {
        self.load_addr
    }

    pub fn get_jump_offset(&self) -> (r: u32)
        ensures
            r == self.jump_offset,
    {
        self.jump_offset
    }

    pub fn get_total_size(&self) -> (r: u32)
        ensures
            r == self.total_size,
    {
        self.total_size
    }

    pub fn get_hdr_size(&self) -> (r: u32)
        ensures
            r == self.hdr_size,
    {
        self.hdr_size
    }

    pub fn get_signature_size(&self) -> (r: u32)
        ensures
            r == self.sig_size,
    {
        self.sig_size
    }

    pub fn get_hdr_full_size(&self) -> (r: u32)
        ensures
            r == self.hdr_size,
    {
        self.hdr_size
    }
}

impl MtkGfhHeader for GfhFileInfo {
    type Header = GfhFileInfo;

    open spec fn load_defined(data: Seq<u8>, offset: int) -> bool {
        &&& GfhCommonHeader::load_defined(data, offset)
        &&& has_gfh_magic(data, offset) ==> 56 <= data.len()
    }

    open spec fn spec_load(data: Seq<u8>, offset: int) -> Option<GfhFileInfo> {
        if has_gfh_magic(data, offset) {
            Some(file_info_at(data, offset))
        } else {
            None
        }
    }

    open spec fn header_size_defined(&self) -> bool {
        true
    }

    open spec fn spec_header_size(&self) -> int {
        self.gfh_common.size as int
    }

    fn load(data: &[u8], offset: usize) -> (r: Option<GfhFileInfo>) {
        let gfh_common = match GfhCommonHeader::load(data, offset) {
            Some(c) => c,
            None => return None,
        };
        proof {
            assert(data@.len() == data.len());
        }
        let pos: usize = gfh_common.get_size() as usize;
        let name: [u8; 12] = read_array::<12>(data, pos);
        let unused = read_u32_le(data, pos + 12);
        let file_type = read_u16_le(data, pos + 16);
        let flash_type = data[pos + 18];
        let sig_type = data[pos + 19];
        let load_addr = read_u32_le(data, pos + 20);
        let total_size = read_u32_le(data, pos + 24);
        let max_size = read_u32_le(data, pos + 28);
        let hdr_size = read_u32_le(data, pos + 32);
        let sig_size = read_u32_le(data, pos + 36);
        let jump_offset = read_u32_le(data, pos + 40);
        let processed = read_u32_le(data, pos + 44);
        Some(
            GfhFileInfo {
                gfh_common,
                name,
                unused,
                file_type,
                flash_type,
                sig_type,
                load_addr,
                total_size,
                max_size,
                hdr_size,
                sig_size,
                jump_offset,
                processed,
            },
        )
    }

    fn try_load(data: &[u8], offset: usize) -> (r: Option<Option<GfhFileInfo>>) {
        match GfhCommonHeader::try_load(data, offset) {
            None => None,
            Some(None) => Some(None),
            Some(Some(_)) => {
                if data.len() < 56 {
                    None
                } else {
                    Some(Self::load(data, offset))
                }
            },
        }
    }

    fn header_size(&self) -> (r: usize) {
        self.gfh_common.header_size()
    }
}

} // verus!
