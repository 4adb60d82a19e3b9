//! The 8-byte common header that starts every GFH header: magic and version,
//! size, and type.

use vstd::prelude::*;

use crate::le_bytes::{read_u16_le, read_u32_le, u16_le, u32_le};
use crate::mtk_loaders::gfh_headers::MtkGfhHeader;
pub use crate::mtk_loaders::gfh_headers::gfh_type::{
    code_of_type, gfh_type_name, type_of_code, GfhHeaderType,
};
use crate::text::{append_digits, digits};

verus! {

impl vstd::std_specs::convert::FromSpecImpl<u16> for GfhHeaderType {
    open spec fn obeys_from_spec() -> bool {
        true
    }

    open spec fn from_spec(v: u16) -> Self {
        type_of_code(v)
    }
}

/// The header type that a type code stands for.
impl From<u16> for GfhHeaderType {
    fn from(value: u16) -> (r: Self) {
        GfhHeaderType::from_code(value)
    }
}

impl vstd::std_specs::convert::FromSpecImpl<GfhHeaderType> for u16 {
    open spec fn obeys_from_spec() -> bool {
        true
    }

    open spec fn from_spec(t: GfhHeaderType) -> Self {
        code_of_type(t)
    }
}

/// The type code of a header type.
impl From<GfhHeaderType> for u16 {
    fn from(t: GfhHeaderType) -> (r: u16) {
        t.code()
    }
}

/// The common header that starts every GFH header.
#[derive(Debug, Clone, Copy)]
pub struct GfhCommonHeader {
    pub magic_version: u32,
    pub size: u16,
    pub gfh_type: GfhHeaderType,
}

/// The three magic bytes `4D 4D 4D` stand at `data[o..o + 3]`.
pub open spec fn has_gfh_magic(data: Seq<u8>, o: int) -> bool {
    data[o] == 0x4D && data[o + 1] == 0x4D && data[o + 2] == 0x4D
}

/// The common header stored at `data[o..o + 8]`: magic and version (u32),
/// size (u16) and type code (u16), all little-endian.
pub open spec fn common_at(data: Seq<u8>, o: int) -> GfhCommonHeader {
    GfhCommonHeader {
        magic_version: u32_le(data, o),
        size: u16_le(data, o + 4),
        gfh_type: type_of_code(u16_le(data, o + 6)),
    }
}

/// The text of a common header: magic and version and size in upper-case
/// hexadecimal, then the type's name, one per indented line.
pub open spec fn common_header_text(h: GfhCommonHeader) -> Seq<char> {
    "    magic_version: 0x"@ + digits(h.magic_version as nat, 16) + "\n    size: 0x"@ + digits(
        h.size as nat,
        16,
    ) + "\n    gfh_type: "@ + gfh_type_name(h.gfh_type)
}

impl GfhCommonHeader {
    /// The fields as text, one per indented line.
    pub fn to_display_string(&self) -> (r: String)
        ensures
            r@ == common_header_text(*self),
    {
        let mut s = String::new();
        s.append("    magic_version: 0x");
        append_digits(&mut s, self.magic_version as u64, 16);
        s.append("\n    size: 0x");
        append_digits(&mut s, self.size as u64, 16);
        s.append("\n    gfh_type: ");
        s.append(self.gfh_type.name());
        assert(s@ =~= common_header_text(*self));
        s
    }

    /// The size of the common header itself, which is always 8.
    pub fn get_size(&self) -> (r: u16)
        ensures
            r == 8,
    {
        8
    }

    pub fn get_type(&self) -> (r: GfhHeaderType)
        ensures
            r == self.gfh_type,
    {
        self.gfh_type
    }
}

impl MtkGfhHeader for GfhCommonHeader {
    type Header = GfhCommonHeader;

    /// The four magic and version bytes must be there, and, when the magic
    /// matches, the size and type fields too.
    open spec fn load_defined(data: Seq<u8>, offset: int) -> bool {
        &&& 0 <= offset
        &&& offset + 4 <= data.len()
        &&& has_gfh_magic(data, offset) ==> offset + 8 <= data.len()
    }

    open spec fn spec_load(data: Seq<u8>, offset: int) -> Option<GfhCommonHeader> {
        if has_gfh_magic(data, offset) {
            Some(common_at(data, offset))
        } else {
            None
        }
    }

    open spec fn header_size_defined(&self) -> bool {
        true
    }

    /// The size that the header records for itself and its body.
    open spec fn spec_header_size(&self) -> int {
        self.size as int
    }

    fn load(data: &[u8], offset: usize) -> (r: Option<GfhCommonHeader>) {
        if data[offset] != 0x4D || data[offset + 1] != 0x4D || data[offset + 2] != 0x4D {
            return None;
        }
        let magic_version = read_u32_le(data, offset);
        let size = read_u16_le(data, offset + 4);
        let code = read_u16_le(data, offset + 6);
        let gfh_type = GfhHeaderType::from_code(code);
        Some(GfhCommonHeader { magic_version, size, gfh_type })
    }

    fn try_load(data: &[u8], offset: usize) -> (r: Option<Option<GfhCommonHeader>>) {
        if offset > data.len() || data.len() - offset < 4 {
            return None;
        }
        if data[offset] == 0x4D && data[offset + 1] == 0x4D && data[offset + 2] == 0x4D
            && data.len() - offset < 8 {
            return None;
        }
        Some(Self::load(data, offset))
    }

    fn header_size(&self) -> (r: usize) {
        self.size as usize
    }
}

} // verus!
