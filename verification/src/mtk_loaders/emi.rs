//! The EMI (external memory interface) settings blob and the signature at the
//! end of a preloader image.
//!
//! Within the first `size` bytes of the image, the last `signature_length`
//! bytes before `size` start the signature, which runs to the end of the
//! buffer. Just before the signature stands the EMI blob, followed by its
//! length as a little-endian `u32`. The blob begins with a 0x18-byte
//! bootloader name string.

use vstd::prelude::*;
use vstd::utf8::{decode_utf8, valid_utf8};

use crate::le_bytes::{bytes_in, read_u32_le, u32_le};
use crate::text::string_from_utf8;

verus! {

/// The offset where the signature starts: `size - signature_length`.
pub open spec fn signature_offset(signature_length: int, size: int) -> int {
    size - signature_length
}

/// The EMI blob's length, stored in the four bytes before the signature.
pub open spec fn emi_data_size(data: Seq<u8>, signature_length: int, size: int) -> int {
    u32_le(data, signature_offset(signature_length, size) - 4) as int
}

/// The offset where the EMI blob starts.
pub open spec fn emi_offset(data: Seq<u8>, signature_length: int, size: int) -> int {
    signature_offset(signature_length, size) - emi_data_size(data, signature_length, size) - 4
}

/// The bytes of the bootloader name: the first 0x18 bytes of the EMI blob.
pub open spec fn bloader_name_bytes(data: Seq<u8>, signature_length: int, size: int) -> Seq<u8> {
    let start = emi_offset(data, signature_length, size);
    data.subrange(start, start + 0x18)
}

/// The layout can be read from `data`: the signature offset lies inside the
/// buffer, the length field and the EMI blob fit before it, the blob holds
/// the 0x18-byte name, and the name is valid UTF-8.
pub open spec fn emi_defined(data: Seq<u8>, signature_length: int, size: int) -> bool {
    let sig_off = signature_offset(signature_length, size);
    let emi = emi_data_size(data, signature_length, size);
    &&& 0 <= signature_length <= size
    &&& 4 <= sig_off <= data.len()
    &&& emi + 4 <= sig_off
    &&& 0x18 <= emi
    &&& valid_utf8(bloader_name_bytes(data, signature_length, size))
}

/// The EMI blob, its bootloader name, and the signature found in an image.
pub struct GeneralEMIInformation {
    pub mtk_bloader_string: String,
    pub emi_file_offset: usize,
    pub emi_buffer: Vec<u8>,
    pub signature_buffer: Vec<u8>,
    pub signature_file_offset: usize,
}

/// `e` holds what the layout of `data` gives.
pub open spec fn emi_parsed(
    e: GeneralEMIInformation,
    data: Seq<u8>,
    signature_length: int,
    size: int,
) -> bool {
    let sig_off = signature_offset(signature_length, size);
    let start = emi_offset(data, signature_length, size);
    &&& e.mtk_bloader_string@ == decode_utf8(bloader_name_bytes(data, signature_length, size))
    &&& e.emi_buffer@ == data.subrange(start, sig_off - 4)
    &&& e.emi_file_offset == start
    &&& e.signature_file_offset == sig_off
    &&& e.signature_buffer@ == data.subrange(sig_off, data.len() as int)
}

impl GeneralEMIInformation {
    pub fn new(data: &Vec<u8>, signature_length: usize, size: usize) -> (r: Self)
        requires
            emi_defined(data@, signature_length as int, size as int),
        ensures
            emi_parsed(r, data@, signature_length as int, size as int),
    {
        let mut emi_info = GeneralEMIInformation {
            mtk_bloader_string: String::new(),
            emi_file_offset: 0,
            emi_buffer: Vec::new(),
            signature_buffer: Vec::new(),
            signature_file_offset: 0,
        };
        emi_info.parse_bloader_emi(data, signature_length, size);
        emi_info
    }

    /// `None` exactly when `new` would read outside `data` or meet a name that
    /// is not valid UTF-8; otherwise what `new` returns.
    pub fn try_new(data: &Vec<u8>, signature_length: usize, size: usize) -> (r: Option<Self>)
        ensures
            r is Some <==> emi_defined(data@, signature_length as int, size as int),
            r matches Some(e) ==> emi_parsed(e, data@, signature_length as int, size as int),
    {
        if signature_length > size || size - signature_length > data.len() || size
            - signature_length < 4 {
            return None;
        }
        let sig_off = size - signature_length;
        let emi_data_size = read_u32_le(data.as_slice(), sig_off - 4) as usize;
        if emi_data_size > sig_off - 4 || emi_data_size < 0x18 {
            return None;
        }
        let start = sig_off - emi_data_size - 4;
        let name = bytes_in(data.as_slice(), start, start + 0x18);
        if string_from_utf8(name).is_none() {
            return None;
        }
        Some(Self::new(data, signature_length, size))
    }

    pub fn parse_bloader_emi(&mut self, data: &Vec<u8>, signature_length: usize, size: usize)
        requires
            emi_defined(data@, signature_length as int, size as int),
        ensures
            emi_parsed(*final(self), data@, signature_length as int, size as int),
    {
        let sig_off = size - signature_length;
        let emi_data_size = read_u32_le(data.as_slice(), sig_off - 4) as usize;
        let start = sig_off - emi_data_size - 4;
        let name = bytes_in(data.as_slice(), start, start + 0x18);
        self.mtk_bloader_string = match string_from_utf8(name) {
            Some(s) => s,
            None => String::new(),
        };
        self.emi_buffer = bytes_in(data.as_slice(), start, sig_off - 4);
        self.emi_file_offset = start;
        self.signature_file_offset = sig_off;
        self.signature_buffer = bytes_in(data.as_slice(), sig_off, data.len());
    }

    pub fn get_emi_data_blob(&self) -> (r: Vec<u8>)
        ensures
            r@ == self.emi_buffer@,
    {
        self.emi_buffer.clone()
    }

    pub fn get_bloader_str(&self) -> (r: String)
        ensures
            r@ == self.mtk_bloader_string@,
    {
        self.mtk_bloader_string.clone()
    }

    pub fn get_emi_file_offset(&self) -> (r: usize)
        ensures
            r == self.emi_file_offset,
    {
        self.emi_file_offset
    }
}

/// The image ends with the EMI blob, its four length bytes, and the
/// signature, laid end to end: the blob ends 4 bytes before the signature
/// starts, and the signature runs to the end of the buffer.
pub proof fn lemma_emi_layout_contiguous(
    e: GeneralEMIInformation,
    data: Seq<u8>,
    signature_length: int,
    size: int,
)
    requires
        emi_defined(data, signature_length, size),
        emi_parsed(e, data, signature_length, size),
    ensures
        e.emi_file_offset + e.emi_buffer@.len() + 4 == e.signature_file_offset,
        e.signature_file_offset + e.signature_buffer@.len() == data.len(),
        e.emi_buffer@.len() == emi_data_size(data, signature_length, size),
{
}

/// The EMI blob's length is the whole little-endian `u32` in the four bytes
/// just before the signature: the blob holds that many bytes and starts that
/// many bytes before those four.
pub proof fn lemma_emi_length_is_le_u32_before_signature(
    e: GeneralEMIInformation,
    data: Seq<u8>,
    signature_length: int,
    size: int,
)
    requires
        emi_defined(data, signature_length, size),
        emi_parsed(e, data, signature_length, size),
    ensures
        ({
            let k = size - signature_length - 4;
            let len = data[k] as int + 0x100 * (data[k + 1] as int) + 0x1_0000 * (data[k + 2] as int)
                + 0x100_0000 * (data[k + 3] as int);
            &&& e.emi_buffer@.len() == len
            &&& e.emi_file_offset == k - len
            &&& e.signature_file_offset == size - signature_length
        }),
{
}

/// The EMI blob and its name are found from the end of the preloader, not
/// the end of the buffer: with bytes appended after the buffer the layout can
/// still be read, the blob's length and offset are unchanged, and so is the
/// name.
pub proof fn lemma_emi_ignores_appended_bytes(
    data: Seq<u8>,
    extra: Seq<u8>,
    signature_length: int,
    size: int,
)
    requires
        emi_defined(data, signature_length, size),
    ensures
        emi_defined(data + extra, signature_length, size),
        emi_data_size(data + extra, signature_length, size) == emi_data_size(
            data,
            signature_length,
            size,
        ),
        emi_offset(data + extra, signature_length, size) == emi_offset(data, signature_length, size),
        bloader_name_bytes(data + extra, signature_length, size) == bloader_name_bytes(
            data,
            signature_length,
            size,
        ),
{
    let d2 = data + extra;
    let k = signature_offset(signature_length, size) - 4;
    assert(d2[k] == data[k] && d2[k + 1] == data[k + 1] && d2[k + 2] == data[k + 2] && d2[k + 3]
        == data[k + 3]);
    let start = emi_offset(data, signature_length, size);
    assert(d2.subrange(start, start + 0x18) =~= data.subrange(start, start + 0x18));
}

} // verus!
