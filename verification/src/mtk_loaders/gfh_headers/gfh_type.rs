//! The kind of a GFH header, and its 16-bit type code.

use vstd::prelude::*;

verus! {

/// The kind of a GFH header, from the type field of its common header.
#[allow(non_camel_case_types)]
#[derive(Debug, Clone, Copy, PartialEq, Eq, Structural)]
pub enum GfhHeaderType {
    GFH_TYPE_FILE_INFO,
    GFH_TYPE_BL_INFO,
    GFH_TYPE_ANTI_CLONE,
    GFH_TYPE_BL_SEC_KEY,
    GFH_TYPE_BROM_CFG,
    GFH_TYPE_BROM_SEC_CFG,
    Unknown,
}

/// The header type that a type code stands for.
pub open spec fn type_of_code(code: u16) -> GfhHeaderType {
    if code == 0 {
        GfhHeaderType::GFH_TYPE_FILE_INFO
    } else if code == 1 {
        GfhHeaderType::GFH_TYPE_BL_INFO
    } else if code == 2 {
        GfhHeaderType::GFH_TYPE_ANTI_CLONE
    } else if code == 3 {
        GfhHeaderType::GFH_TYPE_BL_SEC_KEY
    } else if code == 7 {
        GfhHeaderType::GFH_TYPE_BROM_CFG
    } else if code == 8 {
        GfhHeaderType::GFH_TYPE_BROM_SEC_CFG
    } else {
        GfhHeaderType::Unknown
    }
}

/// The type code of a header type; `Unknown` has code `0xffff`.
pub open spec fn code_of_type(t: GfhHeaderType) -> u16 {
    match t {
        GfhHeaderType::GFH_TYPE_FILE_INFO => 0,
        GfhHeaderType::GFH_TYPE_BL_INFO => 1,
        GfhHeaderType::GFH_TYPE_ANTI_CLONE => 2,
        GfhHeaderType::GFH_TYPE_BL_SEC_KEY => 3,
        GfhHeaderType::GFH_TYPE_BROM_CFG => 7,
        GfhHeaderType::GFH_TYPE_BROM_SEC_CFG => 8,
        GfhHeaderType::Unknown => 0xffff,
    }
}

/// The printable name of a header type.
pub open spec fn gfh_type_name(t: GfhHeaderType) -> Seq<char> {
    match t {
        GfhHeaderType::GFH_TYPE_FILE_INFO => "GFH_TYPE_FILE_INFO"@,
        GfhHeaderType::GFH_TYPE_BL_INFO => "GFH_TYPE_BL_INFO"@,
        GfhHeaderType::GFH_TYPE_ANTI_CLONE => "GFH_TYPE_ANTI_CLONE"@,
        GfhHeaderType::GFH_TYPE_BL_SEC_KEY => "GFH_TYPE_BL_SEC_KEY"@,
        GfhHeaderType::GFH_TYPE_BROM_CFG => "GFH_TYPE_BROM_CFG"@,
        GfhHeaderType::GFH_TYPE_BROM_SEC_CFG => "GFH_TYPE_BROM_SEC_CFG"@,
        GfhHeaderType::Unknown => "GFH_UNKNOWN"@,
    }
}

impl GfhHeaderType {
    /// The printable name of this header type.
    pub fn name(&self) -> (r: &'static str)
        ensures
            r@ == gfh_type_name(*self),
    {
        match self {
            GfhHeaderType::GFH_TYPE_FILE_INFO => "GFH_TYPE_FILE_INFO",
            GfhHeaderType::GFH_TYPE_BL_INFO => "GFH_TYPE_BL_INFO",
            GfhHeaderType::GFH_TYPE_ANTI_CLONE => "GFH_TYPE_ANTI_CLONE",
            GfhHeaderType::GFH_TYPE_BL_SEC_KEY => "GFH_TYPE_BL_SEC_KEY",
            GfhHeaderType::GFH_TYPE_BROM_CFG => "GFH_TYPE_BROM_CFG",
            GfhHeaderType::GFH_TYPE_BROM_SEC_CFG => "GFH_TYPE_BROM_SEC_CFG",
            GfhHeaderType::Unknown => "GFH_UNKNOWN",
        }
    }

    /// The header type that a type code stands for.
    pub fn from_code(value: u16) -> (r: Self)
        ensures
            r == type_of_code(value),
    {
        if value == 0 {
            GfhHeaderType::GFH_TYPE_FILE_INFO
        } else if value == 1 {
            GfhHeaderType::GFH_TYPE_BL_INFO
        } else if value == 2 {
            GfhHeaderType::GFH_TYPE_ANTI_CLONE
        } else if value == 3 {
            GfhHeaderType::GFH_TYPE_BL_SEC_KEY
        } else if value == 7 {
            GfhHeaderType::GFH_TYPE_BROM_CFG
        } else if value == 8 {
            GfhHeaderType::GFH_TYPE_BROM_SEC_CFG
        } else {
            GfhHeaderType::Unknown
        }
    }

    /// The type code of this header type; `Unknown` gives `0xffff`.
    pub fn code(self) -> (r: u16)
        ensures
            r == code_of_type(self),
    {
        match self {
            GfhHeaderType::GFH_TYPE_FILE_INFO => 0,
            GfhHeaderType::GFH_TYPE_BL_INFO => 1,
            GfhHeaderType::GFH_TYPE_ANTI_CLONE => 2,
            GfhHeaderType::GFH_TYPE_BL_SEC_KEY => 3,
            GfhHeaderType::GFH_TYPE_BROM_CFG => 7,
            GfhHeaderType::GFH_TYPE_BROM_SEC_CFG => 8,
            GfhHeaderType::Unknown => 0xffff,
        }
    }
}

/// Converting a type to its code and back gives the same type, and a code
/// of a known type converts back to itself; every other code gives
/// `Unknown`, whose code is `0xffff`.
pub proof fn lemma_type_code_roundtrip(t: GfhHeaderType, code: u16)
    ensures
        type_of_code(code_of_type(t)) == t,
        code_of_type(type_of_code(code)) == (if code == 0 || code == 1 || code == 2 || code == 3
            || code == 7 || code == 8 {
            code
        } else {
            0xffffu16
        }),
{
}

} // verus!
