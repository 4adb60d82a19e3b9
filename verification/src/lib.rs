//! Parsing of MediaTek preloader images: the GFH header chain, the EMI
//! trailer, and the segment and section layout that a disassembler maps.

pub mod le_bytes;
pub mod mtk_loaders;
pub mod mtkpl_loader;
pub mod text;
