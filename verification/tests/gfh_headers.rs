use plview::mtk_loaders::gfh_headers::gfh_anti_clone::GfhAntiClone;
use plview::mtk_loaders::gfh_headers::gfh_bl_info::GfhBlInfo;
use plview::mtk_loaders::gfh_headers::gfh_bl_sec_key::GfhBlSecKey;
use plview::mtk_loaders::gfh_headers::gfh_brom_cfg::GfhBromCfg;
use plview::mtk_loaders::gfh_headers::gfh_brom_sec_cfg::GfhBromSecCfg;
use plview::mtk_loaders::gfh_headers::gfh_common::GfhCommonHeader;
use plview::mtk_loaders::gfh_headers::gfh_file_info::GfhFileInfo;
use plview::mtk_loaders::gfh_headers::gfh_type::GfhHeaderType;
use plview::mtk_loaders::gfh_headers::{GfhHeader, MtkGfhHeader};

fn put_u16(v: &mut Vec<u8>, x: u16) {
    v.extend_from_slice(&x.to_le_bytes());
}

fn put_u32(v: &mut Vec<u8>, x: u32) {
    v.extend_from_slice(&x.to_le_bytes());
}

fn common(v: &mut Vec<u8>, size: u16, code: u16) {
    v.extend_from_slice(&[0x4D, 0x4D, 0x4D, 0x01]);
    put_u16(v, size);
    put_u16(v, code);
}

/// A file-info header (0x38 bytes) whose chain is `hdr_size` bytes long.
fn file_info(v: &mut Vec<u8>, hdr_size: u32) {
    common(v, 0x38, 0);
    v.extend_from_slice(b"FILE_INFO\0\0\0");
    put_u32(v, 1); // unused
    put_u16(v, 0x11); // file_type
    v.push(0x22); // flash_type
    v.push(0x33); // sig_type
    put_u32(v, 0x0020_1000); // load_addr
    put_u32(v, 0x264); // total_size
    put_u32(v, 0x4_0000); // max_size
    put_u32(v, hdr_size); // hdr_size
    put_u32(v, 0x40); // sig_size
    put_u32(v, 0xA8); // jump_offset
    put_u32(v, 0x5); // processed
}

fn bl_info(v: &mut Vec<u8>, attr: u32) {
    common(v, 0x0C, 1);
    put_u32(v, attr);
}

fn brom_cfg(v: &mut Vec<u8>) {
    common(v, 100, 7);
    put_u32(v, 0xCAFE); // cfg_bits
    put_u32(v, 1000); // usbdl_by_auto_detect_timeout_ms
    v.extend_from_slice(&[0xAB; 0x45]);
    v.push(1); // jump_bl_arm64
    v.extend_from_slice(&[0xCD, 0xEF]);
    put_u32(v, 2000); // usbdl_by_kcol0_timeout_ms
    put_u32(v, 3000); // usbdl_by_flag_timeout_ms
    put_u32(v, 0x77); // pad
}

/// A chain of file info (0x00), bootloader info (0x38) and boot-ROM
/// configuration (0x44), 0xA8 bytes in all, followed by filler.
fn sample_chain() -> Vec<u8> {
    let mut v = Vec::new();
    file_info(&mut v, 0xA8);
    bl_info(&mut v, 0x1234_5678);
    brom_cfg(&mut v);
    assert_eq!(v.len(), 0xA8);
    v.extend_from_slice(&[0u8; 0x40]);
    v
}

#[test]
fn test_gfh_common_parse() {
    let data = sample_chain();
    let gfh_ch = GfhCommonHeader::load(&data, 0).unwrap();
    assert_eq!(gfh_ch.magic_version, 0x014D_4D4D);
    assert_eq!(gfh_ch.size, 0x38);
    assert_eq!(gfh_ch.get_type(), GfhHeaderType::GFH_TYPE_FILE_INFO);
    assert_eq!(gfh_ch.get_size(), 8);
    assert_eq!(gfh_ch.header_size(), 0x38);
}

#[test]
fn common_header_without_magic_is_none() {
    let data = vec![0x4D, 0x4D, 0x4C, 0x01, 0, 0, 0, 0];
    assert!(GfhCommonHeader::load(&data, 0).is_none());
    // Only four bytes are needed when the magic does not match.
    assert_eq!(GfhCommonHeader::try_load(&data[..4], 0).map(|h| h.is_none()), Some(true));
}

#[test]
fn common_header_too_short_is_refused() {
    let data = vec![0x4D, 0x4D, 0x4D, 0x01, 0x38, 0x00];
    assert!(GfhCommonHeader::try_load(&data, 0).is_none());
    assert!(GfhCommonHeader::try_load(&data, 3).is_none());
    assert!(GfhCommonHeader::try_load(&data, 100).is_none());
}

#[test]
fn header_type_codes() {
    let known = [(0u16, "GFH_TYPE_FILE_INFO"), (1, "GFH_TYPE_BL_INFO"), (2, "GFH_TYPE_ANTI_CLONE"),
        (3, "GFH_TYPE_BL_SEC_KEY"), (7, "GFH_TYPE_BROM_CFG"), (8, "GFH_TYPE_BROM_SEC_CFG")];
    for (code, name) in known {
        let t = GfhHeaderType::from_code(code);
        assert_eq!(t.code(), code);
        assert_eq!(t.name(), name);
    }
    for code in [4u16, 5, 6, 9, 0xfffe, 0xffff] {
        let t = GfhHeaderType::from_code(code);
        assert_eq!(t, GfhHeaderType::Unknown);
        assert_eq!(t.code(), 0xffff);
        assert_eq!(t.name(), "GFH_UNKNOWN");
    }
}

#[test]
fn test_gfh_file_info_parse() {
    let data = sample_chain();
    let gfi = GfhFileInfo::load(&data, 0).unwrap();
    assert_eq!(&gfi.name, b"FILE_INFO\0\0\0");
    assert_eq!(gfi.unused, 1);
    assert_eq!(gfi.file_type, 0x11);
    assert_eq!(gfi.flash_type, 0x22);
    assert_eq!(gfi.sig_type, 0x33);
    assert_eq!(gfi.get_load_addr(), 0x0020_1000);
    assert_eq!(gfi.get_total_size(), 0x264);
    assert_eq!(gfi.max_size, 0x4_0000);
    assert_eq!(gfi.get_hdr_size(), 0xA8);
    assert_eq!(gfi.get_hdr_full_size(), 0xA8);
    assert_eq!(gfi.get_gfh_header_total_size(), 0xA8);
    assert_eq!(gfi.get_signature_size(), 0x40);
    assert_eq!(gfi.get_jump_offset(), 0xA8);
    assert_eq!(gfi.processed, 5);
    assert_eq!(gfi.header_size(), 0x38);
}

#[test]
fn file_info_body_is_read_after_the_first_header() {
    // A file-info header read at 0x38 takes its body from bytes 8..56.
    let data = sample_chain();
    let mut shifted = data.clone();
    shifted[0x38 + 6] = 0;
    let gfi = GfhFileInfo::load(&shifted, 0x38).unwrap();
    assert_eq!(gfi.gfh_common.size, 0x0C);
    assert_eq!(gfi.get_load_addr(), 0x0020_1000);
    assert_eq!(gfi.get_total_size(), 0x264);
}

#[test]
fn file_info_needs_56_bytes() {
    let data = sample_chain();
    assert!(GfhFileInfo::try_load(&data[..55], 0).is_none());
    assert!(GfhFileInfo::try_load(&data[..56], 0).unwrap().is_some());
}

#[test]
fn test_gfh_bl_info_parse() {
    let data = sample_chain();
    let gfh_bl_info = GfhBlInfo::load(&data, 0x38).unwrap();
    assert_eq!(gfh_bl_info.get_header_offset(), 0x38);
    assert_eq!(gfh_bl_info.attr, 0x1234_5678);
    assert_eq!(gfh_bl_info.gfh_common.gfh_type, GfhHeaderType::GFH_TYPE_BL_INFO);
    assert_eq!(gfh_bl_info.header_size(), 0x0C);
}

#[test]
fn test_gfh_brom_cfg_parse() {
    let data = sample_chain();
    let gbc = GfhBromCfg::load(&data, 0x44).unwrap();
    assert_eq!(gbc.cfg_bits, 0xCAFE);
    assert_eq!(gbc.usbdl_by_auto_detect_timeout_ms, 1000);
    assert_eq!(gbc.unused, [0xAB; 0x45]);
    assert_eq!(gbc.jump_bl_arm64, 1);
    assert_eq!(gbc.unused2, [0xCD, 0xEF]);
    assert_eq!(gbc.usbdl_by_kcol0_timeout_ms, 2000);
    assert_eq!(gbc.usbdl_by_flag_timeout_ms, 3000);
    assert_eq!(gbc.pad, 0x77);
    assert_eq!(gbc.header_size(), 100);
    assert!(GfhBromCfg::try_load(&data[..0x44 + 99], 0x44).is_none());
}

#[test]
fn anti_clone_sec_key_and_sec_cfg_parse() {
    let mut v = Vec::new();
    common(&mut v, 20, 2);
    v.push(0x10);
    v.push(0x20);
    put_u16(&mut v, 0x3040);
    put_u32(&mut v, 0x5060_7080);
    put_u32(&mut v, 0x90);
    let ac = GfhAntiClone::load(&v, 0).unwrap();
    assert_eq!((ac.ac_b2k, ac.ac_b2c, ac.pad, ac.ac_offset, ac.ac_len), (0x10, 0x20, 0x3040, 0x5060_7080, 0x90));
    assert!(GfhAntiClone::try_load(&v[..19], 0).is_none());

    let mut k = Vec::new();
    common(&mut k, 8 + 0x20c, 3);
    for i in 0..0x20c {
        k.push((i % 251) as u8);
    }
    let key = GfhBlSecKey::load(&k, 0).unwrap();
    assert_eq!(key.pad[0], 0);
    assert_eq!(key.pad[0x20b], (0x20b % 251) as u8);
    assert_eq!(key.header_size(), 8 + 0x20c);
    assert!(GfhBlSecKey::try_load(&k[..k.len() - 1], 0).is_none());

    let mut s = Vec::new();
    common(&mut s, 48, 8);
    put_u32(&mut s, 0xF00D);
    s.extend_from_slice(b"customer-name-0123456789abcdef!!");
    put_u32(&mut s, 0xAA);
    let sc = GfhBromSecCfg::load(&s, 0).unwrap();
    assert_eq!(sc.cfg_bits, 0xF00D);
    assert_eq!(&sc.customer_name, b"customer-name-0123456789abcdef!!");
    assert_eq!(sc.pad, 0xAA);
}

#[test]
fn test_gfh_header_parse() {
    let data = sample_chain();
    let gfh = GfhHeader::load(&data, 0).unwrap();
    let fi = gfh.get_gfh_file_info().unwrap();
    assert_eq!(fi.get_hdr_size(), 0xA8);
    assert_eq!(gfh.get_gfh_bl_info().unwrap().attr, 0x1234_5678);
    assert_eq!(gfh.get_gfh_brom_cfg().unwrap().cfg_bits, 0xCAFE);
    assert!(gfh.get_gfh_bl_sec_key().is_none());
    assert!(gfh.get_gfh_anti_clone().is_none());
    assert!(gfh.get_gfh_brom_sec_cfg().is_none());
    assert_eq!(gfh.header_size(), 0xA8);
}

#[test]
fn gfh_header_without_magic_is_none() {
    let data = vec![0u8; 0x100];
    assert!(GfhHeader::load(&data, 0).is_none());
}

#[test]
fn gfh_header_keeps_first_header_of_each_kind() {
    let mut v = Vec::new();
    file_info(&mut v, 0x50);
    bl_info(&mut v, 1);
    bl_info(&mut v, 2);
    assert_eq!(v.len(), 0x50);
    let gfh = GfhHeader::load(&v, 0).unwrap();
    let bl = gfh.get_gfh_bl_info().unwrap();
    assert_eq!(bl.attr, 1);
    assert_eq!(bl.get_header_offset(), 0x38);
}

#[test]
fn gfh_header_stops_at_missing_magic() {
    // The chain claims 0x100 bytes but only two headers follow.
    let mut v = Vec::new();
    file_info(&mut v, 0x100);
    bl_info(&mut v, 9);
    v.extend_from_slice(&[0u8; 0x20]);
    let gfh = GfhHeader::load(&v, 0).unwrap();
    assert_eq!(gfh.get_gfh_bl_info().unwrap().attr, 9);
    assert!(gfh.get_gfh_brom_cfg().is_none());
}

#[test]
fn gfh_header_refuses_endless_walks() {
    // An unknown header before the end of the chain keeps the walk in place.
    let mut v = Vec::new();
    file_info(&mut v, 0x60);
    common(&mut v, 0x10, 0x42);
    v.extend_from_slice(&[0u8; 0x20]);
    assert!(GfhHeader::try_load(&v, 0).is_none());

    // So does a known header that records a size of 0.
    let mut w = Vec::new();
    file_info(&mut w, 0x60);
    common(&mut w, 0, 1);
    put_u32(&mut w, 0);
    w.extend_from_slice(&[0u8; 0x20]);
    assert!(GfhHeader::try_load(&w, 0).is_none());

    // An unknown header at the end of the chain is fine.
    let mut u = Vec::new();
    file_info(&mut u, 0x38);
    assert_eq!(u.len(), 0x38);
    u.extend_from_slice(&[0u8; 8]);
    assert!(GfhHeader::try_load(&u, 0).unwrap().is_some());
}

#[test]
fn gfh_header_refuses_reads_past_the_end() {
    // The boot-ROM configuration header is cut short.
    let data = sample_chain();
    assert!(GfhHeader::try_load(&data[..0x44 + 50], 0).is_none());
}

#[test]
fn header_text() {
    let data = sample_chain();
    let ch = GfhCommonHeader::load(&data, 0).unwrap();
    assert_eq!(
        ch.to_display_string(),
        "    magic_version: 0x14D4D4D\n    size: 0x38\n    gfh_type: GFH_TYPE_FILE_INFO"
    );
    let bl = GfhBlInfo::load(&data, 0x38).unwrap();
    assert_eq!(
        bl.to_display_string(),
        "    magic_version: 0x14D4D4D\n    size: 0xC\n    gfh_type: GFH_TYPE_BL_INFO\n    attr: 305419896"
    );
}

#[test]
fn header_type_std_conversions() {
    assert_eq!(GfhHeaderType::from(7u16), GfhHeaderType::GFH_TYPE_BROM_CFG);
    assert_eq!(GfhHeaderType::from(9u16), GfhHeaderType::Unknown);
    let c: u16 = GfhHeaderType::GFH_TYPE_BROM_SEC_CFG.into();
    assert_eq!(c, 8);
    let u: u16 = GfhHeaderType::Unknown.into();
    assert_eq!(u, 0xffff);
    for code in 0u16..=20 {
        let back: u16 = GfhHeaderType::from(code).into();
        assert!(back == code || back == 0xffff);
    }
}

#[test]
fn gfh_header_reads_every_kind() {
    let mut v = Vec::new();
    file_info(&mut v, 0);
    bl_info(&mut v, 3);
    brom_cfg(&mut v);
    common(&mut v, 8 + 0x20c, 3);
    v.extend_from_slice(&[0x11; 0x20c]);
    common(&mut v, 20, 2);
    v.extend_from_slice(&[0x22; 12]);
    common(&mut v, 48, 8);
    v.extend_from_slice(&[0x33; 40]);
    let total = v.len() as u32;
    v[40..44].copy_from_slice(&total.to_le_bytes());
    v.extend_from_slice(&[0u8; 16]);
    let gfh = GfhHeader::load(&v, 0).unwrap();
    assert_eq!(gfh.header_size(), total as usize);
    assert_eq!(gfh.get_gfh_bl_info().unwrap().attr, 3);
    assert_eq!(gfh.get_gfh_brom_cfg().unwrap().pad, 0x77);
    assert_eq!(gfh.get_gfh_bl_sec_key().unwrap().pad, [0x11; 0x20c]);
    assert_eq!(gfh.get_gfh_anti_clone().unwrap().ac_len, 0x2222_2222);
    assert_eq!(gfh.get_gfh_brom_sec_cfg().unwrap().cfg_bits, 0x3333_3333);
}

#[test]
fn file_info_text() {
    let data = sample_chain();
    let gfi = GfhFileInfo::load(&data, 0).unwrap();
    let expected = "\nGfhFileInfo {\n    magic_version: 0x14D4D4D\n    size: 0x38\n    gfh_type: GFH_TYPE_FILE_INFO\n    name: \"FILE_INFO\\0\\0\\0\"\n    unused: 0x1\n    file_type: 0x11\n    flash_type: 0x22\n    sig_type: 0x33\n    load_addr: 0x201000\n    total_size: 0x264\n    max_size: 0x40000\n    hdr_size: 0xA8\n    sig_size: 0x40\n    jump_offset: 0xA8\n    processed: 0x5\n}\n";
    assert_eq!(gfi.to_display_string(), expected);
}

#[test]
fn gfh_header_first_kind_offsets() {
    // Two bootloader-info headers: the slot holds the first, at 0x38.
    let mut v = Vec::new();
    file_info(&mut v, 0x50);
    bl_info(&mut v, 7);
    bl_info(&mut v, 8);
    let gfh = GfhHeader::load(&v, 0).unwrap();
    assert_eq!(gfh.get_gfh_bl_info().unwrap().get_header_offset(), 0x38);
    assert!(gfh.get_gfh_brom_cfg().is_none());
    assert!(gfh.get_gfh_anti_clone().is_none());
}
