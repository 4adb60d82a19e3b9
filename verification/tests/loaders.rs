use plview::mtk_loaders::emi::GeneralEMIInformation;
use plview::mtk_loaders::layout::SegmentFlags;
use plview::mtk_loaders::magic::{find_byte_seq_offset, mtkpl_magic, split_at_magic};
use plview::mtk_loaders::MTKBootRomLoader;
use plview::mtkpl_loader::{mtkpl_header_members, MTKPreloaderParser};

const LOAD_ADDR: u64 = 0x0020_1000;

fn put_u16(v: &mut Vec<u8>, x: u16) {
    v.extend_from_slice(&x.to_le_bytes());
}

fn put_u32(v: &mut Vec<u8>, x: u32) {
    v.extend_from_slice(&x.to_le_bytes());
}

fn common(v: &mut Vec<u8>, size: u16, code: u16) {
    v.extend_from_slice(&[0x4D, 0x4D, 0x4D, 0x01]);
    put_u16(v, size);
    put_u16(v, code);
}

/// A preloader image of 0x264 bytes: a 0xA8-byte GFH chain (file info, then
/// bootloader info), code up to 0x200, a 0x20-byte EMI blob, its length, and
/// a 0x40-byte signature.
fn sample_image() -> Vec<u8> {
    let mut v = Vec::new();
    common(&mut v, 0x38, 0);
    v.extend_from_slice(b"FILE_INFO\0\0\0");
    put_u32(&mut v, 0);
    put_u16(&mut v, 0);
    v.push(0);
    v.push(0);
    put_u32(&mut v, LOAD_ADDR as u32); // load_addr
    put_u32(&mut v, 0x264); // total_size
    put_u32(&mut v, 0x4_0000); // max_size
    put_u32(&mut v, 0xA8); // hdr_size
    put_u32(&mut v, 0x40); // sig_size
    put_u32(&mut v, 0xA8); // jump_offset
    put_u32(&mut v, 0);
    common(&mut v, 0xA8 - 0x38, 1);
    put_u32(&mut v, 0x1);
    v.resize(0xA8, 0);
    v.resize(0x200, 0xEE);
    v.extend_from_slice(b"MTK_BLOADER_INFO_v57\0\0\0\0");
    v.extend_from_slice(&[0x5A; 8]);
    put_u32(&mut v, 0x20);
    v.extend_from_slice(&[0x51; 0x40]);
    assert_eq!(v.len(), 0x264);
    v
}

/// The sample image behind 0x10 bytes of something else.
fn sample_buffer() -> Vec<u8> {
    let mut v = vec![0x77u8; 0x10];
    v.extend_from_slice(&sample_image());
    v
}

#[test]
fn magic_search_finds_first_occurrence() {
    let magic = mtkpl_magic();
    assert_eq!(magic, [0x4D, 0x4D, 0x4D, 0x01, 0x38, 0x00, 0x00, 0x00]);
    assert_eq!(find_byte_seq_offset(&sample_buffer(), &magic), Some(0x10));
    assert_eq!(find_byte_seq_offset(b"abcabc", b"bc"), Some(1));
    assert_eq!(find_byte_seq_offset(b"abc", b"abcd"), None);
    assert_eq!(find_byte_seq_offset(b"abcabc", b"cb"), None);
    assert_eq!(find_byte_seq_offset(b"aab", b"ab"), Some(1));
}

#[test]
fn split_at_magic_keeps_every_byte() {
    let buf = sample_buffer();
    let (drained, image) = split_at_magic(buf.clone());
    assert_eq!(drained, vec![0x77u8; 0x10]);
    assert_eq!(image, sample_image());
    let (d2, i2) = split_at_magic(vec![1, 2, 3]);
    assert!(d2.is_empty());
    assert_eq!(i2, vec![1, 2, 3]);
}

#[test]
fn test_emi_parser() {
    let data = sample_image();
    let emi_info = GeneralEMIInformation::new(&data, 0x40, 0x264);
    assert_eq!(emi_info.mtk_bloader_string, "MTK_BLOADER_INFO_v57\0\0\0\0");
    assert_eq!(emi_info.get_bloader_str(), "MTK_BLOADER_INFO_v57\0\0\0\0");
    assert_eq!(&emi_info.emi_buffer[0..8], b"MTK_BLOA");
    assert_eq!(emi_info.get_emi_data_blob().len(), 0x20);
    assert_eq!(emi_info.get_emi_file_offset(), 0x200);
    assert_eq!(emi_info.signature_file_offset, 0x224);
    assert_eq!(emi_info.signature_buffer, vec![0x51; 0x40]);
}

#[test]
fn emi_parser_refuses_bad_layouts() {
    let data = sample_image();
    // Signature longer than the preloader.
    assert!(GeneralEMIInformation::try_new(&data, 0x300, 0x264).is_none());
    // Preloader longer than the buffer.
    assert!(GeneralEMIInformation::try_new(&data, 0x40, 0x300).is_none());
    // EMI length larger than what precedes it.
    let mut big = data.clone();
    big[0x220..0x224].copy_from_slice(&0x1000u32.to_le_bytes());
    assert!(GeneralEMIInformation::try_new(&big, 0x40, 0x264).is_none());
    // EMI blob shorter than the bootloader name.
    let mut small = data.clone();
    small[0x220..0x224].copy_from_slice(&0x10u32.to_le_bytes());
    assert!(GeneralEMIInformation::try_new(&small, 0x40, 0x264).is_none());
    // Bootloader name that is not UTF-8.
    let mut bad = data.clone();
    bad[0x200] = 0xFF;
    assert!(GeneralEMIInformation::try_new(&bad, 0x40, 0x264).is_none());
    assert!(GeneralEMIInformation::try_new(&data, 0x40, 0x264).is_some());
}

#[test]
fn boot_rom_loader_layout() {
    let pl = MTKBootRomLoader::new(sample_buffer()).unwrap();
    assert_eq!(pl.get_file_backed_start_offset(), 0x10);
    assert_eq!(pl.get_image_load_addr() as u64, LOAD_ADDR);
    assert_eq!(pl.get_preloader_size(), 0x264);
    assert_eq!(pl.get_entry_point_offset(), 0xA8);
    assert_eq!(pl.get_entry_point(), LOAD_ADDR + 0xA8);
    assert_eq!(pl.get_signature_length(0x28), 0x40);

    let segs = pl.get_segments();
    let names: Vec<&str> = segs.iter().map(|(n, _)| n.as_str()).collect();
    assert_eq!(names, vec![".gfh", ".code.data", ".emi.data", ".signature.data"]);
    let ranges: Vec<(u64, u64, u64, u64)> = segs
        .iter()
        .map(|(_, s)| {
            (s.mapped_addr_range.start, s.mapped_addr_range.end, s.file_backing.start, s.file_backing.end)
        })
        .collect();
    assert_eq!(
        ranges,
        vec![
            (LOAD_ADDR, LOAD_ADDR + 0xA8, 0x10, 0x10 + 0xA8),
            (LOAD_ADDR + 0xA8, LOAD_ADDR + 0x200, 0xB8, 0x210),
            (LOAD_ADDR + 0x200, LOAD_ADDR + 0x220, 0x200, 0x220),
            (LOAD_ADDR + 0x224, LOAD_ADDR + 0x264, 0x224, 0x264),
        ]
    );
    assert_eq!(
        segs[1].1.mapped_segment_flags,
        SegmentFlags {
            readable: true,
            writable: true,
            executable: true,
            contains_data: true,
            contains_code: true,
            deny_write: false,
            deny_execute: false,
        }
    );
    assert!(!segs[2].1.mapped_segment_flags.executable);
    assert!(segs[0].1.mapped_segment_flags.executable);

    let secs = pl.get_sections();
    assert_eq!(secs.len(), 4);
    for (i, (name, sec)) in secs.iter().enumerate() {
        assert_eq!(name, &segs[i].0);
        assert_eq!(&sec.name, name);
        assert_eq!(sec.mapped_addr_range, segs[i].1.mapped_addr_range);
    }
}

#[test]
fn boot_rom_loader_keeps_every_byte() {
    let buf = sample_buffer();
    let pl = MTKBootRomLoader::new(buf.clone()).unwrap();
    let mut joined = pl.drained_data.clone();
    joined.extend_from_slice(&pl.image_data);
    assert_eq!(joined, buf);
}

#[test]
fn boot_rom_loader_without_file_info_is_err() {
    // The chain starts with a bootloader-info header that covers it all.
    let mut img = sample_image();
    img[6] = 1;
    let r = MTKBootRomLoader::try_new(img).unwrap();
    assert!(r.is_err());
}

#[test]
fn boot_rom_loader_refuses_underflowing_layouts() {
    // A signature that eats the code region makes the code segment negative.
    let mut img = sample_image();
    img[44..48].copy_from_slice(&0x200u32.to_le_bytes());
    // Keep an EMI length field and name where the layout now puts them.
    assert!(MTKBootRomLoader::try_new(img).is_none());
    assert!(MTKBootRomLoader::try_new(vec![0u8; 4]).is_none());
    assert!(MTKBootRomLoader::try_new(sample_buffer()).unwrap().is_ok());
}

/// A raw preloader: magic, load address 0x1C, size 0x20, entry offset 0x28.
fn raw_preloader() -> Vec<u8> {
    let mut v = vec![0u8; 0x100];
    v[0..8].copy_from_slice(&[0x4D, 0x4D, 0x4D, 0x01, 0x38, 0, 0, 0]);
    v[0x1C..0x20].copy_from_slice(&0x0020_0000u32.to_le_bytes());
    v[0x20..0x24].copy_from_slice(&0x100u32.to_le_bytes());
    v[0x28..0x2C].copy_from_slice(&0x300u32.to_le_bytes());
    v
}

#[test]
fn preloader_parser_layout() {
    let mut buf = vec![0xFFu8; 0x20];
    let mut raw = raw_preloader();
    raw[0x28..0x2C].copy_from_slice(&0x40u32.to_le_bytes());
    buf.extend_from_slice(&raw);
    let p = MTKPreloaderParser::new(buf.clone());
    assert_eq!(p.get_file_backed_start_offset(), 0x20);
    assert_eq!(p.get_image_load_addr(), 0x0020_0000);
    assert_eq!(p.get_preloader_size(), 0x100);
    assert_eq!(p.get_entry_point_offset(), 0x40);
    assert_eq!(p.get_entry_point(), 0x0020_0040);
    let segs = p.get_segments();
    assert_eq!(segs.len(), 2);
    assert_eq!(segs[0].0, ".plhdr");
    assert_eq!(segs[0].1.mapped_addr_range, 0x0020_0000..0x0020_0040);
    assert_eq!(segs[0].1.file_backing, 0x20..0x60);
    assert_eq!(segs[1].0, ".code.data");
    assert_eq!(segs[1].1.mapped_addr_range, 0x0020_0040..0x0020_0100);
    assert_eq!(segs[1].1.file_backing, 0x60..0x120);
    let secs = p.get_sections();
    assert_eq!(secs[0].1.name, ".plhdr");
    assert_eq!(secs[0].1.mapped_addr_range, 0x0020_0000..0x0020_0040);
    assert_eq!(secs[1].1.mapped_addr_range, 0x0020_0040..0x0020_0100);
    let mut joined = p.drained_data.clone();
    joined.extend_from_slice(&p.image_data);
    assert_eq!(joined, buf);
}

#[test]
fn preloader_parser_refuses_entry_past_size() {
    assert!(MTKPreloaderParser::try_new(raw_preloader()).is_none());
    assert!(MTKPreloaderParser::try_new(vec![0u8; 0x2B]).is_none());
    let mut ok = raw_preloader();
    ok[0x28..0x2C].copy_from_slice(&0x40u32.to_le_bytes());
    assert!(MTKPreloaderParser::try_new(ok).is_some());
}

#[test]
fn loader_text() {
    let pl = MTKBootRomLoader::new(sample_buffer()).unwrap();
    assert_eq!(
        pl.to_display_string(),
        "Loaded Preloader Data:\n\
         m .gfh -> 0x201000 - 0x2010A8\n\
         f .gfh -> 0x10 - 0xB8\n\
         m .code.data -> 0x2010A8 - 0x201200\n\
         f .code.data -> 0xB8 - 0x210\n"
    );
    let mut raw = raw_preloader();
    raw[0x28..0x2C].copy_from_slice(&0x40u32.to_le_bytes());
    let p = MTKPreloaderParser::new(raw);
    assert_eq!(
        p.to_display_string(),
        "Loaded Preloader Data:\n\
         m .plhdr -> 0x200000 - 0x200040\n\
         f .plhdr -> 0x0 - 0x40\n\
         m .code.data -> 0x200040 - 0x200100\n\
         f .code.data -> 0x40 - 0x100\n"
    );
}

#[test]
fn preloader_header_members() {
    let members = mtkpl_header_members();
    let got: Vec<(&str, u64, u64, bool)> =
        members.iter().map(|m| (m.name, m.offset, m.size, m.is_integer)).collect();
    assert_eq!(
        got,
        vec![
            ("magic", 0, 4, true),
            ("unk0", 4, 0x18, false),
            ("load_addr", 0x1C, 4, true),
            ("size", 0x20, 4, true),
            ("unk1", 0x24, 4, false),
            ("entry_offset", 0x28, 4, true),
            ("emi_data_len", 0x2C, 4, true),
        ]
    );
}
