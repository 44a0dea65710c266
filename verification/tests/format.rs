use jmmt::format::package::{PackageEofHeader, PackageFileChunk, PackageGroup};
use jmmt::format::package_toc::PackageTocEntry;
use jmmt::format::ps2_palette::Ps2PaletteHeader;
use jmmt::format::ps2_texture::Ps2TextureHeader;
use jmmt::format::Validatable;
use jmmt::lzss::header::LzssHeader;

fn put_u32(b: &mut Vec<u8>, off: usize, v: u32) {
    b[off..off + 4].copy_from_slice(&v.to_le_bytes());
}

fn put_u16(b: &mut Vec<u8>, off: usize, v: u16) {
    b[off..off + 2].copy_from_slice(&v.to_le_bytes());
}

fn lzss_bytes(byte_id: u8, header_size: u8) -> Vec<u8> {
    let mut b = vec![0u8; 32];
    put_u32(&mut b, 0, 0);
    b[4] = byte_id;
    b[5] = header_size;
    b[6] = 0x12;
    b[7] = 0x20;
    put_u16(&mut b, 8, 0x1000);
    put_u16(&mut b, 10, 7);
    put_u32(&mut b, 12, 1234);
    put_u32(&mut b, 16, 567);
    put_u32(&mut b, 20, 0xDEADBEEF);
    put_u32(&mut b, 24, 42);
    put_u32(&mut b, 28, 0xCAFEBABE);
    b
}

#[test]
fn lzss_header_decodes_little_endian_fields() {
    let h = LzssHeader::from_bytes(&lzss_bytes(0x91, 32)).unwrap();
    assert_eq!(h.next, 0);
    assert_eq!(h.byte_id, 0x91);
    assert_eq!(h.header_size, 32);
    assert_eq!(h.max_match, 0x12);
    assert_eq!(h.fill_byte, 0x20);
    assert_eq!(h.ring_size, 0x1000);
    assert_eq!(h.error_id, 7);
    assert_eq!(h.uncompressed_bytes, 1234);
    assert_eq!(h.compressed_bytes, 567);
    assert_eq!(h.crc_hash, 0xDEADBEEF);
    assert_eq!(h.file_id, 42);
    assert_eq!(h.compressed_data_crc, 0xCAFEBABE);
    assert!(h.valid());
}

#[test]
fn lzss_header_validity() {
    assert!(!LzssHeader::from_bytes(&lzss_bytes(0x90, 32)).unwrap().valid());
    assert!(!LzssHeader::from_bytes(&lzss_bytes(0x91, 31)).unwrap().valid());
    assert!(!LzssHeader::default().valid());
}

#[test]
fn short_input_decodes_to_none() {
    assert!(LzssHeader::from_bytes(&[0u8; 31]).is_none());
    assert!(PackageEofHeader::from_bytes(&[0u8; 11]).is_none());
    assert!(PackageGroup::from_bytes(&[0u8; 15]).is_none());
    assert!(PackageFileChunk::from_bytes(&[0u8; 99]).is_none());
    assert!(PackageTocEntry::from_bytes(&[0u8; 79]).is_none());
    assert!(Ps2PaletteHeader::from_bytes(&[0u8; 47]).is_none());
    assert!(Ps2TextureHeader::from_bytes(&[0u8; 55]).is_none());
}

#[test]
fn eof_header_decodes() {
    let mut b = vec![0u8; 12];
    put_u32(&mut b, 0, 12);
    put_u32(&mut b, 4, 0x400);
    put_u32(&mut b, 8, 0x10000);
    let h = PackageEofHeader::from_bytes(&b).unwrap();
    assert_eq!((h.header_size, h.stringtable_size, h.header_start_offset), (12, 0x400, 0x10000));
}

#[test]
fn package_group_validity() {
    let mut b = vec![0u8; 16];
    b[0..4].copy_from_slice(b"PGRP");
    put_u32(&mut b, 4, 0x11223344);
    put_u32(&mut b, 8, 5);
    put_u32(&mut b, 12, 0xCDCDCDCD);
    let g = PackageGroup::from_bytes(&b).unwrap();
    assert_eq!(g.fourcc, PackageGroup::VALID_FOURCC);
    assert_eq!(g.group_name_hash, 0x11223344);
    assert_eq!(g.group_file_count, 5);
    assert_eq!(g.pad, 0xCDCDCDCD);
    assert!(g.valid());
    b[0] = b'X';
    assert!(!PackageGroup::from_bytes(&b).unwrap().valid());
    assert!(!PackageGroup::default().valid());
}

fn chunk_bytes(compressed: u32, uncompressed: u32, lzss_id: u8) -> Vec<u8> {
    let mut b = vec![0u8; 100];
    b[0..4].copy_from_slice(b"PFIL");
    put_u32(&mut b, 4, 1);
    put_u32(&mut b, 8, 2);
    put_u16(&mut b, 12, 3);
    put_u16(&mut b, 14, 4);
    put_u32(&mut b, 16, 0xABCDEF01);
    for i in 0..7 {
        put_u32(&mut b, 20 + 4 * i, 100 + i as u32);
    }
    put_u32(&mut b, 48, uncompressed);
    put_u32(&mut b, 52, 0x800);
    put_u32(&mut b, 56, compressed);
    put_u32(&mut b, 60, 0x1234);
    put_u32(&mut b, 64, 0x9999);
    b[68..100].copy_from_slice(&lzss_bytes(lzss_id, 32));
    b
}

#[test]
fn file_chunk_decodes_and_validates() {
    let c = PackageFileChunk::from_bytes(&chunk_bytes(10, 20, 0x91)).unwrap();
    assert_eq!(c.fourcc, PackageFileChunk::VALID_FOURCC);
    assert_eq!((c.unk, c.unk2), (1, 2));
    assert_eq!((c.chunk_sequence_number, c.chunk_sequence_count), (3, 4));
    assert_eq!(c.file_name_crc, 0xABCDEF01);
    assert_eq!(c.unk3, [100, 101, 102, 103, 104, 105, 106]);
    assert_eq!(c.chunk_uncompressed_size, 20);
    assert_eq!(c.chunk_buffer_offset, 0x800);
    assert_eq!(c.chunk_compressed_size, 10);
    assert_eq!(c.chunk_data_offset, 0x1234);
    assert_eq!(c.file_uncompressed_size, 0x9999);
    assert_eq!(c.lzss_header.crc_hash, 0xDEADBEEF);
    assert!(c.valid());
    assert!(!PackageFileChunk::from_bytes(&chunk_bytes(10, 20, 0x00)).unwrap().valid());
    assert!(!PackageFileChunk::default().valid());
}

#[test]
fn file_chunk_compression() {
    assert!(PackageFileChunk::from_bytes(&chunk_bytes(10, 20, 0x91)).unwrap().is_compressed());
    assert!(!PackageFileChunk::from_bytes(&chunk_bytes(20, 20, 0x91)).unwrap().is_compressed());
}

fn toc_entry_bytes(name: &[u8], hash: u32) -> Vec<u8> {
    let mut b = vec![0u8; 80];
    b[..name.len()].copy_from_slice(name);
    put_u32(&mut b, 0x40, hash);
    put_u32(&mut b, 0x44, 0x100);
    put_u32(&mut b, 0x48, 0x200);
    put_u32(&mut b, 0x4C, 9);
    b
}

#[test]
fn toc_entry_getters() {
    let e = PackageTocEntry::from_bytes(&toc_entry_bytes(b"config.pak", 0x12345678)).unwrap();
    assert_eq!(e.file_name(), Some(String::from("config.pak")));
    assert_eq!(e.file_name_hash(), 0x12345678);
    assert_eq!(e.toc_start_offset(), 0x100);
    assert_eq!(e.toc_size(), 0x200);
    assert_eq!(e.toc_file_count(), 9);
}

#[test]
fn toc_entry_name_without_nul_uses_whole_field() {
    let e = PackageTocEntry::from_bytes(&toc_entry_bytes(&[b'a'; 64], 0)).unwrap();
    assert_eq!(e.file_name(), Some("a".repeat(64)));
}

#[test]
fn toc_entry_invalid_utf8_name() {
    let e = PackageTocEntry::from_bytes(&toc_entry_bytes(&[0xFF, 0xFE], 0)).unwrap();
    assert_eq!(e.file_name(), None);
}

fn texture_header_bytes(magic: &[u8; 4], end: u32, w: u16, h: u16, bpp: u16) -> Vec<u8> {
    let mut b = vec![0u8; 56];
    b[0..4].copy_from_slice(magic);
    put_u32(&mut b, 4, 77);
    put_u16(&mut b, 8, 5);
    put_u16(&mut b, 10, w);
    put_u16(&mut b, 12, h);
    put_u16(&mut b, 14, bpp);
    put_u32(&mut b, 16, 0x40);
    put_u32(&mut b, 20, end);
    for i in 0..8 {
        put_u32(&mut b, 24 + 4 * i, i as u32);
    }
    b
}

#[test]
fn texture_header_decodes_and_validates() {
    let h = Ps2TextureHeader::from_bytes(&texture_header_bytes(b"TEX1", 0x38, 64, 32, 16)).unwrap();
    assert_eq!(h.magic, Ps2TextureHeader::VALID_FOURCC);
    assert_eq!((h.unk, h.unk2), (77, 5));
    assert_eq!((h.width, h.height, h.bpp), (64, 32, 16));
    assert_eq!(h.data_start_offset, 0x40);
    assert_eq!(h.header_end_offset, 0x38);
    assert_eq!(h.unk6, [0, 1, 2, 3, 4, 5, 6, 7]);
    assert!(h.valid());
    assert!(!Ps2TextureHeader::from_bytes(&texture_header_bytes(b"TEX2", 0x38, 1, 1, 16))
        .unwrap()
        .valid());
    assert!(!Ps2TextureHeader::from_bytes(&texture_header_bytes(b"TEX1", 0x30, 1, 1, 16))
        .unwrap()
        .valid());
    assert!(!Ps2TextureHeader::default().valid());
}

#[test]
fn texture_palettized_at_most_8bpp() {
    let with = |bpp| {
        Ps2TextureHeader::from_bytes(&texture_header_bytes(b"TEX1", 0x38, 1, 1, bpp))
            .unwrap()
            .has_palette()
    };
    assert!(with(4));
    assert!(with(8));
    assert!(!with(16));
    assert!(!with(32));
}

fn palette_header_bytes(magic: &[u8; 4], size: u32, count: u16) -> Vec<u8> {
    let mut b = vec![0u8; 48];
    b[0..4].copy_from_slice(magic);
    put_u32(&mut b, 4, 3);
    put_u16(&mut b, 8, 4);
    put_u16(&mut b, 10, count);
    put_u16(&mut b, 12, 32);
    put_u16(&mut b, 14, 6);
    put_u32(&mut b, 16, 0x30);
    put_u32(&mut b, 20, size);
    b
}

#[test]
fn palette_header_decodes_and_validates() {
    let h = Ps2PaletteHeader::from_bytes(&palette_header_bytes(b"PAL1", 0x18, 256)).unwrap();
    assert_eq!(h.fourcc, Ps2PaletteHeader::VALID_FOURCC);
    assert_eq!((h.unk, h.unk2, h.color_count, h.palette_bpp, h.unk3), (3, 4, 256, 32, 6));
    assert_eq!((h.data_start, h.header_size), (0x30, 0x18));
    assert_eq!(h.pad, [0; 6]);
    assert!(h.valid());
    assert!(!Ps2PaletteHeader::from_bytes(&palette_header_bytes(b"PAL2", 0x18, 1))
        .unwrap()
        .valid());
    assert!(!Ps2PaletteHeader::from_bytes(&palette_header_bytes(b"PAL1", 0x30, 1))
        .unwrap()
        .valid());
    assert!(!Ps2PaletteHeader::default().valid());
}
