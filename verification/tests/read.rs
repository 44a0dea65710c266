use jmmt::format::ps2_palette::Ps2PaletteHeader;
use jmmt::format::ps2_texture::Ps2TextureHeader;
use jmmt::read::package_toc::{parse_package_toc, Error as TocError};
use jmmt::read::texture::{palette_file_name, palette_path, Error, Ps2TextureReader};

fn put_u32(b: &mut Vec<u8>, off: usize, v: u32) {
    b[off..off + 4].copy_from_slice(&v.to_le_bytes());
}

fn put_u16(b: &mut Vec<u8>, off: usize, v: u16) {
    b[off..off + 2].copy_from_slice(&v.to_le_bytes());
}

fn toc_entry(name: &str, hash: u32) -> Vec<u8> {
    let mut b = vec![0u8; 80];
    b[..name.len()].copy_from_slice(name.as_bytes());
    put_u32(&mut b, 0x40, hash);
    b
}

#[test]
fn toc_too_small() {
    assert!(matches!(parse_package_toc(&[0u8; 79]), Err(TocError::FileTooSmall)));
    assert!(matches!(parse_package_toc(&[]), Err(TocError::FileTooSmall)));
}

#[test]
fn toc_entries_in_order() {
    let mut bytes = toc_entry("a.pak", 1);
    bytes.extend(toc_entry("b.pak", 2));
    bytes.extend([7u8; 10]);
    let toc = parse_package_toc(&bytes).unwrap();
    assert_eq!(toc.len(), 2);
    assert_eq!(toc[0].file_name(), Some(String::from("a.pak")));
    assert_eq!(toc[0].file_name_hash(), 1);
    assert_eq!(toc[1].file_name(), Some(String::from("b.pak")));
    assert_eq!(toc[1].file_name_hash(), 2);
}

#[test]
fn palette_file_names() {
    assert_eq!(palette_file_name("texture_car.b"), "palette_car.b");
    assert_eq!(palette_file_name("texture_texture_x"), "palette_palette_x");
    assert_eq!(palette_file_name("car.b"), "car.b");
    assert_eq!(palette_file_name("texturetexture_"), "texturepalette_");
}

#[test]
fn palette_paths() {
    assert_eq!(palette_path("dir/texture_car.b"), Some(String::from("dir/palette_car.b")));
    assert_eq!(palette_path("dir/car.ps2_texture"), Some(String::from("dir/car.ps2_palette")));
    assert_eq!(palette_path("dir/car"), Some(String::from("dir/car")));
    assert_eq!(palette_path("texture_a.tex"), Some(String::from("texture_a.ps2_palette")));
}

fn texture_header(w: u16, h: u16, bpp: u16, valid: bool) -> Ps2TextureHeader {
    let mut b = vec![0u8; 56];
    b[0..4].copy_from_slice(if valid { b"TEX1" } else { b"XXXX" });
    put_u16(&mut b, 10, w);
    put_u16(&mut b, 12, h);
    put_u16(&mut b, 14, bpp);
    put_u32(&mut b, 16, 0x40);
    put_u32(&mut b, 20, 0x38);
    Ps2TextureHeader::from_bytes(&b).unwrap()
}

fn palette_header(count: u16, bpp: u16) -> Ps2PaletteHeader {
    let mut b = vec![0u8; 48];
    b[0..4].copy_from_slice(b"PAL1");
    put_u16(&mut b, 10, count);
    put_u16(&mut b, 12, bpp);
    put_u32(&mut b, 16, 0x30);
    put_u32(&mut b, 20, 0x18);
    Ps2PaletteHeader::from_bytes(&b).unwrap()
}

#[test]
fn new_reader_is_empty() {
    let r = Ps2TextureReader::new("a/b.ps2_texture");
    assert_eq!(r.path(), "a/b.ps2_texture");
    assert_eq!(r.texture_data_start(), 0);
    assert_eq!(r.texture_data_size(), 0);
    assert!(!r.can_convert());
}

#[test]
fn invalid_texture_header() {
    let mut r = Ps2TextureReader::new("t.ps2_texture");
    assert!(matches!(r.accept_texture_header(texture_header(2, 2, 16, false)), Err(Error::InvalidHeader)));
}

#[test]
fn direct_color_16bpp() {
    let mut r = Ps2TextureReader::new("t.ps2_texture");
    assert!(matches!(r.accept_texture_header(texture_header(2, 1, 16, true)), Ok(None)));
    assert_eq!(r.texture_data_start(), 0x40);
    assert_eq!(r.texture_data_size(), 4);
    assert!(matches!(r.store_texture_data(&[1, 2, 3]), Err(Error::ReadTooSmall)));
    assert!(matches!(r.store_texture_data(&[0x00, 0xF8, 0x1F, 0x00]), Ok(())));
    assert!(r.can_convert());
    assert_eq!(r.convert_to_rgba(), vec![0xF8, 0, 0, 255, 0, 0, 0xF8, 255]);
}

#[test]
fn direct_color_32bpp() {
    let mut r = Ps2TextureReader::new("t.ps2_texture");
    assert!(matches!(r.accept_texture_header(texture_header(1, 2, 32, true)), Ok(None)));
    assert_eq!(r.texture_data_size(), 8);
    assert!(r.store_texture_data(&[1, 2, 3, 0x40, 4, 5, 6, 0x80]).is_ok());
    assert!(r.can_convert());
    assert_eq!(r.convert_to_rgba(), vec![1, 2, 3, 0x80, 4, 5, 6, 255]);
}

#[test]
fn short_read_keeps_zero_fill() {
    let mut r = Ps2TextureReader::new("t.ps2_texture");
    assert!(r.accept_texture_header(texture_header(1, 1, 32, true)).is_ok());
    assert!(matches!(r.store_texture_data(&[9, 9]), Err(Error::ReadTooSmall)));
    assert!(r.can_convert());
    assert_eq!(r.convert_to_rgba(), vec![9, 9, 0, 0]);
}

#[test]
fn unsupported_depth_cannot_convert() {
    let mut r = Ps2TextureReader::new("t.ps2_texture");
    assert!(matches!(r.accept_texture_header(texture_header(1, 1, 24, true)), Ok(None)));
    assert_eq!(r.texture_data_size(), 3);
    assert!(r.store_texture_data(&[1, 2, 3]).is_ok());
    assert!(!r.can_convert());
}

#[test]
fn palettized_texture() {
    let mut r = Ps2TextureReader::new("data/texture_car.b");
    let p = r.accept_texture_header(texture_header(2, 2, 8, true));
    assert!(matches!(p, Ok(Some(ref s)) if s == "data/palette_car.b"));
    assert!(matches!(r.accept_palette_header(palette_header(2, 32)), Ok(())));
    assert_eq!(r.palette_data_start(), 0x30);
    assert_eq!(r.palette_data_size(), 8);
    assert!(r.store_palette_data(&[10, 20, 30, 0x80, 40, 50, 60, 0x20]).is_ok());
    assert_eq!(r.texture_data_size(), 4);
    assert!(r.store_texture_data(&[0, 1, 1, 0]).is_ok());
    assert!(r.can_convert());
    assert_eq!(
        r.convert_to_rgba(),
        vec![10, 20, 30, 255, 40, 50, 60, 0x40, 40, 50, 60, 0x40, 10, 20, 30, 255]
    );
}

#[test]
fn palettized_texture_with_plain_extension() {
    let mut r = Ps2TextureReader::new("data/car.ps2_texture");
    let p = r.accept_texture_header(texture_header(1, 1, 8, true));
    assert!(matches!(p, Ok(Some(ref s)) if s == "data/car.ps2_palette"));
}

#[test]
fn palette_problems() {
    let mut r = Ps2TextureReader::new("data/texture_car.b");
    assert!(r.accept_texture_header(texture_header(1, 1, 8, true)).is_ok());
    let mut bad = palette_header(1, 32);
    bad.header_size = 0;
    assert!(matches!(r.accept_palette_header(bad), Err(Error::InvalidHeader)));
    assert!(r.accept_palette_header(palette_header(1, 32)).is_ok());
    assert!(matches!(r.store_palette_data(&[1]), Err(Error::ReadTooSmall)));
    assert!(r.store_palette_data(&[1, 2, 3, 4]).is_ok());
    // a pixel indexing past the palette
    assert!(r.store_texture_data(&[1]).is_ok());
    assert!(!r.can_convert());
    assert!(r.store_texture_data(&[0]).is_ok());
    assert!(r.can_convert());
    // a palette of other than 32 bits per color
    assert!(r.accept_palette_header(palette_header(1, 16)).is_ok());
    assert!(!r.can_convert());
}
