use jmmt::hash::crc32::hash_string;
use jmmt::hash::filename::{dat_filename, dat_filename_from_hash, met_filename, met_filename_from_hash};

#[test]
fn crc32_check_value() {
    // The standard CRC-32 check value; digits are unaffected by case folding.
    assert_eq!(hash_string(String::from("123456789")), 0xCBF43926);
    assert_eq!(hash_string(String::new()), 0);
}

#[test]
fn hash_folds_ascii_case() {
    assert_eq!(hash_string(String::from("PACKAGE.TOC")), hash_string(String::from("package.toc")));
    assert_eq!(hash_string(String::from("Abc")), hash_string(String::from("aBC")));
    assert_ne!(hash_string(String::from("abc")), hash_string(String::from("abd")));
    // the CRC-32 of "a" (0xE8B7BE43), reached from "A" too
    assert_eq!(hash_string(String::from("A")), 0xE8B7BE43);
}

#[test]
fn hash_of_non_ascii_uses_utf8_bytes() {
    // "é" is the bytes C3 A9; "É" (C3 89) is not folded.
    assert_ne!(hash_string(String::from("é")), hash_string(String::from("É")));
}

#[test]
fn dat_and_met_names_from_hash() {
    assert_eq!(dat_filename_from_hash(0x1A2B), "1A2B.DAT");
    assert_eq!(met_filename_from_hash(0x1A2B), "1A2B.MET");
    assert_eq!(dat_filename_from_hash(0), "0.DAT");
    assert_eq!(dat_filename_from_hash(0xFFFFFFFF), "FFFFFFFF.DAT");
    assert_eq!(dat_filename_from_hash(0x0ABCDEF0), "ABCDEF0.DAT");
    assert!(dat_filename_from_hash(0xFFFFFFFF).len() <= 13);
}

#[test]
fn dat_and_met_names_from_file_name() {
    let h = hash_string(String::from("package.toc"));
    assert_eq!(dat_filename("package.toc"), format!("{:X}.DAT", h));
    assert_eq!(met_filename("package.toc"), format!("{:X}.MET", h));
    assert_eq!(dat_filename("123456789"), "CBF43926.DAT");
    assert_eq!(dat_filename("PACKAGE.TOC"), dat_filename("package.toc"));
}
