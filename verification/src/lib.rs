//! Library for the file formats of Jonny Moseley Mad Trix: package tables of contents,
//! package file chunks, LZSS headers and PS2 textures/palettes, plus the file name hash
//! used for the game's `.DAT`/`.MET` files.

pub mod format;
pub mod hash;
pub mod lzss;
pub mod read;
pub mod util;
