//! The file name hash of the game, and the `.DAT`/`.MET` names built from it.

pub mod crc32;
pub mod filename;
