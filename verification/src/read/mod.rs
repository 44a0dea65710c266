//! High-level readers: the decisions of reading `package.toc` and PS2 textures, fed with
//! the bytes that were read.

pub mod package_toc;
pub mod texture;
