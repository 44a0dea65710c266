//! LZSS compression structures.

pub mod header;
