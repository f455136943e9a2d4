//! Codec for the DBPF game-asset archive container: header parsing and
//! validation, the composite-key index table, the compression directory, and
//! the QFS/RefPack compression scheme used for individual resource blobs.
//! Archives are community-authored files, so every codec defends against
//! malformed input: each reader states exactly on which byte streams it
//! succeeds and which failure every other stream raises.
//!
//! Every multi-byte field of the container is little-endian except the two
//! big-endian fields inside a compressed blob's own header.

pub mod bcon;
pub mod bytes;
pub mod compression;
pub mod data_kinds;
pub mod database_packed_file;
pub mod directory;
pub mod error;
pub mod header;
pub mod index_table;
pub mod key;
