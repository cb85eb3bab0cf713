//! Reader for the block-file disk cache format: packed cache addresses,
//! block files, entry chains, content streams and rankings records.

pub mod block_file;
pub mod bytes;
pub mod cache_address;
pub mod cache_index;
pub mod entry;
pub mod error;
pub mod stream;
pub mod text;
pub mod time;
