//! One backend adapter module per codec. Each adapter maps the normalized
//! quality scale onto the backend's native parameter range and wraps the
//! backend's in-memory encode and decode entry points.

pub mod base58;
pub mod bincode;
pub mod brotli;
pub mod bzip2;
pub mod deflate;
pub mod gzip;
pub mod lz4;
pub mod xz;
pub mod zlib;
pub mod zstd;
