//! Streaming download, decompression and extraction of gzip-compressed tar
//! archives: the decisions of the transfer, with their contracts.
//!
//! The crate holds what the transfer decides and computes: where the download
//! goes on disk, whether a response can be used, how large the unpacked
//! archive is likely to be, and how progress is counted while the archive is
//! read. Sending requests, writing files and unpacking the archive are left to
//! the caller.

pub mod text;

pub mod error;

pub mod arguments;

pub mod destination;

pub mod response;

pub mod source;

pub mod progress;

pub mod estimate;

pub mod meter;
