//! Shipping completed segments to object storage.

pub mod uploader;

pub use uploader::SegmentInfo;
