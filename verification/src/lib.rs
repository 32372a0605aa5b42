//! Verified core of a Zenodo record downloader.
//!
//! The library turns a record's raw file metadata into a normalized manifest
//! and drives the sequential download/verify/skip loop over it. All I/O (HTTP,
//! filesystem) is performed by the surrounding application, which reports each
//! outcome back as plain values; every decision taken on those values is
//! verified here.

pub mod batch;
pub mod checksum;
pub mod download;
pub mod localfile;
pub mod manifest;
