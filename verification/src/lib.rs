//! Selective mirror of a Rust release channel.
//!
//! The library holds the verified core of the mirroring tool: request
//! validation against the closed channel/target/format vocabularies,
//! packaging-format parsing, lexical path normalization, the hash-based
//! cache decision, manifest filtering and mutation, and the computation
//! of everything the publisher writes.  All file and network I/O lives
//! outside the library and hands it plain values.

pub mod cache;
pub mod config;
pub mod digest;
pub mod filter;
pub mod format;
pub mod manifest;
pub mod paths;
pub mod publish;
pub mod request;
pub mod strutil;
pub mod sync;
