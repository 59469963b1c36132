//! Vorbis-comment tag writing for Ogg files, with machine-checked contracts.
//!
//! An adapter binds a file path to the comment header read from that file's
//! bytes. Fields are set in memory, and saving produces the bytes of the
//! rewritten file. Reading and writing the file itself is left to the caller.

pub mod comments;
pub mod date;
pub mod field;
pub mod ogg;
pub mod sidecar;
pub mod tag;
pub mod laws;
