//! Decision logic of a single-shot installer for the Zig toolchain: which
//! artifact a chosen platform maps to, how a download is named and counted,
//! where the archive is unpacked, and the order in which the steps of one run
//! follow each other.

pub mod coordinator;
pub mod destination;
pub mod download;
pub mod error;
pub mod manifest;
pub mod run;
pub mod table;
pub mod target;
pub mod text;

pub use crate::error::Error;
