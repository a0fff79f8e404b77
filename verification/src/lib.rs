//! Verified core of an SD/MMC FAT-filesystem wrapper for an embedded target.
//!
//! The library holds everything that can be reasoned about as plain values:
//! bounded null-terminated path construction, classification of native status
//! codes, cluster-based space accounting, directory-entry name decoding, and
//! the fixed configuration the mount call is made with. The unsafe native
//! calls themselves (mount, open, read, write, readdir, ...) live outside the
//! library, in the thin shell that drives the hardware.

pub mod config;
pub mod entry;
pub mod file;
pub mod path;
pub mod space;
pub mod status;

pub use entry::LsEntry;
pub use path::HeaplessCStr;
pub use space::Info;
pub use status::Error;
