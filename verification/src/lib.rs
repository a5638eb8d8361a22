//! Core of a tool that appends a file's last-modified time to its name.
//!
//! Everything here works on plain values: file names and paths as strings,
//! modification times as Unix seconds with the offset of the local time
//! zone, directory entries as events. Reading the file system, looking up
//! the time zone and renaming files is left to the caller.

pub mod cli;
pub mod naming;
pub mod rename;
pub mod scan;
pub mod text;
pub mod timestamp;
