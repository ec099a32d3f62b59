//! Picks the external command that extracts an archive, from the archive's
//! file name alone.

pub mod archive;
pub mod cli;
pub mod errors;
