//! ForgeKit: building blocks of a local-first media and PDF toolkit.
//!
//! The library computes everything that the toolkit decides: page
//! specifications, format detection, install hints, exit codes, job
//! descriptions, and the exact command lines handed to external tools.
//! Running those tools, touching the file system and printing are left to
//! the program around the library.
pub mod audio;
pub mod commands;
pub mod error;
pub mod image;
pub mod job;
pub mod pages;
pub mod paths;
pub mod platform;
pub mod presets;
pub mod temp;
pub mod text;
pub mod tools;
