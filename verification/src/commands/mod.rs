//! What the command-line subcommands decide before a job runs: output
//! paths derived from the input, formats, and the validation of options.
pub mod audio;
pub mod check;
pub mod image;
pub mod media;
pub mod pdf;
pub mod video;
