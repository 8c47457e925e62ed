//! Adapters for the external command-line tools.
//!
//! Each adapter knows its tool's name, the exact arguments each operation
//! passes to it, the `--plan` text that shows that command, and how to read
//! what the tool prints.  Running the tools is left to the caller.
use vstd::prelude::*;
use crate::text::{
    append_all, first_line, first_line_of, from_chars, join, join_strings, push_text,
    texts, trim, trim_chars,
};

pub mod exiftool;
pub mod ffmpeg;
pub mod gs;
pub mod imagemagick;
pub mod libvips;
pub mod ocrmypdf;
pub mod probe;
pub mod qpdf;

verus! {

broadcast use vstd::string::group_string_axioms;

/// Configuration for tool detection: an explicit path overrides the
/// search of `PATH`.
#[derive(Debug, Clone, Default)]
pub struct ToolConfig {
    /// Override path for this tool.
    pub override_path: Option<String>,
}

/// Information about a tool found on the system.
#[derive(Debug, Clone)]
pub struct ToolInfo {
    /// Full path to the executable.
    pub path: String,
    /// Version string as the tool reports it.
    pub version: String,
    /// Whether the tool is available and working.
    pub available: bool,
}

/// The version text most tools print: their first output line, trimmed.
pub open spec fn first_line_version(stdout: Seq<char>) -> Seq<char> {
    trim(first_line(stdout))
}

/// A command line as `--plan` shows it: the program and its arguments
/// separated by spaces.
pub open spec fn command_line(program: Seq<char>, args: Seq<Seq<char>>) -> Seq<char> {
    join(seq![program] + args, " "@)
}

/// The command line that runs `program` with `args`.
pub fn command_line_of(program: &str, args: &[String]) -> (r: String)
    ensures
        r@ == command_line(program@, texts(args@)),
{
    let mut parts: Vec<String> = Vec::new();
    push_text(&mut parts, program);
    append_all(&mut parts, args);
    assert(texts(parts@) =~= seq![program@] + texts(args@));
    join_strings(parts.as_slice(), " ")
}

/// The version a tool reports on its first output line.
pub fn version_from_output(stdout: &str) -> (r: String)
    ensures
        r@ == first_line_version(stdout@),
{
    let l = first_line_of(stdout);
    let t = trim_chars(l.as_slice());
    from_chars(t.as_slice())
}

} // verus!
