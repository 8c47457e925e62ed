//! Ghostscript: recompressing PDFs and rendering pages to images.
use vstd::prelude::*;

verus! {

/// Ghostscript adapter.
pub struct GsTool;

impl GsTool {
    /// The tool's name.
    pub fn name(&self) -> (r: &'static str)
        ensures
            r@ == "gs"@,
    {
        "gs"
    }
}

} // verus!
