//! qpdf: merging, splitting, reordering and linearizing PDFs.
use vstd::prelude::*;
use crate::error::ForgeKitError;
use crate::text::{
    parse_uint, parse_uint_exec, push_str, push_text, string_of, texts, to_chars, trim, trim_chars,
};

verus! {

broadcast use vstd::string::group_string_axioms;

/// qpdf adapter.
pub struct QpdfTool;

/// Arguments that make qpdf print the number of pages of `pdf`.
pub open spec fn page_count_args_spec(pdf: Seq<char>) -> Seq<Seq<char>> {
    seq!["--show-npages"@, pdf]
}

/// The message reported when qpdf's answer is not a page count.
pub open spec fn msg_bad_page_count(answer: Seq<char>) -> Seq<char> {
    "Failed to parse page count from qpdf output: '"@ + answer + "'"@
}

/// The page count qpdf printed, if its trimmed output is a `u32`.
pub open spec fn printed_page_count(stdout: Seq<char>) -> Option<nat> {
    parse_uint(trim(stdout), u32::MAX as nat)
}

impl QpdfTool {
    /// The tool's name.
    pub fn name(&self) -> (r: &'static str)
        ensures
            r@ == "qpdf"@,
    {
        "qpdf"
    }

    /// Arguments of `qpdf --show-npages <pdf>`.
    pub fn page_count_args(pdf_path: &str) -> (r: Vec<String>)
        ensures
            texts(r@) == page_count_args_spec(pdf_path@),
    {
        let mut args: Vec<String> = Vec::new();
        push_text(&mut args, "--show-npages");
        push_text(&mut args, pdf_path);
        args
    }

    /// The page count from what `qpdf --show-npages` reported: its
    /// standard error as a failure when it did not succeed, otherwise its
    /// trimmed output read as a `u32`.
    pub fn page_count_from_output(success: bool, stdout: &str, stderr: &str) -> (r: Result<
        u32,
        ForgeKitError,
    >)
        ensures
            !success ==> (r matches Err(ForgeKitError::ProcessingFailed { tool, stderr: e }) && tool@
                == "qpdf"@ && e@ == stderr@),
            success && printed_page_count(stdout@) is Some ==> (r matches Ok(n) && n
                == printed_page_count(stdout@).unwrap()),
            success && printed_page_count(stdout@) is None ==> (r matches Err(
                ForgeKitError::Other(m),
            ) && m@ == msg_bad_page_count(trim(stdout@))),
    {
        if !success {
            return Err(ForgeKitError::ProcessingFailed { tool: string_of("qpdf"), stderr: string_of(stderr) });
        }
        let c = to_chars(stdout);
        let t = trim_chars(c.as_slice());
        match parse_uint_exec(t.as_slice(), 0xFFFF_FFFFu64) {
            Some(v) => Ok(v as u32),
            None => {
                let mut m = String::new();
                push_str(&mut m, "Failed to parse page count from qpdf output: '");
                crate::text::push_chars(&mut m, t.as_slice());
                push_str(&mut m, "'");
                Err(ForgeKitError::Other(m))
            },
        }
    }
}

} // verus!
