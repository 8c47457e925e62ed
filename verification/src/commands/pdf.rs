//! `pdf split`, `reorder` and `extract`: page specifications and page
//! orders given on the command line, and the paths each format needs.
use vstd::prelude::*;
use crate::commands::image::{invalid, opt_str_view};
use crate::error::{ErrorView, ForgeKitError};
use crate::job::spec::{JobSpec, JobView, job_result};
use crate::pages::{PageSpec, parse_spec};
use crate::text::{
    parse_uint, parse_uint_exec, push_str, split_chars, split_on, str_eq, string_of, trim, trim_chars,
    to_chars,
};

verus! {

broadcast use vstd::string::group_string_axioms;

/// The page numbers of comma-separated pieces, each trimmed and read as a
/// `u32`; none if a piece is not such a number.
pub open spec fn parsed_order(parts: Seq<Seq<char>>) -> Option<Seq<u32>>
    decreases parts.len(),
{
    if parts.len() == 0 {
        Some(Seq::<u32>::empty())
    } else {
        match parsed_order(parts.drop_last()) {
            None => None,
            Some(r) => match parse_uint(trim(parts.last()), u32::MAX as nat) {
                None => None,
                Some(v) => Some(r.push(v as u32)),
            },
        }
    }
}

/// A piece that is not a number spoils the whole order.
proof fn lemma_order_none_extends(parts: Seq<Seq<char>>, k: int)
    requires
        0 <= k <= parts.len(),
        parsed_order(parts.take(k)) is None,
    ensures
        parsed_order(parts) is None,
    decreases parts.len() - k,
{
    if k == parts.len() {
        assert(parts.take(k) =~= parts);
    } else {
        assert(parts.take(k + 1).drop_last() =~= parts.take(k));
        lemma_order_none_extends(parts, k + 1);
    }
}

/// The page order `pdf reorder --pages` gives, such as `3,1,2`.
pub open spec fn page_order_spec(s: Seq<char>) -> Result<Seq<u32>, ErrorView> {
    match parsed_order(split_on(s, ',')) {
        None => Err(invalid("Invalid page order format. Expected comma-separated numbers (e.g., '3,1,2')"@)),
        Some(order) => if order.len() == 0 {
            Err(invalid("Page order cannot be empty"@))
        } else {
            Ok(order)
        },
    }
}

/// Reads a page order such as `3,1,2`.
pub fn parse_page_order(s: &str) -> (r: Result<Vec<u32>, ForgeKitError>)
    ensures
        match page_order_spec(s@) {
            Ok(order) => r matches Ok(v) && v@ == order,
            Err(e) => r matches Err(x) && x@ == e,
        },
{
    let c = to_chars(s);
    let parts = split_chars(c.as_slice(), ',');
    let ghost all = split_on(s@, ',');
    let n = parts.len();
    let mut order: Vec<u32> = Vec::new();
    assert(all.take(0) =~= Seq::<Seq<char>>::empty());
    for i in 0..n
        invariant
            n == parts@.len(),
            all == split_on(s@, ','),
            n == all.len(),
            forall|k: int| 0 <= k < n ==> #[trigger] parts@[k]@ == all[k],
            parsed_order(all.take(i as int)) == Some(order@),
    {
        let t = trim_chars(parts[i].as_slice());
        proof {
            assert(all.take(i + 1).drop_last() =~= all.take(i as int));
            assert(all.take(i + 1).last() == all[i as int]);
        }
        match parse_uint_exec(t.as_slice(), 0xFFFF_FFFFu64) {
            None => {
                proof {
                    lemma_order_none_extends(all, i + 1);
                }
                return Err(
                    ForgeKitError::InvalidInput {
                        path: String::new(),
                        reason: string_of(
                            "Invalid page order format. Expected comma-separated numbers (e.g., '3,1,2')",
                        ),
                    },
                );
            },
            Some(v) => {
                order.push(v as u32);
            },
        }
    }
    assert(all.take(n as int) =~= all);
    if order.len() == 0 {
        return Err(ForgeKitError::InvalidInput { path: String::new(), reason: string_of("Page order cannot be empty") });
    }
    Ok(order)
}

/// The job `pdf reorder` asks for.
pub open spec fn reorder_request(input: Seq<char>, output: Seq<char>, pages: Seq<char>) -> Result<JobView, ErrorView> {
    match page_order_spec(pages) {
        Err(e) => Err(e),
        Ok(order) => Ok(JobView::PdfReorder { input, output, page_order: order }),
    }
}

/// The job `pdf reorder` asks for.
pub fn reorder_job(input: &str, output: &str, pages: &str) -> (r: Result<JobSpec, ForgeKitError>)
    ensures
        job_result(r) == reorder_request(input@, output@, pages@),
{
    match parse_page_order(pages) {
        Err(e) => Err(e),
        Ok(order) => Ok(JobSpec::PdfReorder { input: string_of(input), output: string_of(output), page_order: order }),
    }
}

/// A page specification read from the command line, or why it was refused.
pub open spec fn pages_request(pages: Seq<char>) -> Result<Seq<PageSpec>, ErrorView> {
    match parse_spec(pages) {
        Ok(v) => Ok(v),
        Err(reason) => Err(invalid(reason)),
    }
}

/// The job `pdf split` asks for.
pub open spec fn split_request(input: Seq<char>, output_dir: Seq<char>, pages: Seq<char>) -> Result<JobView, ErrorView> {
    match pages_request(pages) {
        Err(e) => Err(e),
        Ok(specs) => Ok(JobView::PdfSplit { input, output_dir, pages: specs }),
    }
}

/// The job `pdf split` asks for.
pub fn split_job(input: &str, output_dir: &str, pages: &str) -> (r: Result<JobSpec, ForgeKitError>)
    ensures
        job_result(r) == split_request(input@, output_dir@, pages@),
{
    match PageSpec::parse(pages) {
        Err(e) => Err(e),
        Ok(specs) => Ok(JobSpec::PdfSplit { input: string_of(input), output_dir: string_of(output_dir), pages: specs }),
    }
}

/// The job `pdf extract` asks for: "pdf" needs an output file, "png",
/// "jpeg" and "jpg" an output directory; other formats are refused.
pub open spec fn extract_request(
    input: Seq<char>,
    output: Option<Seq<char>>,
    output_dir: Option<Seq<char>>,
    pages: Seq<char>,
    format: Seq<char>,
) -> Result<JobView, ErrorView> {
    let checked: Result<(), ErrorView> = if format == "pdf"@ {
        if output is None {
            Err(invalid("Output file path required when format is 'pdf'. Use --output <file>"@))
        } else {
            Ok(())
        }
    } else if format == "png"@ || format == "jpeg"@ || format == "jpg"@ {
        if output_dir is None {
            Err(
                invalid(
                    "Output directory path required when format is '"@ + format
                        + "'. Use --output-dir <dir>"@,
                ),
            )
        } else {
            Ok(())
        }
    } else {
        Err(invalid("Unknown format '"@ + format + "'. Supported formats: pdf, png, jpeg, jpg"@))
    };
    match checked {
        Err(e) => Err(e),
        Ok(_) => match pages_request(pages) {
            Err(e) => Err(e),
            Ok(specs) => Ok(JobView::PdfExtract { input, output, output_dir, pages: specs, format }),
        },
    }
}

fn invalid_error(reason: String) -> (e: ForgeKitError)
    ensures
        e@ == invalid(reason@),
{
    ForgeKitError::InvalidInput { path: String::new(), reason }
}

/// The job `pdf extract` asks for.
pub fn extract_job(
    input: &str,
    output: Option<&str>,
    output_dir: Option<&str>,
    pages: &str,
    format: &str,
) -> (r: Result<JobSpec, ForgeKitError>)
    ensures
        job_result(r) == extract_request(input@, opt_str_view(output), opt_str_view(output_dir), pages@, format@),
{
    proof {
        reveal_strlit("pdf");
        reveal_strlit("png");
        reveal_strlit("jpeg");
        reveal_strlit("jpg");
    }
    if str_eq(format, "pdf") {
        if output.is_none() {
            return Err(invalid_error(string_of("Output file path required when format is 'pdf'. Use --output <file>")));
        }
    } else if str_eq(format, "png") || str_eq(format, "jpeg") || str_eq(format, "jpg") {
        if output_dir.is_none() {
            let mut m = string_of("Output directory path required when format is '");
            push_str(&mut m, format);
            push_str(&mut m, "'. Use --output-dir <dir>");
            return Err(invalid_error(m));
        }
    } else {
        let mut m = string_of("Unknown format '");
        push_str(&mut m, format);
        push_str(&mut m, "'. Supported formats: pdf, png, jpeg, jpg");
        return Err(invalid_error(m));
    }
    let specs = match PageSpec::parse(pages) {
        Err(e) => {
            return Err(e);
        },
        Ok(s) => s,
    };
    let out = match output {
        Some(o) => Some(string_of(o)),
        None => None,
    };
    let dir = match output_dir {
        Some(d) => Some(string_of(d)),
        None => None,
    };
    Ok(JobSpec::PdfExtract { input: string_of(input), output: out, output_dir: dir, pages: specs, format: string_of(format) })
}

} // verus!
