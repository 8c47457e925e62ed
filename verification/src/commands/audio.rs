//! `audio convert`, `extract` and `mono`: formats and derived output
//! paths.
use vstd::prelude::*;
use crate::audio::{AudioFormat, audio_ext, audio_from_ext, audio_from_path, audio_supported};
use crate::commands::image::{derived_name, derived_name_of, invalid, no_file_name, opt_str_view};
use crate::error::{ErrorView, ForgeKitError};
use crate::job::spec::{JobSpec, JobView, job_result};
use crate::paths::{file_stem, file_stem_of};
use crate::text::{push_str, string_of};

verus! {

broadcast use vstd::string::group_string_axioms;

/// The format and output path of an audio conversion or extraction: the
/// output given (format from its extension), or the input's stem with the
/// `--to` format's extension.
pub open spec fn audio_target(input: Seq<char>, output: Option<Seq<char>>, to: Option<Seq<char>>) -> Result<
    (AudioFormat, Seq<char>),
    ErrorView,
> {
    match output {
        Some(o) => match audio_from_path(o) {
            Some(f) => Ok((f, o)),
            None => Err(
                ErrorView::InvalidInput {
                    path: o,
                    reason: "Cannot determine format from output extension. Use --to to specify."@,
                },
            ),
        },
        None => match to {
            None => Err(invalid("Either --output or --to is required"@)),
            Some(t) => match audio_from_ext(t) {
                None => Err(invalid("Unknown format '"@ + t + "'. Supported: "@ + audio_supported())),
                Some(f) => match file_stem(input) {
                    None => Err(no_file_name(input)),
                    Some(stem) => Ok((f, stem + "."@ + audio_ext(f))),
                },
            },
        },
    }
}

/// The format and output path of an audio conversion or extraction.
pub fn audio_target_of(input: &str, output: Option<&str>, to: Option<&str>) -> (r: Result<
    (AudioFormat, String),
    ForgeKitError,
>)
    ensures
        match audio_target(input@, opt_str_view(output), opt_str_view(to)) {
            Ok((f, o)) => r matches Ok((g, p)) && g == f && p@ == o,
            Err(e) => r matches Err(x) && x@ == e,
        },
{
    match output {
        Some(o) => match AudioFormat::from_path(o) {
            Some(f) => Ok((f, string_of(o))),
            None => Err(
                ForgeKitError::InvalidInput {
                    path: string_of(o),
                    reason: string_of("Cannot determine format from output extension. Use --to to specify."),
                },
            ),
        },
        None => match to {
            None => Err(ForgeKitError::InvalidInput { path: String::new(), reason: string_of("Either --output or --to is required") }),
            Some(t) => match AudioFormat::from_extension(t) {
                None => {
                    let mut m = string_of("Unknown format '");
                    push_str(&mut m, t);
                    push_str(&mut m, "'. Supported: ");
                    push_str(&mut m, AudioFormat::supported_extensions());
                    Err(ForgeKitError::InvalidInput { path: String::new(), reason: m })
                },
                Some(f) => match file_stem_of(input) {
                    None => Err(
                        ForgeKitError::InvalidInput {
                            path: string_of(input),
                            reason: string_of("Cannot determine filename from input"),
                        },
                    ),
                    Some(stem) => {
                        let mut name = stem;
                        push_str(&mut name, ".");
                        push_str(&mut name, f.extension());
                        Ok((f, name))
                    },
                },
            },
        },
    }
}

/// The job `audio convert` asks for.
pub open spec fn convert_request(input: Seq<char>, output: Option<Seq<char>>, to: Option<Seq<char>>, bitrate: Option<u32>) -> Result<
    JobView,
    ErrorView,
> {
    match audio_target(input, output, to) {
        Err(e) => Err(e),
        Ok((format, out)) => Ok(JobView::AudioConvert { input, output: out, format, bitrate }),
    }
}

/// The job `audio convert` asks for.
pub fn convert_job(input: &str, output: Option<&str>, to: Option<&str>, bitrate: Option<u32>) -> (r: Result<
    JobSpec,
    ForgeKitError,
>)
    ensures
        job_result(r) == convert_request(input@, opt_str_view(output), opt_str_view(to), bitrate),
{
    match audio_target_of(input, output, to) {
        Err(e) => Err(e),
        Ok((format, out)) => Ok(JobSpec::AudioConvert { input: string_of(input), output: out, format, bitrate }),
    }
}

/// The job `audio extract` asks for.
pub open spec fn extract_request(input: Seq<char>, output: Option<Seq<char>>, to: Option<Seq<char>>, bitrate: Option<u32>) -> Result<
    JobView,
    ErrorView,
> {
    match audio_target(input, output, to) {
        Err(e) => Err(e),
        Ok((format, out)) => Ok(JobView::AudioExtract { input, output: out, format, bitrate }),
    }
}

/// The job `audio extract` asks for.
pub fn extract_job(input: &str, output: Option<&str>, to: Option<&str>, bitrate: Option<u32>) -> (r: Result<
    JobSpec,
    ForgeKitError,
>)
    ensures
        job_result(r) == extract_request(input@, opt_str_view(output), opt_str_view(to), bitrate),
{
    match audio_target_of(input, output, to) {
        Err(e) => Err(e),
        Ok((format, out)) => Ok(JobSpec::AudioExtract { input: string_of(input), output: out, format, bitrate }),
    }
}

/// The job `audio mono` asks for: the output defaults to
/// `<stem>_mono.<ext>`.
pub open spec fn mono_request(input: Seq<char>, output: Option<Seq<char>>) -> Result<JobView, ErrorView> {
    match output {
        Some(o) => Ok(JobView::AudioMono { input, output: o }),
        None => match derived_name(input, "_mono"@) {
            Err(e) => Err(e),
            Ok(o) => Ok(JobView::AudioMono { input, output: o }),
        },
    }
}

/// The job `audio mono` asks for.
pub fn mono_job(input: &str, output: Option<&str>) -> (r: Result<JobSpec, ForgeKitError>)
    ensures
        job_result(r) == mono_request(input@, opt_str_view(output)),
{
    let out = match output {
        Some(o) => string_of(o),
        None => match derived_name_of(input, "_mono") {
            Err(e) => {
                return Err(e);
            },
            Ok(n) => n,
        },
    };
    Ok(JobSpec::AudioMono { input: string_of(input), output: out })
}

} // verus!
