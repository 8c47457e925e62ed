//! `image convert`, `resize`, `strip` and `compress`.
use vstd::prelude::*;
use crate::error::{ErrorView, ForgeKitError};
use crate::image::{ImageFormat, image_ext, image_from_ext, image_from_path, lemma_image_ext_plain};
use crate::job::spec::{JobSpec, JobView, job_result};
use crate::paths::{extension, extension_of, file_stem, file_stem_of, path_with_ext, with_extension};
use crate::text::{dec, eq_fold, eq_fold_exec, push_dec, push_str, str_eq, string_of, to_chars};

verus! {

broadcast use vstd::string::group_string_axioms;

/// An invalid-input error about no particular file.
pub open spec fn invalid(reason: Seq<char>) -> ErrorView {
    ErrorView::InvalidInput { path: Seq::empty(), reason }
}

/// The error for an input whose file name cannot be found.
pub open spec fn no_file_name(input: Seq<char>) -> ErrorView {
    ErrorView::InvalidInput { path: input, reason: "Cannot determine filename from input"@ }
}

/// The message for an unknown image format name.
pub open spec fn msg_unknown_image_format(t: Seq<char>) -> Seq<char> {
    "Unknown format '"@ + t + "'. Supported: jpeg, png, webp, avif, tiff, gif"@
}

/// The extension of a path, or nothing.
pub open spec fn ext_or_empty(p: Seq<char>) -> Seq<char> {
    match extension(p) {
        Some(e) => e,
        None => Seq::empty(),
    }
}

/// The format and output path of a conversion: the output given (format
/// from `--to`, else from the output's extension), or the input's stem
/// with the `--to` format's extension.
pub open spec fn convert_target(input: Seq<char>, output: Option<Seq<char>>, to: Option<Seq<char>>) -> Result<
    (ImageFormat, Seq<char>),
    ErrorView,
> {
    match output {
        Some(o) => match to {
            Some(t) => match image_from_ext(t) {
                Some(f) => Ok((f, o)),
                None => Err(invalid(msg_unknown_image_format(t))),
            },
            None => match image_from_path(o) {
                Some(f) => Ok((f, o)),
                None => Err(
                    ErrorView::InvalidInput {
                        path: o,
                        reason: "Cannot determine format from output extension. Use --to to specify."@,
                    },
                ),
            },
        },
        None => match to {
            None => Err(invalid("Either --output or --to is required"@)),
            Some(t) => match image_from_ext(t) {
                None => Err(invalid(msg_unknown_image_format(t))),
                Some(f) => match file_stem(input) {
                    None => Err(no_file_name(input)),
                    Some(stem) => Ok((f, path_with_ext(stem, image_ext(f)))),
                },
            },
        },
    }
}

/// The job `image convert` asks for: quality at most 100, a compression
/// level from 1 to 9 (0, the fastest, when none is given).
pub open spec fn convert_request(
    input: Seq<char>,
    output: Option<Seq<char>>,
    to: Option<Seq<char>>,
    quality: Option<u8>,
    compression: Option<u8>,
    strip: bool,
) -> Result<JobView, ErrorView> {
    match convert_target(input, output, to) {
        Err(e) => Err(e),
        Ok((format, out)) => if quality matches Some(q) && q > 100 {
            Err(invalid("Quality must be between 0 and 100"@))
        } else {
            match compression {
                Some(c) => if 1 <= c <= 9 {
                    Ok(
                        JobView::ImageConvert {
                            input,
                            output: out,
                            format,
                            quality,
                            compression: Some(c),
                            strip_metadata: strip,
                        },
                    )
                } else {
                    Err(invalid("Compression must be between 1 and 9"@))
                },
                None => Ok(
                    JobView::ImageConvert {
                        input,
                        output: out,
                        format,
                        quality,
                        compression: Some(0),
                        strip_metadata: strip,
                    },
                ),
            }
        },
    }
}

/// An optional slice by its characters.
pub open spec fn opt_str_view(o: Option<&str>) -> Option<Seq<char>> {
    match o {
        Some(s) => Some(s@),
        None => None,
    }
}

fn invalid_error(reason: String) -> (e: ForgeKitError)
    ensures
        e@ == invalid(reason@),
{
    ForgeKitError::InvalidInput { path: String::new(), reason }
}

fn no_file_name_error(input: &str) -> (e: ForgeKitError)
    ensures
        e@ == no_file_name(input@),
{
    ForgeKitError::InvalidInput { path: string_of(input), reason: string_of("Cannot determine filename from input") }
}

fn unknown_format_error(t: &str) -> (e: ForgeKitError)
    ensures
        e@ == invalid(msg_unknown_image_format(t@)),
{
    let mut m = string_of("Unknown format '");
    push_str(&mut m, t);
    push_str(&mut m, "'. Supported: jpeg, png, webp, avif, tiff, gif");
    invalid_error(m)
}

/// The format and output path of a conversion.
pub fn convert_target_of(input: &str, output: Option<&str>, to: Option<&str>) -> (r: Result<
    (ImageFormat, String),
    ForgeKitError,
>)
    ensures
        match convert_target(input@, opt_str_view(output), opt_str_view(to)) {
            Ok((f, o)) => r matches Ok((g, p)) && g == f && p@ == o,
            Err(e) => r matches Err(x) && x@ == e,
        },
{
    match output {
        Some(o) => match to {
            Some(t) => match ImageFormat::from_extension(t) {
                Some(f) => Ok((f, string_of(o))),
                None => Err(unknown_format_error(t)),
            },
            None => match ImageFormat::from_path(o) {
                Some(f) => Ok((f, string_of(o))),
                None => Err(
                    ForgeKitError::InvalidInput {
                        path: string_of(o),
                        reason: string_of("Cannot determine format from output extension. Use --to to specify."),
                    },
                ),
            },
        },
        None => match to {
            None => Err(invalid_error(string_of("Either --output or --to is required"))),
            Some(t) => match ImageFormat::from_extension(t) {
                None => Err(unknown_format_error(t)),
                Some(f) => match file_stem_of(input) {
                    None => Err(no_file_name_error(input)),
                    Some(stem) => {
                        proof {
                            lemma_image_ext_plain(f);
                        }
                        Ok((f, with_extension(stem.as_str(), f.extension())))
                    },
                },
            },
        },
    }
}

/// The job `image convert` asks for.
pub fn convert_job(
    input: &str,
    output: Option<&str>,
    to: Option<&str>,
    quality: Option<u8>,
    compression: Option<u8>,
    strip: bool,
) -> (r: Result<JobSpec, ForgeKitError>)
    ensures
        job_result(r) == convert_request(input@, opt_str_view(output), opt_str_view(to), quality, compression, strip),
{
    let (format, out) = match convert_target_of(input, output, to) {
        Err(e) => {
            return Err(e);
        },
        Ok(x) => x,
    };
    match quality {
        Some(q) => if q > 100 {
            return Err(invalid_error(string_of("Quality must be between 0 and 100")));
        },
        None => {},
    }
    let level = match compression {
        Some(c) => if 1 <= c && c <= 9 {
            Some(c)
        } else {
            return Err(invalid_error(string_of("Compression must be between 1 and 9")));
        },
        None => Some(0),
    };
    Ok(
        JobSpec::ImageConvert {
            input: string_of(input),
            output: out,
            format,
            quality,
            compression: level,
            strip_metadata: strip,
        },
    )
}

/// The file name suffix of a resize: `_WxH`, `_Ww` or `_Hh`.
pub open spec fn resize_suffix(width: Option<u32>, height: Option<u32>) -> Seq<char> {
    match (width, height) {
        (Some(w), Some(h)) => "_"@ + dec(w as nat) + "x"@ + dec(h as nat),
        (Some(w), None) => "_"@ + dec(w as nat) + "w"@,
        (None, Some(h)) => "_"@ + dec(h as nat) + "h"@,
        (None, None) => Seq::empty(),
    }
}

/// The input's stem with a suffix, then `.` and the input's extension
/// (empty when it has none).
pub open spec fn derived_name(input: Seq<char>, suffix: Seq<char>) -> Result<Seq<char>, ErrorView> {
    match file_stem(input) {
        None => Err(no_file_name(input)),
        Some(stem) => Ok(stem + suffix + "."@ + ext_or_empty(input)),
    }
}

/// The job `image resize` asks for: a width or a height is needed; the
/// output defaults to `<stem>_<size>.<ext>`.
pub open spec fn resize_request(input: Seq<char>, output: Option<Seq<char>>, width: Option<u32>, height: Option<u32>) -> Result<
    JobView,
    ErrorView,
> {
    if width is None && height is None {
        Err(invalid("At least one of --width or --height is required"@))
    } else {
        match output {
            Some(o) => Ok(JobView::ImageResize { input, output: o, width, height }),
            None => match derived_name(input, resize_suffix(width, height)) {
                Err(e) => Err(e),
                Ok(o) => Ok(JobView::ImageResize { input, output: o, width, height }),
            },
        }
    }
}

/// The input's stem with a suffix, then `.` and the input's extension.
pub fn derived_name_of(input: &str, suffix: &str) -> (r: Result<String, ForgeKitError>)
    ensures
        match derived_name(input@, suffix@) {
            Ok(n) => r matches Ok(s) && s@ == n,
            Err(e) => r matches Err(x) && x@ == e,
        },
{
    match file_stem_of(input) {
        None => Err(no_file_name_error(input)),
        Some(stem) => {
            let mut name = stem;
            push_str(&mut name, suffix);
            push_str(&mut name, ".");
            match extension_of(input) {
                Some(e) => push_str(&mut name, e.as_str()),
                None => {
                    proof {
                        assert(name@ + Seq::<char>::empty() =~= name@);
                    }
                },
            }
            Ok(name)
        },
    }
}

/// The job `image resize` asks for.
pub fn resize_job(input: &str, output: Option<&str>, width: Option<u32>, height: Option<u32>) -> (r: Result<
    JobSpec,
    ForgeKitError,
>)
    ensures
        job_result(r) == resize_request(input@, opt_str_view(output), width, height),
{
    if width.is_none() && height.is_none() {
        return Err(invalid_error(string_of("At least one of --width or --height is required")));
    }
    let out = match output {
        Some(o) => string_of(o),
        None => {
            let mut suffix = string_of("_");
            match (width, height) {
                (Some(w), Some(h)) => {
                    push_dec(&mut suffix, w as u64);
                    push_str(&mut suffix, "x");
                    push_dec(&mut suffix, h as u64);
                },
                (Some(w), None) => {
                    push_dec(&mut suffix, w as u64);
                    push_str(&mut suffix, "w");
                },
                (None, Some(h)) => {
                    push_dec(&mut suffix, h as u64);
                    push_str(&mut suffix, "h");
                },
                (None, None) => {},
            }
            match derived_name_of(input, suffix.as_str()) {
                Err(e) => {
                    return Err(e);
                },
                Ok(n) => n,
            }
        },
    };
    Ok(JobSpec::ImageResize { input: string_of(input), output: out, width, height })
}

/// The job `image strip` asks for: the output defaults to
/// `<stem>_stripped.<ext>`.
pub open spec fn strip_request(input: Seq<char>, output: Option<Seq<char>>) -> Result<JobView, ErrorView> {
    match output {
        Some(o) => Ok(JobView::ImageStrip { input, output: o }),
        None => match derived_name(input, "_stripped"@) {
            Err(e) => Err(e),
            Ok(o) => Ok(JobView::ImageStrip { input, output: o }),
        },
    }
}

/// The job `image strip` asks for.
pub fn strip_job(input: &str, output: Option<&str>) -> (r: Result<JobSpec, ForgeKitError>)
    ensures
        job_result(r) == strip_request(input@, opt_str_view(output)),
{
    let out = match output {
        Some(o) => string_of(o),
        None => match derived_name_of(input, "_stripped") {
            Err(e) => {
                return Err(e);
            },
            Ok(n) => n,
        },
    };
    Ok(JobSpec::ImageStrip { input: string_of(input), output: out })
}

/// Whether an extension, in any letter case, is a camera RAW format.
pub open spec fn is_raw_ext(e: Seq<char>) -> bool {
    eq_fold(e, "dng"@) || eq_fold(e, "cr2"@) || eq_fold(e, "cr3"@) || eq_fold(e, "nef"@) || eq_fold(
        e,
        "arw"@,
    ) || eq_fold(e, "orf"@) || eq_fold(e, "rw2"@) || eq_fold(e, "raf"@) || eq_fold(e, "pef"@)
        || eq_fold(e, "srw"@) || eq_fold(e, "raw"@)
}

/// The job `image compress` asks for: RAW inputs are refused; PNG gets
/// the strongest compression, other formats the quality; metadata is
/// always stripped.  Without an output the result is
/// `<stem>_compressed.<ext>` (`.png` for PNG input).
pub open spec fn compress_request(input: Seq<char>, output: Option<Seq<char>>, quality: u8) -> Result<JobView, ErrorView> {
    let ext = ext_or_empty(input);
    if quality > 100 {
        Err(invalid("Quality must be between 0 and 100"@))
    } else if is_raw_ext(ext) {
        Err(
            ErrorView::InvalidInput {
                path: input,
                reason: "RAW files cannot be compressed. Use 'image convert' to convert to JPEG/WebP first."@,
            },
        )
    } else {
        match output {
            Some(o) => {
                let f = match image_from_path(o) {
                    Some(f) => f,
                    None => ImageFormat::Jpeg,
                };
                Ok(
                    JobView::ImageConvert {
                        input,
                        output: o,
                        format: f,
                        quality: Some(quality),
                        compression: if f == ImageFormat::Png {
                            Some(9u8)
                        } else {
                            None
                        },
                        strip_metadata: true,
                    },
                )
            },
            None => match file_stem(input) {
                None => Err(no_file_name(input)),
                Some(stem) => if eq_fold(ext, "png"@) {
                    Ok(
                        JobView::ImageConvert {
                            input,
                            output: stem + "_compressed.png"@,
                            format: ImageFormat::Png,
                            quality: None,
                            compression: Some(9u8),
                            strip_metadata: true,
                        },
                    )
                } else {
                    Ok(
                        JobView::ImageConvert {
                            input,
                            output: stem + "_compressed."@ + ext,
                            format: match image_from_path(input) {
                                Some(f) => f,
                                None => ImageFormat::Jpeg,
                            },
                            quality: Some(quality),
                            compression: None,
                            strip_metadata: true,
                        },
                    )
                },
            },
        }
    }
}

/// Whether an extension is a camera RAW format.
fn is_raw_extension(e: &str) -> (b: bool)
    ensures
        b == is_raw_ext(e@),
{
    let c = to_chars(e);
    let s = c.as_slice();
    eq_fold_exec(s, "dng") || eq_fold_exec(s, "cr2") || eq_fold_exec(s, "cr3") || eq_fold_exec(s, "nef")
        || eq_fold_exec(s, "arw") || eq_fold_exec(s, "orf") || eq_fold_exec(s, "rw2") || eq_fold_exec(
        s,
        "raf",
    ) || eq_fold_exec(s, "pef") || eq_fold_exec(s, "srw") || eq_fold_exec(s, "raw")
}

/// The job `image compress` asks for.
pub fn compress_job(input: &str, output: Option<&str>, quality: u8) -> (r: Result<JobSpec, ForgeKitError>)
    ensures
        job_result(r) == compress_request(input@, opt_str_view(output), quality),
{
    if quality > 100 {
        return Err(invalid_error(string_of("Quality must be between 0 and 100")));
    }
    let ext = match extension_of(input) {
        Some(e) => e,
        None => String::new(),
    };
    if is_raw_extension(ext.as_str()) {
        return Err(
            ForgeKitError::InvalidInput {
                path: string_of(input),
                reason: string_of(
                    "RAW files cannot be compressed. Use 'image convert' to convert to JPEG/WebP first.",
                ),
            },
        );
    }
    match output {
        Some(o) => {
            let f = match ImageFormat::from_path(o) {
                Some(f) => f,
                None => ImageFormat::Jpeg,
            };
            let level = match f {
                ImageFormat::Png => Some(9u8),
                _ => None,
            };
            Ok(
                JobSpec::ImageConvert {
                    input: string_of(input),
                    output: string_of(o),
                    format: f,
                    quality: Some(quality),
                    compression: level,
                    strip_metadata: true,
                },
            )
        },
        None => {
            let stem = match file_stem_of(input) {
                None => {
                    return Err(no_file_name_error(input));
                },
                Some(s) => s,
            };
            let e = to_chars(ext.as_str());
            if eq_fold_exec(e.as_slice(), "png") {
                let mut name = stem;
                push_str(&mut name, "_compressed.png");
                Ok(
                    JobSpec::ImageConvert {
                        input: string_of(input),
                        output: name,
                        format: ImageFormat::Png,
                        quality: None,
                        compression: Some(9),
                        strip_metadata: true,
                    },
                )
            } else {
                let mut name = stem;
                push_str(&mut name, "_compressed.");
                push_str(&mut name, ext.as_str());
                let f = match ImageFormat::from_path(input) {
                    Some(f) => f,
                    None => ImageFormat::Jpeg,
                };
                Ok(
                    JobSpec::ImageConvert {
                        input: string_of(input),
                        output: name,
                        format: f,
                        quality: Some(quality),
                        compression: None,
                        strip_metadata: true,
                    },
                )
            }
        },
    }
}

} // verus!
