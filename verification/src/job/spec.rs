//! Job specifications: plain data saying what to do, with a human-readable
//! description.
use vstd::prelude::*;
use crate::audio::{AudioFormat, audio_ext};
use crate::image::{ImageFormat, image_ext};
use crate::pages::PageSpec;
use crate::text::{dec, push_dec, push_str};

verus! {

broadcast use vstd::string::group_string_axioms;

/// Action to perform on PDF metadata.
#[derive(Debug, Clone)]
pub enum MetadataAction {
    /// Read all metadata as JSON.
    GetAll,
    /// Read one field.
    Get(String),
    /// Set fields, as (field name, value) pairs.
    SetFields(Vec<(String, String)>),
}

/// A job: which operation to perform, on which files, with which options.
///
/// Paths are carried as text.  Audio trimming, loudness normalization and
/// volume changes carry fractional numbers and are handled by the program
/// itself.
#[derive(Debug, Clone)]
pub enum JobSpec {
    /// Merge PDFs into one file, optionally linearized for fast web view.
    PdfMerge { inputs: Vec<String>, output: String, linearize: bool },
    /// Extract the pages selected by `pages` into `output_dir`.
    PdfSplit { input: String, output_dir: String, pages: Vec<PageSpec> },
    /// Compress a PDF at a level (`light`, `standard`, `high`).
    PdfCompress { input: String, output: String, level: String },
    /// Linearize a PDF for fast web viewing.
    PdfLinearize { input: String, output: String },
    /// Reorder pages (1-indexed page numbers, in the new order).
    PdfReorder { input: String, output: String, page_order: Vec<u32> },
    /// Extract pages, as one PDF (`format` "pdf", into `output`) or as one
    /// image per page ("png", "jpeg", "jpg", into `output_dir`).
    PdfExtract {
        input: String,
        output: Option<String>,
        output_dir: Option<String>,
        pages: Vec<PageSpec>,
        format: String,
    },
    /// Add an OCR text layer.
    PdfOcr {
        input: String,
        output: String,
        language: String,
        skip_text: bool,
        deskew: bool,
        force_ocr: bool,
    },
    /// Read or write PDF metadata; `output` is needed to write.
    PdfMetadata { input: String, output: Option<String>, action: MetadataAction },
    /// Convert an image, with optional quality (0-100) and PNG compression
    /// level (0-9), optionally stripping metadata.
    ImageConvert {
        input: String,
        output: String,
        format: ImageFormat,
        quality: Option<u8>,
        compression: Option<u8>,
        strip_metadata: bool,
    },
    /// Resize an image to fit the given width and/or height.
    ImageResize { input: String, output: String, width: Option<u32>, height: Option<u32> },
    /// Strip metadata from an image.
    ImageStrip { input: String, output: String },
    /// Convert audio, with a bitrate in kbps where the format takes one.
    AudioConvert { input: String, output: String, format: AudioFormat, bitrate: Option<u32> },
    /// Extract the audio track of a video.
    AudioExtract { input: String, output: String, format: AudioFormat, bitrate: Option<u32> },
    /// Join audio files into one.
    AudioJoin { inputs: Vec<String>, output: String },
    /// Downmix audio to mono.
    AudioMono { input: String, output: String },
}

/// A metadata action as plain values.
pub enum ActionView {
    GetAll,
    Get(Seq<char>),
    SetFields(Seq<(Seq<char>, Seq<char>)>),
}

impl View for MetadataAction {
    type V = ActionView;

    open spec fn view(&self) -> ActionView {
        match self {
            MetadataAction::GetAll => ActionView::GetAll,
            MetadataAction::Get(f) => ActionView::Get(f@),
            MetadataAction::SetFields(fields) => ActionView::SetFields(
                fields@.map_values(|p: (String, String)| (p.0@, p.1@)),
            ),
        }
    }
}

/// A job as plain values: each path and text by its characters.
pub enum JobView {
    PdfMerge { inputs: Seq<Seq<char>>, output: Seq<char>, linearize: bool },
    PdfSplit { input: Seq<char>, output_dir: Seq<char>, pages: Seq<PageSpec> },
    PdfCompress { input: Seq<char>, output: Seq<char>, level: Seq<char> },
    PdfLinearize { input: Seq<char>, output: Seq<char> },
    PdfReorder { input: Seq<char>, output: Seq<char>, page_order: Seq<u32> },
    PdfExtract {
        input: Seq<char>,
        output: Option<Seq<char>>,
        output_dir: Option<Seq<char>>,
        pages: Seq<PageSpec>,
        format: Seq<char>,
    },
    PdfOcr {
        input: Seq<char>,
        output: Seq<char>,
        language: Seq<char>,
        skip_text: bool,
        deskew: bool,
        force_ocr: bool,
    },
    PdfMetadata { input: Seq<char>, output: Option<Seq<char>>, action: ActionView },
    ImageConvert {
        input: Seq<char>,
        output: Seq<char>,
        format: ImageFormat,
        quality: Option<u8>,
        compression: Option<u8>,
        strip_metadata: bool,
    },
    ImageResize { input: Seq<char>, output: Seq<char>, width: Option<u32>, height: Option<u32> },
    ImageStrip { input: Seq<char>, output: Seq<char> },
    AudioConvert { input: Seq<char>, output: Seq<char>, format: AudioFormat, bitrate: Option<u32> },
    AudioExtract { input: Seq<char>, output: Seq<char>, format: AudioFormat, bitrate: Option<u32> },
    AudioJoin { inputs: Seq<Seq<char>>, output: Seq<char> },
    AudioMono { input: Seq<char>, output: Seq<char> },
}

/// An optional text by its characters.
pub open spec fn opt_view(o: Option<String>) -> Option<Seq<char>> {
    match o {
        Some(s) => Some(s@),
        None => None,
    }
}

impl View for JobSpec {
    type V = JobView;

    open spec fn view(&self) -> JobView {
        match self {
            JobSpec::PdfMerge { inputs, output, linearize } => JobView::PdfMerge {
                inputs: inputs@.map_values(|s: String| s@),
                output: output@,
                linearize: *linearize,
            },
            JobSpec::PdfSplit { input, output_dir, pages } => JobView::PdfSplit {
                input: input@,
                output_dir: output_dir@,
                pages: pages@,
            },
            JobSpec::PdfCompress { input, output, level } => JobView::PdfCompress {
                input: input@,
                output: output@,
                level: level@,
            },
            JobSpec::PdfLinearize { input, output } => JobView::PdfLinearize { input: input@, output: output@ },
            JobSpec::PdfReorder { input, output, page_order } => JobView::PdfReorder {
                input: input@,
                output: output@,
                page_order: page_order@,
            },
            JobSpec::PdfExtract { input, output, output_dir, pages, format } => JobView::PdfExtract {
                input: input@,
                output: opt_view(*output),
                output_dir: opt_view(*output_dir),
                pages: pages@,
                format: format@,
            },
            JobSpec::PdfOcr { input, output, language, skip_text, deskew, force_ocr } => JobView::PdfOcr {
                input: input@,
                output: output@,
                language: language@,
                skip_text: *skip_text,
                deskew: *deskew,
                force_ocr: *force_ocr,
            },
            JobSpec::PdfMetadata { input, output, action } => JobView::PdfMetadata {
                input: input@,
                output: opt_view(*output),
                action: action@,
            },
            JobSpec::ImageConvert { input, output, format, quality, compression, strip_metadata } => {
                JobView::ImageConvert {
                    input: input@,
                    output: output@,
                    format: *format,
                    quality: *quality,
                    compression: *compression,
                    strip_metadata: *strip_metadata,
                }
            },
            JobSpec::ImageResize { input, output, width, height } => JobView::ImageResize {
                input: input@,
                output: output@,
                width: *width,
                height: *height,
            },
            JobSpec::ImageStrip { input, output } => JobView::ImageStrip { input: input@, output: output@ },
            JobSpec::AudioConvert { input, output, format, bitrate } => JobView::AudioConvert {
                input: input@,
                output: output@,
                format: *format,
                bitrate: *bitrate,
            },
            JobSpec::AudioExtract { input, output, format, bitrate } => JobView::AudioExtract {
                input: input@,
                output: output@,
                format: *format,
                bitrate: *bitrate,
            },
            JobSpec::AudioJoin { inputs, output } => JobView::AudioJoin {
                inputs: inputs@.map_values(|s: String| s@),
                output: output@,
            },
            JobSpec::AudioMono { input, output } => JobView::AudioMono { input: input@, output: output@ },
        }
    }
}

/// A job or the error that refused it, as plain values.
pub open spec fn job_result(r: Result<JobSpec, crate::error::ForgeKitError>) -> Result<JobView, crate::error::ErrorView> {
    match r {
        Ok(j) => Ok(j@),
        Err(e) => Err(e@),
    }
}

/// The description of a metadata action.
pub open spec fn metadata_description(action: MetadataAction) -> Seq<char> {
    match action {
        MetadataAction::GetAll => "Read all PDF metadata"@,
        MetadataAction::Get(field) => "Read PDF metadata field '"@ + field@ + "'"@,
        MetadataAction::SetFields(fields) => "Set "@ + dec(fields@.len()) + " PDF metadata field(s)"@,
    }
}

/// " (<n>kbps)" for a bitrate, nothing without one.
pub open spec fn kbps_suffix(bitrate: Option<u32>) -> Seq<char> {
    match bitrate {
        Some(b) => " ("@ + dec(b as nat) + "kbps)"@,
        None => ""@,
    }
}

/// The human-readable description of a job.
pub open spec fn description_of(job: JobSpec) -> Seq<char> {
    match job {
        JobSpec::PdfMerge { inputs, linearize, .. } => "Merge "@ + dec(inputs@.len()) + " PDFs"@ + (
        if linearize {
            " (linearized)"@
        } else {
            ""@
        }),
        JobSpec::PdfSplit { pages, .. } => "Split PDF into "@ + dec(pages@.len()) + " page spec(s)"@,
        JobSpec::PdfCompress { level, .. } => "Compress PDF with "@ + level@ + " compression"@,
        JobSpec::PdfLinearize { .. } => "Linearize PDF"@,
        JobSpec::PdfReorder { page_order, .. } => "Reorder PDF pages ("@ + dec(page_order@.len())
            + " pages)"@,
        JobSpec::PdfExtract { pages, format, .. } => "Extract "@ + dec(pages@.len())
            + " page spec(s) from PDF as "@ + format@,
        JobSpec::PdfOcr { language, .. } => "OCR PDF with language '"@ + language@ + "'"@,
        JobSpec::PdfMetadata { action, .. } => metadata_description(action),
        JobSpec::ImageConvert { format, quality, .. } => match quality {
            Some(q) => "Convert image to "@ + image_ext(format) + " (quality "@ + dec(q as nat) + ")"@,
            None => "Convert image to "@ + image_ext(format),
        },
        JobSpec::ImageResize { width, height, .. } => match (width, height) {
            (Some(w), Some(h)) => "Resize image to "@ + dec(w as nat) + "x"@ + dec(h as nat),
            (Some(w), None) => "Resize image to width "@ + dec(w as nat),
            (None, Some(h)) => "Resize image to height "@ + dec(h as nat),
            (None, None) => "Resize image"@,
        },
        JobSpec::ImageStrip { .. } => "Strip image metadata"@,
        JobSpec::AudioConvert { format, bitrate, .. } => "Convert audio to "@ + audio_ext(format)
            + kbps_suffix(bitrate),
        JobSpec::AudioExtract { format, bitrate, .. } => "Extract audio as "@ + audio_ext(format)
            + kbps_suffix(bitrate),
        JobSpec::AudioJoin { inputs, .. } => "Join "@ + dec(inputs@.len()) + " audio files"@,
        JobSpec::AudioMono { .. } => "Convert audio to mono"@,
    }
}

/// Appends " (<n>kbps)" when there is a bitrate.
fn push_kbps(s: &mut String, bitrate: Option<u32>)
    ensures
        final(s)@ == old(s)@ + kbps_suffix(bitrate),
{
    match bitrate {
        Some(b) => {
            push_str(s, " (");
            push_dec(s, b as u64);
            push_str(s, "kbps)");
        },
        None => {
            proof { reveal_strlit(""); }
            assert(old(s)@ + ""@ =~= old(s)@);
        },
    }
}

impl JobSpec {
    /// A human-readable description of what the job does.
    pub fn description(&self) -> (r: String)
        ensures
            r@ == description_of(*self),
    {
        let mut s = String::new();
        match self {
            JobSpec::PdfMerge { inputs, linearize, .. } => {
                push_str(&mut s, "Merge ");
                push_dec(&mut s, inputs.len() as u64);
                push_str(&mut s, " PDFs");
                if *linearize {
                    push_str(&mut s, " (linearized)");
                } else {
                    proof { reveal_strlit(""); }
                    assert(s@ + ""@ =~= s@);
                }
            },
            JobSpec::PdfSplit { pages, .. } => {
                push_str(&mut s, "Split PDF into ");
                push_dec(&mut s, pages.len() as u64);
                push_str(&mut s, " page spec(s)");
            },
            JobSpec::PdfCompress { level, .. } => {
                push_str(&mut s, "Compress PDF with ");
                push_str(&mut s, level.as_str());
                push_str(&mut s, " compression");
            },
            JobSpec::PdfLinearize { .. } => {
                push_str(&mut s, "Linearize PDF");
            },
            JobSpec::PdfReorder { page_order, .. } => {
                push_str(&mut s, "Reorder PDF pages (");
                push_dec(&mut s, page_order.len() as u64);
                push_str(&mut s, " pages)");
            },
            JobSpec::PdfExtract { pages, format, .. } => {
                push_str(&mut s, "Extract ");
                push_dec(&mut s, pages.len() as u64);
                push_str(&mut s, " page spec(s) from PDF as ");
                push_str(&mut s, format.as_str());
            },
            JobSpec::PdfOcr { language, .. } => {
                push_str(&mut s, "OCR PDF with language '");
                push_str(&mut s, language.as_str());
                push_str(&mut s, "'");
            },
            JobSpec::PdfMetadata { action, .. } => match action {
                MetadataAction::GetAll => {
                    push_str(&mut s, "Read all PDF metadata");
                },
                MetadataAction::Get(field) => {
                    push_str(&mut s, "Read PDF metadata field '");
                    push_str(&mut s, field.as_str());
                    push_str(&mut s, "'");
                },
                MetadataAction::SetFields(fields) => {
                    push_str(&mut s, "Set ");
                    push_dec(&mut s, fields.len() as u64);
                    push_str(&mut s, " PDF metadata field(s)");
                },
            },
            JobSpec::ImageConvert { format, quality, .. } => {
                push_str(&mut s, "Convert image to ");
                push_str(&mut s, format.extension());
                match quality {
                    Some(q) => {
                        push_str(&mut s, " (quality ");
                        push_dec(&mut s, *q as u64);
                        push_str(&mut s, ")");
                    },
                    None => {},
                }
            },
            JobSpec::ImageResize { width, height, .. } => match (width, height) {
                (Some(w), Some(h)) => {
                    push_str(&mut s, "Resize image to ");
                    push_dec(&mut s, *w as u64);
                    push_str(&mut s, "x");
                    push_dec(&mut s, *h as u64);
                },
                (Some(w), None) => {
                    push_str(&mut s, "Resize image to width ");
                    push_dec(&mut s, *w as u64);
                },
                (None, Some(h)) => {
                    push_str(&mut s, "Resize image to height ");
                    push_dec(&mut s, *h as u64);
                },
                (None, None) => {
                    push_str(&mut s, "Resize image");
                },
            },
            JobSpec::ImageStrip { .. } => {
                push_str(&mut s, "Strip image metadata");
            },
            JobSpec::AudioConvert { format, bitrate, .. } => {
                push_str(&mut s, "Convert audio to ");
                push_str(&mut s, format.extension());
                push_kbps(&mut s, *bitrate);
            },
            JobSpec::AudioExtract { format, bitrate, .. } => {
                push_str(&mut s, "Extract audio as ");
                push_str(&mut s, format.extension());
                push_kbps(&mut s, *bitrate);
            },
            JobSpec::AudioJoin { inputs, .. } => {
                push_str(&mut s, "Join ");
                push_dec(&mut s, inputs.len() as u64);
                push_str(&mut s, " audio files");
            },
            JobSpec::AudioMono { .. } => {
                push_str(&mut s, "Convert audio to mono");
            },
        }
        s
    }
}

} // verus!
