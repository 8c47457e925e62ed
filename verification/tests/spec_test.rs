use forgekit::audio::AudioFormat;
use forgekit::image::ImageFormat;
use forgekit::job::spec::{JobSpec, MetadataAction};
use forgekit::pages::PageSpec;

#[test]
fn test_pdf_compress_description_with_level() {
    let spec = JobSpec::PdfCompress {
        input: "input.pdf".to_string(),
        output: "output.pdf".to_string(),
        level: "high".to_string(),
    };
    assert_eq!(spec.description(), "Compress PDF with high compression");
}

#[test]
fn test_pdf_compress_description_standard() {
    let spec = JobSpec::PdfCompress {
        input: "input.pdf".to_string(),
        output: "output.pdf".to_string(),
        level: "standard".to_string(),
    };
    assert_eq!(spec.description(), "Compress PDF with standard compression");
}

#[test]
fn test_pdf_linearize_description() {
    let spec = JobSpec::PdfLinearize { input: "input.pdf".to_string(), output: "output.pdf".to_string() };
    assert_eq!(spec.description(), "Linearize PDF");
}

#[test]
fn test_pdf_reorder_description() {
    let spec = JobSpec::PdfReorder {
        input: "input.pdf".to_string(),
        output: "output.pdf".to_string(),
        page_order: vec![3, 1, 2],
    };
    assert_eq!(spec.description(), "Reorder PDF pages (3 pages)");
}

#[test]
fn test_pdf_extract_description() {
    let pages = vec![PageSpec::Range { start: 1, end: Some(5) }, PageSpec::Page(10)];
    let spec = JobSpec::PdfExtract {
        input: "input.pdf".to_string(),
        output: Some("output.pdf".to_string()),
        output_dir: None,
        pages,
        format: "pdf".to_string(),
    };
    assert_eq!(spec.description(), "Extract 2 page spec(s) from PDF as pdf");
}

#[test]
fn test_pdf_ocr_description() {
    let spec = JobSpec::PdfOcr {
        input: "scan.pdf".to_string(),
        output: "searchable.pdf".to_string(),
        language: "eng".to_string(),
        skip_text: true,
        deskew: false,
        force_ocr: false,
    };
    assert_eq!(spec.description(), "OCR PDF with language 'eng'");
}

#[test]
fn test_pdf_metadata_get_all_description() {
    let spec = JobSpec::PdfMetadata { input: "doc.pdf".to_string(), output: None, action: MetadataAction::GetAll };
    assert_eq!(spec.description(), "Read all PDF metadata");
}

#[test]
fn test_pdf_metadata_get_field_description() {
    let spec = JobSpec::PdfMetadata {
        input: "doc.pdf".to_string(),
        output: None,
        action: MetadataAction::Get("title".to_string()),
    };
    assert_eq!(spec.description(), "Read PDF metadata field 'title'");
}

#[test]
fn test_pdf_metadata_set_description() {
    let spec = JobSpec::PdfMetadata {
        input: "doc.pdf".to_string(),
        output: Some("updated.pdf".to_string()),
        action: MetadataAction::SetFields(vec![
            ("title".to_string(), "My Document".to_string()),
            ("author".to_string(), "John Doe".to_string()),
        ]),
    };
    assert_eq!(spec.description(), "Set 2 PDF metadata field(s)");
}

#[test]
fn test_image_convert_description() {
    let spec = JobSpec::ImageConvert {
        input: "photo.jpg".to_string(),
        output: "photo.webp".to_string(),
        format: ImageFormat::WebP,
        quality: Some(80),
        compression: None,
        strip_metadata: false,
    };
    assert_eq!(spec.description(), "Convert image to webp (quality 80)");
}

#[test]
fn test_image_convert_description_no_quality() {
    let spec = JobSpec::ImageConvert {
        input: "photo.jpg".to_string(),
        output: "photo.png".to_string(),
        format: ImageFormat::Png,
        quality: None,
        compression: Some(0),
        strip_metadata: true,
    };
    assert_eq!(spec.description(), "Convert image to png");
}

#[test]
fn test_image_resize_description() {
    let spec = JobSpec::ImageResize {
        input: "photo.jpg".to_string(),
        output: "thumb.jpg".to_string(),
        width: Some(800),
        height: Some(600),
    };
    assert_eq!(spec.description(), "Resize image to 800x600");
}

#[test]
fn test_image_resize_description_width_only() {
    let spec = JobSpec::ImageResize {
        input: "photo.jpg".to_string(),
        output: "thumb.jpg".to_string(),
        width: Some(800),
        height: None,
    };
    assert_eq!(spec.description(), "Resize image to width 800");
}

#[test]
fn test_image_strip_description() {
    let spec = JobSpec::ImageStrip { input: "photo.jpg".to_string(), output: "clean.jpg".to_string() };
    assert_eq!(spec.description(), "Strip image metadata");
}

#[test]
fn test_image_resize_description_height_only() {
    let spec = JobSpec::ImageResize {
        input: "photo.jpg".to_string(),
        output: "thumb.jpg".to_string(),
        width: None,
        height: Some(600),
    };
    assert_eq!(spec.description(), "Resize image to height 600");
}

#[test]
fn test_image_compress_jpeg_description() {
    let spec = JobSpec::ImageConvert {
        input: "photo.jpg".to_string(),
        output: "photo_compressed.jpg".to_string(),
        format: ImageFormat::Jpeg,
        quality: Some(80),
        compression: None,
        strip_metadata: true,
    };
    assert_eq!(spec.description(), "Convert image to jpg (quality 80)");
}

#[test]
fn test_image_compress_png_description() {
    let spec = JobSpec::ImageConvert {
        input: "image.png".to_string(),
        output: "image_compressed.png".to_string(),
        format: ImageFormat::Png,
        quality: None,
        compression: Some(9),
        strip_metadata: true,
    };
    assert_eq!(spec.description(), "Convert image to png");
}

#[test]
fn test_audio_convert_description_with_bitrate() {
    let spec = JobSpec::AudioConvert {
        input: "audio.wav".to_string(),
        output: "audio.mp3".to_string(),
        format: AudioFormat::Mp3,
        bitrate: Some(192),
    };
    assert_eq!(spec.description(), "Convert audio to mp3 (192kbps)");
}

#[test]
fn test_audio_convert_description_no_bitrate() {
    let spec = JobSpec::AudioConvert {
        input: "audio.wav".to_string(),
        output: "audio.flac".to_string(),
        format: AudioFormat::Flac,
        bitrate: None,
    };
    assert_eq!(spec.description(), "Convert audio to flac");
}

#[test]
fn test_audio_extract_description_with_bitrate() {
    let spec = JobSpec::AudioExtract {
        input: "video.mp4".to_string(),
        output: "audio.mp3".to_string(),
        format: AudioFormat::Mp3,
        bitrate: Some(192),
    };
    assert_eq!(spec.description(), "Extract audio as mp3 (192kbps)");
}

#[test]
fn test_audio_extract_description_no_bitrate() {
    let spec = JobSpec::AudioExtract {
        input: "video.mp4".to_string(),
        output: "audio.flac".to_string(),
        format: AudioFormat::Flac,
        bitrate: None,
    };
    assert_eq!(spec.description(), "Extract audio as flac");
}

#[test]
fn test_audio_join_description() {
    let spec = JobSpec::AudioJoin {
        inputs: vec!["part1.mp3".to_string(), "part2.mp3".to_string(), "part3.mp3".to_string()],
        output: "joined.mp3".to_string(),
    };
    assert_eq!(spec.description(), "Join 3 audio files");
}

#[test]
fn test_audio_mono_description() {
    let spec = JobSpec::AudioMono { input: "stereo.wav".to_string(), output: "mono.wav".to_string() };
    assert_eq!(spec.description(), "Convert audio to mono");
}

#[test]
fn merge_and_split_descriptions() {
    let spec = JobSpec::PdfMerge {
        inputs: vec!["a.pdf".to_string(), "b.pdf".to_string()],
        output: "m.pdf".to_string(),
        linearize: true,
    };
    assert_eq!(spec.description(), "Merge 2 PDFs (linearized)");
    let spec = JobSpec::PdfSplit { input: "a.pdf".to_string(), output_dir: "d".to_string(), pages: vec![PageSpec::Odd] };
    assert_eq!(spec.description(), "Split PDF into 1 page spec(s)");
}
