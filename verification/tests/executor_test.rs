use forgekit::audio::AudioFormat;
use forgekit::error::ForgeKitError;
use forgekit::image::ImageFormat;
use forgekit::job::executor::{
    execute_audio_convert, execute_audio_extract, execute_audio_join, execute_audio_mono,
    execute_image_convert, execute_image_resize, execute_image_strip, execute_pdf_extract,
    execute_pdf_linearize, execute_pdf_merge, execute_pdf_metadata, execute_pdf_ocr,
    execute_pdf_reorder, execute_pdf_split, execute_video_transcode, field_report, Facts, Finish,
    Outcome, Step, command_result_of, Command, StartFailure,
};
use forgekit::job::spec::MetadataAction;
use forgekit::pages::PageSpec;
use forgekit::presets::PresetsConfig;
use forgekit::tools::ToolInfo;

fn not_looked_up() -> Result<ToolInfo, ForgeKitError> {
    Err(ForgeKitError::Other("not looked up".to_string()))
}

fn found(path: &str) -> Result<ToolInfo, ForgeKitError> {
    Ok(ToolInfo { path: path.to_string(), version: "1.0".to_string(), available: true })
}

fn facts() -> Facts {
    Facts {
        existing: vec![],
        qpdf: not_looked_up(),
        gs: not_looked_up(),
        ocrmypdf: not_looked_up(),
        exiftool: not_looked_up(),
        vips: not_looked_up(),
        ffmpeg: not_looked_up(),
        page_count: Err(ForgeKitError::Other("not counted".to_string())),
        job_id: "job-1".to_string(),
        temp_dir: "/tmp".to_string(),
        unique_id: "u1".to_string(),
        process_id: 42,
        presets: PresetsConfig { version: 1, presets: vec![] },
    }
}

fn message(o: Outcome) -> String {
    match o.end {
        Ok(Finish::Message(m)) => m,
        Ok(_) => panic!("the job ends with a command's output"),
        Err(e) => panic!("the job failed: {:?}", e),
    }
}

fn pages(spec: &str) -> Vec<PageSpec> {
    PageSpec::parse(spec).unwrap()
}

fn commands(o: &Outcome) -> Vec<(String, String, Vec<String>)> {
    o.steps
        .iter()
        .filter_map(|s| match s {
            Step::Run(c) => Some((c.tool.clone(), c.program.clone(), c.args.clone())),
            _ => None,
        })
        .collect()
}

#[test]
fn test_execute_pdf_linearize_plan() {
    let result = message(execute_pdf_linearize("input.pdf", "output.pdf", true, &facts()));
    assert!(result.contains("qpdf"));
    assert!(result.contains("--linearize"));
    assert!(result.contains("input.pdf"));
    assert!(result.contains("output.pdf"));
}

#[test]
fn test_execute_pdf_reorder_plan() {
    let order_spec = pages("1,3,2");
    let order: Vec<u32> = order_spec
        .iter()
        .filter_map(|s| match s {
            PageSpec::Page(n) => Some(*n as u32),
            _ => None,
        })
        .collect();
    let result = message(execute_pdf_reorder("input.pdf", "output.pdf", &order, true, &facts()));
    assert!(result.contains("qpdf"));
    assert!(result.contains("--pages"));
    assert!(result.contains("."));
    assert!(result.contains("1,3,2"));
}

#[test]
fn test_execute_pdf_extract_plan() {
    let result = message(execute_pdf_extract(
        "input.pdf",
        Some("output.pdf"),
        None,
        &pages("1-3"),
        "pdf",
        true,
        &facts(),
    ));
    assert!(result.contains("qpdf"));
    assert!(result.contains("--pages"));
    assert!(result.contains("."));
    assert!(result.contains("1-3"));
}

#[test]
fn test_execute_pdf_extract_images_ambiguous() {
    let result = execute_pdf_extract("input.pdf", None, Some("out_dir"), &pages("1"), "images", false, &facts());
    match result.end {
        Err(ForgeKitError::InvalidInput { reason, .. }) => {
            assert!(reason.to_lowercase().contains("ambiguous"));
        }
        _ => panic!("Expected InvalidInput error for ambiguous format"),
    }
}

#[test]
fn test_execute_pdf_extract_png_plan() {
    let result = message(execute_pdf_extract(
        "input.pdf",
        None,
        Some("out_dir"),
        &pages("1-3"),
        "png",
        true,
        &facts(),
    ));
    assert!(result.contains("qpdf"));
    assert!(result.contains("gs"));
    assert!(result.contains("png16m"));
    assert!(result.contains("page_%d.png"));
    assert!(result.contains("rm"));
}

#[test]
fn test_execute_pdf_extract_jpeg_plan() {
    let result = message(execute_pdf_extract(
        "input.pdf",
        None,
        Some("out_dir"),
        &pages("odd"),
        "jpeg",
        true,
        &facts(),
    ));
    assert!(result.contains("jpeg"));
    assert!(result.contains("page_%d.jpg"));
}

#[test]
fn test_execute_pdf_ocr_plan() {
    let result = message(execute_pdf_ocr("scan.pdf", "searchable.pdf", "eng", true, false, false, true, &facts()));
    assert!(result.contains("ocrmypdf"));
    assert!(result.contains("-l eng"));
    assert!(result.contains("--skip-text"));
    assert!(result.contains("scan.pdf"));
    assert!(result.contains("searchable.pdf"));
}

#[test]
fn test_execute_pdf_ocr_plan_with_deskew() {
    let result = message(execute_pdf_ocr("tilted.pdf", "fixed.pdf", "deu", false, true, false, true, &facts()));
    assert!(result.contains("ocrmypdf"));
    assert!(result.contains("-l deu"));
    assert!(result.contains("--deskew"));
    assert!(!result.contains("--skip-text"));
}

#[test]
fn test_execute_pdf_ocr_plan_force() {
    let result = message(execute_pdf_ocr("existing_text.pdf", "reocr.pdf", "eng", false, false, true, true, &facts()));
    assert!(result.contains("ocrmypdf"));
    assert!(result.contains("--force-ocr"));
}

#[test]
fn test_execute_pdf_metadata_get_all_plan() {
    let result = message(execute_pdf_metadata("doc.pdf", None, &MetadataAction::GetAll, true, &facts()));
    assert!(result.contains("exiftool"));
    assert!(result.contains("-json"));
    assert!(result.contains("-PDF:all"));
    assert!(result.contains("-XMP:all"));
    assert!(result.contains("doc.pdf"));
}

#[test]
fn test_execute_pdf_metadata_get_field_plan() {
    let action = MetadataAction::Get("title".to_string());
    let result = message(execute_pdf_metadata("doc.pdf", None, &action, true, &facts()));
    assert!(result.contains("exiftool"));
    assert!(result.contains("-s -s -s"));
    assert!(result.contains("-title"));
    assert!(result.contains("doc.pdf"));
}

#[test]
fn test_execute_pdf_metadata_set_plan() {
    let fields = vec![
        ("title".to_string(), "My Document".to_string()),
        ("author".to_string(), "John Doe".to_string()),
    ];
    let action = MetadataAction::SetFields(fields);
    let result = message(execute_pdf_metadata("doc.pdf", Some("updated.pdf"), &action, true, &facts()));
    assert!(result.contains("exiftool"));
    assert!(result.contains("-title=My Document"));
    assert!(result.contains("-author=John Doe"));
    assert!(result.contains("-o"));
    assert!(result.contains("updated.pdf"));
}

#[test]
fn test_execute_pdf_metadata_set_in_place_plan() {
    let fields = vec![("title".to_string(), "Updated Title".to_string())];
    let action = MetadataAction::SetFields(fields);
    let result = message(execute_pdf_metadata("doc.pdf", Some("doc.pdf"), &action, true, &facts()));
    assert!(result.contains("exiftool"));
    assert!(result.contains("-overwrite_original"));
    assert!(!result.contains(" -o "));
}

#[test]
fn test_execute_pdf_metadata_set_requires_output() {
    let fields = vec![("title".to_string(), "My Document".to_string())];
    let action = MetadataAction::SetFields(fields);
    let result = execute_pdf_metadata("doc.pdf", None, &action, false, &facts());
    match result.end {
        Err(ForgeKitError::InvalidInput { reason, .. }) => {
            assert!(reason.contains("Output file path required"));
        }
        _ => panic!("Expected InvalidInput error"),
    }
}

#[test]
fn test_execute_image_convert_plan() {
    let result = message(execute_image_convert(
        "photo.jpg",
        "photo.webp",
        &ImageFormat::WebP,
        Some(80),
        None,
        true,
        true,
        &facts(),
    ));
    assert!(result.contains("vips copy"));
    assert!(result.contains("photo.jpg"));
    assert!(result.contains("Q=80"));
    assert!(result.contains("strip"));
}

#[test]
fn test_execute_image_convert_plan_no_strip() {
    let result = message(execute_image_convert(
        "photo.jpg",
        "photo.png",
        &ImageFormat::Png,
        None,
        Some(0),
        false,
        true,
        &facts(),
    ));
    assert!(result.contains("vips copy"));
    assert!(result.contains("photo.png"));
    assert!(!result.contains("Q="));
    assert!(result.contains("compression=0"));
    assert!(!result.contains("strip"));
}

#[test]
fn test_execute_image_resize_plan() {
    let result = message(execute_image_resize("photo.jpg", "thumb.jpg", Some(800), Some(600), true, &facts()));
    assert!(result.contains("vipsthumbnail"));
    assert!(result.contains("-s 800x600"));
}

#[test]
fn test_execute_image_resize_plan_width_only() {
    let result = message(execute_image_resize("photo.jpg", "thumb.jpg", Some(800), None, true, &facts()));
    assert!(result.contains("vipsthumbnail"));
    assert!(result.contains("-s 800x"));
}

#[test]
fn test_execute_image_resize_plan_height_only() {
    let result = message(execute_image_resize("photo.jpg", "thumb.jpg", None, Some(600), true, &facts()));
    assert!(result.contains("vipsthumbnail"));
    assert!(result.contains("-s x600"));
}

#[test]
fn test_execute_image_resize_requires_dimensions() {
    let result = execute_image_resize("photo.jpg", "thumb.jpg", None, None, true, &facts());
    match result.end {
        Err(ForgeKitError::InvalidInput { reason, .. }) => {
            assert!(reason.contains("Width or height required"));
        }
        _ => panic!("Expected InvalidInput error"),
    }
}

#[test]
fn test_execute_image_strip_plan() {
    let result = message(execute_image_strip("photo.jpg", "clean.jpg", true, &facts()));
    assert!(result.contains("vips copy"));
    assert!(result.contains("photo.jpg"));
    assert!(result.contains("[strip]"));
}

#[test]
fn test_execute_image_compress_jpeg_plan() {
    let result = message(execute_image_convert(
        "photo.jpg",
        "photo_compressed.jpg",
        &ImageFormat::Jpeg,
        Some(80),
        None,
        true,
        true,
        &facts(),
    ));
    assert!(result.contains("vips copy"));
    assert!(result.contains("photo.jpg"));
    assert!(result.contains("Q=80"));
    assert!(result.contains("strip"));
}

#[test]
fn test_execute_image_compress_png_plan() {
    let result = message(execute_image_convert(
        "image.png",
        "image_compressed.png",
        &ImageFormat::Png,
        None,
        Some(9),
        true,
        true,
        &facts(),
    ));
    assert!(result.contains("vips copy"));
    assert!(result.contains("image.png"));
    assert!(result.contains("compression=9"));
    assert!(result.contains("strip"));
}

#[test]
fn test_execute_image_compress_webp_plan() {
    let result = message(execute_image_convert(
        "photo.webp",
        "photo_compressed.webp",
        &ImageFormat::WebP,
        Some(60),
        None,
        true,
        true,
        &facts(),
    ));
    assert!(result.contains("vips copy"));
    assert!(result.contains("photo.webp"));
    assert!(result.contains("Q=60"));
    assert!(result.contains("strip"));
}

#[test]
fn test_execute_audio_convert_mp3_plan() {
    let result = message(execute_audio_convert("audio.wav", "audio.mp3", &AudioFormat::Mp3, Some(192), true, &facts()));
    assert!(result.contains("ffmpeg"));
    assert!(result.contains("-i audio.wav"));
    assert!(result.contains("-c:a libmp3lame"));
    assert!(result.contains("-b:a 192k"));
    assert!(result.contains("audio.mp3"));
}

#[test]
fn test_execute_audio_convert_opus_plan() {
    let result = message(execute_audio_convert("audio.wav", "audio.opus", &AudioFormat::Opus, Some(128), true, &facts()));
    assert!(result.contains("ffmpeg"));
    assert!(result.contains("-c:a libopus"));
    assert!(result.contains("-b:a 128k"));
    assert!(result.contains("-f opus"));
}

#[test]
fn test_execute_audio_convert_flac_no_bitrate() {
    let result = message(execute_audio_convert("audio.wav", "audio.flac", &AudioFormat::Flac, Some(320), true, &facts()));
    assert!(result.contains("-c:a flac"));
    assert!(!result.contains("-b:a"));
}

#[test]
fn test_execute_audio_convert_aac_plan() {
    let result = message(execute_audio_convert("audio.wav", "audio.m4a", &AudioFormat::M4a, Some(256), true, &facts()));
    assert!(result.contains("ffmpeg"));
    assert!(result.contains("-c:a aac"));
    assert!(result.contains("-b:a 256k"));
}

#[test]
fn test_execute_audio_extract_mp3_plan() {
    let result = message(execute_audio_extract("video.mp4", "audio.mp3", &AudioFormat::Mp3, Some(192), true, &facts()));
    assert!(result.contains("ffmpeg"));
    assert!(result.contains("-i video.mp4"));
    assert!(result.contains("-vn"));
    assert!(result.contains("-c:a libmp3lame"));
    assert!(result.contains("-b:a 192k"));
    assert!(result.contains("audio.mp3"));
}

#[test]
fn test_execute_audio_extract_opus_plan() {
    let result = message(execute_audio_extract("video.mkv", "audio.opus", &AudioFormat::Opus, Some(128), true, &facts()));
    assert!(result.contains("ffmpeg"));
    assert!(result.contains("-vn"));
    assert!(result.contains("-c:a libopus"));
    assert!(result.contains("-b:a 128k"));
    assert!(result.contains("-f opus"));
}

#[test]
fn test_execute_audio_extract_flac_no_bitrate() {
    let result = message(execute_audio_extract("video.mov", "audio.flac", &AudioFormat::Flac, Some(320), true, &facts()));
    assert!(result.contains("-vn"));
    assert!(result.contains("-c:a flac"));
    assert!(!result.contains("-b:a"));
}

#[test]
fn test_execute_audio_join_plan() {
    let inputs = vec!["part1.mp3".to_string(), "part2.mp3".to_string(), "part3.mp3".to_string()];
    let result = message(execute_audio_join(&inputs, "joined.mp3", true, &facts()));
    assert!(result.contains("ffmpeg"));
    assert!(result.contains("-f concat"));
    assert!(result.contains("-c copy"));
    assert!(result.contains("part1.mp3"));
    assert!(result.contains("part2.mp3"));
    assert!(result.contains("part3.mp3"));
}

#[test]
fn test_execute_audio_mono_plan() {
    let result = message(execute_audio_mono("stereo.wav", "mono.wav", true, &facts()));
    assert!(result.contains("ffmpeg"));
    assert!(result.contains("-ac 1"));
}

#[test]
fn test_execute_video_transcode_plan() {
    let result = message(execute_video_transcode("video.mp4", "output.mp4", 23, "medium", None, true, true, &facts()));
    assert!(result.contains("ffmpeg"));
    assert!(result.contains("-i video.mp4"));
    assert!(result.contains("-c:v libx264"));
    assert!(result.contains("-crf 23"));
    assert!(result.contains("-preset medium"));
    assert!(result.contains("-c:a copy"));
}

#[test]
fn test_execute_video_transcode_with_scale_plan() {
    let result = message(execute_video_transcode(
        "video.mp4",
        "output.mp4",
        23,
        "fast",
        Some((1920, 1080)),
        true,
        true,
        &facts(),
    ));
    assert!(result.contains("-vf scale=1920:1080"));
}

#[test]
fn test_execute_video_transcode_width_only_plan() {
    let result = message(execute_video_transcode(
        "video.mp4",
        "output.mp4",
        20,
        "slow",
        Some((1280, -1)),
        false,
        true,
        &facts(),
    ));
    assert!(result.contains("-vf scale=1280:-2"));
    assert!(result.contains("-c:a aac"));
    assert!(result.contains("-b:a 128k"));
}

#[test]
fn test_execute_video_transcode_reencode_audio_plan() {
    let result = message(execute_video_transcode("video.mkv", "output.mp4", 18, "fast", None, false, true, &facts()));
    assert!(result.contains("-c:v libx264"));
    assert!(result.contains("-crf 18"));
    assert!(result.contains("-c:a aac"));
    assert!(result.contains("-b:a 128k"));
}

#[test]
fn running_needs_the_input_and_the_tool() {
    let f = facts();
    match execute_pdf_linearize("in.pdf", "out.pdf", false, &f).end {
        Err(ForgeKitError::InvalidInput { path, reason }) => {
            assert_eq!(path, "in.pdf");
            assert_eq!(reason, "Input file does not exist");
        }
        other => panic!("unexpected {:?}", other.is_ok()),
    }
    let mut f = facts();
    f.existing = vec!["in.pdf".to_string()];
    f.qpdf = Err(ForgeKitError::ToolNotFound { tool: "qpdf".to_string(), hint: "brew install qpdf".to_string() });
    match execute_pdf_linearize("in.pdf", "out.pdf", false, &f).end {
        Err(ForgeKitError::ToolNotFound { tool, .. }) => assert_eq!(tool, "qpdf"),
        other => panic!("unexpected {:?}", other.is_ok()),
    }
    f.qpdf = found("/usr/bin/qpdf");
    let o = execute_pdf_linearize("in.pdf", "out.pdf", false, &f);
    assert_eq!(
        commands(&o),
        vec![(
            "qpdf".to_string(),
            "/usr/bin/qpdf".to_string(),
            vec!["--linearize".to_string(), "in.pdf".to_string(), "out.pdf".to_string()]
        )]
    );
    assert_eq!(message(o), "Successfully linearized PDF to out.pdf");
}

#[test]
fn merge_reports_progress_and_checks_every_input() {
    let inputs = vec!["a.pdf".to_string(), "b.pdf".to_string()];
    let mut f = facts();
    f.qpdf = found("/bin/qpdf");
    let plan = execute_pdf_merge(&inputs, "m.pdf", true, true, &f);
    assert_eq!(plan.steps.len(), 1);
    assert_eq!(message(plan), "qpdf --linearize --empty --pages a.pdf 1-z b.pdf 1-z -- m.pdf");
    f.existing = vec!["a.pdf".to_string()];
    match execute_pdf_merge(&inputs, "m.pdf", false, false, &f).end {
        Err(ForgeKitError::InvalidInput { path, .. }) => assert_eq!(path, "b.pdf"),
        _ => panic!("expected the missing input to be reported"),
    }
    f.existing = inputs.clone();
    let o = execute_pdf_merge(&inputs, "m.pdf", false, false, &f);
    assert_eq!(o.steps.len(), 4);
    assert!(matches!(o.steps[3], Step::ReportComplete { .. }));
    assert_eq!(message(o), "Successfully merged 2 PDFs to m.pdf");
    match execute_pdf_merge(&inputs[..1], "m.pdf", false, true, &f).end {
        Err(ForgeKitError::InvalidInput { reason, .. }) => {
            assert_eq!(reason, "At least 2 input PDFs required for merge")
        }
        _ => panic!("expected refusal"),
    }
}

#[test]
fn split_uses_the_page_count() {
    let mut f = facts();
    f.existing = vec!["book.pdf".to_string()];
    f.qpdf = found("qpdf");
    let plan = message(execute_pdf_split("book.pdf", "out", &pages("odd"), true, &f));
    assert!(plan.starts_with("qpdf book.pdf --pages . 1,3,5,"));
    assert!(plan.contains(",99 -- out"));
    f.page_count = Ok(4);
    let o = execute_pdf_split("book.pdf", "out", &pages("even"), false, &f);
    assert!(matches!(o.steps[0], Step::CreateDir(_)));
    assert_eq!(commands(&o)[0].2[3], "2,4");
    assert_eq!(message(o), "Successfully split PDF pages 2,4 to out/split_output.pdf");
    let bad = execute_pdf_split("book.pdf", "out", &pages("9"), false, &f);
    assert_eq!(bad.steps.len(), 1);
    assert!(bad.end.is_err());
}

#[test]
fn extract_format_errors() {
    let f = facts();
    match execute_pdf_extract("a.pdf", None, None, &pages("1"), "bmp", true, &f).end {
        Err(ForgeKitError::InvalidInput { reason, .. }) => {
            assert_eq!(reason, "Unknown format 'bmp'. Supported formats: pdf, png, jpeg, jpg")
        }
        _ => panic!("expected refusal"),
    }
    match execute_pdf_extract("a.pdf", None, None, &pages("1"), "jpg", true, &f).end {
        Err(ForgeKitError::InvalidInput { reason, .. }) => {
            assert_eq!(reason, "Output directory path required when format is 'jpg'")
        }
        _ => panic!("expected refusal"),
    }
    match execute_pdf_extract("a.pdf", None, None, &[], "pdf", true, &f).end {
        Err(ForgeKitError::InvalidInput { reason, .. }) => {
            assert_eq!(reason, "At least one page specification required")
        }
        _ => panic!("expected refusal"),
    }
}

#[test]
fn extract_images_runs_qpdf_then_ghostscript() {
    let mut f = facts();
    f.existing = vec!["a.pdf".to_string()];
    f.qpdf = found("qpdf");
    f.gs = found("gs");
    f.page_count = Ok(3);
    let o = execute_pdf_extract("a.pdf", None, Some("imgs"), &pages("1-2"), "png", false, &f);
    let cmds = commands(&o);
    assert_eq!(cmds.len(), 2);
    assert_eq!(cmds[0].2, vec!["a.pdf", "--pages", ".", "1-2", "--", "/tmp/extract-u1.pdf"]);
    assert_eq!(cmds[1].0, "gs");
    assert_eq!(cmds[1].2[0], "-sDEVICE=png16m");
    assert_eq!(cmds[1].2[5], "-sOutputFile=imgs/page_%d.png");
    assert_eq!(message(o), "Successfully extracted images to directory imgs");
}

#[test]
fn metadata_reports() {
    assert_eq!(field_report("title", "  Report \n"), "Report");
    assert_eq!(field_report("title", " \n"), "Field 'title' is not set");
    let mut f = facts();
    f.existing = vec!["doc.pdf".to_string()];
    f.exiftool = found("exiftool");
    let o = execute_pdf_metadata("doc.pdf", None, &MetadataAction::Get("title".to_string()), false, &f);
    assert!(matches!(o.end, Ok(Finish::FieldValue(ref x)) if x == "title"));
    let fields = vec![("author".to_string(), "A".to_string())];
    let o = execute_pdf_metadata("doc.pdf", Some("new.pdf"), &MetadataAction::SetFields(fields), false, &f);
    assert!(matches!(o.steps[0], Step::Copy { .. }));
    assert_eq!(commands(&o)[0].2, vec!["-overwrite_original", "-Author=A", "new.pdf"]);
    assert_eq!(message(o), "Successfully set 1 metadata field(s) in new.pdf");
}

#[test]
fn success_messages() {
    let mut f = facts();
    f.existing = vec!["in".to_string()];
    f.vips = found("/opt/vips/bin/vips");
    f.ffmpeg = found("ffmpeg");
    let o = execute_image_resize("in", "out.jpg", Some(10), None, false, &f);
    assert_eq!(commands(&o)[0].1, "/opt/vips/bin/vipsthumbnail");
    assert_eq!(message(o), "Successfully resized image to out.jpg (width 10)");
    assert_eq!(
        message(execute_audio_convert("in", "o.flac", &AudioFormat::Flac, Some(320), false, &f)),
        "Successfully converted audio to o.flac (flac) at 320kbps"
    );
    assert_eq!(
        message(execute_video_transcode("in", "o.mp4", 23, "fast", Some((1280, -1)), true, false, &f)),
        "Successfully transcoded video to o.mp4 (H.264, CRF 23) scaled to 1280p"
    );
    assert_eq!(
        message(execute_image_convert("in", "o.webp", &ImageFormat::WebP, None, None, false, false, &f)),
        "Successfully converted image to o.webp (webp)"
    );
}

#[test]
fn join_needs_two_existing_inputs() {
    let mut f = facts();
    f.ffmpeg = found("ffmpeg");
    let one = vec!["a.mp3".to_string()];
    f.existing = one.clone();
    match execute_audio_join(&one, "j.mp3", false, &f).end {
        Err(ForgeKitError::InvalidInput { reason, .. }) => {
            assert_eq!(reason, "At least 2 input files are required for join")
        }
        _ => panic!("expected refusal"),
    }
    let two = vec!["a.mp3".to_string(), "b.mp3".to_string()];
    f.existing = two.clone();
    let o = execute_audio_join(&two, "j.mp3", false, &f);
    match &o.steps[0] {
        Step::WriteFile { path, contents, failure } => {
            assert_eq!(failure, "Failed to create concat list: ");
            assert_eq!(path, "/tmp/ffmpeg_concat_42.txt");
            assert_eq!(contents, "file 'a.mp3'\nfile 'b.mp3'\n");
        }
        _ => panic!("expected the concat list first"),
    }
    assert_eq!(message(o), "Successfully joined 2 audio files to j.mp3");
}

#[test]
fn command_results() {
    let cmd = |start: StartFailure, checked: bool| Command {
        tool: "qpdf".to_string(),
        program: "/usr/bin/qpdf".to_string(),
        args: vec![],
        start_failure: start,
        checked,
        cleanup: None,
        report: None,
    };
    let c = cmd(StartFailure::Processing("Failed to run qpdf: ".to_string()), true);
    assert_eq!(
        command_result_of(&c, Err("not found".to_string())).unwrap_err(),
        ForgeKitError::ProcessingFailed { tool: "qpdf".to_string(), stderr: "Failed to run qpdf: not found".to_string() }
    );
    assert_eq!(
        command_result_of(&c, Ok((false, "out".to_string(), "bad pdf".to_string()))).unwrap_err(),
        ForgeKitError::ProcessingFailed { tool: "qpdf".to_string(), stderr: "bad pdf".to_string() }
    );
    assert_eq!(command_result_of(&c, Ok((true, "out".to_string(), "warn".to_string()))).unwrap(), "out");
    let c = cmd(StartFailure::Other("Failed to run exiftool: ".to_string()), false);
    assert_eq!(
        command_result_of(&c, Err("denied".to_string())).unwrap_err(),
        ForgeKitError::Other("Failed to run exiftool: denied".to_string())
    );
    assert_eq!(command_result_of(&c, Ok((false, "partial".to_string(), "e".to_string()))).unwrap(), "partial");
}
