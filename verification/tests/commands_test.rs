use forgekit::audio::AudioFormat;
use forgekit::commands::check::{deps_report, ToolCheck};
use forgekit::platform::Platform;
use forgekit::tools::ToolInfo;
use forgekit::commands::audio::{audio_target_of, convert_job as audio_convert_job, extract_job as audio_extract_job, mono_job};
use forgekit::commands::image::{compress_job, convert_job, convert_target_of, derived_name_of, resize_job, strip_job};
use forgekit::commands::media::{scale_for_width, validate_transcode};
use forgekit::commands::pdf::{extract_job, parse_page_order, reorder_job, split_job};
use forgekit::commands::video::{join_inputs, key_less, natural_sort, natural_sort_key, NaturalSortPart};
use forgekit::error::ForgeKitError;
use forgekit::image::ImageFormat;
use forgekit::job::spec::JobSpec;
use forgekit::pages::PageSpec;

fn reason_of(e: ForgeKitError) -> String {
    match e {
        ForgeKitError::InvalidInput { reason, .. } => reason,
        other => panic!("expected an invalid-input error, got {:?}", other),
    }
}

fn strings(v: &[&str]) -> Vec<String> {
    v.iter().map(|s| s.to_string()).collect()
}

#[test]
fn convert_target_from_output_extension() {
    let (f, out) = convert_target_of("photo.jpg", Some("out.webp"), None).unwrap();
    assert_eq!(f, ImageFormat::WebP);
    assert_eq!(out, "out.webp");
}

#[test]
fn convert_target_from_to_without_output() {
    let (f, out) = convert_target_of("dir/photo.jpg", None, Some("PNG")).unwrap();
    assert_eq!(f, ImageFormat::Png);
    assert_eq!(out, "photo.png");
}

#[test]
fn convert_target_to_wins_over_output_extension() {
    let (f, out) = convert_target_of("a.jpg", Some("b.png"), Some("avif")).unwrap();
    assert_eq!(f, ImageFormat::Avif);
    assert_eq!(out, "b.png");
}

#[test]
fn convert_target_needs_output_or_to() {
    let e = convert_target_of("a.jpg", None, None).unwrap_err();
    assert_eq!(reason_of(e), "Either --output or --to is required");
}

#[test]
fn convert_target_unknown_format() {
    let e = convert_target_of("a.jpg", None, Some("bmp")).unwrap_err();
    assert_eq!(reason_of(e), "Unknown format 'bmp'. Supported: jpeg, png, webp, avif, tiff, gif");
}

#[test]
fn convert_target_unknown_output_extension() {
    let e = convert_target_of("a.jpg", Some("b.xyz"), None).unwrap_err();
    match e {
        ForgeKitError::InvalidInput { path, reason } => {
            assert_eq!(path, "b.xyz");
            assert_eq!(reason, "Cannot determine format from output extension. Use --to to specify.");
        }
        other => panic!("unexpected {:?}", other),
    }
}

#[test]
fn convert_job_defaults_compression_to_fastest() {
    match convert_job("a.jpg", Some("b.png"), None, Some(80), None, true).unwrap() {
        JobSpec::ImageConvert { input, output, format, quality, compression, strip_metadata } => {
            assert_eq!(input, "a.jpg");
            assert_eq!(output, "b.png");
            assert_eq!(format, ImageFormat::Png);
            assert_eq!(quality, Some(80));
            assert_eq!(compression, Some(0));
            assert!(strip_metadata);
        }
        other => panic!("unexpected {:?}", other),
    }
}

#[test]
fn convert_job_rejects_quality_over_100() {
    let e = convert_job("a.jpg", Some("b.png"), None, Some(101), None, false).unwrap_err();
    assert_eq!(reason_of(e), "Quality must be between 0 and 100");
}

#[test]
fn convert_job_rejects_compression_out_of_range() {
    let e = convert_job("a.jpg", Some("b.png"), None, None, Some(10), false).unwrap_err();
    assert_eq!(reason_of(e), "Compression must be between 1 and 9");
    let e = convert_job("a.jpg", Some("b.png"), None, None, Some(0), false).unwrap_err();
    assert_eq!(reason_of(e), "Compression must be between 1 and 9");
}

#[test]
fn derived_name_keeps_extension() {
    assert_eq!(derived_name_of("pics/cat.jpeg", "_x").unwrap(), "cat_x.jpeg");
    assert_eq!(derived_name_of("noext", "_x").unwrap(), "noext_x.");
}

#[test]
fn resize_job_derives_names() {
    let name = |w, h| match resize_job("img/cat.png", None, w, h).unwrap() {
        JobSpec::ImageResize { output, .. } => output,
        other => panic!("unexpected {:?}", other),
    };
    assert_eq!(name(Some(800), Some(600)), "cat_800x600.png");
    assert_eq!(name(Some(800), None), "cat_800w.png");
    assert_eq!(name(None, Some(600)), "cat_600h.png");
}

#[test]
fn resize_job_needs_a_dimension() {
    let e = resize_job("a.png", Some("b.png"), None, None).unwrap_err();
    assert_eq!(reason_of(e), "At least one of --width or --height is required");
}

#[test]
fn strip_job_derives_name() {
    match strip_job("photos/x.jpg", None).unwrap() {
        JobSpec::ImageStrip { input, output } => {
            assert_eq!(input, "photos/x.jpg");
            assert_eq!(output, "x_stripped.jpg");
        }
        other => panic!("unexpected {:?}", other),
    }
}

#[test]
fn compress_job_png_uses_strongest_compression() {
    match compress_job("a.PNG", None, 75).unwrap() {
        JobSpec::ImageConvert { output, format, quality, compression, strip_metadata, .. } => {
            assert_eq!(output, "a_compressed.png");
            assert_eq!(format, ImageFormat::Png);
            assert_eq!(quality, None);
            assert_eq!(compression, Some(9));
            assert!(strip_metadata);
        }
        other => panic!("unexpected {:?}", other),
    }
}

#[test]
fn compress_job_jpeg_keeps_quality() {
    match compress_job("a.jpg", None, 70).unwrap() {
        JobSpec::ImageConvert { output, format, quality, compression, .. } => {
            assert_eq!(output, "a_compressed.jpg");
            assert_eq!(format, ImageFormat::Jpeg);
            assert_eq!(quality, Some(70));
            assert_eq!(compression, None);
        }
        other => panic!("unexpected {:?}", other),
    }
}

#[test]
fn compress_job_with_output_png() {
    match compress_job("a.jpg", Some("b.png"), 60).unwrap() {
        JobSpec::ImageConvert { format, quality, compression, .. } => {
            assert_eq!(format, ImageFormat::Png);
            assert_eq!(quality, Some(60));
            assert_eq!(compression, Some(9));
        }
        other => panic!("unexpected {:?}", other),
    }
}

#[test]
fn compress_job_refuses_raw() {
    let e = compress_job("shot.CR2", None, 80).unwrap_err();
    assert_eq!(reason_of(e), "RAW files cannot be compressed. Use 'image convert' to convert to JPEG/WebP first.");
}

#[test]
fn compress_job_refuses_quality_over_100() {
    let e = compress_job("a.jpg", None, 150).unwrap_err();
    assert_eq!(reason_of(e), "Quality must be between 0 and 100");
}

#[test]
fn page_order_parses_with_spaces() {
    assert_eq!(parse_page_order("3, 1,2").unwrap(), vec![3, 1, 2]);
}

#[test]
fn page_order_rejects_non_numbers() {
    let e = parse_page_order("1,a").unwrap_err();
    assert_eq!(reason_of(e), "Invalid page order format. Expected comma-separated numbers (e.g., '3,1,2')");
    let e = parse_page_order("").unwrap_err();
    assert_eq!(reason_of(e), "Invalid page order format. Expected comma-separated numbers (e.g., '3,1,2')");
}

#[test]
fn reorder_job_builds_spec() {
    match reorder_job("in.pdf", "out.pdf", "2,1").unwrap() {
        JobSpec::PdfReorder { input, output, page_order } => {
            assert_eq!(input, "in.pdf");
            assert_eq!(output, "out.pdf");
            assert_eq!(page_order, vec![2, 1]);
        }
        other => panic!("unexpected {:?}", other),
    }
}

#[test]
fn split_job_parses_pages() {
    match split_job("in.pdf", "out", "1-3,5").unwrap() {
        JobSpec::PdfSplit { pages, output_dir, .. } => {
            assert_eq!(output_dir, "out");
            assert_eq!(pages, vec![PageSpec::Range { start: 1, end: Some(3) }, PageSpec::Page(5)]);
        }
        other => panic!("unexpected {:?}", other),
    }
}

#[test]
fn extract_job_pdf_needs_output() {
    let e = extract_job("in.pdf", None, Some("dir"), "1", "pdf").unwrap_err();
    assert_eq!(reason_of(e), "Output file path required when format is 'pdf'. Use --output <file>");
}

#[test]
fn extract_job_images_need_output_dir() {
    let e = extract_job("in.pdf", Some("x.pdf"), None, "1", "png").unwrap_err();
    assert_eq!(reason_of(e), "Output directory path required when format is 'png'. Use --output-dir <dir>");
}

#[test]
fn extract_job_unknown_format() {
    let e = extract_job("in.pdf", Some("x.pdf"), None, "1", "bmp").unwrap_err();
    assert_eq!(reason_of(e), "Unknown format 'bmp'. Supported formats: pdf, png, jpeg, jpg");
}

#[test]
fn extract_job_builds_spec() {
    match extract_job("in.pdf", None, Some("pages"), "2-4", "jpg").unwrap() {
        JobSpec::PdfExtract { output, output_dir, pages, format, .. } => {
            assert_eq!(output, None);
            assert_eq!(output_dir, Some("pages".to_string()));
            assert_eq!(pages, vec![PageSpec::Range { start: 2, end: Some(4) }]);
            assert_eq!(format, "jpg");
        }
        other => panic!("unexpected {:?}", other),
    }
}

#[test]
fn audio_target_from_to() {
    let (f, out) = audio_target_of("music/song.wav", None, Some("mp3")).unwrap();
    assert_eq!(f, AudioFormat::Mp3);
    assert_eq!(out, "song.mp3");
}

#[test]
fn audio_target_unknown_to() {
    let e = audio_target_of("song.wav", None, Some("xyz")).unwrap_err();
    assert_eq!(reason_of(e), "Unknown format 'xyz'. Supported: mp3, aac, opus, flac, wav, ogg, m4a");
}

#[test]
fn audio_target_output_decides_format() {
    let (f, out) = audio_target_of("song.wav", Some("x.flac"), Some("mp3")).unwrap();
    assert_eq!(f, AudioFormat::Flac);
    assert_eq!(out, "x.flac");
}

#[test]
fn audio_jobs_build_specs() {
    match audio_convert_job("a.wav", None, Some("opus"), Some(96)).unwrap() {
        JobSpec::AudioConvert { output, format, bitrate, .. } => {
            assert_eq!(output, "a.opus");
            assert_eq!(format, AudioFormat::Opus);
            assert_eq!(bitrate, Some(96));
        }
        other => panic!("unexpected {:?}", other),
    }
    match audio_extract_job("v.mp4", None, Some("aac"), None).unwrap() {
        JobSpec::AudioExtract { output, format, .. } => {
            assert_eq!(output, "v.aac");
            assert_eq!(format, AudioFormat::Aac);
        }
        other => panic!("unexpected {:?}", other),
    }
    match mono_job("x/s.mp3", None).unwrap() {
        JobSpec::AudioMono { output, .. } => assert_eq!(output, "s_mono.mp3"),
        other => panic!("unexpected {:?}", other),
    }
}

#[test]
fn audio_convert_needs_output_or_to() {
    let e = audio_convert_job("a.wav", None, None, None).unwrap_err();
    assert_eq!(reason_of(e), "Either --output or --to is required");
}

#[test]
fn transcode_options_are_checked() {
    assert!(validate_transcode(23, "medium").is_ok());
    let e = validate_transcode(52, "medium").unwrap_err();
    assert_eq!(reason_of(e), "CRF must be 0-51, got 52");
    let e = validate_transcode(20, "turbo").unwrap_err();
    assert_eq!(
        reason_of(e),
        "Invalid preset 'turbo'. Valid presets: ultrafast, superfast, veryfast, faster, fast, medium, slow, slower, veryslow"
    );
}

#[test]
fn scale_keeps_aspect_ratio() {
    assert_eq!(scale_for_width(Some(1280)), Some((1280, -1)));
    assert_eq!(scale_for_width(None), None);
}

#[test]
fn natural_sort_key_splits_runs() {
    let k = natural_sort_key("dir/part12b.mp4");
    assert_eq!(k.len(), 4);
    assert!(matches!(&k[0], NaturalSortPart::Str(s) if s.iter().collect::<String>() == "part"));
    assert!(matches!(&k[1], NaturalSortPart::Num(12)));
    assert!(matches!(&k[2], NaturalSortPart::Str(s) if s.iter().collect::<String>() == "b.mp"));
    assert!(matches!(&k[3], NaturalSortPart::Num(4)));
}

#[test]
fn key_less_orders_numbers_by_value() {
    let a = natural_sort_key("part_2.mp4");
    let b = natural_sort_key("part_10.mp4");
    assert!(key_less(&a, &b));
    assert!(!key_less(&b, &a));
    assert!(!key_less(&a, &a));
}

#[test]
fn natural_sort_orders_numbers_by_value() {
    let sorted = natural_sort(strings(&["clip10.mp4", "clip2.mp4", "clip1.mp4"]));
    assert_eq!(sorted, strings(&["clip1.mp4", "clip2.mp4", "clip10.mp4"]));
}

#[test]
fn natural_sort_is_stable() {
    let sorted = natural_sort(strings(&["b/x1.mp4", "a/x1.mp4", "x0.mp4"]));
    assert_eq!(sorted, strings(&["x0.mp4", "b/x1.mp4", "a/x1.mp4"]));
}

#[test]
fn join_inputs_needs_two_files() {
    let e = join_inputs(strings(&["only.mp4"])).unwrap_err();
    assert_eq!(reason_of(e), "At least 2 files required for join, found 1");
}

#[test]
fn join_inputs_sorts_naturally() {
    let v = join_inputs(strings(&["s11.mp4", "s9.mp4"])).unwrap();
    assert_eq!(v, strings(&["s9.mp4", "s11.mp4"]));
}

#[test]
fn deps_report_lists_found_tools() {
    let checks = vec![ToolCheck {
        name: "qpdf".to_string(),
        probe: Ok(ToolInfo { path: "/usr/bin/qpdf".to_string(), version: "11.9.0".to_string(), available: true }),
        error_text: String::new(),
    }];
    assert_eq!(
        deps_report(Platform::Linux, &checks),
        strings(&[
            "Checking ForgeKit dependencies...",
            "Platform: Linux\n",
            "✓ qpdf: found at /usr/bin/qpdf",
            "  Version: 11.9.0",
            "",
            "✓ All dependencies are installed!",
        ])
    );
}

#[test]
fn deps_report_explains_missing_tools() {
    let checks = vec![
        ToolCheck {
            name: "qpdf".to_string(),
            probe: Err(ForgeKitError::ToolNotFound { tool: "qpdf".to_string(), hint: "brew install qpdf".to_string() }),
            error_text: String::new(),
        },
        ToolCheck {
            name: "gs".to_string(),
            probe: Err(ForgeKitError::Other("boom".to_string())),
            error_text: "boom".to_string(),
        },
    ];
    assert_eq!(
        deps_report(Platform::MacOS, &checks),
        strings(&[
            "Checking ForgeKit dependencies...",
            "Platform: macOS\n",
            "✗ qpdf: not found",
            "  Install: brew install qpdf",
            "",
            "✗ gs: not found",
            "  Error: boom",
            "",
            "✗ Some dependencies are missing.\n",
            "Install missing dependencies individually, or install all at once:\n",
            "  brew install qpdf pdfcpu tesseract ffmpeg libvips exiftool",
            "  pip3 install ocrmypdf",
        ])
    );
}
