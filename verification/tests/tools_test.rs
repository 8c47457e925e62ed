use forgekit::audio::AudioFormat;
use forgekit::error::ForgeKitError;
use forgekit::tools::exiftool::{ExiftoolTool, PdfMetadataField};
use forgekit::tools::ffmpeg::FfmpegTool;
use forgekit::tools::gs::GsTool;
use forgekit::tools::imagemagick::ImageMagickTool;
use forgekit::tools::libvips::LibvipsTool;
use forgekit::tools::ocrmypdf::OcrmypdfTool;
use forgekit::tools::qpdf::QpdfTool;
use forgekit::tools::{command_line_of, version_from_output};

#[test]
fn test_exiftool_name() {
    let tool = ExiftoolTool;
    assert_eq!(tool.name(), "exiftool");
}

#[test]
fn test_pdf_metadata_field_parsing() {
    assert_eq!("title".parse::<PdfMetadataField>().unwrap(), PdfMetadataField::Title);
    assert_eq!("Title".parse::<PdfMetadataField>().unwrap(), PdfMetadataField::Title);
    assert_eq!("author".parse::<PdfMetadataField>().unwrap(), PdfMetadataField::Author);
    assert_eq!(
        "CustomField".parse::<PdfMetadataField>().unwrap(),
        PdfMetadataField::Custom("CustomField".to_string())
    );
}

#[test]
fn test_pdf_metadata_field_to_exiftool_tag() {
    assert_eq!(PdfMetadataField::Title.to_exiftool_tag(), "Title");
    assert_eq!(PdfMetadataField::Author.to_exiftool_tag(), "Author");
    assert_eq!(PdfMetadataField::CreationDate.to_exiftool_tag(), "CreateDate");
    assert_eq!(PdfMetadataField::Custom("MyField".to_string()).to_exiftool_tag(), "MyField");
}

#[test]
fn test_ffmpeg_name() {
    let tool = FfmpegTool;
    assert_eq!(tool.name(), "ffmpeg");
}

#[test]
fn test_plan_convert_mp3() {
    let plan = FfmpegTool::plan_convert("audio.wav", "audio.mp3", &AudioFormat::Mp3, Some(192));
    assert!(plan.contains("ffmpeg"));
    assert!(plan.contains("-i audio.wav"));
    assert!(plan.contains("-c:a libmp3lame"));
    assert!(plan.contains("-b:a 192k"));
    assert!(plan.contains("audio.mp3"));
}

#[test]
fn test_plan_convert_opus() {
    let plan = FfmpegTool::plan_convert("audio.wav", "audio.opus", &AudioFormat::Opus, Some(128));
    assert!(plan.contains("ffmpeg"));
    assert!(plan.contains("-c:a libopus"));
    assert!(plan.contains("-b:a 128k"));
    assert!(plan.contains("-f opus"));
}

#[test]
fn test_plan_convert_flac_no_bitrate() {
    let plan = FfmpegTool::plan_convert("audio.wav", "audio.flac", &AudioFormat::Flac, Some(320));
    assert!(plan.contains("-c:a flac"));
    assert!(!plan.contains("-b:a"));
}

#[test]
fn test_plan_extract_mp3() {
    let plan = FfmpegTool::plan_extract("video.mp4", "audio.mp3", &AudioFormat::Mp3, Some(192));
    assert!(plan.contains("ffmpeg"));
    assert!(plan.contains("-i video.mp4"));
    assert!(plan.contains("-vn"));
    assert!(plan.contains("-c:a libmp3lame"));
    assert!(plan.contains("-b:a 192k"));
    assert!(plan.contains("audio.mp3"));
}

#[test]
fn test_plan_extract_opus() {
    let plan = FfmpegTool::plan_extract("video.mkv", "audio.opus", &AudioFormat::Opus, Some(128));
    assert!(plan.contains("-vn"));
    assert!(plan.contains("-c:a libopus"));
    assert!(plan.contains("-f opus"));
}

#[test]
fn test_plan_extract_flac_no_bitrate() {
    let plan = FfmpegTool::plan_extract("video.mov", "audio.flac", &AudioFormat::Flac, Some(320));
    assert!(plan.contains("-vn"));
    assert!(plan.contains("-c:a flac"));
    assert!(!plan.contains("-b:a"));
}

#[test]
fn test_plan_join() {
    let inputs = vec!["part1.mp3".to_string(), "part2.mp3".to_string()];
    let plan = FfmpegTool::plan_join(&inputs, "joined.mp3");
    assert!(plan.contains("ffmpeg"));
    assert!(plan.contains("-f concat"));
    assert!(plan.contains("-c copy"));
    assert!(plan.contains("part1.mp3"));
    assert!(plan.contains("part2.mp3"));
}

#[test]
fn test_plan_mono() {
    let plan = FfmpegTool::plan_mono("stereo.wav", "mono.wav");
    assert!(plan.contains("ffmpeg"));
    assert!(plan.contains("-ac 1"));
}

#[test]
fn test_gs_name() {
    let tool = GsTool;
    assert_eq!(tool.name(), "gs");
}

#[test]
fn test_imagemagick_name() {
    let tool = ImageMagickTool;
    assert_eq!(tool.name(), "magick");
}

#[test]
fn test_is_magick_v7() {
    assert!(ImageMagickTool::is_magick_v7("/usr/bin/magick"));
    assert!(ImageMagickTool::is_magick_v7("magick.exe"));
    assert!(!ImageMagickTool::is_magick_v7("/usr/bin/convert"));
}

#[test]
fn imagemagick_test_plan_convert() {
    let plan = ImageMagickTool::plan_convert("input.jpg", "output.webp", Some(80), true);
    assert!(plan.contains("magick convert"));
    assert!(plan.contains("input.jpg"));
    assert!(plan.contains("-quality 80"));
    assert!(plan.contains("-strip"));
}

#[test]
fn imagemagick_test_plan_resize() {
    let plan = ImageMagickTool::plan_resize("input.jpg", "output.jpg", Some(800), None);
    assert!(plan.contains("magick convert"));
    assert!(plan.contains("-resize 800x"));
}

#[test]
fn test_libvips_name() {
    let tool = LibvipsTool;
    assert_eq!(tool.name(), "vips");
}

#[test]
fn libvips_test_plan_convert() {
    let plan = LibvipsTool::plan_convert("input.jpg", "output.webp", Some(80), None, true);
    assert!(plan.contains("vips copy"));
    assert!(plan.contains("input.jpg"));
    assert!(plan.contains("Q=80"));
    assert!(plan.contains("strip"));
}

#[test]
fn libvips_test_plan_resize() {
    let plan = LibvipsTool::plan_resize("input.jpg", "output.jpg", Some(800), None);
    assert!(plan.contains("vipsthumbnail"));
    assert!(plan.contains("-s 800x"));
}

#[test]
fn test_ocrmypdf_name() {
    let tool = OcrmypdfTool;
    assert_eq!(tool.name(), "ocrmypdf");
}

#[test]
fn test_qpdf_name() {
    let tool = QpdfTool;
    assert_eq!(tool.name(), "qpdf");
}

#[test]
fn exact_plans() {
    assert_eq!(
        LibvipsTool::plan_convert("a.png", "b.png", None, Some(9), true),
        "vips copy a.png b.png[compression=9,strip]"
    );
    assert_eq!(LibvipsTool::plan_convert("a.png", "b.jpg", None, None, false), "vips copy a.png b.jpg");
    assert_eq!(LibvipsTool::plan_resize("a.jpg", "b.jpg", None, None), "vipsthumbnail a.jpg -s ? -o b.jpg");
    assert_eq!(LibvipsTool::plan_strip("a.jpg", "b.jpg"), "vips copy a.jpg b.jpg[strip]");
    assert_eq!(
        FfmpegTool::plan_convert("in.wav", "out.opus", &AudioFormat::Opus, Some(96)),
        "ffmpeg -y -i in.wav -c:a libopus -b:a 96k -f opus out.opus"
    );
    assert_eq!(
        FfmpegTool::plan_transcode("a.mov", "b.mp4", 20, "slow", Some((1280, -1)), false),
        "ffmpeg -y -i a.mov -c:v libx264 -crf 20 -preset slow -vf scale=1280:-2 -c:a aac -b:a 128k b.mp4"
    );
    assert_eq!(
        FfmpegTool::plan_join(&["a b.mp3".to_string(), "c.mp3".to_string()], "j.mp3"),
        "ffmpeg -y -f concat -safe 0 -i <list: a b.mp3, c.mp3> -c copy j.mp3"
    );
}

#[test]
fn concat_list_escapes_quotes() {
    let list = FfmpegTool::concat_list(&["it's.mp3".to_string(), "b.mp3".to_string()]);
    assert_eq!(list, "file 'it'\\''s.mp3'\nfile 'b.mp3'\n");
}

#[test]
fn imagemagick_version_six_and_seven() {
    assert_eq!(
        ImageMagickTool::convert_args("/usr/bin/convert", "a.jpg", "b.jpg", Some(70), false),
        vec!["a.jpg", "-quality", "70", "b.jpg"]
    );
    assert_eq!(
        ImageMagickTool::convert_args("/usr/bin/magick", "a.jpg", "b.jpg", None, true),
        vec!["convert", "a.jpg", "-strip", "b.jpg"]
    );
    assert!(ImageMagickTool::is_imagemagick_version("Version: ImageMagick 7.1.1-29"));
    assert!(ImageMagickTool::is_imagemagick_version("IMAGEMAGICK"));
    assert!(!ImageMagickTool::is_imagemagick_version("convert: some other tool 1.0"));
}

#[test]
fn version_lines() {
    assert_eq!(version_from_output("  qpdf version 11.9.0 \nmore"), "qpdf version 11.9.0");
    assert_eq!(version_from_output(""), "");
    assert_eq!(FfmpegTool::version_from_output("ffmpeg version 6.1 Copyright (c)\n"), "6.1");
    assert_eq!(FfmpegTool::version_from_output("ffmpeg  7\n"), "ffmpeg  7");
}

#[test]
fn command_lines_join_with_spaces() {
    assert_eq!(command_line_of("qpdf", &["--linearize".to_string(), "a.pdf".to_string()]), "qpdf --linearize a.pdf");
    assert_eq!(command_line_of("gs", &[]), "gs");
}

#[test]
fn qpdf_page_count_answers() {
    assert_eq!(QpdfTool::page_count_args("a.pdf"), vec!["--show-npages", "a.pdf"]);
    assert_eq!(QpdfTool::page_count_from_output(true, " 12\n", "").unwrap(), 12);
    assert_eq!(QpdfTool::page_count_from_output(true, "0", "").unwrap(), 0);
    match QpdfTool::page_count_from_output(false, "", "open failed") {
        Err(ForgeKitError::ProcessingFailed { tool, stderr }) => {
            assert_eq!(tool, "qpdf");
            assert_eq!(stderr, "open failed");
        }
        other => panic!("unexpected {:?}", other),
    }
    match QpdfTool::page_count_from_output(true, "many\n", "") {
        Err(ForgeKitError::Other(m)) => {
            assert_eq!(m, "Failed to parse page count from qpdf output: 'many'");
        }
        other => panic!("unexpected {:?}", other),
    }
    assert!(QpdfTool::page_count_from_output(true, "4294967296", "").is_err());
}

#[test]
fn tesseract_languages() {
    let listed = OcrmypdfTool::languages_from_output(
        true,
        "List of available languages in \"/usr/share\" (3):\neng\n deu \n\nosd\n",
    );
    assert_eq!(listed, vec!["eng", "deu", "osd"]);
    assert_eq!(OcrmypdfTool::languages_from_output(false, "anything"), vec!["eng"]);
    assert_eq!(OcrmypdfTool::languages_from_output(true, "header only\n"), vec!["eng"]);
    let tool = OcrmypdfTool;
    let langs: Result<Vec<String>, ForgeKitError> = Ok(listed);
    assert!(tool.is_language_available(&langs, "deu"));
    assert!(!tool.is_language_available(&langs, "fra"));
    let failed: Result<Vec<String>, ForgeKitError> = Err(ForgeKitError::Other("no tesseract".to_string()));
    assert!(!tool.is_language_available(&failed, "eng"));
}

#[test]
fn exiftool_arguments() {
    assert_eq!(
        ExiftoolTool::read_metadata_json_args("doc.pdf"),
        vec!["-json", "-PDF:all", "-XMP:all", "doc.pdf"]
    );
    assert_eq!(ExiftoolTool::read_field_args("doc.pdf", "title"), vec!["-s", "-s", "-s", "-title", "doc.pdf"]);
    let fields = vec![
        ("title".to_string(), "T".to_string()),
        ("moddate".to_string(), "2024".to_string()),
        ("Rating".to_string(), "5".to_string()),
    ];
    assert_eq!(
        ExiftoolTool::write_metadata_args("doc.pdf", &fields, true),
        vec!["-overwrite_original", "-Title=T", "-ModifyDate=2024", "-Rating=5", "doc.pdf"]
    );
    assert_eq!(ExiftoolTool::field_value("  My Title \n"), "My Title");
}

#[test]
fn exiftool_tags_parse_back_to_their_fields() {
    let fields = vec![
        PdfMetadataField::Title,
        PdfMetadataField::Author,
        PdfMetadataField::Subject,
        PdfMetadataField::Keywords,
        PdfMetadataField::Creator,
        PdfMetadataField::Producer,
        PdfMetadataField::CreationDate,
        PdfMetadataField::ModifyDate,
        PdfMetadataField::Custom("CustomField".to_string()),
    ];
    for f in fields {
        let back: PdfMetadataField = f.to_exiftool_tag().parse().unwrap();
        assert_eq!(back, f);
    }
}
