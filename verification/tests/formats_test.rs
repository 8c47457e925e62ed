use forgekit::audio::AudioFormat;
use forgekit::image::ImageFormat;

#[test]
fn audio_test_format_from_extension() {
    assert_eq!(AudioFormat::from_extension("mp3"), Some(AudioFormat::Mp3));
    assert_eq!(AudioFormat::from_extension("MP3"), Some(AudioFormat::Mp3));
    assert_eq!(AudioFormat::from_extension("aac"), Some(AudioFormat::Aac));
    assert_eq!(AudioFormat::from_extension("opus"), Some(AudioFormat::Opus));
    assert_eq!(AudioFormat::from_extension("flac"), Some(AudioFormat::Flac));
    assert_eq!(AudioFormat::from_extension("wav"), Some(AudioFormat::Wav));
    assert_eq!(AudioFormat::from_extension("ogg"), Some(AudioFormat::Ogg));
    assert_eq!(AudioFormat::from_extension("oga"), Some(AudioFormat::Ogg));
    assert_eq!(AudioFormat::from_extension("m4a"), Some(AudioFormat::M4a));
    assert_eq!(AudioFormat::from_extension("xyz"), None);
}

#[test]
fn audio_test_format_extension() {
    assert_eq!(AudioFormat::Mp3.extension(), "mp3");
    assert_eq!(AudioFormat::Opus.extension(), "opus");
    assert_eq!(AudioFormat::Flac.extension(), "flac");
}

#[test]
fn audio_test_format_from_path() {
    assert_eq!(AudioFormat::from_path("song.mp3"), Some(AudioFormat::Mp3));
    assert_eq!(AudioFormat::from_path("/path/to/audio.opus"), Some(AudioFormat::Opus));
    assert_eq!(AudioFormat::from_path("file.unknown"), None);
}

#[test]
fn audio_test_format_from_str() {
    assert_eq!("mp3".parse::<AudioFormat>().unwrap(), AudioFormat::Mp3);
    assert_eq!("opus".parse::<AudioFormat>().unwrap(), AudioFormat::Opus);
    assert!("xyz".parse::<AudioFormat>().is_err());
}

#[test]
fn test_ffmpeg_codec() {
    assert_eq!(AudioFormat::Mp3.ffmpeg_codec(), "libmp3lame");
    assert_eq!(AudioFormat::Opus.ffmpeg_codec(), "libopus");
    assert_eq!(AudioFormat::Flac.ffmpeg_codec(), "flac");
}

#[test]
fn test_supports_bitrate() {
    assert!(AudioFormat::Mp3.supports_bitrate());
    assert!(AudioFormat::Opus.supports_bitrate());
    assert!(!AudioFormat::Flac.supports_bitrate());
    assert!(!AudioFormat::Wav.supports_bitrate());
}

#[test]
fn image_test_format_from_extension() {
    assert_eq!(ImageFormat::from_extension("jpg"), Some(ImageFormat::Jpeg));
    assert_eq!(ImageFormat::from_extension("jpeg"), Some(ImageFormat::Jpeg));
    assert_eq!(ImageFormat::from_extension("JPG"), Some(ImageFormat::Jpeg));
    assert_eq!(ImageFormat::from_extension("png"), Some(ImageFormat::Png));
    assert_eq!(ImageFormat::from_extension("webp"), Some(ImageFormat::WebP));
    assert_eq!(ImageFormat::from_extension("avif"), Some(ImageFormat::Avif));
    assert_eq!(ImageFormat::from_extension("tiff"), Some(ImageFormat::Tiff));
    assert_eq!(ImageFormat::from_extension("tif"), Some(ImageFormat::Tiff));
    assert_eq!(ImageFormat::from_extension("gif"), Some(ImageFormat::Gif));
    assert_eq!(ImageFormat::from_extension("xyz"), None);
}

#[test]
fn image_test_format_extension() {
    assert_eq!(ImageFormat::Jpeg.extension(), "jpg");
    assert_eq!(ImageFormat::Png.extension(), "png");
    assert_eq!(ImageFormat::WebP.extension(), "webp");
}

#[test]
fn image_test_format_from_path() {
    assert_eq!(ImageFormat::from_path("photo.jpg"), Some(ImageFormat::Jpeg));
    assert_eq!(ImageFormat::from_path("/path/to/image.webp"), Some(ImageFormat::WebP));
    assert_eq!(ImageFormat::from_path("file.unknown"), None);
}

#[test]
fn image_test_format_from_str() {
    assert_eq!("jpg".parse::<ImageFormat>().unwrap(), ImageFormat::Jpeg);
    assert_eq!("webp".parse::<ImageFormat>().unwrap(), ImageFormat::WebP);
    assert!("xyz".parse::<ImageFormat>().is_err());
}

#[test]
fn every_format_reads_back_from_its_extension() {
    for f in [
        AudioFormat::Mp3,
        AudioFormat::Aac,
        AudioFormat::Opus,
        AudioFormat::Flac,
        AudioFormat::Wav,
        AudioFormat::Ogg,
        AudioFormat::M4a,
    ] {
        assert_eq!(AudioFormat::from_extension(f.extension()), Some(f));
        assert_eq!(AudioFormat::from_extension(&f.extension().to_uppercase()), Some(f));
    }
    for f in [
        ImageFormat::Jpeg,
        ImageFormat::Png,
        ImageFormat::WebP,
        ImageFormat::Avif,
        ImageFormat::Tiff,
        ImageFormat::Gif,
    ] {
        assert_eq!(ImageFormat::from_extension(f.extension()), Some(f));
    }
}

#[test]
fn unknown_format_messages_list_the_supported_ones() {
    let err = "xyz".parse::<AudioFormat>().unwrap_err();
    assert!(err.contains("xyz"));
    assert!(err.contains(AudioFormat::supported_extensions()));
    let err = "bmp".parse::<ImageFormat>().unwrap_err();
    assert!(err.contains("bmp"));
}

#[test]
fn extension_detection_follows_path_rules() {
    assert_eq!(AudioFormat::from_path(".mp3"), None);
    assert_eq!(AudioFormat::from_path("dir.mp3/"), Some(AudioFormat::Mp3));
    assert_eq!(ImageFormat::from_path("archive.tar.gif"), Some(ImageFormat::Gif));
    assert_eq!(ImageFormat::from_path("noext"), None);
}
