use forgekit::error::ForgeKitError;
use forgekit::platform::{LinuxDistro, Platform, ToolInstallHints};
use forgekit::tools::probe::{probe_begin, probe_step, ProbeAction, ProbeEvent, ProbeTool};
use forgekit::tools::{ToolConfig, ToolInfo};

/// What a probe asked for, step by step, and how it ended.
#[derive(Debug, PartialEq)]
enum Asked {
    Exists(String),
    Run(String, String),
}

/// Drives a probe, answering its actions in turn with `answers`.
fn drive(
    tool: ProbeTool,
    config: &ToolConfig,
    p: Platform,
    answers: Vec<ProbeEvent>,
) -> (Vec<Asked>, Result<ToolInfo, ForgeKitError>) {
    let d = LinuxDistro::Debian;
    let (mut state, mut action) = probe_begin(tool, config, p, d);
    let mut asked = Vec::new();
    let mut answers = answers.into_iter();
    loop {
        match &action {
            ProbeAction::CheckExists(path) => asked.push(Asked::Exists(path.clone())),
            ProbeAction::Run { program, arg } => asked.push(Asked::Run(program.clone(), arg.clone())),
            ProbeAction::Finish(_) => break,
        }
        let event = answers.next().expect("the probe asked for more than the test answers");
        let (s, a) = probe_step(tool, p, d, &state, &event);
        state = s;
        action = a;
    }
    assert!(answers.next().is_none(), "the probe ended before using every answer");
    match action {
        ProbeAction::Finish(r) => (asked, r),
        _ => unreachable!(),
    }
}

fn ok(out: &str) -> ProbeEvent {
    ProbeEvent::Ran(Ok((true, out.to_string())))
}

fn failed() -> ProbeEvent {
    ProbeEvent::Ran(Ok((false, String::new())))
}

fn run(program: &str, arg: &str) -> Asked {
    Asked::Run(program.to_string(), arg.to_string())
}

fn no_override() -> ToolConfig {
    ToolConfig { override_path: None }
}

#[test]
fn probe_finds_qpdf_on_path() {
    let (asked, r) = drive(
        ProbeTool::Qpdf,
        &no_override(),
        Platform::Linux,
        vec![ok("/usr/bin/qpdf\n"), ok("qpdf version 11.9.0\n"), ok("qpdf version 11.9.0\nRun qpdf --copyright\n")],
    );
    assert_eq!(
        asked,
        vec![run("which", "qpdf"), run("/usr/bin/qpdf", "--version"), run("/usr/bin/qpdf", "--version")]
    );
    let info = r.unwrap();
    assert_eq!(info.path, "/usr/bin/qpdf");
    assert_eq!(info.version, "qpdf version 11.9.0");
    assert!(info.available);
}

#[test]
fn probe_falls_back_on_the_bare_name() {
    let (asked, r) = drive(ProbeTool::Exiftool, &no_override(), Platform::Windows, vec![failed(), failed()]);
    assert_eq!(asked, vec![run("where", "exiftool"), run("exiftool", "-ver")]);
    match r {
        Err(ForgeKitError::ToolNotFound { tool, hint }) => {
            assert_eq!(tool, "exiftool");
            assert_eq!(hint, ToolInstallHints::for_tool("exiftool", Platform::Windows, LinuxDistro::Debian));
        }
        other => panic!("unexpected {:?}", other),
    }
}

#[test]
fn probe_reports_libvips_hint_for_vips() {
    let (asked, r) = drive(
        ProbeTool::Libvips,
        &no_override(),
        Platform::Linux,
        vec![ok("/usr/bin/vips\n"), ProbeEvent::Ran(Err("permission denied".to_string()))],
    );
    assert_eq!(asked, vec![run("which", "vips"), run("/usr/bin/vips", "--version")]);
    match r {
        Err(ForgeKitError::ToolNotFound { tool, hint }) => {
            assert_eq!(tool, "vips");
            assert_eq!(hint, ToolInstallHints::for_tool("libvips", Platform::Linux, LinuxDistro::Debian));
        }
        other => panic!("unexpected {:?}", other),
    }
}

#[test]
fn probe_uses_an_existing_override() {
    let config = ToolConfig { override_path: Some("/opt/ff/ffmpeg".to_string()) };
    let (asked, r) = drive(
        ProbeTool::Ffmpeg,
        &config,
        Platform::MacOS,
        vec![ProbeEvent::Exists(true), ok("ffmpeg version 6.1 Copyright (c) 2000-2023\n")],
    );
    assert_eq!(asked, vec![Asked::Exists("/opt/ff/ffmpeg".to_string()), run("/opt/ff/ffmpeg", "-version")]);
    let info = r.unwrap();
    assert_eq!(info.path, "/opt/ff/ffmpeg");
    assert_eq!(info.version, "6.1");
}

#[test]
fn probe_ignores_a_missing_override() {
    let config = ToolConfig { override_path: Some("/nowhere/qpdf".to_string()) };
    let (asked, _) = drive(
        ProbeTool::Qpdf,
        &config,
        Platform::Linux,
        vec![ProbeEvent::Exists(false), ok(""), ok("1"), ok("qpdf 10\n")],
    );
    assert_eq!(
        asked,
        vec![
            Asked::Exists("/nowhere/qpdf".to_string()),
            run("which", "qpdf"),
            run("qpdf", "--version"),
            run("qpdf", "--version")
        ]
    );
}

#[test]
fn probe_override_version_failures() {
    let config = ToolConfig { override_path: Some("/x/qpdf".to_string()) };
    let (_, r) = drive(
        ProbeTool::Qpdf,
        &config,
        Platform::Linux,
        vec![ProbeEvent::Exists(true), ProbeEvent::Ran(Err("No such file".to_string()))],
    );
    assert_eq!(r.unwrap_err(), ForgeKitError::Other("Failed to run qpdf: No such file".to_string()));
    let (_, r) = drive(ProbeTool::Qpdf, &config, Platform::Linux, vec![ProbeEvent::Exists(true), failed()]);
    assert_eq!(r.unwrap_err(), ForgeKitError::Other("qpdf --version failed".to_string()));
}

#[test]
fn probe_tries_ghostscript_names_on_windows() {
    let (asked, r) = drive(
        ProbeTool::Ghostscript,
        &no_override(),
        Platform::Windows,
        vec![failed(), ok("C:\\gs\\gswin32c.exe\r\n"), ok("10.02.1\n")],
    );
    assert_eq!(
        asked,
        vec![run("where", "gswin64c"), run("where", "gswin32c"), run("C:\\gs\\gswin32c.exe", "--version")]
    );
    let info = r.unwrap();
    assert_eq!(info.path, "C:\\gs\\gswin32c.exe");
    assert_eq!(info.version, "10.02.1");
}

#[test]
fn probe_skips_a_convert_that_is_not_imagemagick() {
    let (asked, r) = drive(
        ProbeTool::ImageMagick,
        &no_override(),
        Platform::Linux,
        vec![failed(), ok("/usr/bin/convert\n"), ok("convert 1.0 (some other tool)\n")],
    );
    assert_eq!(
        asked,
        vec![run("which", "magick"), run("which", "convert"), run("/usr/bin/convert", "--version")]
    );
    match r {
        Err(ForgeKitError::ToolNotFound { tool, .. }) => assert_eq!(tool, "imagemagick"),
        other => panic!("unexpected {:?}", other),
    }
}

#[test]
fn probe_accepts_imagemagick_by_its_version() {
    let (_, r) = drive(
        ProbeTool::ImageMagick,
        &no_override(),
        Platform::Linux,
        vec![ok("/usr/local/bin/magick\n"), ok("Version: ImageMagick 7.1.1-21 Q16-HDRI\n")],
    );
    let info = r.unwrap();
    assert_eq!(info.path, "/usr/local/bin/magick");
    assert_eq!(info.version, "Version: ImageMagick 7.1.1-21 Q16-HDRI");
}
