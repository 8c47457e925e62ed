use forgekit::error::ForgeKitError;
use forgekit::platform::{LinuxDistro, Platform};
use forgekit::tools::probe::{probe_begin, probe_step, ProbeAction, ProbeEvent, ProbeTool};
use forgekit::tools::{ToolConfig, ToolInfo};

/// A simulated machine: the programs on `PATH` (name, full path, what the
/// version flag prints) and the files that exist.
struct Machine {
    programs: Vec<(&'static str, &'static str, &'static str)>,
}

impl Machine {
    fn empty() -> Machine {
        Machine { programs: vec![] }
    }

    fn with(name: &'static str, path: &'static str, version: &'static str) -> Machine {
        Machine { programs: vec![(name, path, version)] }
    }

    fn answer(&self, action: &ProbeAction) -> ProbeEvent {
        match action {
            ProbeAction::CheckExists(path) => {
                ProbeEvent::Exists(self.programs.iter().any(|(_, p, _)| *p == path.as_str()))
            }
            ProbeAction::Run { program, arg } if program.as_str() == "which" || program.as_str() == "where" => {
                match self.programs.iter().find(|(n, _, _)| *n == arg.as_str()) {
                    Some((_, p, _)) => ProbeEvent::Ran(Ok((true, format!("{}\n", p)))),
                    None => ProbeEvent::Ran(Ok((false, String::new()))),
                }
            }
            ProbeAction::Run { program, .. } => match self.programs.iter().find(|(n, p, _)| *p == program.as_str() || *n == program.as_str()) {
                Some((_, _, v)) => ProbeEvent::Ran(Ok((true, v.to_string()))),
                None => ProbeEvent::Ran(Err("No such file or directory (os error 2)".to_string())),
            },
            ProbeAction::Finish(_) => unreachable!(),
        }
    }

    /// Looks a tool up on this machine, answering each action of the probe.
    fn probe(&self, tool: ProbeTool, config: &ToolConfig) -> Result<ToolInfo, ForgeKitError> {
        let (p, d) = (Platform::Linux, LinuxDistro::Debian);
        let (mut state, mut action) = probe_begin(tool, config, p, d);
        loop {
            if let ProbeAction::Finish(result) = action {
                return result;
            }
            let event = self.answer(&action);
            let (s, a) = probe_step(tool, p, d, &state, &event);
            state = s;
            action = a;
        }
    }
}

/// The machines a probe test runs on: the tool installed, and absent.
fn machines(name: &'static str, path: &'static str, version: &'static str) -> Vec<Machine> {
    vec![Machine::with(name, path, version), Machine::empty()]
}

fn check_found_or_missing(tool: ProbeTool, name: &'static str, path: &'static str, version: &'static str) {
    for m in machines(name, path, version) {
        match m.probe(tool, &ToolConfig::default()) {
            Ok(info) => {
                assert!(info.available);
                assert!(!info.version.is_empty());
            }
            Err(ForgeKitError::ToolNotFound { .. }) => {}
            Err(e) => panic!("Unexpected error: {:?}", e),
        }
    }
}

#[test]
fn test_qpdf_probe() {
    check_found_or_missing(ProbeTool::Qpdf, "qpdf", "/usr/bin/qpdf", "qpdf version 11.9.0\n");
}

#[test]
fn test_gs_probe() {
    check_found_or_missing(ProbeTool::Ghostscript, "gs", "/usr/bin/gs", "10.02.1\n");
}

#[test]
fn test_ocrmypdf_probe() {
    check_found_or_missing(ProbeTool::Ocrmypdf, "ocrmypdf", "/usr/bin/ocrmypdf", "16.0.4\n");
}

#[test]
fn test_exiftool_probe() {
    check_found_or_missing(ProbeTool::Exiftool, "exiftool", "/usr/bin/exiftool", "12.76\n");
}

#[test]
fn test_libvips_probe() {
    check_found_or_missing(ProbeTool::Libvips, "vips", "/usr/bin/vips", "vips-8.15.1\n");
}

#[test]
fn test_ffmpeg_probe() {
    for m in machines("ffmpeg", "/usr/bin/ffmpeg", "ffmpeg version 6.1.1 Copyright (c) 2000-2023\n") {
        if let Ok(info) = m.probe(ProbeTool::Ffmpeg, &ToolConfig::default()) {
            assert!(info.available);
            assert!(!info.version.is_empty());
        }
    }
}

#[test]
fn test_imagemagick_probe() {
    for m in machines("magick", "/usr/bin/magick", "Version: ImageMagick 7.1.1-21 Q16-HDRI\n") {
        match m.probe(ProbeTool::ImageMagick, &ToolConfig::default()) {
            Ok(info) => {
                assert!(info.available);
                assert!(!info.version.is_empty());
                assert!(info.version.to_lowercase().contains("imagemagick"));
            }
            Err(ForgeKitError::ToolNotFound { .. }) => {}
            Err(e) => panic!("Unexpected error: {:?}", e),
        }
    }
}

#[test]
fn test_tool_probe_with_override_path() {
    let config = ToolConfig { override_path: Some("/nonexistent/qpdf".to_string()) };
    for m in machines("qpdf", "/usr/bin/qpdf", "qpdf version 11.9.0\n") {
        match m.probe(ProbeTool::Qpdf, &config) {
            Ok(info) => {
                assert!(info.available);
                assert_ne!(info.path, "/nonexistent/qpdf");
            }
            Err(ForgeKitError::ToolNotFound { hint, .. }) => {
                assert!(!hint.is_empty());
            }
            Err(e) => panic!("Unexpected error type: {:?}", e),
        }
    }
}

#[test]
fn test_tool_probe_path_fallback() {
    for m in machines("qpdf", "/usr/bin/qpdf", "qpdf version 11.9.0\n") {
        match m.probe(ProbeTool::Qpdf, &ToolConfig::default()) {
            Ok(info) => {
                assert!(info.available);
                assert!(!info.version.is_empty());
                assert!(!info.path.is_empty());
            }
            Err(ForgeKitError::ToolNotFound { hint, .. }) => {
                assert!(!hint.is_empty());
                assert!(hint.contains("qpdf") || hint.contains("install"));
            }
            Err(e) => panic!("Unexpected error type: {:?}", e),
        }
    }
}

#[test]
fn test_multiple_tools_checking() {
    for m in machines("qpdf", "/usr/bin/qpdf", "qpdf version 11.9.0\n") {
        let tools = vec![("qpdf", ProbeTool::Qpdf)];
        let mut found_count = 0;
        let mut missing_count = 0;
        for (name, tool) in tools {
            match m.probe(tool, &ToolConfig::default()) {
                Ok(info) => {
                    if info.available {
                        found_count += 1;
                        assert!(!info.version.is_empty(), "Tool {} should have a version", name);
                        assert!(!info.path.is_empty(), "Tool {} should have a path", name);
                    } else {
                        missing_count += 1;
                    }
                }
                Err(ForgeKitError::ToolNotFound { hint, .. }) => {
                    missing_count += 1;
                    assert!(!hint.is_empty(), "Missing tool {} should have an install hint", name);
                }
                Err(e) => panic!("Unexpected error checking {}: {:?}", name, e),
            }
        }
        assert!(found_count + missing_count > 0, "Should have checked at least one tool");
    }
}

#[test]
fn test_tool_version_parsing() {
    for m in machines("qpdf", "/usr/bin/qpdf", "qpdf version 11.9.0\n") {
        match m.probe(ProbeTool::Qpdf, &ToolConfig::default()) {
            Ok(info) => {
                assert!(!info.version.is_empty());
                let again = m.probe(ProbeTool::Qpdf, &ToolConfig { override_path: Some(info.path.clone()) });
                assert!(again.is_ok());
                assert!(!again.unwrap().version.is_empty());
            }
            Err(ForgeKitError::ToolNotFound { .. }) => {}
            Err(e) => panic!("Unexpected error: {:?}", e),
        }
    }
}
