use forgekit::platform::{detect_linux_distro, detect_platform, LinuxDistro, Platform, ToolInstallHints};
use std::path::Path;

fn host_platform() -> Platform {
    detect_platform("linux")
}

fn host_distro() -> LinuxDistro {
    detect_linux_distro(
        Path::new("/etc/debian_version").exists(),
        Path::new("/etc/fedora-release").exists(),
        Path::new("/etc/redhat-release").exists(),
        Path::new("/etc/arch-release").exists(),
    )
}

#[test]
fn test_platform_detection() {
    let platform = host_platform();
    assert_ne!(platform, Platform::Unknown);
}

#[test]
fn test_install_hint_macos() {
    let platform = Platform::MacOS;
    assert_eq!(platform.install_hint("qpdf", host_distro()), "brew install qpdf");
}

#[test]
fn test_tool_install_hints() {
    let hint = ToolInstallHints::for_tool("qpdf", host_platform(), host_distro());
    assert!(!hint.is_empty());
    assert!(hint.contains("qpdf") || hint.contains("install"));
}

#[test]
fn test_platform_detection_consistency() {
    let platform1 = host_platform();
    let platform2 = host_platform();
    assert_eq!(platform1, platform2);
    if platform1 != Platform::Unknown {
        let hint = platform1.install_hint("qpdf", host_distro());
        assert!(!hint.is_empty());
        assert!(hint.contains("qpdf"));
    }
}

#[test]
fn test_tool_install_hints_platform_specific() {
    let tools = vec!["qpdf", "gs", "tesseract", "ocrmypdf", "ffmpeg", "libvips", "exiftool"];
    for tool_name in tools {
        let hint = ToolInstallHints::for_tool(tool_name, host_platform(), host_distro());
        assert!(!hint.is_empty(), "Install hint for {} should not be empty", tool_name);
        assert!(
            hint.contains(tool_name) || hint.contains("install"),
            "Install hint for {} should mention the tool or installation: {}",
            tool_name,
            hint
        );
        let platform = host_platform();
        match platform {
            Platform::MacOS => {
                assert!(hint.contains("brew") || hint.contains("pip"));
            }
            Platform::Windows => {
                assert!(hint.contains("winget") || hint.contains("scoop") || hint.contains("pip"));
            }
            Platform::Linux => {
                assert!(
                    hint.contains("apt")
                        || hint.contains("dnf")
                        || hint.contains("pacman")
                        || hint.contains("pip"),
                    "Linux hint for {} should mention apt, dnf, pacman, or pip: {}",
                    tool_name,
                    hint
                );
            }
            Platform::Unknown => {
                assert!(!hint.is_empty());
            }
        }
    }
}

#[test]
fn test_tool_install_hints_special_cases() {
    let ocr_hint = ToolInstallHints::for_tool("ocrmypdf", host_platform(), host_distro());
    assert!(ocr_hint.contains("pip") || ocr_hint.contains("ocrmypdf"));
    let tesseract_hint = ToolInstallHints::for_tool("tesseract", host_platform(), host_distro());
    assert!(tesseract_hint.contains("tesseract"));
    let libvips_hint = ToolInstallHints::for_tool("libvips", host_platform(), host_distro());
    assert!(libvips_hint.contains("libvips") || libvips_hint.contains("vips"));
    let exiftool_hint = ToolInstallHints::for_tool("exiftool", host_platform(), host_distro());
    assert!(exiftool_hint.contains("exiftool") || exiftool_hint.contains("exif"));
}

#[test]
fn test_platform_install_hints_bulk() {
    let platform = host_platform();
    let tools = vec!["qpdf", "gs", "tesseract"];
    let bulk_hint = platform.install_hints(&tools, host_distro());
    assert!(!bulk_hint.is_empty());
    for tool in &tools {
        assert!(bulk_hint.contains(tool) || bulk_hint.contains("install"));
    }
}

#[test]
fn platform_names_map_to_platforms() {
    assert_eq!(detect_platform("macos"), Platform::MacOS);
    assert_eq!(detect_platform("windows"), Platform::Windows);
    assert_eq!(detect_platform("linux"), Platform::Linux);
    assert_eq!(detect_platform("freebsd"), Platform::Unknown);
}

#[test]
fn distributions_are_checked_in_order() {
    assert_eq!(detect_linux_distro(true, true, false, true), LinuxDistro::Debian);
    assert_eq!(detect_linux_distro(false, false, true, true), LinuxDistro::Fedora);
    assert_eq!(detect_linux_distro(false, false, false, true), LinuxDistro::Arch);
    assert_eq!(detect_linux_distro(false, false, false, false), LinuxDistro::Unknown);
}

#[test]
fn install_hints_per_distribution() {
    assert_eq!(Platform::Linux.install_hint("qpdf", LinuxDistro::Debian), "sudo apt install qpdf");
    assert_eq!(Platform::Linux.install_hint("qpdf", LinuxDistro::Fedora), "sudo dnf install qpdf");
    assert_eq!(Platform::Linux.install_hint("qpdf", LinuxDistro::Arch), "sudo pacman -S qpdf");
    assert_eq!(
        Platform::Linux.install_hints(&["qpdf", "gs"], LinuxDistro::Debian),
        "sudo apt install qpdf gs"
    );
    assert_eq!(
        ToolInstallHints::for_tool("gs", Platform::Linux, LinuxDistro::Arch),
        "sudo pacman -S ghostscript"
    );
    for p in [Platform::MacOS, Platform::Windows, Platform::Linux, Platform::Unknown] {
        for d in [LinuxDistro::Debian, LinuxDistro::Fedora, LinuxDistro::Arch, LinuxDistro::Unknown] {
            assert!(p.install_hint("ffmpeg", d).contains("ffmpeg"));
        }
    }
}

#[test]
fn windows_qpdf_hint_uses_the_winget_package_id() {
    assert_eq!(ToolInstallHints::for_tool("qpdf", Platform::Windows, LinuxDistro::Unknown), "winget install qpdf.qpdf");
    assert_eq!(
        ToolInstallHints::for_tool("gs", Platform::Windows, LinuxDistro::Unknown),
        "winget install ArtifexSoftware.GhostScript"
    );
    assert_eq!(ToolInstallHints::for_tool("qpdf", Platform::MacOS, LinuxDistro::Unknown), "brew install qpdf");
}
