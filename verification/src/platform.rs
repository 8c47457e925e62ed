//! Platforms and the commands that install external tools on them.
//!
//! The platform and the Linux distribution are decided from facts that the
//! caller gathers (the build target's OS name, which release files exist);
//! the install hints are computed from them.
use vstd::prelude::*;
use crate::text::{
    contains, join, lemma_contains_self, lemma_contains_trans, lemma_contains_within,
    lemma_join_contains, push_str, str_eq, string_of,
};

verus! {

broadcast use vstd::string::group_string_axioms;

/// Operating system platform.
#[derive(Debug, Clone, Copy, PartialEq, Eq)]
pub enum Platform {
    /// macOS (Darwin)
    MacOS,
    /// Windows
    Windows,
    /// Linux (various distributions)
    Linux,
    /// Unknown/unsupported platform
    Unknown,
}

/// Linux distribution family.
#[derive(Debug, Clone, Copy, PartialEq, Eq)]
pub enum LinuxDistro {
    /// Debian/Ubuntu (apt-based)
    Debian,
    /// Fedora/RHEL/CentOS (dnf-based)
    Fedora,
    /// Arch Linux (pacman-based)
    Arch,
    /// Unknown/other
    Unknown,
}

/// The platform named by a target OS (`macos`, `windows`, `linux`).
pub open spec fn platform_of(os: Seq<char>) -> Platform {
    if os == "macos"@ {
        Platform::MacOS
    } else if os == "windows"@ {
        Platform::Windows
    } else if os == "linux"@ {
        Platform::Linux
    } else {
        Platform::Unknown
    }
}

/// Detects the platform from the name of the OS the program was built for
/// (`std::env::consts::OS`).
pub fn detect_platform(target_os: &str) -> (p: Platform)
    ensures
        p == platform_of(target_os@),
{
    if str_eq(target_os, "macos") {
        Platform::MacOS
    } else if str_eq(target_os, "windows") {
        Platform::Windows
    } else if str_eq(target_os, "linux") {
        Platform::Linux
    } else {
        Platform::Unknown
    }
}

/// The distribution that the release files present on a system point to,
/// checked in this order: `/etc/debian_version`, then `/etc/fedora-release`
/// or `/etc/redhat-release`, then `/etc/arch-release`.
pub open spec fn distro_of(debian: bool, fedora: bool, redhat: bool, arch: bool) -> LinuxDistro {
    if debian {
        LinuxDistro::Debian
    } else if fedora || redhat {
        LinuxDistro::Fedora
    } else if arch {
        LinuxDistro::Arch
    } else {
        LinuxDistro::Unknown
    }
}

/// Detects the Linux distribution from which release files exist.
pub fn detect_linux_distro(
    debian_version_exists: bool,
    fedora_release_exists: bool,
    redhat_release_exists: bool,
    arch_release_exists: bool,
) -> (d: LinuxDistro)
    ensures
        d == distro_of(
            debian_version_exists,
            fedora_release_exists,
            redhat_release_exists,
            arch_release_exists,
        ),
{
    if debian_version_exists {
        LinuxDistro::Debian
    } else if fedora_release_exists || redhat_release_exists {
        LinuxDistro::Fedora
    } else if arch_release_exists {
        LinuxDistro::Arch
    } else {
        LinuxDistro::Unknown
    }
}

/// The command prefix of a platform's package manager, when it has one
/// that takes several packages at once.
pub open spec fn manager_prefix(p: Platform, d: LinuxDistro) -> Option<Seq<char>> {
    match p {
        Platform::MacOS => Some("brew install "@),
        Platform::Windows => Some("winget install "@),
        Platform::Linux => match d {
            LinuxDistro::Debian => Some("sudo apt install "@),
            LinuxDistro::Fedora => Some("sudo dnf install "@),
            LinuxDistro::Arch => Some("sudo pacman -S "@),
            LinuxDistro::Unknown => None,
        },
        Platform::Unknown => None,
    }
}

/// How to install one tool on a platform.
pub open spec fn install_hint_spec(p: Platform, tool: Seq<char>, d: LinuxDistro) -> Seq<char> {
    match manager_prefix(p, d) {
        Some(m) => m + tool,
        None => "Install "@ + tool + " using your system's package manager"@,
    }
}

/// The text views of a list of tool names.
pub open spec fn names(tools: Seq<&str>) -> Seq<Seq<char>> {
    tools.map_values(|t: &str| t@)
}

/// How to install several tools on a platform.
pub open spec fn install_hints_spec(p: Platform, tools: Seq<Seq<char>>, d: LinuxDistro) -> Seq<
    char,
> {
    match p {
        Platform::Windows => join(tools.map_values(|t: Seq<char>| "winget install "@ + t), "\n"@),
        _ => match manager_prefix(p, d) {
            Some(m) => m + join(tools, " "@),
            None => "Install "@ + join(tools, ", "@) + " using your system's package manager"@,
        },
    }
}

/// Picks the text for a Linux distribution.
pub open spec fn by_distro(
    d: LinuxDistro,
    debian: Seq<char>,
    fedora: Seq<char>,
    arch: Seq<char>,
    other: Seq<char>,
) -> Seq<char> {
    match d {
        LinuxDistro::Debian => debian,
        LinuxDistro::Fedora => fedora,
        LinuxDistro::Arch => arch,
        LinuxDistro::Unknown => other,
    }
}

/// Picks the text for a platform.
pub open spec fn by_platform(
    p: Platform,
    mac: Seq<char>,
    windows: Seq<char>,
    linux: Seq<char>,
    other: Seq<char>,
) -> Seq<char> {
    match p {
        Platform::MacOS => mac,
        Platform::Windows => windows,
        Platform::Linux => linux,
        Platform::Unknown => other,
    }
}

/// How to install a named tool, with the special cases for tools whose
/// package names differ from the tool (Ghostscript, Tesseract, the Python
/// package ocrmypdf, libvips, ImageMagick, ExifTool), and winget's package
/// id for qpdf.
pub open spec fn tool_hint_spec(tool: Seq<char>, p: Platform, d: LinuxDistro) -> Seq<char> {
    if tool == "qpdf"@ {
        if p == Platform::Windows {
            "winget install qpdf.qpdf"@
        } else {
            install_hint_spec(p, "qpdf"@, d)
        }
    } else if tool == "gs"@ || tool == "ghostscript"@ {
        by_platform(
            p,
            "brew install ghostscript"@,
            "winget install ArtifexSoftware.GhostScript"@,
            by_distro(
                d,
                "sudo apt install ghostscript"@,
                "sudo dnf install ghostscript"@,
                "sudo pacman -S ghostscript"@,
                "Install ghostscript using your package manager"@,
            ),
            "Install ghostscript using your package manager"@,
        )
    } else if tool == "tesseract"@ {
        by_platform(
            p,
            "brew install tesseract"@,
            "winget install tesseract-ocr"@,
            by_distro(
                d,
                "sudo apt install tesseract-ocr"@,
                "sudo dnf install tesseract"@,
                "sudo pacman -S tesseract"@,
                "Install tesseract-ocr using your package manager"@,
            ),
            "Install tesseract using your package manager"@,
        )
    } else if tool == "ocrmypdf"@ {
        by_platform(
            p,
            "pip3 install ocrmypdf"@,
            "pip install ocrmypdf"@,
            "pip3 install ocrmypdf"@,
            "pip install ocrmypdf"@,
        )
    } else if tool == "ffmpeg"@ {
        install_hint_spec(p, "ffmpeg"@, d)
    } else if tool == "libvips"@ {
        by_platform(
            p,
            "brew install libvips"@,
            "scoop install libvips"@,
            by_distro(
                d,
                "sudo apt install libvips-tools"@,
                "sudo dnf install libvips"@,
                "sudo pacman -S libvips"@,
                "Install libvips-tools using your package manager"@,
            ),
            "Install libvips using your package manager"@,
        )
    } else if tool == "imagemagick"@ || tool == "convert"@ {
        by_platform(
            p,
            "brew install imagemagick"@,
            "scoop install imagemagick"@,
            by_distro(
                d,
                "sudo apt install imagemagick"@,
                "sudo dnf install ImageMagick"@,
                "sudo pacman -S imagemagick"@,
                "Install imagemagick using your package manager"@,
            ),
            "Install imagemagick using your package manager"@,
        )
    } else if tool == "exiftool"@ {
        by_platform(
            p,
            "brew install exiftool"@,
            "scoop install exiftool"@,
            by_distro(
                d,
                "sudo apt install libimage-exiftool-perl"@,
                "sudo dnf install perl-Image-ExifTool"@,
                "sudo pacman -S perl-image-exiftool"@,
                "Install libimage-exiftool-perl using your package manager"@,
            ),
            "Install exiftool using your package manager"@,
        )
    } else {
        install_hint_spec(p, tool, d)
    }
}

fn pick_distro(d: LinuxDistro, debian: &str, fedora: &str, arch: &str, other: &str) -> (r: String)
    ensures
        r@ == by_distro(d, debian@, fedora@, arch@, other@),
{
    match d {
        LinuxDistro::Debian => string_of(debian),
        LinuxDistro::Fedora => string_of(fedora),
        LinuxDistro::Arch => string_of(arch),
        LinuxDistro::Unknown => string_of(other),
    }
}

fn pick_platform(p: Platform, mac: &str, windows: &str, linux: String, other: &str) -> (r: String)
    ensures
        r@ == by_platform(p, mac@, windows@, linux@, other@),
{
    match p {
        Platform::MacOS => string_of(mac),
        Platform::Windows => string_of(windows),
        Platform::Linux => linux,
        Platform::Unknown => string_of(other),
    }
}

impl Platform {
    /// The package manager command prefix, if the platform has one.
    fn manager(&self, distro: LinuxDistro) -> (r: Option<&'static str>)
        ensures
            match manager_prefix(*self, distro) {
                Some(m) => r matches Some(s) && s@ == m,
                None => r is None,
            },
    {
        match self {
            Platform::MacOS => Some("brew install "),
            Platform::Windows => Some("winget install "),
            Platform::Linux => match distro {
                LinuxDistro::Debian => Some("sudo apt install "),
                LinuxDistro::Fedora => Some("sudo dnf install "),
                LinuxDistro::Arch => Some("sudo pacman -S "),
                LinuxDistro::Unknown => None,
            },
            Platform::Unknown => None,
        }
    }

    /// Install instructions for one tool on this platform; `distro` is the
    /// distribution in use when the platform is Linux.
    pub fn install_hint(&self, tool: &str, distro: LinuxDistro) -> (r: String)
        ensures
            r@ == install_hint_spec(*self, tool@, distro),
    {
        match self.manager(distro) {
            Some(m) => {
                let mut r = string_of(m);
                push_str(&mut r, tool);
                r
            },
            None => {
                let mut r = string_of("Install ");
                push_str(&mut r, tool);
                push_str(&mut r, " using your system's package manager");
                r
            },
        }
    }

    /// Install instructions for several tools on this platform: one command
    /// for all of them, or on Windows one `winget` line per tool.
    pub fn install_hints(&self, tools: &[&str], distro: LinuxDistro) -> (r: String)
        ensures
            r@ == install_hints_spec(*self, names(tools@), distro),
    {
        let ghost all = names(tools@);
        match self {
            Platform::Windows => {
                let ghost lines = all.map_values(|t: Seq<char>| "winget install "@ + t);
                let mut r = String::new();
                let n = tools.len();
                for i in 0..n
                    invariant
                        n == tools@.len(),
                        all == names(tools@),
                        lines == all.map_values(|t: Seq<char>| "winget install "@ + t),
                        r@ == join(lines.take(i as int), "\n"@),
                {
                    proof {
                        crate::pages::lemma_join_push(lines.take(i as int), lines[i as int], "\n"@);
                        assert(lines.take(i + 1) =~= lines.take(i as int).push(lines[i as int]));
                    }
                    if i > 0 {
                        push_str(&mut r, "\n");
                    }
                    push_str(&mut r, "winget install ");
                    push_str(&mut r, tools[i]);
                }
                assert(lines.take(n as int) =~= lines);
                r
            },
            _ => {
                match self.manager(distro) {
                    Some(m) => {
                        let mut r = string_of(m);
                        push_joined(&mut r, tools, " ");
                        r
                    },
                    None => {
                        let mut r = string_of("Install ");
                        push_joined(&mut r, tools, ", ");
                        push_str(&mut r, " using your system's package manager");
                        r
                    },
                }
            },
        }
    }
}

/// Appends the names joined with `sep`.
fn push_joined(r: &mut String, tools: &[&str], sep: &str)
    ensures
        final(r)@ == old(r)@ + join(names(tools@), sep@),
{
    let ghost all = names(tools@);
    let ghost start = r@;
    let n = tools.len();
    for i in 0..n
        invariant
            n == tools@.len(),
            all == names(tools@),
            r@ == start + join(all.take(i as int), sep@),
    {
        proof {
            crate::pages::lemma_join_push(all.take(i as int), all[i as int], sep@);
            assert(all.take(i + 1) =~= all.take(i as int).push(all[i as int]));
        }
        if i > 0 {
            push_str(r, sep);
        }
        push_str(r, tools[i]);
    }
    assert(all.take(n as int) =~= all);
}

/// Tool-specific install hints (handles special cases like Python packages).
pub struct ToolInstallHints;

impl ToolInstallHints {
    /// Install hint for a tool on the given platform (and distribution,
    /// when the platform is Linux).
    pub fn for_tool(tool: &str, platform: Platform, distro: LinuxDistro) -> (r: String)
        ensures
            r@ == tool_hint_spec(tool@, platform, distro),
    {
        if str_eq(tool, "qpdf") {
            match platform {
                Platform::Windows => string_of("winget install qpdf.qpdf"),
                _ => platform.install_hint("qpdf", distro),
            }
        } else if str_eq(tool, "gs") || str_eq(tool, "ghostscript") {
            pick_platform(
                platform,
                "brew install ghostscript",
                "winget install ArtifexSoftware.GhostScript",
                pick_distro(
                    distro,
                    "sudo apt install ghostscript",
                    "sudo dnf install ghostscript",
                    "sudo pacman -S ghostscript",
                    "Install ghostscript using your package manager",
                ),
                "Install ghostscript using your package manager",
            )
        } else if str_eq(tool, "tesseract") {
            pick_platform(
                platform,
                "brew install tesseract",
                "winget install tesseract-ocr",
                pick_distro(
                    distro,
                    "sudo apt install tesseract-ocr",
                    "sudo dnf install tesseract",
                    "sudo pacman -S tesseract",
                    "Install tesseract-ocr using your package manager",
                ),
                "Install tesseract using your package manager",
            )
        } else if str_eq(tool, "ocrmypdf") {
            pick_platform(
                platform,
                "pip3 install ocrmypdf",
                "pip install ocrmypdf",
                string_of("pip3 install ocrmypdf"),
                "pip install ocrmypdf",
            )
        } else if str_eq(tool, "ffmpeg") {
            platform.install_hint("ffmpeg", distro)
        } else if str_eq(tool, "libvips") {
            pick_platform(
                platform,
                "brew install libvips",
                "scoop install libvips",
                pick_distro(
                    distro,
                    "sudo apt install libvips-tools",
                    "sudo dnf install libvips",
                    "sudo pacman -S libvips",
                    "Install libvips-tools using your package manager",
                ),
                "Install libvips using your package manager",
            )
        } else if str_eq(tool, "imagemagick") || str_eq(tool, "convert") {
            pick_platform(
                platform,
                "brew install imagemagick",
                "scoop install imagemagick",
                pick_distro(
                    distro,
                    "sudo apt install imagemagick",
                    "sudo dnf install ImageMagick",
                    "sudo pacman -S imagemagick",
                    "Install imagemagick using your package manager",
                ),
                "Install imagemagick using your package manager",
            )
        } else if str_eq(tool, "exiftool") {
            pick_platform(
                platform,
                "brew install exiftool",
                "scoop install exiftool",
                pick_distro(
                    distro,
                    "sudo apt install libimage-exiftool-perl",
                    "sudo dnf install perl-Image-ExifTool",
                    "sudo pacman -S perl-image-exiftool",
                    "Install libimage-exiftool-perl using your package manager",
                ),
                "Install exiftool using your package manager",
            )
        } else {
            platform.install_hint(tool, distro)
        }
    }
}


/// Every single-tool install hint names the tool.
pub proof fn law_install_hint_names_tool(p: Platform, tool: Seq<char>, d: LinuxDistro)
    ensures
        contains(install_hint_spec(p, tool, d), tool),
{
    lemma_contains_self(tool);
    match manager_prefix(p, d) {
        Some(m) => {
            lemma_contains_within(m, tool, Seq::<char>::empty(), tool);
            assert(m + tool + Seq::<char>::empty() =~= m + tool);
        },
        None => {
            lemma_contains_within("Install "@, tool, " using your system's package manager"@, tool);
        },
    }
}

/// The install hint for several tools names each of them.
pub proof fn law_install_hints_name_each(p: Platform, tools: Seq<Seq<char>>, d: LinuxDistro, k: int)
    requires
        0 <= k < tools.len(),
    ensures
        contains(install_hints_spec(p, tools, d), tools[k]),
{
    match p {
        Platform::Windows => {
            let lines = tools.map_values(|t: Seq<char>| "winget install "@ + t);
            lemma_join_contains(lines, "\n"@, k);
            lemma_contains_self(tools[k]);
            lemma_contains_within("winget install "@, tools[k], Seq::<char>::empty(), tools[k]);
            assert("winget install "@ + tools[k] + Seq::<char>::empty() =~= lines[k]);
            lemma_contains_trans(join(lines, "\n"@), lines[k], tools[k]);
        },
        _ => match manager_prefix(p, d) {
            Some(m) => {
                lemma_join_contains(tools, " "@, k);
                lemma_contains_within(m, join(tools, " "@), Seq::<char>::empty(), tools[k]);
                assert(m + join(tools, " "@) + Seq::<char>::empty() =~= m + join(tools, " "@));
            },
            None => {
                lemma_join_contains(tools, ", "@, k);
                lemma_contains_within(
                    "Install "@,
                    join(tools, ", "@),
                    " using your system's package manager"@,
                    tools[k],
                );
            },
        },
    }
}

} // verus!
