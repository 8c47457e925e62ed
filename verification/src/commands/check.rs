//! `check-deps`: the report on which external tools were found, and how
//! to install the missing ones.
use vstd::prelude::*;
use crate::error::ForgeKitError;
use crate::platform::Platform;
use crate::text::{push_str, push_string, push_text, string_of, texts};
use crate::tools::ToolInfo;

verus! {

broadcast use vstd::string::group_string_axioms;

/// What looking up one tool gave: its name, the probe's result, and how
/// the probe's error reads when it is not a missing tool.
pub struct ToolCheck {
    pub name: String,
    pub probe: Result<ToolInfo, ForgeKitError>,
    pub error_text: String,
}

/// The platform's name as the report shows it.
pub open spec fn platform_label(p: Platform) -> Seq<char> {
    match p {
        Platform::MacOS => "macOS"@,
        Platform::Windows => "Windows"@,
        Platform::Linux => "Linux"@,
        Platform::Unknown => "Unknown"@,
    }
}

/// Whether a probe found a working tool.
pub open spec fn probe_ok(p: Result<ToolInfo, ForgeKitError>) -> bool {
    p matches Ok(info) && info.available
}

/// The lines reported for one tool, ending with an empty line.
pub open spec fn tool_lines(c: ToolCheck) -> Seq<Seq<char>> {
    match c.probe {
        Ok(info) => if info.available {
            seq!["✓ "@ + c.name@ + ": found at "@ + info.path@, "  Version: "@ + info.version@, Seq::empty()]
        } else {
            seq!["✗ "@ + c.name@ + ": not available"@, Seq::empty()]
        },
        Err(e) => seq![
            "✗ "@ + c.name@ + ": not found"@,
            match e {
                ForgeKitError::ToolNotFound { hint, .. } => "  Install: "@ + hint@,
                _ => "  Error: "@ + c.error_text@,
            },
            Seq::empty(),
        ],
    }
}

/// The lines reported for each tool in turn.
pub open spec fn checks_lines(cs: Seq<ToolCheck>) -> Seq<Seq<char>>
    decreases cs.len(),
{
    if cs.len() == 0 {
        Seq::empty()
    } else {
        checks_lines(cs.drop_last()) + tool_lines(cs.last())
    }
}

/// Whether every tool was found working.
pub open spec fn all_found(cs: Seq<ToolCheck>) -> bool {
    forall|i: int| 0 <= i < cs.len() ==> #[trigger] probe_ok(cs[i].probe)
}

/// How to install every dependency at once on a platform.
pub open spec fn install_all_lines(p: Platform) -> Seq<Seq<char>> {
    match p {
        Platform::MacOS => seq![
            "  brew install qpdf pdfcpu tesseract ffmpeg libvips exiftool"@,
            "  pip3 install ocrmypdf"@,
        ],
        Platform::Windows => seq![
            "  winget install qpdf.qpdf pdfcpu.pdfcpu tesseract-ocr ffmpeg"@,
            "  scoop install libvips exiftool"@,
            "  pip install ocrmypdf"@,
        ],
        Platform::Linux => seq![
            "  # Debian/Ubuntu:"@,
            "  sudo apt install qpdf pdfcpu tesseract-ocr ffmpeg libvips-tools libimage-exiftool-perl"@,
            "  pip3 install ocrmypdf"@,
            "\n  # Fedora/RHEL:"@,
            "  sudo dnf install qpdf pdfcpu tesseract ffmpeg libvips perl-Image-ExifTool"@,
            "  pip3 install ocrmypdf"@,
            "\n  # Arch Linux:"@,
            "  sudo pacman -S qpdf pdfcpu tesseract ffmpeg libvips perl-image-exiftool"@,
            "  pip3 install ocrmypdf"@,
        ],
        Platform::Unknown => seq!["  Install dependencies using your system's package manager"@],
    }
}

/// The closing lines: success, or what is missing and how to install it.
pub open spec fn closing_lines(p: Platform, ok: bool) -> Seq<Seq<char>> {
    if ok {
        seq!["✓ All dependencies are installed!"@]
    } else {
        seq![
            "✗ Some dependencies are missing.\n"@,
            "Install missing dependencies individually, or install all at once:\n"@,
        ] + install_all_lines(p)
    }
}

/// The whole report, one printed line per item: a header naming the
/// platform, the lines of each tool, and the closing lines.
pub open spec fn deps_report_spec(p: Platform, cs: Seq<ToolCheck>) -> Seq<Seq<char>> {
    seq!["Checking ForgeKit dependencies..."@, "Platform: "@ + platform_label(p) + "\n"@] + checks_lines(cs)
        + closing_lines(p, all_found(cs))
}

/// The platform's name as the report shows it.
pub fn platform_label_of(p: Platform) -> (r: &'static str)
    ensures
        r@ == platform_label(p),
{
    match p {
        Platform::MacOS => "macOS",
        Platform::Windows => "Windows",
        Platform::Linux => "Linux",
        Platform::Unknown => "Unknown",
    }
}

/// Appends the lines reported for one tool; tells whether it was found.
fn push_tool_lines(out: &mut Vec<String>, c: &ToolCheck) -> (ok: bool)
    ensures
        texts(final(out)@) == texts(old(out)@) + tool_lines(*c),
        ok == probe_ok(c.probe),
{
    proof {
        reveal_strlit("");
        assert(""@ =~= Seq::<char>::empty());
    }
    let ghost start = texts(out@);
    match &c.probe {
        Ok(info) => if info.available {
            let mut a = string_of("✓ ");
            push_str(&mut a, c.name.as_str());
            push_str(&mut a, ": found at ");
            push_str(&mut a, info.path.as_str());
            push_string(out, a);
            let mut b = string_of("  Version: ");
            push_str(&mut b, info.version.as_str());
            push_string(out, b);
            push_text(out, "");
            assert(texts(out@) =~= start + tool_lines(*c));
            true
        } else {
            let mut a = string_of("✗ ");
            push_str(&mut a, c.name.as_str());
            push_str(&mut a, ": not available");
            push_string(out, a);
            push_text(out, "");
            assert(texts(out@) =~= start + tool_lines(*c));
            false
        },
        Err(e) => {
            let mut a = string_of("✗ ");
            push_str(&mut a, c.name.as_str());
            push_str(&mut a, ": not found");
            push_string(out, a);
            match e {
                ForgeKitError::ToolNotFound { hint, .. } => {
                    let mut b = string_of("  Install: ");
                    push_str(&mut b, hint.as_str());
                    push_string(out, b);
                },
                _ => {
                    let mut b = string_of("  Error: ");
                    push_str(&mut b, c.error_text.as_str());
                    push_string(out, b);
                },
            }
            push_text(out, "");
            assert(texts(out@) =~= start + tool_lines(*c));
            false
        },
    }
}

/// Appends how to install every dependency at once.
fn push_install_all(out: &mut Vec<String>, p: Platform)
    ensures
        texts(final(out)@) == texts(old(out)@) + install_all_lines(p),
{
    let ghost start = texts(out@);
    match p {
        Platform::MacOS => {
            push_text(out, "  brew install qpdf pdfcpu tesseract ffmpeg libvips exiftool");
            push_text(out, "  pip3 install ocrmypdf");
        },
        Platform::Windows => {
            push_text(out, "  winget install qpdf.qpdf pdfcpu.pdfcpu tesseract-ocr ffmpeg");
            push_text(out, "  scoop install libvips exiftool");
            push_text(out, "  pip install ocrmypdf");
        },
        Platform::Linux => {
            push_text(out, "  # Debian/Ubuntu:");
            push_text(out, "  sudo apt install qpdf pdfcpu tesseract-ocr ffmpeg libvips-tools libimage-exiftool-perl");
            push_text(out, "  pip3 install ocrmypdf");
            push_text(out, "\n  # Fedora/RHEL:");
            push_text(out, "  sudo dnf install qpdf pdfcpu tesseract ffmpeg libvips perl-Image-ExifTool");
            push_text(out, "  pip3 install ocrmypdf");
            push_text(out, "\n  # Arch Linux:");
            push_text(out, "  sudo pacman -S qpdf pdfcpu tesseract ffmpeg libvips perl-image-exiftool");
            push_text(out, "  pip3 install ocrmypdf");
        },
        Platform::Unknown => {
            push_text(out, "  Install dependencies using your system's package manager");
        },
    }
    assert(texts(out@) =~= start + install_all_lines(p));
}

/// The `check-deps` report, one printed line per item.
pub fn deps_report(p: Platform, checks: &[ToolCheck]) -> (r: Vec<String>)
    ensures
        texts(r@) == deps_report_spec(p, checks@),
{
    let mut out: Vec<String> = Vec::new();
    push_text(&mut out, "Checking ForgeKit dependencies...");
    let mut h = string_of("Platform: ");
    push_str(&mut h, platform_label_of(p));
    push_str(&mut h, "\n");
    push_string(&mut out, h);
    let ghost head = texts(out@);
    let mut ok = true;
    let n = checks.len();
    for i in 0..n
        invariant
            n == checks@.len(),
            texts(out@) == head + checks_lines(checks@.take(i as int)),
            ok == all_found(checks@.take(i as int)),
    {
        let found = push_tool_lines(&mut out, &checks[i]);
        proof {
            let prev = checks@.take(i as int);
            let cs = checks@.take(i as int + 1);
            assert(cs.drop_last() =~= prev);
            assert(cs.last() == checks@[i as int]);
            if all_found(prev) && found {
                assert forall|j: int| 0 <= j < cs.len() implies #[trigger] probe_ok(cs[j].probe) by {
                    if j < i {
                        assert(cs[j] == prev[j]);
                        assert(probe_ok(prev[j].probe));
                    }
                }
            }
            if all_found(cs) {
                assert forall|j: int| 0 <= j < prev.len() implies #[trigger] probe_ok(prev[j].probe) by {
                    assert(cs[j] == prev[j]);
                    assert(probe_ok(cs[j].probe));
                }
                assert(probe_ok(cs[i as int].probe));
            }
        }
        ok = ok && found;
    }
    assert(checks@.take(n as int) =~= checks@);
    if ok {
        push_text(&mut out, "✓ All dependencies are installed!");
    } else {
        push_text(&mut out, "✗ Some dependencies are missing.\n");
        push_text(&mut out, "Install missing dependencies individually, or install all at once:\n");
        push_install_all(&mut out, p);
    }
    assert(texts(out@) =~= deps_report_spec(p, checks@));
    out
}

} // verus!
