//! Finding a tool: the decisions taken between checking that an override
//! path exists, looking a program up on `PATH` and asking a program for its
//! version.  The caller performs each action and answers with what came of
//! it; the probe then decides the next action, until it finishes with the
//! tool's path and version or with the reason it was not found.
use vstd::prelude::*;
use crate::error::{ErrorView, ForgeKitError};
use crate::job::spec::opt_view;
use crate::platform::{LinuxDistro, Platform, ToolInstallHints, tool_hint_spec};
use crate::text::{first_line, first_line_of, from_chars, push_str, string_of, trim, trim_chars};
use crate::tools::{ToolConfig, ToolInfo, first_line_version, version_from_output};
use crate::tools::ffmpeg::{FfmpegTool, ffmpeg_version};
use crate::tools::imagemagick::{ImageMagickTool, names_imagemagick};

verus! {

broadcast use vstd::string::group_string_axioms;

/// The tools the toolkit looks for.
#[derive(Debug, Clone, Copy, PartialEq, Eq)]
pub enum ProbeTool {
    Qpdf,
    Ghostscript,
    Ocrmypdf,
    Exiftool,
    Libvips,
    Ffmpeg,
    ImageMagick,
}

/// The tool's name in errors and in the message of a failed run.
pub open spec fn tool_label(t: ProbeTool) -> Seq<char> {
    match t {
        ProbeTool::Qpdf => "qpdf"@,
        ProbeTool::Ghostscript => "gs"@,
        ProbeTool::Ocrmypdf => "ocrmypdf"@,
        ProbeTool::Exiftool => "exiftool"@,
        ProbeTool::Libvips => "vips"@,
        ProbeTool::Ffmpeg => "ffmpeg"@,
        ProbeTool::ImageMagick => "imagemagick"@,
    }
}

/// The name whose install hint a missing tool reports.
pub open spec fn hint_name(t: ProbeTool) -> Seq<char> {
    match t {
        ProbeTool::Libvips => "libvips"@,
        _ => tool_label(t),
    }
}

/// The argument that makes the tool print its version.
pub open spec fn version_flag(t: ProbeTool) -> Seq<char> {
    match t {
        ProbeTool::Exiftool => "-ver"@,
        ProbeTool::Ffmpeg => "-version"@,
        _ => "--version"@,
    }
}

/// The version read from what the version flag printed.
pub open spec fn version_text(t: ProbeTool, stdout: Seq<char>) -> Seq<char> {
    match t {
        ProbeTool::Ffmpeg => ffmpeg_version(stdout),
        _ => first_line_version(stdout),
    }
}

/// Whether the tool is looked up under one program name, falling back on
/// the bare name; the others try candidate programs in turn.
pub open spec fn searched_once(t: ProbeTool) -> bool {
    !(t is Ghostscript || t is ImageMagick)
}

/// The candidate programs, in the order they are tried; for a tool looked
/// up once, its one program.
pub open spec fn candidates(t: ProbeTool, p: Platform) -> Seq<Seq<char>> {
    match t {
        ProbeTool::Ghostscript => if p == Platform::Windows {
            seq!["gswin64c"@, "gswin32c"@, "gs"@]
        } else {
            seq!["gs"@]
        },
        ProbeTool::ImageMagick => seq!["magick"@, "convert"@],
        _ => seq![tool_label(t)],
    }
}

/// Whether a candidate's version shows it is the tool: another program
/// may be called `convert`.
pub open spec fn accepts(t: ProbeTool, version: Seq<char>) -> bool {
    match t {
        ProbeTool::ImageMagick => names_imagemagick(version),
        _ => true,
    }
}

/// The program that looks others up on `PATH`.
pub open spec fn lookup_program(p: Platform) -> Seq<char> {
    if p == Platform::Windows {
        "where"@
    } else {
        "which"@
    }
}

/// Where a probe stands.
pub enum ProbeState {
    /// Waiting to learn whether the override path exists.
    OverrideExists(String),
    /// Waiting for the override path's version.
    OverrideVersion(String),
    /// Waiting for the lookup of the tool's program.
    Lookup,
    /// Waiting for the found program to answer its version flag.
    Check(String),
    /// Waiting for the found program's version.
    Version(String),
    /// Waiting for the lookup of the candidate at this index.
    CandidateLookup(usize),
    /// Waiting for the version of the candidate at this index, found here.
    CandidateVersion(usize, String),
    /// The probe is over.
    Done,
}

/// What the caller does next.
pub enum ProbeAction {
    /// Check whether a path exists; answer with `Exists`.
    CheckExists(String),
    /// Run a program with one argument; answer with `Ran`.
    Run { program: String, arg: String },
    /// The probe is over, with the tool found or why it was not.
    Finish(Result<ToolInfo, ForgeKitError>),
}

/// What came of an action.
pub enum ProbeEvent {
    /// Whether the path exists.
    Exists(bool),
    /// Whether the program exited successfully and what it printed on its
    /// standard output; or why it could not be started.
    Ran(Result<(bool, String), String>),
}

pub enum StateView {
    OverrideExists(Seq<char>),
    OverrideVersion(Seq<char>),
    Lookup,
    Check(Seq<char>),
    Version(Seq<char>),
    CandidateLookup(int),
    CandidateVersion(int, Seq<char>),
    Done,
}

pub enum ActionView {
    CheckExists(Seq<char>),
    Run(Seq<char>, Seq<char>),
    /// The path, the version and whether the tool is available; or the error.
    Finish(Result<(Seq<char>, Seq<char>, bool), ErrorView>),
}

pub enum ProbeEventView {
    Exists(bool),
    Ran(Result<(bool, Seq<char>), Seq<char>>),
}

impl View for ProbeState {
    type V = StateView;

    open spec fn view(&self) -> StateView {
        match self {
            ProbeState::OverrideExists(p) => StateView::OverrideExists(p@),
            ProbeState::OverrideVersion(p) => StateView::OverrideVersion(p@),
            ProbeState::Lookup => StateView::Lookup,
            ProbeState::Check(p) => StateView::Check(p@),
            ProbeState::Version(p) => StateView::Version(p@),
            ProbeState::CandidateLookup(i) => StateView::CandidateLookup(*i as int),
            ProbeState::CandidateVersion(i, p) => StateView::CandidateVersion(*i as int, p@),
            ProbeState::Done => StateView::Done,
        }
    }
}

impl View for ProbeAction {
    type V = ActionView;

    open spec fn view(&self) -> ActionView {
        match self {
            ProbeAction::CheckExists(p) => ActionView::CheckExists(p@),
            ProbeAction::Run { program, arg } => ActionView::Run(program@, arg@),
            ProbeAction::Finish(r) => ActionView::Finish(
                match r {
                    Ok(info) => Ok((info.path@, info.version@, info.available)),
                    Err(e) => Err(e@),
                },
            ),
        }
    }
}

impl View for ProbeEvent {
    type V = ProbeEventView;

    open spec fn view(&self) -> ProbeEventView {
        match self {
            ProbeEvent::Exists(b) => ProbeEventView::Exists(*b),
            ProbeEvent::Ran(r) => ProbeEventView::Ran(
                match r {
                    Ok((ok, out)) => Ok((*ok, out@)),
                    Err(e) => Err(e@),
                },
            ),
        }
    }
}

/// The error of a missing tool: its name and how to install it here.
pub open spec fn not_found(t: ProbeTool, p: Platform, d: LinuxDistro) -> ErrorView {
    ErrorView::ToolNotFound { tool: tool_label(t), hint: tool_hint_spec(hint_name(t), p, d) }
}

/// The version a run of the version flag gave, or why there is none.
pub open spec fn version_result(t: ProbeTool, ran: Result<(bool, Seq<char>), Seq<char>>) -> Result<Seq<char>, ErrorView> {
    match ran {
        Err(why) => Err(ErrorView::Other("Failed to run "@ + tool_label(t) + ": "@ + why)),
        Ok((false, _)) => Err(ErrorView::Other(tool_label(t) + " "@ + version_flag(t) + " failed"@)),
        Ok((true, out)) => Ok(version_text(t, out)),
    }
}

/// The end of a probe at a path whose version was asked for.
pub open spec fn finish_at(t: ProbeTool, path: Seq<char>, ran: Result<(bool, Seq<char>), Seq<char>>) -> (StateView, ActionView) {
    (
        StateView::Done,
        ActionView::Finish(
            match version_result(t, ran) {
                Ok(v) => Ok((path, v, true)),
                Err(e) => Err(e),
            },
        ),
    )
}

/// Trying the candidate at index `i`, or giving up after the last one.
pub open spec fn try_candidate(t: ProbeTool, p: Platform, d: LinuxDistro, i: int) -> (StateView, ActionView) {
    if 0 <= i < candidates(t, p).len() {
        (StateView::CandidateLookup(i), ActionView::Run(lookup_program(p), candidates(t, p)[i]))
    } else {
        (StateView::Done, ActionView::Finish(Err(not_found(t, p, d))))
    }
}

/// Searching `PATH`.
pub open spec fn search(t: ProbeTool, p: Platform, d: LinuxDistro) -> (StateView, ActionView) {
    if searched_once(t) {
        (StateView::Lookup, ActionView::Run(lookup_program(p), tool_label(t)))
    } else {
        try_candidate(t, p, d, 0)
    }
}

/// How a probe begins: with the override path when one is configured,
/// otherwise with the search of `PATH`.
pub open spec fn probe_begins(t: ProbeTool, override_path: Option<Seq<char>>, p: Platform, d: LinuxDistro) -> (
    StateView,
    ActionView,
) {
    match override_path {
        Some(path) => (StateView::OverrideExists(path), ActionView::CheckExists(path)),
        None => search(t, p, d),
    }
}

/// Whether an event answers the action that led to a state.
pub open spec fn answers(s: StateView, e: ProbeEventView) -> bool {
    match s {
        StateView::OverrideExists(_) => e is Exists,
        StateView::Done => false,
        _ => e is Ran,
    }
}

/// The path a lookup found: the first line of its output, trimmed.
pub open spec fn found_path(out: Seq<char>) -> Seq<char> {
    trim(first_line(out))
}

/// The next state and action of a probe, given what came of its action.
pub open spec fn probe_next(t: ProbeTool, p: Platform, d: LinuxDistro, s: StateView, e: ProbeEventView) -> (
    StateView,
    ActionView,
) {
    match (s, e) {
        (StateView::OverrideExists(path), ProbeEventView::Exists(exists)) => if exists {
            (StateView::OverrideVersion(path), ActionView::Run(path, version_flag(t)))
        } else {
            search(t, p, d)
        },
        (StateView::OverrideVersion(path), ProbeEventView::Ran(ran)) => finish_at(t, path, ran),
        (StateView::Lookup, ProbeEventView::Ran(ran)) => {
            let path = match ran {
                Ok((true, out)) => if found_path(out).len() > 0 {
                    found_path(out)
                } else {
                    tool_label(t)
                },
                _ => tool_label(t),
            };
            (StateView::Check(path), ActionView::Run(path, version_flag(t)))
        },
        (StateView::Check(path), ProbeEventView::Ran(ran)) => if ran matches Ok((true, _)) {
            (StateView::Version(path), ActionView::Run(path, version_flag(t)))
        } else {
            (StateView::Done, ActionView::Finish(Err(not_found(t, p, d))))
        },
        (StateView::Version(path), ProbeEventView::Ran(ran)) => finish_at(t, path, ran),
        (StateView::CandidateLookup(i), ProbeEventView::Ran(ran)) => match ran {
            Ok((true, out)) => if found_path(out).len() > 0 {
                (StateView::CandidateVersion(i, found_path(out)), ActionView::Run(found_path(out), version_flag(t)))
            } else {
                try_candidate(t, p, d, i + 1)
            },
            _ => try_candidate(t, p, d, i + 1),
        },
        (StateView::CandidateVersion(i, path), ProbeEventView::Ran(ran)) => match version_result(t, ran) {
            Ok(v) => if accepts(t, v) {
                (StateView::Done, ActionView::Finish(Ok((path, v, true))))
            } else {
                try_candidate(t, p, d, i + 1)
            },
            Err(_) => try_candidate(t, p, d, i + 1),
        },
        _ => (StateView::Done, ActionView::Finish(Err(not_found(t, p, d)))),
    }
}

/// How many actions a probe can still ask for, at most.
pub open spec fn steps_left(t: ProbeTool, p: Platform, s: StateView) -> int {
    let n = candidates(t, p).len() as int;
    match s {
        StateView::OverrideExists(_) => 2 * n + 4,
        StateView::OverrideVersion(_) => 1,
        StateView::Lookup => 3,
        StateView::Check(_) => 2,
        StateView::Version(_) => 1,
        StateView::CandidateLookup(i) => 2 * (n - i) + 1,
        StateView::CandidateVersion(i, _) => 2 * (n - i),
        StateView::Done => 0,
    }
}

/// Whether a state can arise in a probe of this tool.
pub open spec fn reachable(t: ProbeTool, p: Platform, s: StateView) -> bool {
    match s {
        StateView::Lookup | StateView::Check(_) | StateView::Version(_) => searched_once(t),
        StateView::CandidateLookup(i) | StateView::CandidateVersion(i, _) => !searched_once(t) && 0 <= i
            < candidates(t, p).len(),
        _ => true,
    }
}

/// A probe always ends: it begins in a state that can arise, and every
/// step leads to a state that can arise with fewer actions left.
pub proof fn law_probe_ends(t: ProbeTool, o: Option<Seq<char>>, p: Platform, d: LinuxDistro, s: StateView, e: ProbeEventView)
    requires
        answers(s, e),
        reachable(t, p, s),
    ensures
        reachable(t, p, probe_begins(t, o, p, d).0),
        0 <= steps_left(t, p, probe_begins(t, o, p, d).0),
        reachable(t, p, probe_next(t, p, d, s, e).0),
        0 <= steps_left(t, p, probe_next(t, p, d, s, e).0) < steps_left(t, p, s),
{
}

/// A probe finishes exactly when it is done.  A tool it finds is
/// available, and one found on `PATH` among candidates answered its version
/// as the tool; the override path, once it exists, is the path reported.
/// A missing tool is reported under its name with its install hint.
pub proof fn law_probe_outcomes(t: ProbeTool, p: Platform, d: LinuxDistro, s: StateView, e: ProbeEventView)
    requires
        answers(s, e),
        reachable(t, p, s),
    ensures
        ({
            let (s2, a) = probe_next(t, p, d, s, e);
            &&& (a is Finish <==> s2 is Done)
            &&& (a matches ActionView::Finish(Ok((_, _, available))) ==> available)
            &&& (s is CandidateVersion ==> (a matches ActionView::Finish(Ok((_, v, _))) ==> accepts(t, v)))
            &&& (s matches StateView::OverrideVersion(path) ==> (a matches ActionView::Finish(Ok((q, _, _)))
                ==> q == path))
            &&& (a matches ActionView::Finish(Err(ErrorView::ToolNotFound { tool, hint })) ==> tool == tool_label(
                t,
            ) && hint == tool_hint_spec(hint_name(t), p, d))
        }),
        probe_begins(t, None, p, d).0 !is Done,
{
}

impl ProbeTool {
    /// The tool's name in errors.
    pub fn label(&self) -> (r: &'static str)
        ensures
            r@ == tool_label(*self),
    {
        match self {
            ProbeTool::Qpdf => "qpdf",
            ProbeTool::Ghostscript => "gs",
            ProbeTool::Ocrmypdf => "ocrmypdf",
            ProbeTool::Exiftool => "exiftool",
            ProbeTool::Libvips => "vips",
            ProbeTool::Ffmpeg => "ffmpeg",
            ProbeTool::ImageMagick => "imagemagick",
        }
    }

    /// The name whose install hint a missing tool reports.
    pub fn hint_label(&self) -> (r: &'static str)
        ensures
            r@ == hint_name(*self),
    {
        match self {
            ProbeTool::Libvips => "libvips",
            _ => self.label(),
        }
    }

    /// The argument that makes the tool print its version.
    pub fn version_flag(&self) -> (r: &'static str)
        ensures
            r@ == version_flag(*self),
    {
        match self {
            ProbeTool::Exiftool => "-ver",
            ProbeTool::Ffmpeg => "-version",
            _ => "--version",
        }
    }

    /// The version read from what the version flag printed.
    pub fn version_text(&self, stdout: &str) -> (r: String)
        ensures
            r@ == version_text(*self, stdout@),
    {
        match self {
            ProbeTool::Ffmpeg => FfmpegTool::version_from_output(stdout),
            _ => version_from_output(stdout),
        }
    }

    /// The candidate program at index `i`, if there is one.
    pub fn candidate(&self, p: Platform, i: usize) -> (r: Option<&'static str>)
        ensures
            match r {
                Some(c) => i < candidates(*self, p).len() && c@ == candidates(*self, p)[i as int],
                None => i >= candidates(*self, p).len(),
            },
    {
        match self {
            ProbeTool::Ghostscript => match p {
                Platform::Windows => if i == 0 {
                    Some("gswin64c")
                } else if i == 1 {
                    Some("gswin32c")
                } else if i == 2 {
                    Some("gs")
                } else {
                    None
                },
                _ => if i == 0 {
                    Some("gs")
                } else {
                    None
                },
            },
            ProbeTool::ImageMagick => if i == 0 {
                Some("magick")
            } else if i == 1 {
                Some("convert")
            } else {
                None
            },
            _ => if i == 0 {
                Some(self.label())
            } else {
                None
            },
        }
    }
}

fn lookup_program_of(p: Platform) -> (r: &'static str)
    ensures
        r@ == lookup_program(p),
{
    match p {
        Platform::Windows => "where",
        _ => "which",
    }
}

fn not_found_error(t: ProbeTool, p: Platform, d: LinuxDistro) -> (e: ForgeKitError)
    ensures
        e@ == not_found(t, p, d),
{
    ForgeKitError::ToolNotFound { tool: string_of(t.label()), hint: ToolInstallHints::for_tool(t.hint_label(), p, d) }
}

fn version_result_of(t: ProbeTool, ran: &Result<(bool, String), String>) -> (r: Result<String, ForgeKitError>)
    ensures
        match version_result(t, ran_view(ran)) {
            Ok(v) => r matches Ok(s) && s@ == v,
            Err(e) => r matches Err(x) && x@ == e,
        },
{
    match ran {
        Err(why) => {
            let mut m = string_of("Failed to run ");
            push_str(&mut m, t.label());
            push_str(&mut m, ": ");
            push_str(&mut m, why.as_str());
            Err(ForgeKitError::Other(m))
        },
        Ok((false, _)) => {
            let mut m = string_of(t.label());
            push_str(&mut m, " ");
            push_str(&mut m, t.version_flag());
            push_str(&mut m, " failed");
            Err(ForgeKitError::Other(m))
        },
        Ok((true, out)) => Ok(t.version_text(out.as_str())),
    }
}

/// A run's result as plain values.
pub open spec fn ran_view(ran: &Result<(bool, String), String>) -> Result<(bool, Seq<char>), Seq<char>> {
    match ran {
        Ok((ok, out)) => Ok((*ok, out@)),
        Err(e) => Err(e@),
    }
}

fn run(program: &str, arg: &str) -> (a: ProbeAction)
    ensures
        a@ == ActionView::Run(program@, arg@),
{
    ProbeAction::Run { program: string_of(program), arg: string_of(arg) }
}

fn finish_with(t: ProbeTool, path: &str, ran: &Result<(bool, String), String>) -> (r: (ProbeState, ProbeAction))
    ensures
        (r.0@, r.1@) == finish_at(t, path@, ran_view(ran)),
{
    match version_result_of(t, ran) {
        Ok(v) => (ProbeState::Done, ProbeAction::Finish(Ok(ToolInfo { path: string_of(path), version: v, available: true }))),
        Err(e) => (ProbeState::Done, ProbeAction::Finish(Err(e))),
    }
}

fn try_candidate_of(t: ProbeTool, p: Platform, d: LinuxDistro, i: usize) -> (r: (ProbeState, ProbeAction))
    ensures
        (r.0@, r.1@) == try_candidate(t, p, d, i as int),
{
    match t.candidate(p, i) {
        Some(c) => (ProbeState::CandidateLookup(i), run(lookup_program_of(p), c)),
        None => (ProbeState::Done, ProbeAction::Finish(Err(not_found_error(t, p, d)))),
    }
}

fn search_of(t: ProbeTool, p: Platform, d: LinuxDistro) -> (r: (ProbeState, ProbeAction))
    ensures
        (r.0@, r.1@) == search(t, p, d),
{
    match t {
        ProbeTool::Ghostscript | ProbeTool::ImageMagick => try_candidate_of(t, p, d, 0),
        _ => (ProbeState::Lookup, run(lookup_program_of(p), t.label())),
    }
}

/// How the probe of a tool begins.
pub fn probe_begin(t: ProbeTool, config: &ToolConfig, p: Platform, d: LinuxDistro) -> (r: (ProbeState, ProbeAction))
    ensures
        (r.0@, r.1@) == probe_begins(t, opt_view(config.override_path), p, d),
{
    match &config.override_path {
        Some(path) => (ProbeState::OverrideExists(string_of(path.as_str())), ProbeAction::CheckExists(string_of(path.as_str()))),
        None => search_of(t, p, d),
    }
}

/// The next state and action of a probe, given what came of its last
/// action.
pub fn probe_step(t: ProbeTool, p: Platform, d: LinuxDistro, s: &ProbeState, e: &ProbeEvent) -> (r: (
    ProbeState,
    ProbeAction,
))
    requires
        answers(s@, e@),
        reachable(t, p, s@),
    ensures
        (r.0@, r.1@) == probe_next(t, p, d, s@, e@),
{
    match (s, e) {
        (ProbeState::OverrideExists(path), ProbeEvent::Exists(exists)) => if *exists {
            (ProbeState::OverrideVersion(string_of(path.as_str())), run(path.as_str(), t.version_flag()))
        } else {
            search_of(t, p, d)
        },
        (ProbeState::OverrideVersion(path), ProbeEvent::Ran(ran)) => finish_with(t, path.as_str(), ran),
        (ProbeState::Lookup, ProbeEvent::Ran(ran)) => {
            let path = match ran {
                Ok((true, out)) => {
                    let l = first_line_of(out.as_str());
                    let f = trim_chars(l.as_slice());
                    if f.len() > 0 {
                        from_chars(f.as_slice())
                    } else {
                        string_of(t.label())
                    }
                },
                _ => string_of(t.label()),
            };
            let action = run(path.as_str(), t.version_flag());
            (ProbeState::Check(path), action)
        },
        (ProbeState::Check(path), ProbeEvent::Ran(ran)) => match ran {
            Ok((true, _)) => (ProbeState::Version(string_of(path.as_str())), run(path.as_str(), t.version_flag())),
            _ => (ProbeState::Done, ProbeAction::Finish(Err(not_found_error(t, p, d)))),
        },
        (ProbeState::Version(path), ProbeEvent::Ran(ran)) => finish_with(t, path.as_str(), ran),
        (ProbeState::CandidateLookup(i), ProbeEvent::Ran(ran)) => {
            let found = match ran {
                Ok((true, out)) => {
                    let l = first_line_of(out.as_str());
                    let f = trim_chars(l.as_slice());
                    if f.len() > 0 {
                        Some(from_chars(f.as_slice()))
                    } else {
                        None
                    }
                },
                _ => None,
            };
            match found {
                Some(path) => {
                    let action = run(path.as_str(), t.version_flag());
                    (ProbeState::CandidateVersion(*i, path), action)
                },
                None => try_candidate_of(t, p, d, *i + 1),
            }
        },
        (ProbeState::CandidateVersion(i, path), ProbeEvent::Ran(ran)) => match version_result_of(t, ran) {
            Ok(v) => {
                let ok = match t {
                    ProbeTool::ImageMagick => ImageMagickTool::is_imagemagick_version(v.as_str()),
                    _ => true,
                };
                if ok {
                    (
                        ProbeState::Done,
                        ProbeAction::Finish(Ok(ToolInfo { path: string_of(path.as_str()), version: v, available: true })),
                    )
                } else {
                    try_candidate_of(t, p, d, *i + 1)
                }
            },
            Err(_) => try_candidate_of(t, p, d, *i + 1),
        },
        _ => (ProbeState::Done, ProbeAction::Finish(Err(not_found_error(t, p, d)))),
    }
}

} // verus!
