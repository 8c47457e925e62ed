//! Progress events: what a running job reports, one event at a time.
//!
//! Events are written as one JSON object per line by the program; every
//! event carries the schema version (currently 1) and the job's id.
use vstd::prelude::*;
use crate::error::{ExitCode, ForgeKitError};
use crate::text::{dec, push_dec, push_str, string_of};

verus! {

broadcast use vstd::string::group_string_axioms;

/// Progress information for a running job.
#[derive(Debug, Clone)]
pub struct ProgressInfo {
    /// Items done so far.
    pub current: u32,
    /// Items in all.
    pub total: u32,
    /// Completion percentage (0-100).
    pub percent: u32,
    /// Stage name, such as `merging`.
    pub stage: Option<String>,
}

/// What a successfully finished job produced.
#[derive(Debug, Clone)]
pub struct JobResult {
    /// Path of the output file.
    pub output: String,
    /// Size of the output file in bytes.
    pub size_bytes: u64,
    /// How long the job took, in milliseconds.
    pub duration_ms: u64,
}

/// Why a job failed.
#[derive(Debug, Clone)]
pub struct ErrorInfo {
    /// Machine-readable error code.
    pub code: String,
    /// Human-readable message.
    pub message: String,
    /// What to do about it.
    pub hint: String,
}

/// An event emitted while a job runs.
#[derive(Debug, Clone)]
pub enum ProgressEvent {
    /// A progress update.
    Progress { version: u32, job_id: String, progress: ProgressInfo, message: String },
    /// The job finished successfully.
    Complete { version: u32, job_id: String, result: JobResult },
    /// The job failed.
    Error { version: u32, job_id: String, error: ErrorInfo },
}

/// An event as plain values.
pub enum EventView {
    Progress {
        version: u32,
        job_id: Seq<char>,
        current: u32,
        total: u32,
        percent: u32,
        stage: Option<Seq<char>>,
        message: Seq<char>,
    },
    Complete { version: u32, job_id: Seq<char>, output: Seq<char>, size_bytes: u64, duration_ms: u64 },
    Error { version: u32, job_id: Seq<char>, code: Seq<char>, message: Seq<char>, hint: Seq<char> },
}

impl View for ProgressEvent {
    type V = EventView;

    open spec fn view(&self) -> EventView {
        match self {
            ProgressEvent::Progress { version, job_id, progress, message } => EventView::Progress {
                version: *version,
                job_id: job_id@,
                current: progress.current,
                total: progress.total,
                percent: progress.percent,
                stage: match progress.stage {
                    Some(s) => Some(s@),
                    None => None,
                },
                message: message@,
            },
            ProgressEvent::Complete { version, job_id, result } => EventView::Complete {
                version: *version,
                job_id: job_id@,
                output: result.output@,
                size_bytes: result.size_bytes,
                duration_ms: result.duration_ms,
            },
            ProgressEvent::Error { version, job_id, error } => EventView::Error {
                version: *version,
                job_id: job_id@,
                code: error.code@,
                message: error.message@,
                hint: error.hint@,
            },
        }
    }
}

/// A progress event of schema version 1, as plain values.
pub open spec fn progress_view(
    job_id: Seq<char>,
    current: u32,
    total: u32,
    percent: u32,
    stage: Seq<char>,
    message: Seq<char>,
) -> EventView {
    EventView::Progress { version: 1, job_id, current, total, percent, stage: Some(stage), message }
}

/// Receives the events of running jobs.
pub trait ProgressReporter {
    /// Handles one event.
    fn report(&self, event: &ProgressEvent);
}

/// A reporter that discards every event.
pub struct NoOpProgressReporter;

impl ProgressReporter for NoOpProgressReporter {
    fn report(&self, event: &ProgressEvent) {
    }
}

/// The schema version of events.
pub fn default_version() -> (v: u32)
    ensures
        v == 1,
{
    1
}

/// A `Progress` event of schema version 1 whose fields are these values.
pub open spec fn is_progress(
    e: ProgressEvent,
    job_id: Seq<char>,
    current: u32,
    total: u32,
    percent: u32,
    stage: Seq<char>,
    message: Seq<char>,
) -> bool {
    &&& e matches ProgressEvent::Progress { version, job_id: id, progress, message: m }
    &&& version == 1 && id@ == job_id && m@ == message
    &&& progress.current == current && progress.total == total && progress.percent == percent
    &&& progress.stage matches Some(st) && st@ == stage
}

/// A progress event of schema version 1.
pub fn progress_event(
    job_id: &str,
    current: u32,
    total: u32,
    percent: u32,
    stage: &str,
    message: String,
) -> (e: ProgressEvent)
    ensures
        is_progress(e, job_id@, current, total, percent, stage@, message@),
        e@ == progress_view(job_id@, current, total, percent, stage@, message@),
{
    ProgressEvent::Progress {
        version: default_version(),
        job_id: string_of(job_id),
        progress: ProgressInfo { current, total, percent, stage: Some(string_of(stage)) },
        message,
    }
}

/// The event that shows a plan: stage `plan`, nothing done of one step.
pub fn plan_event(job_id: &str, plan: &str) -> (e: ProgressEvent)
    ensures
        is_progress(e, job_id@, 0, 1, 0, "plan"@, plan@),
{
    progress_event(job_id, 0, 1, 0, "plan", string_of(plan))
}

/// The event that reports a finished job.
pub fn complete_event(job_id: &str, output: &str, size_bytes: u64, duration_ms: u64) -> (e:
    ProgressEvent)
    ensures
        e matches ProgressEvent::Complete { version, job_id: id, result } && version == 1 && id@
            == job_id@ && result.output@ == output@ && result.size_bytes == size_bytes
            && result.duration_ms == duration_ms,
{
    ProgressEvent::Complete {
        version: default_version(),
        job_id: string_of(job_id),
        result: JobResult { output: string_of(output), size_bytes, duration_ms },
    }
}

/// The event that reports a failed job.
pub fn error_event(job_id: &str, code: &str, message: String, hint: &str) -> (e: ProgressEvent)
    ensures
        e matches ProgressEvent::Error { version, job_id: id, error } && version == 1 && id@
            == job_id@ && error.code@ == code@ && error.message@ == message@ && error.hint@
            == hint@,
{
    ProgressEvent::Error {
        version: default_version(),
        job_id: string_of(job_id),
        error: ErrorInfo { code: string_of(code), message, hint: string_of(hint) },
    }
}

/// The name of an exit code, as its `Debug` form prints it.
pub open spec fn exit_code_name(code: ExitCode) -> Seq<char> {
    match code {
        ExitCode::Success => "Success"@,
        ExitCode::GeneralError => "GeneralError"@,
        ExitCode::MissingTool => "MissingTool"@,
        ExitCode::InvalidInput => "InvalidInput"@,
        ExitCode::PermissionDenied => "PermissionDenied"@,
        ExitCode::DiskFull => "DiskFull"@,
        ExitCode::Cancelled => "Cancelled"@,
    }
}

/// The code under which a failed command reports an error: the name of
/// the error's exit code.
pub fn error_code_name(e: &ForgeKitError) -> (r: &'static str)
    ensures
        r@ == exit_code_name(crate::error::exit_code_of(*e)),
{
    match e.exit_code() {
        ExitCode::Success => "Success",
        ExitCode::GeneralError => "GeneralError",
        ExitCode::MissingTool => "MissingTool",
        ExitCode::InvalidInput => "InvalidInput",
        ExitCode::PermissionDenied => "PermissionDenied",
        ExitCode::DiskFull => "DiskFull",
        ExitCode::Cancelled => "Cancelled",
    }
}

/// The hint given with a failed command: the install hint of a missing
/// tool, otherwise a pointer to the logs.
pub open spec fn error_hint_text(e: ForgeKitError) -> Seq<char> {
    match e {
        ForgeKitError::ToolNotFound { hint, .. } => hint@,
        _ => "Check logs for details"@,
    }
}

/// The hint given with a failed command.
pub fn error_hint(e: &ForgeKitError) -> (r: String)
    ensures
        r@ == error_hint_text(*e),
{
    match e {
        ForgeKitError::ToolNotFound { hint, .. } => string_of(hint.as_str()),
        _ => string_of("Check logs for details"),
    }
}

} // verus!
