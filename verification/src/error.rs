//! Errors and process exit codes.
//!
//! Every failure the library reports is a `ForgeKitError`; each error maps to
//! one of the documented exit codes so that shell scripts can tell missing
//! tools (2) from bad input (3) and other failures.
use vstd::prelude::*;
use vstd::std_specs::convert::FromSpecImpl;
use crate::text::string_of;

verus! {

/// Exit codes of the command-line program.
///
/// `0` success, `1` general error, `2` missing tool, `3` invalid input,
/// `4` permission denied, `5` disk full, `130` cancelled.
#[derive(Debug, Clone, Copy, PartialEq, Eq)]
pub enum ExitCode {
    /// Operation completed successfully.
    Success,
    /// General error (processing failed, tool error, etc.).
    GeneralError,
    /// Required external tool not found.
    MissingTool,
    /// Invalid input (file not found, bad page spec, etc.).
    InvalidInput,
    /// Permission denied.
    PermissionDenied,
    /// Disk full.
    DiskFull,
    /// Cancelled by the user (SIGINT).
    Cancelled,
}

/// The number a process exits with for this code.
pub open spec fn exit_number(code: ExitCode) -> i32 {
    match code {
        ExitCode::Success => 0,
        ExitCode::GeneralError => 1,
        ExitCode::MissingTool => 2,
        ExitCode::InvalidInput => 3,
        ExitCode::PermissionDenied => 4,
        ExitCode::DiskFull => 5,
        ExitCode::Cancelled => 130,
    }
}

impl ExitCode {
    /// The process exit status for this code.
    pub fn as_i32(&self) -> (n: i32)
        ensures
            n == exit_number(*self),
    {
        match self {
            ExitCode::Success => 0,
            ExitCode::GeneralError => 1,
            ExitCode::MissingTool => 2,
            ExitCode::InvalidInput => 3,
            ExitCode::PermissionDenied => 4,
            ExitCode::DiskFull => 5,
            ExitCode::Cancelled => 130,
        }
    }
}

impl From<ExitCode> for i32 {
    fn from(code: ExitCode) -> (n: i32) {
        code.as_i32()
    }
}

impl FromSpecImpl<ExitCode> for i32 {
    open spec fn obeys_from_spec() -> bool {
        true
    }

    open spec fn from_spec(code: ExitCode) -> i32 {
        exit_number(code)
    }
}

/// Errors reported by the library.
///
/// Paths are carried as text.  `Io` and `Other` carry the message of an
/// underlying input/output failure or of any other failure.
#[derive(Debug, Clone, PartialEq, Eq)]
pub enum ForgeKitError {
    /// External tool not found; `hint` tells how to install it.
    ToolNotFound { tool: String, hint: String },
    /// External tool found but too old.
    ToolVersionMismatch { tool: String, required: String, found: String },
    /// Invalid input file or parameter.
    InvalidInput { path: String, reason: String },
    /// External tool ran and failed; `stderr` is what it printed.
    ProcessingFailed { tool: String, stderr: String },
    /// Permission denied when accessing a path.
    PermissionDenied { path: String },
    /// Disk full while writing a path.
    DiskFull { path: String },
    /// Cancelled by the user.
    Cancelled,
    /// Input/output failure.
    Io(String),
    /// Any other failure.
    Other(String),
}

/// An error as plain values: each text field by its characters.
pub enum ErrorView {
    ToolNotFound { tool: Seq<char>, hint: Seq<char> },
    ToolVersionMismatch { tool: Seq<char>, required: Seq<char>, found: Seq<char> },
    InvalidInput { path: Seq<char>, reason: Seq<char> },
    ProcessingFailed { tool: Seq<char>, stderr: Seq<char> },
    PermissionDenied { path: Seq<char> },
    DiskFull { path: Seq<char> },
    Cancelled,
    Io(Seq<char>),
    Other(Seq<char>),
}

impl View for ForgeKitError {
    type V = ErrorView;

    open spec fn view(&self) -> ErrorView {
        match self {
            ForgeKitError::ToolNotFound { tool, hint } => ErrorView::ToolNotFound {
                tool: tool@,
                hint: hint@,
            },
            ForgeKitError::ToolVersionMismatch { tool, required, found } => {
                ErrorView::ToolVersionMismatch { tool: tool@, required: required@, found: found@ }
            },
            ForgeKitError::InvalidInput { path, reason } => ErrorView::InvalidInput {
                path: path@,
                reason: reason@,
            },
            ForgeKitError::ProcessingFailed { tool, stderr } => ErrorView::ProcessingFailed {
                tool: tool@,
                stderr: stderr@,
            },
            ForgeKitError::PermissionDenied { path } => ErrorView::PermissionDenied { path: path@ },
            ForgeKitError::DiskFull { path } => ErrorView::DiskFull { path: path@ },
            ForgeKitError::Cancelled => ErrorView::Cancelled,
            ForgeKitError::Io(m) => ErrorView::Io(m@),
            ForgeKitError::Other(m) => ErrorView::Other(m@),
        }
    }
}

impl ForgeKitError {
    /// A copy of the error.
    pub fn duplicate(&self) -> (r: ForgeKitError)
        ensures
            r@ == self@,
    {
        match self {
            ForgeKitError::ToolNotFound { tool, hint } => ForgeKitError::ToolNotFound {
                tool: string_of(tool.as_str()),
                hint: string_of(hint.as_str()),
            },
            ForgeKitError::ToolVersionMismatch { tool, required, found } => {
                ForgeKitError::ToolVersionMismatch {
                    tool: string_of(tool.as_str()),
                    required: string_of(required.as_str()),
                    found: string_of(found.as_str()),
                }
            },
            ForgeKitError::InvalidInput { path, reason } => ForgeKitError::InvalidInput {
                path: string_of(path.as_str()),
                reason: string_of(reason.as_str()),
            },
            ForgeKitError::ProcessingFailed { tool, stderr } => ForgeKitError::ProcessingFailed {
                tool: string_of(tool.as_str()),
                stderr: string_of(stderr.as_str()),
            },
            ForgeKitError::PermissionDenied { path } => ForgeKitError::PermissionDenied {
                path: string_of(path.as_str()),
            },
            ForgeKitError::DiskFull { path } => ForgeKitError::DiskFull { path: string_of(path.as_str()) },
            ForgeKitError::Cancelled => ForgeKitError::Cancelled,
            ForgeKitError::Io(m) => ForgeKitError::Io(string_of(m.as_str())),
            ForgeKitError::Other(m) => ForgeKitError::Other(string_of(m.as_str())),
        }
    }
}

/// The exit code that belongs to an error.
pub open spec fn exit_code_of(e: ForgeKitError) -> ExitCode {
    match e {
        ForgeKitError::ToolNotFound { .. } => ExitCode::MissingTool,
        ForgeKitError::InvalidInput { .. } => ExitCode::InvalidInput,
        ForgeKitError::PermissionDenied { .. } => ExitCode::PermissionDenied,
        ForgeKitError::DiskFull { .. } => ExitCode::DiskFull,
        ForgeKitError::Cancelled => ExitCode::Cancelled,
        _ => ExitCode::GeneralError,
    }
}

/// Whether `e` is an `InvalidInput` error with this path and reason.
pub open spec fn is_invalid_input(e: ForgeKitError, path: Seq<char>, reason: Seq<char>) -> bool {
    e matches ForgeKitError::InvalidInput { path: p, reason: r } && p@ == path && r@ == reason
}

impl ForgeKitError {
    /// The exit code that corresponds to this error.
    pub fn exit_code(&self) -> (c: ExitCode)
        ensures
            c == exit_code_of(*self),
    {
        match self {
            ForgeKitError::ToolNotFound { .. } => ExitCode::MissingTool,
            ForgeKitError::InvalidInput { .. } => ExitCode::InvalidInput,
            ForgeKitError::PermissionDenied { .. } => ExitCode::PermissionDenied,
            ForgeKitError::DiskFull { .. } => ExitCode::DiskFull,
            ForgeKitError::Cancelled => ExitCode::Cancelled,
            _ => ExitCode::GeneralError,
        }
    }
}

/// An `InvalidInput` error about no particular file.
pub fn invalid_input(reason: String) -> (e: ForgeKitError)
    ensures
        is_invalid_input(e, Seq::<char>::empty(), reason@),
{
    ForgeKitError::InvalidInput { path: String::new(), reason }
}

/// Every error is reported with a failing exit status, and only a
/// missing tool is reported with status 2, only invalid input with 3.
pub proof fn law_errors_fail(e: ForgeKitError)
    ensures
        exit_number(exit_code_of(e)) != 0,
        exit_number(exit_code_of(e)) == 2 <==> e is ToolNotFound,
        exit_number(exit_code_of(e)) == 3 <==> e is InvalidInput,
{
}

} // verus!
