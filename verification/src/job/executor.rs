//! Deciding what running a job takes.
//!
//! The program first gathers a few facts about the system (which input
//! files exist, where each tool is, how many pages the input PDF has).
//! Given the job and those facts, the functions here decide everything
//! else: the `--plan` text, the validation errors, the exact commands to
//! run and in which order, the files to create, copy or remove, the
//! progress events to report, and the message that ends the job.  The
//! program then performs the steps in order and stops at the first one
//! that fails.
use vstd::prelude::*;
use crate::audio::{AudioFormat, audio_ext};
use crate::error::{ErrorView, ForgeKitError};
use crate::image::{ImageFormat, image_ext};
use crate::job::progress::{EventView, ProgressEvent, progress_event, progress_view};
use crate::job::spec::{JobSpec, MetadataAction};
use crate::pages::{PageSpec, qpdf_pages_spec};
use crate::paths::{join_path, path_joined, path_renamed, path_same, same_path, with_file_name};
use crate::presets::{PresetsConfig, get_compression_strategy, has_standard, preset_for_level};
use crate::text::{
    dec, dec_int, join, join_strings, push_dec, push_int, push_str, push_string, push_text, str_eq,
    string_of, texts, to_chars, trim, trim_chars, from_chars,
};
use crate::temp::{create_temp_file, temp_name};
use crate::tools::{ToolInfo, command_line, command_line_of};
use crate::tools::exiftool::{ExiftoolTool, pair_texts, read_field_args, read_json_args, write_args};
use crate::tools::ffmpeg::{
    FfmpegTool, concat_list_spec, convert_args_spec, extract_args_spec, join_args_spec, mono_args_spec,
    plan_join_spec, transcode_args_spec,
};
use crate::tools::libvips::{
    LibvipsTool, resize_size, vips_convert_args, vips_resize_args, vips_strip_args,
};

verus! {

broadcast use vstd::string::group_string_axioms;

// ---------------------------------------------------------------------------
// Facts, steps and outcomes
// ---------------------------------------------------------------------------

/// What the program found out before deciding.
pub struct Facts {
    /// The job's input paths that exist.
    pub existing: Vec<String>,
    /// Where qpdf is, or why it could not be found.
    pub qpdf: Result<ToolInfo, ForgeKitError>,
    /// Where Ghostscript is.
    pub gs: Result<ToolInfo, ForgeKitError>,
    /// Where ocrmypdf is.
    pub ocrmypdf: Result<ToolInfo, ForgeKitError>,
    /// Where exiftool is.
    pub exiftool: Result<ToolInfo, ForgeKitError>,
    /// Where vips is.
    pub vips: Result<ToolInfo, ForgeKitError>,
    /// Where ffmpeg is.
    pub ffmpeg: Result<ToolInfo, ForgeKitError>,
    /// The number of pages of the input PDF, as qpdf reported it.
    pub page_count: Result<u32, ForgeKitError>,
    /// The id of the job, used in its progress events.
    pub job_id: String,
    /// The directory for temporary files.
    pub temp_dir: String,
    /// A unique text for naming temporary files.
    pub unique_id: String,
    /// The id of the running process.
    pub process_id: u32,
    /// The compression presets.
    pub presets: PresetsConfig,
}

/// How a command that cannot be started is reported.
pub enum StartFailure {
    /// As `ProcessingFailed` for the command's tool, with this text before
    /// the system's error.
    Processing(String),
    /// As `Other`, with this text before the system's error.
    Other(String),
}

/// The error event to report when a command fails: the job's id, an
/// error code and a hint; its message is the error's text.
pub struct FailureReport {
    pub job_id: String,
    pub code: String,
    pub hint: String,
}

/// A command to run.
pub struct Command {
    /// The tool it belongs to, named in errors.
    pub tool: String,
    /// The program to start.
    pub program: String,
    /// Its arguments.
    pub args: Vec<String>,
    /// How a failure to start it is reported.
    pub start_failure: StartFailure,
    /// Whether an unsuccessful exit fails the job, as `ProcessingFailed`
    /// with what the command wrote to its standard error.
    pub checked: bool,
    /// A file to remove once the command has ended, whatever its outcome.
    pub cleanup: Option<String>,
    /// The event to report if the command fails.
    pub report: Option<FailureReport>,
}

/// One thing to do while running a job.
pub enum Step {
    /// Report a progress event.
    Report(ProgressEvent),
    /// Report the job's completion with the size of `output` and the time
    /// the job took.
    ReportComplete { job_id: String, output: String },
    /// Create a directory and its missing parents; failure is `Io`.
    CreateDir(String),
    /// Copy a file; failure is `Io`.
    Copy { from: String, to: String },
    /// Write a file; failure is `Other`, its text `failure` followed by the
    /// system's reason.
    WriteFile { path: String, contents: String, failure: String },
    /// Run a command.
    Run(Command),
}

/// How a job ends once all its steps have succeeded.
pub enum Finish {
    /// With this message.
    Message(String),
    /// With what the last command printed.
    Printed,
    /// With the report on the named metadata field that the last command
    /// printed (see `field_report`).
    FieldValue(String),
}

/// What running a job takes: steps to perform in order, and how the job
/// ends when none of them fails.
pub struct Outcome {
    pub steps: Vec<Step>,
    pub end: Result<Finish, ForgeKitError>,
}

pub enum StartView {
    Processing(Seq<char>),
    Other(Seq<char>),
}

pub struct ReportView {
    pub job_id: Seq<char>,
    pub code: Seq<char>,
    pub hint: Seq<char>,
}

pub struct CommandView {
    pub tool: Seq<char>,
    pub program: Seq<char>,
    pub args: Seq<Seq<char>>,
    pub start: StartView,
    pub checked: bool,
    pub cleanup: Option<Seq<char>>,
    pub report: Option<ReportView>,
}

pub enum StepView {
    Report(EventView),
    ReportComplete(Seq<char>, Seq<char>),
    CreateDir(Seq<char>),
    Copy(Seq<char>, Seq<char>),
    WriteFile(Seq<char>, Seq<char>, Seq<char>),
    Run(CommandView),
}

pub enum FinishView {
    Message(Seq<char>),
    Printed,
    FieldValue(Seq<char>),
}

pub struct OutcomeView {
    pub steps: Seq<StepView>,
    pub end: Result<FinishView, ErrorView>,
}

impl View for StartFailure {
    type V = StartView;

    open spec fn view(&self) -> StartView {
        match self {
            StartFailure::Processing(p) => StartView::Processing(p@),
            StartFailure::Other(p) => StartView::Other(p@),
        }
    }
}

impl View for Command {
    type V = CommandView;

    open spec fn view(&self) -> CommandView {
        CommandView {
            tool: self.tool@,
            program: self.program@,
            args: texts(self.args@),
            start: self.start_failure@,
            checked: self.checked,
            cleanup: match self.cleanup {
                Some(c) => Some(c@),
                None => None,
            },
            report: match self.report {
                Some(r) => Some(ReportView { job_id: r.job_id@, code: r.code@, hint: r.hint@ }),
                None => None,
            },
        }
    }
}

impl View for Step {
    type V = StepView;

    open spec fn view(&self) -> StepView {
        match self {
            Step::Report(e) => StepView::Report(e@),
            Step::ReportComplete { job_id, output } => StepView::ReportComplete(job_id@, output@),
            Step::CreateDir(d) => StepView::CreateDir(d@),
            Step::Copy { from, to } => StepView::Copy(from@, to@),
            Step::WriteFile { path, contents, failure } => StepView::WriteFile(path@, contents@, failure@),
            Step::Run(c) => StepView::Run(c@),
        }
    }
}

/// The steps as plain values.
pub open spec fn step_views(steps: Seq<Step>) -> Seq<StepView> {
    steps.map_values(|s: Step| s@)
}

impl View for Outcome {
    type V = OutcomeView;

    open spec fn view(&self) -> OutcomeView {
        OutcomeView {
            steps: step_views(self.steps@),
            end: match self.end {
                Ok(Finish::Message(m)) => Ok(FinishView::Message(m@)),
                Ok(Finish::Printed) => Ok(FinishView::Printed),
                Ok(Finish::FieldValue(f)) => Ok(FinishView::FieldValue(f@)),
                Err(e) => Err(e@),
            },
        }
    }
}

// ---------------------------------------------------------------------------
// Shared pieces
// ---------------------------------------------------------------------------

/// A job that needs nothing run and ends with `message`.
pub open spec fn done(message: Seq<char>) -> OutcomeView {
    OutcomeView { steps: Seq::empty(), end: Ok(FinishView::Message(message)) }
}

/// A job that fails before doing anything.
pub open spec fn refused(e: ErrorView) -> OutcomeView {
    OutcomeView { steps: Seq::empty(), end: Err(e) }
}

/// Runs the commands and ends with `message`.
pub open spec fn running(steps: Seq<StepView>, message: Seq<char>) -> OutcomeView {
    OutcomeView { steps, end: Ok(FinishView::Message(message)) }
}

/// An invalid-input error about no particular file.
pub open spec fn invalid(reason: Seq<char>) -> ErrorView {
    ErrorView::InvalidInput { path: Seq::empty(), reason }
}

/// The error for an input file that does not exist.
pub open spec fn missing(path: Seq<char>) -> ErrorView {
    ErrorView::InvalidInput { path, reason: "Input file does not exist"@ }
}

/// Whether the facts say that `path` exists.
pub open spec fn exists_in(facts: Facts, path: Seq<char>) -> bool {
    texts(facts.existing@).contains(path)
}

/// Where a tool was found, or why it was not.
pub open spec fn found(r: Result<ToolInfo, ForgeKitError>) -> Result<Seq<char>, ErrorView> {
    match r {
        Ok(info) => Ok(info.path@),
        Err(e) => Err(e@),
    }
}

/// A command that is checked and removes nothing, as plain values.
pub open spec fn command(tool: Seq<char>, program: Seq<char>, args: Seq<Seq<char>>, start: StartView) -> StepView {
    StepView::Run(CommandView { tool, program, args, start, checked: true, cleanup: None, report: None })
}

/// A qpdf command as the PDF jobs run it.
pub open spec fn qpdf_command(program: Seq<char>, args: Seq<Seq<char>>) -> StepView {
    command("qpdf"@, program, args, StartView::Processing("Failed to execute: "@))
}

/// An ffmpeg command as the audio and video jobs run it.
pub open spec fn ffmpeg_command(program: Seq<char>, args: Seq<Seq<char>>) -> StepView {
    command("ffmpeg"@, program, args, StartView::Other("Failed to run ffmpeg: "@))
}

/// The usual shape of a job on one input file: a plan in plan mode;
/// otherwise the input must exist and the tool be found, and then `steps`
/// (given the tool's path) run and the job ends with `message`.
pub open spec fn single_input_job(
    plan_only: bool,
    plan: Seq<char>,
    facts: Facts,
    input: Seq<char>,
    tool: Result<ToolInfo, ForgeKitError>,
    steps: spec_fn(Seq<char>) -> Seq<StepView>,
    message: Seq<char>,
) -> OutcomeView {
    if plan_only {
        done(plan)
    } else if !exists_in(facts, input) {
        refused(missing(input))
    } else {
        match found(tool) {
            Err(e) => refused(e),
            Ok(path) => running(steps(path), message),
        }
    }
}

/// Whether `path` is among the existing paths.
pub fn input_exists(facts: &Facts, path: &str) -> (b: bool)
    ensures
        b == exists_in(*facts, path@),
{
    let n = facts.existing.len();
    for i in 0..n
        invariant
            n == facts.existing@.len(),
            forall|j: int| 0 <= j < i ==> facts.existing@[j]@ != path@,
    {
        if str_eq(facts.existing[i].as_str(), path) {
            assert(texts(facts.existing@)[i as int] == path@);
            assert(texts(facts.existing@).contains(path@));
            return true;
        }
    }
    assert(!texts(facts.existing@).contains(path@)) by {
        if texts(facts.existing@).contains(path@) {
            let j = choose|j: int| 0 <= j < texts(facts.existing@).len() && texts(facts.existing@)[j] == path@;
            assert(facts.existing@[j]@ == path@);
        }
    }
    false
}

/// The path of a found tool, or a copy of the error that says why it was
/// not found.
pub fn tool_path(r: &Result<ToolInfo, ForgeKitError>) -> (p: Result<String, ForgeKitError>)
    ensures
        match found(*r) {
            Ok(path) => p matches Ok(s) && s@ == path,
            Err(e) => p matches Err(x) && x@ == e,
        },
{
    match r {
        Ok(info) => Ok(string_of(info.path.as_str())),
        Err(e) => Err(e.duplicate()),
    }
}

/// An outcome that ends with `message` without running anything.
fn finished(message: String) -> (o: Outcome)
    ensures
        o@ == done(message@),
{
    let o = Outcome { steps: Vec::new(), end: Ok(Finish::Message(message)) };
    assert(o@.steps =~= Seq::<StepView>::empty());
    o
}

/// An outcome that fails before doing anything.
fn failed(e: ForgeKitError) -> (o: Outcome)
    ensures
        o@ == refused(e@),
{
    let o = Outcome { steps: Vec::new(), end: Err(e) };
    assert(o@.steps =~= Seq::<StepView>::empty());
    o
}

/// An outcome that performs the steps and ends with `message`.
fn run_all(steps: Vec<Step>, message: String) -> (o: Outcome)
    ensures
        o@ == running(step_views(steps@), message@),
{
    Outcome { steps, end: Ok(Finish::Message(message)) }
}

/// Appends a step.
fn push_step(v: &mut Vec<Step>, s: Step)
    ensures
        step_views(final(v)@) == step_views(old(v)@).push(s@),
{
    let ghost sv = s@;
    v.push(s);
    assert(step_views(v@) =~= step_views(old(v)@).push(sv));
}

/// Appends all of `more`.
fn append_steps(v: &mut Vec<Step>, more: Vec<Step>)
    ensures
        step_views(final(v)@) == step_views(old(v)@) + step_views(more@),
{
    let ghost extra = more@;
    let mut more = more;
    v.append(&mut more);
    assert(step_views(v@) =~= step_views(old(v)@) + step_views(extra));
}

/// The one step that runs a command.
fn one_step(s: Step) -> (v: Vec<Step>)
    ensures
        step_views(v@) == seq![s@],
{
    let mut v: Vec<Step> = Vec::new();
    push_step(&mut v, s);
    assert(step_views(v@) =~= seq![s@]);
    v
}

/// The error for an input file that does not exist.
fn missing_input(path: &str) -> (e: ForgeKitError)
    ensures
        e@ == missing(path@),
{
    ForgeKitError::InvalidInput { path: string_of(path), reason: string_of("Input file does not exist") }
}

/// An invalid-input error about no particular file.
fn invalid_reason(reason: String) -> (e: ForgeKitError)
    ensures
        e@ == invalid(reason@),
{
    ForgeKitError::InvalidInput { path: String::new(), reason }
}

/// A checked command that removes nothing and reports nothing.
fn checked_command(tool: &str, program: String, args: Vec<String>, start: StartFailure) -> (s: Step)
    ensures
        s@ == command(tool@, program@, texts(args@), start@),
{
    Step::Run(
        Command {
            tool: string_of(tool),
            program,
            args,
            start_failure: start,
            checked: true,
            cleanup: None,
            report: None,
        },
    )
}

/// A qpdf command as the PDF jobs run it.
fn qpdf_step(program: String, args: Vec<String>) -> (s: Step)
    ensures
        s@ == qpdf_command(program@, texts(args@)),
{
    checked_command("qpdf", program, args, StartFailure::Processing(string_of("Failed to execute: ")))
}

/// An ffmpeg command as the audio and video jobs run it.
fn ffmpeg_step(program: String, args: Vec<String>) -> (s: Step)
    ensures
        s@ == ffmpeg_command(program@, texts(args@)),
{
    checked_command("ffmpeg", program, args, StartFailure::Other(string_of("Failed to run ffmpeg: ")))
}

// ---------------------------------------------------------------------------
// PDF jobs on one input
// ---------------------------------------------------------------------------

/// Arguments of `qpdf --linearize`.
pub open spec fn linearize_args(input: Seq<char>, output: Seq<char>) -> Seq<Seq<char>> {
    seq!["--linearize"@, input, output]
}

/// What linearizing a PDF takes.
pub open spec fn linearize_outcome(input: Seq<char>, output: Seq<char>, plan_only: bool, facts: Facts) -> OutcomeView {
    single_input_job(
        plan_only,
        command_line("qpdf"@, linearize_args(input, output)),
        facts,
        input,
        facts.qpdf,
        |path: Seq<char>| seq![qpdf_command(path, linearize_args(input, output))],
        "Successfully linearized PDF to "@ + output,
    )
}

/// Linearizes a PDF for fast web viewing.
pub fn execute_pdf_linearize(input: &str, output: &str, plan_only: bool, facts: &Facts) -> (o: Outcome)
    ensures
        o@ == linearize_outcome(input@, output@, plan_only, *facts),
{
    let mut args: Vec<String> = Vec::new();
    push_text(&mut args, "--linearize");
    push_text(&mut args, input);
    push_text(&mut args, output);
    assert(texts(args@) =~= linearize_args(input@, output@));
    if plan_only {
        return finished(command_line_of("qpdf", args.as_slice()));
    }
    if !input_exists(facts, input) {
        return failed(missing_input(input));
    }
    match tool_path(&facts.qpdf) {
        Err(e) => failed(e),
        Ok(program) => {
            let mut message = string_of("Successfully linearized PDF to ");
            push_str(&mut message, output);
            run_all(one_step(qpdf_step(program, args)), message)
        },
    }
}

/// The page numbers, comma-separated.
pub open spec fn page_list(order: Seq<u32>) -> Seq<char> {
    join(order.map_values(|p: u32| dec(p as nat)), ","@)
}

/// Arguments of qpdf that take the listed pages of `input`, in order.
pub open spec fn select_args(input: Seq<char>, pages: Seq<char>, output: Seq<char>) -> Seq<Seq<char>> {
    seq![input, "--pages"@, "."@, pages, "--"@, output]
}

/// What reordering pages takes.
pub open spec fn reorder_outcome(
    input: Seq<char>,
    output: Seq<char>,
    order: Seq<u32>,
    plan_only: bool,
    facts: Facts,
) -> OutcomeView {
    if order.len() == 0 {
        refused(invalid("Page order cannot be empty"@))
    } else {
        single_input_job(
            plan_only,
            command_line("qpdf"@, select_args(input, page_list(order), output)),
            facts,
            input,
            facts.qpdf,
            |path: Seq<char>| seq![qpdf_command(path, select_args(input, page_list(order), output))],
            "Successfully reordered PDF pages to "@ + output,
        )
    }
}

/// The page numbers, comma-separated.
fn page_list_text(order: &[u32]) -> (r: String)
    ensures
        r@ == page_list(order@),
{
    let ghost all = order@.map_values(|p: u32| dec(p as nat));
    let mut r = String::new();
    let n = order.len();
    for i in 0..n
        invariant
            n == order@.len(),
            all == order@.map_values(|p: u32| dec(p as nat)),
            r@ == join(all.take(i as int), ","@),
    {
        proof {
            crate::pages::lemma_join_push(all.take(i as int), all[i as int], ","@);
            assert(all.take(i + 1) =~= all.take(i as int).push(all[i as int]));
        }
        if i > 0 {
            push_str(&mut r, ",");
        }
        push_dec(&mut r, order[i] as u64);
    }
    assert(all.take(n as int) =~= all);
    r
}

/// Arguments of qpdf that take the listed pages of `input`.
fn select_pages(input: &str, pages: &str, output: &str) -> (r: Vec<String>)
    ensures
        texts(r@) == select_args(input@, pages@, output@),
{
    let mut args: Vec<String> = Vec::new();
    push_text(&mut args, input);
    push_text(&mut args, "--pages");
    push_text(&mut args, ".");
    push_text(&mut args, pages);
    push_text(&mut args, "--");
    push_text(&mut args, output);
    assert(texts(args@) =~= select_args(input@, pages@, output@));
    args
}

/// Reorders the pages of a PDF (1-indexed page numbers in the new order).
pub fn execute_pdf_reorder(input: &str, output: &str, page_order: &[u32], plan_only: bool, facts: &Facts) -> (o:
    Outcome)
    ensures
        o@ == reorder_outcome(input@, output@, page_order@, plan_only, *facts),
{
    if page_order.len() == 0 {
        return failed(invalid_reason(string_of("Page order cannot be empty")));
    }
    let pages = page_list_text(page_order);
    let args = select_pages(input, pages.as_str(), output);
    if plan_only {
        return finished(command_line_of("qpdf", args.as_slice()));
    }
    if !input_exists(facts, input) {
        return failed(missing_input(input));
    }
    match tool_path(&facts.qpdf) {
        Err(e) => failed(e),
        Ok(program) => {
            let mut message = string_of("Successfully reordered PDF pages to ");
            push_str(&mut message, output);
            run_all(one_step(qpdf_step(program, args)), message)
        },
    }
}

// ---------------------------------------------------------------------------
// PDF metadata
// ---------------------------------------------------------------------------

/// An exiftool command as the metadata jobs run it.
pub open spec fn exiftool_command(program: Seq<char>, args: Seq<Seq<char>>, checked: bool) -> StepView {
    StepView::Run(
        CommandView {
            tool: "exiftool"@,
            program,
            args,
            start: StartView::Processing("Failed to run exiftool: "@),
            checked,
            cleanup: None,
            report: None,
        },
    )
}

/// What reading all metadata takes: the JSON exiftool prints is the result.
pub open spec fn metadata_get_all_outcome(input: Seq<char>, plan_only: bool, facts: Facts) -> OutcomeView {
    if plan_only {
        done(command_line("exiftool"@, read_json_args(input)))
    } else if !exists_in(facts, input) {
        refused(missing(input))
    } else {
        match found(facts.exiftool) {
            Err(e) => refused(e),
            Ok(path) => OutcomeView {
                steps: seq![exiftool_command(path, read_json_args(input), true)],
                end: Ok(FinishView::Printed),
            },
        }
    }
}

/// What reading one field takes: exiftool's answer is reported by
/// `field_report`, whatever its exit status.
pub open spec fn metadata_get_outcome(input: Seq<char>, field: Seq<char>, plan_only: bool, facts: Facts) -> OutcomeView {
    if plan_only {
        done(command_line("exiftool"@, read_field_args(input, field)))
    } else if !exists_in(facts, input) {
        refused(missing(input))
    } else {
        match found(facts.exiftool) {
            Err(e) => refused(e),
            Ok(path) => OutcomeView {
                steps: seq![exiftool_command(path, read_field_args(input, field), false)],
                end: Ok(FinishView::FieldValue(field)),
            },
        }
    }
}

/// The `-FIELD=VALUE` pairs as the plan shows them.
pub open spec fn plain_assignments(fields: Seq<(Seq<char>, Seq<char>)>) -> Seq<Seq<char>> {
    fields.map_values(|p: (Seq<char>, Seq<char>)| "-"@ + p.0 + "="@ + p.1)
}

/// The plan for setting fields: written in place when input and output
/// are the same path, else into `output`.
pub open spec fn metadata_set_plan(input: Seq<char>, output: Seq<char>, fields: Seq<(Seq<char>, Seq<char>)>) -> Seq<char> {
    command_line(
        "exiftool"@,
        plain_assignments(fields) + (if path_same(input, output) {
            seq!["-overwrite_original"@]
        } else {
            seq!["-o"@, output]
        }) + seq![input],
    )
}

/// What setting fields takes: the input is copied to the output unless
/// they are the same path, then the output is written in place.
pub open spec fn metadata_set_outcome(
    input: Seq<char>,
    output: Seq<char>,
    fields: Seq<(Seq<char>, Seq<char>)>,
    plan_only: bool,
    facts: Facts,
) -> OutcomeView {
    if plan_only {
        done(metadata_set_plan(input, output, fields))
    } else if !exists_in(facts, input) {
        refused(missing(input))
    } else {
        match found(facts.exiftool) {
            Err(e) => refused(e),
            Ok(path) => running(
                (if path_same(input, output) {
                    Seq::<StepView>::empty()
                } else {
                    seq![StepView::Copy(input, output)]
                }) + seq![exiftool_command(path, write_args(output, fields, true), true)],
                "Successfully set "@ + dec(fields.len()) + " metadata field(s) in "@ + output,
            ),
        }
    }
}

/// What a metadata job takes.
pub open spec fn metadata_outcome(
    input: Seq<char>,
    output: Option<Seq<char>>,
    action: MetadataAction,
    plan_only: bool,
    facts: Facts,
) -> OutcomeView {
    match action {
        MetadataAction::GetAll => metadata_get_all_outcome(input, plan_only, facts),
        MetadataAction::Get(field) => metadata_get_outcome(input, field@, plan_only, facts),
        MetadataAction::SetFields(fields) => match output {
            None => refused(invalid("Output file path required for set operations"@)),
            Some(o) => metadata_set_outcome(input, o, pair_texts(fields@), plan_only, facts),
        },
    }
}

/// The report on a metadata field from exiftool's answer: the trimmed
/// value, or a note that the field is not set.
pub open spec fn field_report_text(field: Seq<char>, stdout: Seq<char>) -> Seq<char> {
    if trim(stdout).len() == 0 {
        "Field '"@ + field + "' is not set"@
    } else {
        trim(stdout)
    }
}

/// The report on a metadata field from what exiftool printed.
pub fn field_report(field: &str, stdout: &str) -> (r: String)
    ensures
        r@ == field_report_text(field@, stdout@),
{
    let c = to_chars(stdout);
    let value = trim_chars(c.as_slice());
    if value.len() == 0 {
        let mut r = string_of("Field '");
        push_str(&mut r, field);
        push_str(&mut r, "' is not set");
        r
    } else {
        from_chars(value.as_slice())
    }
}

/// An exiftool command.
fn exiftool_step(program: String, args: Vec<String>, checked: bool) -> (s: Step)
    ensures
        s@ == exiftool_command(program@, texts(args@), checked),
{
    Step::Run(
        Command {
            tool: string_of("exiftool"),
            program,
            args,
            start_failure: StartFailure::Processing(string_of("Failed to run exiftool: ")),
            checked,
            cleanup: None,
            report: None,
        },
    )
}

/// Reads all PDF and XMP metadata as JSON.
pub fn execute_pdf_metadata_get_all(input: &str, plan_only: bool, facts: &Facts) -> (o: Outcome)
    ensures
        o@ == metadata_get_all_outcome(input@, plan_only, *facts),
{
    let args = ExiftoolTool::read_metadata_json_args(input);
    if plan_only {
        return finished(command_line_of("exiftool", args.as_slice()));
    }
    if !input_exists(facts, input) {
        return failed(missing_input(input));
    }
    match tool_path(&facts.exiftool) {
        Err(e) => failed(e),
        Ok(program) => Outcome { steps: one_step(exiftool_step(program, args, true)), end: Ok(Finish::Printed) },
    }
}

/// Reads one metadata field.
pub fn execute_pdf_metadata_get(input: &str, field: &str, plan_only: bool, facts: &Facts) -> (o: Outcome)
    ensures
        o@ == metadata_get_outcome(input@, field@, plan_only, *facts),
{
    let args = ExiftoolTool::read_field_args(input, field);
    if plan_only {
        return finished(command_line_of("exiftool", args.as_slice()));
    }
    if !input_exists(facts, input) {
        return failed(missing_input(input));
    }
    match tool_path(&facts.exiftool) {
        Err(e) => failed(e),
        Ok(program) => Outcome {
            steps: one_step(exiftool_step(program, args, false)),
            end: Ok(Finish::FieldValue(string_of(field))),
        },
    }
}

/// Sets metadata fields, writing into `output`.
pub fn execute_pdf_metadata_set(
    input: &str,
    output: &str,
    fields: &[(String, String)],
    plan_only: bool,
    facts: &Facts,
) -> (o: Outcome)
    ensures
        o@ == metadata_set_outcome(input@, output@, pair_texts(fields@), plan_only, *facts),
{
    let ghost pairs = pair_texts(fields@);
    let same = same_path(input, output);
    if plan_only {
        let mut parts: Vec<String> = Vec::new();
        let n = fields.len();
        for i in 0..n
            invariant
                n == fields@.len(),
                pairs == pair_texts(fields@),
                texts(parts@) == plain_assignments(pairs).take(i as int),
        {
            let mut a = string_of("-");
            push_str(&mut a, fields[i].0.as_str());
            push_str(&mut a, "=");
            push_str(&mut a, fields[i].1.as_str());
            push_string(&mut parts, a);
            assert(plain_assignments(pairs).take(i + 1) =~= plain_assignments(pairs).take(i as int).push(
                plain_assignments(pairs)[i as int],
            ));
        }
        assert(plain_assignments(pairs).take(n as int) =~= plain_assignments(pairs));
        let ghost before = texts(parts@);
        if same {
            push_text(&mut parts, "-overwrite_original");
        } else {
            push_text(&mut parts, "-o");
            push_text(&mut parts, output);
        }
        push_text(&mut parts, input);
        assert(texts(parts@) =~= plain_assignments(pairs) + (if path_same(input@, output@) {
            seq!["-overwrite_original"@]
        } else {
            seq!["-o"@, output@]
        }) + seq![input@]);
        return finished(command_line_of("exiftool", parts.as_slice()));
    }
    if !input_exists(facts, input) {
        return failed(missing_input(input));
    }
    match tool_path(&facts.exiftool) {
        Err(e) => failed(e),
        Ok(program) => {
            let mut steps: Vec<Step> = Vec::new();
            if !same {
                push_step(&mut steps, Step::Copy { from: string_of(input), to: string_of(output) });
            }
            let args = ExiftoolTool::write_metadata_args(output, fields, true);
            push_step(&mut steps, exiftool_step(program, args, true));
            let mut message = string_of("Successfully set ");
            push_dec(&mut message, fields.len() as u64);
            push_str(&mut message, " metadata field(s) in ");
            push_str(&mut message, output);
            assert(step_views(steps@) =~= (if path_same(input@, output@) {
                Seq::<StepView>::empty()
            } else {
                seq![StepView::Copy(input@, output@)]
            }) + seq![exiftool_command(program@, write_args(output@, pairs, true), true)]);
            run_all(steps, message)
        },
    }
}

/// Reads or writes PDF metadata; writing needs an output path.
pub fn execute_pdf_metadata(
    input: &str,
    output: Option<&str>,
    action: &MetadataAction,
    plan_only: bool,
    facts: &Facts,
) -> (o: Outcome)
    ensures
        o@ == metadata_outcome(
            input@,
            match output {
                Some(p) => Some(p@),
                None => None,
            },
            *action,
            plan_only,
            *facts,
        ),
{
    match action {
        MetadataAction::GetAll => execute_pdf_metadata_get_all(input, plan_only, facts),
        MetadataAction::Get(field) => execute_pdf_metadata_get(input, field.as_str(), plan_only, facts),
        MetadataAction::SetFields(fields) => match output {
            None => failed(invalid_reason(string_of("Output file path required for set operations"))),
            Some(o) => execute_pdf_metadata_set(input, o, fields.as_slice(), plan_only, facts),
        },
    }
}

// ---------------------------------------------------------------------------
// Images
// ---------------------------------------------------------------------------

/// A vips command as the image jobs run it.
pub open spec fn vips_command(program: Seq<char>, args: Seq<Seq<char>>) -> StepView {
    command("vips"@, program, args, StartView::Processing("Failed to execute vips: "@))
}

/// The vipsthumbnail command, found beside vips.
pub open spec fn thumbnail_command(vips_path: Seq<char>, args: Seq<Seq<char>>) -> StepView {
    command(
        "vipsthumbnail"@,
        path_renamed(vips_path, "vipsthumbnail"@),
        args,
        StartView::Processing("Failed to execute vipsthumbnail: "@),
    )
}

/// What converting an image takes.
pub open spec fn image_convert_outcome(
    input: Seq<char>,
    output: Seq<char>,
    format: ImageFormat,
    quality: Option<u8>,
    compression: Option<u8>,
    strip: bool,
    plan_only: bool,
    facts: Facts,
) -> OutcomeView {
    single_input_job(
        plan_only,
        command_line("vips"@, vips_convert_args(input, output, quality, compression, strip)),
        facts,
        input,
        facts.vips,
        |path: Seq<char>| seq![vips_command(path, vips_convert_args(input, output, quality, compression, strip))],
        "Successfully converted image to "@ + output + " ("@ + image_ext(format) + ")"@,
    )
}

/// How a resize is described in its success message.
pub open spec fn size_words(width: Option<u32>, height: Option<u32>) -> Seq<char> {
    match (width, height) {
        (Some(w), Some(h)) => dec(w as nat) + "x"@ + dec(h as nat),
        (Some(w), None) => "width "@ + dec(w as nat),
        (None, Some(h)) => "height "@ + dec(h as nat),
        (None, None) => "?"@,
    }
}

/// What resizing an image takes; a width or a height is needed.
pub open spec fn image_resize_outcome(
    input: Seq<char>,
    output: Seq<char>,
    width: Option<u32>,
    height: Option<u32>,
    plan_only: bool,
    facts: Facts,
) -> OutcomeView {
    match resize_size(width, height) {
        None => refused(invalid("Width or height required for resize"@)),
        Some(size) => single_input_job(
            plan_only,
            command_line("vipsthumbnail"@, vips_resize_args(input, output, size)),
            facts,
            input,
            facts.vips,
            |path: Seq<char>| seq![thumbnail_command(path, vips_resize_args(input, output, size))],
            "Successfully resized image to "@ + output + " ("@ + size_words(width, height) + ")"@,
        ),
    }
}

/// What stripping image metadata takes.
pub open spec fn image_strip_outcome(input: Seq<char>, output: Seq<char>, plan_only: bool, facts: Facts) -> OutcomeView {
    single_input_job(
        plan_only,
        command_line("vips"@, vips_strip_args(input, output)),
        facts,
        input,
        facts.vips,
        |path: Seq<char>| seq![vips_command(path, vips_strip_args(input, output))],
        "Successfully stripped metadata from image: "@ + output,
    )
}

/// A vips command.
fn vips_step(program: String, args: Vec<String>) -> (s: Step)
    ensures
        s@ == vips_command(program@, texts(args@)),
{
    checked_command("vips", program, args, StartFailure::Processing(string_of("Failed to execute vips: ")))
}

/// Converts an image, with optional quality, PNG compression level and
/// metadata stripping.
pub fn execute_image_convert(
    input: &str,
    output: &str,
    format: &ImageFormat,
    quality: Option<u8>,
    compression: Option<u8>,
    strip: bool,
    plan_only: bool,
    facts: &Facts,
) -> (o: Outcome)
    ensures
        o@ == image_convert_outcome(input@, output@, *format, quality, compression, strip, plan_only, *facts),
{
    if plan_only {
        return finished(LibvipsTool::plan_convert(input, output, quality, compression, strip));
    }
    if !input_exists(facts, input) {
        return failed(missing_input(input));
    }
    match tool_path(&facts.vips) {
        Err(e) => failed(e),
        Ok(program) => {
            let args = LibvipsTool::convert_args(input, output, quality, compression, strip);
            let mut message = string_of("Successfully converted image to ");
            push_str(&mut message, output);
            push_str(&mut message, " (");
            push_str(&mut message, format.extension());
            push_str(&mut message, ")");
            run_all(one_step(vips_step(program, args)), message)
        },
    }
}

/// Resizes an image to fit the given width and/or height.
pub fn execute_image_resize(
    input: &str,
    output: &str,
    width: Option<u32>,
    height: Option<u32>,
    plan_only: bool,
    facts: &Facts,
) -> (o: Outcome)
    ensures
        o@ == image_resize_outcome(input@, output@, width, height, plan_only, *facts),
{
    let args = match LibvipsTool::resize_args(input, output, width, height) {
        Err(e) => {
            return failed(e);
        },
        Ok(a) => a,
    };
    if plan_only {
        return finished(command_line_of("vipsthumbnail", args.as_slice()));
    }
    if !input_exists(facts, input) {
        return failed(missing_input(input));
    }
    match tool_path(&facts.vips) {
        Err(e) => failed(e),
        Ok(vips) => {
            let program = with_file_name(vips.as_str(), "vipsthumbnail");
            let step = checked_command(
                "vipsthumbnail",
                program,
                args,
                StartFailure::Processing(string_of("Failed to execute vipsthumbnail: ")),
            );
            let mut message = string_of("Successfully resized image to ");
            push_str(&mut message, output);
            push_str(&mut message, " (");
            match (width, height) {
                (Some(w), Some(h)) => {
                    push_dec(&mut message, w as u64);
                    push_str(&mut message, "x");
                    push_dec(&mut message, h as u64);
                },
                (Some(w), None) => {
                    push_str(&mut message, "width ");
                    push_dec(&mut message, w as u64);
                },
                (None, Some(h)) => {
                    push_str(&mut message, "height ");
                    push_dec(&mut message, h as u64);
                },
                (None, None) => {
                    push_str(&mut message, "?");
                },
            }
            push_str(&mut message, ")");
            assert(message@ =~= "Successfully resized image to "@ + output@ + " ("@ + size_words(width, height)
                + ")"@);
            run_all(one_step(step), message)
        },
    }
}

/// Strips the metadata of an image.
pub fn execute_image_strip(input: &str, output: &str, plan_only: bool, facts: &Facts) -> (o: Outcome)
    ensures
        o@ == image_strip_outcome(input@, output@, plan_only, *facts),
{
    let args = LibvipsTool::strip_args(input, output);
    if plan_only {
        return finished(command_line_of("vips", args.as_slice()));
    }
    if !input_exists(facts, input) {
        return failed(missing_input(input));
    }
    match tool_path(&facts.vips) {
        Err(e) => failed(e),
        Ok(program) => {
            let mut message = string_of("Successfully stripped metadata from image: ");
            push_str(&mut message, output);
            run_all(one_step(vips_step(program, args)), message)
        },
    }
}

// ---------------------------------------------------------------------------
// Audio and video
// ---------------------------------------------------------------------------

/// " at <n>kbps" for a bitrate, nothing without one.
pub open spec fn at_kbps(bitrate: Option<u32>) -> Seq<char> {
    match bitrate {
        Some(b) => " at "@ + dec(b as nat) + "kbps"@,
        None => ""@,
    }
}

/// What converting audio takes.
pub open spec fn audio_convert_outcome(
    input: Seq<char>,
    output: Seq<char>,
    format: AudioFormat,
    bitrate: Option<u32>,
    plan_only: bool,
    facts: Facts,
) -> OutcomeView {
    single_input_job(
        plan_only,
        command_line("ffmpeg"@, convert_args_spec(input, output, format, bitrate)),
        facts,
        input,
        facts.ffmpeg,
        |path: Seq<char>| seq![ffmpeg_command(path, convert_args_spec(input, output, format, bitrate))],
        "Successfully converted audio to "@ + output + " ("@ + audio_ext(format) + ")"@ + at_kbps(bitrate),
    )
}

/// What extracting the audio of a video takes.
pub open spec fn audio_extract_outcome(
    input: Seq<char>,
    output: Seq<char>,
    format: AudioFormat,
    bitrate: Option<u32>,
    plan_only: bool,
    facts: Facts,
) -> OutcomeView {
    single_input_job(
        plan_only,
        command_line("ffmpeg"@, extract_args_spec(input, output, format, bitrate)),
        facts,
        input,
        facts.ffmpeg,
        |path: Seq<char>| seq![ffmpeg_command(path, extract_args_spec(input, output, format, bitrate))],
        "Successfully extracted audio to "@ + output + " ("@ + audio_ext(format) + ")"@ + at_kbps(bitrate),
    )
}

/// What downmixing to mono takes.
pub open spec fn audio_mono_outcome(input: Seq<char>, output: Seq<char>, plan_only: bool, facts: Facts) -> OutcomeView {
    single_input_job(
        plan_only,
        command_line("ffmpeg"@, mono_args_spec(input, output)),
        facts,
        input,
        facts.ffmpeg,
        |path: Seq<char>| seq![ffmpeg_command(path, mono_args_spec(input, output))],
        "Successfully converted to mono: "@ + output,
    )
}

/// Whether the `k`-th path is the first one that does not exist.
pub open spec fn first_missing_at(facts: Facts, paths: Seq<Seq<char>>, k: int) -> bool {
    &&& 0 <= k < paths.len()
    &&& !exists_in(facts, paths[k])
    &&& forall|j: int| 0 <= j < k ==> exists_in(facts, #[trigger] paths[j])
}

/// Whether some path does not exist.
pub open spec fn some_missing(facts: Facts, paths: Seq<Seq<char>>) -> bool {
    exists|k: int| first_missing_at(facts, paths, k)
}

/// The first path that does not exist (meaningful when `some_missing`).
pub open spec fn first_missing(facts: Facts, paths: Seq<Seq<char>>) -> Seq<char> {
    paths[choose|k: int| first_missing_at(facts, paths, k)]
}

/// The concat list that a join writes: in the temporary directory, named
/// after the process.
pub open spec fn concat_list_path(facts: Facts) -> Seq<char> {
    path_joined(facts.temp_dir@, "ffmpeg_concat_"@ + dec(facts.process_id as nat) + ".txt"@)
}

/// What joining audio files takes.  The plan shows the files as given;
/// running needs every input to exist and at least two of them.
pub open spec fn audio_join_outcome(inputs: Seq<Seq<char>>, output: Seq<char>, plan_only: bool, facts: Facts) -> OutcomeView {
    if plan_only {
        done(plan_join_spec(inputs, output))
    } else if some_missing(facts, inputs) {
        refused(missing(first_missing(facts, inputs)))
    } else if inputs.len() < 2 {
        refused(invalid("At least 2 input files are required for join"@))
    } else {
        match found(facts.ffmpeg) {
            Err(e) => refused(e),
            Ok(path) => running(
                seq![
                    StepView::WriteFile(
                        concat_list_path(facts),
                        concat_list_spec(inputs),
                        "Failed to create concat list: "@,
                    ),
                    StepView::Run(
                        CommandView {
                            tool: "ffmpeg"@,
                            program: path,
                            args: join_args_spec(concat_list_path(facts), output),
                            start: StartView::Other("Failed to run ffmpeg: "@),
                            checked: true,
                            cleanup: Some(concat_list_path(facts)),
                            report: None,
                        },
                    ),
                ],
                "Successfully joined "@ + dec(inputs.len()) + " audio files to "@ + output,
            ),
        }
    }
}

/// How a transcode's scaling is described in its success message.
pub open spec fn scale_words(scale: Option<(i32, i32)>) -> Seq<char> {
    match scale {
        Some((w, h)) => if h == -1 {
            " scaled to "@ + dec_int(w as int) + "p"@
        } else {
            " scaled to "@ + dec_int(w as int) + "x"@ + dec_int(h as int)
        },
        None => ""@,
    }
}

/// What transcoding a video to H.264 takes.
pub open spec fn video_transcode_outcome(
    input: Seq<char>,
    output: Seq<char>,
    crf: u8,
    preset: Seq<char>,
    scale: Option<(i32, i32)>,
    copy_audio: bool,
    plan_only: bool,
    facts: Facts,
) -> OutcomeView {
    single_input_job(
        plan_only,
        command_line("ffmpeg"@, transcode_args_spec(input, output, crf, preset, scale, copy_audio)),
        facts,
        input,
        facts.ffmpeg,
        |path: Seq<char>| seq![ffmpeg_command(path, transcode_args_spec(input, output, crf, preset, scale, copy_audio))],
        "Successfully transcoded video to "@ + output + " (H.264, CRF "@ + dec(crf as nat) + ")"@
            + scale_words(scale),
    )
}

/// Appends " at <n>kbps" when there is a bitrate.
fn push_at_kbps(s: &mut String, bitrate: Option<u32>)
    ensures
        final(s)@ == old(s)@ + at_kbps(bitrate),
{
    match bitrate {
        Some(b) => {
            push_str(s, " at ");
            push_dec(s, b as u64);
            push_str(s, "kbps");
        },
        None => {
            proof {
                reveal_strlit("");
            }
            assert(old(s)@ + ""@ =~= old(s)@);
        },
    }
}

/// Converts audio to another format.
pub fn execute_audio_convert(
    input: &str,
    output: &str,
    format: &AudioFormat,
    bitrate: Option<u32>,
    plan_only: bool,
    facts: &Facts,
) -> (o: Outcome)
    ensures
        o@ == audio_convert_outcome(input@, output@, *format, bitrate, plan_only, *facts),
{
    if plan_only {
        return finished(FfmpegTool::plan_convert(input, output, format, bitrate));
    }
    if !input_exists(facts, input) {
        return failed(missing_input(input));
    }
    match tool_path(&facts.ffmpeg) {
        Err(e) => failed(e),
        Ok(program) => {
            let args = FfmpegTool::convert_args(input, output, format, bitrate);
            let mut message = string_of("Successfully converted audio to ");
            push_str(&mut message, output);
            push_str(&mut message, " (");
            push_str(&mut message, format.extension());
            push_str(&mut message, ")");
            push_at_kbps(&mut message, bitrate);
            run_all(one_step(ffmpeg_step(program, args)), message)
        },
    }
}

/// Extracts the audio track of a video.
pub fn execute_audio_extract(
    input: &str,
    output: &str,
    format: &AudioFormat,
    bitrate: Option<u32>,
    plan_only: bool,
    facts: &Facts,
) -> (o: Outcome)
    ensures
        o@ == audio_extract_outcome(input@, output@, *format, bitrate, plan_only, *facts),
{
    if plan_only {
        return finished(FfmpegTool::plan_extract(input, output, format, bitrate));
    }
    if !input_exists(facts, input) {
        return failed(missing_input(input));
    }
    match tool_path(&facts.ffmpeg) {
        Err(e) => failed(e),
        Ok(program) => {
            let args = FfmpegTool::extract_args(input, output, format, bitrate);
            let mut message = string_of("Successfully extracted audio to ");
            push_str(&mut message, output);
            push_str(&mut message, " (");
            push_str(&mut message, format.extension());
            push_str(&mut message, ")");
            push_at_kbps(&mut message, bitrate);
            run_all(one_step(ffmpeg_step(program, args)), message)
        },
    }
}

/// Downmixes audio to mono.
pub fn execute_audio_mono(input: &str, output: &str, plan_only: bool, facts: &Facts) -> (o: Outcome)
    ensures
        o@ == audio_mono_outcome(input@, output@, plan_only, *facts),
{
    if plan_only {
        return finished(FfmpegTool::plan_mono(input, output));
    }
    if !input_exists(facts, input) {
        return failed(missing_input(input));
    }
    match tool_path(&facts.ffmpeg) {
        Err(e) => failed(e),
        Ok(program) => {
            let args = FfmpegTool::mono_args(input, output);
            let mut message = string_of("Successfully converted to mono: ");
            push_str(&mut message, output);
            run_all(one_step(ffmpeg_step(program, args)), message)
        },
    }
}

/// The position of the first path that does not exist, if any.
fn find_missing(facts: &Facts, paths: &[String]) -> (r: Option<usize>)
    ensures
        r is None ==> !some_missing(*facts, texts(paths@)),
        r matches Some(k) ==> k < paths@.len() && some_missing(*facts, texts(paths@)) && first_missing(
            *facts,
            texts(paths@),
        ) == paths@[k as int]@,
{
    let ghost all = texts(paths@);
    let n = paths.len();
    for i in 0..n
        invariant
            n == paths@.len(),
            all == texts(paths@),
            forall|j: int| 0 <= j < i ==> exists_in(*facts, #[trigger] all[j]),
    {
        if !input_exists(facts, paths[i].as_str()) {
            proof {
                assert(all[i as int] == paths@[i as int]@);
                assert(first_missing_at(*facts, all, i as int));
                let k = choose|k: int| first_missing_at(*facts, all, k);
                if k < i {
                    assert(exists_in(*facts, all[k]));
                } else if k > i {
                    assert(exists_in(*facts, all[i as int]));
                }
            }
            return Some(i);
        }
        assert(all[i as int] == paths@[i as int]@);
    }
    proof {
        if some_missing(*facts, all) {
            let k = choose|k: int| first_missing_at(*facts, all, k);
            assert(exists_in(*facts, all[k]));
        }
    }
    None
}

/// Joins audio files into one, through an ffmpeg concat list.
pub fn execute_audio_join(inputs: &[String], output: &str, plan_only: bool, facts: &Facts) -> (o: Outcome)
    ensures
        o@ == audio_join_outcome(texts(inputs@), output@, plan_only, *facts),
{
    if plan_only {
        return finished(FfmpegTool::plan_join(inputs, output));
    }
    match find_missing(facts, inputs) {
        Some(k) => {
            return failed(missing_input(inputs[k].as_str()));
        },
        None => {},
    }
    if inputs.len() < 2 {
        return failed(invalid_reason(string_of("At least 2 input files are required for join")));
    }
    match tool_path(&facts.ffmpeg) {
        Err(e) => failed(e),
        Ok(program) => {
            let mut name = string_of("ffmpeg_concat_");
            push_dec(&mut name, facts.process_id as u64);
            push_str(&mut name, ".txt");
            let list = join_path(facts.temp_dir.as_str(), name.as_str());
            let args = FfmpegTool::join_args(list.as_str(), output);
            let mut steps: Vec<Step> = Vec::new();
            push_step(
                &mut steps,
                Step::WriteFile {
                    path: string_of(list.as_str()),
                    contents: FfmpegTool::concat_list(inputs),
                    failure: string_of("Failed to create concat list: "),
                },
            );
            push_step(
                &mut steps,
                Step::Run(
                    Command {
                        tool: string_of("ffmpeg"),
                        program,
                        args,
                        start_failure: StartFailure::Other(string_of("Failed to run ffmpeg: ")),
                        checked: true,
                        cleanup: Some(list),
                        report: None,
                    },
                ),
            );
            let mut message = string_of("Successfully joined ");
            push_dec(&mut message, inputs.len() as u64);
            push_str(&mut message, " audio files to ");
            push_str(&mut message, output);
            assert(step_views(steps@) =~= seq![
                StepView::WriteFile(
                    concat_list_path(*facts),
                    concat_list_spec(texts(inputs@)),
                    "Failed to create concat list: "@,
                ),
                StepView::Run(
                    CommandView {
                        tool: "ffmpeg"@,
                        program: program@,
                        args: join_args_spec(concat_list_path(*facts), output@),
                        start: StartView::Other("Failed to run ffmpeg: "@),
                        checked: true,
                        cleanup: Some(concat_list_path(*facts)),
                        report: None,
                    },
                ),
            ]);
            run_all(steps, message)
        },
    }
}

/// Transcodes a video to H.264.
pub fn execute_video_transcode(
    input: &str,
    output: &str,
    crf: u8,
    preset: &str,
    scale: Option<(i32, i32)>,
    copy_audio: bool,
    plan_only: bool,
    facts: &Facts,
) -> (o: Outcome)
    ensures
        o@ == video_transcode_outcome(input@, output@, crf, preset@, scale, copy_audio, plan_only, *facts),
{
    if plan_only {
        return finished(FfmpegTool::plan_transcode(input, output, crf, preset, scale, copy_audio));
    }
    if !input_exists(facts, input) {
        return failed(missing_input(input));
    }
    match tool_path(&facts.ffmpeg) {
        Err(e) => failed(e),
        Ok(program) => {
            let args = FfmpegTool::transcode_args(input, output, crf, preset, scale, copy_audio);
            let mut message = string_of("Successfully transcoded video to ");
            push_str(&mut message, output);
            push_str(&mut message, " (H.264, CRF ");
            push_dec(&mut message, crf as u64);
            push_str(&mut message, ")");
            match scale {
                Some((w, h)) => {
                    push_str(&mut message, " scaled to ");
                    push_int(&mut message, w as i64);
                    if h == -1 {
                        push_str(&mut message, "p");
                    } else {
                        push_str(&mut message, "x");
                        push_int(&mut message, h as i64);
                    }
                },
                None => {
                    proof {
                        reveal_strlit("");
                    }
                    assert(message@ + ""@ =~= message@);
                },
            }
            assert(message@ =~= "Successfully transcoded video to "@ + output@ + " (H.264, CRF "@ + dec(
                crf as nat,
            ) + ")"@ + scale_words(scale));
            run_all(one_step(ffmpeg_step(program, args)), message)
        },
    }
}

// ---------------------------------------------------------------------------
// Merging, splitting and extracting pages
// ---------------------------------------------------------------------------

/// Arguments of qpdf that merge all pages of the inputs into `output`.
pub open spec fn merge_args(inputs: Seq<Seq<char>>, output: Seq<char>, linearize: bool) -> Seq<Seq<char>> {
    (if linearize {
        seq!["--linearize"@]
    } else {
        Seq::<Seq<char>>::empty()
    }) + seq!["--empty"@, "--pages"@] + inputs.map_values(|i: Seq<char>| i + " 1-z"@) + seq!["--"@, output]
}

/// The event that starts a merge.
pub open spec fn merge_started(facts: Facts, n: nat) -> StepView {
    StepView::Report(
        progress_view(facts.job_id@, 0, n as u32, 0, "starting"@, "Starting merge of "@ + dec(n) + " PDFs"@),
    )
}

/// What merging PDFs takes.  The start is reported first; qpdf must be
/// found even for the plan; running needs every input to exist, reports
/// an error event if qpdf fails, and reports progress and completion.
pub open spec fn merge_outcome(
    inputs: Seq<Seq<char>>,
    output: Seq<char>,
    linearize: bool,
    plan_only: bool,
    facts: Facts,
) -> OutcomeView {
    let n = inputs.len();
    let start = seq![merge_started(facts, n)];
    if n < 2 {
        OutcomeView { steps: start, end: Err(invalid("At least 2 input PDFs required for merge"@)) }
    } else {
        match found(facts.qpdf) {
            Err(e) => OutcomeView { steps: start, end: Err(e) },
            Ok(path) => if plan_only {
                OutcomeView {
                    steps: start,
                    end: Ok(FinishView::Message(command_line("qpdf"@, merge_args(inputs, output, linearize)))),
                }
            } else if some_missing(facts, inputs) {
                OutcomeView { steps: start, end: Err(missing(first_missing(facts, inputs))) }
            } else {
                running(
                    start + seq![
                        StepView::Run(
                            CommandView {
                                tool: "qpdf"@,
                                program: path,
                                args: merge_args(inputs, output, linearize),
                                start: StartView::Processing("Failed to execute: "@),
                                checked: true,
                                cleanup: None,
                                report: Some(
                                    ReportView {
                                        job_id: facts.job_id@,
                                        code: "PROCESSING_FAILED"@,
                                        hint: "Check that input files are valid PDFs"@,
                                    },
                                ),
                            },
                        ),
                        StepView::Report(
                            progress_view(
                                facts.job_id@,
                                n as u32,
                                n as u32,
                                100,
                                "merging"@,
                                "Merged "@ + dec(n) + " PDFs"@,
                            ),
                        ),
                        StepView::ReportComplete(facts.job_id@, output),
                    ],
                    "Successfully merged "@ + dec(n) + " PDFs to "@ + output,
                )
            },
        }
    }
}

/// Arguments of qpdf that merge the inputs.
fn merge_arguments(inputs: &[String], output: &str, linearize: bool) -> (r: Vec<String>)
    ensures
        texts(r@) == merge_args(texts(inputs@), output@, linearize),
{
    let ghost all = texts(inputs@);
    let ghost tagged = all.map_values(|i: Seq<char>| i + " 1-z"@);
    let mut args: Vec<String> = Vec::new();
    if linearize {
        push_text(&mut args, "--linearize");
    }
    push_text(&mut args, "--empty");
    push_text(&mut args, "--pages");
    let ghost head = texts(args@);
    let n = inputs.len();
    for i in 0..n
        invariant
            n == inputs@.len(),
            all == texts(inputs@),
            tagged == all.map_values(|i: Seq<char>| i + " 1-z"@),
            texts(args@) == head + tagged.take(i as int),
    {
        let mut a = string_of(inputs[i].as_str());
        push_str(&mut a, " 1-z");
        push_string(&mut args, a);
        assert(tagged.take(i + 1) =~= tagged.take(i as int).push(tagged[i as int]));
        assert(head + tagged.take(i + 1) =~= (head + tagged.take(i as int)).push(tagged[i as int]));
    }
    assert(tagged.take(n as int) =~= tagged);
    push_text(&mut args, "--");
    push_text(&mut args, output);
    assert(texts(args@) =~= merge_args(all, output@, linearize));
    args
}

/// Merges PDFs into one file, reporting progress.
pub fn execute_pdf_merge(inputs: &[String], output: &str, linearize: bool, plan_only: bool, facts: &Facts) -> (o:
    Outcome)
    ensures
        o@ == merge_outcome(texts(inputs@), output@, linearize, plan_only, *facts),
{
    let n = inputs.len();
    let mut started = string_of("Starting merge of ");
    push_dec(&mut started, n as u64);
    push_str(&mut started, " PDFs");
    let mut steps: Vec<Step> = Vec::new();
    push_step(
        &mut steps,
        Step::Report(progress_event(facts.job_id.as_str(), 0, n as u32, 0, "starting", started)),
    );
    assert(step_views(steps@) =~= seq![merge_started(*facts, n as nat)]);
    if n < 2 {
        return Outcome {
            steps,
            end: Err(invalid_reason(string_of("At least 2 input PDFs required for merge"))),
        };
    }
    let program = match tool_path(&facts.qpdf) {
        Err(e) => {
            return Outcome { steps, end: Err(e) };
        },
        Ok(p) => p,
    };
    let ghost program_path = program@;
    let args = merge_arguments(inputs, output, linearize);
    if plan_only {
        return Outcome { steps, end: Ok(Finish::Message(command_line_of("qpdf", args.as_slice()))) };
    }
    match find_missing(facts, inputs) {
        Some(k) => {
            return Outcome { steps, end: Err(missing_input(inputs[k].as_str())) };
        },
        None => {},
    }
    push_step(
        &mut steps,
        Step::Run(
            Command {
                tool: string_of("qpdf"),
                program,
                args,
                start_failure: StartFailure::Processing(string_of("Failed to execute: ")),
                checked: true,
                cleanup: None,
                report: Some(
                    FailureReport {
                        job_id: string_of(facts.job_id.as_str()),
                        code: string_of("PROCESSING_FAILED"),
                        hint: string_of("Check that input files are valid PDFs"),
                    },
                ),
            },
        ),
    );
    let mut merged = string_of("Merged ");
    push_dec(&mut merged, n as u64);
    push_str(&mut merged, " PDFs");
    push_step(
        &mut steps,
        Step::Report(progress_event(facts.job_id.as_str(), n as u32, n as u32, 100, "merging", merged)),
    );
    push_step(
        &mut steps,
        Step::ReportComplete { job_id: string_of(facts.job_id.as_str()), output: string_of(output) },
    );
    let mut message = string_of("Successfully merged ");
    push_dec(&mut message, n as u64);
    push_str(&mut message, " PDFs to ");
    push_str(&mut message, output);
    proof {
        let n2 = texts(inputs@).len();
        assert(n2 == n);
        let start = seq![merge_started(*facts, n2)];
        assert(step_views(steps@) =~= start + seq![
            StepView::Run(
                CommandView {
                    tool: "qpdf"@,
                    program: program_path,
                    args: merge_args(texts(inputs@), output@, linearize),
                    start: StartView::Processing("Failed to execute: "@),
                    checked: true,
                    cleanup: None,
                    report: Some(
                        ReportView {
                            job_id: facts.job_id@,
                            code: "PROCESSING_FAILED"@,
                            hint: "Check that input files are valid PDFs"@,
                        },
                    ),
                },
            ),
            StepView::Report(
                progress_view(facts.job_id@, n2 as u32, n2 as u32, 100, "merging"@, "Merged "@ + dec(n2) + " PDFs"@),
            ),
            StepView::ReportComplete(facts.job_id@, output@),
        ]);
    }
    run_all(steps, message)
}

/// The page count a job works with: in plan mode what qpdf reported, or
/// 100 when it could not tell; otherwise what qpdf reported, or its error.
pub open spec fn counted_pages(plan_only: bool, facts: Facts) -> Result<nat, ErrorView> {
    match facts.page_count {
        Ok(c) => Ok(c as nat),
        Err(e) => if plan_only {
            Ok(100)
        } else {
            Err(e@)
        },
    }
}

/// What splitting out pages takes: the selected pages go to
/// `split_output.pdf` in the output directory, which is created first.
pub open spec fn split_outcome(
    input: Seq<char>,
    output_dir: Seq<char>,
    pages: Seq<PageSpec>,
    plan_only: bool,
    facts: Facts,
) -> OutcomeView {
    let out_file = path_joined(output_dir, "split_output.pdf"@);
    if !exists_in(facts, input) {
        refused(missing(input))
    } else {
        match found(facts.qpdf) {
            Err(e) => refused(e),
            Ok(path) => match counted_pages(plan_only, facts) {
                Err(e) => refused(e),
                Ok(total) => if plan_only {
                    match qpdf_pages_spec(pages, total) {
                        Err(reason) => refused(invalid(reason)),
                        Ok(list) => done(command_line("qpdf"@, select_args(input, list, out_file))),
                    }
                } else {
                    match qpdf_pages_spec(pages, total) {
                        Err(reason) => OutcomeView {
                            steps: seq![StepView::CreateDir(output_dir)],
                            end: Err(invalid(reason)),
                        },
                        Ok(list) => running(
                            seq![
                                StepView::CreateDir(output_dir),
                                qpdf_command(path, select_args(input, list, out_file)),
                            ],
                            "Successfully split PDF pages "@ + list + " to "@ + out_file,
                        ),
                    }
                },
            },
        }
    }
}

/// The page count to work with, or the error that ends the job.
fn page_total(plan_only: bool, facts: &Facts) -> (r: Result<u32, ForgeKitError>)
    ensures
        match counted_pages(plan_only, *facts) {
            Ok(t) => r matches Ok(c) && c == t,
            Err(e) => r matches Err(x) && x@ == e,
        },
{
    match &facts.page_count {
        Ok(c) => Ok(*c),
        Err(e) => if plan_only {
            Ok(100)
        } else {
            Err(e.duplicate())
        },
    }
}

/// Splits out the selected pages of a PDF into the output directory.
pub fn execute_pdf_split(
    input: &str,
    output_dir: &str,
    pages: &[PageSpec],
    plan_only: bool,
    facts: &Facts,
) -> (o: Outcome)
    ensures
        o@ == split_outcome(input@, output_dir@, pages@, plan_only, *facts),
{
    if !input_exists(facts, input) {
        return failed(missing_input(input));
    }
    let program = match tool_path(&facts.qpdf) {
        Err(e) => {
            return failed(e);
        },
        Ok(p) => p,
    };
    let total = match page_total(plan_only, facts) {
        Err(e) => {
            return failed(e);
        },
        Ok(t) => t,
    };
    let out_file = join_path(output_dir, "split_output.pdf");
    let mut steps: Vec<Step> = Vec::new();
    if !plan_only {
        push_step(&mut steps, Step::CreateDir(string_of(output_dir)));
    }
    assert(step_views(steps@) =~= (if plan_only {
        Seq::<StepView>::empty()
    } else {
        seq![StepView::CreateDir(output_dir@)]
    }));
    let list = match PageSpec::to_qpdf_pages(pages, total as usize) {
        Err(e) => {
            return Outcome { steps, end: Err(e) };
        },
        Ok(l) => l,
    };
    let args = select_pages(input, list.as_str(), out_file.as_str());
    if plan_only {
        return finished(command_line_of("qpdf", args.as_slice()));
    }
    let ghost program_path = program@;
    push_step(&mut steps, qpdf_step(program, args));
    assert(step_views(steps@) =~= seq![
        StepView::CreateDir(output_dir@),
        qpdf_command(program_path, select_args(input@, list@, out_file@)),
    ]);
    let mut message = string_of("Successfully split PDF pages ");
    push_str(&mut message, list.as_str());
    push_str(&mut message, " to ");
    push_str(&mut message, out_file.as_str());
    run_all(steps, message)
}

/// Extracting pages into one PDF: the plan text in plan mode, otherwise
/// the qpdf command to run.
pub open spec fn to_pdf_result(
    input: Seq<char>,
    output_path: Seq<char>,
    pages: Seq<PageSpec>,
    plan_only: bool,
    facts: Facts,
) -> Result<(Seq<StepView>, Option<Seq<char>>), ErrorView> {
    if plan_only {
        let total: nat = if exists_in(facts, input) && found(facts.qpdf) is Ok {
            match facts.page_count {
                Ok(c) => c as nat,
                Err(_) => 100,
            }
        } else {
            100
        };
        match qpdf_pages_spec(pages, total) {
            Err(reason) => Err(invalid(reason)),
            Ok(list) => Ok((Seq::empty(), Some(command_line("qpdf"@, select_args(input, list, output_path))))),
        }
    } else {
        match found(facts.qpdf) {
            Err(e) => Err(e),
            Ok(path) => match facts.page_count {
                Err(e) => Err(e@),
                Ok(c) => if !exists_in(facts, input) {
                    Err(missing(input))
                } else {
                    match qpdf_pages_spec(pages, c as nat) {
                        Err(reason) => Err(invalid(reason)),
                        Ok(list) => Ok((seq![qpdf_command(path, select_args(input, list, output_path))], None)),
                    }
                },
            },
        }
    }
}

/// Extracts pages into one PDF: in plan mode the plan text, otherwise the
/// qpdf command to run.
pub fn extract_pages_to_pdf_helper(
    input: &str,
    output_path: &str,
    pages: &[PageSpec],
    plan_only: bool,
    facts: &Facts,
) -> (r: Result<(Vec<Step>, Option<String>), ForgeKitError>)
    ensures
        match to_pdf_result(input@, output_path@, pages@, plan_only, *facts) {
            Ok((steps, plan)) => r matches Ok((s, p)) && step_views(s@) == steps && match plan {
                Some(t) => p matches Some(x) && x@ == t,
                None => p is None,
            },
            Err(e) => r matches Err(x) && x@ == e,
        },
{
    if plan_only {
        let total: u32 = if input_exists(facts, input) && facts.qpdf.is_ok() {
            match &facts.page_count {
                Ok(c) => *c,
                Err(_) => 100,
            }
        } else {
            100
        };
        let list = match PageSpec::to_qpdf_pages(pages, total as usize) {
            Err(e) => {
                return Err(e);
            },
            Ok(l) => l,
        };
        let args = select_pages(input, list.as_str(), output_path);
        let steps: Vec<Step> = Vec::new();
        assert(step_views(steps@) =~= Seq::<StepView>::empty());
        return Ok((steps, Some(command_line_of("qpdf", args.as_slice()))));
    }
    let program = match tool_path(&facts.qpdf) {
        Err(e) => {
            return Err(e);
        },
        Ok(p) => p,
    };
    let total = match &facts.page_count {
        Err(e) => {
            return Err(e.duplicate());
        },
        Ok(c) => *c,
    };
    if !input_exists(facts, input) {
        return Err(missing_input(input));
    }
    let list = match PageSpec::to_qpdf_pages(pages, total as usize) {
        Err(e) => {
            return Err(e);
        },
        Ok(l) => l,
    };
    let args = select_pages(input, list.as_str(), output_path);
    Ok((one_step(qpdf_step(program, args)), None))
}

/// Arguments of Ghostscript that render each page of `pdf` as an image.
pub open spec fn render_args(device: Seq<char>, pattern: Seq<char>, pdf: Seq<char>) -> Seq<Seq<char>> {
    seq![
        "-sDEVICE="@ + device,
        "-dNOPAUSE"@,
        "-dBATCH"@,
        "-dQUIET"@,
        "-r300"@,
        "-sOutputFile="@ + pattern,
        pdf,
    ]
}

/// The temporary PDF that image extraction goes through.
pub open spec fn extract_temp_path(facts: Facts) -> Seq<char> {
    path_joined(facts.temp_dir@, temp_name("extract"@, facts.unique_id@, ".pdf"@))
}

/// What extracting pages takes: as one PDF into `output`, or as one
/// 300 dpi image per page (PNG, or JPEG for "jpeg"/"jpg") into
/// `output_dir`, rendered by Ghostscript from a temporary PDF.
pub open spec fn extract_outcome(
    input: Seq<char>,
    output: Option<Seq<char>>,
    output_dir: Option<Seq<char>>,
    pages: Seq<PageSpec>,
    format: Seq<char>,
    plan_only: bool,
    facts: Facts,
) -> OutcomeView {
    if pages.len() == 0 {
        refused(invalid("At least one page specification required"@))
    } else if format == "pdf"@ {
        match output {
            None => refused(invalid("Output file path required when format is 'pdf'"@)),
            Some(o) => match to_pdf_result(input, o, pages, plan_only, facts) {
                Err(e) => refused(e),
                Ok((steps, plan)) => match plan {
                    Some(p) => done(p),
                    None => running(steps, "Successfully extracted PDF pages to "@ + o),
                },
            },
        }
    } else if format == "png"@ || format == "jpeg"@ || format == "jpg"@ {
        match output_dir {
            None => refused(invalid("Output directory path required when format is '"@ + format + "'"@)),
            Some(dir) => {
                let ext = if format == "png"@ {
                    "png"@
                } else {
                    "jpg"@
                };
                let device = if format == "png"@ {
                    "png16m"@
                } else {
                    "jpeg"@
                };
                let pattern = path_joined(dir, "page_%d."@ + ext);
                if plan_only {
                    let temp = path_renamed(input, "temp_extract_pages.pdf"@);
                    match to_pdf_result(input, temp, pages, true, facts) {
                        Err(e) => refused(e),
                        Ok((steps, plan)) => done(
                            plan.unwrap() + " && "@ + command_line("gs"@, render_args(device, pattern, temp))
                                + " && rm "@ + temp,
                        ),
                    }
                } else {
                    let temp = extract_temp_path(facts);
                    match to_pdf_result(input, temp, pages, false, facts) {
                        Err(e) => OutcomeView { steps: seq![StepView::CreateDir(dir)], end: Err(e) },
                        Ok((steps, plan)) => match found(facts.gs) {
                            Err(e) => OutcomeView { steps: seq![StepView::CreateDir(dir)] + steps, end: Err(e) },
                            Ok(gs) => running(
                                seq![StepView::CreateDir(dir)] + steps + seq![
                                    StepView::Run(
                                        CommandView {
                                            tool: "gs"@,
                                            program: gs,
                                            args: render_args(device, pattern, temp),
                                            start: StartView::Processing("Failed to execute gs: "@),
                                            checked: true,
                                            cleanup: Some(temp),
                                            report: None,
                                        },
                                    ),
                                ],
                                "Successfully extracted images to directory "@ + dir,
                            ),
                        },
                    }
                }
            },
        }
    } else if format == "images"@ {
        refused(invalid("Format 'images' is ambiguous. Please specify 'png' or 'jpeg/jpg'."@))
    } else {
        refused(invalid("Unknown format '"@ + format + "'. Supported formats: pdf, png, jpeg, jpg"@))
    }
}

/// Arguments of Ghostscript that render each page of `pdf` as an image.
fn render_arguments(device: &str, pattern: &str, pdf: &str) -> (r: Vec<String>)
    ensures
        texts(r@) == render_args(device@, pattern@, pdf@),
{
    let mut args: Vec<String> = Vec::new();
    let mut d = string_of("-sDEVICE=");
    push_str(&mut d, device);
    push_string(&mut args, d);
    push_text(&mut args, "-dNOPAUSE");
    push_text(&mut args, "-dBATCH");
    push_text(&mut args, "-dQUIET");
    push_text(&mut args, "-r300");
    let mut o = string_of("-sOutputFile=");
    push_str(&mut o, pattern);
    push_string(&mut args, o);
    push_text(&mut args, pdf);
    assert(texts(args@) =~= render_args(device@, pattern@, pdf@));
    args
}

/// Extracts pages as one PDF or as one image per page.
pub fn execute_pdf_extract(
    input: &str,
    output: Option<&str>,
    output_dir: Option<&str>,
    pages: &[PageSpec],
    format: &str,
    plan_only: bool,
    facts: &Facts,
) -> (o: Outcome)
    ensures
        o@ == extract_outcome(
            input@,
            match output {
                Some(p) => Some(p@),
                None => None,
            },
            match output_dir {
                Some(p) => Some(p@),
                None => None,
            },
            pages@,
            format@,
            plan_only,
            *facts,
        ),
{
    proof {
        reveal_strlit("pdf");
        reveal_strlit("png");
        reveal_strlit("jpeg");
        reveal_strlit("jpg");
        reveal_strlit("images");
    }
    if pages.len() == 0 {
        return failed(invalid_reason(string_of("At least one page specification required")));
    }
    if str_eq(format, "pdf") {
        match output {
            None => {
                return failed(invalid_reason(string_of("Output file path required when format is 'pdf'")));
            },
            Some(o) => {
                return match extract_pages_to_pdf_helper(input, o, pages, plan_only, facts) {
                    Err(e) => failed(e),
                    Ok((steps, plan)) => match plan {
                        Some(p) => finished(p),
                        None => {
                            let mut message = string_of("Successfully extracted PDF pages to ");
                            push_str(&mut message, o);
                            run_all(steps, message)
                        },
                    },
                };
            },
        }
    }
    let is_png = str_eq(format, "png");
    if is_png || str_eq(format, "jpeg") || str_eq(format, "jpg") {
        let dir = match output_dir {
            None => {
                let mut reason = string_of("Output directory path required when format is '");
                push_str(&mut reason, format);
                push_str(&mut reason, "'");
                return failed(invalid_reason(reason));
            },
            Some(d) => d,
        };
        let ext = if is_png {
            "png"
        } else {
            "jpg"
        };
        let device = if is_png {
            "png16m"
        } else {
            "jpeg"
        };
        let mut name = string_of("page_%d.");
        push_str(&mut name, ext);
        let pattern = join_path(dir, name.as_str());
        if plan_only {
            let temp = with_file_name(input, "temp_extract_pages.pdf");
            return match extract_pages_to_pdf_helper(input, temp.as_str(), pages, true, facts) {
                Err(e) => failed(e),
                Ok((steps, plan)) => {
                    let mut text = match plan {
                        Some(p) => p,
                        None => {
                            proof {
                                assert(false);
                            }
                            String::new()
                        },
                    };
                    push_str(&mut text, " && ");
                    let args = render_arguments(device, pattern.as_str(), temp.as_str());
                    let gs = command_line_of("gs", args.as_slice());
                    push_str(&mut text, gs.as_str());
                    push_str(&mut text, " && rm ");
                    push_str(&mut text, temp.as_str());
                    finished(text)
                },
            };
        }
        let mut steps: Vec<Step> = Vec::new();
        push_step(&mut steps, Step::CreateDir(string_of(dir)));
        let temp = match create_temp_file(facts.temp_dir.as_str(), facts.unique_id.as_str(), "extract", ".pdf") {
            Ok(t) => t,
            Err(e) => {
                return Outcome { steps, end: Err(e) };
            },
        };
        assert(step_views(steps@) =~= seq![StepView::CreateDir(dir@)]);
        match extract_pages_to_pdf_helper(input, temp.as_str(), pages, false, facts) {
            Err(e) => {
                return Outcome { steps, end: Err(e) };
            },
            Ok((more, _)) => {
                append_steps(&mut steps, more);
                match tool_path(&facts.gs) {
                    Err(e) => {
                        return Outcome { steps, end: Err(e) };
                    },
                    Ok(gs) => {
                        let ghost before = step_views(steps@);
                        let ghost gs_path = gs@;
                        let ghost temp_path = temp@;
                        let args = render_arguments(device, pattern.as_str(), temp.as_str());
                        push_step(
                            &mut steps,
                            Step::Run(
                                Command {
                                    tool: string_of("gs"),
                                    program: gs,
                                    args,
                                    start_failure: StartFailure::Processing(string_of("Failed to execute gs: ")),
                                    checked: true,
                                    cleanup: Some(temp),
                                    report: None,
                                },
                            ),
                        );
                        let mut message = string_of("Successfully extracted images to directory ");
                        push_str(&mut message, dir);
                        assert(step_views(steps@) =~= before + seq![
                            StepView::Run(
                                CommandView {
                                    tool: "gs"@,
                                    program: gs_path,
                                    args: render_args(device@, pattern@, temp_path),
                                    start: StartView::Processing("Failed to execute gs: "@),
                                    checked: true,
                                    cleanup: Some(temp_path),
                                    report: None,
                                },
                            ),
                        ]);
                        return run_all(steps, message);
                    },
                }
            },
        }
    }
    if str_eq(format, "images") {
        return failed(
            invalid_reason(string_of("Format 'images' is ambiguous. Please specify 'png' or 'jpeg/jpg'.")),
        );
    }
    let mut reason = string_of("Unknown format '");
    push_str(&mut reason, format);
    push_str(&mut reason, "'. Supported formats: pdf, png, jpeg, jpg");
    failed(invalid_reason(reason))
}

// ---------------------------------------------------------------------------
// OCR and compression
// ---------------------------------------------------------------------------

/// The language and option arguments of ocrmypdf.
pub open spec fn ocr_flags(language: Seq<char>, skip_text: bool, deskew: bool, force_ocr: bool) -> Seq<Seq<char>> {
    seq!["-l"@, language] + (if skip_text {
        seq!["--skip-text"@]
    } else {
        Seq::<Seq<char>>::empty()
    }) + (if deskew {
        seq!["--deskew"@]
    } else {
        Seq::<Seq<char>>::empty()
    }) + (if force_ocr {
        seq!["--force-ocr"@]
    } else {
        Seq::<Seq<char>>::empty()
    })
}

/// The event that starts OCR.
pub open spec fn ocr_started(facts: Facts, language: Seq<char>) -> StepView {
    StepView::Report(
        progress_view(facts.job_id@, 0, 100, 0, "starting"@, "Starting OCR with language '"@ + language + "'"@),
    )
}

/// What adding an OCR text layer takes.  The start is reported first;
/// running reports the OCR stage, an error event if ocrmypdf fails, and
/// completion.
pub open spec fn ocr_outcome(
    input: Seq<char>,
    output: Seq<char>,
    language: Seq<char>,
    skip_text: bool,
    deskew: bool,
    force_ocr: bool,
    plan_only: bool,
    facts: Facts,
) -> OutcomeView {
    let start = seq![ocr_started(facts, language)];
    let args = ocr_flags(language, skip_text, deskew, force_ocr) + seq![input, output];
    if plan_only {
        OutcomeView { steps: start, end: Ok(FinishView::Message(command_line("ocrmypdf"@, args))) }
    } else if !exists_in(facts, input) {
        OutcomeView { steps: start, end: Err(missing(input)) }
    } else {
        match found(facts.ocrmypdf) {
            Err(e) => OutcomeView { steps: start, end: Err(e) },
            Ok(path) => running(
                start + seq![
                    StepView::Report(
                        progress_view(
                            facts.job_id@,
                            10,
                            100,
                            10,
                            "ocr"@,
                            "Running OCR (this may take a while for large documents)..."@,
                        ),
                    ),
                    StepView::Run(
                        CommandView {
                            tool: "ocrmypdf"@,
                            program: path,
                            args,
                            start: StartView::Processing("Failed to execute: "@),
                            checked: true,
                            cleanup: None,
                            report: Some(
                                ReportView {
                                    job_id: facts.job_id@,
                                    code: "OCR_FAILED"@,
                                    hint: "Check that the input PDF is valid and tesseract language packs are installed"@,
                                },
                            ),
                        },
                    ),
                    StepView::ReportComplete(facts.job_id@, output),
                ],
                "Successfully added OCR text layer to PDF: "@ + output,
            ),
        }
    }
}

/// Adds an OCR text layer to a PDF, reporting progress.
pub fn execute_pdf_ocr(
    input: &str,
    output: &str,
    language: &str,
    skip_text: bool,
    deskew: bool,
    force_ocr: bool,
    plan_only: bool,
    facts: &Facts,
) -> (o: Outcome)
    ensures
        o@ == ocr_outcome(input@, output@, language@, skip_text, deskew, force_ocr, plan_only, *facts),
{
    let mut started = string_of("Starting OCR with language '");
    push_str(&mut started, language);
    push_str(&mut started, "'");
    let mut steps: Vec<Step> = Vec::new();
    push_step(
        &mut steps,
        Step::Report(progress_event(facts.job_id.as_str(), 0, 100, 0, "starting", started)),
    );
    assert(step_views(steps@) =~= seq![ocr_started(*facts, language@)]);
    let mut args: Vec<String> = Vec::new();
    push_text(&mut args, "-l");
    push_text(&mut args, language);
    if skip_text {
        push_text(&mut args, "--skip-text");
    }
    if deskew {
        push_text(&mut args, "--deskew");
    }
    if force_ocr {
        push_text(&mut args, "--force-ocr");
    }
    push_text(&mut args, input);
    push_text(&mut args, output);
    assert(texts(args@) =~= ocr_flags(language@, skip_text, deskew, force_ocr) + seq![input@, output@]);
    if plan_only {
        return Outcome { steps, end: Ok(Finish::Message(command_line_of("ocrmypdf", args.as_slice()))) };
    }
    if !input_exists(facts, input) {
        return Outcome { steps, end: Err(missing_input(input)) };
    }
    let program = match tool_path(&facts.ocrmypdf) {
        Err(e) => {
            return Outcome { steps, end: Err(e) };
        },
        Ok(p) => p,
    };
    let ghost start = step_views(steps@);
    let ghost program_path = program@;
    let ghost arg_texts = texts(args@);
    push_step(
        &mut steps,
        Step::Report(
            progress_event(
                facts.job_id.as_str(),
                10,
                100,
                10,
                "ocr",
                string_of("Running OCR (this may take a while for large documents)..."),
            ),
        ),
    );
    push_step(
        &mut steps,
        Step::Run(
            Command {
                tool: string_of("ocrmypdf"),
                program,
                args,
                start_failure: StartFailure::Processing(string_of("Failed to execute: ")),
                checked: true,
                cleanup: None,
                report: Some(
                    FailureReport {
                        job_id: string_of(facts.job_id.as_str()),
                        code: string_of("OCR_FAILED"),
                        hint: string_of(
                            "Check that the input PDF is valid and tesseract language packs are installed",
                        ),
                    },
                ),
            },
        ),
    );
    push_step(
        &mut steps,
        Step::ReportComplete { job_id: string_of(facts.job_id.as_str()), output: string_of(output) },
    );
    let mut message = string_of("Successfully added OCR text layer to PDF: ");
    push_str(&mut message, output);
    assert(step_views(steps@) =~= start + seq![
        StepView::Report(
            progress_view(
                facts.job_id@,
                10,
                100,
                10,
                "ocr"@,
                "Running OCR (this may take a while for large documents)..."@,
            ),
        ),
        StepView::Run(
            CommandView {
                tool: "ocrmypdf"@,
                program: program_path,
                args: arg_texts,
                start: StartView::Processing("Failed to execute: "@),
                checked: true,
                cleanup: None,
                report: Some(
                    ReportView {
                        job_id: facts.job_id@,
                        code: "OCR_FAILED"@,
                        hint: "Check that the input PDF is valid and tesseract language packs are installed"@,
                    },
                ),
            },
        ),
        StepView::ReportComplete(facts.job_id@, output@),
    ]);
    run_all(steps, message)
}

/// Arguments of Ghostscript that recompress `input` into `output`.
pub open spec fn gs_compress_args(input: Seq<char>, output: Seq<char>, flags: Seq<Seq<char>>) -> Seq<Seq<char>> {
    seq!["-sOutputFile="@ + output] + flags + seq!["-f"@, input]
}

/// What compressing a PDF takes: the level's preset (or `standard`)
/// names the tool, `gs` or `qpdf`, and its arguments.
pub open spec fn compress_outcome(
    input: Seq<char>,
    output: Seq<char>,
    level: Seq<char>,
    plan_only: bool,
    facts: Facts,
) -> OutcomeView {
    let preset = preset_for_level(facts.presets.presets@, level);
    let tool = preset.tool@;
    let flags = texts(preset.args@);
    if tool == "gs"@ {
        single_input_job(
            plan_only,
            command_line(tool, gs_compress_args(input, output, flags)),
            facts,
            input,
            facts.gs,
            |path: Seq<char>| seq![command("gs"@, path, gs_compress_args(input, output, flags), StartView::Processing("Failed to execute: "@))],
            "Successfully compressed PDF to "@ + output,
        )
    } else if tool == "qpdf"@ {
        single_input_job(
            plan_only,
            command_line(tool, flags + seq![input, output]),
            facts,
            input,
            facts.qpdf,
            |path: Seq<char>| seq![qpdf_command(path, flags + seq![input, output])],
            "Successfully compressed PDF to "@ + output,
        )
    } else if plan_only || exists_in(facts, input) {
        refused(ErrorView::Other("Unknown compression tool: "@ + tool))
    } else {
        refused(missing(input))
    }
}

/// Compresses a PDF at a level (`light`, `standard`, `high`; unknown
/// levels use `standard`).
pub fn execute_pdf_compress(input: &str, output: &str, level: &str, plan_only: bool, facts: &Facts) -> (o: Outcome)
    requires
        has_standard(facts.presets),
    ensures
        o@ == compress_outcome(input@, output@, level@, plan_only, *facts),
{
    proof {
        reveal_strlit("gs");
        reveal_strlit("qpdf");
    }
    let strategy = get_compression_strategy(level, &facts.presets);
    let tool = strategy.tool;
    let flags = strategy.flags;
    let is_gs = str_eq(tool.as_str(), "gs");
    let is_qpdf = str_eq(tool.as_str(), "qpdf");
    if !is_gs && !is_qpdf {
        if plan_only || input_exists(facts, input) {
            let mut m = string_of("Unknown compression tool: ");
            push_str(&mut m, tool.as_str());
            return failed(ForgeKitError::Other(m));
        }
        return failed(missing_input(input));
    }
    let mut args: Vec<String> = Vec::new();
    if is_gs {
        let mut o = string_of("-sOutputFile=");
        push_str(&mut o, output);
        push_string(&mut args, o);
        crate::text::append_all(&mut args, flags.as_slice());
        push_text(&mut args, "-f");
        push_text(&mut args, input);
        assert(texts(args@) =~= gs_compress_args(input@, output@, texts(flags@)));
    } else {
        crate::text::append_all(&mut args, flags.as_slice());
        push_text(&mut args, input);
        push_text(&mut args, output);
        assert(texts(args@) =~= texts(flags@) + seq![input@, output@]);
    }
    if plan_only {
        return finished(command_line_of(tool.as_str(), args.as_slice()));
    }
    if !input_exists(facts, input) {
        return failed(missing_input(input));
    }
    let found_tool = if is_gs {
        tool_path(&facts.gs)
    } else {
        tool_path(&facts.qpdf)
    };
    match found_tool {
        Err(e) => failed(e),
        Ok(program) => {
            let step = if is_gs {
                checked_command("gs", program, args, StartFailure::Processing(string_of("Failed to execute: ")))
            } else {
                qpdf_step(program, args)
            };
            let mut message = string_of("Successfully compressed PDF to ");
            push_str(&mut message, output);
            run_all(one_step(step), message)
        },
    }
}

// ---------------------------------------------------------------------------
// Any job
// ---------------------------------------------------------------------------

/// An optional text by its characters.
pub open spec fn opt_text(o: Option<String>) -> Option<Seq<char>> {
    match o {
        Some(s) => Some(s@),
        None => None,
    }
}

/// What running a job takes.
pub open spec fn job_outcome(job: JobSpec, plan_only: bool, facts: Facts) -> OutcomeView {
    match job {
        JobSpec::PdfMerge { inputs, output, linearize } => merge_outcome(
            texts(inputs@),
            output@,
            linearize,
            plan_only,
            facts,
        ),
        JobSpec::PdfSplit { input, output_dir, pages } => split_outcome(
            input@,
            output_dir@,
            pages@,
            plan_only,
            facts,
        ),
        JobSpec::PdfCompress { input, output, level } => compress_outcome(
            input@,
            output@,
            level@,
            plan_only,
            facts,
        ),
        JobSpec::PdfLinearize { input, output } => linearize_outcome(input@, output@, plan_only, facts),
        JobSpec::PdfReorder { input, output, page_order } => reorder_outcome(
            input@,
            output@,
            page_order@,
            plan_only,
            facts,
        ),
        JobSpec::PdfExtract { input, output, output_dir, pages, format } => extract_outcome(
            input@,
            opt_text(output),
            opt_text(output_dir),
            pages@,
            format@,
            plan_only,
            facts,
        ),
        JobSpec::PdfOcr { input, output, language, skip_text, deskew, force_ocr } => ocr_outcome(
            input@,
            output@,
            language@,
            skip_text,
            deskew,
            force_ocr,
            plan_only,
            facts,
        ),
        JobSpec::PdfMetadata { input, output, action } => metadata_outcome(
            input@,
            opt_text(output),
            action,
            plan_only,
            facts,
        ),
        JobSpec::ImageConvert { input, output, format, quality, compression, strip_metadata } => {
            image_convert_outcome(
                input@,
                output@,
                format,
                quality,
                compression,
                strip_metadata,
                plan_only,
                facts,
            )
        },
        JobSpec::ImageResize { input, output, width, height } => image_resize_outcome(
            input@,
            output@,
            width,
            height,
            plan_only,
            facts,
        ),
        JobSpec::ImageStrip { input, output } => image_strip_outcome(input@, output@, plan_only, facts),
        JobSpec::AudioConvert { input, output, format, bitrate } => audio_convert_outcome(
            input@,
            output@,
            format,
            bitrate,
            plan_only,
            facts,
        ),
        JobSpec::AudioExtract { input, output, format, bitrate } => audio_extract_outcome(
            input@,
            output@,
            format,
            bitrate,
            plan_only,
            facts,
        ),
        JobSpec::AudioJoin { inputs, output } => audio_join_outcome(
            texts(inputs@),
            output@,
            plan_only,
            facts,
        ),
        JobSpec::AudioMono { input, output } => audio_mono_outcome(input@, output@, plan_only, facts),
    }
}

/// An optional string as an optional slice.
fn opt_str(o: &Option<String>) -> (r: Option<&str>)
    ensures
        match *o {
            Some(s) => r matches Some(x) && x@ == s@,
            None => r is None,
        },
{
    match o {
        Some(s) => Some(s.as_str()),
        None => None,
    }
}

/// Decides what running a job takes (its plan, in plan mode).
pub fn execute_job(spec: &JobSpec, plan_only: bool, facts: &Facts) -> (o: Outcome)
    requires
        spec is PdfCompress ==> has_standard(facts.presets),
    ensures
        o@ == job_outcome(*spec, plan_only, *facts),
{
    match spec {
        JobSpec::PdfMerge { inputs, output, linearize } => execute_pdf_merge(
            inputs.as_slice(),
            output.as_str(),
            *linearize,
            plan_only,
            facts,
        ),
        JobSpec::PdfSplit { input, output_dir, pages } => execute_pdf_split(
            input.as_str(),
            output_dir.as_str(),
            pages.as_slice(),
            plan_only,
            facts,
        ),
        JobSpec::PdfCompress { input, output, level } => execute_pdf_compress(
            input.as_str(),
            output.as_str(),
            level.as_str(),
            plan_only,
            facts,
        ),
        JobSpec::PdfLinearize { input, output } => execute_pdf_linearize(
            input.as_str(),
            output.as_str(),
            plan_only,
            facts,
        ),
        JobSpec::PdfReorder { input, output, page_order } => execute_pdf_reorder(
            input.as_str(),
            output.as_str(),
            page_order.as_slice(),
            plan_only,
            facts,
        ),
        JobSpec::PdfExtract { input, output, output_dir, pages, format } => execute_pdf_extract(
            input.as_str(),
            opt_str(output),
            opt_str(output_dir),
            pages.as_slice(),
            format.as_str(),
            plan_only,
            facts,
        ),
        JobSpec::PdfOcr { input, output, language, skip_text, deskew, force_ocr } => execute_pdf_ocr(
            input.as_str(),
            output.as_str(),
            language.as_str(),
            *skip_text,
            *deskew,
            *force_ocr,
            plan_only,
            facts,
        ),
        JobSpec::PdfMetadata { input, output, action } => execute_pdf_metadata(
            input.as_str(),
            opt_str(output),
            action,
            plan_only,
            facts,
        ),
        JobSpec::ImageConvert { input, output, format, quality, compression, strip_metadata } => {
            execute_image_convert(
                input.as_str(),
                output.as_str(),
                format,
                *quality,
                *compression,
                *strip_metadata,
                plan_only,
                facts,
            )
        },
        JobSpec::ImageResize { input, output, width, height } => execute_image_resize(
            input.as_str(),
            output.as_str(),
            *width,
            *height,
            plan_only,
            facts,
        ),
        JobSpec::ImageStrip { input, output } => execute_image_strip(
            input.as_str(),
            output.as_str(),
            plan_only,
            facts,
        ),
        JobSpec::AudioConvert { input, output, format, bitrate } => execute_audio_convert(
            input.as_str(),
            output.as_str(),
            format,
            *bitrate,
            plan_only,
            facts,
        ),
        JobSpec::AudioExtract { input, output, format, bitrate } => execute_audio_extract(
            input.as_str(),
            output.as_str(),
            format,
            *bitrate,
            plan_only,
            facts,
        ),
        JobSpec::AudioJoin { inputs, output } => execute_audio_join(
            inputs.as_slice(),
            output.as_str(),
            plan_only,
            facts,
        ),
        JobSpec::AudioMono { input, output } => execute_audio_mono(
            input.as_str(),
            output.as_str(),
            plan_only,
            facts,
        ),
    }
}

/// The input files whose existence a job depends on.
pub open spec fn job_inputs(job: JobSpec) -> Seq<Seq<char>> {
    match job {
        JobSpec::PdfMerge { inputs, .. } => texts(inputs@),
        JobSpec::AudioJoin { inputs, .. } => texts(inputs@),
        JobSpec::PdfSplit { input, .. } => seq![input@],
        JobSpec::PdfCompress { input, .. } => seq![input@],
        JobSpec::PdfLinearize { input, .. } => seq![input@],
        JobSpec::PdfReorder { input, .. } => seq![input@],
        JobSpec::PdfExtract { input, .. } => seq![input@],
        JobSpec::PdfOcr { input, .. } => seq![input@],
        JobSpec::PdfMetadata { input, .. } => seq![input@],
        JobSpec::ImageConvert { input, .. } => seq![input@],
        JobSpec::ImageResize { input, .. } => seq![input@],
        JobSpec::ImageStrip { input, .. } => seq![input@],
        JobSpec::AudioConvert { input, .. } => seq![input@],
        JobSpec::AudioExtract { input, .. } => seq![input@],
        JobSpec::AudioMono { input, .. } => seq![input@],
    }
}

/// The input files whose existence the job depends on.
pub fn input_paths(spec: &JobSpec) -> (r: Vec<String>)
    ensures
        texts(r@) == job_inputs(*spec),
{
    let mut r: Vec<String> = Vec::new();
    match spec {
        JobSpec::PdfMerge { inputs, .. } => {
            crate::text::append_all(&mut r, inputs.as_slice());
            assert(texts(r@) =~= texts(inputs@));
        },
        JobSpec::AudioJoin { inputs, .. } => {
            crate::text::append_all(&mut r, inputs.as_slice());
            assert(texts(r@) =~= texts(inputs@));
        },
        JobSpec::PdfSplit { input, .. } | JobSpec::PdfCompress { input, .. } | JobSpec::PdfLinearize {
            input,
            ..
        } | JobSpec::PdfReorder { input, .. } | JobSpec::PdfExtract { input, .. } | JobSpec::PdfOcr {
            input,
            ..
        } | JobSpec::PdfMetadata { input, .. } | JobSpec::ImageConvert { input, .. } | JobSpec::ImageResize {
            input,
            ..
        } | JobSpec::ImageStrip { input, .. } | JobSpec::AudioConvert { input, .. } | JobSpec::AudioExtract {
            input,
            ..
        } | JobSpec::AudioMono { input, .. } => {
            push_text(&mut r, input.as_str());
            assert(texts(r@) =~= seq![input@]);
        },
    }
    r
}

/// The PDF whose page count a job needs, if any.
pub open spec fn counted_input(job: JobSpec) -> Option<Seq<char>> {
    match job {
        JobSpec::PdfSplit { input, .. } => Some(input@),
        JobSpec::PdfExtract { input, .. } => Some(input@),
        _ => None,
    }
}

/// The PDF whose page count the job needs, if any.
pub fn page_count_input(spec: &JobSpec) -> (r: Option<String>)
    ensures
        opt_text(r) == counted_input(*spec),
{
    match spec {
        JobSpec::PdfSplit { input, .. } => Some(string_of(input.as_str())),
        JobSpec::PdfExtract { input, .. } => Some(string_of(input.as_str())),
        _ => None,
    }
}

/// The tool a job runs once past plan mode and with its input present.
pub open spec fn when_run(plan_only: bool, facts: Facts, input: Seq<char>, tool: Seq<char>) -> Seq<Seq<char>> {
    if !plan_only && exists_in(facts, input) {
        seq![tool]
    } else {
        Seq::empty()
    }
}

/// The tools page extraction consults for the page count: in plan mode
/// qpdf only when the input exists, otherwise qpdf always.
pub open spec fn counting_tools(plan_only: bool, facts: Facts, input: Seq<char>) -> Seq<Seq<char>> {
    if !plan_only || exists_in(facts, input) {
        seq!["qpdf"@]
    } else {
        Seq::empty()
    }
}

/// The tools a job looks up before deciding, given what is known so far:
/// the job consults no other tool field of the facts (see
/// `law_outcome_uses_listed_tools`).  Plan mode looks up no tool, except
/// qpdf where the plan shows the document's pages; a missing input or a
/// refused request looks up none; image extraction looks up Ghostscript
/// only once the pages could be selected.
pub open spec fn job_tools(job: JobSpec, plan_only: bool, facts: Facts) -> Seq<Seq<char>> {
    match job {
        JobSpec::PdfMerge { inputs, .. } => if inputs@.len() >= 2 {
            seq!["qpdf"@]
        } else {
            Seq::empty()
        },
        JobSpec::PdfSplit { input, .. } => if exists_in(facts, input@) {
            seq!["qpdf"@]
        } else {
            Seq::empty()
        },
        JobSpec::PdfLinearize { input, .. } => when_run(plan_only, facts, input@, "qpdf"@),
        JobSpec::PdfReorder { input, page_order, .. } => if page_order@.len() == 0 {
            Seq::empty()
        } else {
            when_run(plan_only, facts, input@, "qpdf"@)
        },
        JobSpec::PdfExtract { input, output, output_dir, pages, format } => if pages@.len() == 0 {
            Seq::empty()
        } else if format@ == "pdf"@ {
            if output is None {
                Seq::empty()
            } else {
                counting_tools(plan_only, facts, input@)
            }
        } else if format@ == "png"@ || format@ == "jpeg"@ || format@ == "jpg"@ {
            if output_dir is None {
                Seq::empty()
            } else if plan_only {
                counting_tools(plan_only, facts, input@)
            } else if to_pdf_result(input@, extract_temp_path(facts), pages@, false, facts) is Ok {
                seq!["qpdf"@, "gs"@]
            } else {
                seq!["qpdf"@]
            }
        } else {
            Seq::empty()
        },
        JobSpec::PdfCompress { input, level, .. } => {
            let tool = preset_for_level(facts.presets.presets@, level@).tool@;
            if tool == "gs"@ || tool == "qpdf"@ {
                when_run(plan_only, facts, input@, tool)
            } else {
                Seq::empty()
            }
        },
        JobSpec::PdfOcr { input, .. } => when_run(plan_only, facts, input@, "ocrmypdf"@),
        JobSpec::PdfMetadata { input, output, action } => if action is SetFields && output is None {
            Seq::empty()
        } else {
            when_run(plan_only, facts, input@, "exiftool"@)
        },
        JobSpec::ImageConvert { input, .. } => when_run(plan_only, facts, input@, "vips"@),
        JobSpec::ImageResize { input, .. } => when_run(plan_only, facts, input@, "vips"@),
        JobSpec::ImageStrip { input, .. } => when_run(plan_only, facts, input@, "vips"@),
        JobSpec::AudioConvert { input, .. } => when_run(plan_only, facts, input@, "ffmpeg"@),
        JobSpec::AudioExtract { input, .. } => when_run(plan_only, facts, input@, "ffmpeg"@),
        JobSpec::AudioMono { input, .. } => when_run(plan_only, facts, input@, "ffmpeg"@),
        JobSpec::AudioJoin { inputs, .. } => if !plan_only && !some_missing(facts, texts(inputs@))
            && inputs@.len() >= 2 {
            seq!["ffmpeg"@]
        } else {
            Seq::empty()
        },
    }
}

fn when_run_of(plan_only: bool, facts: &Facts, input: &str, tool: &str) -> (r: Vec<String>)
    ensures
        texts(r@) == when_run(plan_only, *facts, input@, tool@),
{
    let mut r: Vec<String> = Vec::new();
    if !plan_only && input_exists(facts, input) {
        push_text(&mut r, tool);
    }
    assert(texts(r@) =~= when_run(plan_only, *facts, input@, tool@));
    r
}

fn counting_tools_of(plan_only: bool, facts: &Facts, input: &str) -> (r: Vec<String>)
    ensures
        texts(r@) == counting_tools(plan_only, *facts, input@),
{
    let mut r: Vec<String> = Vec::new();
    if !plan_only || input_exists(facts, input) {
        push_text(&mut r, "qpdf");
    }
    assert(texts(r@) =~= counting_tools(plan_only, *facts, input@));
    r
}

/// The tools to look up before deciding, given what is known so far.  The
/// caller looks each one up, records it in the facts (with the page count
/// once qpdf is known), and asks again until no new tool is listed.
pub fn required_tools(spec: &JobSpec, plan_only: bool, facts: &Facts) -> (r: Vec<String>)
    requires
        spec is PdfCompress ==> has_standard(facts.presets),
    ensures
        texts(r@) == job_tools(*spec, plan_only, *facts),
{
    proof {
        reveal_strlit("pdf");
        reveal_strlit("png");
        reveal_strlit("jpeg");
        reveal_strlit("jpg");
    }
    let empty: Vec<String> = Vec::new();
    assert(texts(empty@) =~= Seq::<Seq<char>>::empty());
    match spec {
        JobSpec::PdfMerge { inputs, .. } => {
            let mut r: Vec<String> = Vec::new();
            if inputs.len() >= 2 {
                push_text(&mut r, "qpdf");
            }
            assert(texts(r@) =~= job_tools(*spec, plan_only, *facts));
            r
        },
        JobSpec::PdfSplit { input, .. } => {
            let mut r: Vec<String> = Vec::new();
            if input_exists(facts, input.as_str()) {
                push_text(&mut r, "qpdf");
            }
            assert(texts(r@) =~= job_tools(*spec, plan_only, *facts));
            r
        },
        JobSpec::PdfLinearize { input, .. } => when_run_of(plan_only, facts, input.as_str(), "qpdf"),
        JobSpec::PdfReorder { input, page_order, .. } => if page_order.len() == 0 {
            empty
        } else {
            when_run_of(plan_only, facts, input.as_str(), "qpdf")
        },
        JobSpec::PdfExtract { input, output, output_dir, pages, format } => {
            if pages.len() == 0 {
                empty
            } else if str_eq(format.as_str(), "pdf") {
                if output.is_none() {
                    empty
                } else {
                    counting_tools_of(plan_only, facts, input.as_str())
                }
            } else if str_eq(format.as_str(), "png") || str_eq(format.as_str(), "jpeg") || str_eq(
                format.as_str(),
                "jpg",
            ) {
                if output_dir.is_none() {
                    empty
                } else if plan_only {
                    counting_tools_of(plan_only, facts, input.as_str())
                } else {
                    let temp = match create_temp_file(facts.temp_dir.as_str(), facts.unique_id.as_str(), "extract", ".pdf") {
                        Ok(t) => t,
                        Err(_) => String::new(),
                    };
                    let mut r: Vec<String> = Vec::new();
                    push_text(&mut r, "qpdf");
                    if extract_pages_to_pdf_helper(input.as_str(), temp.as_str(), pages.as_slice(), false, facts).is_ok() {
                        push_text(&mut r, "gs");
                    }
                    assert(texts(r@) =~= job_tools(*spec, plan_only, *facts));
                    r
                }
            } else {
                empty
            }
        },
        JobSpec::PdfCompress { input, level, .. } => {
            let strategy = get_compression_strategy(level.as_str(), &facts.presets);
            if str_eq(strategy.tool.as_str(), "gs") || str_eq(strategy.tool.as_str(), "qpdf") {
                when_run_of(plan_only, facts, input.as_str(), strategy.tool.as_str())
            } else {
                empty
            }
        },
        JobSpec::PdfOcr { input, .. } => when_run_of(plan_only, facts, input.as_str(), "ocrmypdf"),
        JobSpec::PdfMetadata { input, output, action } => {
            let set_without_output = match action {
                MetadataAction::SetFields(_) => output.is_none(),
                _ => false,
            };
            if set_without_output {
                empty
            } else {
                when_run_of(plan_only, facts, input.as_str(), "exiftool")
            }
        },
        JobSpec::ImageConvert { input, .. } | JobSpec::ImageResize { input, .. } | JobSpec::ImageStrip {
            input,
            ..
        } => when_run_of(plan_only, facts, input.as_str(), "vips"),
        JobSpec::AudioConvert { input, .. } | JobSpec::AudioExtract { input, .. } | JobSpec::AudioMono {
            input,
            ..
        } => when_run_of(plan_only, facts, input.as_str(), "ffmpeg"),
        JobSpec::AudioJoin { inputs, .. } => {
            let mut r: Vec<String> = Vec::new();
            if !plan_only && find_missing(facts, inputs.as_slice()).is_none() && inputs.len() >= 2 {
                push_text(&mut r, "ffmpeg");
            }
            assert(texts(r@) =~= job_tools(*spec, plan_only, *facts));
            r
        },
    }
}

/// What a command's run comes to: what it printed on its standard output;
/// or, when it could not be started, the error its start failure names,
/// followed by the system's reason; or, when it is checked and exited
/// unsuccessfully, `ProcessingFailed` with what it wrote to its standard
/// error.  `ran` is whether it exited successfully, its standard output and
/// its standard error, or why it could not be started.
pub open spec fn command_result(c: CommandView, ran: Result<(bool, Seq<char>, Seq<char>), Seq<char>>) -> Result<
    Seq<char>,
    ErrorView,
> {
    match ran {
        Err(why) => match c.start {
            StartView::Processing(prefix) => Err(ErrorView::ProcessingFailed { tool: c.tool, stderr: prefix + why }),
            StartView::Other(prefix) => Err(ErrorView::Other(prefix + why)),
        },
        Ok((success, stdout, stderr)) => if c.checked && !success {
            Err(ErrorView::ProcessingFailed { tool: c.tool, stderr })
        } else {
            Ok(stdout)
        },
    }
}

/// What a command's run comes to.
pub fn command_result_of(c: &Command, ran: Result<(bool, String, String), String>) -> (r: Result<String, ForgeKitError>)
    ensures
        match command_result(
            c@,
            match ran {
                Ok((a, b, e)) => Ok((a, b@, e@)),
                Err(w) => Err(w@),
            },
        ) {
            Ok(out) => r matches Ok(s) && s@ == out,
            Err(e) => r matches Err(x) && x@ == e,
        },
{
    match ran {
        Err(why) => match &c.start_failure {
            StartFailure::Processing(prefix) => {
                let mut m = string_of(prefix.as_str());
                push_str(&mut m, why.as_str());
                Err(ForgeKitError::ProcessingFailed { tool: string_of(c.tool.as_str()), stderr: m })
            },
            StartFailure::Other(prefix) => {
                let mut m = string_of(prefix.as_str());
                push_str(&mut m, why.as_str());
                Err(ForgeKitError::Other(m))
            },
        },
        Ok((success, stdout, stderr)) => if c.checked && !success {
            Err(ForgeKitError::ProcessingFailed { tool: string_of(c.tool.as_str()), stderr })
        } else {
            Ok(stdout)
        },
    }
}

} // verus!
