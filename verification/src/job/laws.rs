//! What holds of every job.
use vstd::prelude::*;
use crate::error::ErrorView;
use crate::job::executor::{
    Facts, FinishView, StepView, exists_in, extract_outcome, first_missing, first_missing_at, job_inputs, job_outcome, job_tools,
    merge_outcome, ocr_outcome, opt_text, some_missing,
};
use crate::job::progress::EventView;
use crate::job::spec::{JobSpec, MetadataAction};
use crate::tools::command_line;

verus! {

/// Whether every step only reports progress.
pub open spec fn only_reports(steps: Seq<StepView>) -> bool {
    forall|k: int| 0 <= k < steps.len() ==> #[trigger] steps[k] is Report
}

/// Whether some step runs a command.
pub open spec fn runs_something(steps: Seq<StepView>) -> bool {
    exists|k: int| 0 <= k < steps.len() && #[trigger] steps[k] is Run
}

/// Whether a step that reports anything reports it for the job `id`, as
/// a version 1 event.
pub open spec fn reports_for(s: StepView, id: Seq<char>) -> bool {
    match s {
        StepView::Report(EventView::Progress { version, job_id, .. }) => version == 1 && job_id == id,
        StepView::Report(_) => false,
        StepView::ReportComplete(j, _) => j == id,
        StepView::Run(c) => match c.report {
            Some(r) => r.job_id == id,
            None => true,
        },
        _ => true,
    }
}

/// In plan mode a job runs no command and creates, copies or writes no
/// file: at most it reports that it started.
pub proof fn law_plan_runs_nothing(job: JobSpec, facts: Facts)
    ensures
        only_reports(job_outcome(job, true, facts).steps),
{
    match job {
        JobSpec::PdfExtract { input, output, output_dir, pages, format } => {
            let o = job_outcome(job, true, facts);
            assert(o.steps.len() == 0);
        },
        _ => {},
    }
}

/// Some path among `paths` does not exist: then there is a first one.
proof fn lemma_first_missing_exists(facts: Facts, paths: Seq<Seq<char>>, k: int)
    requires
        0 <= k < paths.len(),
        !exists_in(facts, paths[k]),
    ensures
        some_missing(facts, paths),
    decreases k,
{
    if forall|j: int| 0 <= j < k ==> exists_in(facts, #[trigger] paths[j]) {
        assert(first_missing_at(facts, paths, k));
    } else {
        let j = choose|j: int| 0 <= j < k && !exists_in(facts, #[trigger] paths[j]);
        lemma_first_missing_exists(facts, paths, j);
    }
}

/// A job runs a command only when every input it names exists.
pub proof fn law_runs_only_existing_inputs(job: JobSpec, plan_only: bool, facts: Facts)
    ensures
        runs_something(job_outcome(job, plan_only, facts).steps) ==> forall|k: int|
            0 <= k < job_inputs(job).len() ==> exists_in(facts, #[trigger] job_inputs(job)[k]),
{
    let steps = job_outcome(job, plan_only, facts).steps;
    if runs_something(steps) {
        law_plan_runs_nothing(job, facts);
        if plan_only {
            let k = choose|k: int| 0 <= k < steps.len() && #[trigger] steps[k] is Run;
            assert(steps[k] is Report);
        }
        assert forall|k: int| 0 <= k < job_inputs(job).len() implies exists_in(
            facts,
            #[trigger] job_inputs(job)[k],
        ) by {
            let inputs = job_inputs(job);
            if !exists_in(facts, inputs[k]) {
                lemma_first_missing_exists(facts, inputs, k);
                let w = choose|w: int| 0 <= w < steps.len() && #[trigger] steps[w] is Run;
                assert(steps[w] is Run);
            }
        }
    }
}

/// Whether every step reports, if at all, for the job `id`.
pub open spec fn all_report_for(steps: Seq<StepView>, id: Seq<char>) -> bool {
    forall|k: int| 0 <= k < steps.len() ==> reports_for(#[trigger] steps[k], id)
}

/// A merge reports only for its job.
proof fn lemma_merge_reports(inputs: Seq<Seq<char>>, output: Seq<char>, linearize: bool, plan_only: bool, facts: Facts)
    ensures
        all_report_for(merge_outcome(inputs, output, linearize, plan_only, facts).steps, facts.job_id@),
{
    let steps = merge_outcome(inputs, output, linearize, plan_only, facts).steps;
    assert forall|k: int| 0 <= k < steps.len() implies reports_for(#[trigger] steps[k], facts.job_id@) by {}
}

/// OCR reports only for its job.
proof fn lemma_ocr_reports(
    input: Seq<char>,
    output: Seq<char>,
    language: Seq<char>,
    skip_text: bool,
    deskew: bool,
    force_ocr: bool,
    plan_only: bool,
    facts: Facts,
)
    ensures
        all_report_for(
            ocr_outcome(input, output, language, skip_text, deskew, force_ocr, plan_only, facts).steps,
            facts.job_id@,
        ),
{
    let steps = ocr_outcome(input, output, language, skip_text, deskew, force_ocr, plan_only, facts).steps;
    assert forall|k: int| 0 <= k < steps.len() implies reports_for(#[trigger] steps[k], facts.job_id@) by {}
}

/// Page extraction reports only for its job.
proof fn lemma_extract_reports(
    input: Seq<char>,
    output: Option<Seq<char>>,
    output_dir: Option<Seq<char>>,
    pages: Seq<crate::pages::PageSpec>,
    format: Seq<char>,
    plan_only: bool,
    facts: Facts,
)
    ensures
        all_report_for(
            extract_outcome(input, output, output_dir, pages, format, plan_only, facts).steps,
            facts.job_id@,
        ),
{
    let steps = extract_outcome(input, output, output_dir, pages, format, plan_only, facts).steps;
    assert forall|k: int| 0 <= k < steps.len() implies reports_for(#[trigger] steps[k], facts.job_id@) by {}
}

/// The jobs that report no progress of their own report only for their job.
#[verifier::spinoff_prover]
#[verifier::rlimit(60)]
proof fn lemma_other_reports(job: JobSpec, plan_only: bool, facts: Facts)
    requires
        !(job is PdfMerge),
        !(job is PdfOcr),
        !(job is PdfExtract),
    ensures
        all_report_for(job_outcome(job, plan_only, facts).steps, facts.job_id@),
{
    let steps = job_outcome(job, plan_only, facts).steps;
    assert forall|k: int| 0 <= k < steps.len() implies reports_for(#[trigger] steps[k], facts.job_id@) by {}
}

/// Every event a job reports is a version 1 event of that job.
pub proof fn law_reports_name_the_job(job: JobSpec, plan_only: bool, facts: Facts)
    ensures
        all_report_for(job_outcome(job, plan_only, facts).steps, facts.job_id@),
{
    match job {
        JobSpec::PdfMerge { inputs, output, linearize } => {
            lemma_merge_reports(inputs@.map_values(|s: String| s@), output@, linearize, plan_only, facts);
            assert(inputs@.map_values(|s: String| s@) =~= crate::text::texts(inputs@));
        },
        JobSpec::PdfOcr { input, output, language, skip_text, deskew, force_ocr } => {
            lemma_ocr_reports(input@, output@, language@, skip_text, deskew, force_ocr, plan_only, facts);
        },
        JobSpec::PdfExtract { input, output, output_dir, pages, format } => {
            lemma_extract_reports(
                input@,
                opt_text(output),
                opt_text(output_dir),
                pages@,
                format@,
                plan_only,
                facts,
            );
        },
        _ => {
            lemma_other_reports(job, plan_only, facts);
        },
    }
}

/// When running a job is a single command, its plan is that command: the
/// tool followed by the same arguments.  (Setting metadata is the
/// exception: its plan shows the field names as given.)
pub proof fn law_plan_shows_the_command(job: JobSpec, facts: Facts)
    requires
        !(job matches JobSpec::PdfMetadata { action: MetadataAction::SetFields(_), .. }),
    ensures
        ({
            let run = job_outcome(job, false, facts);
            run.steps.len() == 1 && run.steps[0] is Run ==> job_outcome(job, true, facts).end == Ok::<
                FinishView,
                ErrorView,
            >(FinishView::Message(command_line(run.steps[0]->Run_0.tool, run.steps[0]->Run_0.args)))
        }),
{
}

/// Facts that agree on which paths exist agree on the first missing path.
proof fn lemma_first_missing_same(f: Facts, g: Facts, paths: Seq<Seq<char>>)
    requires
        forall|p: Seq<char>| exists_in(f, p) == exists_in(g, p),
    ensures
        some_missing(f, paths) == some_missing(g, paths),
        some_missing(f, paths) ==> first_missing(f, paths) == first_missing(g, paths),
{
    if some_missing(f, paths) {
        let kf = choose|k: int| first_missing_at(f, paths, k);
        assert(exists_in(f, paths[kf]) == exists_in(g, paths[kf]));
        assert forall|j: int| 0 <= j < kf implies exists_in(g, #[trigger] paths[j]) by {
            assert(exists_in(f, paths[j]) == exists_in(g, paths[j]));
        }
        assert(first_missing_at(g, paths, kf));
        let kg = choose|k: int| first_missing_at(g, paths, k);
        assert(first_missing_at(g, paths, kg));
        if kf < kg {
            assert(exists_in(g, paths[kf]));
        } else if kg < kf {
            assert(exists_in(f, paths[kg]) == exists_in(g, paths[kg]));
            assert(exists_in(f, paths[kg]));
        }
    }
    if some_missing(g, paths) {
        let kg = choose|k: int| first_missing_at(g, paths, k);
        assert(exists_in(f, paths[kg]) == exists_in(g, paths[kg]));
        assert forall|j: int| 0 <= j < kg implies exists_in(f, #[trigger] paths[j]) by {
            assert(exists_in(f, paths[j]) == exists_in(g, paths[j]));
        }
        assert(first_missing_at(f, paths, kg));
    }
}

/// Whether two sets of facts agree on everything but the tools, and on
/// each tool named in `tools`.
pub open spec fn agree_but_unlisted_tools(f: Facts, g: Facts, tools: Seq<Seq<char>>) -> bool {
    &&& f.existing == g.existing
    &&& f.page_count == g.page_count
    &&& f.job_id == g.job_id
    &&& f.temp_dir == g.temp_dir
    &&& f.unique_id == g.unique_id
    &&& f.process_id == g.process_id
    &&& f.presets == g.presets
    &&& (tools.contains("qpdf"@) ==> f.qpdf == g.qpdf)
    &&& (tools.contains("gs"@) ==> f.gs == g.gs)
    &&& (tools.contains("ocrmypdf"@) ==> f.ocrmypdf == g.ocrmypdf)
    &&& (tools.contains("exiftool"@) ==> f.exiftool == g.exiftool)
    &&& (tools.contains("vips"@) ==> f.vips == g.vips)
    &&& (tools.contains("ffmpeg"@) ==> f.ffmpeg == g.ffmpeg)
}

/// A job consults only the tools it lists: facts that differ only in tools
/// it does not list give the same list and the same outcome.  So looking
/// up the listed tools, and nothing else, is enough to decide the job.
#[verifier::spinoff_prover]
#[verifier::rlimit(60)]
pub proof fn law_outcome_uses_listed_tools(job: JobSpec, plan_only: bool, f: Facts, g: Facts)
    requires
        agree_but_unlisted_tools(f, g, job_tools(job, plan_only, f)),
    ensures
        job_tools(job, plan_only, g) == job_tools(job, plan_only, f),
        job_outcome(job, plan_only, g) == job_outcome(job, plan_only, f),
{
    assert forall|t: Seq<char>| #[trigger] seq![t].contains(t) by {
        assert(seq![t][0] == t);
    }
    assert(seq!["qpdf"@, "gs"@].contains("qpdf"@)) by {
        assert(seq!["qpdf"@, "gs"@][0] == "qpdf"@);
    }
    assert(seq!["qpdf"@, "gs"@].contains("gs"@)) by {
        assert(seq!["qpdf"@, "gs"@][1] == "gs"@);
    }
    assert(forall|p: Seq<char>| exists_in(f, p) == exists_in(g, p));
    match job {
        JobSpec::PdfMerge { inputs, output, linearize } => {
            let paths = crate::text::texts(inputs@);
            lemma_first_missing_same(f, g, paths);
            if paths.len() >= 2 {
                assert(f.qpdf == g.qpdf);
            }
            assert(merge_outcome(paths, output@, linearize, plan_only, g) == merge_outcome(
                paths,
                output@,
                linearize,
                plan_only,
                f,
            ));
            assert(job_outcome(job, plan_only, f) == merge_outcome(paths, output@, linearize, plan_only, f));
            assert(job_outcome(job, plan_only, g) == merge_outcome(paths, output@, linearize, plan_only, g));
        },
        JobSpec::PdfSplit { .. } => {
            assert(job_outcome(job, plan_only, g) == job_outcome(job, plan_only, f));
        },
        JobSpec::PdfLinearize { .. } => {
            assert(job_outcome(job, plan_only, g) == job_outcome(job, plan_only, f));
        },
        JobSpec::PdfReorder { .. } => {
            assert(job_outcome(job, plan_only, g) == job_outcome(job, plan_only, f));
        },
        JobSpec::PdfExtract { .. } => {
            assert(job_outcome(job, plan_only, g) == job_outcome(job, plan_only, f));
        },
        JobSpec::PdfCompress { .. } => {
            assert(job_outcome(job, plan_only, g) == job_outcome(job, plan_only, f));
        },
        JobSpec::PdfOcr { .. } => {
            assert(job_outcome(job, plan_only, g) == job_outcome(job, plan_only, f));
        },
        JobSpec::PdfMetadata { .. } => {
            assert(job_outcome(job, plan_only, g) == job_outcome(job, plan_only, f));
        },
        JobSpec::ImageConvert { .. } => {
            assert(job_outcome(job, plan_only, g) == job_outcome(job, plan_only, f));
        },
        JobSpec::ImageResize { .. } => {
            assert(job_outcome(job, plan_only, g) == job_outcome(job, plan_only, f));
        },
        JobSpec::ImageStrip { .. } => {
            assert(job_outcome(job, plan_only, g) == job_outcome(job, plan_only, f));
        },
        JobSpec::AudioConvert { .. } => {
            assert(job_outcome(job, plan_only, g) == job_outcome(job, plan_only, f));
        },
        JobSpec::AudioExtract { .. } => {
            assert(job_outcome(job, plan_only, g) == job_outcome(job, plan_only, f));
        },
        JobSpec::AudioMono { .. } => {
            assert(job_outcome(job, plan_only, g) == job_outcome(job, plan_only, f));
        },
        JobSpec::AudioJoin { inputs, .. } => {
            lemma_first_missing_same(f, g, crate::text::texts(inputs@));
            assert(job_outcome(job, plan_only, g) == job_outcome(job, plan_only, f));
        },
    }
}

/// Plan mode looks up no tool but qpdf, and qpdf only for merging (which
/// checks for it before planning) and for splitting and extracting pages
/// (whose plans show the document's pages).
pub proof fn law_plan_looks_up_only_qpdf(job: JobSpec, facts: Facts)
    ensures
        forall|i: int| 0 <= i < job_tools(job, true, facts).len() ==> #[trigger] job_tools(job, true, facts)[i]
            == "qpdf"@,
        job_tools(job, true, facts).len() > 0 ==> job is PdfMerge || job is PdfSplit || job is PdfExtract,
{
}

/// A job with a missing input looks up no tool, but for a merge (which
/// looks for qpdf first) and for page extraction outside plan mode (which
/// asks qpdf for the page count first).
pub proof fn law_missing_input_looks_up_nothing(job: JobSpec, plan_only: bool, facts: Facts, k: int)
    requires
        0 <= k < job_inputs(job).len(),
        !exists_in(facts, job_inputs(job)[k]),
        !(job is PdfMerge),
        !(job is PdfExtract && !plan_only),
    ensures
        job_tools(job, plan_only, facts).len() == 0,
{
    lemma_first_missing_exists(facts, job_inputs(job), k);
}

} // verus!
