use forgekit::error::{ExitCode, ForgeKitError};
use forgekit::image::ImageFormat;
use forgekit::job::executor::{execute_job, required_tools, Facts, Finish, Outcome, Step};
use forgekit::pages::PageSpec;
use forgekit::job::spec::JobSpec;
use forgekit::presets::PresetsConfig;
use forgekit::tools::ToolInfo;

fn facts_with(existing: Vec<String>, tool: Result<ToolInfo, ForgeKitError>) -> Facts {
    Facts {
        existing,
        qpdf: match &tool {
            Ok(t) => Ok(t.clone()),
            Err(_) => Err(ForgeKitError::Other("absent".to_string())),
        },
        gs: Err(ForgeKitError::Other("absent".to_string())),
        ocrmypdf: Err(ForgeKitError::Other("absent".to_string())),
        exiftool: Err(ForgeKitError::Other("absent".to_string())),
        vips: match &tool {
            Ok(t) => Ok(t.clone()),
            Err(_) => Err(ForgeKitError::Other("absent".to_string())),
        },
        ffmpeg: tool,
        page_count: Ok(4),
        job_id: "job-7".to_string(),
        temp_dir: "/tmp".to_string(),
        unique_id: "u7".to_string(),
        process_id: 7,
        presets: PresetsConfig { version: 1, presets: vec![] },
    }
}

fn tool() -> Result<ToolInfo, ForgeKitError> {
    Ok(ToolInfo { path: "/usr/bin/t".to_string(), version: "1".to_string(), available: true })
}

fn jobs() -> Vec<JobSpec> {
    vec![
        JobSpec::PdfLinearize { input: "in.pdf".to_string(), output: "out.pdf".to_string() },
        JobSpec::PdfReorder { input: "in.pdf".to_string(), output: "out.pdf".to_string(), page_order: vec![2, 1] },
        JobSpec::ImageStrip { input: "a.jpg".to_string(), output: "b.jpg".to_string() },
        JobSpec::ImageConvert {
            input: "a.jpg".to_string(),
            output: "b.png".to_string(),
            format: ImageFormat::Png,
            quality: None,
            compression: Some(3),
            strip_metadata: false,
        },
        JobSpec::AudioMono { input: "s.mp3".to_string(), output: "m.mp3".to_string() },
    ]
}

fn runs(o: &Outcome) -> usize {
    o.steps.iter().filter(|s| matches!(s, Step::Run(_))).count()
}

fn changes_files(o: &Outcome) -> bool {
    o.steps.iter().any(|s| matches!(s, Step::Run(_) | Step::CreateDir(_) | Step::Copy { .. } | Step::WriteFile { .. }))
}

#[test]
fn every_error_exits_with_a_nonzero_code() {
    let errors = vec![
        ForgeKitError::ToolNotFound { tool: "qpdf".to_string(), hint: "h".to_string() },
        ForgeKitError::ToolVersionMismatch { tool: "t".to_string(), required: "2".to_string(), found: "1".to_string() },
        ForgeKitError::InvalidInput { path: "p".to_string(), reason: "r".to_string() },
        ForgeKitError::ProcessingFailed { tool: "t".to_string(), stderr: "e".to_string() },
        ForgeKitError::PermissionDenied { path: "p".to_string() },
        ForgeKitError::DiskFull { path: "p".to_string() },
        ForgeKitError::Cancelled,
        ForgeKitError::Io("io".to_string()),
        ForgeKitError::Other("x".to_string()),
    ];
    for e in &errors {
        assert_ne!(e.exit_code().as_i32(), 0, "{:?}", e);
    }
    assert_eq!(errors[0].exit_code(), ExitCode::MissingTool);
    assert_eq!(errors[0].exit_code().as_i32(), 2);
    assert_eq!(errors[2].exit_code().as_i32(), 3);
}

#[test]
fn a_plan_changes_nothing() {
    let f = facts_with(vec!["in.pdf".to_string(), "a.jpg".to_string(), "s.mp3".to_string()], tool());
    for job in jobs() {
        let o = execute_job(&job, true, &f);
        assert!(!changes_files(&o), "{:?}", job);
        assert!(o.end.is_ok(), "{:?}", job);
    }
}

#[test]
fn a_plan_shows_the_one_command() {
    let f = facts_with(vec![], tool());
    let job = JobSpec::PdfLinearize { input: "in.pdf".to_string(), output: "out.pdf".to_string() };
    match execute_job(&job, true, &f).end {
        Ok(Finish::Message(m)) => assert_eq!(m, "qpdf --linearize in.pdf out.pdf"),
        other => panic!("unexpected {:?}", other.map(|_| ())),
    }
}

#[test]
fn nothing_runs_without_the_input() {
    let f = facts_with(vec![], tool());
    for job in jobs() {
        let o = execute_job(&job, false, &f);
        assert_eq!(runs(&o), 0, "{:?}", job);
        match o.end {
            Err(ForgeKitError::InvalidInput { reason, .. }) => assert_eq!(reason, "Input file does not exist"),
            other => panic!("{:?}: unexpected {:?}", job, other.map(|_| ())),
        }
    }
}

#[test]
fn running_with_the_input_runs_a_command() {
    let f = facts_with(vec!["in.pdf".to_string(), "a.jpg".to_string(), "s.mp3".to_string()], tool());
    for job in jobs() {
        let o = execute_job(&job, false, &f);
        assert!(runs(&o) >= 1, "{:?}", job);
    }
}

#[test]
fn reports_name_the_job() {
    let f = facts_with(vec!["a.pdf".to_string(), "b.pdf".to_string()], tool());
    let job = JobSpec::PdfMerge {
        inputs: vec!["a.pdf".to_string(), "b.pdf".to_string()],
        output: "m.pdf".to_string(),
        linearize: false,
    };
    let o = execute_job(&job, false, &f);
    let mut seen = 0;
    for s in &o.steps {
        match s {
            Step::Report(e) => {
                seen += 1;
                assert!(format!("{:?}", e).contains("job-7"));
            }
            Step::ReportComplete { job_id, .. } => {
                seen += 1;
                assert_eq!(job_id, "job-7");
            }
            _ => {}
        }
    }
    assert!(seen >= 1);
}

#[test]
fn plans_and_missing_inputs_look_up_no_tool() {
    let linearize = JobSpec::PdfLinearize { input: "input.pdf".to_string(), output: "linearized.pdf".to_string() };
    let none = facts_with(vec![], Err(ForgeKitError::Other("absent".to_string())));
    assert!(required_tools(&linearize, true, &none).is_empty());
    assert!(required_tools(&linearize, false, &none).is_empty());
    let present = facts_with(vec!["input.pdf".to_string()], Err(ForgeKitError::Other("absent".to_string())));
    assert!(required_tools(&linearize, true, &present).is_empty());
    assert_eq!(required_tools(&linearize, false, &present), vec!["qpdf".to_string()]);
    let split = JobSpec::PdfSplit {
        input: "input.pdf".to_string(),
        output_dir: "out".to_string(),
        pages: PageSpec::parse("1-2").unwrap(),
    };
    for plan in [true, false] {
        assert!(required_tools(&split, plan, &none).is_empty());
        assert_eq!(required_tools(&split, plan, &present), vec!["qpdf".to_string()]);
    }
}

#[test]
fn image_extraction_looks_up_ghostscript_once_pages_are_selected() {
    let job = JobSpec::PdfExtract {
        input: "in.pdf".to_string(),
        output: None,
        output_dir: Some("imgs".to_string()),
        pages: PageSpec::parse("1-2").unwrap(),
        format: "png".to_string(),
    };
    let mut f = facts_with(vec!["in.pdf".to_string()], Err(ForgeKitError::Other("absent".to_string())));
    assert_eq!(required_tools(&job, false, &f), vec!["qpdf".to_string()]);
    f.qpdf = tool();
    assert_eq!(required_tools(&job, false, &f), vec!["qpdf".to_string(), "gs".to_string()]);
    f.page_count = Ok(1);
    assert_eq!(required_tools(&job, false, &f), vec!["qpdf".to_string()]);
    assert_eq!(required_tools(&job, true, &f), vec!["qpdf".to_string()]);
}
