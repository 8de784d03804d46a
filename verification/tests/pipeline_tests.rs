use gendoc::adapter::{AdapterAction, AdapterEvent};
use gendoc::dispatch::{CallOutcome, CreateOutcome};
use gendoc::errors::PdfError;
use gendoc::guards::{DeferQuit, DeferUninitializeCOM};
use gendoc::pipeline::{convert2pdf, initialize_com, InitOutcome, PipelineAction, PipelineEvents};
use gendoc::variant::Variant;

fn created(handle: u32) -> AdapterEvent {
    AdapterEvent::Create(CreateOutcome::Created { handle })
}

fn returned(v: Variant) -> AdapterEvent {
    AdapterEvent::Call(CallOutcome::Returned(v))
}

fn full_success(status: i32) -> Vec<AdapterEvent> {
    vec![
        created(1),
        returned(Variant::Empty),
        returned(Variant::Dispatch(2)),
        returned(Variant::Dispatch(3)),
        returned(Variant::Int(status)),
        returned(Variant::Empty),
        returned(Variant::Empty),
    ]
}

fn failing_creation() -> Vec<AdapterEvent> {
    vec![AdapterEvent::Create(CreateOutcome::CreateFailed)]
}

fn uninit_count(actions: &[PipelineAction]) -> usize {
    actions.iter().filter(|a| matches!(a, PipelineAction::UninitRuntime)).count()
}

fn secondary_creations(actions: &[PipelineAction]) -> Vec<String> {
    actions
        .iter()
        .filter_map(|a| match a {
            PipelineAction::Secondary(AdapterAction::Create { prog_id }) => Some(prog_id.clone()),
            _ => None,
        })
        .collect()
}

#[test]
fn a_successful_primary_attempt_returns_the_sibling_pdf() {
    let path = String::from("docs/report.docx");
    let events = PipelineEvents {
        init: InitOutcome::Initialized,
        primary: full_success(0),
        secondary: Vec::new(),
    };
    let run = convert2pdf(&path, &events);
    assert_eq!(run.outcome, Some(Ok(String::from("docs/report.pdf"))));
    assert_eq!(uninit_count(&run.actions), 1);
    assert!(matches!(run.actions.last().unwrap(), PipelineAction::UninitRuntime));
    assert!(secondary_creations(&run.actions).is_empty());
}

#[test]
fn an_unavailable_primary_falls_back_to_the_secondary() {
    // The scenario of a source whose extension is swapped stage by stage:
    // the template stage emits report.md, the document stage report.docx,
    // and the export stage report.pdf even when only the secondary provider
    // is installed.
    let path = String::from("report.docx");
    let events = PipelineEvents {
        init: InitOutcome::Initialized,
        primary: failing_creation(),
        secondary: full_success(0),
    };
    let run = convert2pdf(&path, &events);
    assert_eq!(run.outcome, Some(Ok(String::from("report.pdf"))));
    assert_eq!(secondary_creations(&run.actions), vec![String::from("KWps.Application")]);
    assert_eq!(uninit_count(&run.actions), 1);
}

#[test]
fn the_secondary_attempt_reuses_source_destination_and_format_code() {
    let path = String::from("report.docx");
    let events = PipelineEvents {
        init: InitOutcome::Initialized,
        primary: failing_creation(),
        secondary: full_success(0),
    };
    let run = convert2pdf(&path, &events);
    let mut open_arg = None;
    let mut export_args = None;
    for a in &run.actions {
        if let PipelineAction::Secondary(AdapterAction::Invoke(req)) = a {
            if req.member == "Open" {
                open_arg = Some(req.args[0].string().unwrap());
            }
            if req.member == "ExportAsFixedFormat" {
                export_args = Some((
                    req.args[0].string().unwrap(),
                    req.args[1].int32().unwrap(),
                    req.args.len(),
                ));
            }
        }
    }
    assert_eq!(open_arg.unwrap(), "report.docx");
    assert_eq!(export_args.unwrap(), (String::from("report.pdf"), 17, 2));
}

#[test]
fn a_double_failure_is_one_combined_error() {
    let path = String::from("report.docx");
    let events = PipelineEvents {
        init: InitOutcome::Initialized,
        primary: failing_creation(),
        secondary: vec![
            created(1),
            returned(Variant::Empty),
            AdapterEvent::Call(CallOutcome::CallFailed),  // Documents fails
            returned(Variant::Empty),                     // Quit
        ],
    };
    let run = convert2pdf(&path, &events);
    assert_eq!(run.outcome, Some(Err(PdfError::ExportFailed)));
    assert_eq!(uninit_count(&run.actions), 1);
}

#[test]
fn a_non_zero_status_is_a_failure_without_fallback() {
    let path = String::from("report.docx");
    let events = PipelineEvents {
        init: InitOutcome::Initialized,
        primary: full_success(3),
        secondary: full_success(0),
    };
    let run = convert2pdf(&path, &events);
    assert_eq!(run.outcome, Some(Err(PdfError::ExportStatusError { status: 3 })));
    assert!(secondary_creations(&run.actions).is_empty());
    assert_eq!(uninit_count(&run.actions), 1);
}

#[test]
fn a_runtime_initialization_failure_is_fatal_and_releases_nothing() {
    let path = String::from("report.docx");
    let events = PipelineEvents {
        init: InitOutcome::InitFailed,
        primary: full_success(0),
        secondary: full_success(0),
    };
    let run = convert2pdf(&path, &events);
    assert_eq!(run.outcome, Some(Err(PdfError::RuntimeInitError)));
    assert_eq!(run.actions.len(), 1);
    assert!(matches!(run.actions[0], PipelineAction::InitRuntime));
    assert_eq!(uninit_count(&run.actions), 0);
}

#[test]
fn a_hanging_remote_call_reaches_no_outcome_and_no_cleanup() {
    let path = String::from("report.docx");
    let events = PipelineEvents {
        init: InitOutcome::Initialized,
        primary: vec![created(1)],
        secondary: Vec::new(),
    };
    let run = convert2pdf(&path, &events);
    assert_eq!(run.outcome, None);
    assert_eq!(uninit_count(&run.actions), 0);
}

#[test]
fn initialize_com_reports_the_two_outcomes() {
    assert_eq!(initialize_com(&InitOutcome::Initialized).unwrap(), "Ok");
    assert_eq!(
        initialize_com(&InitOutcome::InitFailed).unwrap_err(),
        PdfError::RuntimeInitError
    );
}

#[test]
fn guards_arm_once_and_release_once() {
    let mut g = DeferUninitializeCOM::new();
    assert!(g.pending);
    g.release();
    assert!(!g.pending);
    let mut q = DeferQuit::new(12);
    assert!(q.pending);
    assert_eq!(q.app, 12);
    q.release();
    assert!(!q.pending);
    assert_eq!(q.app, 12);
}
