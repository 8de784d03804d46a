use gendoc::adapter::{AdapterAction, AdapterEvent, AdapterState, PDF_FORMAT_CODE};
use gendoc::dispatch::{CallOutcome, CreateOutcome, InvokeKind};
use gendoc::errors::{AdapterStep, OleError};
use gendoc::providers::{office2pdf, wps2pdf};
use gendoc::variant::Variant;

fn created(handle: u32) -> AdapterEvent {
    AdapterEvent::Create(CreateOutcome::Created { handle })
}

fn returned(v: Variant) -> AdapterEvent {
    AdapterEvent::Call(CallOutcome::Returned(v))
}

fn full_success(status: i32) -> Vec<AdapterEvent> {
    vec![
        created(1),
        returned(Variant::Empty),          // Visible put
        returned(Variant::Dispatch(2)),    // Documents collection
        returned(Variant::Dispatch(3)),    // opened document
        returned(Variant::Int(status)),    // export status
        returned(Variant::Empty),          // Close
        returned(Variant::Empty),          // Quit
    ]
}

fn quit_invokes(actions: &[AdapterAction]) -> usize {
    actions
        .iter()
        .filter(|a| match a {
            AdapterAction::Invoke(req) => req.member == "Quit",
            _ => false,
        })
        .count()
}

#[test]
fn a_full_primary_attempt_succeeds_and_quits_once() {
    let src = String::from("report.docx");
    let dst = String::from("report.pdf");
    let (actions, state) = office2pdf(&src, &dst, &full_success(0));
    match state {
        AdapterState::Done { outcome } => assert_eq!(outcome, Ok(0)),
        _ => panic!("attempt did not finish"),
    }
    assert_eq!(actions.len(), 7);
    match &actions[0] {
        AdapterAction::Create { prog_id } => assert_eq!(prog_id, "Word.Application"),
        _ => panic!("first request must create the server"),
    }
    assert_eq!(quit_invokes(&actions), 1);
}

#[test]
fn the_primary_export_arguments_carry_destination_and_format_code() {
    let src = String::from("report.docx");
    let dst = String::from("report.pdf");
    let (actions, _) = office2pdf(&src, &dst, &full_success(0));
    let export = match &actions[4] {
        AdapterAction::Invoke(req) => req,
        _ => panic!("fifth request must be the export call"),
    };
    assert_eq!(export.member, "ExportAsFixedFormat");
    assert_eq!(export.kind, InvokeKind::MethodCall);
    assert_eq!(export.args.len(), 13);
    assert_eq!(export.args[0].string().unwrap(), "report.pdf");
    assert_eq!(export.args[1].int32(), Ok(PDF_FORMAT_CODE));
    assert_eq!(export.args[1].int32(), Ok(17));
}

#[test]
fn the_secondary_export_arguments_are_the_two_argument_form() {
    let src = String::from("report.docx");
    let dst = String::from("report.pdf");
    let (actions, state) = wps2pdf(&src, &dst, &full_success(0));
    match state {
        AdapterState::Done { outcome } => assert_eq!(outcome, Ok(0)),
        _ => panic!("attempt did not finish"),
    }
    match &actions[0] {
        AdapterAction::Create { prog_id } => assert_eq!(prog_id, "KWps.Application"),
        _ => panic!("first request must create the server"),
    }
    let export = match &actions[4] {
        AdapterAction::Invoke(req) => req,
        _ => panic!("fifth request must be the export call"),
    };
    assert_eq!(export.args.len(), 2);
    assert_eq!(export.args[0].string().unwrap(), "report.pdf");
    assert_eq!(export.args[1].int32(), Ok(17));
}

#[test]
fn a_failed_creation_has_nothing_to_quit() {
    let src = String::from("a.docx");
    let dst = String::from("a.pdf");
    let events = vec![AdapterEvent::Create(CreateOutcome::CreateFailed)];
    let (actions, state) = office2pdf(&src, &dst, &events);
    match state {
        AdapterState::Done { outcome } => {
            let e = outcome.unwrap_err();
            assert_eq!(e.step, AdapterStep::Create);
            assert_eq!(e.err, OleError::InstantiationError);
        },
        _ => panic!("attempt did not finish"),
    }
    assert_eq!(actions.len(), 1);
    assert_eq!(quit_invokes(&actions), 0);
}

#[test]
fn a_failed_open_still_quits_exactly_once() {
    let src = String::from("a.docx");
    let dst = String::from("a.pdf");
    let events = vec![
        created(1),
        returned(Variant::Empty),
        returned(Variant::Dispatch(2)),
        AdapterEvent::Call(CallOutcome::CallFailed),  // Open fails
        returned(Variant::Empty),                     // Quit
    ];
    let (actions, state) = office2pdf(&src, &dst, &events);
    match state {
        AdapterState::Done { outcome } => {
            let e = outcome.unwrap_err();
            assert_eq!(e.step, AdapterStep::OpenDocument);
            assert_eq!(e.err, OleError::InvocationError);
        },
        _ => panic!("attempt did not finish"),
    }
    assert_eq!(quit_invokes(&actions), 1);
}

#[test]
fn a_failed_export_still_quits_exactly_once() {
    let src = String::from("a.docx");
    let dst = String::from("a.pdf");
    let events = vec![
        created(1),
        returned(Variant::Empty),
        returned(Variant::Dispatch(2)),
        returned(Variant::Dispatch(3)),
        AdapterEvent::Call(CallOutcome::NameNotFound),  // ExportAsFixedFormat unresolved
        returned(Variant::Empty),                       // Quit
    ];
    let (actions, state) = office2pdf(&src, &dst, &events);
    match state {
        AdapterState::Done { outcome } => {
            let e = outcome.unwrap_err();
            assert_eq!(e.step, AdapterStep::Export);
            assert_eq!(e.err, OleError::MemberNotFound);
        },
        _ => panic!("attempt did not finish"),
    }
    assert_eq!(quit_invokes(&actions), 1);
}

#[test]
fn a_non_reference_documents_value_is_a_type_mismatch() {
    let src = String::from("a.docx");
    let dst = String::from("a.pdf");
    let events = vec![
        created(1),
        returned(Variant::Empty),
        returned(Variant::Int(5)),   // Documents is not an object reference
        returned(Variant::Empty),    // Quit
    ];
    let (actions, state) = office2pdf(&src, &dst, &events);
    match state {
        AdapterState::Done { outcome } => {
            let e = outcome.unwrap_err();
            assert_eq!(e.step, AdapterStep::GetDocuments);
            assert!(matches!(e.err, OleError::TypeMismatch { .. }));
        },
        _ => panic!("attempt did not finish"),
    }
    assert_eq!(quit_invokes(&actions), 1);
}

#[test]
fn a_non_numeric_export_status_is_reported_after_the_close() {
    let src = String::from("a.docx");
    let dst = String::from("a.pdf");
    let events = vec![
        created(1),
        returned(Variant::Empty),
        returned(Variant::Dispatch(2)),
        returned(Variant::Dispatch(3)),
        returned(Variant::of_str("done")),  // export returns a string
        returned(Variant::Empty),           // Close still runs
        returned(Variant::Empty),           // Quit
    ];
    let (_, state) = office2pdf(&src, &dst, &events);
    match state {
        AdapterState::Done { outcome } => {
            let e = outcome.unwrap_err();
            assert_eq!(e.step, AdapterStep::Export);
            assert!(matches!(e.err, OleError::TypeMismatch { .. }));
        },
        _ => panic!("attempt did not finish"),
    }
}

#[test]
fn an_attempt_whose_call_never_returns_stays_unfinished() {
    let src = String::from("a.docx");
    let dst = String::from("a.pdf");
    let events = vec![created(1), returned(Variant::Empty)];
    let (actions, state) = office2pdf(&src, &dst, &events);
    assert!(!matches!(state, AdapterState::Done { .. }));
    assert_eq!(actions.len(), 2);
}
