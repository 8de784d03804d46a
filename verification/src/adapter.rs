//! The per-provider export adapter.
//!
//! One provider attempt creates the automation server by program identifier,
//! hides it, fetches its document collection, opens the source document,
//! exports a fixed-layout rendition, closes the document, and finally quits
//! the server it created — the quit is owed on every path on which the
//! server exists, whichever step failed.
//!
//! The adapter is a step machine: each non-final state carries one pending
//! request ([`adapter_pending`]); the unverified driver performs it and
//! reports the outcome as an event, which [`adapter_step`] consumes.
//! [`run_adapter`] folds the machine over a recorded event list.

use vstd::prelude::*;
use crate::dispatch::{
    CallOutcome, CallOutcomeV, CreateOutcome, IDispatchWrapper, InvokeKind, InvokeRequest,
    InvokeRequestV, views_of,
};
use crate::errors::{AdapterError, AdapterStep, OleError};
use crate::guards::DeferQuit;
use crate::variant::{Variant, VariantV, VT_DISPATCH, spec_as_int, spec_vt};

verus! {

/// The fixed-format code selecting PDF, shared by both providers.
pub const PDF_FORMAT_CODE: i32 = 17;

/// What distinguishes one provider from the other: the program identifier
/// under which its server is registered, the source path handed to "Open",
/// and the provider-specific argument list of "ExportAsFixedFormat".
#[derive(Debug)]
pub struct AdapterConfig {
    pub prog_id: String,
    pub src: String,
    pub export_args: Vec<Variant>,
}

/// The mathematical value of an [`AdapterConfig`].
pub struct AdapterConfigV {
    pub prog_id: Seq<char>,
    pub src: Seq<char>,
    pub export_args: Seq<VariantV>,
}

impl View for AdapterConfig {
    type V = AdapterConfigV;

    open spec fn view(&self) -> AdapterConfigV {
        AdapterConfigV {
            prog_id: self.prog_id@,
            src: self.src@,
            export_args: views_of(self.export_args@),
        }
    }
}

/// The state of one provider attempt. Every state up to the final one names
/// the request whose outcome it awaits.
#[derive(Debug)]
pub enum AdapterState {
    /// Awaiting the creation of the automation server.
    Creating,
    /// Awaiting the put of the "Visible" property.
    SettingVisible { app: u32 },
    /// Awaiting the get of the "Documents" collection.
    GettingDocuments { app: u32 },
    /// Awaiting the "Open" call on the document collection.
    Opening { app: u32, docs: u32 },
    /// Awaiting the "ExportAsFixedFormat" call on the opened document.
    Exporting { app: u32, doc: u32 },
    /// Awaiting the "Close" call; holds the export call's return value,
    /// which is decoded once the document is closed.
    Closing { app: u32, doc: u32, ret: Variant },
    /// Awaiting the "Quit" call owed to the created server; the attempt's
    /// outcome is already settled and the quit's own outcome is ignored.
    Quitting { app: u32, outcome: Result<i32, AdapterError> },
    /// The attempt is over.
    Done { outcome: Result<i32, AdapterError> },
}

/// The mathematical value of an [`AdapterState`].
pub enum AdapterStateV {
    Creating,
    SettingVisible { app: u32 },
    GettingDocuments { app: u32 },
    Opening { app: u32, docs: u32 },
    Exporting { app: u32, doc: u32 },
    Closing { app: u32, doc: u32, ret: VariantV },
    Quitting { app: u32, outcome: Result<i32, AdapterError> },
    Done { outcome: Result<i32, AdapterError> },
}

impl View for AdapterState {
    type V = AdapterStateV;

    open spec fn view(&self) -> AdapterStateV {
        match self {
            AdapterState::Creating => AdapterStateV::Creating,
            AdapterState::SettingVisible { app } => AdapterStateV::SettingVisible { app: *app },
            AdapterState::GettingDocuments { app } => AdapterStateV::GettingDocuments {
                app: *app,
            },
            AdapterState::Opening { app, docs } => AdapterStateV::Opening {
                app: *app,
                docs: *docs,
            },
            AdapterState::Exporting { app, doc } => AdapterStateV::Exporting {
                app: *app,
                doc: *doc,
            },
            AdapterState::Closing { app, doc, ret } => AdapterStateV::Closing {
                app: *app,
                doc: *doc,
                ret: ret@,
            },
            AdapterState::Quitting { app, outcome } => AdapterStateV::Quitting {
                app: *app,
                outcome: *outcome,
            },
            AdapterState::Done { outcome } => AdapterStateV::Done { outcome: *outcome },
        }
    }
}

/// One outcome reported by the driver: of the creation request, or of an
/// invocation request.
#[derive(Debug)]
pub enum AdapterEvent {
    Create(CreateOutcome),
    Call(CallOutcome),
}

/// The mathematical value of an [`AdapterEvent`].
pub enum AdapterEventV {
    Create(CreateOutcome),
    Call(CallOutcomeV),
}

impl View for AdapterEvent {
    type V = AdapterEventV;

    open spec fn view(&self) -> AdapterEventV {
        match self {
            AdapterEvent::Create(o) => AdapterEventV::Create(*o),
            AdapterEvent::Call(o) => AdapterEventV::Call(o@),
        }
    }
}

/// One request the adapter hands to the driver.
#[derive(Debug)]
pub enum AdapterAction {
    /// Create the automation server with this program identifier.
    Create { prog_id: String },
    /// Perform this invocation.
    Invoke(InvokeRequest),
}

/// The mathematical value of an [`AdapterAction`].
pub enum AdapterActionV {
    Create { prog_id: Seq<char> },
    Invoke(InvokeRequestV),
}

impl View for AdapterAction {
    type V = AdapterActionV;

    open spec fn view(&self) -> AdapterActionV {
        match self {
            AdapterAction::Create { prog_id } => AdapterActionV::Create { prog_id: prog_id@ },
            AdapterAction::Invoke(req) => AdapterActionV::Invoke(req@),
        }
    }
}

/// The mathematical values of an event list.
pub open spec fn events_v(s: Seq<AdapterEvent>) -> Seq<AdapterEventV> {
    s.map_values(|e: AdapterEvent| e@)
}

/// The mathematical values of an action list.
pub open spec fn actions_v(s: Seq<AdapterAction>) -> Seq<AdapterActionV> {
    s.map_values(|a: AdapterAction| a@)
}

/// A failed attempt that still owes the created server its quit.
pub open spec fn spec_quit_err(app: u32, step: AdapterStep, err: OleError) -> AdapterStateV {
    AdapterStateV::Quitting { app, outcome: Err(AdapterError { step, err }) }
}

/// The request pending in a state, or nothing once the attempt is over.
pub open spec fn spec_pending(cfg: AdapterConfigV, s: AdapterStateV) -> Option<
    AdapterActionV,
> {
    match s {
        AdapterStateV::Creating => Some(AdapterActionV::Create { prog_id: cfg.prog_id }),
        AdapterStateV::SettingVisible { app } => Some(
            AdapterActionV::Invoke(
                InvokeRequestV {
                    target: app,
                    kind: InvokeKind::PropertyPut,
                    member: "Visible"@,
                    args: seq![VariantV::Bool(false)],
                },
            ),
        ),
        AdapterStateV::GettingDocuments { app } => Some(
            AdapterActionV::Invoke(
                InvokeRequestV {
                    target: app,
                    kind: InvokeKind::PropertyGet,
                    member: "Documents"@,
                    args: Seq::empty(),
                },
            ),
        ),
        AdapterStateV::Opening { app, docs } => Some(
            AdapterActionV::Invoke(
                InvokeRequestV {
                    target: docs,
                    kind: InvokeKind::MethodCall,
                    member: "Open"@,
                    args: seq![VariantV::Str(cfg.src)],
                },
            ),
        ),
        AdapterStateV::Exporting { app, doc } => Some(
            AdapterActionV::Invoke(
                InvokeRequestV {
                    target: doc,
                    kind: InvokeKind::MethodCall,
                    member: "ExportAsFixedFormat"@,
                    args: cfg.export_args,
                },
            ),
        ),
        AdapterStateV::Closing { app, doc, ret } => Some(
            AdapterActionV::Invoke(
                InvokeRequestV {
                    target: doc,
                    kind: InvokeKind::MethodCall,
                    member: "Close"@,
                    args: Seq::empty(),
                },
            ),
        ),
        AdapterStateV::Quitting { app, outcome } => Some(
            AdapterActionV::Invoke(
                InvokeRequestV {
                    target: app,
                    kind: InvokeKind::MethodCall,
                    member: "Quit"@,
                    args: Seq::empty(),
                },
            ),
        ),
        AdapterStateV::Done { .. } => None,
    }
}

/// The transition on one reported outcome. An event of the wrong kind for
/// the state leaves the state unchanged; every failure after the server was
/// created routes through the quit step before the attempt ends.
pub open spec fn spec_step(s: AdapterStateV, e: AdapterEventV) -> AdapterStateV {
    match (s, e) {
        (AdapterStateV::Creating, AdapterEventV::Create(o)) => match o {
            CreateOutcome::Created { handle } => AdapterStateV::SettingVisible { app: handle },
            CreateOutcome::NoSuchProgId => AdapterStateV::Done {
                outcome: Err(
                    AdapterError { step: AdapterStep::Create, err: OleError::ResolutionError },
                ),
            },
            CreateOutcome::CreateFailed => AdapterStateV::Done {
                outcome: Err(
                    AdapterError { step: AdapterStep::Create, err: OleError::InstantiationError },
                ),
            },
        },
        (AdapterStateV::SettingVisible { app }, AdapterEventV::Call(o)) => match o {
            CallOutcomeV::Returned(_) => AdapterStateV::GettingDocuments { app },
            CallOutcomeV::NameNotFound => spec_quit_err(
                app,
                AdapterStep::SetVisible,
                OleError::MemberNotFound,
            ),
            CallOutcomeV::CallFailed => spec_quit_err(
                app,
                AdapterStep::SetVisible,
                OleError::InvocationError,
            ),
        },
        (AdapterStateV::GettingDocuments { app }, AdapterEventV::Call(o)) => match o {
            CallOutcomeV::Returned(v) => match v {
                VariantV::Dispatch(d) => AdapterStateV::Opening { app, docs: d },
                _ => spec_quit_err(
                    app,
                    AdapterStep::GetDocuments,
                    OleError::TypeMismatch { expected: VT_DISPATCH, actual: spec_vt(v) },
                ),
            },
            CallOutcomeV::NameNotFound => spec_quit_err(
                app,
                AdapterStep::GetDocuments,
                OleError::MemberNotFound,
            ),
            CallOutcomeV::CallFailed => spec_quit_err(
                app,
                AdapterStep::GetDocuments,
                OleError::InvocationError,
            ),
        },
        (AdapterStateV::Opening { app, docs }, AdapterEventV::Call(o)) => match o {
            CallOutcomeV::Returned(v) => match v {
                VariantV::Dispatch(d) => AdapterStateV::Exporting { app, doc: d },
                _ => spec_quit_err(
                    app,
                    AdapterStep::OpenDocument,
                    OleError::TypeMismatch { expected: VT_DISPATCH, actual: spec_vt(v) },
                ),
            },
            CallOutcomeV::NameNotFound => spec_quit_err(
                app,
                AdapterStep::OpenDocument,
                OleError::MemberNotFound,
            ),
            CallOutcomeV::CallFailed => spec_quit_err(
                app,
                AdapterStep::OpenDocument,
                OleError::InvocationError,
            ),
        },
        (AdapterStateV::Exporting { app, doc }, AdapterEventV::Call(o)) => match o {
            CallOutcomeV::Returned(v) => AdapterStateV::Closing { app, doc, ret: v },
            CallOutcomeV::NameNotFound => spec_quit_err(
                app,
                AdapterStep::Export,
                OleError::MemberNotFound,
            ),
            CallOutcomeV::CallFailed => spec_quit_err(
                app,
                AdapterStep::Export,
                OleError::InvocationError,
            ),
        },
        (AdapterStateV::Closing { app, doc, ret }, AdapterEventV::Call(o)) => match o {
            CallOutcomeV::Returned(_) => AdapterStateV::Quitting {
                app,
                outcome: match spec_as_int(ret) {
                    Ok(st) => Ok(st),
                    Err(e) => Err(AdapterError { step: AdapterStep::Export, err: e }),
                },
            },
            CallOutcomeV::NameNotFound => spec_quit_err(
                app,
                AdapterStep::CloseDocument,
                OleError::MemberNotFound,
            ),
            CallOutcomeV::CallFailed => spec_quit_err(
                app,
                AdapterStep::CloseDocument,
                OleError::InvocationError,
            ),
        },
        (AdapterStateV::Quitting { app, outcome }, AdapterEventV::Call(_)) => AdapterStateV::Done {
            outcome,
        },
        (s0, _) => s0,
    }
}

/// A deep copy of a state with the same mathematical value.
fn dup_state(s: &AdapterState) -> (r: AdapterState)
    ensures
        r@ == s@,
{
    match s {
        AdapterState::Creating => AdapterState::Creating,
        AdapterState::SettingVisible { app } => AdapterState::SettingVisible { app: *app },
        AdapterState::GettingDocuments { app } => AdapterState::GettingDocuments { app: *app },
        AdapterState::Opening { app, docs } => AdapterState::Opening { app: *app, docs: *docs },
        AdapterState::Exporting { app, doc } => AdapterState::Exporting { app: *app, doc: *doc },
        AdapterState::Closing { app, doc, ret } => AdapterState::Closing {
            app: *app,
            doc: *doc,
            ret: ret.duplicate(),
        },
        AdapterState::Quitting { app, outcome } => AdapterState::Quitting {
            app: *app,
            outcome: *outcome,
        },
        AdapterState::Done { outcome } => AdapterState::Done { outcome: *outcome },
    }
}

/// Consume one reported outcome.
pub fn adapter_step(state: &AdapterState, event: &AdapterEvent) -> (next: AdapterState)
    ensures
        next@ == spec_step(state@, event@),
{
    match (state, event) {
        (AdapterState::Creating, AdapterEvent::Create(o)) => match o {
            CreateOutcome::Created { handle } => AdapterState::SettingVisible { app: *handle },
            CreateOutcome::NoSuchProgId => AdapterState::Done {
                outcome: Err(
                    AdapterError { step: AdapterStep::Create, err: OleError::ResolutionError },
                ),
            },
            CreateOutcome::CreateFailed => AdapterState::Done {
                outcome: Err(
                    AdapterError { step: AdapterStep::Create, err: OleError::InstantiationError },
                ),
            },
        },
        (AdapterState::SettingVisible { app }, AdapterEvent::Call(o)) => match o {
            CallOutcome::Returned(_) => AdapterState::GettingDocuments { app: *app },
            CallOutcome::NameNotFound => quit_err(*app, AdapterStep::SetVisible, OleError::MemberNotFound),
            CallOutcome::CallFailed => quit_err(*app, AdapterStep::SetVisible, OleError::InvocationError),
        },
        (AdapterState::GettingDocuments { app }, AdapterEvent::Call(o)) => match o {
            CallOutcome::Returned(v) => match v {
                Variant::Dispatch(d) => AdapterState::Opening { app: *app, docs: *d },
                _ => quit_err(
                    *app,
                    AdapterStep::GetDocuments,
                    OleError::TypeMismatch { expected: VT_DISPATCH, actual: v.vt() },
                ),
            },
            CallOutcome::NameNotFound => quit_err(*app, AdapterStep::GetDocuments, OleError::MemberNotFound),
            CallOutcome::CallFailed => quit_err(*app, AdapterStep::GetDocuments, OleError::InvocationError),
        },
        (AdapterState::Opening { app, docs }, AdapterEvent::Call(o)) => match o {
            CallOutcome::Returned(v) => match v {
                Variant::Dispatch(d) => AdapterState::Exporting { app: *app, doc: *d },
                _ => quit_err(
                    *app,
                    AdapterStep::OpenDocument,
                    OleError::TypeMismatch { expected: VT_DISPATCH, actual: v.vt() },
                ),
            },
            CallOutcome::NameNotFound => quit_err(*app, AdapterStep::OpenDocument, OleError::MemberNotFound),
            CallOutcome::CallFailed => quit_err(*app, AdapterStep::OpenDocument, OleError::InvocationError),
        },
        (AdapterState::Exporting { app, doc }, AdapterEvent::Call(o)) => match o {
            CallOutcome::Returned(v) => AdapterState::Closing {
                app: *app,
                doc: *doc,
                ret: v.duplicate(),
            },
            CallOutcome::NameNotFound => quit_err(*app, AdapterStep::Export, OleError::MemberNotFound),
            CallOutcome::CallFailed => quit_err(*app, AdapterStep::Export, OleError::InvocationError),
        },
        (AdapterState::Closing { app, doc, ret }, AdapterEvent::Call(o)) => match o {
            CallOutcome::Returned(_) => AdapterState::Quitting {
                app: *app,
                outcome: match ret.int32() {
                    Ok(st) => Ok(st),
                    Err(e) => Err(AdapterError { step: AdapterStep::Export, err: e }),
                },
            },
            CallOutcome::NameNotFound => quit_err(*app, AdapterStep::CloseDocument, OleError::MemberNotFound),
            CallOutcome::CallFailed => quit_err(*app, AdapterStep::CloseDocument, OleError::InvocationError),
        },
        (AdapterState::Quitting { app, outcome }, AdapterEvent::Call(_)) => AdapterState::Done {
            outcome: *outcome,
        },
        _ => dup_state(state),
    }
}

/// A failed attempt that still owes the created server its quit.
fn quit_err(app: u32, step: AdapterStep, err: OleError) -> (r: AdapterState)
    ensures
        r@ == spec_quit_err(app, step, err),
{
    AdapterState::Quitting { app, outcome: Err(AdapterError { step, err }) }
}

/// A deep copy of an argument list with the same mathematical values.
pub fn duplicate_variants(v: &Vec<Variant>) -> (r: Vec<Variant>)
    ensures
        views_of(r@) == views_of(v@),
{
    let mut r: Vec<Variant> = Vec::new();
    let mut i: usize = 0;
    while i < v.len()
        invariant
            i <= v@.len(),
            r@.len() == i,
            forall|k: int| 0 <= k < i ==> (#[trigger] r@[k])@ == v@[k]@,
        decreases v@.len() - i,
    {
        r.push(v[i].duplicate());
        i = i + 1;
    }
    proof {
        assert(views_of(r@) =~= views_of(v@));
    }
    r
}

/// A deep copy of a request with the same mathematical value.
pub fn dup_action(a: &AdapterAction) -> (r: AdapterAction)
    ensures
        r@ == a@,
{
    match a {
        AdapterAction::Create { prog_id } => AdapterAction::Create { prog_id: prog_id.clone() },
        AdapterAction::Invoke(req) => AdapterAction::Invoke(
            InvokeRequest {
                target: req.target,
                kind: req.kind,
                member: req.member.clone(),
                args: duplicate_variants(&req.args),
            },
        ),
    }
}

/// The request pending in a state, or nothing once the attempt is over.
pub fn adapter_pending(cfg: &AdapterConfig, state: &AdapterState) -> (a: Option<AdapterAction>)
    ensures
        match a {
            Some(act) => spec_pending(cfg@, state@) == Some(act@),
            None => spec_pending(cfg@, state@) is None,
        },
{
    match state {
        AdapterState::Creating => Some(
            AdapterAction::Create { prog_id: cfg.prog_id.clone() },
        ),
        AdapterState::SettingVisible { app } => {
            let mut args: Vec<Variant> = Vec::new();
            args.push(Variant::Bool(false));
            let req = IDispatchWrapper { handle: *app }.put("Visible", args);
            proof {
                assert(req@.args =~= seq![VariantV::Bool(false)]);
            }
            Some(AdapterAction::Invoke(req))
        },
        AdapterState::GettingDocuments { app } => Some(
            AdapterAction::Invoke(IDispatchWrapper { handle: *app }.get("Documents")),
        ),
        AdapterState::Opening { app, docs } => {
            let mut args: Vec<Variant> = Vec::new();
            args.push(Variant::Str(cfg.src.clone()));
            let req = IDispatchWrapper { handle: *docs }.call("Open", args);
            proof {
                assert(req@.args =~= seq![VariantV::Str(cfg@.src)]);
            }
            Some(AdapterAction::Invoke(req))
        },
        AdapterState::Exporting { app, doc } => {
            let args = duplicate_variants(&cfg.export_args);
            let req = IDispatchWrapper { handle: *doc }.call("ExportAsFixedFormat", args);
            Some(AdapterAction::Invoke(req))
        },
        AdapterState::Closing { app, doc, ret } => {
            let req = IDispatchWrapper { handle: *doc }.call("Close", Vec::new());
            proof {
                assert(req@.args =~= Seq::<VariantV>::empty());
            }
            Some(AdapterAction::Invoke(req))
        },
        AdapterState::Quitting { app, outcome } => {
            let req = IDispatchWrapper { handle: *app }.call("Quit", Vec::new());
            proof {
                assert(req@.args =~= Seq::<VariantV>::empty());
            }
            Some(AdapterAction::Invoke(req))
        },
        AdapterState::Done { .. } => None,
    }
}

/// One attempt folded over a recorded event list: the requests it issued, in
/// order, and the state it ended in. Events past the end of the attempt are
/// ignored; an attempt whose events run out stays in its last state, as a
/// remote call that never returns would leave it.
pub open spec fn spec_run_from(
    cfg: AdapterConfigV,
    s: AdapterStateV,
    events: Seq<AdapterEventV>,
) -> (Seq<AdapterActionV>, AdapterStateV)
    decreases events.len(),
{
    if events.len() == 0 || s is Done {
        (Seq::empty(), s)
    } else {
        let rest = spec_run_from(cfg, spec_step(s, events[0]), events.drop_first());
        (seq![spec_pending(cfg, s)->Some_0] + rest.0, rest.1)
    }
}

/// Appending one event either extends a live run by one action or leaves a
/// finished run unchanged.
pub proof fn lemma_run_snoc(
    cfg: AdapterConfigV,
    s: AdapterStateV,
    events: Seq<AdapterEventV>,
    e: AdapterEventV,
)
    ensures
        ({
            let base = spec_run_from(cfg, s, events);
            let whole = spec_run_from(cfg, s, events.push(e));
            if base.1 is Done {
                whole.0 == base.0 && whole.1 == base.1
            } else {
                whole.0 == base.0.push(spec_pending(cfg, base.1)->Some_0) && whole.1 == spec_step(
                    base.1,
                    e,
                )
            }
        }),
    decreases events.len(),
{
    reveal_with_fuel(spec_run_from, 3);
    let base = spec_run_from(cfg, s, events);
    let whole = spec_run_from(cfg, s, events.push(e));
    if s is Done {
        assert(whole.0 =~= base.0);
    } else if events.len() == 0 {
        assert(events.push(e)[0] == e);
        assert(events.push(e).drop_first() =~= Seq::<AdapterEventV>::empty());
        assert(whole.0 =~= base.0.push(spec_pending(cfg, s)->Some_0));
    } else {
        let s1 = spec_step(s, events[0]);
        assert(events.push(e)[0] == events[0]);
        assert(events.push(e).drop_first() =~= events.drop_first().push(e));
        lemma_run_snoc(cfg, s1, events.drop_first(), e);
        let ibase = spec_run_from(cfg, s1, events.drop_first());
        let iwhole = spec_run_from(cfg, s1, events.drop_first().push(e));
        let a0 = spec_pending(cfg, s)->Some_0;
        if ibase.1 is Done {
            assert(whole.0 =~= base.0);
        } else {
            assert(seq![a0] + ibase.0.push(spec_pending(cfg, ibase.1)->Some_0) =~= (seq![a0]
                + ibase.0).push(spec_pending(cfg, ibase.1)->Some_0));
        }
    }
}

/// Fold one provider attempt over a recorded event list.
/// Whether the attempt still owes its created server the "Quit" call:
/// exactly in the states between a successful creation and the end.
pub open spec fn spec_owes_quit(s: AdapterStateV) -> bool {
    !(s is Creating) && !(s is Done)
}

pub fn run_adapter(cfg: &AdapterConfig, events: &Vec<AdapterEvent>) -> (r: (
    Vec<AdapterAction>,
    AdapterState,
))
    ensures
        actions_v(r.0@) == spec_run_from(cfg@, AdapterStateV::Creating, events_v(events@)).0,
        r.1@ == spec_run_from(cfg@, AdapterStateV::Creating, events_v(events@)).1,
        r.1@ == spec_final_state(AdapterStateV::Creating, events_v(events@)),
{
    proof {
        lemma_run_state(cfg@, AdapterStateV::Creating, events_v(events@));
    }
    let mut state = AdapterState::Creating;
    let mut actions: Vec<AdapterAction> = Vec::new();
    let mut quit_guard = DeferQuit { app: 0, pending: false };
    let mut i: usize = 0;
    proof {
        assert(events_v(events@).take(0) =~= Seq::<AdapterEventV>::empty());
        assert(actions_v(actions@) =~= Seq::<AdapterActionV>::empty());
    }
    while i < events.len()
        invariant
            i <= events@.len(),
            actions_v(actions@) == spec_run_from(
                cfg@,
                AdapterStateV::Creating,
                events_v(events@).take(i as int),
            ).0,
            state@ == spec_run_from(
                cfg@,
                AdapterStateV::Creating,
                events_v(events@).take(i as int),
            ).1,
            quit_guard.pending == spec_owes_quit(state@),
        decreases events@.len() - i,
    {
        proof {
            lemma_run_snoc(
                cfg@,
                AdapterStateV::Creating,
                events_v(events@).take(i as int),
                events@[i as int]@,
            );
            assert(events_v(events@).take(i + 1) =~= events_v(events@).take(i as int).push(
                events@[i as int]@,
            ));
        }
        match adapter_pending(cfg, &state) {
            Some(a) => {
                actions.push(a);
                let next = adapter_step(&state, &events[i]);
                match (&state, &next) {
                    (AdapterState::Creating, AdapterState::SettingVisible { app }) => {
                        quit_guard = DeferQuit::new(*app);
                    },
                    (AdapterState::Quitting { .. }, AdapterState::Done { .. }) => {
                        quit_guard.release();
                    },
                    _ => {},
                }
                state = next;
                proof {
                    assert(actions_v(actions@) =~= actions_v(actions@.drop_last()).push(
                        actions@.last()@,
                    ));
                }
            },
            None => {
            },
        }
        i = i + 1;
    }
    proof {
        assert(events_v(events@).take(events@.len() as int) =~= events_v(events@));
    }
    (actions, state)
}

/// The state an attempt ends in after consuming the events.
pub open spec fn spec_final_state(s: AdapterStateV, events: Seq<AdapterEventV>) -> AdapterStateV
    decreases events.len(),
{
    if events.len() == 0 || s is Done {
        s
    } else {
        spec_final_state(spec_step(s, events[0]), events.drop_first())
    }
}

/// The state component of a run is the folded final state.
pub proof fn lemma_run_state(cfg: AdapterConfigV, s: AdapterStateV, events: Seq<AdapterEventV>)
    ensures
        spec_run_from(cfg, s, events).1 == spec_final_state(s, events),
    decreases events.len(),
{
    if events.len() == 0 || s is Done {
    } else {
        lemma_run_state(cfg, spec_step(s, events[0]), events.drop_first());
    }
}

/// An event answers the request pending in the state: a creation outcome
/// while the server is being created, a call outcome for every invocation.
pub open spec fn spec_event_matches(s: AdapterStateV, e: AdapterEventV) -> bool {
    match s {
        AdapterStateV::Creating => e is Create,
        AdapterStateV::Done { .. } => true,
        _ => e is Call,
    }
}

/// The event list answers the attempt's requests in order.
pub open spec fn spec_events_wf(s: AdapterStateV, events: Seq<AdapterEventV>) -> bool
    decreases events.len(),
{
    events.len() == 0 || (spec_event_matches(s, events[0]) && spec_events_wf(
        spec_step(s, events[0]),
        events.drop_first(),
    ))
}

/// How often the attempt issues the "Quit" request: the number of events it
/// consumes while in the quit step, whose pending request is the "Quit"
/// invocation on the created server.
pub open spec fn spec_quit_emissions(s: AdapterStateV, events: Seq<AdapterEventV>) -> nat
    decreases events.len(),
{
    if events.len() == 0 || s is Done {
        0
    } else {
        (if s is Quitting {
            1nat
        } else {
            0nat
        }) + spec_quit_emissions(spec_step(s, events[0]), events.drop_first())
    }
}

proof fn lemma_quit_once_from(s: AdapterStateV, events: Seq<AdapterEventV>)
    requires
        !(s is Creating),
        !(s is Done),
        spec_events_wf(s, events),
        spec_final_state(s, events) is Done,
    ensures
        spec_quit_emissions(s, events) == 1,
    decreases events.len(),
{
    reveal_with_fuel(spec_final_state, 2);
    reveal_with_fuel(spec_quit_emissions, 2);
    assert(events.len() > 0);
    let s1 = spec_step(s, events[0]);
    if s is Quitting {
        assert(s1 is Done);
        assert(spec_quit_emissions(s1, events.drop_first()) == 0);
    } else {
        assert(!(s1 is Creating) && !(s1 is Done));
        lemma_quit_once_from(s1, events.drop_first());
    }
}

/// Law: one provider attempt that runs to completion issues the "Quit"
/// request on the automation server it created exactly once, whichever later
/// step failed; an attempt whose server was never created has nothing to
/// quit and issues none.
pub proof fn lemma_quit_exactly_once(events: Seq<AdapterEventV>)
    requires
        spec_events_wf(AdapterStateV::Creating, events),
        spec_final_state(AdapterStateV::Creating, events) is Done,
    ensures
        events.len() > 0,
        (events[0] matches AdapterEventV::Create(CreateOutcome::Created { .. }))
            ==> spec_quit_emissions(AdapterStateV::Creating, events) == 1,
        !(events[0] matches AdapterEventV::Create(CreateOutcome::Created { .. }))
            ==> spec_quit_emissions(AdapterStateV::Creating, events) == 0,
{
    reveal_with_fuel(spec_final_state, 2);
    reveal_with_fuel(spec_quit_emissions, 2);
    assert(events.len() > 0);
    let s1 = spec_step(AdapterStateV::Creating, events[0]);
    if events[0] matches AdapterEventV::Create(CreateOutcome::Created { .. }) {
        lemma_quit_once_from(s1, events.drop_first());
    } else {
        assert(s1 is Done);
        assert(spec_quit_emissions(s1, events.drop_first()) == 0);
    }
}

/// The number of creation requests among the issued actions.
pub open spec fn spec_create_count(s: Seq<AdapterActionV>) -> nat
    decreases s.len(),
{
    if s.len() == 0 {
        0
    } else {
        (if s[0] is Create {
            1nat
        } else {
            0nat
        }) + spec_create_count(s.drop_first())
    }
}

proof fn lemma_no_create_from(cfg: AdapterConfigV, s: AdapterStateV, events: Seq<AdapterEventV>)
    requires
        !(s is Creating),
    ensures
        spec_create_count(spec_run_from(cfg, s, events).0) == 0,
    decreases events.len(),
{
    if events.len() == 0 || s is Done {
    } else {
        let s1 = spec_step(s, events[0]);
        assert(!(s1 is Creating));
        lemma_no_create_from(cfg, s1, events.drop_first());
        let a0 = spec_pending(cfg, s)->Some_0;
        let rest = spec_run_from(cfg, s1, events.drop_first()).0;
        assert((seq![a0] + rest).drop_first() =~= rest);
        assert(!((seq![a0] + rest)[0] is Create));
    }
}

/// Law: a provider attempt creates its automation server exactly once — the
/// creation request is the first action issued and is never repeated.
pub proof fn lemma_create_exactly_once(cfg: AdapterConfigV, events: Seq<AdapterEventV>)
    requires
        spec_events_wf(AdapterStateV::Creating, events),
        events.len() > 0,
    ensures
        spec_create_count(spec_run_from(cfg, AdapterStateV::Creating, events).0) == 1,
        spec_run_from(cfg, AdapterStateV::Creating, events).0[0] == (AdapterActionV::Create {
            prog_id: cfg.prog_id,
        }),
{
    let s1 = spec_step(AdapterStateV::Creating, events[0]);
    assert(!(s1 is Creating));
    lemma_no_create_from(cfg, s1, events.drop_first());
    let a0 = spec_pending(cfg, AdapterStateV::Creating)->Some_0;
    let rest = spec_run_from(cfg, s1, events.drop_first()).0;
    assert((seq![a0] + rest).drop_first() =~= rest);
    assert((seq![a0] + rest)[0] is Create);
}

} // verus!
