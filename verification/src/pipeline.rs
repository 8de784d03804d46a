//! The Docx-to-PDF export pipeline.
//!
//! The pipeline initializes the process-wide automation runtime (fatal when
//! that fails — no fallback exists for it), derives the destination path by
//! swapping the source's extension for "pdf", attempts the primary provider,
//! falls back to the secondary on any provider failure, reports a combined
//! failure when both fail, treats a non-zero status of the chosen provider
//! as a failure of its own, and uninitializes the runtime on every path that
//! produces an outcome.

use vstd::prelude::*;
use crate::adapter::{
    AdapterAction, AdapterActionV, AdapterEvent, AdapterEventV, AdapterState, AdapterStateV,
    actions_v, dup_action, events_v, lemma_create_exactly_once, spec_create_count, spec_events_wf,
    spec_run_from,
};
use crate::errors::PdfError;
use crate::guards::DeferUninitializeCOM;
use crate::paths::{
    lemma_with_ext_alongside, replace_extension, spec_dir_len, spec_is_sep, spec_stem,
    spec_with_ext,
};
use crate::providers::{office2pdf, spec_word_cfg, spec_wps_cfg, wps2pdf};
use crate::variant::VariantV;

verus! {

/// What the driver reports for the runtime initialization.
#[derive(Clone, Copy, PartialEq, Eq, Structural, Debug)]
pub enum InitOutcome {
    Initialized,
    InitFailed,
}

/// The recorded outcomes of one pipeline invocation: the runtime
/// initialization, and the remote outcomes of each provider attempt.
#[derive(Debug)]
pub struct PipelineEvents {
    pub init: InitOutcome,
    pub primary: Vec<AdapterEvent>,
    pub secondary: Vec<AdapterEvent>,
}

/// The mathematical value of [`PipelineEvents`].
pub struct PipelineEventsV {
    pub init: InitOutcome,
    pub primary: Seq<AdapterEventV>,
    pub secondary: Seq<AdapterEventV>,
}

impl View for PipelineEvents {
    type V = PipelineEventsV;

    open spec fn view(&self) -> PipelineEventsV {
        PipelineEventsV {
            init: self.init,
            primary: events_v(self.primary@),
            secondary: events_v(self.secondary@),
        }
    }
}

/// One observable step of the pipeline: runtime setup and teardown, and the
/// requests of each provider attempt, tagged by the attempt they belong to.
#[derive(Debug)]
pub enum PipelineAction {
    InitRuntime,
    UninitRuntime,
    Primary(AdapterAction),
    Secondary(AdapterAction),
}

/// The mathematical value of a [`PipelineAction`].
pub enum PipelineActionV {
    InitRuntime,
    UninitRuntime,
    Primary(AdapterActionV),
    Secondary(AdapterActionV),
}

impl View for PipelineAction {
    type V = PipelineActionV;

    open spec fn view(&self) -> PipelineActionV {
        match self {
            PipelineAction::InitRuntime => PipelineActionV::InitRuntime,
            PipelineAction::UninitRuntime => PipelineActionV::UninitRuntime,
            PipelineAction::Primary(a) => PipelineActionV::Primary(a@),
            PipelineAction::Secondary(a) => PipelineActionV::Secondary(a@),
        }
    }
}

/// The mathematical values of a pipeline action list.
pub open spec fn pactions_v(s: Seq<PipelineAction>) -> Seq<PipelineActionV> {
    s.map_values(|a: PipelineAction| a@)
}

/// A primary attempt's requests, tagged.
pub open spec fn wrap_primary(s: Seq<AdapterActionV>) -> Seq<PipelineActionV> {
    s.map_values(|a: AdapterActionV| PipelineActionV::Primary(a))
}

/// A secondary attempt's requests, tagged.
pub open spec fn wrap_secondary(s: Seq<AdapterActionV>) -> Seq<PipelineActionV> {
    s.map_values(|a: AdapterActionV| PipelineActionV::Secondary(a))
}

/// What one pipeline invocation did: every observable step, in order, and
/// its outcome — which is absent exactly when a remote call never returned,
/// in which case no cleanup ran either.
#[derive(Debug)]
pub struct PipelineRun {
    pub actions: Vec<PipelineAction>,
    pub outcome: Option<Result<String, PdfError>>,
}

/// The mathematical value of a [`PipelineRun`].
pub struct PipelineRunV {
    pub actions: Seq<PipelineActionV>,
    pub outcome: Option<Result<Seq<char>, PdfError>>,
}

impl View for PipelineRun {
    type V = PipelineRunV;

    open spec fn view(&self) -> PipelineRunV {
        PipelineRunV {
            actions: pactions_v(self.actions@),
            outcome: match self.outcome {
                None => None,
                Some(Ok(s)) => Some(Ok(s@)),
                Some(Err(e)) => Some(Err(e)),
            },
        }
    }
}

/// The chosen provider's status judged: the destination on status zero, a
/// status failure otherwise.
pub open spec fn spec_status_result(st: i32, dst: Seq<char>) -> Result<Seq<char>, PdfError> {
    if st == 0 {
        Ok(dst)
    } else {
        Err(PdfError::ExportStatusError { status: st })
    }
}

/// The whole pipeline over the recorded outcomes.
pub open spec fn spec_pipeline(path: Seq<char>, ev: PipelineEventsV) -> PipelineRunV {
    let dst = spec_with_ext(path, "pdf"@);
    if ev.init is InitFailed {
        PipelineRunV {
            actions: seq![PipelineActionV::InitRuntime],
            outcome: Some(Err(PdfError::RuntimeInitError)),
        }
    } else {
        let prim = spec_run_from(spec_word_cfg(path, dst), AdapterStateV::Creating, ev.primary);
        let base = seq![PipelineActionV::InitRuntime] + wrap_primary(prim.0);
        match prim.1 {
            AdapterStateV::Done { outcome: Ok(st) } => PipelineRunV {
                actions: base + seq![PipelineActionV::UninitRuntime],
                outcome: Some(spec_status_result(st, dst)),
            },
            AdapterStateV::Done { outcome: Err(_) } => {
                let sec = spec_run_from(
                    spec_wps_cfg(path, dst),
                    AdapterStateV::Creating,
                    ev.secondary,
                );
                let base2 = base + wrap_secondary(sec.0);
                match sec.1 {
                    AdapterStateV::Done { outcome: Ok(st) } => PipelineRunV {
                        actions: base2 + seq![PipelineActionV::UninitRuntime],
                        outcome: Some(spec_status_result(st, dst)),
                    },
                    AdapterStateV::Done { outcome: Err(_) } => PipelineRunV {
                        actions: base2 + seq![PipelineActionV::UninitRuntime],
                        outcome: Some(Err(PdfError::ExportFailed)),
                    },
                    _ => PipelineRunV { actions: base2, outcome: None },
                }
            },
            _ => PipelineRunV { actions: base, outcome: None },
        }
    }
}

/// Interpret the driver's report of the runtime initialization: a
/// confirmation on success, the fatal initialization failure otherwise.
pub fn initialize_com(outcome: &InitOutcome) -> (r: Result<String, PdfError>)
    ensures
        outcome is Initialized ==> (r matches Ok(s) && s@ == "Ok"@),
        outcome is InitFailed ==> r == Err::<String, PdfError>(PdfError::RuntimeInitError),
{
    match outcome {
        InitOutcome::Initialized => Ok(String::from_str("Ok")),
        InitOutcome::InitFailed => Err(PdfError::RuntimeInitError),
    }
}

/// Append one attempt's requests, tagged, to the recorded steps.
fn append_wrapped(actions: Vec<PipelineAction>, wrapped: &Vec<AdapterAction>, primary: bool) -> (r:
    Vec<PipelineAction>)
    ensures
        pactions_v(r@) == pactions_v(actions@) + (if primary {
            wrap_primary(actions_v(wrapped@))
        } else {
            wrap_secondary(actions_v(wrapped@))
        }),
{
    let ghost orig = actions@;
    let mut r = actions;
    let mut i: usize = 0;
    proof {
        assert(wrap_primary(actions_v(wrapped@.take(0))) =~= Seq::<PipelineActionV>::empty());
        assert(wrap_secondary(actions_v(wrapped@.take(0))) =~= Seq::<PipelineActionV>::empty());
        assert(pactions_v(r@) =~= pactions_v(orig) + Seq::<PipelineActionV>::empty());
    }
    while i < wrapped.len()
        invariant
            i <= wrapped@.len(),
            pactions_v(r@) == pactions_v(orig) + (if primary {
                wrap_primary(actions_v(wrapped@.take(i as int)))
            } else {
                wrap_secondary(actions_v(wrapped@.take(i as int)))
            }),
        decreases wrapped@.len() - i,
    {
        let ghost pre = r@;
        let w = dup_action(&wrapped[i]);
        if primary {
            r.push(PipelineAction::Primary(w));
            proof {
                assert(actions_v(wrapped@.take(i + 1)) =~= actions_v(
                    wrapped@.take(i as int),
                ).push(wrapped@[i as int]@));
                assert(wrap_primary(actions_v(wrapped@.take(i + 1))) =~= wrap_primary(
                    actions_v(wrapped@.take(i as int)),
                ).push(PipelineActionV::Primary(wrapped@[i as int]@)));
                assert(pactions_v(r@) =~= pactions_v(pre).push(
                    PipelineActionV::Primary(wrapped@[i as int]@),
                ));
                assert(pactions_v(r@) =~= pactions_v(orig) + wrap_primary(
                    actions_v(wrapped@.take(i + 1)),
                ));
            }
        } else {
            r.push(PipelineAction::Secondary(w));
            proof {
                assert(actions_v(wrapped@.take(i + 1)) =~= actions_v(
                    wrapped@.take(i as int),
                ).push(wrapped@[i as int]@));
                assert(wrap_secondary(actions_v(wrapped@.take(i + 1))) =~= wrap_secondary(
                    actions_v(wrapped@.take(i as int)),
                ).push(PipelineActionV::Secondary(wrapped@[i as int]@)));
                assert(pactions_v(r@) =~= pactions_v(pre).push(
                    PipelineActionV::Secondary(wrapped@[i as int]@),
                ));
                assert(pactions_v(r@) =~= pactions_v(orig) + wrap_secondary(
                    actions_v(wrapped@.take(i + 1)),
                ));
            }
        }
        i = i + 1;
    }
    proof {
        assert(wrapped@.take(wrapped@.len() as int) =~= wrapped@);
    }
    r
}

/// Convert the document at `path` to its sibling PDF over the recorded
/// outcomes: derive the destination, initialize the runtime, attempt the
/// primary provider, fall back to the secondary on a provider failure,
/// judge the chosen provider's status, and release the runtime guard on
/// every path that produces an outcome.
pub fn convert2pdf(path: &String, events: &PipelineEvents) -> (r: PipelineRun)
    ensures
        r@ == spec_pipeline(path@, events@),
{
    let dst = replace_extension(path.as_str(), "pdf");
    let mut actions: Vec<PipelineAction> = Vec::new();
    actions.push(PipelineAction::InitRuntime);
    proof {
        assert(pactions_v(actions@) =~= seq![PipelineActionV::InitRuntime]);
    }
    match events.init {
        InitOutcome::InitFailed => {
            return PipelineRun { actions, outcome: Some(Err(PdfError::RuntimeInitError)) };
        },
        InitOutcome::Initialized => {},
    }
    let mut com_guard = DeferUninitializeCOM::new();
    let (pa, pstate) = office2pdf(path, &dst, &events.primary);
    let mut actions = append_wrapped(actions, &pa, true);
    match pstate {
        AdapterState::Done { outcome: Ok(st) } => {
            com_guard.release();
            let ghost pre = actions@;
            actions.push(PipelineAction::UninitRuntime);
            proof {
                assert(pactions_v(actions@) =~= pactions_v(pre) + seq![
                    PipelineActionV::UninitRuntime,
                ]);
            }
            let out = if st == 0 {
                Ok(dst)
            } else {
                Err(PdfError::ExportStatusError { status: st })
            };
            PipelineRun { actions, outcome: Some(out) }
        },
        AdapterState::Done { outcome: Err(_) } => {
            let (sa, sstate) = wps2pdf(path, &dst, &events.secondary);
            let mut actions = append_wrapped(actions, &sa, false);
            match sstate {
                AdapterState::Done { outcome: Ok(st) } => {
                    com_guard.release();
                    let ghost pre = actions@;
                    actions.push(PipelineAction::UninitRuntime);
                    proof {
                        assert(pactions_v(actions@) =~= pactions_v(pre) + seq![
                            PipelineActionV::UninitRuntime,
                        ]);
                    }
                    let out = if st == 0 {
                        Ok(dst)
                    } else {
                        Err(PdfError::ExportStatusError { status: st })
                    };
                    PipelineRun { actions, outcome: Some(out) }
                },
                AdapterState::Done { outcome: Err(_) } => {
                    com_guard.release();
                    let ghost pre = actions@;
                    actions.push(PipelineAction::UninitRuntime);
                    proof {
                        assert(pactions_v(actions@) =~= pactions_v(pre) + seq![
                            PipelineActionV::UninitRuntime,
                        ]);
                    }
                    PipelineRun { actions, outcome: Some(Err(PdfError::ExportFailed)) }
                },
                _ => PipelineRun { actions, outcome: None },
            }
        },
        _ => PipelineRun { actions, outcome: None },
    }
}


/// The number of runtime releases among the recorded steps.
pub open spec fn spec_uninit_count(s: Seq<PipelineActionV>) -> nat
    decreases s.len(),
{
    if s.len() == 0 {
        0
    } else {
        (if s[0] is UninitRuntime {
            1nat
        } else {
            0nat
        }) + spec_uninit_count(s.drop_first())
    }
}

proof fn lemma_uninit_count_append(a: Seq<PipelineActionV>, b: Seq<PipelineActionV>)
    ensures
        spec_uninit_count(a + b) == spec_uninit_count(a) + spec_uninit_count(b),
    decreases a.len(),
{
    if a.len() == 0 {
        assert(a + b =~= b);
    } else {
        assert((a + b)[0] == a[0]);
        assert((a + b).drop_first() =~= a.drop_first() + b);
        lemma_uninit_count_append(a.drop_first(), b);
    }
}

proof fn lemma_uninit_count_singleton(a: PipelineActionV)
    ensures
        spec_uninit_count(seq![a]) == (if a is UninitRuntime {
            1nat
        } else {
            0nat
        }),
{
    reveal_with_fuel(spec_uninit_count, 2);
    assert(seq![a].drop_first() =~= Seq::<PipelineActionV>::empty());
}

proof fn lemma_uninit_count_wrap_primary(s: Seq<AdapterActionV>)
    ensures
        spec_uninit_count(wrap_primary(s)) == 0,
    decreases s.len(),
{
    if s.len() > 0 {
        assert(wrap_primary(s).drop_first() =~= wrap_primary(s.drop_first()));
        lemma_uninit_count_wrap_primary(s.drop_first());
    }
}

proof fn lemma_uninit_count_wrap_secondary(s: Seq<AdapterActionV>)
    ensures
        spec_uninit_count(wrap_secondary(s)) == 0,
    decreases s.len(),
{
    if s.len() > 0 {
        assert(wrap_secondary(s).drop_first() =~= wrap_secondary(s.drop_first()));
        lemma_uninit_count_wrap_secondary(s.drop_first());
    }
}

/// Law: the runtime-level release runs exactly once per pipeline invocation
/// that produces an outcome, whether the export succeeded, was judged by its
/// status code, or failed on both providers; when initialization itself
/// failed there is nothing to release and it never runs.
pub proof fn lemma_uninit_exactly_once(path: Seq<char>, ev: PipelineEventsV)
    requires
        spec_pipeline(path, ev).outcome is Some,
    ensures
        spec_uninit_count(spec_pipeline(path, ev).actions) == (if ev.init is Initialized {
            1nat
        } else {
            0nat
        }),
{
    let dst = spec_with_ext(path, "pdf"@);
    lemma_uninit_count_singleton(PipelineActionV::InitRuntime);
    lemma_uninit_count_singleton(PipelineActionV::UninitRuntime);
    if ev.init is Initialized {
        let prim = spec_run_from(spec_word_cfg(path, dst), AdapterStateV::Creating, ev.primary);
        let base = seq![PipelineActionV::InitRuntime] + wrap_primary(prim.0);
        lemma_uninit_count_wrap_primary(prim.0);
        lemma_uninit_count_append(seq![PipelineActionV::InitRuntime], wrap_primary(prim.0));
        match prim.1 {
            AdapterStateV::Done { outcome: Ok(st) } => {
                lemma_uninit_count_append(base, seq![PipelineActionV::UninitRuntime]);
            },
            AdapterStateV::Done { outcome: Err(_) } => {
                let sec = spec_run_from(
                    spec_wps_cfg(path, dst),
                    AdapterStateV::Creating,
                    ev.secondary,
                );
                let base2 = base + wrap_secondary(sec.0);
                lemma_uninit_count_wrap_secondary(sec.0);
                lemma_uninit_count_append(base, wrap_secondary(sec.0));
                lemma_uninit_count_append(base2, seq![PipelineActionV::UninitRuntime]);
            },
            _ => {},
        }
    }
}

/// Law: when the runtime initializes and a provider attempt ends with status
/// zero — the secondary being consulted only after a primary failure — the
/// pipeline returns the destination path: the source with its extension
/// swapped for "pdf", ending in ".pdf" and sitting alongside the source
/// file (same directory part, no separator after it).
pub proof fn lemma_pipeline_success(path: Seq<char>, ev: PipelineEventsV)
    requires
        ev.init is Initialized,
        ({
            let dst = spec_with_ext(path, "pdf"@);
            let prim = spec_run_from(spec_word_cfg(path, dst), AdapterStateV::Creating, ev.primary);
            let sec = spec_run_from(spec_wps_cfg(path, dst), AdapterStateV::Creating, ev.secondary);
            prim.1 == (AdapterStateV::Done { outcome: Ok(0i32) }) || ((prim.1 matches
            AdapterStateV::Done { outcome: Err(_) }) && sec.1 == (AdapterStateV::Done {
                outcome: Ok(0i32),
            }))
        }),
    ensures
        spec_pipeline(path, ev).outcome == Some(Ok::<Seq<char>, PdfError>(
            spec_with_ext(path, "pdf"@),
        )),
        spec_with_ext(path, "pdf"@).len() == spec_stem(path).len() + 4,
        spec_with_ext(path, "pdf"@).subrange(
            spec_stem(path).len() as int,
            spec_with_ext(path, "pdf"@).len() as int,
        ) == ".pdf"@,
        spec_with_ext(path, "pdf"@).take(spec_dir_len(path)) == path.take(spec_dir_len(path)),
        forall|j: int|
            spec_dir_len(path) <= j < spec_with_ext(path, "pdf"@).len() ==> !spec_is_sep(
                #[trigger] spec_with_ext(path, "pdf"@)[j],
            ),
{
    reveal_strlit("pdf");
    reveal_strlit(".pdf");
    assert(forall|k: int| 0 <= k < "pdf"@.len() ==> !spec_is_sep(#[trigger] ("pdf"@)[k]));
    lemma_with_ext_alongside(path, "pdf"@);
    assert(seq!['.'] + "pdf"@ =~= ".pdf"@);
}

/// Law: when the primary attempt fails, the secondary is attempted exactly
/// once: its requests follow the primary's in the record, it creates the
/// secondary provider's server exactly once and never again, and it is aimed
/// at the same source and the same destination with the same fixed format
/// code.
pub proof fn lemma_secondary_attempted(path: Seq<char>, ev: PipelineEventsV)
    requires
        ev.init is Initialized,
        ({
            let dst = spec_with_ext(path, "pdf"@);
            spec_run_from(spec_word_cfg(path, dst), AdapterStateV::Creating, ev.primary).1 matches
                AdapterStateV::Done { outcome: Err(_) }
        }),
        spec_events_wf(AdapterStateV::Creating, ev.secondary),
        ev.secondary.len() > 0,
    ensures
        ({
            let dst = spec_with_ext(path, "pdf"@);
            let prim = spec_run_from(spec_word_cfg(path, dst), AdapterStateV::Creating, ev.primary);
            let sec = spec_run_from(spec_wps_cfg(path, dst), AdapterStateV::Creating, ev.secondary);
            &&& spec_pipeline(path, ev).actions.subrange(
                1 + prim.0.len() as int,
                (1 + prim.0.len() + sec.0.len()) as int,
            ) == wrap_secondary(sec.0)
            &&& spec_create_count(sec.0) == 1
            &&& sec.0[0] == (AdapterActionV::Create { prog_id: "KWps.Application"@ })
            &&& spec_wps_cfg(path, dst).src == path
            &&& spec_wps_cfg(path, dst).export_args == seq![VariantV::Str(dst), VariantV::Int(17)]
        }),
{
    let dst = spec_with_ext(path, "pdf"@);
    let prim = spec_run_from(spec_word_cfg(path, dst), AdapterStateV::Creating, ev.primary);
    let sec = spec_run_from(spec_wps_cfg(path, dst), AdapterStateV::Creating, ev.secondary);
    lemma_create_exactly_once(spec_wps_cfg(path, dst), ev.secondary);
    let base = seq![PipelineActionV::InitRuntime] + wrap_primary(prim.0);
    let base2 = base + wrap_secondary(sec.0);
    assert(base.len() == 1 + prim.0.len());
    match sec.1 {
        AdapterStateV::Done { outcome } => {
            assert((base2 + seq![PipelineActionV::UninitRuntime]).subrange(
                1 + prim.0.len() as int,
                (1 + prim.0.len() + sec.0.len()) as int,
            ) =~= wrap_secondary(sec.0));
        },
        _ => {
            assert(base2.subrange(
                1 + prim.0.len() as int,
                (1 + prim.0.len() + sec.0.len()) as int,
            ) =~= wrap_secondary(sec.0));
        },
    }
}

/// Law: when both provider attempts fail, the pipeline reports the single
/// combined failure, and the recorded steps are nothing beyond the runtime
/// initialization, the two attempts' own requests, and the final release.
pub proof fn lemma_both_failed(path: Seq<char>, ev: PipelineEventsV)
    requires
        ev.init is Initialized,
        ({
            let dst = spec_with_ext(path, "pdf"@);
            let prim = spec_run_from(spec_word_cfg(path, dst), AdapterStateV::Creating, ev.primary);
            let sec = spec_run_from(spec_wps_cfg(path, dst), AdapterStateV::Creating, ev.secondary);
            (prim.1 matches AdapterStateV::Done { outcome: Err(_) }) && (sec.1 matches
            AdapterStateV::Done { outcome: Err(_) })
        }),
    ensures
        spec_pipeline(path, ev).outcome == Some(Err::<Seq<char>, PdfError>(PdfError::ExportFailed)),
        ({
            let dst = spec_with_ext(path, "pdf"@);
            let prim = spec_run_from(spec_word_cfg(path, dst), AdapterStateV::Creating, ev.primary);
            let sec = spec_run_from(spec_wps_cfg(path, dst), AdapterStateV::Creating, ev.secondary);
            spec_pipeline(path, ev).actions == seq![PipelineActionV::InitRuntime] + wrap_primary(
                prim.0,
            ) + wrap_secondary(sec.0) + seq![PipelineActionV::UninitRuntime]
        }),
{
}

} // verus!
