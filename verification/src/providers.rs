//! The two provider adapters: a primary "Word"-style application and a
//! secondary, functionally equivalent one, driven through the same adapter
//! machine with provider-specific configurations.

use vstd::prelude::*;
use crate::adapter::{
    AdapterAction, AdapterConfig, AdapterConfigV, AdapterEvent, AdapterState, AdapterStateV,
    PDF_FORMAT_CODE, actions_v, events_v, run_adapter, spec_final_state, spec_run_from,
};
use crate::dispatch::views_of;
use crate::variant::{Variant, VariantV};

verus! {

/// The detailed export argument list of the primary provider: destination,
/// format code, and the fixed quality/range/bookmark switches.
pub open spec fn spec_word_export_args(dst: Seq<char>) -> Seq<VariantV> {
    seq![
        VariantV::Str(dst),
        VariantV::Int(PDF_FORMAT_CODE),
        VariantV::Bool(false),
        VariantV::Int(0),
        VariantV::Int(0),
        VariantV::Int(0),
        VariantV::Int(0),
        VariantV::Int(0),
        VariantV::Bool(false),
        VariantV::Bool(false),
        VariantV::Int(1),
        VariantV::Bool(true),
        VariantV::Bool(true),
    ]
}

/// The primary provider's configuration.
pub open spec fn spec_word_cfg(src: Seq<char>, dst: Seq<char>) -> AdapterConfigV {
    AdapterConfigV {
        prog_id: "Word.Application"@,
        src,
        export_args: spec_word_export_args(dst),
    }
}

/// The minimal export argument list of the secondary provider: destination
/// and format code only.
pub open spec fn spec_wps_export_args(dst: Seq<char>) -> Seq<VariantV> {
    seq![VariantV::Str(dst), VariantV::Int(PDF_FORMAT_CODE)]
}

/// The secondary provider's configuration.
pub open spec fn spec_wps_cfg(src: Seq<char>, dst: Seq<char>) -> AdapterConfigV {
    AdapterConfigV {
        prog_id: "KWps.Application"@,
        src,
        export_args: spec_wps_export_args(dst),
    }
}

/// Build the primary provider's configuration.
pub fn word_adapter(src: &String, dst: &String) -> (cfg: AdapterConfig)
    ensures
        cfg@ == spec_word_cfg(src@, dst@),
{
    let mut export_args: Vec<Variant> = Vec::new();
    export_args.push(Variant::Str(dst.clone()));
    export_args.push(Variant::Int(PDF_FORMAT_CODE));
    export_args.push(Variant::Bool(false));
    export_args.push(Variant::Int(0));
    export_args.push(Variant::Int(0));
    export_args.push(Variant::Int(0));
    export_args.push(Variant::Int(0));
    export_args.push(Variant::Int(0));
    export_args.push(Variant::Bool(false));
    export_args.push(Variant::Bool(false));
    export_args.push(Variant::Int(1));
    export_args.push(Variant::Bool(true));
    export_args.push(Variant::Bool(true));
    proof {
        assert(views_of(export_args@) =~= spec_word_export_args(dst@));
    }
    AdapterConfig {
        prog_id: String::from_str("Word.Application"),
        src: src.clone(),
        export_args,
    }
}

/// Build the secondary provider's configuration.
pub fn wps_adapter(src: &String, dst: &String) -> (cfg: AdapterConfig)
    ensures
        cfg@ == spec_wps_cfg(src@, dst@),
{
    let mut export_args: Vec<Variant> = Vec::new();
    export_args.push(Variant::Str(dst.clone()));
    export_args.push(Variant::Int(PDF_FORMAT_CODE));
    proof {
        assert(views_of(export_args@) =~= spec_wps_export_args(dst@));
    }
    AdapterConfig {
        prog_id: String::from_str("KWps.Application"),
        src: src.clone(),
        export_args,
    }
}

/// One attempt to export `src` to `dst` through the primary provider, folded
/// over the recorded outcomes of its remote calls: the requests issued, and
/// the final adapter state.
pub fn office2pdf(src: &String, dst: &String, events: &Vec<AdapterEvent>) -> (r: (
    Vec<AdapterAction>,
    AdapterState,
))
    ensures
        actions_v(r.0@) == spec_run_from(
            spec_word_cfg(src@, dst@),
            AdapterStateV::Creating,
            events_v(events@),
        ).0,
        r.1@ == spec_run_from(
            spec_word_cfg(src@, dst@),
            AdapterStateV::Creating,
            events_v(events@),
        ).1,
        r.1@ == spec_final_state(AdapterStateV::Creating, events_v(events@)),
{
    let cfg = word_adapter(src, dst);
    run_adapter(&cfg, events)
}

/// One attempt to export `src` to `dst` through the secondary provider,
/// folded over the recorded outcomes of its remote calls.
pub fn wps2pdf(src: &String, dst: &String, events: &Vec<AdapterEvent>) -> (r: (
    Vec<AdapterAction>,
    AdapterState,
))
    ensures
        actions_v(r.0@) == spec_run_from(
            spec_wps_cfg(src@, dst@),
            AdapterStateV::Creating,
            events_v(events@),
        ).0,
        r.1@ == spec_run_from(
            spec_wps_cfg(src@, dst@),
            AdapterStateV::Creating,
            events_v(events@),
        ).1,
        r.1@ == spec_final_state(AdapterStateV::Creating, events_v(events@)),
{
    let cfg = wps_adapter(src, dst);
    run_adapter(&cfg, events)
}

} // verus!
