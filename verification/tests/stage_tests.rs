use gendoc::errors::StageError;
use gendoc::settings::{Gotmpl, Pandoc, Settings};
use gendoc::stages::{
    contains_str, context_json, convert2docx_plan, convert2md_plan, convert_context, stage_result,
    strip_verbatim, ConvertContext,
};

fn strings(items: &[&str]) -> Vec<String> {
    items.iter().map(|s| String::from(*s)).collect()
}

fn default_settings() -> Settings {
    Settings {
        gotmpl: Gotmpl { binary: None },
        pandoc: Pandoc { binary: None, reference_doc: None },
    }
}

#[test]
fn the_context_reads_the_selection_lists() {
    let c = convert_context(&strings(&["template", "text"]), &strings(&["poll"]));
    assert_eq!(
        c,
        ConvertContext {
            enabled_template: true,
            enabled_text: true,
            enabled_poll_mode: true,
            enabled_push_mode: false,
        }
    );
    let c = convert_context(&Vec::new(), &Vec::new());
    assert_eq!(
        c,
        ConvertContext {
            enabled_template: false,
            enabled_text: false,
            enabled_poll_mode: false,
            enabled_push_mode: false,
        }
    );
}

#[test]
fn contains_matches_whole_strings_only() {
    let v = strings(&["template", "push"]);
    assert!(contains_str(&v, &String::from("push")));
    assert!(!contains_str(&v, &String::from("pus")));
    assert!(!contains_str(&v, &String::from("poll")));
}

#[test]
fn the_context_file_is_the_exact_json_object() {
    let c = ConvertContext {
        enabled_template: true,
        enabled_text: false,
        enabled_poll_mode: true,
        enabled_push_mode: false,
    };
    assert_eq!(
        context_json(&c),
        "{\"EnabledTemplate\":true,\"EnabledText\":false,\"EnabledPollMode\":true,\"EnabledPushMode\":false}"
    );
}

#[test]
fn the_template_stage_plan_uses_the_configured_or_bare_binary() {
    let ctx_file = String::from("/tmp/ctx.json");
    let path = String::from("report.xyz");
    let plan = convert2md_plan(&path, &ctx_file, &default_settings());
    assert_eq!(plan.dst, "report.md");
    assert_eq!(plan.command.program, "gotmpl");
    assert_eq!(
        plan.command.args,
        strings(&["-i", "/tmp/ctx.json", "-o", "report.md", "report.xyz"])
    );
    let mut settings = default_settings();
    settings.gotmpl.binary = Some(String::from("/opt/tools/gotmpl"));
    let plan = convert2md_plan(&path, &ctx_file, &settings);
    assert_eq!(plan.command.program, "/opt/tools/gotmpl");
}

#[test]
fn the_document_stage_plan_strips_the_extended_length_marker() {
    let path = String::from("report.md");
    let mut settings = default_settings();
    settings.pandoc.reference_doc = Some(String::from("\\\\?\\C:\\styles\\ref.docx"));
    let fallback = String::from("resources/custom-reference.docx");
    let plan = convert2docx_plan(&path, &settings, &fallback);
    assert_eq!(plan.dst, "report.docx");
    assert_eq!(plan.command.program, "pandoc");
    assert_eq!(
        plan.command.args,
        strings(&["--reference-doc", "C:\\styles\\ref.docx", "-o", "report.docx", "report.md"])
    );
}

#[test]
fn the_document_stage_plan_falls_back_to_the_bundled_reference() {
    let path = String::from("report.md");
    let fallback = String::from("resources/custom-reference.docx");
    let plan = convert2docx_plan(&path, &default_settings(), &fallback);
    assert_eq!(plan.command.args[1], "resources/custom-reference.docx");
}

#[test]
fn the_marker_is_stripped_repeatedly_and_only_at_the_start() {
    assert_eq!(strip_verbatim("\\\\?\\\\\\?\\x"), "x");
    assert_eq!(strip_verbatim("a\\\\?\\b"), "a\\\\?\\b");
    assert_eq!(strip_verbatim("plain"), "plain");
    assert_eq!(strip_verbatim(""), "");
}

#[test]
fn a_stage_succeeds_exactly_on_exit_status_zero() {
    assert_eq!(stage_result(String::from("report.md"), 0).unwrap(), "report.md");
    assert_eq!(
        stage_result(String::from("report.md"), 2).unwrap_err(),
        StageError::StageFailed { status: 2 }
    );
    assert_eq!(
        stage_result(String::from("report.md"), -1).unwrap_err(),
        StageError::StageFailed { status: -1 }
    );
}
