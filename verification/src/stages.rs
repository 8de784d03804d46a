//! The two subprocess conversion stages, at their boundary: the command each
//! one runs, the context the first one is handed, and how an exit status is
//! judged. Spawning the processes is the surrounding program's business.

use vstd::prelude::*;
use crate::errors::StageError;
use crate::paths::{replace_extension, spec_with_ext};
use crate::settings::Settings;

verus! {

/// The caller-supplied selection the template stage renders: which submit
/// modes and event modes are enabled.
#[derive(Clone, Copy, PartialEq, Eq, Structural, Debug)]
pub struct ConvertContext {
    pub enabled_template: bool,
    pub enabled_text: bool,
    pub enabled_poll_mode: bool,
    pub enabled_push_mode: bool,
}

/// The mathematical values of a list of strings.
pub open spec fn strs_v(s: Seq<String>) -> Seq<Seq<char>> {
    s.map_values(|t: String| t@)
}

/// Whether the list holds this string.
pub open spec fn spec_contains_str(v: Seq<Seq<char>>, x: Seq<char>) -> bool {
    exists|i: int| 0 <= i < v.len() && v[i] == x
}

/// Whether the list holds this string.
pub fn contains_str(v: &Vec<String>, x: &String) -> (b: bool)
    ensures
        b == spec_contains_str(strs_v(v@), x@),
{
    let mut i: usize = 0;
    while i < v.len()
        invariant
            i <= v@.len(),
            forall|k: int| 0 <= k < i ==> strs_v(v@)[k] != x@,
        decreases v@.len() - i,
    {
        if v[i].eq(x) {
            proof {
                assert(strs_v(v@)[i as int] == x@);
            }
            return true;
        }
        i = i + 1;
    }
    false
}

/// The selection flags read from the caller's submit-type and event-mode
/// lists.
pub fn convert_context(submit_type: &Vec<String>, event_mode: &Vec<String>) -> (c: ConvertContext)
    ensures
        c.enabled_template == spec_contains_str(strs_v(submit_type@), "template"@),
        c.enabled_text == spec_contains_str(strs_v(submit_type@), "text"@),
        c.enabled_poll_mode == spec_contains_str(strs_v(event_mode@), "poll"@),
        c.enabled_push_mode == spec_contains_str(strs_v(event_mode@), "push"@),
{
    ConvertContext {
        enabled_template: contains_str(submit_type, &String::from_str("template")),
        enabled_text: contains_str(submit_type, &String::from_str("text")),
        enabled_poll_mode: contains_str(event_mode, &String::from_str("poll")),
        enabled_push_mode: contains_str(event_mode, &String::from_str("push")),
    }
}

/// A boolean rendered as its JSON literal.
pub open spec fn spec_bool_json(b: bool) -> Seq<char> {
    if b {
        "true"@
    } else {
        "false"@
    }
}

/// The JSON object handed to the template tool as its context file.
pub open spec fn spec_context_json(c: ConvertContext) -> Seq<char> {
    "{\"EnabledTemplate\":"@ + spec_bool_json(c.enabled_template) + ",\"EnabledText\":"@
        + spec_bool_json(c.enabled_text) + ",\"EnabledPollMode\":"@ + spec_bool_json(
        c.enabled_poll_mode,
    ) + ",\"EnabledPushMode\":"@ + spec_bool_json(c.enabled_push_mode) + "}"@
}

/// Render the context as the JSON object the template tool reads.
pub fn context_json(c: &ConvertContext) -> (r: String)
    ensures
        r@ == spec_context_json(*c),
{
    let mut r = String::from_str("{\"EnabledTemplate\":");
    r.append(if c.enabled_template { "true" } else { "false" });
    r.append(",\"EnabledText\":");
    r.append(if c.enabled_text { "true" } else { "false" });
    r.append(",\"EnabledPollMode\":");
    r.append(if c.enabled_poll_mode { "true" } else { "false" });
    r.append(",\"EnabledPushMode\":");
    r.append(if c.enabled_push_mode { "true" } else { "false" });
    r.append("}");
    r
}

/// A prefix marking an extended-length path, removed before the path is
/// handed to the Docx tool.
pub open spec fn spec_strip_verbatim(s: Seq<char>) -> Seq<char>
    decreases s.len(),
{
    if s.len() >= 4 && s[0] == '\\' && s[1] == '\\' && s[2] == '?' && s[3] == '\\' {
        spec_strip_verbatim(s.skip(4))
    } else {
        s
    }
}

/// Remove every leading extended-length path marker.
pub fn strip_verbatim(s: &str) -> (r: String)
    ensures
        r@ == spec_strip_verbatim(s@),
{
    let mut t: &str = s;
    let mut n = t.unicode_len();
    while n >= 4 && t.get_char(0) == '\\' && t.get_char(1) == '\\' && t.get_char(2) == '?'
        && t.get_char(3) == '\\'
        invariant
            n == t@.len(),
            spec_strip_verbatim(s@) == spec_strip_verbatim(t@),
        decreases n,
    {
        let u = t.substring_char(4, n);
        proof {
            assert(u@ =~= t@.skip(4));
        }
        t = u;
        n = n - 4;
    }
    String::from_str(t)
}

/// The command one stage runs: the program and its arguments in order.
#[derive(Debug)]
pub struct CommandPlan {
    pub program: String,
    pub args: Vec<String>,
}

/// The mathematical value of a [`CommandPlan`].
pub struct CommandPlanV {
    pub program: Seq<char>,
    pub args: Seq<Seq<char>>,
}

impl View for CommandPlan {
    type V = CommandPlanV;

    open spec fn view(&self) -> CommandPlanV {
        CommandPlanV { program: self.program@, args: strs_v(self.args@) }
    }
}

/// One stage's plan: the sibling output path it writes, and the command that
/// produces it.
#[derive(Debug)]
pub struct StagePlan {
    pub dst: String,
    pub command: CommandPlan,
}

/// The binary configured for a tool, or its bare name.
pub open spec fn spec_binary_of(configured: Option<Seq<char>>, fallback: Seq<char>) -> Seq<char> {
    match configured {
        Some(b) => b,
        None => fallback,
    }
}

fn binary_of(configured: &Option<String>, fallback: &str) -> (r: String)
    ensures
        r@ == spec_binary_of(crate::settings::opt_str_v(*configured), fallback@),
{
    match configured {
        Some(b) => b.clone(),
        None => String::from_str(fallback),
    }
}

/// The template-to-Markdown stage: the template tool reads the context file
/// and the source, and writes the source's sibling with extension "md".
pub fn convert2md_plan(path: &String, ctx_file: &String, settings: &Settings) -> (plan: StagePlan)
    ensures
        plan.dst@ == spec_with_ext(path@, "md"@),
        plan.command@.program == spec_binary_of(settings@.gotmpl.binary, "gotmpl"@),
        plan.command@.args == seq![
            "-i"@,
            ctx_file@,
            "-o"@,
            spec_with_ext(path@, "md"@),
            path@,
        ],
{
    let dst = replace_extension(path.as_str(), "md");
    let program = binary_of(&settings.gotmpl.binary, "gotmpl");
    let mut args: Vec<String> = Vec::new();
    args.push(String::from_str("-i"));
    args.push(ctx_file.clone());
    args.push(String::from_str("-o"));
    args.push(dst.clone());
    args.push(path.clone());
    proof {
        assert(strs_v(args@) =~= seq![
            "-i"@,
            ctx_file@,
            "-o"@,
            spec_with_ext(path@, "md"@),
            path@,
        ]);
    }
    StagePlan { dst, command: CommandPlan { program, args } }
}

/// The Markdown-to-Docx stage: the document tool reads the Markdown source
/// and a reference document (the configured one, or the given bundled
/// fallback; an extended-length path marker is removed either way), and
/// writes the source's sibling with extension "docx".
pub fn convert2docx_plan(path: &String, settings: &Settings, fallback_reference: &String) -> (plan:
    StagePlan)
    ensures
        plan.dst@ == spec_with_ext(path@, "docx"@),
        plan.command@.program == spec_binary_of(settings@.pandoc.binary, "pandoc"@),
        plan.command@.args == seq![
            "--reference-doc"@,
            spec_strip_verbatim(
                spec_binary_of(settings@.pandoc.reference_doc, fallback_reference@),
            ),
            "-o"@,
            spec_with_ext(path@, "docx"@),
            path@,
        ],
{
    let dst = replace_extension(path.as_str(), "docx");
    let program = binary_of(&settings.pandoc.binary, "pandoc");
    let configured_ref = binary_of(&settings.pandoc.reference_doc, fallback_reference.as_str());
    let reference = strip_verbatim(configured_ref.as_str());
    let mut args: Vec<String> = Vec::new();
    args.push(String::from_str("--reference-doc"));
    args.push(reference);
    args.push(String::from_str("-o"));
    args.push(dst.clone());
    args.push(path.clone());
    proof {
        assert(strs_v(args@) =~= seq![
            "--reference-doc"@,
            spec_strip_verbatim(
                spec_binary_of(settings@.pandoc.reference_doc, fallback_reference@),
            ),
            "-o"@,
            spec_with_ext(path@, "docx"@),
            path@,
        ]);
    }
    StagePlan { dst, command: CommandPlan { program, args } }
}

/// Judge a stage by its exit status: the stage's output path exactly when
/// the tool exited with status zero, the stage failure carrying the status
/// otherwise.
pub fn stage_result(dst: String, status: i32) -> (r: Result<String, StageError>)
    ensures
        status == 0 ==> (r matches Ok(d) && d@ == dst@),
        status != 0 ==> r == Err::<String, StageError>(StageError::StageFailed { status }),
{
    if status == 0 {
        Ok(dst)
    } else {
        Err(StageError::StageFailed { status })
    }
}

} // verus!
