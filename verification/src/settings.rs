//! Meanings of the stored settings and the decisions of the desktop
//! commands: consent and recording flags, auto-export, API-key input, the
//! background-job gate and the messages of finished jobs.

use vstd::prelude::*;
use crate::text::{chars_eq, chars_of, string_from_chars, trim, trim_chars};
use crate::uia_common::opt_view;

verus! {

broadcast use vstd::string::group_string_axioms;

fn opt_equals(o: &Option<String>, lit: &str) -> (r: bool)
    ensures
        r == (opt_view(*o) == Some(lit@)),
{
    match o {
        Some(s) => {
            let a = chars_of(s.as_str());
            let b = chars_of(lit);
            chars_eq(&a, &b)
        },
        None => false,
    }
}

/// Consent is granted only when the `consent` setting is exactly `"true"`.
pub open spec fn spec_consent_granted(setting: Option<Seq<char>>) -> bool {
    setting == Some("true"@)
}

/// Recording is on unless the `recording` setting is exactly `"false"`.
pub open spec fn spec_recording_enabled(setting: Option<Seq<char>>) -> bool {
    setting != Some("false"@)
}

/// Auto-export is on only when the `auto_export` setting is exactly `"1"`.
pub open spec fn spec_auto_export_enabled(setting: Option<Seq<char>>) -> bool {
    setting == Some("1"@)
}

/// The stored text of a true/false flag (`consent`, `recording`).
pub open spec fn flag_text(on: bool) -> Seq<char> {
    if on {
        "true"@
    } else {
        "false"@
    }
}

/// The stored text of the `auto_export` flag.
pub open spec fn auto_export_text(enabled: bool) -> Seq<char> {
    if enabled {
        "1"@
    } else {
        "0"@
    }
}

/// Whether the `consent` setting grants consent.
pub fn consent_granted(setting: &Option<String>) -> (r: bool)
    ensures
        r == spec_consent_granted(opt_view(*setting)),
{
    opt_equals(setting, "true")
}

/// Whether the `recording` setting leaves recording on.
pub fn recording_enabled(setting: &Option<String>) -> (r: bool)
    ensures
        r == spec_recording_enabled(opt_view(*setting)),
{
    !opt_equals(setting, "false")
}

/// Whether the `auto_export` setting turns auto-export on.
pub fn auto_export_enabled(setting: &Option<String>) -> (r: bool)
    ensures
        r == spec_auto_export_enabled(opt_view(*setting)),
{
    opt_equals(setting, "1")
}

/// The stored value of a true/false flag (`consent`, `recording`).
pub fn flag_value(on: bool) -> (r: &'static str)
    ensures
        r@ == flag_text(on),
{
    if on {
        "true"
    } else {
        "false"
    }
}

/// The stored value of the `auto_export` flag.
pub fn auto_export_value(enabled: bool) -> (r: &'static str)
    ensures
        r@ == auto_export_text(enabled),
{
    if enabled {
        "1"
    } else {
        "0"
    }
}

/// A written flag reads back as written: consent and recording through
/// `flag_value`, auto-export through `auto_export_value`.
pub proof fn lemma_flags_round_trip(on: bool)
    ensures
        spec_consent_granted(Some(flag_text(on))) == on,
        spec_recording_enabled(Some(flag_text(on))) == on,
        spec_auto_export_enabled(Some(auto_export_text(on))) == on,
{
    reveal_strlit("true");
    reveal_strlit("false");
    reveal_strlit("1");
    reveal_strlit("0");
    assert("true"@.len() != "false"@.len());
    assert("1"@[0] != "0"@[0]);
}

/// Error shown for a blank API key.
pub const API_KEY_EMPTY: &'static str = "请输入有效的 API Key";

/// The key to save: the input without surrounding whitespace; a blank input
/// is refused.
pub fn validate_api_key(key: &str) -> (r: Result<String, String>)
    ensures
        trim(key@).len() > 0 <==> r is Ok,
        r matches Ok(k) ==> k@ == trim(key@),
        r matches Err(e) ==> e@ == API_KEY_EMPTY@,
{
    let v = chars_of(key);
    let t = trim_chars(&v);
    if t.len() == 0 {
        return Err(String::from_str(API_KEY_EMPTY));
    }
    Ok(string_from_chars(&t))
}

/// The export directory to store: the input without surrounding whitespace.
pub fn export_dir_setting(path: &str) -> (r: String)
    ensures
        r@ == trim(path@),
{
    let v = chars_of(path);
    let t = trim_chars(&v);
    string_from_chars(&t)
}

/// Error when a background job is already running.
pub const JOB_BUSY: &'static str = "已有后台任务进行中，请稍候";

/// Admits one background job (summary or insight extraction) at a time.
pub struct JobGate {
    busy: bool,
}

impl View for JobGate {
    type V = bool;

    /// A job is running.
    closed spec fn view(&self) -> bool {
        self.busy
    }
}

impl JobGate {
    /// A gate with no job running.
    pub fn new() -> (g: Self)
        ensures
            !g.view(),
    {
        JobGate { busy: false }
    }

    /// Starts a job if none is running; refuses otherwise.
    pub fn try_begin(&mut self) -> (r: Result<(), String>)
        ensures
            r is Ok <==> !old(self).view(),
            final(self).view(),
            r matches Err(e) ==> e@ == JOB_BUSY@,
    {
        if self.busy {
            return Err(String::from_str(JOB_BUSY));
        }
        self.busy = true;
        Ok(())
    }

    /// Marks the running job finished.
    pub fn finish(&mut self)
        ensures
            !final(self).view(),
    {
        self.busy = false;
    }

    /// Whether a job is running.
    pub fn is_busy(&self) -> (r: bool)
        ensures
            r == self.view(),
    {
        self.busy
    }
}

/// Result of a background insight extraction.
#[derive(Debug)]
pub struct InsightsJobResult {
    pub ok: bool,
    pub fact_count: Option<usize>,
    pub error: Option<String>,
}

impl InsightsJobResult {
    /// The result reported for an extraction outcome.
    pub fn from_outcome(outcome: Result<usize, String>) -> (r: Self)
        ensures
            match outcome {
                Ok(n) => r.ok && r.fact_count == Some(n) && r.error is None,
                Err(e) => !r.ok && r.fact_count is None && r.error == Some(e),
            },
    {
        match outcome {
            Ok(n) => InsightsJobResult { ok: true, fact_count: Some(n), error: None },
            Err(e) => InsightsJobResult { ok: false, fact_count: None, error: Some(e) },
        }
    }
}

/// What follows a generated summary: insight extraction when auto-export is
/// on and an API key is configured, and memory export when auto-export is on.
#[derive(Debug, Clone, Copy, PartialEq, Eq, Structural)]
pub struct AfterSummary {
    pub extract_insights: bool,
    pub export_memory: bool,
}

/// The follow-up work after a summary.
pub fn after_summary(auto_export: bool, has_api_key: bool) -> (r: AfterSummary)
    ensures
        r.extract_insights == (auto_export && has_api_key),
        r.export_memory == auto_export,
{
    AfterSummary { extract_insights: auto_export && has_api_key, export_memory: auto_export }
}

/// The message of a finished summary job: the export directory when the
/// export succeeded, otherwise a note on the extraction when it ran,
/// otherwise the plain confirmation.
pub open spec fn spec_summary_message(plan: AfterSummary, exported_to: Option<Seq<char>>) -> Seq<char> {
    if plan.export_memory && exported_to is Some {
        "复盘已生成，记忆已导出至 "@ + exported_to->0
    } else if plan.extract_insights {
        "复盘已生成，并已后台抽取行为洞察"@
    } else {
        "复盘已生成"@
    }
}

/// Builds the message of a finished summary job from its follow-up plan and
/// the export result.
pub fn summary_message(plan: AfterSummary, exported_to: Option<String>) -> (m: String)
    ensures
        m@ == spec_summary_message(plan, opt_view(exported_to)),
{
    if plan.export_memory {
        match exported_to {
            Some(p) => {
                let mut s = String::from_str("复盘已生成，记忆已导出至 ");
                s.append(p.as_str());
                return s;
            },
            None => {},
        }
    }
    if plan.extract_insights {
        String::from_str("复盘已生成，并已后台抽取行为洞察")
    } else {
        String::from_str("复盘已生成")
    }
}


/// What an entry of the tray menu does.
#[derive(Debug, Clone, Copy, PartialEq, Eq, Structural)]
pub enum TrayAction {
    /// Show and focus the main window (`"open"`).
    ShowMainWindow,
    /// Set recording to the given state and announce it (`"pause"`, which
    /// toggles).
    SetRecording(bool),
    /// Leave the application (`"quit"`).
    Quit,
    /// Any other entry.
    Ignore,
}

/// The action of the tray menu entry `id`, given whether recording is on.
pub fn tray_action(id: &str, recording: bool) -> (r: TrayAction)
    ensures
        r == (if id@ == "open"@ {
            TrayAction::ShowMainWindow
        } else if id@ == "pause"@ {
            TrayAction::SetRecording(!recording)
        } else if id@ == "quit"@ {
            TrayAction::Quit
        } else {
            TrayAction::Ignore
        }),
{
    let v = chars_of(id);
    let open = chars_of("open");
    let pause = chars_of("pause");
    let quit = chars_of("quit");
    if chars_eq(&v, &open) {
        TrayAction::ShowMainWindow
    } else if chars_eq(&v, &pause) {
        TrayAction::SetRecording(!recording)
    } else if chars_eq(&v, &quit) {
        TrayAction::Quit
    } else {
        TrayAction::Ignore
    }
}


/// Result of a background summary generation, carrying the generated
/// summary `S`.
#[derive(Debug)]
pub struct SummaryJobResult<S> {
    pub ok: bool,
    pub summary: Option<S>,
    pub error: Option<String>,
    pub message: Option<String>,
}

impl<S> SummaryJobResult<S> {
    /// The result reported for a generation outcome: on success the summary
    /// and the message of its follow-up (`summary_message` of the plan and
    /// the export result), on failure the error.
    pub fn from_outcome(outcome: Result<S, String>, plan: AfterSummary, exported_to: Option<String>) -> (r:
        Self)
        ensures
            match outcome {
                Ok(s) => {
                    &&& r.ok
                    &&& r.summary == Some(s)
                    &&& r.error is None
                    &&& r.message matches Some(m) && m@ == spec_summary_message(
                        plan,
                        opt_view(exported_to),
                    )
                },
                Err(e) => !r.ok && r.summary is None && r.error == Some(e) && r.message is None,
            },
    {
        match outcome {
            Ok(s) => SummaryJobResult {
                ok: true,
                summary: Some(s),
                error: None,
                message: Some(summary_message(plan, exported_to)),
            },
            Err(e) => SummaryJobResult { ok: false, summary: None, error: Some(e), message: None },
        }
    }
}

/// Closes a summary job: releases the job gate and gives the payload that
/// reports the outcome of the summary generation.
pub fn finish_summary_job<S>(
    gate: &mut JobGate,
    outcome: Result<S, String>,
    plan: AfterSummary,
    exported_to: Option<String>,
) -> (r: SummaryJobResult<S>)
    ensures
        !final(gate).view(),
        match outcome {
            Ok(s) => {
                &&& r.ok
                &&& r.summary == Some(s)
                &&& r.error is None
                &&& r.message matches Some(m) && m@ == spec_summary_message(
                    plan,
                    opt_view(exported_to),
                )
            },
            Err(e) => !r.ok && r.summary is None && r.error == Some(e) && r.message is None,
        },
{
    let r = SummaryJobResult::from_outcome(outcome, plan, exported_to);
    gate.finish();
    r
}

/// Closes an insight extraction job: releases the job gate and gives the
/// payload that reports its outcome.
pub fn finish_insights_job(gate: &mut JobGate, outcome: Result<usize, String>) -> (r:
    InsightsJobResult)
    ensures
        !final(gate).view(),
        match outcome {
            Ok(n) => r.ok && r.fact_count == Some(n) && r.error is None,
            Err(e) => !r.ok && r.fact_count is None && r.error == Some(e),
        },
{
    let r = InsightsJobResult::from_outcome(outcome);
    gate.finish();
    r
}

} // verus!
