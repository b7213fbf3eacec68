//! Agent-facing (MCP) logic: resource routing, the replies of the control
//! tools, the "what is the user working on" pick, the daemon autostart
//! policy, and the structured error payloads.

use vstd::prelude::*;
use crate::text::{chars_eq, chars_of, contains_char, contains_chars, is_substring, is_prefix};
use crate::uia_common::opt_view;

verus! {

broadcast use vstd::string::group_string_axioms;

/// Resource: the user's habit profile and active facts (JSON).
pub const URI_PROFILE: &'static str = "dayrecord://user/profile";

/// Resource: every active fact (JSON).
pub const URI_FACTS: &'static str = "dayrecord://facts/active";

/// Prefix of the per-day memory resources `dayrecord://memory/{date}`.
pub const URI_MEMORY_PREFIX: &'static str = "dayrecord://memory/";

/// Resource: today's sanitized context (Markdown).
pub const URI_CONTEXT_TODAY: &'static str = "dayrecord://context/today";

/// Setting that turns MCP's daemon autostart off when `"false"`.
pub const SETTING_MCP_AUTOSTART: &'static str = "mcp_autostart_daemon";

/// Default number of days of `get_recent_summary`.
pub fn default_days() -> (d: u32)
    ensures
        d == 7,
{
    7
}

/// A structured tool error: message plus an optional hint.
#[derive(Debug)]
pub struct McpErrorJson {
    pub error: String,
    pub hint: Option<String>,
}

impl McpErrorJson {
    /// An error with a message and no hint.
    pub fn msg(error: &str) -> (r: Self)
        ensures
            r.error@ == error@,
            r.hint is None,
    {
        McpErrorJson { error: error.to_owned(), hint: None }
    }
}

/// A business-level tool failure, reported to the client with `isError`.
pub struct ToolFail(pub McpErrorJson);

impl ToolFail {
    /// Wraps a structured error.
    pub fn new(error: McpErrorJson) -> (r: Self)
        ensures
            r.0 == error,
    {
        ToolFail(error)
    }
}

/// The answer of `what_working_on_now`.
#[derive(Debug)]
pub struct WorkingOnNow {
    pub app_name: String,
    pub window_title: String,
    pub task_name: Option<String>,
    pub goal_guess: Option<String>,
    pub message: Option<String>,
}

impl WorkingOnNow {
    /// The answer for a day without activity or task data.
    pub fn empty_day() -> (r: Self)
        ensures
            r.app_name@ == Seq::<char>::empty(),
            r.window_title@ == Seq::<char>::empty(),
            r.task_name is None,
            r.goal_guess is None,
            r.message matches Some(m) && m@ == "暂无今日活动数据"@,
    {
        WorkingOnNow {
            app_name: String::new(),
            window_title: String::new(),
            task_name: None,
            goal_guess: None,
            message: Some(String::from_str("暂无今日活动数据")),
        }
    }
}

/// `i` is the index that `Iterator::max_by_key` returns over `keys`: a
/// maximal key, and the last one among equal maxima.
pub open spec fn is_last_max(keys: Seq<i64>, i: int) -> bool {
    &&& 0 <= i < keys.len()
    &&& forall|j: int| 0 <= j < keys.len() ==> keys[j] <= keys[i]
    &&& forall|j: int| i < j < keys.len() ==> keys[j] < keys[i]
}

/// Index of the latest end time (the last of equal ones), if any.
pub fn latest_index(ends: &Vec<i64>) -> (r: Option<usize>)
    ensures
        ends@.len() == 0 <==> r is None,
        r matches Some(i) ==> is_last_max(ends@, i as int),
{
    if ends.len() == 0 {
        return None;
    }
    let mut best: usize = 0;
    let mut i: usize = 1;
    while i < ends.len()
        invariant
            1 <= i <= ends@.len(),
            best < i,
            forall|j: int| 0 <= j < i ==> ends@[j] <= ends@[best as int],
            forall|j: int| best < j < i ==> ends@[j] < ends@[best as int],
        decreases ends@.len() - i,
    {
        if ends[i] >= ends[best] {
            best = i;
        }
        i += 1;
    }
    Some(best)
}

/// Which records `what_working_on_now` reports: nothing for an empty day,
/// otherwise the latest-ending activity and the latest-ending task unit.
#[derive(Debug, Clone, Copy, PartialEq, Eq, Structural)]
pub enum WorkingPick {
    EmptyDay,
    Latest { activity: Option<usize>, task: Option<usize> },
}

/// Picks the records to report from the end times (UTC milliseconds) of the
/// day's activities and task units.
pub fn pick_working_on_now(activity_ends: &Vec<i64>, task_ends: &Vec<i64>) -> (r: WorkingPick)
    ensures
        (activity_ends@.len() == 0 && task_ends@.len() == 0) <==> r == WorkingPick::EmptyDay,
        r matches WorkingPick::Latest { activity, task } ==> {
            &&& (activity_ends@.len() == 0 <==> activity is None)
            &&& (activity matches Some(i) ==> is_last_max(activity_ends@, i as int))
            &&& (task_ends@.len() == 0 <==> task is None)
            &&& (task matches Some(i) ==> is_last_max(task_ends@, i as int))
        },
{
    if activity_ends.len() == 0 && task_ends.len() == 0 {
        return WorkingPick::EmptyDay;
    }
    WorkingPick::Latest { activity: latest_index(activity_ends), task: latest_index(task_ends) }
}

/// Where a resource URI leads.
#[derive(Debug, Clone, PartialEq, Eq)]
pub enum ResourceRoute {
    Profile,
    Facts,
    ContextToday,
    /// The memory of one day, given as written after the prefix.
    Memory(String),
    /// A memory URI whose day part is empty or holds `/`.
    InvalidMemory,
    Unknown,
}

/// The route of a URI: the three fixed resources by exact match, then the
/// memory prefix with a non-empty, slash-free day.
pub open spec fn spec_route(uri: Seq<char>) -> (Option<int>, Option<Seq<char>>) {
    if uri == URI_PROFILE@ {
        (Some(0), None)
    } else if uri == URI_FACTS@ {
        (Some(1), None)
    } else if uri == URI_CONTEXT_TODAY@ {
        (Some(2), None)
    } else if is_prefix(URI_MEMORY_PREFIX@, uri) {
        let day = uri.skip(URI_MEMORY_PREFIX@.len() as int);
        if day.len() == 0 || day.contains('/') {
            (Some(4), None)
        } else {
            (Some(3), Some(day))
        }
    } else {
        (Some(5), None)
    }
}

/// The numbered shape of a route, matching `spec_route`.
pub open spec fn route_shape(r: ResourceRoute) -> (Option<int>, Option<Seq<char>>) {
    match r {
        ResourceRoute::Profile => (Some(0), None),
        ResourceRoute::Facts => (Some(1), None),
        ResourceRoute::ContextToday => (Some(2), None),
        ResourceRoute::Memory(d) => (Some(3), Some(d@)),
        ResourceRoute::InvalidMemory => (Some(4), None),
        ResourceRoute::Unknown => (Some(5), None),
    }
}

/// Routes a resource URI.
pub fn route_resource(uri: &str) -> (r: ResourceRoute)
    ensures
        route_shape(r) == spec_route(uri@),
{
    let u = chars_of(uri);
    let p = chars_of(URI_PROFILE);
    if chars_eq(&u, &p) {
        return ResourceRoute::Profile;
    }
    let f = chars_of(URI_FACTS);
    if chars_eq(&u, &f) {
        return ResourceRoute::Facts;
    }
    let c = chars_of(URI_CONTEXT_TODAY);
    if chars_eq(&u, &c) {
        return ResourceRoute::ContextToday;
    }
    let m = chars_of(URI_MEMORY_PREFIX);
    if m.len() <= u.len() && crate::text::occurs_at(&u, &m, 0) {
        let mut day: Vec<char> = Vec::new();
        let mut i: usize = m.len();
        while i < u.len()
            invariant
                m@.len() <= i <= u@.len(),
                day@ == u@.subrange(m@.len() as int, i as int),
            decreases u@.len() - i,
        {
            day.push(u[i]);
            i += 1;
            assert(day@ =~= u@.subrange(m@.len() as int, i as int));
        }
        assert(day@ =~= uri@.skip(URI_MEMORY_PREFIX@.len() as int));
        if day.len() == 0 || contains_char(&day, '/') {
            return ResourceRoute::InvalidMemory;
        }
        return ResourceRoute::Memory(crate::text::string_from_chars(&day));
    }
    ResourceRoute::Unknown
}

/// The MIME type served for a readable route.
pub fn route_mime(r: &ResourceRoute) -> (m: Option<&'static str>)
    ensures
        match *r {
            ResourceRoute::Profile | ResourceRoute::Facts => m == Some("application/json"),
            ResourceRoute::ContextToday | ResourceRoute::Memory(_) => m == Some("text/markdown"),
            _ => m is None,
        },
{
    match r {
        ResourceRoute::Profile | ResourceRoute::Facts => Some("application/json"),
        ResourceRoute::ContextToday | ResourceRoute::Memory(_) => Some("text/markdown"),
        _ => None,
    }
}

/// The error message of an unreadable route: `invalid memory URI: {uri}` or
/// `unknown resource: {uri}`.
pub fn route_error(r: &ResourceRoute, uri: &str) -> (e: Option<String>)
    ensures
        match *r {
            ResourceRoute::InvalidMemory => e matches Some(s) && s@ == "invalid memory URI: "@
                + uri@,
            ResourceRoute::Unknown => e matches Some(s) && s@ == "unknown resource: "@ + uri@,
            _ => e is None,
        },
{
    match r {
        ResourceRoute::InvalidMemory => {
            let mut s = String::from_str("invalid memory URI: ");
            s.append(uri);
            Some(s)
        },
        ResourceRoute::Unknown => {
            let mut s = String::from_str("unknown resource: ");
            s.append(uri);
            Some(s)
        },
        _ => None,
    }
}

/// The memory text of a day without a stored summary.
pub fn empty_memory_text(day: &str) -> (t: String)
    ensures
        t@ == "# 复盘 "@ + day@ + "\n\n（暂无数据）"@,
{
    let mut s = String::from_str("# 复盘 ");
    s.append(day);
    s.append("\n\n（暂无数据）");
    s
}

/// Why a request to the capture service failed.
#[derive(Debug, Clone, PartialEq, Eq)]
pub enum ControlError {
    /// No capture service (GUI or daemon) answered.
    ServiceNotRunning,
    /// The daemon may not be started automatically.
    AutostartDenied(String),
    /// The request could not be delivered or read.
    Transport(String),
}

/// The message text of a control error.
pub open spec fn control_error_text(e: ControlError) -> Seq<char> {
    match e {
        ControlError::ServiceNotRunning => "capture service is not running"@,
        ControlError::AutostartDenied(m) => "autostart denied: "@ + m@,
        ControlError::Transport(m) => "control transport error: "@ + m@,
    }
}

impl ControlError {
    /// The message of the error.
    pub fn message(&self) -> (s: String)
        ensures
            s@ == control_error_text(*self),
    {
        match self {
            ControlError::ServiceNotRunning => String::from_str("capture service is not running"),
            ControlError::AutostartDenied(m) => {
                let mut s = String::from_str("autostart denied: ");
                s.append(m.as_str());
                s
            },
            ControlError::Transport(m) => {
                let mut s = String::from_str("control transport error: ");
                s.append(m.as_str());
                s
            },
        }
    }
}

/// Hint attached to a service-not-running error.
pub const SERVICE_HINT: &'static str = "Start DayRecord GUI or run `dayrecord daemon` first.";

/// The hint of a control error: how to start the capture service when none
/// is running, nothing otherwise.
pub open spec fn control_error_hint(err: ControlError) -> Option<Seq<char>> {
    match err {
        ControlError::ServiceNotRunning => Some(SERVICE_HINT@),
        _ => None,
    }
}

/// The structured payload of a control error: its message, with a hint to
/// start the GUI or daemon when no service is running.
pub fn control_error_json(err: &ControlError) -> (r: McpErrorJson)
    ensures
        r.error@ == control_error_text(*err),
        opt_view(r.hint) == control_error_hint(*err),
{
    let hint = match err {
        ControlError::ServiceNotRunning => Some(String::from_str(SERVICE_HINT)),
        _ => None,
    };
    McpErrorJson { error: err.message(), hint }
}

/// Data returned by the capture service.
#[derive(Debug, Clone)]
pub struct ControlData {
    pub recording: Option<bool>,
    pub day: Option<String>,
    pub stats: Option<crate::storage::DayStats>,
    pub summary_markdown: Option<String>,
    pub fact_count: Option<usize>,
}

/// A reply of the capture service.
#[derive(Debug, Clone)]
pub struct ControlResponse {
    pub ok: bool,
    pub error: Option<String>,
    pub data: Option<ControlData>,
}

/// What a control tool answers.
#[derive(Debug)]
pub enum ControlReply {
    /// The generated summary in Markdown.
    Markdown(String),
    /// `{"ok": true, "fact_count": n}`.
    Consolidated(usize),
    /// `{"ok": true, "status": label}`.
    Done(String),
    /// The service's status data, serialized as is.
    Status(Option<ControlData>),
    /// A structured error.
    Failed(McpErrorJson),
}

/// The error payload of a refused request: the service's message, or the
/// tool's default message.
pub open spec fn refusal_text(resp: ControlResponse, default: Seq<char>) -> Seq<char> {
    match resp.error {
        Some(e) => e@,
        None => default,
    }
}

fn refusal(resp: &ControlResponse, default: &str) -> (r: McpErrorJson)
    ensures
        r.error@ == refusal_text(*resp, default@),
        r.hint is None,
{
    match &resp.error {
        Some(e) => McpErrorJson { error: e.clone(), hint: None },
        None => McpErrorJson::msg(default),
    }
}

/// Reply of `generate_today_summary`: the summary Markdown (a placeholder
/// when the service sent none), the service's refusal, or the control error.
pub fn generate_today_summary(outcome: Result<ControlResponse, ControlError>) -> (r: ControlReply)
    ensures
        match outcome {
            Ok(resp) => if resp.ok {
                r matches ControlReply::Markdown(m) && m@ == (match resp.data {
                    Some(d) => match d.summary_markdown {
                        Some(s) => s@,
                        None => "（无复盘内容）"@,
                    },
                    None => "（无复盘内容）"@,
                })
            } else {
                r matches ControlReply::Failed(e) && e.error@ == refusal_text(
                    resp,
                    "generate summary failed"@,
                ) && e.hint is None
            },
            Err(err) => r matches ControlReply::Failed(e) && e.error@ == control_error_text(err)
                && opt_view(e.hint) == control_error_hint(err),
        },
{
    match outcome {
        Ok(resp) => if resp.ok {
            let md = match resp.data {
                Some(d) => match d.summary_markdown {
                    Some(s) => s,
                    None => String::from_str("（无复盘内容）"),
                },
                None => String::from_str("（无复盘内容）"),
            };
            ControlReply::Markdown(md)
        } else {
            ControlReply::Failed(refusal(&resp, "generate summary failed"))
        },
        Err(e) => ControlReply::Failed(control_error_json(&e)),
    }
}

/// Reply of `consolidate_memory`: the fact count (0 when not sent), the
/// refusal, or the control error.
pub fn consolidate_memory(outcome: Result<ControlResponse, ControlError>) -> (r: ControlReply)
    ensures
        match outcome {
            Ok(resp) => if resp.ok {
                r matches ControlReply::Consolidated(n) && n == (match resp.data {
                    Some(d) => match d.fact_count {
                        Some(c) => c,
                        None => 0,
                    },
                    None => 0,
                })
            } else {
                r matches ControlReply::Failed(e) && e.error@ == refusal_text(
                    resp,
                    "consolidate failed"@,
                ) && e.hint is None
            },
            Err(err) => r matches ControlReply::Failed(e) && e.error@ == control_error_text(err)
                && opt_view(e.hint) == control_error_hint(err),
        },
{
    match outcome {
        Ok(resp) => if resp.ok {
            let n = match resp.data {
                Some(d) => match d.fact_count {
                    Some(c) => c,
                    None => 0,
                },
                None => 0,
            };
            ControlReply::Consolidated(n)
        } else {
            ControlReply::Failed(refusal(&resp, "consolidate failed"))
        },
        Err(e) => ControlReply::Failed(control_error_json(&e)),
    }
}

/// Reply of a simple control command: the label on success, else the
/// refusal (defaulting to the label) or the control error.
pub fn control_simple(outcome: Result<ControlResponse, ControlError>, label: &str) -> (r: ControlReply)
    ensures
        match outcome {
            Ok(resp) => if resp.ok {
                r matches ControlReply::Done(s) && s@ == label@
            } else {
                r matches ControlReply::Failed(e) && e.error@ == refusal_text(resp, label@)
                    && e.hint is None
            },
            Err(err) => r matches ControlReply::Failed(e) && e.error@ == control_error_text(err)
                && opt_view(e.hint) == control_error_hint(err),
        },
{
    match outcome {
        Ok(resp) => if resp.ok {
            ControlReply::Done(label.to_owned())
        } else {
            ControlReply::Failed(refusal(&resp, label))
        },
        Err(e) => ControlReply::Failed(control_error_json(&e)),
    }
}

/// Reply of `pause_recording`.
pub fn pause_recording(outcome: Result<ControlResponse, ControlError>) -> (r: ControlReply)
    ensures
        match outcome {
            Ok(resp) => if resp.ok {
                r matches ControlReply::Done(s) && s@ == "paused"@
            } else {
                r matches ControlReply::Failed(e) && e.error@ == refusal_text(resp, "paused"@)
                    && e.hint is None
            },
            Err(err) => r matches ControlReply::Failed(e) && e.error@ == control_error_text(err)
                && opt_view(e.hint) == control_error_hint(err),
        },
{
    control_simple(outcome, "paused")
}

/// Reply of `resume_recording`.
pub fn resume_recording(outcome: Result<ControlResponse, ControlError>) -> (r: ControlReply)
    ensures
        match outcome {
            Ok(resp) => if resp.ok {
                r matches ControlReply::Done(s) && s@ == "resumed"@
            } else {
                r matches ControlReply::Failed(e) && e.error@ == refusal_text(resp, "resumed"@)
                    && e.hint is None
            },
            Err(err) => r matches ControlReply::Failed(e) && e.error@ == control_error_text(err)
                && opt_view(e.hint) == control_error_hint(err),
        },
{
    control_simple(outcome, "resumed")
}

/// Reply of `get_recording_status`: the service data on success, else the
/// refusal or the control error.
pub fn get_recording_status(outcome: Result<ControlResponse, ControlError>) -> (r: ControlReply)
    ensures
        match outcome {
            Ok(resp) => if resp.ok {
                r matches ControlReply::Status(d) && d == resp.data
            } else {
                r matches ControlReply::Failed(e) && e.error@ == refusal_text(
                    resp,
                    "status failed"@,
                ) && e.hint is None
            },
            Err(err) => r matches ControlReply::Failed(e) && e.error@ == control_error_text(err)
                && opt_view(e.hint) == control_error_hint(err),
        },
{
    match outcome {
        Ok(resp) => if resp.ok {
            ControlReply::Status(resp.data)
        } else {
            ControlReply::Failed(refusal(&resp, "status failed"))
        },
        Err(e) => ControlReply::Failed(control_error_json(&e)),
    }
}

/// Message when the environment disables autostart.
pub const AUTOSTART_ENV_DENIED: &'static str = "MCP daemon autostart disabled by DAYRECORD_MCP_DISABLE_AUTOSTART";

/// Message when data-collection consent is missing.
pub const AUTOSTART_CONSENT_DENIED: &'static str = "Data collection consent is not granted. Run `dayrecord consent --accept true` or accept in the DayRecord GUI before MCP can start the capture service.";

/// Message when the autostart setting is off.
pub const AUTOSTART_SETTING_DENIED: &'static str = "MCP daemon autostart is disabled (`mcp_autostart_daemon=false`). Start DayRecord GUI or run `dayrecord daemon` manually.";

/// Autostart is allowed only with consent `"true"` and the autostart
/// setting not `"false"`, unless the environment disables it; a failed
/// settings read is a transport error.
pub open spec fn spec_autostart(
    env_disabled: bool,
    consent: Result<Option<Seq<char>>, Seq<char>>,
    autostart: Result<Option<Seq<char>>, Seq<char>>,
) -> Result<(), ControlError> {
    if env_disabled {
        Err(ControlError::AutostartDenied(arbitrary()))
    } else {
        match consent {
            Err(_) => Err(ControlError::Transport(arbitrary())),
            Ok(c) => if c != Some("true"@) {
                Err(ControlError::AutostartDenied(arbitrary()))
            } else {
                match autostart {
                    Err(_) => Err(ControlError::Transport(arbitrary())),
                    Ok(a) => if a == Some("false"@) {
                        Err(ControlError::AutostartDenied(arbitrary()))
                    } else {
                        Ok(())
                    },
                }
            },
        }
    }
}

/// MCP may start the capture service only when the environment allows it,
/// consent reads exactly `"true"` and the autostart setting reads as
/// anything but `"false"`; without consent the answer is a denial whatever
/// the autostart setting holds.
pub proof fn lemma_autostart_needs_consent(
    env_disabled: bool,
    consent: Result<Option<Seq<char>>, Seq<char>>,
    autostart: Result<Option<Seq<char>>, Seq<char>>,
)
    ensures
        spec_autostart(env_disabled, consent, autostart) is Ok <==> {
            &&& !env_disabled
            &&& consent == Ok::<Option<Seq<char>>, Seq<char>>(Some("true"@))
            &&& autostart matches Ok(a) && a != Some("false"@)
        },
        (!env_disabled && (consent matches Ok(c) && c != Some("true"@))) ==> (spec_autostart(
            env_disabled,
            consent,
            autostart,
        ) matches Err(e) && e is AutostartDenied),
{
}

/// The view of a settings read.
pub open spec fn read_view(r: Result<Option<String>, String>) -> Result<Option<Seq<char>>, Seq<char>> {
    match r {
        Ok(o) => Ok(opt_view(o)),
        Err(e) => Err(e@),
    }
}

fn opt_is(o: &Option<String>, lit: &str) -> (r: bool)
    ensures
        r == (opt_view(*o) == Some(lit@)),
{
    match o {
        Some(s) => {
            let a = chars_of(s.as_str());
            let b = chars_of(lit);
            chars_eq(&a, &b)
        },
        None => false,
    }
}

/// Whether MCP may spawn `dayrecord daemon` for a control tool, from the
/// `DAYRECORD_MCP_DISABLE_AUTOSTART` flag and the reads of the `consent`
/// and `mcp_autostart_daemon` settings.
pub fn mcp_autostart_allowed(
    env_disabled: bool,
    consent: Result<Option<String>, String>,
    autostart: Result<Option<String>, String>,
) -> (r: Result<(), ControlError>)
    ensures
        match (r, spec_autostart(env_disabled, read_view(consent), read_view(autostart))) {
            (Ok(()), Ok(())) => true,
            (Err(ControlError::AutostartDenied(m)), Err(ControlError::AutostartDenied(_))) => {
                if env_disabled {
                    m@ == AUTOSTART_ENV_DENIED@
                } else if consent matches Ok(c) && opt_view(c) != Some("true"@) {
                    m@ == AUTOSTART_CONSENT_DENIED@
                } else {
                    m@ == AUTOSTART_SETTING_DENIED@
                }
            },
            (Err(ControlError::Transport(m)), Err(ControlError::Transport(_))) => match consent {
                Err(e) => m@ == e@,
                Ok(_) => autostart matches Err(e) && m@ == e@,
            },
            _ => false,
        },
{
    if env_disabled {
        return Err(ControlError::AutostartDenied(String::from_str(AUTOSTART_ENV_DENIED)));
    }
    let c = match consent {
        Ok(c) => c,
        Err(e) => return Err(ControlError::Transport(e)),
    };
    if !opt_is(&c, "true") {
        return Err(ControlError::AutostartDenied(String::from_str(AUTOSTART_CONSENT_DENIED)));
    }
    let a = match autostart {
        Ok(a) => a,
        Err(e) => return Err(ControlError::Transport(e)),
    };
    if opt_is(&a, "false") {
        return Err(ControlError::AutostartDenied(String::from_str(AUTOSTART_SETTING_DENIED)));
    }
    Ok(())
}

/// `output` contains `raw_secret`, i.e. raw keystroke content leaked.
pub fn leaks_raw_session(output: &str, raw_secret: &str) -> (r: bool)
    ensures
        r == is_substring(raw_secret@, output@),
{
    let o = chars_of(output);
    let s = chars_of(raw_secret);
    contains_chars(&o, &s)
}

/// Ensures MCP output never leaks raw session keystroke content: callers
/// must establish that `output` does not contain `raw_secret`.
pub fn assert_no_raw_session_leak(output: &str, raw_secret: &str)
    requires
        !is_substring(raw_secret@, output@),
{
    let leaked = leaks_raw_session(output, raw_secret);
    assert(!leaked);
}

} // verus!
