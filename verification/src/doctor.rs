//! `dayrecord doctor mcp`: reading what the probed binaries printed, and the
//! report shown to the user.
//!
//! The probes themselves (spawning the binary, writing JSON-RPC to its
//! stdin) are I/O; here stand the decisions taken on their output. JSON
//! lines are parsed by `serde_json`, through the `external_body` wrappers
//! below, whose contracts are assumed.

use vstd::prelude::*;
use crate::text::{
    chars_of, contains_chars, decimal_string, is_substring, spec_decimal, string_from_chars, trim,
    trim_chars,
};
use crate::uia_common::opt_view;

verus! {

broadcast use vstd::string::group_string_axioms;

/// `serde_json::Value`, carried as an opaque value.
#[verifier::external_type_specification]
#[verifier::external_body]
pub struct ExJsonValue(serde_json::Value);

/// What a JSON pointer finds in a document: nothing, a boolean, an array
/// (with its length) or a value of another kind.
#[derive(Debug, Clone, Copy, PartialEq, Eq)]
pub enum JsonKind {
    Missing,
    Bool(bool),
    Array(usize),
    Other,
}

/// Outcome of `serde_json::from_str::<serde_json::Value>` on `text`: `Ok`
/// when the text is one JSON document, else the parser's message.
pub uninterp spec fn json_parse_result(text: Seq<char>) -> Result<(), Seq<char>>;

/// What `serde_json::Value::pointer` finds at `pointer` in the document
/// parsed from `text`.
pub uninterp spec fn json_pointer_kind(text: Seq<char>, pointer: Seq<char>) -> JsonKind;

/// `String::from_utf8_lossy` of `bytes`.
pub uninterp spec fn utf8_lossy(bytes: Seq<u8>) -> Seq<char>;

/// A parsed JSON document together with the text it was parsed from; only
/// `json_parse` makes one.
pub struct JsonDoc {
    text: String,
    value: serde_json::Value,
}

impl View for JsonDoc {
    type V = Seq<char>;

    closed spec fn view(&self) -> Seq<char> {
        self.text@
    }
}

/// Calls `serde_json::from_str::<serde_json::Value>`. Claims that the call
/// succeeds exactly when `json_parse_result` says so, that the document
/// keeps the text it came from, and that a failure carries the parser's
/// message.
#[verifier::external_body]
fn json_parse(text: &str) -> (r: Result<JsonDoc, String>)
    ensures
        match r {
            Ok(d) => json_parse_result(text@) is Ok && d@ == text@,
            Err(e) => json_parse_result(text@) == Err::<(), Seq<char>>(e@),
        },
{
    match serde_json::from_str::<serde_json::Value>(text) {
        Ok(value) => Ok(JsonDoc { text: text.to_string(), value }),
        Err(e) => Err(e.to_string()),
    }
}

/// Calls `serde_json::Value::pointer` on a parsed document and tells the
/// found value's variant apart. Claims that the outcome is
/// `json_pointer_kind` of the document's text and the pointer.
#[verifier::external_body]
fn json_pointer(doc: &JsonDoc, pointer: &str) -> (r: JsonKind)
    ensures
        r == json_pointer_kind(doc@, pointer@),
{
    match doc.value.pointer(pointer) {
        None => JsonKind::Missing,
        Some(serde_json::Value::Bool(b)) => JsonKind::Bool(*b),
        Some(serde_json::Value::Array(a)) => JsonKind::Array(a.len()),
        Some(_) => JsonKind::Other,
    }
}

/// Calls `String::from_utf8_lossy`. Claims that the text is `utf8_lossy`
/// of the bytes.
#[verifier::external_body]
fn lossy_text(bytes: &[u8]) -> (s: String)
    ensures
        s@ == utf8_lossy(bytes@),
{
    String::from_utf8_lossy(bytes).into_owned()
}

/// A line with a `'\r'` that preceded its `'\n'` removed.
pub open spec fn strip_cr(l: Seq<char>) -> Seq<char> {
    if l.len() > 0 && l.last() == '\r' {
        l.drop_last()
    } else {
        l
    }
}

/// The finished lines and the open line after reading `s`.
pub open spec fn lines_scan(s: Seq<char>) -> (Seq<Seq<char>>, Seq<char>)
    decreases s.len(),
{
    if s.len() == 0 {
        (Seq::empty(), Seq::empty())
    } else {
        let (done, cur) = lines_scan(s.drop_last());
        if s.last() == '\n' {
            (done.push(strip_cr(cur)), Seq::empty())
        } else {
            (done, cur.push(s.last()))
        }
    }
}

/// The lines of a text as `str::lines` yields them: split at `'\n'`, a
/// `'\r'` before the `'\n'` dropped, and no empty line after a final line
/// ending.
pub open spec fn text_lines(s: Seq<char>) -> Seq<Seq<char>> {
    let (done, cur) = lines_scan(s);
    if cur.len() > 0 {
        done.push(cur)
    } else {
        done
    }
}

fn strip_cr_vec(v: Vec<char>) -> (r: Vec<char>)
    ensures
        r@ == strip_cr(v@),
{
    let mut l = v;
    let n = l.len();
    if n > 0 && l[n - 1] == '\r' {
        l.pop();
    }
    l
}

fn push_line(lines: &mut Vec<Vec<char>>, l: Vec<char>)
    ensures
        final(lines).deep_view() == old(lines).deep_view().push(l@),
{
    let ghost before = lines@;
    let ghost lv = l@;
    lines.push(l);
    proof {
        let d = lines.deep_view();
        assert forall|k: int| 0 <= k < before.len() implies d[k] == old(lines).deep_view()[k] by {
            assert(lines@[k] == before[k]);
        }
        assert(lines@[before.len() as int]@ == lv);
        assert(lines@[before.len() as int].deep_view() =~= lv);
        assert(d =~= old(lines).deep_view().push(lv));
    }
}

/// The lines of a text (`str::lines`).
pub fn split_lines(s: &Vec<char>) -> (r: Vec<Vec<char>>)
    ensures
        r.deep_view() == text_lines(s@),
{
    let mut done: Vec<Vec<char>> = Vec::new();
    let mut cur: Vec<char> = Vec::new();
    let mut i: usize = 0;
    while i < s.len()
        invariant
            i <= s@.len(),
            (done.deep_view(), cur@) == lines_scan(s@.take(i as int)),
        decreases s@.len() - i,
    {
        let c = s[i];
        proof {
            assert(s@.take(i + 1).drop_last() =~= s@.take(i as int));
            assert(s@.take(i + 1).last() == c);
        }
        if c == '\n' {
            let l = strip_cr_vec(cur);
            push_line(&mut done, l);
            cur = Vec::new();
        } else {
            cur.push(c);
        }
        i += 1;
    }
    assert(s@.take(s@.len() as int) =~= s@);
    if cur.len() > 0 {
        push_line(&mut done, cur);
    }
    done
}

/// Message when no line answered `tools/list`.
pub const NO_TOOLS_LIST: &'static str = "no tools/list response on stdout";

/// Message when the server died while listing its tools.
pub const SERVER_PANICKED: &'static str = "server panicked during tools/list (outdated build?)";

/// Message when no line carried the offline failure of `tools/call`.
pub const NO_OFFLINE_SIGNAL: &'static str =
    "no tools/call offline failure signal on stdout (expected isError or ok:false)";

/// The tool count of the first line that mentions `"tools"` and whose
/// `result.tools` is an array; a line that mentions it but is no JSON ends
/// the search with the parser's message.
pub open spec fn scan_tools(lines: Seq<Seq<char>>) -> Result<nat, Seq<char>>
    decreases lines.len(),
{
    if lines.len() == 0 {
        Err(NO_TOOLS_LIST@)
    } else {
        let l = lines[0];
        if !is_substring("\"tools\""@, l) {
            scan_tools(lines.drop_first())
        } else {
            match json_parse_result(l) {
                Err(e) => Err(e),
                Ok(_) => match json_pointer_kind(l, "/result/tools"@) {
                    JsonKind::Array(n) => Ok(n as nat),
                    _ => scan_tools(lines.drop_first()),
                },
            }
        }
    }
}

/// How many tools an MCP server listed, from its exit status and its
/// output streams (already decoded).
pub open spec fn spec_tools_list_count(success: bool, out: Seq<char>, err: Seq<char>) -> Result<
    nat,
    Seq<char>,
> {
    if !success && (is_substring("Invalid output schema"@, err) || is_substring(
        "panicked"@,
        err,
    )) {
        Err(SERVER_PANICKED@)
    } else if !success && err.len() > 0 {
        Err(trim(err))
    } else {
        scan_tools(text_lines(out))
    }
}

/// The view of a count result.
pub open spec fn count_view(r: Result<usize, String>) -> Result<nat, Seq<char>> {
    match r {
        Ok(n) => Ok(n as nat),
        Err(e) => Err(e@),
    }
}

/// The number of tools an MCP server answered to `tools/list`, read from
/// the exit status and the raw stdout and stderr of the server process.
pub fn parse_tools_list_count(success: bool, stdout: &[u8], stderr: &[u8]) -> (r: Result<
    usize,
    String,
>)
    ensures
        count_view(r) == spec_tools_list_count(success, utf8_lossy(stdout@), utf8_lossy(stderr@)),
{
    let out = lossy_text(stdout);
    let err = lossy_text(stderr);
    tools_list_count_from_text(success, out.as_str(), err.as_str())
}

/// The number of tools an MCP server answered to `tools/list`, from its
/// exit status and its decoded stdout and stderr.
pub fn tools_list_count_from_text(success: bool, stdout: &str, stderr: &str) -> (r: Result<
    usize,
    String,
>)
    ensures
        count_view(r) == spec_tools_list_count(success, stdout@, stderr@),
{
    if !success {
        let err = chars_of(stderr);
        let schema = chars_of("Invalid output schema");
        let panicked = chars_of("panicked");
        if contains_chars(&err, &schema) || contains_chars(&err, &panicked) {
            return Err(String::from_str(SERVER_PANICKED));
        }
        if err.len() > 0 {
            let t = trim_chars(&err);
            return Err(string_from_chars(&t));
        }
    }
    let out = chars_of(stdout);
    let lines = split_lines(&out);
    let tools = chars_of("\"tools\"");
    let ghost all = lines.deep_view();
    assert(all.skip(0) =~= all);
    let mut i: usize = 0;
    while i < lines.len()
        invariant
            i <= lines@.len(),
            all == lines.deep_view(),
            all == text_lines(stdout@),
            tools@ == "\"tools\""@,
            spec_tools_list_count(success, stdout@, stderr@) == scan_tools(
                all.skip(i as int),
            ),
        decreases lines@.len() - i,
    {
        let ghost rest = all.skip(i as int);
        proof {
            assert(rest.drop_first() =~= all.skip(i + 1));
            assert(rest[0] == lines[i as int]@);
        }
        if contains_chars(&lines[i], &tools) {
            let line = string_from_chars(&lines[i]);
            match json_parse(line.as_str()) {
                Err(e) => {
                    return Err(e);
                },
                Ok(doc) => {
                    match json_pointer(&doc, "/result/tools") {
                        JsonKind::Array(n) => {
                            return Ok(n);
                        },
                        _ => {},
                    }
                },
            }
        }
        i += 1;
    }
    Err(String::from_str(NO_TOOLS_LIST))
}

/// A `tools/call` answer for `pause_recording` that reports the offline
/// capture service: `isError` (or `is_error`) is `true`, or its structured
/// content (`structuredContent`, else `structured_content`) has `ok: false`
/// and an `error`.
pub open spec fn signals_offline(l: Seq<char>) -> bool {
    &&& is_substring("pause_recording"@, l)
    &&& json_parse_result(l) is Ok
    &&& json_pointer_kind(l, "/result"@) != JsonKind::Missing
    &&& {
        ||| json_pointer_kind(l, "/result/isError"@) == JsonKind::Bool(true)
        ||| json_pointer_kind(l, "/result/is_error"@) == JsonKind::Bool(true)
        ||| {
            &&& json_pointer_kind(l, "/result/structuredContent"@) != JsonKind::Missing
            &&& json_pointer_kind(l, "/result/structuredContent/ok"@) == JsonKind::Bool(false)
            &&& json_pointer_kind(l, "/result/structuredContent/error"@) != JsonKind::Missing
        }
        ||| {
            &&& json_pointer_kind(l, "/result/structuredContent"@) == JsonKind::Missing
            &&& json_pointer_kind(l, "/result/structured_content"@) != JsonKind::Missing
            &&& json_pointer_kind(l, "/result/structured_content/ok"@) == JsonKind::Bool(false)
            &&& json_pointer_kind(l, "/result/structured_content/error"@) != JsonKind::Missing
        }
    }
}

fn is_bool(k: JsonKind, b: bool) -> (r: bool)
    ensures
        r == (k == JsonKind::Bool(b)),
{
    match k {
        JsonKind::Bool(x) => x == b,
        _ => false,
    }
}

fn is_missing(k: JsonKind) -> (r: bool)
    ensures
        r == (k == JsonKind::Missing),
{
    match k {
        JsonKind::Missing => true,
        _ => false,
    }
}

fn line_signals_offline(line: &Vec<char>) -> (r: bool)
    ensures
        r == signals_offline(line@),
{
    let needle = chars_of("pause_recording");
    if !contains_chars(line, &needle) {
        return false;
    }
    let text = string_from_chars(line);
    let doc = match json_parse(text.as_str()) {
        Ok(d) => d,
        Err(_) => {
            return false;
        },
    };
    if is_missing(json_pointer(&doc, "/result")) {
        return false;
    }
    if is_bool(json_pointer(&doc, "/result/isError"), true) || is_bool(
        json_pointer(&doc, "/result/is_error"),
        true,
    ) {
        return true;
    }
    if !is_missing(json_pointer(&doc, "/result/structuredContent")) {
        is_bool(json_pointer(&doc, "/result/structuredContent/ok"), false) && !is_missing(
            json_pointer(&doc, "/result/structuredContent/error"),
        )
    } else if !is_missing(json_pointer(&doc, "/result/structured_content")) {
        is_bool(json_pointer(&doc, "/result/structured_content/ok"), false) && !is_missing(
            json_pointer(&doc, "/result/structured_content/error"),
        )
    } else {
        false
    }
}

/// Some line of the output signals the offline capture service.
pub open spec fn spec_offline_signalled(out: Seq<char>) -> bool {
    exists|i: int| 0 <= i < text_lines(out).len() && signals_offline(#[trigger] text_lines(out)[i])
}

/// Whether a `tools/call` of `pause_recording`, made with no capture
/// service running, reported the failure as an MCP error, read from the raw
/// stdout of the server process.
pub fn parse_tools_call_is_error(stdout: &[u8]) -> (r: Result<(), String>)
    ensures
        r is Ok <==> spec_offline_signalled(utf8_lossy(stdout@)),
        r matches Err(e) ==> e@ == NO_OFFLINE_SIGNAL@,
{
    let out = lossy_text(stdout);
    offline_signal_in_text(out.as_str())
}

/// Whether the decoded stdout of a `tools/call` of `pause_recording` holds
/// a line reporting the offline capture service as an MCP error.
pub fn offline_signal_in_text(stdout: &str) -> (r: Result<(), String>)
    ensures
        r is Ok <==> spec_offline_signalled(stdout@),
        r matches Err(e) ==> e@ == NO_OFFLINE_SIGNAL@,
{
    let out = chars_of(stdout);
    let lines = split_lines(&out);
    let mut i: usize = 0;
    while i < lines.len()
        invariant
            i <= lines@.len(),
            lines.deep_view() == text_lines(stdout@),
            forall|j: int| 0 <= j < i ==> !signals_offline(#[trigger] lines.deep_view()[j]),
        decreases lines@.len() - i,
    {
        assert(lines.deep_view()[i as int] == lines[i as int]@);
        if line_signals_offline(&lines[i]) {
            return Ok(());
        }
        i += 1;
    }
    Err(String::from_str(NO_OFFLINE_SIGNAL))
}

/// The first line of a lookup's output, trimmed, when the lookup succeeded
/// and the line is not blank.
pub open spec fn spec_path_from_lookup(success: bool, out: Seq<char>) -> Option<Seq<char>> {
    let lines = text_lines(out);
    if success && lines.len() > 0 && trim(lines[0]).len() > 0 {
        Some(trim(lines[0]))
    } else {
        None
    }
}

/// The first `dayrecord` executable that `which` (or `where`) printed,
/// from the exit status and raw stdout of the lookup.
pub fn path_from_lookup(success: bool, stdout: &[u8]) -> (r: Option<String>)
    ensures
        opt_view(r) == spec_path_from_lookup(success, utf8_lossy(stdout@)),
{
    let text = lossy_text(stdout);
    path_from_lookup_text(success, text.as_str())
}

/// The first executable a lookup printed, from its exit status and decoded
/// stdout.
pub fn path_from_lookup_text(success: bool, stdout: &str) -> (r: Option<String>)
    ensures
        opt_view(r) == spec_path_from_lookup(success, stdout@),
{
    if !success {
        return None;
    }
    let chars = chars_of(stdout);
    let lines = split_lines(&chars);
    if lines.len() == 0 {
        return None;
    }
    assert(lines.deep_view()[0] == lines[0]@);
    let t = trim_chars(&lines[0]);
    if t.len() == 0 {
        None
    } else {
        Some(string_from_chars(&t))
    }
}

/// The first line of a `--version` output, trimmed, when the command
/// succeeded and printed a line.
pub open spec fn spec_version_from_output(success: bool, out: Seq<char>) -> Option<Seq<char>> {
    let lines = text_lines(out);
    if success && lines.len() > 0 {
        Some(trim(lines[0]))
    } else {
        None
    }
}

/// The version an executable reported, from the exit status and raw
/// stdout of its `--version` run.
pub fn version_from_output(success: bool, stdout: &[u8]) -> (r: Option<String>)
    ensures
        opt_view(r) == spec_version_from_output(success, utf8_lossy(stdout@)),
{
    let text = lossy_text(stdout);
    version_from_text(success, text.as_str())
}

/// The version an executable reported, from the exit status and decoded
/// stdout of its `--version` run.
pub fn version_from_text(success: bool, stdout: &str) -> (r: Option<String>)
    ensures
        opt_view(r) == spec_version_from_output(success, stdout@),
{
    if !success {
        return None;
    }
    let chars = chars_of(stdout);
    let lines = split_lines(&chars);
    if lines.len() == 0 {
        return None;
    }
    assert(lines.deep_view()[0] == lines[0]@);
    let t = trim_chars(&lines[0]);
    Some(string_from_chars(&t))
}


/// Number of tools a current MCP server lists.
pub const EXPECTED_MCP_TOOLS: usize = 10;

/// First warning line when PATH leads to another binary.
pub const WARN_OTHER_BINARY: &'static str =
    "warning: PATH points to a different binary than this executable.";

/// Second warning line when PATH leads to another binary.
pub const WARN_OTHER_BINARY_HINT: &'static str =
    "         Update MCP `command` to the intended path, or align PATH.";

/// Advice when the PATH binary reports another version.
pub const REINSTALL_HINT: &'static str =
    "         Reinstall with `cargo install --path crates/dayrecord-cli --force`";

/// Second line of that advice.
pub const UNLOCK_HINT: &'static str = "         (disable MCP first if the file is locked).";

/// Explanation of a failed `tools/list` probe of the PATH binary.
pub const OUTDATED_HINT: &'static str =
    "         This usually means an outdated binary (tools/list schema panic).";

/// Lines printed when no `dayrecord` is on PATH.
pub const PATH_NOT_FOUND: &'static str = "PATH executable: (not found)";

/// Advice printed when no `dayrecord` is on PATH.
pub const PATH_HINT: &'static str = "hint: add dayrecord to PATH or use an absolute path in MCP config.";

/// Explanation of a failed offline probe of a control tool.
pub const CONTROL_HINT: &'static str =
    "         Control tools should report IPC offline via isError or ok:false + error.";

/// What the doctor learned about the `dayrecord` found on PATH.
#[derive(Debug)]
pub struct PathProbe {
    /// Its canonical path, as displayed.
    pub exe: String,
    /// What its `--version` printed, when it ran.
    pub version: Option<String>,
    /// It is the running executable.
    pub same_as_this: bool,
    /// Its `tools/list` probe.
    pub tools: Result<usize, String>,
}

/// What the doctor learned before its verdict on this executable.
#[derive(Debug)]
pub struct DoctorFacts {
    /// The version of this build.
    pub version: String,
    /// The running executable's canonical path, as displayed.
    pub this_exe: String,
    /// What the running executable's `--version` printed, when it ran.
    pub this_version: Option<String>,
    /// The `dayrecord` on PATH, when there is one.
    pub on_path: Option<PathProbe>,
    /// The `tools/list` probe of this executable.
    pub this_tools: Result<usize, String>,
}

/// Lines to print, and the failure that ends the diagnosis, if any.
#[derive(Debug)]
pub struct DoctorReport {
    pub lines: Vec<String>,
    pub failure: Option<String>,
}

/// The text of an optional string, or a default.
pub open spec fn or_text(o: Option<String>, d: Seq<char>) -> Seq<char> {
    match o {
        Some(s) => s@,
        None => d,
    }
}

/// The lines about the `dayrecord` on PATH.
pub open spec fn spec_path_lines(version: Seq<char>, p: Option<PathProbe>) -> Seq<Seq<char>> {
    match p {
        None => seq![PATH_NOT_FOUND@, PATH_HINT@],
        Some(p) => {
            let ver = or_text(p.version, "(unknown)"@);
            seq!["PATH executable: "@ + p.exe@, "PATH --version:  "@ + ver] + (if p.same_as_this {
                Seq::empty()
            } else {
                seq![""@, WARN_OTHER_BINARY@, WARN_OTHER_BINARY_HINT@]
            }) + (if is_substring(version, ver) {
                Seq::empty()
            } else {
                seq![
                    ""@,
                    "warning: PATH binary version may not match this build ("@ + version + ")."@,
                    REINSTALL_HINT@,
                    UNLOCK_HINT@,
                ]
            }) + match p.tools {
                Ok(n) => seq!["PATH MCP tools/list: "@ + spec_decimal(n as nat) + " tools"@],
                Err(e) => seq!["PATH MCP tools/list: FAILED ("@ + e@ + ")"@, OUTDATED_HINT@],
            }
        },
    }
}

/// The verdict on this executable's `tools/list` probe: a line, or the
/// failure that ends the diagnosis.
pub open spec fn spec_this_tools(t: Result<usize, String>) -> (Seq<Seq<char>>, Option<Seq<char>>) {
    match t {
        Ok(n) => if n >= EXPECTED_MCP_TOOLS {
            (seq!["this MCP tools/list: "@ + spec_decimal(n as nat) + " tools (ok)"@], None)
        } else {
            (
                seq![
                    "this MCP tools/list: "@ + spec_decimal(n as nat) + " tools (expected "@
                        + spec_decimal(EXPECTED_MCP_TOOLS as nat) + ")"@,
                ],
                None,
            )
        },
        Err(e) => (Seq::empty(), Some("this binary failed MCP tools/list probe: "@ + e@)),
    }
}

/// The first part of the diagnosis: versions, PATH, and the `tools/list`
/// verdict on this executable.
pub open spec fn spec_doctor_head(f: DoctorFacts) -> (Seq<Seq<char>>, Option<Seq<char>>) {
    let head = seq![
        "dayrecord version: "@ + f.version@,
        "this executable: "@ + f.this_exe@,
        "this --version:  "@ + or_text(f.this_version, f.version@),
    ];
    let (t, failure) = spec_this_tools(f.this_tools);
    (head + spec_path_lines(f.version@, f.on_path) + t, failure)
}

/// The last part of the diagnosis: the offline `tools/call` probe and the
/// daemon autostart probe.
pub open spec fn spec_doctor_tail(control: Result<(), String>, autostart: Result<(), String>) -> Seq<
    Seq<char>,
> {
    (match control {
        Ok(()) => seq!["this MCP tools/call offline signal: ok (isError or ok:false)"@],
        Err(e) => if is_substring("skipped"@, e@) {
            seq!["this MCP tools/call offline signal: "@ + e@]
        } else {
            seq!["this MCP tools/call offline signal: FAILED ("@ + e@ + ")"@, CONTROL_HINT@]
        },
    }) + match autostart {
        Ok(()) => seq!["daemon autostart + IPC: ok"@],
        Err(e) => seq!["daemon autostart + IPC: skipped or failed ("@ + e@ + ")"@],
    }
}

fn cat2(a: &str, b: &str) -> (s: String)
    ensures
        s@ == a@ + b@,
{
    let mut s = String::from_str(a);
    s.append(b);
    s
}

fn cat3(a: &str, b: &str, c: &str) -> (s: String)
    ensures
        s@ == a@ + b@ + c@,
{
    let mut s = String::from_str(a);
    s.append(b);
    s.append(c);
    s
}

fn push_text(lines: &mut Vec<String>, t: String)
    ensures
        final(lines).deep_view() == old(lines).deep_view().push(t@),
{
    let ghost before = lines@;
    let ghost tv = t@;
    lines.push(t);
    proof {
        let d = lines.deep_view();
        assert forall|k: int| 0 <= k < before.len() implies d[k] == old(lines).deep_view()[k] by {
            assert(lines@[k] == before[k]);
        }
        assert(d =~= old(lines).deep_view().push(tv));
    }
}

fn text_or(o: &Option<String>, d: &str) -> (s: String)
    ensures
        s@ == or_text(*o, d@),
{
    match o {
        Some(t) => t.clone(),
        None => String::from_str(d),
    }
}

fn path_lines(version: &str, p: &Option<PathProbe>) -> (lines: Vec<String>)
    ensures
        lines.deep_view() == spec_path_lines(version@, *p),
{
    let mut lines: Vec<String> = Vec::new();
    match p {
        None => {
            push_text(&mut lines, String::from_str(PATH_NOT_FOUND));
            push_text(&mut lines, String::from_str(PATH_HINT));
            assert(lines.deep_view() =~= spec_path_lines(version@, *p));
        },
        Some(p) => {
            let ver = text_or(&p.version, "(unknown)");
            push_text(&mut lines, cat2("PATH executable: ", p.exe.as_str()));
            push_text(&mut lines, cat2("PATH --version:  ", ver.as_str()));
            let ghost a = lines.deep_view();
            if !p.same_as_this {
                push_text(&mut lines, String::from_str(""));
                push_text(&mut lines, String::from_str(WARN_OTHER_BINARY));
                push_text(&mut lines, String::from_str(WARN_OTHER_BINARY_HINT));
            }
            let ghost b = lines.deep_view();
            let vc = chars_of(ver.as_str());
            let wc = chars_of(version);
            if !contains_chars(&vc, &wc) {
                push_text(&mut lines, String::from_str(""));
                push_text(
                    &mut lines,
                    cat3("warning: PATH binary version may not match this build (", version, ")."),
                );
                push_text(&mut lines, String::from_str(REINSTALL_HINT));
                push_text(&mut lines, String::from_str(UNLOCK_HINT));
            }
            let ghost c = lines.deep_view();
            match &p.tools {
                Ok(n) => {
                    let d = decimal_string(*n);
                    push_text(&mut lines, cat3("PATH MCP tools/list: ", d.as_str(), " tools"));
                },
                Err(e) => {
                    push_text(&mut lines, cat3("PATH MCP tools/list: FAILED (", e.as_str(), ")"));
                    push_text(&mut lines, String::from_str(OUTDATED_HINT));
                },
            }
            proof {
                let s1: Seq<Seq<char>> = seq!["PATH executable: "@ + p.exe@, "PATH --version:  "@ + ver@];
                let s2: Seq<Seq<char>> = if p.same_as_this {
                    Seq::empty()
                } else {
                    seq![""@, WARN_OTHER_BINARY@, WARN_OTHER_BINARY_HINT@]
                };
                let s3: Seq<Seq<char>> = if is_substring(version@, ver@) {
                    Seq::empty()
                } else {
                    seq![
                        ""@,
                        "warning: PATH binary version may not match this build ("@ + version@
                            + ")."@,
                        REINSTALL_HINT@,
                        UNLOCK_HINT@,
                    ]
                };
                assert(a =~= s1);
                assert(b =~= s1 + s2);
                assert(c =~= s1 + s2 + s3);
                assert(lines.deep_view() =~= spec_path_lines(version@, Some(*p)));
            }
        },
    }
    lines
}

/// The first part of `dayrecord doctor mcp`: the lines on versions, on the
/// `dayrecord` found on PATH and on this executable's `tools/list` probe,
/// and the failure that ends the diagnosis when that probe failed.
pub fn doctor_head(facts: &DoctorFacts) -> (r: DoctorReport)
    ensures
        (r.lines.deep_view(), opt_view(r.failure)) == spec_doctor_head(*facts),
{
    let mut lines: Vec<String> = Vec::new();
    push_text(&mut lines, cat2("dayrecord version: ", facts.version.as_str()));
    push_text(&mut lines, cat2("this executable: ", facts.this_exe.as_str()));
    let this_ver = text_or(&facts.this_version, facts.version.as_str());
    push_text(&mut lines, cat2("this --version:  ", this_ver.as_str()));
    let ghost head = lines.deep_view();
    let path = path_lines(facts.version.as_str(), &facts.on_path);
    let mut k: usize = 0;
    while k < path.len()
        invariant
            k <= path@.len(),
            lines.deep_view() == head + path.deep_view().take(k as int),
        decreases path@.len() - k,
    {
        push_text(&mut lines, path[k].clone());
        assert(lines.deep_view() =~= head + path.deep_view().take(k + 1));
        k += 1;
    }
    assert(path.deep_view().take(path@.len() as int) =~= path.deep_view());
    let ghost mid = lines.deep_view();
    let failure = match &facts.this_tools {
        Ok(n) => {
            let d = decimal_string(*n);
            if *n >= EXPECTED_MCP_TOOLS {
                push_text(&mut lines, cat3("this MCP tools/list: ", d.as_str(), " tools (ok)"));
            } else {
                let want = decimal_string(EXPECTED_MCP_TOOLS);
                let mut t = cat3("this MCP tools/list: ", d.as_str(), " tools (expected ");
                t.append(want.as_str());
                t.append(")");
                push_text(&mut lines, t);
            }
            None
        },
        Err(e) => Some(cat2("this binary failed MCP tools/list probe: ", e.as_str())),
    };
    proof {
        let (t, f) = spec_this_tools(facts.this_tools);
        assert(head =~= seq![
            "dayrecord version: "@ + facts.version@,
            "this executable: "@ + facts.this_exe@,
            "this --version:  "@ + or_text(facts.this_version, facts.version@),
        ]);
        assert(lines.deep_view() =~= mid + t);
    }
    DoctorReport { lines, failure }
}

/// The last part of `dayrecord doctor mcp`: the lines on the offline
/// `tools/call` probe (informational when it was skipped) and on the daemon
/// autostart probe.
pub fn doctor_tail(control: &Result<(), String>, autostart: &Result<(), String>) -> (lines: Vec<
    String,
>)
    ensures
        lines.deep_view() == spec_doctor_tail(*control, *autostart),
{
    let mut lines: Vec<String> = Vec::new();
    match control {
        Ok(()) => {
            push_text(
                &mut lines,
                String::from_str("this MCP tools/call offline signal: ok (isError or ok:false)"),
            );
        },
        Err(e) => {
            let ec = chars_of(e.as_str());
            let skipped = chars_of("skipped");
            if contains_chars(&ec, &skipped) {
                push_text(&mut lines, cat2("this MCP tools/call offline signal: ", e.as_str()));
            } else {
                push_text(
                    &mut lines,
                    cat3("this MCP tools/call offline signal: FAILED (", e.as_str(), ")"),
                );
                push_text(&mut lines, String::from_str(CONTROL_HINT));
            }
        },
    }
    match autostart {
        Ok(()) => {
            push_text(&mut lines, String::from_str("daemon autostart + IPC: ok"));
        },
        Err(e) => {
            push_text(&mut lines, cat3("daemon autostart + IPC: skipped or failed (", e.as_str(), ")"));
        },
    }
    assert(lines.deep_view() =~= spec_doctor_tail(*control, *autostart));
    lines
}


/// The number spelled by decimal digits.
pub open spec fn digits_value(d: Seq<char>) -> int
    decreases d.len(),
{
    if d.len() == 0 {
        0
    } else {
        digits_value(d.drop_last()) * 10 + (d.last() as int - '0' as int)
    }
}

/// Every character is an ASCII decimal digit.
pub open spec fn all_decimal(d: Seq<char>) -> bool {
    forall|i: int| 0 <= i < d.len() ==> '0' <= #[trigger] d[i] <= '9'
}

/// `u32::from_str` as the standard library documents it: an optional `+`
/// followed by at least one decimal digit and nothing else, of a value that
/// fits in a `u32`.
pub open spec fn spec_parse_u32(s: Seq<char>) -> Option<u32> {
    let d = if s.len() > 0 && s[0] == '+' {
        s.drop_first()
    } else {
        s
    };
    if d.len() > 0 && all_decimal(d) && digits_value(d) <= u32::MAX {
        Some(digits_value(d) as u32)
    } else {
        None
    }
}

/// The message of the `ParseIntError` that `u32::from_str` gives for `s`.
pub uninterp spec fn u32_parse_error(s: Seq<char>) -> Seq<char>;

/// Calls `str::parse::<u32>`. Claims what the standard library documents of
/// `u32::from_str`: it succeeds exactly on an optional `+` followed by
/// decimal digits only whose value fits in a `u32`, with that value; the
/// error's message is named by `u32_parse_error`.
#[verifier::external_body]
fn parse_u32(s: &str) -> (r: Result<u32, String>)
    ensures
        match r {
            Ok(n) => spec_parse_u32(s@) == Some(n),
            Err(e) => spec_parse_u32(s@) is None && e@ == u32_parse_error(s@),
        },
{
    s.parse::<u32>().map_err(|e| e.to_string())
}

/// The process id held in the capture service's pid file: the file's text
/// without surrounding whitespace, read as a `u32`.
pub fn pid_from_file(content: &str) -> (r: Result<u32, String>)
    ensures
        match r {
            Ok(n) => spec_parse_u32(trim(content@)) == Some(n),
            Err(e) => spec_parse_u32(trim(content@)) is None && e@ == u32_parse_error(
                trim(content@),
            ),
        },
{
    let c = chars_of(content);
    let t = trim_chars(&c);
    let s = string_from_chars(&t);
    parse_u32(s.as_str())
}


/// Whenever what the `dayrecord` on PATH reports as its version (or
/// "(unknown)" when it reported none) does not contain this build's
/// version, its lines warn of it, after a blank line and followed by the
/// reinstall and unlock hints, right after the different-binary warning if
/// there is one; when it does contain it, the lines are those without the
/// warning. The diagnosis head carries the same lines after its three
/// version lines.
pub proof fn lemma_path_version_warning(f: DoctorFacts, p: PathProbe)
    requires
        f.on_path == Some(p),
    ensures
        ({
            let version = f.version@;
            let reported = match p.version {
                Some(v) => v@,
                None => "(unknown)"@,
            };
            let warning = "warning: PATH binary version may not match this build ("@ + version
                + ")."@;
            let lines = spec_path_lines(version, Some(p));
            let k: int = if p.same_as_this { 2 } else { 5 };
            &&& !is_substring(version, reported) ==> {
                &&& k + 3 < lines.len()
                &&& lines[k] == ""@
                &&& lines[k + 1] == warning
                &&& lines[k + 2] == REINSTALL_HINT@
                &&& lines[k + 3] == UNLOCK_HINT@
                &&& lines.contains(warning)
                &&& spec_doctor_head(f).0[3 + k + 1] == warning
                &&& spec_doctor_head(f).0.contains(warning)
            }
            &&& is_substring(version, reported) ==> lines.len() == k + match p.tools {
                Ok(_) => 1int,
                Err(_) => 2int,
            }
        }),
{
    let version = f.version@;
    let reported = match p.version {
        Some(v) => v@,
        None => "(unknown)"@,
    };
    let warning = "warning: PATH binary version may not match this build ("@ + version + ")."@;
    let lines = spec_path_lines(version, Some(p));
    let k: int = if p.same_as_this { 2 } else { 5 };
    assert(reported == or_text(p.version, "(unknown)"@));
    if !is_substring(version, reported) {
        assert(lines[k + 1] == warning);
        assert(lines.contains(warning));
        let head = spec_doctor_head(f).0;
        assert(head[3 + k + 1] == lines[k + 1]);
        assert(head.contains(warning));
    }
}
} // verus!
