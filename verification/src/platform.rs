//! Platform adapters as plain handles: window samplers, clipboards, context
//! samplers and the system clock, with the naming rules of the active
//! window sampler.

use vstd::prelude::*;
use crate::uia_common::opt_view;

verus! {

broadcast use vstd::string::group_string_axioms;

/// Clipboard double holding a fixed text.
pub struct MockClipboard {
    pub text: Option<String>,
}

impl MockClipboard {
    /// A clipboard that always holds `text`.
    pub fn new(text: Option<String>) -> (c: Self)
        ensures
            c.text == text,
    {
        MockClipboard { text }
    }

    /// The held text.
    pub fn read_text(&self) -> (r: Result<Option<String>, String>)
        ensures
            r matches Ok(t) && opt_view(t) == opt_view(self.text),
    {
        match &self.text {
            Some(t) => Ok(Some(t.clone())),
            None => Ok(None),
        }
    }
}

/// The system clipboard (`arboard`); reading it is I/O done by the
/// application.
pub struct ArboardClipboard;

/// The clipboard used on every platform.
pub fn platform_clipboard() -> (c: ArboardClipboard) {
    ArboardClipboard
}

/// The cross-platform active-window sampler (`active-win-pos-rs`).
pub struct ActiveWindowSampler;

/// The window sampler used on every platform.
pub fn platform_window_sampler() -> (s: ActiveWindowSampler) {
    ActiveWindowSampler
}

/// The Win32 foreground-window sampler.
pub struct WinWindowSampler;

/// Sampler that reports a fixed window, for platforms without one.
pub struct StubWindowSampler;

impl StubWindowSampler {
    /// Always `("stub", "stub")`.
    pub fn sample(&self) -> (r: (String, String))
        ensures
            r.0@ == "stub"@,
            r.1@ == "stub"@,
    {
        (String::from_str("stub"), String::from_str("stub"))
    }
}

/// What the active-window query returned.
pub struct ActiveWindowInfo {
    pub app_name: String,
    /// The file name of the process executable, when it is valid UTF-8.
    pub process_file_name: Option<String>,
    pub title: String,
}

/// The `(application, title)` labels of a window sample: the application
/// name, or else the executable's file name, or `unknown`; the title, or
/// `unknown` when empty; both `unknown` when the query failed.
pub open spec fn spec_window_labels(info: Option<(Seq<char>, Option<Seq<char>>, Seq<char>)>) -> (
    Seq<char>,
    Seq<char>,
) {
    match info {
        None => ("unknown"@, "unknown"@),
        Some((app, file, title)) => (
            if app.len() > 0 {
                app
            } else {
                match file {
                    Some(f) => f,
                    None => "unknown"@,
                }
            },
            if title.len() > 0 {
                title
            } else {
                "unknown"@
            },
        ),
    }
}

/// The view of a window query result.
pub open spec fn info_view(info: Option<ActiveWindowInfo>) -> Option<(Seq<char>, Option<Seq<char>>, Seq<char>)> {
    match info {
        Some(i) => Some((i.app_name@, opt_view(i.process_file_name), i.title@)),
        None => None,
    }
}

/// Labels of the active window from the query result.
pub fn window_labels(info: Option<ActiveWindowInfo>) -> (r: (String, String))
    ensures
        (r.0@, r.1@) == spec_window_labels(info_view(info)),
{
    match info {
        None => (String::from_str("unknown"), String::from_str("unknown")),
        Some(w) => {
            let app = if w.app_name.as_str().is_empty() {
                match w.process_file_name {
                    Some(f) => f,
                    None => String::from_str("unknown"),
                }
            } else {
                w.app_name
            };
            let title = if w.title.as_str().is_empty() {
                String::from_str("unknown")
            } else {
                w.title
            };
            (app, title)
        },
    }
}

/// Windows UI Automation context sampler.
pub struct WinContextSampler;

/// Linux AT-SPI context sampler, built without AT-SPI support.
pub struct LinuxContextSampler;

impl LinuxContextSampler {
    /// Without AT-SPI support no screen text is available.
    pub fn sample_context(&self) -> (r: Option<String>)
        ensures
            r is None,
    {
        None
    }
}

/// macOS Accessibility context sampler, built without AX support.
pub struct MacContextSampler;

impl MacContextSampler {
    /// Without AX support no screen text is available.
    pub fn sample_context(&self) -> (r: Option<String>)
        ensures
            r is None,
    {
        None
    }
}

/// Keyboard capture through the platform hook.
pub struct PlatformKeyboardCapture;

/// The calendar date `YYYY-MM-DD` (UTC) of a time in milliseconds since the
/// epoch, as `chrono` formats it; `None` outside chrono's date range.
pub uninterp spec fn utc_date_label(millis: i64) -> Option<Seq<char>>;

/// Calls `std::time::UNIX_EPOCH.elapsed()` (`SystemTime::elapsed`: the
/// wall clock measured from 1970-01-01T00:00:00Z) and converts the duration
/// to whole milliseconds. Nothing is claimed of the value: it is the
/// machine's clock, and `None` when the clock is set before the epoch.
#[verifier::external_body]
fn millis_since_epoch() -> (r: Option<u128>) {
    std::time::UNIX_EPOCH.elapsed().ok().map(|d| d.as_millis())
}

/// `chrono::DateTime::format("%Y-%m-%d")` of the UTC time of `millis`
/// (through `DateTime::from_timestamp_millis`).
#[verifier::external_body]
fn format_utc_date(millis: i64) -> (r: Option<String>)
    ensures
        opt_view(r) == utc_date_label(millis),
{
    match chrono::DateTime::from_timestamp_millis(millis) {
        Some(d) => Some(d.format("%Y-%m-%d").to_string()),
        None => None,
    }
}

/// The UTC calendar date of a time in milliseconds, if chrono can represent it.
pub fn utc_date(millis: i64) -> (r: Option<String>)
    ensures
        opt_view(r) == utc_date_label(millis),
{
    format_utc_date(millis)
}

/// The wall clock.
pub struct SystemClock;

impl SystemClock {
    /// The current time in UTC milliseconds since the epoch; `None` when the
    /// clock reads before 1970 or beyond what an `i64` of milliseconds holds.
    pub fn now_millis(&self) -> (r: Option<i64>)
        ensures
            r matches Some(m) ==> m >= 0,
    {
        match millis_since_epoch() {
            Some(m) => if m <= 0x7fff_ffff_ffff_ffffu128 {
                Some(m as i64)
            } else {
                None
            },
            None => None,
        }
    }

    /// Today's UTC date as `YYYY-MM-DD`; `None` when the clock cannot be
    /// read as a time after the epoch within chrono's date range.
    pub fn today(&self) -> (r: Option<String>)
        ensures
            r matches Some(d) ==> exists|m: i64| m >= 0 && utc_date_label(m) == Some(d@),
    {
        match self.now_millis() {
            Some(m) => utc_date(m),
            None => None,
        }
    }
}

} // verus!
