//! Decisions of the SQLite repository that do not depend on SQL itself:
//! the schema migration plan, which sessions are worth storing, the
//! full-text query built from a search string, the per-day statistics and
//! the settings that survive a data wipe.

use vstd::prelude::*;
use crate::text::{chars_of, is_ws, string_from_chars, trim, trim_chars, char_is_ws};
use crate::uia_common::opt_view;

verus! {

/// Schema version written after every migration.
pub const SCHEMA_VERSION: i32 = 3;

/// What the migration probe found in the database file.
#[derive(Debug, Clone, Copy, PartialEq, Eq, Structural)]
pub struct SchemaProbe {
    /// `PRAGMA user_version` (0 when it cannot be read).
    pub user_version: i32,
    pub sessions_table: bool,
    pub backspace_column: bool,
    pub flow_events_table: bool,
    pub task_units_table: bool,
}

/// One step of a schema migration.
#[derive(Debug, Clone, Copy, PartialEq, Eq, Structural)]
pub enum MigrationStep {
    /// Drop every DayRecord table.
    DropAll,
    /// Create the current (version 3) schema.
    CreateSchema,
    /// Add `sessions.backspace_count`.
    AddBackspaceColumn,
    /// Create the `flow_events` table and its index.
    CreateFlowEvents,
    /// Create the `task_units` table and its index.
    CreateTaskUnits,
    /// Record the schema version.
    SetUserVersion(i32),
}

/// Incremental upgrade from `from` (a version below 2, or a missing
/// sessions table, rebuilds everything).
pub open spec fn spec_incremental(from: i32, p: SchemaProbe) -> Seq<MigrationStep> {
    if from < 2 || !p.sessions_table {
        seq![MigrationStep::DropAll, MigrationStep::CreateSchema]
    } else {
        (if !p.backspace_column {
            seq![MigrationStep::AddBackspaceColumn]
        } else {
            Seq::empty()
        }) + (if !p.flow_events_table {
            seq![MigrationStep::CreateFlowEvents]
        } else {
            Seq::empty()
        }) + (if !p.task_units_table {
            seq![MigrationStep::CreateTaskUnits]
        } else {
            Seq::empty()
        })
    }
}

/// The full migration: a fresh file gets the schema, an unversioned file
/// with sessions is treated as version 2, an older version is upgraded,
/// and the version is always recorded last.
pub open spec fn spec_migration_plan(p: SchemaProbe) -> Seq<MigrationStep> {
    let body = if p.user_version == 0 {
        if p.sessions_table {
            spec_incremental(2, p)
        } else {
            seq![MigrationStep::CreateSchema]
        }
    } else if p.user_version < SCHEMA_VERSION {
        spec_incremental(p.user_version, p)
    } else {
        Seq::empty()
    };
    body.push(MigrationStep::SetUserVersion(SCHEMA_VERSION))
}

fn incremental(from: i32, p: SchemaProbe) -> (r: Vec<MigrationStep>)
    ensures
        r@ == spec_incremental(from, p),
{
    let mut steps: Vec<MigrationStep> = Vec::new();
    if from < 2 || !p.sessions_table {
        steps.push(MigrationStep::DropAll);
        steps.push(MigrationStep::CreateSchema);
        assert(steps@ =~= spec_incremental(from, p));
        return steps;
    }
    if !p.backspace_column {
        steps.push(MigrationStep::AddBackspaceColumn);
    }
    if !p.flow_events_table {
        steps.push(MigrationStep::CreateFlowEvents);
    }
    if !p.task_units_table {
        steps.push(MigrationStep::CreateTaskUnits);
    }
    assert(steps@ =~= spec_incremental(from, p));
    steps
}

/// The steps that bring the probed database to the current schema.
pub fn migration_plan(p: SchemaProbe) -> (r: Vec<MigrationStep>)
    ensures
        r@ == spec_migration_plan(p),
{
    let mut steps = if p.user_version == 0 {
        if p.sessions_table {
            incremental(2, p)
        } else {
            let mut v: Vec<MigrationStep> = Vec::new();
            v.push(MigrationStep::CreateSchema);
            v
        }
    } else if p.user_version < SCHEMA_VERSION {
        incremental(p.user_version, p)
    } else {
        Vec::new()
    };
    steps.push(MigrationStep::SetUserVersion(SCHEMA_VERSION));
    assert(steps@ =~= spec_migration_plan(p));
    steps
}

/// Existing sessions survive migration unless the file predates version 2
/// (or has no sessions table to keep); every plan ends at the current
/// version, and a current database gets nothing else.
pub proof fn lemma_migration_plan(p: SchemaProbe)
    ensures
        spec_migration_plan(p).last() == MigrationStep::SetUserVersion(SCHEMA_VERSION),
        spec_migration_plan(p).contains(MigrationStep::DropAll) <==> (p.user_version != 0
            && p.user_version < SCHEMA_VERSION && (p.user_version < 2 || !p.sessions_table)),
        p.user_version >= SCHEMA_VERSION ==> spec_migration_plan(p) == seq![
            MigrationStep::SetUserVersion(SCHEMA_VERSION),
        ],
        p.sessions_table && (p.user_version == 0 || p.user_version == 2) ==> !spec_migration_plan(
            p,
        ).contains(MigrationStep::DropAll),
{
    let plan = spec_migration_plan(p);
    if p.user_version >= SCHEMA_VERSION {
        assert(plan =~= seq![MigrationStep::SetUserVersion(SCHEMA_VERSION)]);
    }
    if plan.contains(MigrationStep::DropAll) {
        let i = choose|i: int| 0 <= i < plan.len() && plan[i] == MigrationStep::DropAll;
        assert(plan[i] == MigrationStep::DropAll);
    }
    if p.user_version != 0 && p.user_version < SCHEMA_VERSION && (p.user_version < 2
        || !p.sessions_table) {
        assert(plan[0] == MigrationStep::DropAll);
    }
}

/// A database that is upgraded in place (no rebuild) and is not yet at the
/// current version (an unversioned file with a sessions table counts as
/// version 2) gets exactly the pieces it lacks: the `backspace_count`
/// column, the `flow_events` table and the `task_units` table, each added
/// exactly when missing, and never the full schema.
pub proof fn lemma_migration_adds_missing(p: SchemaProbe)
    requires
        p.user_version < SCHEMA_VERSION,
        p.user_version != 0 || p.sessions_table,
        !spec_migration_plan(p).contains(MigrationStep::DropAll),
    ensures
        spec_migration_plan(p).contains(MigrationStep::AddBackspaceColumn) <==> !p.backspace_column,
        spec_migration_plan(p).contains(MigrationStep::CreateFlowEvents) <==> !p.flow_events_table,
        spec_migration_plan(p).contains(MigrationStep::CreateTaskUnits) <==> !p.task_units_table,
        !spec_migration_plan(p).contains(MigrationStep::CreateSchema),
        spec_migration_plan(p).last() == MigrationStep::SetUserVersion(SCHEMA_VERSION),
{
    let plan = spec_migration_plan(p);
    lemma_migration_plan(p);
    if p.user_version != 0 && (p.user_version < 2 || !p.sessions_table) {
        assert(plan[0] == MigrationStep::DropAll);
    }
    if plan.contains(MigrationStep::AddBackspaceColumn) {
        let i = choose|i: int| 0 <= i < plan.len() && plan[i] == MigrationStep::AddBackspaceColumn;
        assert(plan[i] == MigrationStep::AddBackspaceColumn);
    }
    if plan.contains(MigrationStep::CreateFlowEvents) {
        let i = choose|i: int| 0 <= i < plan.len() && plan[i] == MigrationStep::CreateFlowEvents;
        assert(plan[i] == MigrationStep::CreateFlowEvents);
    }
    if plan.contains(MigrationStep::CreateTaskUnits) {
        let i = choose|i: int| 0 <= i < plan.len() && plan[i] == MigrationStep::CreateTaskUnits;
        assert(plan[i] == MigrationStep::CreateTaskUnits);
    }
    if plan.contains(MigrationStep::CreateSchema) {
        let i = choose|i: int| 0 <= i < plan.len() && plan[i] == MigrationStep::CreateSchema;
        assert(plan[i] == MigrationStep::CreateSchema);
    }
    if !p.backspace_column {
        assert(plan[0] == MigrationStep::AddBackspaceColumn);
    }
    let a: int = if !p.backspace_column { 1 } else { 0 };
    if !p.flow_events_table {
        assert(plan[a] == MigrationStep::CreateFlowEvents);
    }
    let b: int = a + if !p.flow_events_table { 1int } else { 0int };
    if !p.task_units_table {
        assert(plan[b] == MigrationStep::CreateTaskUnits);
    }
}

/// A recorded session is kept only when its typed content or its captured
/// screen text is not blank.
pub open spec fn spec_session_worth_storing(content: Seq<char>, uia_text: Option<Seq<char>>) -> bool {
    trim(content).len() > 0 || (uia_text matches Some(t) && trim(t).len() > 0)
}

/// Whether a session is stored at all (blank sessions are skipped and
/// reported with row id 0).
pub fn session_worth_storing(content: &str, uia_text: &Option<String>) -> (r: bool)
    ensures
        r == spec_session_worth_storing(content@, opt_view(*uia_text)),
{
    let c = chars_of(content);
    let ct = trim_chars(&c);
    if ct.len() > 0 {
        return true;
    }
    match uia_text {
        Some(t) => {
            let tv = chars_of(t.as_str());
            let tt = trim_chars(&tv);
            tt.len() > 0
        },
        None => false,
    }
}

/// The maximal runs of non-whitespace characters, in order
/// (`str::split_whitespace`).
pub open spec fn words(s: Seq<char>) -> Seq<Seq<char>>
    decreases s.len(),
{
    if s.len() == 0 {
        Seq::empty()
    } else {
        let rest = words(s.drop_last());
        let c = s.last();
        if is_ws(c) {
            rest
        } else if s.len() >= 2 && !is_ws(s[s.len() - 2]) && rest.len() > 0 {
            rest.drop_last().push(rest.last().push(c))
        } else {
            rest.push(seq![c])
        }
    }
}

/// Items joined with a separator (`[&str]::join`).
pub open spec fn join_with(parts: Seq<Seq<char>>, sep: Seq<char>) -> Seq<char>
    decreases parts.len(),
{
    if parts.len() == 0 {
        Seq::empty()
    } else if parts.len() == 1 {
        parts[0]
    } else {
        join_with(parts.drop_last(), sep) + sep + parts.last()
    }
}

/// The FTS5 match expression for a search string: its words joined by `OR`.
pub open spec fn spec_fts_query(query: Seq<char>) -> Seq<char> {
    join_with(words(query), " OR "@)
}

proof fn lemma_words_last_nonempty(s: Seq<char>)
    requires
        s.len() > 0,
        !is_ws(s.last()),
    ensures
        words(s).len() > 0,
    decreases s.len(),
{
}

fn words_of(v: &Vec<char>) -> (r: Vec<Vec<char>>)
    ensures
        r.deep_view() == words(v@),
{
    let mut out: Vec<Vec<char>> = Vec::new();
    let mut cur: Vec<char> = Vec::new();
    let mut in_word = false;
    let mut i: usize = 0;
    while i < v.len()
        invariant
            i <= v@.len(),
            in_word == (i > 0 && !is_ws(v@[i - 1])),
            in_word ==> words(v@.take(i as int)) == out.deep_view().push(cur@),
            !in_word ==> words(v@.take(i as int)) == out.deep_view(),
        decreases v@.len() - i,
    {
        let c = v[i];
        let ghost pre = v@.take(i as int);
        let ghost nxt = v@.take(i + 1);
        assert(nxt.drop_last() =~= pre);
        assert(nxt.last() == c);
        if char_is_ws(c) {
            if in_word {
                let w = cur.clone();
                assert(w.deep_view() =~= cur@);
                out.push(w);
                cur = Vec::new();
                assert(out.deep_view() =~= words(pre));
            }
            in_word = false;
        } else {
            if in_word {
                assert(nxt[nxt.len() - 2] == v@[i - 1]);
                proof {
                    lemma_words_last_nonempty(pre);
                }
                cur.push(c);
                assert(words(nxt) =~= out.deep_view().push(cur@));
            } else {
                cur = Vec::new();
                cur.push(c);
                assert(cur@ =~= seq![c]);
                assert(words(nxt) =~= out.deep_view().push(cur@));
            }
            in_word = true;
        }
        i += 1;
    }
    assert(v@.take(v@.len() as int) =~= v@);
    if in_word {
        let w = cur.clone();
        assert(w.deep_view() =~= cur@);
        out.push(w);
        assert(out.deep_view() =~= words(v@));
    }
    out
}

/// The FTS5 match expression used to search facts: the words of `query`
/// joined with `" OR "`.
pub fn fts_query(query: &str) -> (r: String)
    ensures
        r@ == spec_fts_query(query@),
{
    let v = chars_of(query);
    let ws = words_of(&v);
    let sep = chars_of(" OR ");
    let mut out: Vec<char> = Vec::new();
    let mut i: usize = 0;
    while i < ws.len()
        invariant
            i <= ws@.len(),
            sep@ == " OR "@,
            out@ == join_with(ws.deep_view().take(i as int), " OR "@),
        decreases ws@.len() - i,
    {
        let ghost prev = ws.deep_view().take(i as int);
        let ghost before = out@;
        if i > 0 {
            let mut j: usize = 0;
            while j < sep.len()
                invariant
                    j <= sep@.len(),
                    out@ == before + sep@.take(j as int),
                decreases sep@.len() - j,
            {
                out.push(sep[j]);
                j += 1;
                assert(out@ =~= before + sep@.take(j as int));
            }
            assert(sep@.take(sep@.len() as int) =~= sep@);
        }
        let ghost mid = out@;
        let mut j: usize = 0;
        while j < ws[i].len()
            invariant
                i < ws@.len(),
                j <= ws@[i as int]@.len(),
                out@ == mid + ws@[i as int]@.take(j as int),
            decreases ws@[i as int]@.len() - j,
        {
            out.push(ws[i][j]);
            j += 1;
            assert(out@ =~= mid + ws@[i as int]@.take(j as int));
        }
        proof {
            assert(ws@[i as int]@.take(ws@[i as int]@.len() as int) =~= ws@[i as int]@);
            let nxt = ws.deep_view().take(i + 1);
            assert(nxt.drop_last() =~= prev);
            assert(nxt.last() == ws@[i as int]@);
            if i == 0 {
                assert(out@ =~= nxt[0]);
            } else {
                assert(out@ =~= join_with(prev, " OR "@) + " OR "@ + nxt.last());
            }
        }
        i += 1;
    }
    assert(ws.deep_view().take(ws@.len() as int) =~= ws.deep_view());
    string_from_chars(&out)
}

/// Per-day statistics shown in the status bar.
#[derive(Debug, Clone, Copy, PartialEq, Eq, Structural)]
pub struct DayStats {
    pub active_seconds: u32,
    pub session_count: u32,
    pub char_count: u32,
    pub pending_chars: u32,
}

/// Sum of a sequence of counters.
pub open spec fn sum_u32(s: Seq<u32>) -> int
    decreases s.len(),
{
    if s.len() == 0 {
        0
    } else {
        sum_u32(s.drop_last()) + s.last()
    }
}

/// Each session's character count, as the repository stores it (`u32`).
pub open spec fn char_counts(contents: Seq<Seq<char>>) -> Seq<u32> {
    contents.map_values(|c: Seq<char>| c.len() as u32)
}

proof fn lemma_sum_prefix_le(s: Seq<u32>, i: int)
    requires
        0 <= i <= s.len(),
    ensures
        sum_u32(s.take(i)) <= sum_u32(s),
        sum_u32(s.take(i)) >= 0,
    decreases s.len() - i,
{
    lemma_sum_nonneg(s.take(i));
    if i < s.len() {
        lemma_sum_prefix_le(s, i + 1);
        assert(s.take(i + 1).drop_last() =~= s.take(i));
    } else {
        assert(s.take(i) =~= s);
        lemma_sum_nonneg(s);
    }
}

proof fn lemma_sum_nonneg(s: Seq<u32>)
    ensures
        sum_u32(s) >= 0,
    decreases s.len(),
{
    if s.len() > 0 {
        lemma_sum_nonneg(s.drop_last());
    }
}

fn sum_counts(s: &Vec<u32>) -> (r: u32)
    requires
        sum_u32(s@) <= u32::MAX,
    ensures
        r == sum_u32(s@),
{
    let mut total: u32 = 0;
    let mut i: usize = 0;
    while i < s.len()
        invariant
            i <= s@.len(),
            sum_u32(s@) <= u32::MAX,
            total == sum_u32(s@.take(i as int)),
        decreases s@.len() - i,
    {
        proof {
            assert(s@.take(i + 1).drop_last() =~= s@.take(i as int));
            lemma_sum_prefix_le(s@, i + 1);
        }
        total = total + s[i];
        i += 1;
    }
    assert(s@.take(s@.len() as int) =~= s@);
    total
}

fn char_counts_of(session_contents: &Vec<String>) -> (counts: Vec<u32>)
    ensures
        counts@ == char_counts(session_contents.deep_view()),
{
    let mut counts: Vec<u32> = Vec::new();
    let mut i: usize = 0;
    while i < session_contents.len()
        invariant
            i <= session_contents@.len(),
            counts@ == char_counts(session_contents.deep_view()).take(i as int),
        decreases session_contents@.len() - i,
    {
        let n = chars_of(session_contents[i].as_str()).len();
        #[verifier::truncate]
        let c = n as u32;
        counts.push(c);
        i += 1;
        assert(counts@ =~= char_counts(session_contents.deep_view()).take(i as int));
    }
    assert(counts@ =~= char_counts(session_contents.deep_view()));
    counts
}

/// Whether the values add up to at most `u32::MAX`.
pub fn sum_fits_u32(values: &Vec<u32>) -> (r: bool)
    ensures
        r == (sum_u32(values@) <= u32::MAX),
{
    let mut total: u64 = 0;
    let mut i: usize = 0;
    while i < values.len()
        invariant
            i <= values@.len(),
            total == sum_u32(values@.take(i as int)),
            total <= u32::MAX,
        decreases values@.len() - i,
    {
        assert(values@.take(i + 1).drop_last() =~= values@.take(i as int));
        total = total + values[i] as u64;
        if total > 0xffff_ffffu64 {
            proof {
                lemma_sum_prefix_le(values@, i + 1);
            }
            return false;
        }
        i += 1;
    }
    assert(values@.take(values@.len() as int) =~= values@);
    true
}

/// Whether the character counts of the sessions (each as a `u32`) add up
/// to at most `u32::MAX`, which `day_stats` requires.
pub fn char_total_fits_u32(session_contents: &Vec<String>) -> (r: bool)
    ensures
        r == (sum_u32(char_counts(session_contents.deep_view())) <= u32::MAX),
{
    let counts = char_counts_of(session_contents);
    sum_fits_u32(&counts)
}

/// The statistics of a day from its sessions' contents and its activities'
/// durations: total active seconds, number of sessions (as a `u32`), total
/// typed characters, and the pending count passed through.
pub fn day_stats(session_contents: &Vec<String>, activity_seconds: &Vec<u32>, pending_chars: u32) -> (r:
    DayStats)
    requires
        sum_u32(activity_seconds@) <= u32::MAX,
        sum_u32(char_counts(session_contents.deep_view())) <= u32::MAX,
    ensures
        r.active_seconds == sum_u32(activity_seconds@),
        r.session_count == session_contents@.len() as u32,
        r.char_count == sum_u32(char_counts(session_contents.deep_view())),
        r.pending_chars == pending_chars,
{
    let counts = char_counts_of(session_contents);
    #[verifier::truncate]
    let session_count = session_contents.len() as u32;
    DayStats {
        active_seconds: sum_counts(activity_seconds),
        session_count,
        char_count: sum_counts(&counts),
        pending_chars,
    }
}

/// Settings kept across "clear all data", in the order they are written back.
pub open spec fn preserved_setting_names() -> Seq<Seq<char>> {
    seq!["consent"@, "hermes_export_dir"@, "auto_export"@]
}

/// The settings written back after a wipe: consent, the export directory and
/// the auto-export flag, each only if it was set.
pub open spec fn spec_settings_to_restore(
    consent: Option<Seq<char>>,
    hermes_dir: Option<Seq<char>>,
    auto_export: Option<Seq<char>>,
) -> Seq<(Seq<char>, Seq<char>)> {
    (match consent {
        Some(v) => seq![("consent"@, v)],
        None => Seq::empty(),
    }) + (match hermes_dir {
        Some(v) => seq![("hermes_export_dir"@, v)],
        None => Seq::empty(),
    }) + (match auto_export {
        Some(v) => seq![("auto_export"@, v)],
        None => Seq::empty(),
    })
}

/// A wipe writes back exactly the preserved settings that were set: the
/// consent, the export directory and the auto-export flag, in that order,
/// each under its own name with its stored value, and nothing else.
pub proof fn lemma_settings_to_restore(
    consent: Option<Seq<char>>,
    hermes_dir: Option<Seq<char>>,
    auto_export: Option<Seq<char>>,
)
    ensures
        ({
            let r = spec_settings_to_restore(consent, hermes_dir, auto_export);
            let n_c: int = if consent is Some { 1 } else { 0 };
            let n_h: int = if hermes_dir is Some { 1 } else { 0 };
            let n_a: int = if auto_export is Some { 1 } else { 0 };
            &&& r.len() == n_c + n_h + n_a
            &&& consent matches Some(c) ==> r[0] == ("consent"@, c)
            &&& hermes_dir matches Some(d) ==> r[n_c] == ("hermes_export_dir"@, d)
            &&& auto_export matches Some(a) ==> r[n_c + n_h] == ("auto_export"@, a)
        }),
{
}

/// The `(key, value)` settings to write back after every table is emptied.
pub fn settings_to_restore(consent: Option<String>, hermes_dir: Option<String>, auto_export: Option<
    String,
>) -> (r: Vec<(String, String)>)
    ensures
        r@.map_values(|p: (String, String)| (p.0@, p.1@)) == spec_settings_to_restore(
            opt_view(consent),
            opt_view(hermes_dir),
            opt_view(auto_export),
        ),
{
    let mut out: Vec<(String, String)> = Vec::new();
    match consent {
        Some(v) => out.push((String::from_str("consent"), v)),
        None => {},
    }
    match hermes_dir {
        Some(v) => out.push((String::from_str("hermes_export_dir"), v)),
        None => {},
    }
    match auto_export {
        Some(v) => out.push((String::from_str("auto_export"), v)),
        None => {},
    }
    assert(out@.map_values(|p: (String, String)| (p.0@, p.1@)) =~= spec_settings_to_restore(
        opt_view(consent),
        opt_view(hermes_dir),
        opt_view(auto_export),
    ));
    out
}

} // verus!
