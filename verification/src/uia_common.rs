//! Platform-independent helpers for accessibility-tree text capture:
//! snapshot composition, URL heuristics, truncation and deduplication.
//! Both the Windows and the macOS capture paths produce their output
//! through these functions.

use vstd::prelude::*;
use vstd::utf8::{encode_scalar, encode_utf8};
use crate::text::{
    char_is_ws, chars_eq, chars_of, contains_char, contains_chars, has_ws, is_ascii_alpha, is_prefix,
    is_substring, is_ws, occurs_at, string_from_chars, trim, trim_chars,
};

verus! {

broadcast use vstd::string::group_string_axioms;

/// Final output character cap after composition.
pub const MAX_UIA_CHARS: usize = 4000;

/// Per-window collected text budget before the tree walk stops.
pub const MAX_WINDOW_TEXT_CHARS: usize = 3500;

/// Hard cap on tree nodes visited per sample.
pub const MAX_NODES: usize = 800;

/// Cap on the children taken from one node.
pub const MAX_CHILDREN_PER_NODE: usize = 200;

/// Wall-clock budget of one accessibility-tree read, in milliseconds.
pub const UIA_POLL_TIMEOUT_MS: u64 = 2000;

/// Some character is an ASCII letter.
pub open spec fn has_ascii_alpha(s: Seq<char>) -> bool {
    exists|i: int| 0 <= i < s.len() && is_ascii_alpha(#[trigger] s[i])
}

/// Every character is an ASCII letter.
pub open spec fn all_ascii_alpha(s: Seq<char>) -> bool {
    forall|i: int| 0 <= i < s.len() ==> is_ascii_alpha(#[trigger] s[i])
}

/// The text after the last `'.'` (the whole text when there is none):
/// the first item of `str::rsplit('.')`.
pub open spec fn last_label(t: Seq<char>) -> Seq<char>
    decreases t.len(),
{
    if t.len() == 0 {
        t
    } else if t.last() == '.' {
        Seq::empty()
    } else {
        last_label(t.drop_last()).push(t.last())
    }
}

/// Does an edit-box value look like a browser address / URL?
pub open spec fn spec_looks_like_url(value: Seq<char>) -> bool {
    let t = trim(value);
    if t.len() == 0 || encode_utf8(t).len() > 1024 || has_ws(t) {
        false
    } else if is_prefix("http://"@, t) || is_prefix("https://"@, t) || is_substring("://"@, t) {
        true
    } else if !has_ascii_alpha(t) || !t.contains('.') {
        false
    } else if t.contains('/') {
        true
    } else {
        let tld = last_label(t);
        tld.len() >= 2 && all_ascii_alpha(tld)
    }
}

/// Character-aware truncation to `MAX_UIA_CHARS`, marking the cut with `…`.
pub open spec fn spec_truncate(s: Seq<char>) -> Seq<char> {
    if s.len() <= MAX_UIA_CHARS {
        s
    } else {
        s.take(MAX_UIA_CHARS - 1) + "…"@
    }
}

/// Optional text with surrounding whitespace removed; blank becomes `None`.
pub open spec fn clean(o: Option<Seq<char>>) -> Option<Seq<char>> {
    match o {
        Some(s) => if trim(s).len() > 0 {
            Some(trim(s))
        } else {
            None
        },
        None => None,
    }
}

/// The view of an optional string.
pub open spec fn opt_view(o: Option<String>) -> Option<Seq<char>> {
    match o {
        Some(s) => Some(s@),
        None => None,
    }
}

/// The labeled blocks of a snapshot, in output order.
pub open spec fn snapshot_parts(
    focus: Option<Seq<char>>,
    window: Option<Seq<char>>,
    url: Option<Seq<char>>,
) -> Seq<Seq<char>> {
    let url_part = match clean(url) {
        Some(u) => seq!["[网址] "@ + u],
        None => Seq::empty(),
    };
    let body = match (clean(focus), clean(window)) {
        (Some(f), Some(w)) => if !is_substring(f, w) {
            seq!["[焦点] "@ + f, "[可见内容] "@ + w]
        } else {
            seq!["[可见内容] "@ + w]
        },
        (Some(f), None) => seq!["[焦点] "@ + f],
        (None, Some(w)) => seq!["[可见内容] "@ + w],
        (None, None) => Seq::empty(),
    };
    url_part + body
}

/// Lines joined with `'\n'` (`[String]::join("\n")`).
pub open spec fn join_lines(parts: Seq<Seq<char>>) -> Seq<char>
    decreases parts.len(),
{
    if parts.len() == 0 {
        Seq::empty()
    } else if parts.len() == 1 {
        parts[0]
    } else {
        join_lines(parts.drop_last()) + seq!['\n'] + parts.last()
    }
}

/// Focus text, window text and URL combined into one labeled snapshot.
pub open spec fn spec_compose_snapshot(
    focus: Option<Seq<char>>,
    window: Option<Seq<char>>,
    url: Option<Seq<char>>,
) -> Option<Seq<char>> {
    let parts = snapshot_parts(focus, window, url);
    if parts.len() == 0 {
        None
    } else {
        Some(spec_truncate(join_lines(parts)))
    }
}

/// Browser toolbar / window-control labels of Chrome and Edge.
pub open spec fn spec_is_chrome_noise(s: Seq<char>) -> bool {
    ||| s == "Back"@
    ||| s == "Forward"@
    ||| s == "Reload"@
    ||| s == "Home"@
    ||| s == "Chrome"@
    ||| s == "Microsoft Edge"@
    ||| s == "Address and search bar"@
    ||| s == "Search tabs"@
    ||| s == "Minimize"@
    ||| s == "Maximize"@
    ||| s == "Close"@
    ||| s == "Restore"@
}

/// Browser chrome labels of Chrome, Edge and Safari, and window controls.
pub open spec fn spec_is_browser_noise(s: Seq<char>) -> bool {
    ||| spec_is_chrome_noise(s)
    ||| s == "Favorites"@
    ||| s == "Bookmarks"@
    ||| s == "Tab Overview"@
    ||| s == "Share"@
    ||| s == "Reader"@
    ||| s == "Safari"@
}

/// The first `MAX_WINDOW_TEXT_CHARS` characters.
pub open spec fn clip_window(s: Seq<char>) -> Seq<char> {
    if s.len() <= MAX_WINDOW_TEXT_CHARS {
        s
    } else {
        s.take(MAX_WINDOW_TEXT_CHARS as int)
    }
}

/// Two fragments duplicate each other: equal, or one inside the other.
pub open spec fn overlaps(t: Seq<char>, c: Seq<char>) -> bool {
    t == c || is_substring(c, t) || is_substring(t, c)
}

/// The fragment that `raw` contributes, under a noise filter.
pub open spec fn fragment_of(raw: Seq<char>) -> Seq<char> {
    clip_window(trim(raw))
}

/// `raw` is added to `texts`: it is not blank, not noise, and overlaps no
/// fragment already collected.
pub open spec fn accepts_fragment(texts: Seq<Seq<char>>, raw: Seq<char>, safari: bool) -> bool {
    let t = trim(raw);
    &&& t.len() > 0
    &&& !(if safari {
        spec_is_browser_noise(t)
    } else {
        spec_is_chrome_noise(t)
    })
    &&& forall|i: int| 0 <= i < texts.len() ==> !overlaps(#[trigger] texts[i], clip_window(t))
}

/// No collected fragment occurs inside another one.
pub open spec fn no_nested(texts: Seq<Seq<char>>) -> bool {
    forall|i: int, j: int|
        0 <= i < texts.len() && 0 <= j < texts.len() && i != j ==> !is_substring(
            #[trigger] texts[i],
            #[trigger] texts[j],
        )
}

/// Every collected fragment holds between one and `MAX_WINDOW_TEXT_CHARS`
/// characters.
pub open spec fn items_in_bounds(texts: Seq<Seq<char>>) -> bool {
    forall|i: int| 0 <= i < texts.len() ==> 1 <= #[trigger] texts[i].len() <= MAX_WINDOW_TEXT_CHARS
}

/// Total number of characters over all fragments.
pub open spec fn total_len(texts: Seq<Seq<char>>) -> int
    decreases texts.len(),
{
    if texts.len() == 0 {
        0
    } else {
        total_len(texts.drop_last()) + texts.last().len()
    }
}

fn eq_lit(v: &Vec<char>, lit: &str) -> (r: bool)
    ensures
        r == (v@ == lit@),
{
    let l = chars_of(lit);
    chars_eq(v, &l)
}

fn chrome_noise_chars(v: &Vec<char>) -> (r: bool)
    ensures
        r == spec_is_chrome_noise(v@),
{
    eq_lit(v, "Back") || eq_lit(v, "Forward") || eq_lit(v, "Reload") || eq_lit(v, "Home")
        || eq_lit(v, "Chrome") || eq_lit(v, "Microsoft Edge") || eq_lit(
        v,
        "Address and search bar",
    ) || eq_lit(v, "Search tabs") || eq_lit(v, "Minimize") || eq_lit(v, "Maximize") || eq_lit(
        v,
        "Close",
    ) || eq_lit(v, "Restore")
}

fn browser_noise_chars(v: &Vec<char>) -> (r: bool)
    ensures
        r == spec_is_browser_noise(v@),
{
    chrome_noise_chars(v) || eq_lit(v, "Favorites") || eq_lit(v, "Bookmarks") || eq_lit(
        v,
        "Tab Overview",
    ) || eq_lit(v, "Share") || eq_lit(v, "Reader") || eq_lit(v, "Safari")
}

/// Browser toolbar / chrome labels that are not useful user context
/// (Chrome, Edge, Safari and generic window controls).
pub fn is_browser_noise(s: &str) -> (r: bool)
    ensures
        r == spec_is_browser_noise(s@),
{
    let v = chars_of(s);
    browser_noise_chars(&v)
}

/// Chrome / Edge toolbar labels and window controls.
pub fn is_chrome_noise(s: &str) -> (r: bool)
    ensures
        r == spec_is_chrome_noise(s@),
{
    let v = chars_of(s);
    chrome_noise_chars(&v)
}

proof fn lemma_last_label_at(t: Seq<char>, k: int)
    requires
        0 <= k < t.len(),
        t[k] == '.',
        forall|j: int| k < j < t.len() ==> t[j] != '.',
    ensures
        last_label(t) == t.subrange(k + 1, t.len() as int),
    decreases t.len(),
{
    if t.last() == '.' {
        assert(k == t.len() - 1);
        assert(t.subrange(k + 1, t.len() as int) =~= Seq::<char>::empty());
    } else {
        let d = t.drop_last();
        lemma_last_label_at(d, k);
        assert(d.subrange(k + 1, d.len() as int).push(t.last()) =~= t.subrange(
            k + 1,
            t.len() as int,
        ));
    }
}

proof fn lemma_encode_utf8_push(s: Seq<char>, c: char)
    ensures
        encode_utf8(s.push(c)) == encode_utf8(s) + encode_scalar(c as u32),
    decreases s.len(),
{
    if s.len() == 0 {
        let t = s.push(c);
        assert(t.drop_first() =~= Seq::<char>::empty());
        assert(t[0] == c);
        assert(encode_utf8(t.drop_first()) =~= Seq::<u8>::empty());
        assert(encode_utf8(t) =~= encode_scalar(c as u32));
    } else {
        lemma_encode_utf8_push(s.drop_first(), c);
        assert(s.push(c).drop_first() =~= s.drop_first().push(c));
        assert(encode_utf8(s.push(c)) =~= encode_utf8(s) + encode_scalar(c as u32));
    }
}

/// Number of bytes in the UTF-8 encoding of one character.
fn utf8_width(c: char) -> (w: usize)
    ensures
        w == encode_scalar(c as u32).len(),
{
    let cp = c as u32;
    if cp <= 0x7f {
        1
    } else if cp <= 0x7ff {
        2
    } else if cp <= 0xffff {
        3
    } else {
        4
    }
}

/// The UTF-8 encoding of the characters is longer than `limit` bytes.
fn utf8_len_exceeds(v: &Vec<char>, limit: usize) -> (r: bool)
    requires
        limit <= 1024,
    ensures
        r == (encode_utf8(v@).len() > limit),
{
    let mut count: usize = 0;
    let mut i: usize = 0;
    while i < v.len()
        invariant
            i <= v@.len(),
            limit <= 1024,
            count == encode_utf8(v@.take(i as int)).len(),
            count <= limit,
        decreases v@.len() - i,
    {
        proof {
            lemma_encode_utf8_push(v@.take(i as int), v@[i as int]);
            assert(v@.take(i as int).push(v@[i as int]) =~= v@.take(i + 1));
        }
        count = count + utf8_width(v[i]);
        i += 1;
        if count > limit {
            proof {
                lemma_encode_utf8_prefix_le(v@, i as int);
            }
            return true;
        }
    }
    assert(v@.take(v@.len() as int) =~= v@);
    false
}

/// A prefix never encodes to more bytes than the whole sequence.
proof fn lemma_encode_utf8_prefix_le(s: Seq<char>, i: int)
    requires
        0 <= i <= s.len(),
    ensures
        encode_utf8(s.take(i)).len() <= encode_utf8(s).len(),
    decreases s.len() - i,
{
    if i < s.len() {
        lemma_encode_utf8_push(s.take(i), s[i]);
        assert(s.take(i).push(s[i]) =~= s.take(i + 1));
        lemma_encode_utf8_prefix_le(s, i + 1);
    } else {
        assert(s.take(i) =~= s);
    }
}

fn has_ws_chars(v: &Vec<char>) -> (r: bool)
    ensures
        r == has_ws(v@),
{
    let mut i: usize = 0;
    while i < v.len()
        invariant
            i <= v@.len(),
            forall|j: int| 0 <= j < i ==> !is_ws(#[trigger] v@[j]),
        decreases v@.len() - i,
    {
        if char_is_ws(v[i]) {
            return true;
        }
        i += 1;
    }
    false
}

fn char_is_ascii_alpha(c: char) -> (r: bool)
    ensures
        r == is_ascii_alpha(c),
{
    ('A' <= c && c <= 'Z') || ('a' <= c && c <= 'z')
}

fn has_ascii_alpha_chars(v: &Vec<char>) -> (r: bool)
    ensures
        r == has_ascii_alpha(v@),
{
    let mut i: usize = 0;
    while i < v.len()
        invariant
            i <= v@.len(),
            forall|j: int| 0 <= j < i ==> !is_ascii_alpha(#[trigger] v@[j]),
        decreases v@.len() - i,
    {
        if char_is_ascii_alpha(v[i]) {
            return true;
        }
        i += 1;
    }
    false
}

fn is_prefix_chars(hay: &Vec<char>, prefix: &str) -> (r: bool)
    ensures
        r == is_prefix(prefix@, hay@),
{
    let p = chars_of(prefix);
    if p.len() > hay.len() {
        return false;
    }
    occurs_at(hay, &p, 0)
}

fn contains_lit(hay: &Vec<char>, lit: &str) -> (r: bool)
    ensures
        r == is_substring(lit@, hay@),
{
    let p = chars_of(lit);
    contains_chars(hay, &p)
}

/// The text after the last `'.'`, for a text that holds one.
fn last_label_chars(t: &Vec<char>) -> (r: Vec<char>)
    requires
        t@.contains('.'),
    ensures
        r@ == last_label(t@),
{
    let n = t.len();
    let mut k: usize = n;
    while k > 0 && t[k - 1] != '.'
        invariant
            k <= n == t@.len(),
            forall|j: int| k <= j < n ==> t@[j] != '.',
        decreases k,
    {
        k -= 1;
    }
    if k == 0 {
        assert(false);
    }
    proof {
        lemma_last_label_at(t@, k - 1);
    }
    let mut r: Vec<char> = Vec::new();
    let mut i: usize = k;
    while i < n
        invariant
            k <= i <= n == t@.len(),
            r@ == t@.subrange(k as int, i as int),
        decreases n - i,
    {
        r.push(t[i]);
        i += 1;
        assert(r@ =~= t@.subrange(k as int, i as int));
    }
    r
}

fn all_ascii_alpha_chars(v: &Vec<char>) -> (r: bool)
    ensures
        r == all_ascii_alpha(v@),
{
    let mut i: usize = 0;
    while i < v.len()
        invariant
            i <= v@.len(),
            forall|j: int| 0 <= j < i ==> is_ascii_alpha(#[trigger] v@[j]),
        decreases v@.len() - i,
    {
        if !char_is_ascii_alpha(v[i]) {
            return false;
        }
        i += 1;
    }
    true
}

/// Heuristic: does this edit-box value look like a browser address / URL?
pub fn looks_like_url(value: &str) -> (r: bool)
    ensures
        r == spec_looks_like_url(value@),
{
    let raw = chars_of(value);
    let t = trim_chars(&raw);
    if t.len() == 0 || utf8_len_exceeds(&t, 1024) || has_ws_chars(&t) {
        return false;
    }
    if is_prefix_chars(&t, "http://") || is_prefix_chars(&t, "https://") || contains_lit(
        &t,
        "://",
    ) {
        return true;
    }
    let has_alpha = has_ascii_alpha_chars(&t);
    if !has_alpha || !contains_char(&t, '.') {
        return false;
    }
    if contains_char(&t, '/') {
        return true;
    }
    let tld = last_label_chars(&t);
    tld.len() >= 2 && all_ascii_alpha_chars(&tld)
}

/// Characters copied from a prefix of a vector.
fn take_chars(v: &Vec<char>, n: usize) -> (r: Vec<char>)
    requires
        n <= v@.len(),
    ensures
        r@ == v@.take(n as int),
{
    let mut r: Vec<char> = Vec::new();
    let mut i: usize = 0;
    while i < n
        invariant
            i <= n <= v@.len(),
            r@ == v@.take(i as int),
        decreases n - i,
    {
        r.push(v[i]);
        i += 1;
        assert(r@ =~= v@.take(i as int));
    }
    r
}

/// Appends the characters of `b` to `a`.
fn extend_chars(a: &mut Vec<char>, b: &Vec<char>)
    ensures
        final(a)@ == old(a)@ + b@,
{
    let mut i: usize = 0;
    while i < b.len()
        invariant
            i <= b@.len(),
            a@ == old(a)@ + b@.take(i as int),
        decreases b@.len() - i,
    {
        a.push(b[i]);
        i += 1;
        assert(a@ =~= old(a)@ + b@.take(i as int));
    }
    assert(b@.take(b@.len() as int) =~= b@);
}

fn truncate_chars(v: &Vec<char>) -> (r: Vec<char>)
    ensures
        r@ == spec_truncate(v@),
{
    if v.len() <= MAX_UIA_CHARS {
        return v.clone();
    }
    let mut r = take_chars(v, MAX_UIA_CHARS - 1);
    let ell = chars_of("…");
    extend_chars(&mut r, &ell);
    r
}

/// Character-aware truncation (safe for CJK text).
pub fn truncate_text(text: String) -> (r: String)
    ensures
        r@ == spec_truncate(text@),
{
    let v = chars_of(text.as_str());
    if v.len() <= MAX_UIA_CHARS {
        return text;
    }
    let r = truncate_chars(&v);
    string_from_chars(&r)
}

fn clean_chars(o: &Option<String>) -> (r: Option<Vec<char>>)
    ensures
        match r {
            Some(v) => clean(opt_view(*o)) == Some(v@),
            None => clean(opt_view(*o)) is None,
        },
{
    match o {
        Some(s) => {
            let v = chars_of(s.as_str());
            let t = trim_chars(&v);
            if t.len() > 0 {
                Some(t)
            } else {
                None
            }
        },
        None => None,
    }
}

fn labeled(label: &str, body: &Vec<char>) -> (r: Vec<char>)
    ensures
        r@ == label@ + body@,
        r.deep_view() == label@ + body@,
{
    let mut r = chars_of(label);
    extend_chars(&mut r, body);
    assert(r.deep_view() =~= r@);
    r
}

fn join_lines_chars(parts: &Vec<Vec<char>>) -> (r: Vec<char>)
    ensures
        r@ == join_lines(parts.deep_view()),
{
    let mut r: Vec<char> = Vec::new();
    let mut i: usize = 0;
    while i < parts.len()
        invariant
            i <= parts@.len(),
            r@ == join_lines(parts.deep_view().take(i as int)),
        decreases parts@.len() - i,
    {
        let ghost prev = parts.deep_view().take(i as int);
        if i > 0 {
            r.push('\n');
        }
        extend_chars(&mut r, &parts[i]);
        proof {
            let nxt = parts.deep_view().take(i + 1);
            assert(nxt.drop_last() =~= prev);
            assert(nxt.last() == parts[i as int]@);
            if i == 0 {
                assert(r@ =~= nxt[0]);
            } else {
                assert(r@ =~= join_lines(prev) + seq!['\n'] + nxt.last());
            }
        }
        i += 1;
    }
    assert(parts.deep_view().take(parts@.len() as int) =~= parts.deep_view());
    r
}

/// Combine focus text, surrounding window text, and URL into one labeled
/// snapshot. The focus block is dropped when the window text already holds it.
pub fn compose_snapshot(focus: Option<String>, window_text: Option<String>, url: Option<String>) -> (r:
    Option<String>)
    ensures
        opt_view(r) == spec_compose_snapshot(opt_view(focus), opt_view(window_text), opt_view(url)),
{
    let mut parts: Vec<Vec<char>> = Vec::new();
    let u = clean_chars(&url);
    match &u {
        Some(uv) => {
            let p = labeled("[网址] ", uv);
            parts.push(p);
        },
        None => {},
    }
    let ghost url_parts = parts.deep_view();
    let ghost expected_url: Seq<Seq<char>> = match clean(opt_view(url)) {
        Some(uu) => seq!["[网址] "@ + uu],
        None => Seq::empty(),
    };
    assert(url_parts =~= expected_url);
    let f = clean_chars(&focus);
    let w = clean_chars(&window_text);
    let ghost body: Seq<Seq<char>> = match (clean(opt_view(focus)), clean(opt_view(window_text))) {
        (Some(ff), Some(ww)) => if !is_substring(ff, ww) {
            seq!["[焦点] "@ + ff, "[可见内容] "@ + ww]
        } else {
            seq!["[可见内容] "@ + ww]
        },
        (Some(ff), None) => seq!["[焦点] "@ + ff],
        (None, Some(ww)) => seq!["[可见内容] "@ + ww],
        (None, None) => Seq::empty(),
    };
    match (&f, &w) {
        (Some(fv), Some(wv)) => {
            if !contains_chars(wv, fv) {
                let p = labeled("[焦点] ", fv);
                parts.push(p);
            }
            let p = labeled("[可见内容] ", wv);
            parts.push(p);
        },
        (Some(fv), None) => {
            let p = labeled("[焦点] ", fv);
            parts.push(p);
        },
        (None, Some(wv)) => {
            let p = labeled("[可见内容] ", wv);
            parts.push(p);
        },
        (None, None) => {},
    }
    assert(parts.deep_view() =~= url_parts + body);
    assert(parts.deep_view() =~= snapshot_parts(
        opt_view(focus),
        opt_view(window_text),
        opt_view(url),
    ));
    if parts.len() == 0 {
        return None;
    }
    let joined = join_lines_chars(&parts);
    let t = truncate_chars(&joined);
    Some(string_from_chars(&t))
}

/// Shared body of the two deduplicating collectors.
fn push_unique_core(texts: &mut Vec<String>, total_chars: &mut usize, raw: String, safari: bool)
    requires
        accepts_fragment(old(texts).deep_view(), raw@, safari) ==> *old(total_chars)
            + fragment_of(raw@).len() <= usize::MAX,
    ensures
        accepts_fragment(old(texts).deep_view(), raw@, safari) ==> {
            &&& final(texts).deep_view() == old(texts).deep_view().push(fragment_of(raw@))
            &&& *final(total_chars) == *old(total_chars) + fragment_of(raw@).len()
        },
        !accepts_fragment(old(texts).deep_view(), raw@, safari) ==> {
            &&& final(texts).deep_view() == old(texts).deep_view()
            &&& *final(total_chars) == *old(total_chars)
        },
{
    let v = chars_of(raw.as_str());
    let t = trim_chars(&v);
    if t.len() == 0 {
        return;
    }
    let noise = if safari {
        browser_noise_chars(&t)
    } else {
        chrome_noise_chars(&t)
    };
    if noise {
        return;
    }
    let clipped = if t.len() <= MAX_WINDOW_TEXT_CHARS {
        t
    } else {
        take_chars(&t, MAX_WINDOW_TEXT_CHARS)
    };
    assert(clipped@ == fragment_of(raw@));
    let mut i: usize = 0;
    while i < texts.len()
        invariant
            i <= texts@.len(),
            clipped@ == clip_window(trim(raw@)),
            forall|j: int| 0 <= j < i ==> !overlaps(#[trigger] texts.deep_view()[j], clipped@),
        decreases texts@.len() - i,
    {
        let tv = chars_of(texts[i].as_str());
        if chars_eq(&tv, &clipped) || contains_chars(&tv, &clipped) || contains_chars(
            &clipped,
            &tv,
        ) {
            assert(overlaps(texts.deep_view()[i as int], clipped@));
            return;
        }
        i += 1;
    }
    let n = clipped.len();
    *total_chars = *total_chars + n;
    texts.push(string_from_chars(&clipped));
    assert(texts.deep_view() =~= old(texts).deep_view().push(fragment_of(raw@)));
}

/// A snapshot is never longer than `MAX_UIA_CHARS` characters, and a text
/// within the cap is kept as it is.
pub proof fn lemma_truncate_within_cap(s: Seq<char>)
    ensures
        spec_truncate(s).len() <= MAX_UIA_CHARS,
        s.len() <= MAX_UIA_CHARS ==> spec_truncate(s) == s,
        s.len() > MAX_UIA_CHARS ==> spec_truncate(s).take(MAX_UIA_CHARS - 1) == s.take(
            MAX_UIA_CHARS - 1,
        ),
{
    reveal_strlit("…");
    if s.len() > MAX_UIA_CHARS {
        assert(spec_truncate(s).take(MAX_UIA_CHARS - 1) =~= s.take(MAX_UIA_CHARS - 1));
    }
}

/// A snapshot is produced exactly when at least one of focus, window text
/// and URL holds something besides whitespace, and it is within the cap.
pub proof fn lemma_compose_some_iff_content(
    focus: Option<Seq<char>>,
    window: Option<Seq<char>>,
    url: Option<Seq<char>>,
)
    ensures
        spec_compose_snapshot(focus, window, url) is Some <==> (clean(focus) is Some || clean(
            window,
        ) is Some || clean(url) is Some),
        spec_compose_snapshot(focus, window, url) matches Some(t) ==> t.len() <= MAX_UIA_CHARS,
{
    let parts = snapshot_parts(focus, window, url);
    if parts.len() > 0 {
        lemma_truncate_within_cap(join_lines(parts));
    }
}

/// The fragment added to a collection neither holds nor sits inside any
/// earlier fragment, so a collection with no nested fragments keeps none;
/// the added fragment holds one to `MAX_WINDOW_TEXT_CHARS` characters; and
/// the character total keeps matching the fragments.
pub proof fn lemma_push_keeps_invariants(texts: Seq<Seq<char>>, raw: Seq<char>, safari: bool)
    requires
        accepts_fragment(texts, raw, safari),
    ensures
        no_nested(texts) ==> no_nested(texts.push(fragment_of(raw))),
        1 <= fragment_of(raw).len() <= MAX_WINDOW_TEXT_CHARS,
        items_in_bounds(texts) ==> items_in_bounds(texts.push(fragment_of(raw))),
        total_len(texts.push(fragment_of(raw))) == total_len(texts) + fragment_of(raw).len(),
{
    let c = fragment_of(raw);
    let n = texts.push(c);
    assert(n.drop_last() =~= texts);
    if no_nested(texts) {
        assert forall|i: int, j: int|
            0 <= i < n.len() && 0 <= j < n.len() && i != j implies !is_substring(
            #[trigger] n[i],
            #[trigger] n[j],
        ) by {
            if i == texts.len() {
                assert(!overlaps(texts[j], c));
            } else if j == texts.len() {
                assert(!overlaps(texts[i], c));
            } else {
                assert(n[i] == texts[i] && n[j] == texts[j]);
            }
        }
    }
}

/// Push a text fragment into the collection buffer with deduplication and
/// budget tracking, filtering browser chrome noise and substring duplicates.
pub fn push_unique_text(texts: &mut Vec<String>, total_chars: &mut usize, raw: String)
    requires
        accepts_fragment(old(texts).deep_view(), raw@, true) ==> *old(total_chars)
            + fragment_of(raw@).len() <= usize::MAX,
    ensures
        accepts_fragment(old(texts).deep_view(), raw@, true) ==> {
            &&& final(texts).deep_view() == old(texts).deep_view().push(fragment_of(raw@))
            &&& *final(total_chars) == *old(total_chars) + fragment_of(raw@).len()
        },
        !accepts_fragment(old(texts).deep_view(), raw@, true) ==> {
            &&& final(texts).deep_view() == old(texts).deep_view()
            &&& *final(total_chars) == *old(total_chars)
        },
        no_nested(old(texts).deep_view()) ==> no_nested(final(texts).deep_view()),
        *old(total_chars) == total_len(old(texts).deep_view()) ==> *final(total_chars)
            == total_len(final(texts).deep_view()),
        items_in_bounds(old(texts).deep_view()) ==> items_in_bounds(final(texts).deep_view()),
        final(texts).deep_view().len() <= old(texts).deep_view().len() + 1,
{
    proof {
        if accepts_fragment(old(texts).deep_view(), raw@, true) {
            lemma_push_keeps_invariants(old(texts).deep_view(), raw@, true);
        }
    }
    push_unique_core(texts, total_chars, raw, true);
}

/// The Windows UIA collector's variant: filters Chrome / Edge labels only.
pub fn push_unique_window_text(texts: &mut Vec<String>, total_chars: &mut usize, raw: String)
    requires
        accepts_fragment(old(texts).deep_view(), raw@, false) ==> *old(total_chars)
            + fragment_of(raw@).len() <= usize::MAX,
    ensures
        accepts_fragment(old(texts).deep_view(), raw@, false) ==> {
            &&& final(texts).deep_view() == old(texts).deep_view().push(fragment_of(raw@))
            &&& *final(total_chars) == *old(total_chars) + fragment_of(raw@).len()
        },
        !accepts_fragment(old(texts).deep_view(), raw@, false) ==> {
            &&& final(texts).deep_view() == old(texts).deep_view()
            &&& *final(total_chars) == *old(total_chars)
        },
        no_nested(old(texts).deep_view()) ==> no_nested(final(texts).deep_view()),
        *old(total_chars) == total_len(old(texts).deep_view()) ==> *final(total_chars)
            == total_len(final(texts).deep_view()),
        items_in_bounds(old(texts).deep_view()) ==> items_in_bounds(final(texts).deep_view()),
        final(texts).deep_view().len() <= old(texts).deep_view().len() + 1,
{
    proof {
        if accepts_fragment(old(texts).deep_view(), raw@, false) {
            lemma_push_keeps_invariants(old(texts).deep_view(), raw@, false);
        }
    }
    push_unique_core(texts, total_chars, raw, false);
}

} // verus!
