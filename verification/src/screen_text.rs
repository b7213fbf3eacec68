//! The bounded walk over an accessibility tree that gathers the text on
//! screen: which text a node contributes, when its subtree is skipped,
//! where the browser address is found, and when the walk stops.
//!
//! The platform layer (UI Automation on Windows, the AX API on macOS)
//! reads each node's attributes and keeps the stack of nodes to visit; it
//! hands each node here as plain values and asks whether to go on.

use vstd::prelude::*;
use crate::text::{chars_eq, chars_of, string_from_chars, trim, trim_chars};
use crate::uia_common::{
    accepts_fragment, clip_window, fragment_of, items_in_bounds, join_lines, lemma_push_keeps_invariants,
    looks_like_url, no_nested, opt_view, push_unique_text, push_unique_window_text,
    spec_looks_like_url, total_len, MAX_CHILDREN_PER_NODE, MAX_NODES, MAX_WINDOW_TEXT_CHARS,
};

verus! {

broadcast use vstd::string::group_string_axioms;

/// The UI Automation control types that matter to the walk.
#[derive(Debug, Clone, Copy, PartialEq, Eq, Structural)]
pub enum UiaControl {
    Document,
    Text,
    Edit,
    Hyperlink,
    Group,
    Pane,
    Other,
}

/// What a UI Automation node offers, as read by the platform layer.
#[derive(Debug, Clone)]
pub struct UiaNode {
    pub control: UiaControl,
    pub is_password: bool,
    /// The document range text of its TextPattern.
    pub text_pattern: Option<String>,
    /// Its `CurrentName`.
    pub name: Option<String>,
    /// The value of its ValuePattern.
    pub value: Option<String>,
}

/// What an AX element offers, as read by the platform layer.
#[derive(Debug, Clone)]
pub struct AxNode {
    pub role: Option<String>,
    pub subrole: Option<String>,
    pub value: Option<String>,
    pub description: Option<String>,
    pub title: Option<String>,
}

/// Whether the walk descends into a node's children.
#[derive(Debug, Clone, Copy, PartialEq, Eq, Structural)]
pub enum NodeStep {
    VisitChildren,
    SkipChildren,
}

/// An attribute text, unless it is blank.
pub open spec fn nonblank(o: Option<Seq<char>>) -> Option<Seq<char>> {
    match o {
        Some(s) => if trim(s).len() > 0 {
            Some(s)
        } else {
            None
        },
        None => None,
    }
}

/// The first of two optional texts that is present.
pub open spec fn first_of(a: Option<Seq<char>>, b: Option<Seq<char>>) -> Option<Seq<char>> {
    if a is Some {
        a
    } else {
        b
    }
}

/// Controls whose name is read as text.
pub open spec fn uia_names_text(c: UiaControl) -> bool {
    c == UiaControl::Document || c == UiaControl::Text || c == UiaControl::Hyperlink || c
        == UiaControl::Group || c == UiaControl::Pane
}

/// The text a UI Automation node contributes: its TextPattern text, else
/// for document, text, link, group and pane controls a name of at least
/// three characters, else the value of an edit control.
pub open spec fn uia_readable(n: UiaNode) -> Option<Seq<char>> {
    let name = nonblank(opt_view(n.name));
    if nonblank(opt_view(n.text_pattern)) is Some {
        nonblank(opt_view(n.text_pattern))
    } else if uia_names_text(n.control) && name is Some && name->0.len() >= 3 {
        name
    } else if n.control == UiaControl::Edit {
        nonblank(opt_view(n.value))
    } else {
        None
    }
}

/// The text an AX element contributes, by role: the value (else the
/// description) of text inputs and web areas; the description, value or
/// title of static text; the description or title, of at least three
/// characters, of links and groups.
pub open spec fn ax_readable(n: AxNode) -> Option<Seq<char>> {
    let value = nonblank(opt_view(n.value));
    let description = nonblank(opt_view(n.description));
    let title = nonblank(opt_view(n.title));
    match nonblank(opt_view(n.role)) {
        Some(r) => if r == "AXTextField"@ || r == "AXTextArea"@ || r == "AXWebArea"@ || r
            == "AXSearchField"@ || r == "AXComboBox"@ {
            first_of(value, description)
        } else if r == "AXStaticText"@ || r == "AXLabel"@ || r == "AXHeading"@ {
            first_of(description, first_of(value, title))
        } else if r == "AXLink"@ || r == "AXGroup"@ || r == "AXGenericElement"@ {
            let t = first_of(description, title);
            if t is Some && t->0.len() >= 3 {
                t
            } else {
                None
            }
        } else {
            None
        },
        None => None,
    }
}

/// An AX element is a password field when its subrole says so.
pub open spec fn ax_is_password(n: AxNode) -> bool {
    nonblank(opt_view(n.subrole)) == Some("AXSecureTextField"@)
}

/// The collected fragments after offering `raw` to them.
pub open spec fn offered(texts: Seq<Seq<char>>, raw: Seq<char>, safari: bool) -> Seq<Seq<char>> {
    if accepts_fragment(texts, raw, safari) {
        texts.push(fragment_of(raw))
    } else {
        texts
    }
}

/// The address found so far, or the trimmed `value` of an address field
/// when none was found yet and it looks like a URL.
pub open spec fn url_after(url: Option<Seq<char>>, is_address_field: bool, value: Option<Seq<char>>) -> Option<
    Seq<char>,
> {
    if url is None && is_address_field && value is Some && spec_looks_like_url(value->0) {
        Some(trim(value->0))
    } else {
        url
    }
}

/// The fragments and the address after visiting a node, from what the node
/// offers: whether it is a password field, its readable text, whether that
/// text is a whole document (its subtree is then skipped), whether it is an
/// address field, and its value.
pub open spec fn visit_effect(
    texts: Seq<Seq<char>>,
    url: Option<Seq<char>>,
    password: bool,
    readable: Option<Seq<char>>,
    whole: bool,
    address_field: bool,
    value: Option<Seq<char>>,
    safari: bool,
) -> (Seq<Seq<char>>, Option<Seq<char>>) {
    if password {
        (texts, url)
    } else {
        let t = match readable {
            Some(raw) => offered(texts, raw, safari),
            None => texts,
        };
        if readable is Some && whole {
            (t, url)
        } else {
            (t, url_after(url, address_field, value))
        }
    }
}

/// The effect of visiting a UI Automation node.
pub open spec fn uia_visit(texts: Seq<Seq<char>>, url: Option<Seq<char>>, n: UiaNode) -> (
    Seq<Seq<char>>,
    Option<Seq<char>>,
) {
    visit_effect(
        texts,
        url,
        n.is_password,
        uia_readable(n),
        n.control == UiaControl::Document || n.control == UiaControl::Text,
        n.control == UiaControl::Edit,
        nonblank(opt_view(n.value)),
        false,
    )
}

/// The effect of visiting an AX element.
pub open spec fn ax_visit(texts: Seq<Seq<char>>, url: Option<Seq<char>>, n: AxNode) -> (
    Seq<Seq<char>>,
    Option<Seq<char>>,
) {
    let role = nonblank(opt_view(n.role));
    visit_effect(
        texts,
        url,
        ax_is_password(n),
        ax_readable(n),
        role == Some("AXTextArea"@) || role == Some("AXWebArea"@),
        role == Some("AXTextField"@),
        nonblank(opt_view(n.value)),
        true,
    )
}

/// A walk goes on while fewer than `MAX_NODES` nodes were visited and the
/// fragments hold fewer than `MAX_WINDOW_TEXT_CHARS` characters.
pub open spec fn walk_goes_on(texts: Seq<Seq<char>>, visited: nat) -> bool {
    visited < MAX_NODES && total_len(texts) < MAX_WINDOW_TEXT_CHARS
}

/// Fragments, address and visit count after a walk over UI Automation
/// nodes, taken in the order the platform layer pops them, until a budget
/// stops it.
pub open spec fn uia_walk(
    texts: Seq<Seq<char>>,
    url: Option<Seq<char>>,
    visited: nat,
    nodes: Seq<UiaNode>,
) -> (Seq<Seq<char>>, Option<Seq<char>>, nat)
    decreases nodes.len(),
{
    if nodes.len() == 0 || !walk_goes_on(texts, visited) {
        (texts, url, visited)
    } else {
        let (t, u) = uia_visit(texts, url, nodes[0]);
        uia_walk(t, u, visited + 1, nodes.drop_first())
    }
}

/// Fragments, address and visit count after a walk over AX elements.
pub open spec fn ax_walk(texts: Seq<Seq<char>>, url: Option<Seq<char>>, visited: nat, nodes: Seq<AxNode>) -> (
    Seq<Seq<char>>,
    Option<Seq<char>>,
    nat,
)
    decreases nodes.len(),
{
    if nodes.len() == 0 || !walk_goes_on(texts, visited) {
        (texts, url, visited)
    } else {
        let (t, u) = ax_visit(texts, url, nodes[0]);
        ax_walk(t, u, visited + 1, nodes.drop_first())
    }
}

/// `u` is the trimmed value, looking like a URL, of an edit control that is
/// no password field.
pub open spec fn uia_address_of(n: UiaNode, u: Seq<char>) -> bool {
    &&& !n.is_password
    &&& n.control == UiaControl::Edit
    &&& nonblank(opt_view(n.value)) is Some
    &&& spec_looks_like_url(nonblank(opt_view(n.value))->0)
    &&& u == trim(nonblank(opt_view(n.value))->0)
}

/// `u` is the trimmed value, looking like a URL, of a text field that is no
/// secure text field.
pub open spec fn ax_address_of(n: AxNode, u: Seq<char>) -> bool {
    &&& !ax_is_password(n)
    &&& nonblank(opt_view(n.role)) == Some("AXTextField"@)
    &&& nonblank(opt_view(n.value)) is Some
    &&& spec_looks_like_url(nonblank(opt_view(n.value))->0)
    &&& u == trim(nonblank(opt_view(n.value))->0)
}

/// What a walk keeps true of its fragments: none inside another, each of
/// one to `MAX_WINDOW_TEXT_CHARS` characters, fewer than twice that many in
/// all.
pub open spec fn fragments_ok(texts: Seq<Seq<char>>) -> bool {
    &&& no_nested(texts)
    &&& items_in_bounds(texts)
    &&& total_len(texts) < 2 * MAX_WINDOW_TEXT_CHARS
}

proof fn lemma_visit_effect(
    texts: Seq<Seq<char>>,
    url: Option<Seq<char>>,
    password: bool,
    readable: Option<Seq<char>>,
    whole: bool,
    address_field: bool,
    value: Option<Seq<char>>,
    safari: bool,
)
    requires
        fragments_ok(texts),
        total_len(texts) < MAX_WINDOW_TEXT_CHARS,
    ensures
        ({
            let (t, u) = visit_effect(
                texts,
                url,
                password,
                readable,
                whole,
                address_field,
                value,
                safari,
            );
            &&& fragments_ok(t)
            &&& password ==> t == texts && u == url
            &&& url is Some ==> u == url
            &&& (url is None && u is Some) ==> {
                &&& !password
                &&& address_field
                &&& value is Some
                &&& spec_looks_like_url(value->0)
                &&& u == Some(trim(value->0))
            }
        }),
{
    if !password && readable is Some {
        let raw = readable->0;
        if accepts_fragment(texts, raw, safari) {
            lemma_push_keeps_invariants(texts, raw, safari);
        }
    }
}

/// Over a whole walk of UI Automation nodes: at most `MAX_NODES` nodes are
/// visited; the fragments never nest, each holds one to
/// `MAX_WINDOW_TEXT_CHARS` characters and all together fewer than twice
/// that; an address, once found, stays; and a found address is the trimmed
/// value, looking like a URL, of a visited edit control that is no password
/// field.
pub proof fn lemma_uia_walk(
    texts: Seq<Seq<char>>,
    url: Option<Seq<char>>,
    visited: nat,
    nodes: Seq<UiaNode>,
)
    requires
        fragments_ok(texts),
        visited <= MAX_NODES,
    ensures
        ({
            let (t, u, v) = uia_walk(texts, url, visited, nodes);
            &&& fragments_ok(t)
            &&& visited <= v <= MAX_NODES
            &&& v <= visited + nodes.len()
            &&& url is Some ==> u == url
            &&& (url is None && u is Some) ==> exists|i: int|
                0 <= i < nodes.len() && #[trigger] uia_address_of(nodes[i], u->0)
        }),
    decreases nodes.len(),
{
    if nodes.len() > 0 && walk_goes_on(texts, visited) {
        let n = nodes[0];
        let (t, u) = uia_visit(texts, url, n);
        lemma_visit_effect(
            texts,
            url,
            n.is_password,
            uia_readable(n),
            n.control == UiaControl::Document || n.control == UiaControl::Text,
            n.control == UiaControl::Edit,
            nonblank(opt_view(n.value)),
            false,
        );
        lemma_uia_walk(t, u, visited + 1, nodes.drop_first());
        let r = uia_walk(texts, url, visited, nodes);
        if url is None && r.1 is Some {
            if u is Some {
                assert(uia_address_of(nodes[0], r.1->0));
            } else {
                let rest = nodes.drop_first();
                let j = choose|j: int| 0 <= j < rest.len() && #[trigger] uia_address_of(rest[j], r.1->0);
                assert(rest[j] == nodes[j + 1]);
                assert(uia_address_of(nodes[j + 1], r.1->0));
            }
        }
    }
}

/// Over a whole walk of AX elements: the same budgets and fragment
/// properties, and a found address is the trimmed value, looking like a
/// URL, of a visited text field that is no secure text field.
pub proof fn lemma_ax_walk(texts: Seq<Seq<char>>, url: Option<Seq<char>>, visited: nat, nodes: Seq<AxNode>)
    requires
        fragments_ok(texts),
        visited <= MAX_NODES,
    ensures
        ({
            let (t, u, v) = ax_walk(texts, url, visited, nodes);
            &&& fragments_ok(t)
            &&& visited <= v <= MAX_NODES
            &&& v <= visited + nodes.len()
            &&& url is Some ==> u == url
            &&& (url is None && u is Some) ==> exists|i: int|
                0 <= i < nodes.len() && #[trigger] ax_address_of(nodes[i], u->0)
        }),
    decreases nodes.len(),
{
    if nodes.len() > 0 && walk_goes_on(texts, visited) {
        let n = nodes[0];
        let (t, u) = ax_visit(texts, url, n);
        let role = nonblank(opt_view(n.role));
        lemma_visit_effect(
            texts,
            url,
            ax_is_password(n),
            ax_readable(n),
            role == Some("AXTextArea"@) || role == Some("AXWebArea"@),
            role == Some("AXTextField"@),
            nonblank(opt_view(n.value)),
            true,
        );
        lemma_ax_walk(t, u, visited + 1, nodes.drop_first());
        let r = ax_walk(texts, url, visited, nodes);
        if url is None && r.1 is Some {
            if u is Some {
                assert(ax_address_of(nodes[0], r.1->0));
            } else {
                let rest = nodes.drop_first();
                let j = choose|j: int| 0 <= j < rest.len() && #[trigger] ax_address_of(rest[j], r.1->0);
                assert(rest[j] == nodes[j + 1]);
                assert(ax_address_of(nodes[j + 1], r.1->0));
            }
        }
    }
}

/// Which text a UI Automation node contributes, control type by control
/// type: TextPattern text comes first; without it, a document, text,
/// hyperlink, group or pane control contributes its non-blank name when
/// that has at least three characters, an edit control its value, and any
/// other control nothing. A visit offers that text to the fragments unless
/// the node is a password field.
pub proof fn lemma_uia_readable_by_control(texts: Seq<Seq<char>>, url: Option<Seq<char>>, n: UiaNode)
    ensures
        nonblank(opt_view(n.text_pattern)) is Some ==> uia_readable(n) == nonblank(
            opt_view(n.text_pattern),
        ),
        (nonblank(opt_view(n.text_pattern)) is None && (n.control == UiaControl::Document
            || n.control == UiaControl::Text || n.control == UiaControl::Hyperlink || n.control
            == UiaControl::Group || n.control == UiaControl::Pane) && nonblank(opt_view(n.name))
            is Some && nonblank(opt_view(n.name))->0.len() >= 3) ==> uia_readable(n) == nonblank(
            opt_view(n.name),
        ),
        (nonblank(opt_view(n.text_pattern)) is None && (n.control == UiaControl::Document
            || n.control == UiaControl::Text || n.control == UiaControl::Hyperlink || n.control
            == UiaControl::Group || n.control == UiaControl::Pane) && !(nonblank(opt_view(n.name))
            is Some && nonblank(opt_view(n.name))->0.len() >= 3)) ==> uia_readable(n) is None,
        (nonblank(opt_view(n.text_pattern)) is None && n.control == UiaControl::Edit)
            ==> uia_readable(n) == nonblank(opt_view(n.value)),
        (nonblank(opt_view(n.text_pattern)) is None && n.control == UiaControl::Other)
            ==> uia_readable(n) is None,
        !n.is_password ==> uia_visit(texts, url, n).0 == (match uia_readable(n) {
            Some(raw) => offered(texts, raw, false),
            None => texts,
        }),
        n.is_password ==> uia_visit(texts, url, n) == (texts, url),
{
}

/// Which text an AX element contributes, role by role: a text field, text
/// area, web area, search field or combo box its non-blank value, else its
/// description; static text, a label or a heading its description, else
/// value, else title; a link, group or generic element its description,
/// else title, when that has at least three characters; an element of any
/// other role, or of none, nothing.
pub proof fn lemma_ax_readable_by_role(n: AxNode)
    ensures
        ({
            let role = nonblank(opt_view(n.role));
            let value = nonblank(opt_view(n.value));
            let description = nonblank(opt_view(n.description));
            let title = nonblank(opt_view(n.title));
            &&& (role == Some("AXTextField"@) || role == Some("AXTextArea"@) || role == Some(
                "AXWebArea"@,
            ) || role == Some("AXSearchField"@) || role == Some("AXComboBox"@)) ==> {
                &&& value is Some ==> ax_readable(n) == value
                &&& value is None ==> ax_readable(n) == description
            }
            &&& (role == Some("AXStaticText"@) || role == Some("AXLabel"@) || role == Some(
                "AXHeading"@,
            )) ==> {
                &&& description is Some ==> ax_readable(n) == description
                &&& (description is None && value is Some) ==> ax_readable(n) == value
                &&& (description is None && value is None) ==> ax_readable(n) == title
            }
            &&& (role == Some("AXLink"@) || role == Some("AXGroup"@) || role == Some(
                "AXGenericElement"@,
            )) ==> {
                &&& (description is Some && description->0.len() >= 3) ==> ax_readable(n)
                    == description
                &&& (description is Some && description->0.len() < 3) ==> ax_readable(n) is None
                &&& (description is None && title is Some && title->0.len() >= 3) ==> ax_readable(
                    n,
                ) == title
                &&& (description is None && !(title is Some && title->0.len() >= 3))
                    ==> ax_readable(n) is None
            }
            &&& role is None ==> ax_readable(n) is None
        }),
{
    reveal_strlit("AXTextField");
    reveal_strlit("AXTextArea");
    reveal_strlit("AXWebArea");
    reveal_strlit("AXSearchField");
    reveal_strlit("AXComboBox");
    reveal_strlit("AXStaticText");
    reveal_strlit("AXLabel");
    reveal_strlit("AXHeading");
    reveal_strlit("AXLink");
    reveal_strlit("AXGroup");
    reveal_strlit("AXGenericElement");
}

/// Two UI Automation nodes that are alike except for what a password field
/// holds.
pub open spec fn uia_alike_but_passwords(a: UiaNode, b: UiaNode) -> bool {
    a.is_password == b.is_password && (!a.is_password ==> a == b)
}

/// Two AX elements that are alike except for what a secure text field
/// holds.
pub open spec fn ax_alike_but_passwords(a: AxNode, b: AxNode) -> bool {
    ax_is_password(a) == ax_is_password(b) && (!ax_is_password(a) ==> a == b)
}

/// Password fields are never read: walks over UI Automation nodes that
/// differ only in what their password fields hold give the same result.
pub proof fn lemma_uia_walk_ignores_passwords(
    texts: Seq<Seq<char>>,
    url: Option<Seq<char>>,
    visited: nat,
    a: Seq<UiaNode>,
    b: Seq<UiaNode>,
)
    requires
        a.len() == b.len(),
        forall|i: int| 0 <= i < a.len() ==> #[trigger] uia_alike_but_passwords(a[i], b[i]),
    ensures
        uia_walk(texts, url, visited, a) == uia_walk(texts, url, visited, b),
    decreases a.len(),
{
    if a.len() > 0 && walk_goes_on(texts, visited) {
        assert(uia_alike_but_passwords(a[0], b[0]));
        assert(uia_visit(texts, url, a[0]) == uia_visit(texts, url, b[0]));
        let (t, u) = uia_visit(texts, url, a[0]);
        assert forall|i: int| 0 <= i < a.drop_first().len() implies #[trigger] uia_alike_but_passwords(
            a.drop_first()[i],
            b.drop_first()[i],
        ) by {
            assert(uia_alike_but_passwords(a[i + 1], b[i + 1]));
        }
        lemma_uia_walk_ignores_passwords(t, u, visited + 1, a.drop_first(), b.drop_first());
    }
}

/// Secure text fields are never read: walks over AX elements that differ
/// only in what their secure text fields hold give the same result.
pub proof fn lemma_ax_walk_ignores_passwords(
    texts: Seq<Seq<char>>,
    url: Option<Seq<char>>,
    visited: nat,
    a: Seq<AxNode>,
    b: Seq<AxNode>,
)
    requires
        a.len() == b.len(),
        forall|i: int| 0 <= i < a.len() ==> #[trigger] ax_alike_but_passwords(a[i], b[i]),
    ensures
        ax_walk(texts, url, visited, a) == ax_walk(texts, url, visited, b),
    decreases a.len(),
{
    if a.len() > 0 && walk_goes_on(texts, visited) {
        assert(ax_alike_but_passwords(a[0], b[0]));
        assert(ax_visit(texts, url, a[0]) == ax_visit(texts, url, b[0]));
        let (t, u) = ax_visit(texts, url, a[0]);
        assert forall|i: int| 0 <= i < a.drop_first().len() implies #[trigger] ax_alike_but_passwords(
            a.drop_first()[i],
            b.drop_first()[i],
        ) by {
            assert(ax_alike_but_passwords(a[i + 1], b[i + 1]));
        }
        lemma_ax_walk_ignores_passwords(t, u, visited + 1, a.drop_first(), b.drop_first());
    }
}

/// Whether another child of the current node may be queued, given how many
/// were queued already: at most `MAX_CHILDREN_PER_NODE` children per node.
pub fn may_queue_child(queued: usize) -> (r: bool)
    ensures
        r == (queued < MAX_CHILDREN_PER_NODE),
{
    queued < MAX_CHILDREN_PER_NODE
}

/// The fragments gathered and their number of characters.
struct Collected {
    texts: Vec<String>,
    total_chars: usize,
}

/// Text gathered during a walk.
pub struct TextWalk {
    collected: Collected,
    url: Option<String>,
    visited: usize,
}

impl TextWalk {
    /// The fragments collected so far.
    pub closed spec fn texts(&self) -> Seq<Seq<char>> {
        self.collected.texts.deep_view()
    }

    /// Their total number of characters.
    pub closed spec fn total_chars(&self) -> nat {
        self.collected.total_chars as nat
    }

    /// The browser address found, if any.
    pub closed spec fn url(&self) -> Option<Seq<char>> {
        opt_view(self.url)
    }

    /// Number of nodes visited.
    pub closed spec fn visited(&self) -> nat {
        self.visited as nat
    }

    /// No fragment lies inside another, the character count matches the
    /// fragments, and the budgets are kept: at most `MAX_NODES` visits, and
    /// fewer than twice `MAX_WINDOW_TEXT_CHARS` characters (a node is only
    /// visited while the count is below the budget, and adds at most that
    /// much).
    #[verifier::type_invariant]
    spec fn wf(&self) -> bool {
        &&& no_nested(self.texts())
        &&& items_in_bounds(self.texts())
        &&& self.collected.total_chars as int == total_len(self.texts())
        &&& self.visited <= MAX_NODES
        &&& self.collected.total_chars < 2 * MAX_WINDOW_TEXT_CHARS
    }

    /// A walk that has seen nothing.
    pub fn new() -> (w: Self)
        ensures
            w.texts() == Seq::<Seq<char>>::empty(),
            w.total_chars() == 0,
            w.url() is None,
            w.visited() == 0,
    {
        let w = TextWalk {
            collected: Collected { texts: Vec::new(), total_chars: 0 },
            url: None,
            visited: 0,
        };
        assert(w.texts() =~= Seq::<Seq<char>>::empty());
        w
    }

    /// The walk goes on while fewer than `MAX_NODES` nodes were visited and
    /// fewer than `MAX_WINDOW_TEXT_CHARS` characters were collected.
    pub fn should_continue(&self) -> (r: bool)
        ensures
            r == (self.visited() < MAX_NODES && self.total_chars() < MAX_WINDOW_TEXT_CHARS),
            r == walk_goes_on(self.texts(), self.visited()),
            fragments_ok(self.texts()),
            self.visited() <= MAX_NODES,
    {
        proof {
            use_type_invariant(self);
        }
        self.visited < MAX_NODES && self.collected.total_chars < MAX_WINDOW_TEXT_CHARS
    }

    fn count_visit(&mut self)
        requires
            old(self).visited() < MAX_NODES,
        ensures
            final(self).visited() == old(self).visited() + 1,
            final(self).texts() == old(self).texts(),
            final(self).total_chars() == old(self).total_chars(),
            final(self).url() == old(self).url(),
    {
        proof {
            use_type_invariant(&*self);
        }
        self.visited = self.visited + 1;
    }

    fn offer(&mut self, raw: String, safari: bool)
        requires
            old(self).total_chars() < MAX_WINDOW_TEXT_CHARS,
        ensures
            final(self).texts() == offered(old(self).texts(), raw@, safari),
            final(self).url() == old(self).url(),
            final(self).visited() == old(self).visited(),
    {
        proof {
            use_type_invariant(&*self);
        }
        proof {
            lemma_fragment_within_budget(raw@);
        }
        let mut c = Collected { texts: Vec::new(), total_chars: 0 };
        assert(c.texts.deep_view() =~= Seq::<Seq<char>>::empty());
        std::mem::swap(&mut c, &mut self.collected);
        if safari {
            push_unique_text(&mut c.texts, &mut c.total_chars, raw);
        } else {
            push_unique_window_text(&mut c.texts, &mut c.total_chars, raw);
        }
        self.collected = c;
    }

    fn note_url(&mut self, is_address_field: bool, value: &Option<String>)
        requires
        ensures
            final(self).url() == url_after(old(self).url(), is_address_field, opt_view(*value)),
            final(self).texts() == old(self).texts(),
            final(self).total_chars() == old(self).total_chars(),
            final(self).visited() == old(self).visited(),
    {
        proof {
            use_type_invariant(&*self);
        }
        if self.url.is_none() && is_address_field {
            match value {
                Some(v) => {
                    if looks_like_url(v.as_str()) {
                        let c = chars_of(v.as_str());
                        let t = trim_chars(&c);
                        self.url = Some(string_from_chars(&t));
                    }
                },
                None => {},
            }
        }
    }

    /// Visits a UI Automation node: a password control gives nothing; a
    /// node with readable text offers it to the collection (browser chrome
    /// labels are noise) and, for a document or text control, ends the
    /// descent; an edit control whose value looks like a URL gives the
    /// address when none was found yet.
    pub fn visit_uia(&mut self, node: &UiaNode) -> (step: NodeStep)
        requires
            old(self).visited() < MAX_NODES,
            old(self).total_chars() < MAX_WINDOW_TEXT_CHARS,
        ensures
            final(self).visited() == old(self).visited() + 1,
            (final(self).texts(), final(self).url()) == uia_visit(
                old(self).texts(),
                old(self).url(),
                *node,
            ),
            node.is_password ==> {
                &&& final(self).texts() == old(self).texts()
                &&& final(self).url() == old(self).url()
                &&& step == NodeStep::VisitChildren
            },
            !node.is_password ==> {
                let readable = uia_readable(*node);
                let whole = node.control == UiaControl::Document || node.control
                    == UiaControl::Text;
                &&& final(self).texts() == match readable {
                    Some(raw) => offered(old(self).texts(), raw, false),
                    None => old(self).texts(),
                }
                &&& if readable is Some && whole {
                    &&& step == NodeStep::SkipChildren
                    &&& final(self).url() == old(self).url()
                } else {
                    &&& step == NodeStep::VisitChildren
                    &&& final(self).url() == url_after(
                        old(self).url(),
                        node.control == UiaControl::Edit,
                        nonblank(opt_view(node.value)),
                    )
                }
            },
    {
        proof {
            use_type_invariant(&*self);
        }
        self.count_visit();
        if node.is_password {
            return NodeStep::VisitChildren;
        }
        let readable = uia_readable_text(node);
        match readable {
            Some(raw) => {
                self.offer(raw, false);
                if is_document_or_text(node.control) {
                    return NodeStep::SkipChildren;
                }
            },
            None => {},
        }
        let value = nonblank_text(&node.value);
        self.note_url(is_edit(node.control), &value);
        NodeStep::VisitChildren
    }

    /// Visits an AX element: a secure text field gives nothing; an element
    /// with readable text offers it to the collection (browser chrome
    /// labels, Safari's among them, are noise) and, for a text area or web
    /// area, ends the descent; a text field whose value looks like a URL
    /// gives the address when none was found yet.
    pub fn visit_ax(&mut self, node: &AxNode) -> (step: NodeStep)
        requires
            old(self).visited() < MAX_NODES,
            old(self).total_chars() < MAX_WINDOW_TEXT_CHARS,
        ensures
            final(self).visited() == old(self).visited() + 1,
            (final(self).texts(), final(self).url()) == ax_visit(
                old(self).texts(),
                old(self).url(),
                *node,
            ),
            ax_is_password(*node) ==> {
                &&& final(self).texts() == old(self).texts()
                &&& final(self).url() == old(self).url()
                &&& step == NodeStep::VisitChildren
            },
            !ax_is_password(*node) ==> {
                let readable = ax_readable(*node);
                let role = nonblank(opt_view(node.role));
                let whole = role == Some("AXTextArea"@) || role == Some("AXWebArea"@);
                &&& final(self).texts() == match readable {
                    Some(raw) => offered(old(self).texts(), raw, true),
                    None => old(self).texts(),
                }
                &&& if readable is Some && whole {
                    &&& step == NodeStep::SkipChildren
                    &&& final(self).url() == old(self).url()
                } else {
                    &&& step == NodeStep::VisitChildren
                    &&& final(self).url() == url_after(
                        old(self).url(),
                        role == Some("AXTextField"@),
                        nonblank(opt_view(node.value)),
                    )
                }
            },
    {
        proof {
            use_type_invariant(&*self);
        }
        self.count_visit();
        let subrole = nonblank_text(&node.subrole);
        if opt_is(&subrole, "AXSecureTextField") {
            return NodeStep::VisitChildren;
        }
        let role = nonblank_text(&node.role);
        let readable = ax_readable_text(node);
        match readable {
            Some(raw) => {
                self.offer(raw, true);
                if opt_is(&role, "AXTextArea") || opt_is(&role, "AXWebArea") {
                    return NodeStep::SkipChildren;
                }
            },
            None => {},
        }
        let value = nonblank_text(&node.value);
        let field = opt_is(&role, "AXTextField");
        self.note_url(field, &value);
        NodeStep::VisitChildren
    }

    /// The window text (the fragments joined by line breaks, if any) and
    /// the address found.
    pub fn finish(self) -> (r: (Option<String>, Option<String>))
        ensures
            opt_view(r.0) == (if self.texts().len() == 0 {
                None
            } else {
                Some(join_lines(self.texts()))
            }),
            opt_view(r.1) == self.url(),
    {
        let text = if self.collected.texts.len() == 0 {
            None
        } else {
            Some(join_texts(&self.collected.texts))
        };
        (text, self.url)
    }
}

proof fn lemma_fragment_within_budget(raw: Seq<char>)
    ensures
        fragment_of(raw).len() <= MAX_WINDOW_TEXT_CHARS,
{
}

fn opt_is(o: &Option<String>, lit: &str) -> (r: bool)
    ensures
        r == (opt_view(*o) == Some(lit@)),
{
    match o {
        Some(s) => {
            let a = chars_of(s.as_str());
            let b = chars_of(lit);
            chars_eq(&a, &b)
        },
        None => false,
    }
}

fn nonblank_text(o: &Option<String>) -> (r: Option<String>)
    ensures
        opt_view(r) == nonblank(opt_view(*o)),
{
    match o {
        Some(s) => {
            let c = chars_of(s.as_str());
            let t = trim_chars(&c);
            if t.len() > 0 {
                Some(s.clone())
            } else {
                None
            }
        },
        None => None,
    }
}

fn is_document_or_text(c: UiaControl) -> (r: bool)
    ensures
        r == (c == UiaControl::Document || c == UiaControl::Text),
{
    match c {
        UiaControl::Document | UiaControl::Text => true,
        _ => false,
    }
}

fn is_edit(c: UiaControl) -> (r: bool)
    ensures
        r == (c == UiaControl::Edit),
{
    match c {
        UiaControl::Edit => true,
        _ => false,
    }
}

fn names_text(c: UiaControl) -> (r: bool)
    ensures
        r == uia_names_text(c),
{
    match c {
        UiaControl::Document | UiaControl::Text | UiaControl::Hyperlink | UiaControl::Group
        | UiaControl::Pane => true,
        _ => false,
    }
}

fn at_least_three_chars(s: &String) -> (r: bool)
    ensures
        r == (s@.len() >= 3),
{
    chars_of(s.as_str()).len() >= 3
}

/// The text a UI Automation node contributes.
pub fn uia_readable_text(node: &UiaNode) -> (r: Option<String>)
    ensures
        opt_view(r) == uia_readable(*node),
{
    let text = nonblank_text(&node.text_pattern);
    if text.is_some() {
        return text;
    }
    let name = nonblank_text(&node.name);
    if names_text(node.control) {
        match &name {
            Some(s) => {
                if at_least_three_chars(s) {
                    return name;
                }
            },
            None => {},
        }
    }
    if is_edit(node.control) {
        return nonblank_text(&node.value);
    }
    None
}

fn first_text(a: Option<String>, b: Option<String>) -> (r: Option<String>)
    ensures
        opt_view(r) == first_of(opt_view(a), opt_view(b)),
{
    if a.is_some() {
        a
    } else {
        b
    }
}

/// The text an AX element contributes.
pub fn ax_readable_text(node: &AxNode) -> (r: Option<String>)
    ensures
        opt_view(r) == ax_readable(*node),
{
    let role = match nonblank_text(&node.role) {
        Some(r) => r,
        None => {
            return None;
        },
    };
    let value = nonblank_text(&node.value);
    let description = nonblank_text(&node.description);
    let title = nonblank_text(&node.title);
    let role = Some(role);
    if opt_is(&role, "AXTextField") || opt_is(&role, "AXTextArea") || opt_is(&role, "AXWebArea")
        || opt_is(&role, "AXSearchField") || opt_is(&role, "AXComboBox") {
        first_text(value, description)
    } else if opt_is(&role, "AXStaticText") || opt_is(&role, "AXLabel") || opt_is(
        &role,
        "AXHeading",
    ) {
        first_text(description, first_text(value, title))
    } else if opt_is(&role, "AXLink") || opt_is(&role, "AXGroup") || opt_is(
        &role,
        "AXGenericElement",
    ) {
        let t = first_text(description, title);
        match &t {
            Some(s) => {
                if at_least_three_chars(s) {
                    t
                } else {
                    None
                }
            },
            None => None,
        }
    } else {
        None
    }
}

/// The text of the focused UI Automation element: nothing for a password
/// control, else its TextPattern text or, failing that, its value.
pub fn uia_focused_text(node: &UiaNode) -> (r: Option<String>)
    ensures
        opt_view(r) == (if node.is_password {
            None
        } else {
            first_of(nonblank(opt_view(node.text_pattern)), nonblank(opt_view(node.value)))
        }),
{
    if node.is_password {
        return None;
    }
    first_text(nonblank_text(&node.text_pattern), nonblank_text(&node.value))
}

/// The text of the focused AX element: nothing for a secure text field,
/// else its value or, failing that, its description.
pub fn ax_focused_text(node: &AxNode) -> (r: Option<String>)
    ensures
        opt_view(r) == (if ax_is_password(*node) {
            None
        } else {
            first_of(nonblank(opt_view(node.value)), nonblank(opt_view(node.description)))
        }),
{
    let subrole = nonblank_text(&node.subrole);
    if opt_is(&subrole, "AXSecureTextField") {
        return None;
    }
    first_text(nonblank_text(&node.value), nonblank_text(&node.description))
}

fn join_texts(texts: &Vec<String>) -> (s: String)
    ensures
        s@ == join_lines(texts.deep_view()),
{
    let mut s = String::new();
    let mut i: usize = 0;
    while i < texts.len()
        invariant
            i <= texts@.len(),
            s@ == join_lines(texts.deep_view().take(i as int)),
        decreases texts@.len() - i,
    {
        let ghost prev = texts.deep_view().take(i as int);
        if i > 0 {
            s.append("\n");
        }
        s.append(texts[i].as_str());
        proof {
            let nxt = texts.deep_view().take(i + 1);
            assert(nxt.drop_last() =~= prev);
            assert(nxt.last() == texts[i as int]@);
            reveal_strlit("\n");
            if i == 0 {
                assert(s@ =~= nxt[0]);
            } else {
                assert(s@ =~= join_lines(prev) + seq!['\n'] + nxt.last());
            }
        }
        i += 1;
    }
    assert(texts.deep_view().take(texts@.len() as int) =~= texts.deep_view());
    s
}

} // verus!
