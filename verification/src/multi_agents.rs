//! How collaboration tool calls and sub-agent activity are presented: the
//! agent picker's names, the titles and details of collaboration calls, and
//! the summary facts of a call.
use vstd::prelude::*;

use crate::projection::items::views;
use crate::text::{
    chars_of, first_line, first_line_end, is_prefix, owned, push_char, starts_with_str, str_eq,
    trim, trimmed, dec, dec_string,
};

verus! {

// ---------------------------------------------------------------------------
// Bounded text
// ---------------------------------------------------------------------------

/// The first line of `s` bounded to `max` characters, `...` marking a cut.
pub open spec fn compact_to(s: Seq<char>, max: nat) -> Seq<char> {
    let line = match first_line(s) {
        Some(l) => l,
        None => s,
    };
    if line.len() > max {
        line.take(max as int) + "..."@
    } else {
        line
    }
}

/// The first line of `value` bounded to `max_graphemes` characters.
pub fn compact_text(value: &str, max_graphemes: usize) -> (r: String)
    ensures
        r@ == compact_to(value@, max_graphemes as nat),
{
    let v = chars_of(value);
    let end = match first_line_end(&v) {
        Some(e) => e,
        None => v.len(),
    };
    assert(v@.take(v.len() as int) =~= v@);
    let stop = if end > max_graphemes {
        max_graphemes
    } else {
        end
    };
    let mut s = String::new();
    let mut i: usize = 0;
    while i < stop
        invariant
            i <= stop <= end <= v.len(),
            s@ == v@.take(i as int),
        decreases stop - i,
    {
        push_char(&mut s, v[i]);
        assert(v@.take(i + 1) =~= v@.take(i as int).push(v@[i as int]));
        i = i + 1;
    }
    if end > max_graphemes {
        s.append("...");
        assert(v@.take(end as int).take(max_graphemes as int) =~= v@.take(max_graphemes as int));
    } else {
        assert(v@.take(end as int) =~= v@.take(stop as int));
    }
    s
}

/// The trimmed value, when there is one and it is not blank.
pub open spec fn non_empty_spec(value: Option<Seq<char>>) -> Option<Seq<char>> {
    match value {
        Some(v) => if trim(v).len() > 0 {
            Some(trim(v))
        } else {
            None
        },
        None => None,
    }
}

pub open spec fn opt_str(v: Option<&str>) -> Option<Seq<char>> {
    match v {
        Some(s) => Some(s@),
        None => None,
    }
}

pub open spec fn opt_string(v: Option<String>) -> Option<Seq<char>> {
    match v {
        Some(s) => Some(s@),
        None => None,
    }
}

/// The trimmed value, when it is not blank (`non_empty_spec`).
pub fn non_empty(value: Option<&str>) -> (r: Option<String>)
    ensures
        opt_string(r) == non_empty_spec(opt_str(value)),
{
    match value {
        Some(v) => {
            let t = trimmed(v);
            if t.as_str().is_empty() {
                None
            } else {
                Some(t)
            }
        },
        None => None,
    }
}

/// The prompt line of a collaboration call: the prompt trimmed and bounded
/// to 160 characters; none for a blank prompt.
pub open spec fn prompt_line_spec(prompt: Seq<char>) -> Option<Seq<char>> {
    match non_empty_spec(Some(prompt)) {
        Some(p) => Some(compact_to(p, 160)),
        None => None,
    }
}

/// The prompt line (`prompt_line_spec`).
pub fn prompt_line(prompt: &str) -> (r: Option<String>)
    ensures
        opt_string(r) == prompt_line_spec(prompt@),
{
    match non_empty(Some(prompt)) {
        Some(p) => Some(compact_text(p.as_str(), 160)),
        None => None,
    }
}

// ---------------------------------------------------------------------------
// Agent picker
// ---------------------------------------------------------------------------

/// The name of an agent in the picker: `Main [default]` for the primary
/// agent; else the nickname and the role in brackets, as far as each is
/// set and not blank; `Agent` with neither.
pub open spec fn picker_name(nickname: Option<Seq<char>>, role: Option<Seq<char>>, is_primary: bool) -> Seq<
    char,
> {
    if is_primary {
        "Main [default]"@
    } else {
        match (non_empty_spec(nickname), non_empty_spec(role)) {
            (Some(n), Some(r)) => n + " ["@ + r + "]"@,
            (Some(n), None) => n,
            (None, Some(r)) => "["@ + r + "]"@,
            (None, None) => "Agent"@,
        }
    }
}

/// The name of an agent in the picker (`picker_name`).
pub fn format_agent_picker_item_name(
    agent_nickname: Option<&str>,
    agent_role: Option<&str>,
    is_primary: bool,
) -> (r: String)
    ensures
        r@ == picker_name(opt_str(agent_nickname), opt_str(agent_role), is_primary),
{
    if is_primary {
        return owned("Main [default]");
    }
    match (non_empty(agent_nickname), non_empty(agent_role)) {
        (Some(n), Some(r)) => {
            let mut s = n;
            s.append(" [");
            s.append(r.as_str());
            s.append("]");
            s
        },
        (Some(n), None) => n,
        (None, Some(r)) => {
            let mut s = owned("[");
            s.append(r.as_str());
            s.append("]");
            s
        },
        (None, None) => owned("Agent"),
    }
}

/// The keys that move between agents.
#[derive(Clone, Copy, Debug, PartialEq, Eq, Structural)]
pub enum AgentKey {
    Left,
    Right,
    Char(char),
    Other,
}

/// A key event for agent navigation: the key, whether Alt was held, and
/// whether it is a press.
#[derive(Clone, Copy, Debug, PartialEq, Eq, Structural)]
pub struct AgentKeyEvent {
    pub code: AgentKey,
    pub alt: bool,
    pub press: bool,
}

/// The key that selects the previous agent.
pub fn previous_agent_shortcut() -> (r: AgentKey)
    ensures
        r == AgentKey::Left,
{
    AgentKey::Left
}

/// The key that selects the next agent.
pub fn next_agent_shortcut() -> (r: AgentKey)
    ensures
        r == AgentKey::Right,
{
    AgentKey::Right
}

/// Whether a key selects the previous agent: Alt+Left, or, where word
/// motion falls back to it (macOS), Alt+b.
pub fn previous_agent_shortcut_matches(
    key: AgentKeyEvent,
    allow_word_motion_fallback: bool,
    on_macos: bool,
) -> (r: bool)
    ensures
        r == ((key.press && key.code == AgentKey::Left && key.alt) || (on_macos
            && allow_word_motion_fallback && key.press && key.code == AgentKey::Char('b')
            && key.alt)),
{
    (key.press && key.code == AgentKey::Left && key.alt) || (on_macos && allow_word_motion_fallback
        && key.press && key.code == AgentKey::Char('b') && key.alt)
}

/// Whether a key selects the next agent: Alt+Right, or, where word motion
/// falls back to it (macOS), Alt+f.
pub fn next_agent_shortcut_matches(
    key: AgentKeyEvent,
    allow_word_motion_fallback: bool,
    on_macos: bool,
) -> (r: bool)
    ensures
        r == ((key.press && key.code == AgentKey::Right && key.alt) || (on_macos
            && allow_word_motion_fallback && key.press && key.code == AgentKey::Char('f')
            && key.alt)),
{
    (key.press && key.code == AgentKey::Right && key.alt) || (on_macos && allow_word_motion_fallback
        && key.press && key.code == AgentKey::Char('f') && key.alt)
}

// ---------------------------------------------------------------------------
// Ordering of ids
// ---------------------------------------------------------------------------

/// Lexicographic order of texts by character code, the order of `String`.
pub open spec fn str_lt(a: Seq<char>, b: Seq<char>) -> bool
    decreases a.len(),
{
    if a.len() == 0 {
        b.len() > 0
    } else if b.len() == 0 {
        false
    } else if a[0] != b[0] {
        a[0] < b[0]
    } else {
        str_lt(a.drop_first(), b.drop_first())
    }
}

pub proof fn lemma_str_lt_irreflexive(a: Seq<char>)
    ensures
        !str_lt(a, a),
    decreases a.len(),
{
    if a.len() > 0 {
        lemma_str_lt_irreflexive(a.drop_first());
    }
}

pub proof fn lemma_str_lt_total(a: Seq<char>, b: Seq<char>)
    ensures
        a == b || str_lt(a, b) || str_lt(b, a),
    decreases a.len(),
{
    if a.len() > 0 && b.len() > 0 && a[0] == b[0] {
        lemma_str_lt_total(a.drop_first(), b.drop_first());
        if a.drop_first() == b.drop_first() {
            assert(a =~= seq![a[0]] + a.drop_first());
            assert(b =~= seq![b[0]] + b.drop_first());
        }
    } else if a.len() == 0 && b.len() == 0 {
        assert(a =~= b);
    }
}

pub proof fn lemma_str_lt_transitive(a: Seq<char>, b: Seq<char>, c: Seq<char>)
    requires
        str_lt(a, b),
        str_lt(b, c),
    ensures
        str_lt(a, c),
    decreases a.len(),
{
    if a.len() > 0 && b.len() > 0 && c.len() > 0 && a[0] == b[0] && b[0] == c[0] {
        lemma_str_lt_transitive(a.drop_first(), b.drop_first(), c.drop_first());
    }
}

/// Whether the texts are in strictly increasing order.
pub open spec fn strictly_sorted(s: Seq<Seq<char>>) -> bool {
    forall|i: int, j: int| 0 <= i < j < s.len() ==> str_lt(#[trigger] s[i], #[trigger] s[j])
}

/// Whether `a < b` (`str_lt`).
pub fn text_less(a: &str, b: &str) -> (r: bool)
    ensures
        r == str_lt(a@, b@),
{
    let va = chars_of(a);
    let vb = chars_of(b);
    let mut i: usize = 0;
    assert(a@.skip(0) =~= a@ && b@.skip(0) =~= b@);
    while i < va.len() && i < vb.len() && va[i] == vb[i]
        invariant
            i <= va.len(),
            i <= vb.len(),
            str_lt(a@, b@) == str_lt(a@.skip(i as int), b@.skip(i as int)),
            va@ == a@,
            vb@ == b@,
        decreases va.len() - i,
    {
        assert(a@.skip(i as int).drop_first() =~= a@.skip(i + 1));
        assert(b@.skip(i as int).drop_first() =~= b@.skip(i + 1));
        i = i + 1;
    }
    if i == va.len() {
        i < vb.len()
    } else if i == vb.len() {
        false
    } else {
        va[i] < vb[i]
    }
}

proof fn lemma_take_push_contains(v: Seq<Seq<char>>, i: int)
    requires
        0 <= i < v.len(),
    ensures
        forall|s: Seq<char>| #[trigger]
            v.take(i + 1).contains(s) <==> (v.take(i).contains(s) || s == v[i]),
{
    let t1 = v.take(i + 1);
    let t0 = v.take(i);
    assert forall|s: Seq<char>| #[trigger]
        v.take(i + 1).contains(s) <==> (v.take(i).contains(s) || s == v[i]) by {
        if t1.contains(s) {
            let k = choose|k: int| 0 <= k < t1.len() && t1[k] == s;
            if k < i {
                assert(t0[k] == s);
            }
        }
        if t0.contains(s) {
            let k = choose|k: int| 0 <= k < t0.len() && t0[k] == s;
            assert(t1[k] == s);
        }
        if s == v[i] {
            assert(v.take(i + 1)[i] == s);
        }
    }
}

/// Inserts `x` into a strictly sorted list unless it is there already.
fn insert_sorted(v: &mut Vec<String>, x: &str)
    requires
        strictly_sorted(views(old(v)@)),
    ensures
        strictly_sorted(views(final(v)@)),
        forall|s: Seq<char>|
            #[trigger] views(final(v)@).contains(s) <==> (views(old(v)@).contains(s) || s == x@),
{
    let ghost old_v = views(v@);
    let mut p: usize = 0;
    while p < v.len() && text_less(v[p].as_str(), x)
        invariant
            p <= v.len(),
            views(v@) == old_v,
            strictly_sorted(old_v),
            forall|i: int| 0 <= i < p ==> str_lt(#[trigger] old_v[i], x@),
        decreases v.len() - p,
    {
        p = p + 1;
    }
    if p < v.len() && str_eq(v[p].as_str(), x) {
        assert(old_v[p as int] == x@);
        assert(old_v.contains(x@));
        return;
    }
    proof {
        if p < v.len() {
            lemma_str_lt_total(old_v[p as int], x@);
        }
    }
    v.insert(p, owned(x));
    let ghost new_v = views(v@);
    proof {
        assert(new_v =~= old_v.insert(p as int, x@));
        assert forall|i: int, j: int| 0 <= i < j < new_v.len() implies str_lt(
            #[trigger] new_v[i],
            #[trigger] new_v[j],
        ) by {
            if j < p {
            } else if j == p {
            } else if i < p {
                if i + 1 < j {
                    lemma_str_lt_transitive(old_v[i], x@, old_v[p as int]);
                    if j - 1 > p {
                        lemma_str_lt_transitive(old_v[i], old_v[p as int], old_v[j - 1]);
                    }
                }
                lemma_str_lt_transitive(old_v[i], x@, old_v[p as int]);
                if j - 1 > p {
                    lemma_str_lt_transitive(old_v[i], old_v[p as int], old_v[j - 1]);
                }
            } else if i == p {
                if j - 1 > p {
                    lemma_str_lt_transitive(x@, old_v[p as int], old_v[j - 1]);
                }
            } else {
            }
        }
        assert forall|s: Seq<char>| #[trigger]
            new_v.contains(s) <==> (old_v.contains(s) || s == x@) by {
            if new_v.contains(s) {
                let k = choose|k: int| 0 <= k < new_v.len() && new_v[k] == s;
                if k < p {
                    assert(old_v[k] == s);
                } else if k > p {
                    assert(old_v[k - 1] == s);
                }
            }
            if old_v.contains(s) {
                let k = choose|k: int| 0 <= k < old_v.len() && old_v[k] == s;
                if k < p {
                    assert(new_v[k] == s);
                } else {
                    assert(new_v[k + 1] == s);
                }
            }
            if s == x@ {
                assert(new_v[p as int] == s);
            }
        }
    }
}

/// The ids of `a` and `b` together, each once, in increasing order.
pub fn sorted_unique_ids(a: &Vec<String>, b: &Vec<String>) -> (r: Vec<String>)
    ensures
        strictly_sorted(views(r@)),
        forall|s: Seq<char>|
            #[trigger] views(r@).contains(s) <==> (views(a@).contains(s) || views(b@).contains(s)),
{
    let mut out: Vec<String> = Vec::new();
    let mut i: usize = 0;
    while i < a.len()
        invariant
            i <= a.len(),
            strictly_sorted(views(out@)),
            forall|s: Seq<char>| #[trigger]
                views(out@).contains(s) <==> views(a@).take(i as int).contains(s),
        decreases a.len() - i,
    {
        insert_sorted(&mut out, a[i].as_str());
        proof {
            lemma_take_push_contains(views(a@), i as int);
        }
        i = i + 1;
    }
    assert(views(a@).take(a.len() as int) =~= views(a@));
    let mut j: usize = 0;
    while j < b.len()
        invariant
            j <= b.len(),
            strictly_sorted(views(out@)),
            forall|s: Seq<char>| #[trigger]
                views(out@).contains(s) <==> (views(a@).contains(s) || views(b@).take(
                    j as int,
                ).contains(s)),
        decreases b.len() - j,
    {
        insert_sorted(&mut out, b[j].as_str());
        proof {
            lemma_take_push_contains(views(b@), j as int);
        }
        j = j + 1;
    }
    assert(views(b@).take(b.len() as int) =~= views(b@));
    out
}

/// Two strictly sorted lists with the same elements are the same list: the
/// order of ids is determined by the ids alone.
pub proof fn lemma_sorted_unique(a: Seq<Seq<char>>, b: Seq<Seq<char>>)
    requires
        strictly_sorted(a),
        strictly_sorted(b),
        forall|s: Seq<char>|
            #![trigger a.contains(s)]
            #![trigger b.contains(s)]
            a.contains(s) <==> b.contains(s),
    ensures
        a == b,
    decreases a.len() + b.len(),
{
    if a.len() == 0 {
        if b.len() > 0 {
            assert(b.contains(b[0]));
            assert(a.contains(b[0]));
        }
        assert(a =~= b);
    } else if b.len() == 0 {
        assert(a.contains(a[0]));
        assert(b.contains(a[0]));
    } else {
        assert(a.contains(a[0]));
        assert(b.contains(a[0]));
        assert(b.contains(b[0]));
        assert(a.contains(b[0]));
        if a[0] != b[0] {
            let ka = choose|k: int| 0 <= k < b.len() && b[k] == a[0];
            let kb = choose|k: int| 0 <= k < a.len() && a[k] == b[0];
            assert(ka > 0 && kb > 0);
            assert(str_lt(b[0], b[ka]));
            assert(str_lt(a[0], a[kb]));
            lemma_str_lt_transitive(a[0], b[0], a[0]);
            lemma_str_lt_irreflexive(a[0]);
        }
        let ta = a.drop_first();
        let tb = b.drop_first();
        assert forall|s: Seq<char>|
            #![trigger ta.contains(s)]
            #![trigger tb.contains(s)]
            ta.contains(s) <==> tb.contains(s) by {
            if ta.contains(s) {
                let k = choose|k: int| 0 <= k < ta.len() && ta[k] == s;
                assert(a[k + 1] == s);
                assert(a.contains(s));
                assert(b.contains(s));
                let m = choose|m: int| 0 <= m < b.len() && b[m] == s;
                if m == 0 {
                    assert(str_lt(a[0], a[k + 1]));
                    lemma_str_lt_irreflexive(a[0]);
                }
                assert(tb[m - 1] == s);
            }
            if tb.contains(s) {
                let k = choose|k: int| 0 <= k < tb.len() && tb[k] == s;
                assert(b[k + 1] == s);
                assert(b.contains(s));
                assert(a.contains(s));
                let m = choose|m: int| 0 <= m < a.len() && a[m] == s;
                if m == 0 {
                    assert(str_lt(b[0], b[k + 1]));
                    lemma_str_lt_irreflexive(b[0]);
                }
                assert(ta[m - 1] == s);
            }
        }
        assert forall|i: int, j: int| 0 <= i < j < ta.len() implies str_lt(
            #[trigger] ta[i],
            #[trigger] ta[j],
        ) by {
            assert(ta[i] == a[i + 1] && ta[j] == a[j + 1]);
        }
        assert forall|i: int, j: int| 0 <= i < j < tb.len() implies str_lt(
            #[trigger] tb[i],
            #[trigger] tb[j],
        ) by {
            assert(tb[i] == b[i + 1] && tb[j] == b[j + 1]);
        }
        lemma_sorted_unique(ta, tb);
        assert(a =~= seq![a[0]] + ta);
        assert(b =~= seq![b[0]] + tb);
    }
}

// ---------------------------------------------------------------------------
// Collaboration calls
// ---------------------------------------------------------------------------

/// What a collaboration call does.
#[derive(Clone, Copy, Debug, PartialEq, Eq, Structural)]
pub enum CollabAgentTool {
    SpawnAgent,
    SendInput,
    ResumeAgent,
    Wait,
    CloseAgent,
}

/// How far a collaboration call is.
#[derive(Clone, Copy, Debug, PartialEq, Eq, Structural)]
pub enum CollabAgentToolCallStatus {
    InProgress,
    Completed,
    Failed,
}

/// The state of an agent.
#[derive(Clone, Copy, Debug, PartialEq, Eq, Structural)]
pub enum CollabAgentStatus {
    PendingInit,
    Running,
    Interrupted,
    Completed,
    Errored,
    Shutdown,
    NotFound,
}

/// An agent's state and its last message.
#[derive(Debug)]
pub struct CollabAgentState {
    pub status: CollabAgentStatus,
    pub message: Option<String>,
}

/// The states of agents by thread id: each id at most once.
#[derive(Debug)]
pub struct AgentStates {
    entries: Vec<(String, CollabAgentState)>,
}

/// The entry of `key` among `e`.
pub open spec fn lookup(e: Seq<(Seq<char>, CollabAgentState)>, key: Seq<char>) -> Option<
    CollabAgentState,
>
    decreases e.len(),
{
    if e.len() == 0 {
        None
    } else if e.last().0 == key {
        Some(e.last().1)
    } else {
        lookup(e.drop_last(), key)
    }
}

/// Whether no key occurs twice.
pub open spec fn keys_unique(e: Seq<(Seq<char>, CollabAgentState)>) -> bool {
    forall|i: int, j: int| 0 <= i < j < e.len() ==> #[trigger] e[i].0 != #[trigger] e[j].0
}

pub open spec fn entry_view(p: (String, CollabAgentState)) -> (Seq<char>, CollabAgentState) {
    (p.0@, p.1)
}

impl AgentStates {
    /// The entries, keys by text, in insertion order.
    pub closed spec fn entries(&self) -> Seq<(Seq<char>, CollabAgentState)> {
        self.entries@.map_values(|p: (String, CollabAgentState)| entry_view(p))
    }

    #[verifier::type_invariant]
    closed spec fn inv(&self) -> bool {
        keys_unique(self.entries())
    }

    /// No agents.
    pub fn new() -> (r: AgentStates)
        ensures
            r.entries().len() == 0,
    {
        let r = AgentStates { entries: Vec::new() };
        assert(r.entries() =~= Seq::<(Seq<char>, CollabAgentState)>::empty());
        r
    }

    /// The number of agents.
    pub fn len(&self) -> (r: usize)
        ensures
            r == self.entries().len(),
    {
        self.entries.len()
    }

    /// The id of the `i`th agent.
    pub fn key_at(&self, i: usize) -> (r: &str)
        requires
            i < self.entries().len(),
        ensures
            r@ == self.entries()[i as int].0,
    {
        self.entries[i].0.as_str()
    }

    /// The state of the `i`th agent.
    pub fn state_at(&self, i: usize) -> (r: &CollabAgentState)
        requires
            i < self.entries().len(),
        ensures
            *r == self.entries()[i as int].1,
    {
        &self.entries[i].1
    }

    /// The state of the agent `key`, if known.
    pub fn get(&self, key: &str) -> (r: Option<&CollabAgentState>)
        ensures
            match r {
                Some(s) => lookup(self.entries(), key@) == Some(*s),
                None => lookup(self.entries(), key@) is None,
            },
    {
        let mut i = self.entries.len();
        assert(self.entries().take(i as int) =~= self.entries());
        while i > 0
            invariant
                i <= self.entries@.len(),
                lookup(self.entries(), key@) == lookup(self.entries().take(i as int), key@),
            decreases i,
        {
            if str_eq(self.entries[i - 1].0.as_str(), key) {
                assert(self.entries().take(i as int).last() == entry_view(self.entries@[i - 1]));
                return Some(&self.entries[i - 1].1);
            }
            assert(self.entries().take(i as int).drop_last() =~= self.entries().take(i - 1));
            i = i - 1;
        }
        None
    }

    /// Sets the state of the agent `key`, replacing a known one.
    pub fn insert(&mut self, key: String, state: CollabAgentState)
        ensures
            lookup(final(self).entries(), key@) == Some(state),
            forall|k: Seq<char>|
                k != key@ ==> #[trigger] lookup(final(self).entries(), k) == lookup(
                    old(self).entries(),
                    k,
                ),
    {
        proof {
            use_type_invariant(&*self);
        }
        let ghost e = self.entries();
        let mut i: usize = 0;
        let mut found = false;
        while i < self.entries.len()
            invariant_except_break
                !found,
                i <= self.entries@.len(),
                forall|j: int| 0 <= j < i ==> #[trigger] e[j].0 != key@,
            invariant
                e == self.entries(),
                i <= self.entries@.len(),
            ensures
                found ==> i < self.entries@.len() && e[i as int].0 == key@,
                !found ==> forall|j: int| 0 <= j < e.len() ==> #[trigger] e[j].0 != key@,
            decreases self.entries.len() - i,
        {
            if str_eq(self.entries[i].0.as_str(), key.as_str()) {
                found = true;
                break;
            }
            i = i + 1;
        }
        let ghost kv = key@;
        let ghost st = state;
        if found {
            let ghost e2 = e.update(i as int, (kv, st));
            proof {
                assert forall|a: int, b: int| 0 <= a < b < e2.len() implies #[trigger] e2[a].0
                    != #[trigger] e2[b].0 by {
                    assert(e2[a].0 == e[a].0 && e2[b].0 == e[b].0);
                }
                assert(self.entries@.update(i as int, (key, state)).map_values(
                    |p: (String, CollabAgentState)| entry_view(p),
                ) =~= e2);
            }
            let mut v: Vec<(String, CollabAgentState)> = Vec::new();
            std::mem::swap(&mut v, &mut self.entries);
            v.set(i, (key, state));
            self.entries = v;
            proof {
                lemma_lookup_at(e2, i as int);
                assert forall|k: Seq<char>| k != kv implies #[trigger] lookup(e2, k) == lookup(
                    e,
                    k,
                ) by {
                    lemma_lookup_same(e, e2, k);
                }
            }
        } else {
            let ghost e2 = e.push((kv, st));
            proof {
                assert forall|a: int, b: int| 0 <= a < b < e2.len() implies #[trigger] e2[a].0
                    != #[trigger] e2[b].0 by {
                    if b == e.len() {
                        assert(e2[a].0 == e[a].0);
                    }
                }
                assert(self.entries@.push((key, state)).map_values(
                    |p: (String, CollabAgentState)| entry_view(p),
                ) =~= e2);
                assert(e2.drop_last() =~= e);
            }
            let mut v: Vec<(String, CollabAgentState)> = Vec::new();
            std::mem::swap(&mut v, &mut self.entries);
            v.push((key, state));
            self.entries = v;
        }
    }
}

/// With no key twice, the entry of a key is the one entry holding it.
pub proof fn lemma_lookup_at(e: Seq<(Seq<char>, CollabAgentState)>, i: int)
    requires
        keys_unique(e),
        0 <= i < e.len(),
    ensures
        lookup(e, e[i].0) == Some(e[i].1),
    decreases e.len(),
{
    if i < e.len() - 1 {
        assert(e.last().0 != e[i].0) by {
            assert(e[i].0 != e[e.len() - 1].0);
        }
        let d = e.drop_last();
        assert(keys_unique(d)) by {
            assert forall|a: int, b: int| 0 <= a < b < d.len() implies #[trigger] d[a].0
                != #[trigger] d[b].0 by {
                assert(d[a] == e[a] && d[b] == e[b]);
            }
        }
        assert(d[i] == e[i]);
        lemma_lookup_at(d, i);
    }
}

/// A key held by no entry has none.
pub proof fn lemma_lookup_absent(e: Seq<(Seq<char>, CollabAgentState)>, k: Seq<char>)
    requires
        forall|j: int| 0 <= j < e.len() ==> #[trigger] e[j].0 != k,
    ensures
        lookup(e, k) is None,
    decreases e.len(),
{
    if e.len() > 0 {
        assert(e.last().0 != k) by {
            assert(e[e.len() - 1].0 != k);
        }
        let d = e.drop_last();
        assert forall|j: int| 0 <= j < d.len() implies #[trigger] d[j].0 != k by {
            assert(d[j] == e[j]);
        }
        lemma_lookup_absent(d, k);
    }
}

proof fn lemma_lookup_same(
    e: Seq<(Seq<char>, CollabAgentState)>,
    e2: Seq<(Seq<char>, CollabAgentState)>,
    k: Seq<char>,
)
    requires
        e.len() == e2.len(),
        forall|j: int| 0 <= j < e.len() ==> (#[trigger] e[j].0 == k || e2[j].0 == k) ==> e[j] == e2[j],
    ensures
        lookup(e, k) == lookup(e2, k),
    decreases e.len(),
{
    if e.len() > 0 {
        let n = e.len() - 1;
        assert(e[n].0 == k || e2[n].0 == k ==> e[n] == e2[n]);
        let d = e.drop_last();
        let d2 = e2.drop_last();
        assert forall|j: int| 0 <= j < d.len() && (#[trigger] d[j].0 == k || d2[j].0 == k) implies d[j]
            == d2[j] by {
            assert(d[j] == e[j] && d2[j] == e2[j]);
        }
        lemma_lookup_same(d, d2, k);
    }
}

/// A collaboration tool call.
#[derive(Debug)]
pub struct CollabAgentToolCall {
    pub id: String,
    pub tool: CollabAgentTool,
    pub status: CollabAgentToolCallStatus,
    pub sender_thread_id: String,
    pub receiver_thread_ids: Vec<String>,
    pub prompt: Option<String>,
    pub model: Option<String>,
    pub reasoning_effort: Option<String>,
    pub agents_states: AgentStates,
}

/// The title and detail lines shown for a collaboration call.
pub struct MultiAgentHistoryCell {
    pub title: String,
    pub details: Vec<String>,
}

/// The model and effort a spawn request asked for.
pub struct SpawnRequestSummary {
    pub model: String,
    pub reasoning_effort: String,
}

/// The label of an agent state.
pub open spec fn status_label(status: CollabAgentStatus) -> Seq<char> {
    match status {
        CollabAgentStatus::PendingInit => "pending"@,
        CollabAgentStatus::Running => "running"@,
        CollabAgentStatus::Interrupted => "interrupted"@,
        CollabAgentStatus::Completed => "completed"@,
        CollabAgentStatus::Errored => "errored"@,
        CollabAgentStatus::Shutdown => "shutdown"@,
        CollabAgentStatus::NotFound => "not-found"@,
    }
}

/// Different agent states have different labels: each label names its
/// state by a different first letter.
pub proof fn lemma_status_labels_differ(a: CollabAgentStatus, b: CollabAgentStatus)
    ensures
        a != b ==> status_label(a) != status_label(b),
        status_label(a).len() > 0,
{
    reveal_strlit("pending");
    reveal_strlit("running");
    reveal_strlit("interrupted");
    reveal_strlit("completed");
    reveal_strlit("errored");
    reveal_strlit("shutdown");
    reveal_strlit("not-found");
    assert("pending"@[0] == 'p' && "running"@[0] == 'r' && "interrupted"@[0] == 'i'
        && "completed"@[0] == 'c' && "errored"@[0] == 'e' && "shutdown"@[0] == 's'
        && "not-found"@[0] == 'n');
}

/// The label of an agent state (`status_label`).
pub fn collab_agent_status_label(status: CollabAgentStatus) -> (r: &'static str)
    ensures
        r@ == status_label(status),
{
    match status {
        CollabAgentStatus::PendingInit => "pending",
        CollabAgentStatus::Running => "running",
        CollabAgentStatus::Interrupted => "interrupted",
        CollabAgentStatus::Completed => "completed",
        CollabAgentStatus::Errored => "errored",
        CollabAgentStatus::Shutdown => "shutdown",
        CollabAgentStatus::NotFound => "not-found",
    }
}

/// How an agent's state reads in a detail line; a completed agent's reply
/// is bounded to 240 characters, an error to 160.
pub open spec fn state_text(state: CollabAgentState) -> Seq<char> {
    match state.status {
        CollabAgentStatus::PendingInit => "Pending init"@,
        CollabAgentStatus::Running => "Running"@,
        CollabAgentStatus::Interrupted => "Interrupted"@,
        CollabAgentStatus::Completed => match state.message {
            Some(m) => "Completed - "@ + compact_to(m@, 240),
            None => "Completed"@,
        },
        CollabAgentStatus::Errored => "Error - "@ + compact_to(
            match state.message {
                Some(m) => m@,
                None => "Agent errored"@,
            },
            160,
        ),
        CollabAgentStatus::Shutdown => "Shutdown"@,
        CollabAgentStatus::NotFound => "Not found"@,
    }
}

/// How an agent's state reads (`state_text`).
pub fn status_summary_text(state: &CollabAgentState) -> (r: String)
    ensures
        r@ == state_text(*state),
{
    match state.status {
        CollabAgentStatus::PendingInit => owned("Pending init"),
        CollabAgentStatus::Running => owned("Running"),
        CollabAgentStatus::Interrupted => owned("Interrupted"),
        CollabAgentStatus::Completed => match &state.message {
            Some(m) => {
                let mut s = owned("Completed - ");
                s.append(compact_text(m.as_str(), 240).as_str());
                s
            },
            None => owned("Completed"),
        },
        CollabAgentStatus::Errored => {
            let mut s = owned("Error - ");
            match &state.message {
                Some(m) => s.append(compact_text(m.as_str(), 160).as_str()),
                None => s.append(compact_text("Agent errored", 160).as_str()),
            }
            s
        },
        CollabAgentStatus::Shutdown => owned("Shutdown"),
        CollabAgentStatus::NotFound => owned("Not found"),
    }
}

/// The states in the order of their labels.
pub open spec fn status_in_label_order(i: int) -> CollabAgentStatus {
    if i == 0 {
        CollabAgentStatus::Completed
    } else if i == 1 {
        CollabAgentStatus::Errored
    } else if i == 2 {
        CollabAgentStatus::Interrupted
    } else if i == 3 {
        CollabAgentStatus::NotFound
    } else if i == 4 {
        CollabAgentStatus::PendingInit
    } else if i == 5 {
        CollabAgentStatus::Running
    } else {
        CollabAgentStatus::Shutdown
    }
}

/// The number of agents in state `st` among the first `n`.
pub open spec fn status_count(e: Seq<(Seq<char>, CollabAgentState)>, st: CollabAgentStatus, n: int) -> nat
    decreases n,
{
    if n <= 0 {
        0
    } else {
        status_count(e, st, n - 1) + if e[n - 1].1.status == st {
            1nat
        } else {
            0nat
        }
    }
}

/// `label: count` for each of the first `k` states in label order that
/// some agent is in.
pub open spec fn status_lines(e: Seq<(Seq<char>, CollabAgentState)>, k: int) -> Seq<Seq<char>>
    decreases k,
{
    if k <= 0 {
        Seq::empty()
    } else {
        let st = status_in_label_order(k - 1);
        let n = status_count(e, st, e.len() as int);
        if n > 0 {
            status_lines(e, k - 1).push(status_label(st) + ": "@ + dec(n))
        } else {
            status_lines(e, k - 1)
        }
    }
}

/// The summary facts of a collaboration call: the number of agents, how
/// many are in each state (by label), then the model, the effort and the
/// prompt where set.
pub open spec fn collab_summary_spec(
    e: Seq<(Seq<char>, CollabAgentState)>,
    prompt: Option<Seq<char>>,
    model: Option<Seq<char>>,
    effort: Option<Seq<char>>,
) -> Seq<Seq<char>> {
    let a = seq!["agents: "@ + dec(e.len())] + status_lines(e, 7);
    let b = match non_empty_spec(model) {
        Some(m) => a.push("model: "@ + compact_to(m, 160)),
        None => a,
    };
    let c = match effort {
        Some(x) => b.push("effort: "@ + x),
        None => b,
    };
    match non_empty_spec(prompt) {
        Some(p) => c.push("prompt: "@ + compact_to(p, 160)),
        None => c,
    }
}

fn count_status(states: &AgentStates, st: CollabAgentStatus) -> (r: u64)
    ensures
        r == status_count(states.entries(), st, states.entries().len() as int),
{
    let mut n: u64 = 0;
    let mut i: usize = 0;
    let total = states.len();
    while i < total
        invariant
            i <= total,
            total == states.entries().len(),
            n == status_count(states.entries(), st, i as int),
            n <= i,
        decreases states.entries().len() - i,
    {
        if states.state_at(i).status == st {
            n = n + 1;
        }
        i = i + 1;
    }
    n
}

fn push_line(v: &mut Vec<String>, line: String)
    ensures
        views(final(v)@) == views(old(v)@).push(line@),
{
    v.push(line);
    assert(views(v@) =~= views(old(v)@).push(line@));
}

/// The summary facts of a collaboration call (`collab_summary_spec`).
pub fn collab_summary(
    agents_states: &AgentStates,
    prompt: Option<&str>,
    model: Option<&str>,
    reasoning_effort: Option<&str>,
) -> (r: Vec<String>)
    ensures
        views(r@) == collab_summary_spec(
            agents_states.entries(),
            opt_str(prompt),
            opt_str(model),
            opt_str(reasoning_effort),
        ),
{
    let ghost e = agents_states.entries();
    let mut details: Vec<String> = Vec::new();
    let mut first = owned("agents: ");
    first.append(dec_string(agents_states.len() as u64).as_str());
    push_line(&mut details, first);
    let order = [
        CollabAgentStatus::Completed,
        CollabAgentStatus::Errored,
        CollabAgentStatus::Interrupted,
        CollabAgentStatus::NotFound,
        CollabAgentStatus::PendingInit,
        CollabAgentStatus::Running,
        CollabAgentStatus::Shutdown,
    ];
    let mut k: usize = 0;
    while k < 7
        invariant
            k <= 7,
            e == agents_states.entries(),
            order@.len() == 7,
            forall|j: int| 0 <= j < 7 ==> #[trigger] order@[j] == status_in_label_order(j),
            views(details@) == seq!["agents: "@ + dec(e.len())] + status_lines(e, k as int),
        decreases 7 - k,
    {
        let st = order[k];
        let n = count_status(agents_states, st);
        if n > 0 {
            let mut line = owned(collab_agent_status_label(st));
            line.append(": ");
            line.append(dec_string(n).as_str());
            push_line(&mut details, line);
        }
        k = k + 1;
    }
    match non_empty(model) {
        Some(m) => {
            let mut line = owned("model: ");
            line.append(compact_text(m.as_str(), 160).as_str());
            push_line(&mut details, line);
        },
        None => {},
    }
    match reasoning_effort {
        Some(x) => {
            let mut line = owned("effort: ");
            line.append(x);
            push_line(&mut details, line);
        },
        None => {},
    }
    match non_empty(prompt) {
        Some(p) => {
            let mut line = owned("prompt: ");
            line.append(compact_text(p.as_str(), 160).as_str());
            push_line(&mut details, line);
        },
        None => {},
    }
    details
}

/// The ids in increasing order, each once, holding exactly the ids of
/// `src`.
pub open spec fn sorted_ids(src: Seq<Seq<char>>) -> Seq<Seq<char>> {
    choose|ids: Seq<Seq<char>>|
        strictly_sorted(ids) && forall|s: Seq<char>| #[trigger] ids.contains(s) <==> src.contains(s)
}

/// The keys of the entries.
pub open spec fn keys_of(e: Seq<(Seq<char>, CollabAgentState)>) -> Seq<Seq<char>> {
    e.map_values(|p: (Seq<char>, CollabAgentState)| p.0)
}

/// A detail line for one agent after a wait: its id and its state.
pub open spec fn wait_line(id: Seq<char>, e: Seq<(Seq<char>, CollabAgentState)>) -> Seq<char> {
    id + ": "@ + match lookup(e, id) {
        Some(st) => state_text(st),
        None => "Error - agent state unavailable"@,
    }
}

/// The lines after a wait: one per agent waited on or known, in id order;
/// a single line saying so when there are none.
pub open spec fn wait_lines(receivers: Seq<Seq<char>>, e: Seq<(Seq<char>, CollabAgentState)>) -> Seq<
    Seq<char>,
> {
    let ids = sorted_ids(receivers + keys_of(e));
    if ids.len() == 0 {
        seq!["No agents completed yet"@]
    } else {
        ids.map_values(|id: Seq<char>| wait_line(id, e))
    }
}

/// The lines after a wait (`wait_lines`).
pub fn wait_complete_lines(receiver_thread_ids: &Vec<String>, agents_states: &AgentStates) -> (r:
    Vec<String>)
    ensures
        views(r@) == wait_lines(views(receiver_thread_ids@), agents_states.entries()),
{
    let ghost e = agents_states.entries();
    let mut keys: Vec<String> = Vec::new();
    let mut i: usize = 0;
    while i < agents_states.len()
        invariant
            i <= e.len(),
            e == agents_states.entries(),
            views(keys@) == keys_of(e).take(i as int),
        decreases e.len() - i,
    {
        let k = owned(agents_states.key_at(i));
        push_line(&mut keys, k);
        assert(keys_of(e).take(i + 1) =~= keys_of(e).take(i as int).push(e[i as int].0));
        i = i + 1;
    }
    assert(keys_of(e).take(e.len() as int) =~= keys_of(e));
    let ids = sorted_unique_ids(receiver_thread_ids, &keys);
    let ghost src = views(receiver_thread_ids@) + keys_of(e);
    proof {
        assert forall|s: Seq<char>| #[trigger] views(ids@).contains(s) <==> src.contains(s) by {
            if src.contains(s) {
                let k = choose|k: int| 0 <= k < src.len() && src[k] == s;
                if k < views(receiver_thread_ids@).len() {
                    assert(views(receiver_thread_ids@)[k] == s);
                } else {
                    assert(views(keys@)[k - views(receiver_thread_ids@).len()] == s);
                }
            }
            if views(receiver_thread_ids@).contains(s) {
                let k = choose|k: int|
                    0 <= k < views(receiver_thread_ids@).len() && views(receiver_thread_ids@)[k]
                        == s;
                assert(src[k] == s);
            }
            if views(keys@).contains(s) {
                let k = choose|k: int| 0 <= k < views(keys@).len() && views(keys@)[k] == s;
                assert(src[k + views(receiver_thread_ids@).len()] == s);
            }
        }
        let chosen = sorted_ids(src);
        lemma_sorted_unique(views(ids@), chosen);
    }
    let mut lines: Vec<String> = Vec::new();
    if ids.len() == 0 {
        push_line(&mut lines, owned("No agents completed yet"));
        return lines;
    }
    let mut j: usize = 0;
    while j < ids.len()
        invariant
            j <= ids.len(),
            e == agents_states.entries(),
            views(lines@) == views(ids@).take(j as int).map_values(|id: Seq<char>| wait_line(id, e)),
        decreases ids.len() - j,
    {
        let mut line = owned(ids[j].as_str());
        line.append(": ");
        match agents_states.get(ids[j].as_str()) {
            Some(st) => line.append(status_summary_text(st).as_str()),
            None => line.append("Error - agent state unavailable"),
        }
        push_line(&mut lines, line);
        assert(views(ids@).take(j + 1) =~= views(ids@).take(j as int).push(ids@[j as int]@));
        assert(views(ids@).take(j + 1).map_values(|id: Seq<char>| wait_line(id, e))
            =~= views(ids@).take(j as int).map_values(|id: Seq<char>| wait_line(id, e)).push(
            wait_line(ids@[j as int]@, e),
        ));
        j = j + 1;
    }
    assert(views(ids@).take(ids.len() as int) =~= views(ids@));
    lines
}

/// The title of a collaboration call; none for a spawn, an input or a
/// close still in progress.
pub open spec fn call_title(
    tool: CollabAgentTool,
    status: CollabAgentToolCallStatus,
    receivers: Seq<Seq<char>>,
) -> Option<Seq<char>> {
    let receiver = if receivers.len() > 0 {
        receivers[0]
    } else {
        "agents"@
    };
    let in_progress = status == CollabAgentToolCallStatus::InProgress;
    match tool {
        CollabAgentTool::SpawnAgent => if in_progress {
            None
        } else {
            Some("Spawned "@ + receiver)
        },
        CollabAgentTool::SendInput => if in_progress {
            None
        } else {
            Some("Sent input to "@ + receiver)
        },
        CollabAgentTool::ResumeAgent => if in_progress {
            Some("Resuming "@ + receiver)
        } else {
            Some("Resumed "@ + receiver)
        },
        CollabAgentTool::Wait => if in_progress {
            if receivers.len() == 1 {
                Some("Waiting for "@ + receiver)
            } else {
                Some("Waiting for "@ + dec(receivers.len()) + " agents"@)
            }
        } else {
            Some("Finished waiting"@)
        },
        CollabAgentTool::CloseAgent => if in_progress {
            None
        } else {
            Some("Closed "@ + receiver)
        },
    }
}

/// A resume that is no longer running is titled "Resumed" with the first
/// agent resumed, one still running "Resuming", so the two titles differ.
pub proof fn lemma_finished_resume_is_titled_resumed(
    status: CollabAgentToolCallStatus,
    receivers: Seq<Seq<char>>,
)
    requires
        receivers.len() > 0,
    ensures
        status != CollabAgentToolCallStatus::InProgress ==> call_title(
            CollabAgentTool::ResumeAgent,
            status,
            receivers,
        ) == Some("Resumed "@ + receivers[0]),
        call_title(CollabAgentTool::ResumeAgent, CollabAgentToolCallStatus::InProgress, receivers)
            == Some("Resuming "@ + receivers[0]),
        status != CollabAgentToolCallStatus::InProgress ==> call_title(
            CollabAgentTool::ResumeAgent,
            status,
            receivers,
        ) != call_title(CollabAgentTool::ResumeAgent, CollabAgentToolCallStatus::InProgress, receivers),
{
    reveal_strlit("Resumed ");
    reveal_strlit("Resuming ");
    let done = "Resumed "@ + receivers[0];
    let running = "Resuming "@ + receivers[0];
    assert("Resumed "@ =~= seq!['R', 'e', 's', 'u', 'm', 'e', 'd', ' ']);
    assert("Resuming "@ =~= seq!['R', 'e', 's', 'u', 'm', 'i', 'n', 'g', ' ']);
    assert(done[6] == "Resumed "@[6]);
    assert(running[6] == "Resuming "@[6]);
}

/// The title of a finished call says what was done to the first agent
/// named (or to "agents" when none is named); a finished wait says the
/// wait is over; while a wait runs it names the one agent or counts them;
/// spawns, inputs and closes still running have no title.
pub proof fn lemma_call_titles_say_what_was_done(
    status: CollabAgentToolCallStatus,
    receivers: Seq<Seq<char>>,
)
    ensures
        ({
            let who = if receivers.len() > 0 {
                receivers[0]
            } else {
                "agents"@
            };
            if status == CollabAgentToolCallStatus::InProgress {
                &&& call_title(CollabAgentTool::SpawnAgent, status, receivers) is None
                &&& call_title(CollabAgentTool::SendInput, status, receivers) is None
                &&& call_title(CollabAgentTool::CloseAgent, status, receivers) is None
                &&& call_title(CollabAgentTool::Wait, status, receivers) == Some(
                    if receivers.len() == 1 {
                        "Waiting for "@ + who
                    } else {
                        "Waiting for "@ + dec(receivers.len()) + " agents"@
                    },
                )
            } else {
                &&& call_title(CollabAgentTool::SpawnAgent, status, receivers) == Some("Spawned "@ + who)
                &&& call_title(CollabAgentTool::SendInput, status, receivers) == Some(
                    "Sent input to "@ + who,
                )
                &&& call_title(CollabAgentTool::CloseAgent, status, receivers) == Some("Closed "@ + who)
                &&& call_title(CollabAgentTool::Wait, status, receivers) == Some("Finished waiting"@)
            }
        }),
{
}

/// The detail lines of a collaboration call: the prompt line; for a spawn,
/// the model and effort asked for; after a wait, one line per agent; after
/// a resume, the resumed agent's state.
pub open spec fn call_details(c: CollabAgentToolCall) -> Seq<Seq<char>> {
    let receivers = views(c.receiver_thread_ids@);
    let e = c.agents_states.entries();
    let in_progress = c.status == CollabAgentToolCallStatus::InProgress;
    let d0 = match prompt_line_spec(
        match c.prompt {
            Some(p) => p@,
            None => Seq::empty(),
        },
    ) {
        Some(p) => seq![p],
        None => Seq::empty(),
    };
    let d1 = match (c.tool, c.model, c.reasoning_effort) {
        (CollabAgentTool::SpawnAgent, Some(m), Some(x)) => d0.push(
            "model: "@ + compact_to(m@, 160) + " effort: "@ + x@,
        ),
        _ => d0,
    };
    let d2 = if c.tool == CollabAgentTool::Wait && !in_progress {
        d1 + wait_lines(receivers, e)
    } else {
        d1
    };
    if c.tool == CollabAgentTool::ResumeAgent && !in_progress {
        d2.push(
            match if receivers.len() > 0 {
                lookup(e, receivers[0])
            } else {
                None
            } {
                Some(st) => state_text(st),
                None => "Error - Agent resume failed"@,
            },
        )
    } else {
        d2
    }
}

/// The model and effort of a spawn request that names both.
pub fn spawn_request_summary(call: &CollabAgentToolCall) -> (r: Option<SpawnRequestSummary>)
    ensures
        match r {
            Some(s) => call.tool == CollabAgentTool::SpawnAgent && opt_string(call.model) == Some(
                s.model@,
            ) && opt_string(call.reasoning_effort) == Some(s.reasoning_effort@),
            None => !(call.tool == CollabAgentTool::SpawnAgent && call.model is Some
                && call.reasoning_effort is Some),
        },
{
    match (call.tool, &call.model, &call.reasoning_effort) {
        (CollabAgentTool::SpawnAgent, Some(m), Some(x)) => Some(
            SpawnRequestSummary { model: owned(m.as_str()), reasoning_effort: owned(x.as_str()) },
        ),
        _ => None,
    }
}

fn title_of(call: &CollabAgentToolCall) -> (r: Option<String>)
    ensures
        opt_string(r) == call_title(call.tool, call.status, views(call.receiver_thread_ids@)),
{
    let receivers = &call.receiver_thread_ids;
    let receiver: &str = if receivers.len() > 0 {
        receivers[0].as_str()
    } else {
        "agents"
    };
    let in_progress = call.status == CollabAgentToolCallStatus::InProgress;
    let (head, tail): (&str, bool) = match call.tool {
        CollabAgentTool::SpawnAgent => {
            if in_progress {
                return None;
            }
            ("Spawned ", true)
        },
        CollabAgentTool::SendInput => {
            if in_progress {
                return None;
            }
            ("Sent input to ", true)
        },
        CollabAgentTool::ResumeAgent => if in_progress {
            ("Resuming ", true)
        } else {
            ("Resumed ", true)
        },
        CollabAgentTool::Wait => {
            if !in_progress {
                return Some(owned("Finished waiting"));
            }
            if receivers.len() != 1 {
                let mut s = owned("Waiting for ");
                s.append(dec_string(receivers.len() as u64).as_str());
                s.append(" agents");
                return Some(s);
            }
            ("Waiting for ", true)
        },
        CollabAgentTool::CloseAgent => {
            if in_progress {
                return None;
            }
            ("Closed ", true)
        },
    };
    let mut s = owned(head);
    if tail {
        s.append(receiver);
    }
    Some(s)
}

/// The history cell of a collaboration call: its title (`call_title`) and
/// details (`call_details`); none where there is no title.
pub fn tool_call_history_cell(call: &CollabAgentToolCall) -> (r: Option<MultiAgentHistoryCell>)
    ensures
        match r {
            Some(cell) => call_title(call.tool, call.status, views(call.receiver_thread_ids@))
                == Some(cell.title@) && views(cell.details@) == call_details(*call),
            None => call_title(call.tool, call.status, views(call.receiver_thread_ids@)) is None,
        },
{
    let title = match title_of(call) {
        Some(t) => t,
        None => {
            return None;
        },
    };
    let in_progress = call.status == CollabAgentToolCallStatus::InProgress;
    let mut details: Vec<String> = Vec::new();
    let prompt: &str = match &call.prompt {
        Some(p) => p.as_str(),
        None => "",
    };
    proof {
        if call.prompt is None {
            reveal_strlit("");
        }
    }
    match prompt_line(prompt) {
        Some(p) => push_line(&mut details, p),
        None => {},
    }
    match (call.tool, &call.model, &call.reasoning_effort) {
        (CollabAgentTool::SpawnAgent, Some(m), Some(x)) => {
            let mut line = owned("model: ");
            line.append(compact_text(m.as_str(), 160).as_str());
            line.append(" effort: ");
            line.append(x.as_str());
            push_line(&mut details, line);
        },
        _ => {},
    }
    if call.tool == CollabAgentTool::Wait && !in_progress {
        let ghost before = details@;
        let mut waits = wait_complete_lines(&call.receiver_thread_ids, &call.agents_states);
        let ghost wv = waits@;
        details.append(&mut waits);
        assert(views(details@) =~= views(before) + views(wv));
    }
    if call.tool == CollabAgentTool::ResumeAgent && !in_progress {
        let line = if call.receiver_thread_ids.len() > 0 {
            match call.agents_states.get(call.receiver_thread_ids[0].as_str()) {
                Some(st) => status_summary_text(st),
                None => owned("Error - Agent resume failed"),
            }
        } else {
            owned("Error - Agent resume failed")
        };
        push_line(&mut details, line);
    }
    Some(MultiAgentHistoryCell { title, details })
}

/// One step of merging a call's details into its summary: a model line or
/// a detail that repeats a prompt fact is left out.
pub open spec fn merge_step(summary: Seq<Seq<char>>, detail: Seq<char>) -> Seq<Seq<char>> {
    if is_prefix("model: "@, detail) || summary.contains("prompt: "@ + detail) {
        summary
    } else {
        summary.push(detail)
    }
}

/// The details merged into the summary one after another.
pub open spec fn merge_details(summary: Seq<Seq<char>>, details: Seq<Seq<char>>) -> Seq<Seq<char>>
    decreases details.len(),
{
    if details.len() == 0 {
        summary
    } else {
        merge_details(merge_step(summary, details[0]), details.drop_first())
    }
}

/// The summary of a collaboration call: its facts (`collab_summary_spec`),
/// then the lines of its history cell that say something the facts do not.
pub open spec fn summary_for_call(c: CollabAgentToolCall) -> Seq<Seq<char>> {
    let facts = collab_summary_spec(
        c.agents_states.entries(),
        opt_string(c.prompt),
        opt_string(c.model),
        opt_string(c.reasoning_effort),
    );
    match call_title(c.tool, c.status, views(c.receiver_thread_ids@)) {
        Some(_) => merge_details(facts, call_details(c)),
        None => facts,
    }
}

fn contains_text(v: &Vec<String>, s: &str) -> (r: bool)
    ensures
        r == views(v@).contains(s@),
{
    let mut i: usize = 0;
    while i < v.len()
        invariant
            i <= v.len(),
            forall|j: int| 0 <= j < i ==> #[trigger] v@[j]@ != s@,
        decreases v.len() - i,
    {
        if str_eq(v[i].as_str(), s) {
            assert(views(v@)[i as int] == s@);
            return true;
        }
        i = i + 1;
    }
    proof {
        if views(v@).contains(s@) {
            let k = choose|k: int| 0 <= k < views(v@).len() && views(v@)[k] == s@;
            assert(v@[k]@ == s@);
        }
    }
    false
}

/// The summary of a collaboration call (`summary_for_call`).
pub fn collab_summary_for_item(call: &CollabAgentToolCall) -> (r: Vec<String>)
    ensures
        views(r@) == summary_for_call(*call),
{
    let prompt: Option<&str> = match &call.prompt {
        Some(p) => Some(p.as_str()),
        None => None,
    };
    let model: Option<&str> = match &call.model {
        Some(m) => Some(m.as_str()),
        None => None,
    };
    let effort: Option<&str> = match &call.reasoning_effort {
        Some(x) => Some(x.as_str()),
        None => None,
    };
    let mut summary = collab_summary(&call.agents_states, prompt, model, effort);
    let cell = match tool_call_history_cell(call) {
        Some(c) => c,
        None => {
            return summary;
        },
    };
    let ghost d = views(cell.details@);
    assert(d.skip(0) =~= d);
    assert(opt_str(prompt) == opt_string(call.prompt));
    assert(opt_str(model) == opt_string(call.model));
    assert(opt_str(effort) == opt_string(call.reasoning_effort));
    let mut k: usize = 0;
    while k < cell.details.len()
        invariant
            k <= cell.details.len(),
            d == views(cell.details@),
            merge_details(views(summary@), d.skip(k as int)) == summary_for_call(*call),
        decreases cell.details.len() - k,
    {
        let detail = cell.details[k].as_str();
        let dv = chars_of(detail);
        let mut probe = owned("prompt: ");
        probe.append(detail);
        let skip = starts_with_str(&dv, "model: ") || contains_text(&summary, probe.as_str());
        assert(d.skip(k as int)[0] == detail@);
        assert(d.skip(k as int).drop_first() =~= d.skip(k + 1));
        if !skip {
            push_line(&mut summary, owned(detail));
        }
        k = k + 1;
    }
    assert(d.skip(cell.details.len() as int).len() == 0);
    summary
}

// ---------------------------------------------------------------------------
// Sub-agent activity
// ---------------------------------------------------------------------------

/// What a sub-agent did.
#[derive(Clone, Copy, Debug, PartialEq, Eq, Structural)]
pub enum SubAgentActivityKind {
    Started,
    Interacted,
    Interrupted,
}

/// Activity of a sub-agent.
#[derive(Debug)]
pub struct SubAgentActivity {
    pub id: String,
    pub kind: SubAgentActivityKind,
    pub agent_thread_id: String,
    pub agent_path: String,
}

/// The liveness facts of a sub-agent activity.
pub struct SubAgentActivityDisplay {
    pub thread_id: String,
    pub agent_path: String,
    pub is_running_hint: bool,
}

/// The liveness facts of an activity: a start marks the agent running, an
/// interruption marks it stopped, an interaction says nothing.
pub fn sub_agent_activity_display(item: &SubAgentActivity) -> (r: Option<SubAgentActivityDisplay>)
    ensures
        match r {
            Some(d) => item.kind != SubAgentActivityKind::Interacted && d.thread_id@
                == item.agent_thread_id@ && d.agent_path@ == item.agent_path@ && d.is_running_hint
                == (item.kind == SubAgentActivityKind::Started),
            None => item.kind == SubAgentActivityKind::Interacted,
        },
{
    let is_running_hint = match item.kind {
        SubAgentActivityKind::Started => true,
        SubAgentActivityKind::Interacted => {
            return None;
        },
        SubAgentActivityKind::Interrupted => false,
    };
    Some(
        SubAgentActivityDisplay {
            thread_id: owned(item.agent_thread_id.as_str()),
            agent_path: owned(item.agent_path.as_str()),
            is_running_hint,
        },
    )
}

/// The summary of an activity: what happened, and the agent's path in
/// backquotes.
pub open spec fn activity_summary(kind: SubAgentActivityKind, agent_path: Seq<char>) -> Seq<char> {
    let head = match kind {
        SubAgentActivityKind::Started => "Started"@,
        SubAgentActivityKind::Interacted => "Interacted with"@,
        SubAgentActivityKind::Interrupted => "Interrupted"@,
    };
    head + " `"@ + agent_path + "`"@
}

/// The summary of an activity (`activity_summary`).
pub fn sub_agent_activity_summary(kind: SubAgentActivityKind, agent_path: &str) -> (r: String)
    ensures
        r@ == activity_summary(kind, agent_path@),
{
    let mut s = match kind {
        SubAgentActivityKind::Started => owned("Started"),
        SubAgentActivityKind::Interacted => owned("Interacted with"),
        SubAgentActivityKind::Interrupted => owned("Interrupted"),
    };
    s.append(" `");
    s.append(agent_path);
    s.append("`");
    s
}

} // verus!
