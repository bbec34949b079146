//! The session picker used to resume or fork a previous conversation: its
//! actions, labels, list filtering and the transcript pager it opens.
use vstd::prelude::*;

pub mod archive;
pub mod page_loop;
pub mod screen;
pub mod preview;

use crate::input::{pager_key, pager_key_spec, InputEvent, Key, KeyPress};
use crate::locale::Locale;
use crate::pager_overlay::{key_step, PagerAction, PagerOverlay, PagerView, tail_state};
use crate::projection::TranscriptEntry;
use crate::text::{
    chars_of, contains_seq, contains_text, is_whitespace, is_ws, lower_ascii, owned, str_eq,
    string_of, to_ascii_lowercase, trim, trimmed,
};

verus! {

/// The session a selection refers to.
pub struct SessionTarget {
    pub path: Option<String>,
    pub thread_id: String,
}

impl SessionTarget {
    /// How the session is named: its path, or `thread <id>` without one.
    pub fn display_label(&self) -> (r: String)
        ensures
            r@ == match self.path {
                Some(p) => p@,
                None => "thread "@ + self.thread_id@,
            },
    {
        match &self.path {
            Some(p) => owned(p.as_str()),
            None => {
                let mut s = owned("thread ");
                s.append(self.thread_id.as_str());
                s
            },
        }
    }
}

/// What the picker ends with.
pub enum SessionSelection {
    StartFresh,
    AgentsOverview,
    Resume(SessionTarget),
    Fork(SessionTarget),
    Exit,
}

/// What the picker is for.
#[derive(Clone, Copy, Debug, PartialEq, Eq, Structural)]
pub enum SessionPickerAction {
    Resume,
    Fork,
}

impl SessionPickerAction {
    pub open spec fn title_text(self) -> Seq<char> {
        match self {
            SessionPickerAction::Resume => "Resume a previous session"@,
            SessionPickerAction::Fork => "Fork a previous session"@,
        }
    }

    /// The picker's title.
    pub fn title(self) -> (r: &'static str)
        ensures
            r@ == self.title_text(),
    {
        match self {
            SessionPickerAction::Resume => "Resume a previous session",
            SessionPickerAction::Fork => "Fork a previous session",
        }
    }

    pub open spec fn action_label_text(self) -> Seq<char> {
        match self {
            SessionPickerAction::Resume => "resume"@,
            SessionPickerAction::Fork => "fork"@,
        }
    }

    /// The verb of the picker's action.
    pub fn action_label(self) -> (r: &'static str)
        ensures
            r@ == self.action_label_text(),
    {
        match self {
            SessionPickerAction::Resume => "resume",
            SessionPickerAction::Fork => "fork",
        }
    }

    /// The selection of `target` for this action: resume it or fork it.
    pub fn selection(self, target_session: SessionTarget) -> (r: SessionSelection)
        ensures
            self == SessionPickerAction::Resume ==> (r matches SessionSelection::Resume(t) && t
                == target_session),
            self == SessionPickerAction::Fork ==> (r matches SessionSelection::Fork(t) && t
                == target_session),
    {
        match self {
            SessionPickerAction::Resume => SessionSelection::Resume(target_session),
            SessionPickerAction::Fork => SessionSelection::Fork(target_session),
        }
    }
}

/// Whether the picker lists active or archived sessions.
#[derive(Clone, Copy, Debug, PartialEq, Eq, Structural)]
pub enum SessionStatus {
    Active,
    Archived,
}

/// How much room each session takes in the list.
#[derive(Clone, Copy, Debug, PartialEq, Eq, Structural)]
pub enum SessionListDensity {
    Comfortable,
    Dense,
}

impl SessionListDensity {
    /// The other density.
    pub fn toggle(self) -> (r: SessionListDensity)
        ensures
            r != self,
    {
        match self {
            SessionListDensity::Comfortable => SessionListDensity::Dense,
            SessionListDensity::Dense => SessionListDensity::Comfortable,
        }
    }
}

/// What a key did in the picker.
#[derive(Clone, Copy, Debug, PartialEq, Eq, Structural)]
pub enum PickerAction {
    /// Nothing happened.
    Ignored,
    Reload,
    MoveUp,
    MoveDown,
    Select,
    Archive,
    Restore,
    ToggleStatus,
    ToggleFilter,
    ToggleSort,
    ToggleDensity,
    ToggleExpanded,
    OpenTranscript,
    Cancel,
}

/// The transcript pager opened over the picker for one session.
pub struct PickerTranscriptPager {
    pub thread_id: String,
    pub overlay: PagerOverlay,
}

impl PickerTranscriptPager {
    /// A transcript pager for the session, following the tail.
    pub fn new(thread_id: String, locale: Locale) -> (r: PickerTranscriptPager)
        ensures
            r.thread_id@ == thread_id@,
            r.overlay@.title == locale.transcript_title_text(),
            r.overlay@.static_lines is None,
            r.overlay@.state == tail_state(),
            !r.overlay@.older_history_available,
            r.overlay@.previous is None,
    {
        PickerTranscriptPager { thread_id, overlay: PagerOverlay::transcript(locale) }
    }
}

/// A listed session, as the facts the picker reads.
pub struct ThreadSummary {
    pub id: String,
    pub name: Option<String>,
    pub preview: String,
    pub cwd: String,
    pub ephemeral: bool,
}

/// Whether a session matches the (trimmed, lower-case) query: its name,
/// preview, directory or id contains it, ignoring ASCII case.
pub open spec fn thread_matches(t: ThreadSummary, q: Seq<char>) -> bool {
    contains_seq(
        lower_ascii(
            match t.name {
                Some(n) => n@,
                None => Seq::empty(),
            },
        ),
        q,
    ) || contains_seq(lower_ascii(t.preview@), q) || contains_seq(lower_ascii(t.cwd@), q)
        || contains_seq(lower_ascii(t.id@), q)
}

/// Whether a session is kept by the filter for `q`: it is not ephemeral,
/// and the query is empty or it matches.
pub open spec fn thread_kept(t: ThreadSummary, q: Seq<char>) -> bool {
    !t.ephemeral && (q.len() == 0 || thread_matches(t, q))
}

/// The positions kept among the first `n` sessions.
pub open spec fn kept_positions(threads: Seq<ThreadSummary>, q: Seq<char>, n: int) -> Seq<int>
    decreases n,
{
    if n <= 0 {
        Seq::empty()
    } else if thread_kept(threads[n - 1], q) {
        kept_positions(threads, q, n - 1).push(n - 1)
    } else {
        kept_positions(threads, q, n - 1)
    }
}

fn matches_query(t: &ThreadSummary, q: &str) -> (r: bool)
    ensures
        r == thread_matches(*t, q@),
{
    let name = match &t.name {
        Some(n) => to_ascii_lowercase(n.as_str()),
        None => {
            let e = String::new();
            assert(lower_ascii(Seq::<char>::empty()) =~= Seq::<char>::empty());
            e
        },
    };
    contains_text(name.as_str(), q) || contains_text(to_ascii_lowercase(t.preview.as_str()).as_str(), q)
        || contains_text(to_ascii_lowercase(t.cwd.as_str()).as_str(), q) || contains_text(
        to_ascii_lowercase(t.id.as_str()).as_str(),
        q,
    )
}

/// The sessions shown for a search: the non-ephemeral ones matching the
/// query, trimmed and in ASCII lower case, in their order.
pub fn filter_threads(threads: Vec<ThreadSummary>, query: &str) -> (r: Vec<ThreadSummary>)
    ensures
        ({
            let q = lower_ascii(trim(query@));
            let kept = kept_positions(threads@, q, threads@.len() as int);
            r@.len() == kept.len() && forall|i: int|
                0 <= i < kept.len() ==> #[trigger] r@[i] == threads@[kept[i]]
        }),
{
    let q = to_ascii_lowercase(trimmed(query).as_str());
    let ghost gq = q@;
    let mut out: Vec<ThreadSummary> = Vec::new();
    let mut threads = threads;
    let ghost all = threads@;
    let n = threads.len();
    let mut k: usize = 0;
    while k < n
        invariant
            n == all.len(),
            k <= n,
            threads@ == all.skip(k as int),
            gq == lower_ascii(trim(query@)),
            q@ == gq,
            out@.len() == kept_positions(all, gq, k as int).len(),
            forall|i: int|
                0 <= i < out@.len() ==> #[trigger] out@[i] == all[kept_positions(all, gq, k as int)[i]],
        decreases n - k,
    {
        assert(threads@.len() > 0);
        let t = threads.remove(0);
        assert(all.skip(k + 1) =~= all.skip(k as int).remove(0));
        assert(t == all[k as int]);
        let keep = !t.ephemeral && (q.as_str().is_empty() || matches_query(&t, q.as_str()));
        if keep {
            out.push(t);
        }
        k = k + 1;
    }
    out
}

/// The order the server lists sessions in.
#[derive(Clone, Copy, Debug, PartialEq, Eq, Structural)]
pub enum ThreadSortKey {
    UpdatedAt,
    CreatedAt,
    RecencyAt,
    SectionPosition,
}

/// How far the transcript of a session has loaded.
#[derive(Debug)]
pub enum SessionTranscriptState {
    Loading,
    Loaded(Vec<TranscriptEntry>),
    Failed,
}

/// An archive or restore request in flight, so that repeated key presses
/// send one request.
#[derive(Clone, Debug)]
pub enum ArchiveState {
    Idle,
    Pending { thread_id: String },
    Restoring { thread_id: String },
}

/// Who said a line of a transcript preview.
#[derive(Clone, Copy, Debug, PartialEq, Eq, Structural)]
pub enum PreviewSpeaker {
    User,
    Assistant,
}

/// A line of a session's transcript preview.
pub struct PreviewLine {
    pub speaker: PreviewSpeaker,
    pub text: String,
}

/// Whether `id` is among the texts `l`.
pub open spec fn holds_id(l: Seq<String>, id: Seq<char>) -> bool {
    exists|i: int| 0 <= i < l.len() && (#[trigger] l[i])@ == id
}

/// The transcripts known by session id.
pub type Transcripts = Vec<(String, SessionTranscriptState)>;

/// The first position of session `id` in the transcripts.
pub open spec fn transcript_index<V>(t: Seq<(String, V)>, id: Seq<char>) -> Option<int>
    decreases t.len(),
{
    if t.len() == 0 {
        None
    } else if t[0].0@ == id {
        Some(0)
    } else {
        match transcript_index(t.drop_first(), id) {
            Some(k) => Some(k + 1),
            None => None,
        }
    }
}

/// The transcript state of session `id`, if one is known.
pub open spec fn transcript_of<V>(t: Seq<(String, V)>, id: Seq<char>) -> Option<V> {
    match transcript_index(t, id) {
        Some(k) => Some(t[k].1),
        None => None,
    }
}

proof fn lemma_transcript_index<V>(t: Seq<(String, V)>, id: Seq<char>)
    ensures
        match transcript_index(t, id) {
            Some(k) => 0 <= k < t.len() && t[k].0@ == id && forall|j: int| 0 <= j < k ==> #[trigger] t[j].0@ != id,
            None => forall|j: int| 0 <= j < t.len() ==> #[trigger] t[j].0@ != id,
        },
    decreases t.len(),
{
    if t.len() > 0 && t[0].0@ != id {
        lemma_transcript_index(t.drop_first(), id);
        assert forall|j: int| 1 <= j < t.len() implies #[trigger] t[j].0@ == t.drop_first()[j - 1].0@ by {}
    }
}

proof fn lemma_transcript_index_is<V>(t: Seq<(String, V)>, id: Seq<char>, k: Option<int>)
    requires
        match k {
            Some(k) => 0 <= k < t.len() && t[k].0@ == id && forall|j: int| 0 <= j < k ==> #[trigger] t[j].0@ != id,
            None => forall|j: int| 0 <= j < t.len() ==> #[trigger] t[j].0@ != id,
        },
    ensures
        transcript_index(t, id) == k,
    decreases t.len(),
{
    if t.len() > 0 && t[0].0@ != id {
        let k2 = match k {
            Some(k) => Some(k - 1),
            None => None,
        };
        assert forall|j: int| 0 <= j < t.len() - 1 implies #[trigger] t.drop_first()[j].0@ == t[j + 1].0@ by {}
        lemma_transcript_index_is(t.drop_first(), id, k2);
    }
}

proof fn lemma_transcript_push<V>(s: Seq<(String, V)>, e: (String, V), x: Seq<char>)
    ensures
        transcript_of(s.push(e), x) == match transcript_of(s, x) {
            Some(v) => Some(v),
            None => if e.0@ == x { Some(e.1) } else { None },
        },
{
    lemma_transcript_index(s, x);
    let p = s.push(e);
    assert forall|j: int| 0 <= j < s.len() implies #[trigger] p[j] == s[j] by {}
    match transcript_index(s, x) {
        Some(k) => {
            lemma_transcript_index_is(p, x, Some(k));
        },
        None => {
            if e.0@ == x {
                lemma_transcript_index_is(p, x, Some(s.len() as int));
            } else {
                lemma_transcript_index_is(p, x, None);
            }
        },
    }
}

/// The position of session `id` in the transcripts (`transcript_index`).
fn find_transcript<V>(t: &Vec<(String, V)>, id: &str) -> (r: Option<usize>)
    ensures
        match r {
            Some(k) => transcript_index(t@, id@) == Some(k as int),
            None => transcript_index(t@, id@) is None,
        },
{
    let mut k: usize = 0;
    while k < t.len()
        invariant
            k <= t.len(),
            forall|j: int| 0 <= j < k ==> #[trigger] t@[j].0@ != id@,
        decreases t.len() - k,
    {
        if str_eq(t[k].0.as_str(), id) {
            proof {
                lemma_transcript_index_is(t@, id@, Some(k as int));
            }
            return Some(k);
        }
        k = k + 1;
    }
    proof {
        lemma_transcript_index_is(t@, id@, None);
    }
    None
}

/// Records the transcript state of session `id`, replacing the one known.
fn put_transcript<V>(t: &mut Vec<(String, V)>, id: String, state: V)
    ensures
        transcript_of(final(t)@, id@) == Some(state),
        forall|x: Seq<char>| x != id@ ==> transcript_of(final(t)@, x) == transcript_of(old(t)@, x),
{
    let ghost idv = id@;
    match find_transcript(t, id.as_str()) {
        Some(k) => {
            proof {
                lemma_transcript_index(old(t)@, idv);
            }
            t.set(k, (id, state));
            proof {
                lemma_transcript_index_is(t@, idv, Some(k as int));
                assert forall|x: Seq<char>| x != idv implies transcript_of(t@, x) == transcript_of(old(t)@, x) by {
                    lemma_transcript_index(old(t)@, x);
                    match transcript_index(old(t)@, x) {
                        Some(j) => {
                            lemma_transcript_index_is(t@, x, Some(j));
                        },
                        None => {
                            lemma_transcript_index_is(t@, x, None);
                        },
                    }
                }
            }
        },
        None => {
            proof {
                lemma_transcript_index(old(t)@, idv);
            }
            t.push((id, state));
            proof {
                lemma_transcript_index_is(t@, idv, Some(old(t)@.len() as int));
                assert forall|x: Seq<char>| x != idv implies transcript_of(t@, x) == transcript_of(old(t)@, x) by {
                    lemma_transcript_index(old(t)@, x);
                    match transcript_index(old(t)@, x) {
                        Some(j) => {
                            lemma_transcript_index_is(t@, x, Some(j));
                        },
                        None => {
                            lemma_transcript_index_is(t@, x, None);
                        },
                    }
                }
            }
        },
    }
}

/// Forgets every transcript state recorded for session `id`.
fn remove_transcript<V>(t: &mut Vec<(String, V)>, id: &str)
    ensures
        transcript_of(final(t)@, id@) is None,
        forall|x: Seq<char>| x != id@ ==> transcript_of(final(t)@, x) == transcript_of(old(t)@, x),
{
    let mut rest: Vec<(String, V)> = Vec::new();
    std::mem::swap(&mut rest, t);
    let ghost all = rest@;
    let n = rest.len();
    let mut i: usize = 0;
    while i < n
        invariant
            i <= n,
            all.len() == n,
            rest@ == all.skip(i as int),
            forall|j: int| 0 <= j < t@.len() ==> #[trigger] t@[j].0@ != id@,
            forall|x: Seq<char>| x != id@ ==> transcript_of(t@, x) == transcript_of(all.take(i as int), x),
        decreases n - i,
    {
        let e = rest.remove(0);
        assert(e == all[i as int]);
        assert(all.skip(i + 1) =~= all.skip(i as int).drop_first());
        let ghost before = t@;
        if !str_eq(e.0.as_str(), id) {
            t.push(e);
        }
        proof {
            assert(all.take(i + 1) =~= all.take(i as int).push(e));
            assert forall|x: Seq<char>| x != id@ implies transcript_of(t@, x) == transcript_of(all.take(i + 1), x) by {
                lemma_transcript_push(all.take(i as int), e, x);
                if e.0@ != id@ {
                    lemma_transcript_push(before, e, x);
                }
            }
        }
        i = i + 1;
    }
    proof {
        assert(all.take(n as int) =~= all);
        lemma_transcript_index(t@, id@);
        lemma_transcript_index_is(t@, id@, None);
    }
}

/// The state of the session picker: the listed sessions, the selection and
/// search query, the list options, the transcripts known and the archive
/// request in flight.
pub struct PickerState {
    pub action: SessionPickerAction,
    pub threads: Vec<ThreadSummary>,
    pub selected: usize,
    pub query: String,
    pub status: SessionStatus,
    pub filter_cwd: Option<String>,
    pub show_all: bool,
    pub sort_key: ThreadSortKey,
    pub density: SessionListDensity,
    pub expanded_thread_id: Option<String>,
    pub transcripts: Transcripts,
    pub transcript_pager: Option<PickerTranscriptPager>,
    pub archive_state: ArchiveState,
    pub status_message: Option<String>,
    pub loading: bool,
    pub load_token: usize,
    /// Where the next page of the list starts, when the server has more.
    pub next_cursor: Option<String>,
    /// The page starts already asked for since the list was last reset.
    pub seen_cursors: Vec<String>,
    /// The transcript previews known by session id.
    pub transcript_previews: Vec<(String, Vec<PreviewLine>)>,
    /// The sessions whose preview is being loaded.
    pub preview_loading: Vec<String>,
}

/// Whether an optional text holds `t`.
pub open spec fn holds_text(o: Option<String>, t: Seq<char>) -> bool {
    match o {
        Some(s) => s@ == t,
        None => false,
    }
}

/// `a` decreased by `b`, stopping at zero.
pub open spec fn sat_sub(a: int, b: int) -> int {
    if a >= b { a - b } else { 0 }
}

/// `a + b`, or `last` when that is smaller.
pub open spec fn capped_add(a: int, b: int, last: int) -> int {
    if a + b < last { a + b } else { last }
}

/// What a pressed key does to the selection and query of a picker listing
/// `len` sessions, and the action it reports. `archive_ready` says whether
/// an archive request may start.
pub open spec fn picker_key_step(
    key: KeyPress,
    status: SessionStatus,
    archive_ready: bool,
    len: int,
    selected: int,
    query: Seq<char>,
) -> (int, Seq<char>, PickerAction) {
    let same = (selected, query, PickerAction::Ignored);
    if !key.press {
        same
    } else if key.control && (key.code == Key::Char('c') || key.code == Key::Char('d')) {
        (selected, query, PickerAction::Cancel)
    } else if key.control && key.code == Key::Char('a') && status == SessionStatus::Active
        && archive_ready {
        (selected, query, PickerAction::Archive)
    } else if key.control && key.code == Key::Char('s') {
        (selected, query, PickerAction::ToggleStatus)
    } else if key.control && key.code == Key::Char('f') {
        (selected, query, PickerAction::ToggleFilter)
    } else if key.control && key.code == Key::Char('r') {
        (selected, query, PickerAction::ToggleSort)
    } else if key.control && key.code == Key::Char('o') {
        (selected, query, PickerAction::ToggleDensity)
    } else if key.control && key.code == Key::Char('e') {
        (selected, query, PickerAction::ToggleExpanded)
    } else if key.control && key.code == Key::Char('t') {
        (selected, query, PickerAction::OpenTranscript)
    } else if key.unmodified() && key.code == Key::Char('\u{14}') {
        (selected, query, PickerAction::OpenTranscript)
    } else if key.unmodified() && key.code == Key::Char('\u{5}') {
        (selected, query, PickerAction::ToggleExpanded)
    } else {
        match key.code {
            Key::Up => (sat_sub(selected, 1), query, PickerAction::MoveUp),
            Key::Char('k') => (sat_sub(selected, 1), query, PickerAction::MoveUp),
            Key::PageUp => (sat_sub(selected, 10), query, PickerAction::MoveUp),
            Key::Down => (
                if len > 0 { capped_add(selected, 1, len - 1) } else { selected },
                query,
                PickerAction::MoveDown,
            ),
            Key::Char('j') => (
                if len > 0 { capped_add(selected, 1, len - 1) } else { selected },
                query,
                PickerAction::MoveDown,
            ),
            Key::PageDown => (
                if len > 0 { capped_add(selected, 10, len - 1) } else { selected },
                query,
                PickerAction::MoveDown,
            ),
            Key::Home => (0, query, PickerAction::MoveUp),
            Key::End => (if len > 0 { len - 1 } else { selected }, query, PickerAction::MoveDown),
            Key::Enter => (
                selected,
                query,
                if status == SessionStatus::Archived { PickerAction::Restore } else { PickerAction::Select },
            ),
            Key::Backspace => (
                selected,
                if query.len() > 0 { query.drop_last() } else { query },
                PickerAction::Reload,
            ),
            Key::Esc => if query.len() == 0 {
                (selected, query, PickerAction::Cancel)
            } else {
                (selected, Seq::empty(), PickerAction::Reload)
            },
            Key::Char(c) => if !key.alt {
                (selected, query.push(c), PickerAction::Reload)
            } else {
                same
            },
            _ => same,
        }
    }
}

/// Down (or `j`) moves the selection one session down, staying on the last
/// session at the end of the list, and reports a move down.
pub proof fn lemma_down_moves_one_session(
    key: KeyPress,
    status: SessionStatus,
    archive_ready: bool,
    len: int,
    selected: int,
    query: Seq<char>,
)
    requires
        key.press,
        key.code == Key::Down || key.code == Key::Char('j'),
        0 <= selected < len,
    ensures
        picker_key_step(key, status, archive_ready, len, selected, query).0 == if selected + 1 < len {
            selected + 1
        } else {
            len - 1
        },
        picker_key_step(key, status, archive_ready, len, selected, query).1 == query,
        picker_key_step(key, status, archive_ready, len, selected, query).2 == PickerAction::MoveDown,
{
}

/// Up (or `k`) moves the selection one session up, Page Up and Page Down
/// ten sessions, none of them past either end of the list; Home goes to
/// the first session and End to the last; Enter resumes, or restores in
/// the archived list.
pub proof fn lemma_navigation_keys(
    key: KeyPress,
    status: SessionStatus,
    archive_ready: bool,
    len: int,
    selected: int,
    query: Seq<char>,
)
    requires
        key.press,
        !key.control,
        0 <= selected < len,
    ensures
        ({
            let (s, q, a) = picker_key_step(key, status, archive_ready, len, selected, query);
            &&& (key.code == Key::Up || key.code == Key::Char('k')) ==> s == if selected > 0 {
                selected - 1
            } else {
                0
            } && a == PickerAction::MoveUp
            &&& key.code == Key::PageUp ==> s == if selected >= 10 {
                selected - 10
            } else {
                0
            } && a == PickerAction::MoveUp
            &&& key.code == Key::PageDown ==> s == if selected + 10 < len {
                selected + 10
            } else {
                len - 1
            } && a == PickerAction::MoveDown
            &&& key.code == Key::Home ==> s == 0
            &&& key.code == Key::End ==> s == len - 1
            &&& key.code == Key::Enter ==> s == selected && a == if status == SessionStatus::Archived {
                PickerAction::Restore
            } else {
                PickerAction::Select
            }
        }),
{
}

/// The control keys and the query keys: Control-C / Control-D cancel;
/// Control-A archives the selected session only in the active list when
/// an archive may start; Control-S, -F, -R, -O, -E and -T toggle the
/// status, the filter, the sort, the density, the expansion and open the
/// transcript; a typed character (without Alt) is added to the query and
/// Backspace removes the last one, both asking for a reload; Escape clears
/// a query (reload) and cancels on an empty one. None of these moves the
/// selection.
pub proof fn lemma_control_and_query_keys(
    key: KeyPress,
    status: SessionStatus,
    archive_ready: bool,
    len: int,
    selected: int,
    query: Seq<char>,
    c: char,
)
    requires
        key.press,
    ensures
        ({
            let (s, q, a) = picker_key_step(key, status, archive_ready, len, selected, query);
            let ctrl = |x: char| key.control && key.code == Key::Char(x);
            &&& (ctrl('c') || ctrl('d')) ==> a == PickerAction::Cancel && s == selected && q == query
            &&& ctrl('a') ==> (a == PickerAction::Archive) == (status == SessionStatus::Active
                && archive_ready)
            &&& ctrl('s') ==> a == PickerAction::ToggleStatus && s == selected && q == query
            &&& ctrl('f') ==> a == PickerAction::ToggleFilter && s == selected && q == query
            &&& ctrl('r') ==> a == PickerAction::ToggleSort && s == selected && q == query
            &&& ctrl('o') ==> a == PickerAction::ToggleDensity && s == selected && q == query
            &&& ctrl('e') ==> a == PickerAction::ToggleExpanded && s == selected && q == query
            &&& ctrl('t') ==> a == PickerAction::OpenTranscript && s == selected && q == query
            &&& (!key.control && !key.alt && key.code == Key::Char(c) && c != 'j' && c != 'k' && c
                != '\u{14}' && c != '\u{5}') ==> q == query.push(c) && s == selected && a
                == PickerAction::Reload
            &&& key.code == Key::Backspace && !key.control ==> q == (if query.len() > 0 {
                query.drop_last()
            } else {
                query
            }) && s == selected && a == PickerAction::Reload
            &&& key.code == Key::Esc && !key.control ==> s == selected && if query.len() == 0 {
                a == PickerAction::Cancel && q == query
            } else {
                a == PickerAction::Reload && q.len() == 0
            }
        }),
{
}

/// Down and then Up bring the selection back to the session it was on,
/// unless it was on the last session.
pub proof fn lemma_down_then_up_returns(
    down: KeyPress,
    up: KeyPress,
    status: SessionStatus,
    archive_ready: bool,
    len: int,
    selected: int,
    query: Seq<char>,
)
    requires
        down.press,
        down.code == Key::Down,
        up.press,
        up.code == Key::Up,
        0 <= selected < len - 1,
    ensures
        ({
            let after = picker_key_step(down, status, archive_ready, len, selected, query);
            picker_key_step(up, status, archive_ready, len, after.0, after.1).0 == selected
        }),
{
}

/// No key moves the selection off the listed sessions.
pub proof fn lemma_key_keeps_selection_on_list(
    key: KeyPress,
    status: SessionStatus,
    archive_ready: bool,
    len: int,
    selected: int,
    query: Seq<char>,
)
    requires
        0 <= selected < len,
    ensures
        0 <= picker_key_step(key, status, archive_ready, len, selected, query).0 < len,
{
}

/// The query after a paste of search text `text`: nothing changes for an
/// empty paste; otherwise the text is added, after a space when the query
/// does not already end in white space.
pub open spec fn pasted_query(query: Seq<char>, text: Seq<char>) -> Seq<char> {
    if text.len() == 0 {
        query
    } else if query.len() > 0 && !is_ws(query.last()) {
        query.push(' ') + text
    } else {
        query + text
    }
}

/// The id of the selected session, if a session is selected.
pub open spec fn selected_id(threads: Seq<ThreadSummary>, selected: int) -> Option<Seq<char>> {
    if 0 <= selected < threads.len() {
        Some(threads[selected].id@)
    } else {
        None
    }
}

impl PickerState {
    /// A picker over the sessions that are not ephemeral, with the first
    /// selected, an empty query, sorted by update time, comfortable
    /// density, and nothing loaded or in flight.
    pub fn new(
        threads: Vec<ThreadSummary>,
        action: SessionPickerAction,
        status: SessionStatus,
        filter_cwd: Option<String>,
        show_all: bool,
    ) -> (r: PickerState)
        ensures
            ({
                let kept = kept_positions(threads@, Seq::empty(), threads@.len() as int);
                r.threads@.len() == kept.len() && forall|i: int|
                    0 <= i < kept.len() ==> #[trigger] r.threads@[i] == threads@[kept[i]]
            }),
            r.action == action,
            r.selected == 0,
            r.query@.len() == 0,
            r.status == status,
            r.filter_cwd == filter_cwd,
            r.show_all == show_all,
            r.sort_key == ThreadSortKey::UpdatedAt,
            r.density == SessionListDensity::Comfortable,
            r.expanded_thread_id is None,
            r.transcripts@.len() == 0,
            r.transcript_pager is None,
            r.archive_state is Idle,
            r.status_message is None,
            !r.loading,
            r.load_token == 0,
            r.next_cursor is None,
            r.seen_cursors@.len() == 0,
            r.transcript_previews@.len() == 0,
            r.preview_loading@.len() == 0,
    {
        proof {
            reveal_strlit("");
            assert(lower_ascii(trim(""@)) =~= Seq::<char>::empty());
        }
        PickerState {
            action,
            threads: filter_threads(threads, ""),
            selected: 0,
            query: String::new(),
            status,
            filter_cwd,
            show_all,
            sort_key: ThreadSortKey::UpdatedAt,
            density: SessionListDensity::Comfortable,
            expanded_thread_id: None,
            transcripts: Vec::new(),
            transcript_pager: None,
            archive_state: ArchiveState::Idle,
            status_message: None,
            loading: false,
            load_token: 0,
            next_cursor: None,
            seen_cursors: Vec::new(),
            transcript_previews: Vec::new(),
            preview_loading: Vec::new(),
        }
    }

    /// The id of the selected session.
    pub fn selected_thread_id(&self) -> (r: Option<&str>)
        ensures
            match r {
                Some(id) => selected_id(self.threads@, self.selected as int) == Some(id@),
                None => selected_id(self.threads@, self.selected as int) is None,
            },
    {
        if self.selected < self.threads.len() {
            Some(self.threads[self.selected].id.as_str())
        } else {
            None
        }
    }

    /// The transcript state known for session `thread_id`.
    pub fn transcript(&self, thread_id: &str) -> (r: Option<&SessionTranscriptState>)
        ensures
            match r {
                Some(st) => transcript_of(self.transcripts@, thread_id@) == Some(*st),
                None => transcript_of(self.transcripts@, thread_id@) is None,
            },
    {
        proof {
            lemma_transcript_index(self.transcripts@, thread_id@);
        }
        match find_transcript(&self.transcripts, thread_id) {
            Some(k) => Some(&self.transcripts[k].1),
            None => None,
        }
    }

    /// Expands the selected session, or folds it when it is the expanded
    /// one. Expanding a session whose transcript has not loaded marks it
    /// loading and returns its id, for the caller to load.
    pub fn toggle_selected_expansion(&mut self) -> (r: Option<String>)
        ensures
            Self::expansion_toggled(*old(self), *final(self), r),
    {
        let thread_id = match self.selected_thread_id() {
            Some(id) => owned(id),
            None => return None,
        };
        let expanded = match &self.expanded_thread_id {
            Some(e) => str_eq(e.as_str(), thread_id.as_str()),
            None => false,
        };
        if expanded {
            self.expanded_thread_id = None;
            return None;
        }
        self.expanded_thread_id = Some(owned(thread_id.as_str()));
        let loaded = match self.transcript(thread_id.as_str()) {
            Some(SessionTranscriptState::Loaded(_)) => true,
            _ => false,
        };
        if !loaded {
            put_transcript(&mut self.transcripts, owned(thread_id.as_str()), SessionTranscriptState::Loading);
            return Some(thread_id);
        }
        None
    }

    /// Opens the transcript pager on the selected session. When nothing is
    /// known of its transcript yet, marks it loading and returns its id, for
    /// the caller to load.
    pub fn open_transcript_pager(&mut self, locale: Locale) -> (r: Option<String>)
        ensures
            Self::transcript_pager_opened(*old(self), *final(self), locale, r),
    {
        let thread_id = match self.selected_thread_id() {
            Some(id) => owned(id),
            None => return None,
        };
        let known = self.transcript(thread_id.as_str()).is_some();
        if !known {
            put_transcript(&mut self.transcripts, owned(thread_id.as_str()), SessionTranscriptState::Loading);
        }
        self.transcript_pager = Some(PickerTranscriptPager::new(owned(thread_id.as_str()), locale));
        if known {
            None
        } else {
            Some(thread_id)
        }
    }

    /// Records the loaded transcript of a session, or that loading failed.
    pub fn set_transcript(&mut self, thread_id: String, result: Result<Vec<TranscriptEntry>, String>)
        ensures
            Self::transcript_recorded(*old(self), *final(self), thread_id, result),
    {
        let state = match result {
            Ok(entries) => SessionTranscriptState::Loaded(entries),
            Err(_) => SessionTranscriptState::Failed,
        };
        put_transcript(&mut self.transcripts, thread_id, state);
    }

    /// Starts a new load of the session list: a fresh token, loading, and
    /// no status message.
    pub fn begin_load(&mut self) -> (r: usize)
        ensures
            r == final(self).load_token,
            r == if old(self).load_token == usize::MAX { 0 } else { old(self).load_token + 1 },
            *final(self) == (PickerState {
                load_token: r,
                loading: true,
                status_message: None,
                ..*old(self)
            }),
    {
        self.load_token = self.load_token.wrapping_add(1);
        self.loading = true;
        self.status_message = None;
        self.load_token
    }

    /// Records that the load with `token` failed; a stale token changes
    /// nothing.
    pub fn fail_thread_load(&mut self, token: usize, error: String)
        ensures
            Self::load_failed(*old(self), *final(self), token, error),
    {
        if token != self.load_token {
            return;
        }
        self.loading = false;
        self.status_message = Some(error);
    }

    /// Whether an archive request may start: none is in flight and a
    /// session is selected.
    pub open spec fn archive_ready(&self) -> bool {
        self.archive_state is Idle && selected_id(self.threads@, self.selected as int) is Some
    }

    /// Applies an event. A key moves the selection, edits the query or
    /// names an action (`picker_key_step`); a paste adds search text
    /// (`pasted_query`) and asks for a reload. The caller hands the pasted
    /// text over already normalised for search, empty when it holds nothing
    /// to search for.
    pub fn handle_event(&mut self, event: InputEvent) -> (r: PickerAction)
        ensures
            Self::event_handled(*old(self), *final(self), event, r),
    {
        let key = match event {
            InputEvent::Paste(text) => {
                let v = chars_of(text.as_str());
                if v.len() > 0 {
                    let q = chars_of(self.query.as_str());
                    let mut out = owned(self.query.as_str());
                    if q.len() > 0 && !is_whitespace(q[q.len() - 1]) {
                        crate::text::push_char(&mut out, ' ');
                    }
                    out.append(text.as_str());
                    self.query = out;
                    self.invalidate_thread_list();
                }
                return PickerAction::Reload;
            },
            InputEvent::Other => return PickerAction::Ignored,
            InputEvent::Key(key) => key,
        };
        if !key.press {
            return PickerAction::Ignored;
        }
        if key.control && (key.code == Key::Char('c') || key.code == Key::Char('d')) {
            return PickerAction::Cancel;
        }
        let idle = match self.archive_state {
            ArchiveState::Idle => true,
            _ => false,
        };
        if key.control && key.code == Key::Char('a') && self.status == SessionStatus::Active && idle
            && self.selected < self.threads.len() {
            return PickerAction::Archive;
        }
        if key.control {
            match key.code {
                Key::Char('s') => return PickerAction::ToggleStatus,
                Key::Char('f') => return PickerAction::ToggleFilter,
                Key::Char('r') => return PickerAction::ToggleSort,
                Key::Char('o') => return PickerAction::ToggleDensity,
                Key::Char('e') => return PickerAction::ToggleExpanded,
                Key::Char('t') => return PickerAction::OpenTranscript,
                _ => {},
            }
        }
        let unmodified = !key.control && !key.alt && !key.other_modifiers;
        if unmodified && key.code == Key::Char('\u{14}') {
            return PickerAction::OpenTranscript;
        }
        if unmodified && key.code == Key::Char('\u{5}') {
            return PickerAction::ToggleExpanded;
        }
        let len = self.threads.len();
        match key.code {
            Key::Up | Key::Char('k') => {
                self.selected = if self.selected >= 1 { self.selected - 1 } else { 0 };
                PickerAction::MoveUp
            },
            Key::PageUp => {
                self.selected = if self.selected >= 10 { self.selected - 10 } else { 0 };
                PickerAction::MoveUp
            },
            Key::Down | Key::Char('j') => {
                if len > 0 {
                    self.selected = if self.selected < len - 1 && len - 1 - self.selected > 1 {
                        self.selected + 1
                    } else {
                        len - 1
                    };
                }
                PickerAction::MoveDown
            },
            Key::PageDown => {
                if len > 0 {
                    self.selected = if self.selected < len - 1 && len - 1 - self.selected > 10 {
                        self.selected + 10
                    } else {
                        len - 1
                    };
                }
                PickerAction::MoveDown
            },
            Key::Home => {
                self.selected = 0;
                PickerAction::MoveUp
            },
            Key::End => {
                if len > 0 {
                    self.selected = len - 1;
                }
                PickerAction::MoveDown
            },
            Key::Enter => {
                if self.status == SessionStatus::Archived {
                    PickerAction::Restore
                } else {
                    PickerAction::Select
                }
            },
            Key::Backspace => {
                let v = chars_of(self.query.as_str());
                if v.len() > 0 {
                    self.query = string_of(&v, 0, v.len() - 1);
                    assert(v@.subrange(0, v.len() - 1) =~= v@.drop_last());
                }
                self.invalidate_thread_list();
                PickerAction::Reload
            },
            Key::Esc => {
                if self.query.as_str().is_empty() {
                    PickerAction::Cancel
                } else {
                    self.query = String::new();
                    self.invalidate_thread_list();
                    PickerAction::Reload
                }
            },
            Key::Char(c) => {
                if !key.alt {
                    crate::text::push_char(&mut self.query, c);
                    self.invalidate_thread_list();
                    PickerAction::Reload
                } else {
                    PickerAction::Ignored
                }
            },
            _ => PickerAction::Ignored,
        }
    }

    /// The picker with the selection back on the first row and the
    /// expansion and transcript pager dropped, as a change of list asks
    /// (which also forgets the transcripts).
    pub open spec fn reset_list(self) -> PickerState {
        PickerState {
            selected: 0,
            expanded_thread_id: None,
            transcript_pager: None,
            next_cursor: None,
            ..self
        }
    }

    /// Forgets where the next page starts and which page starts were
    /// asked for, as a new query asks.
    fn invalidate_thread_list(&mut self)
        ensures
            final(self).seen_cursors@.len() == 0,
            *final(self) == (PickerState {
                next_cursor: None,
                seen_cursors: final(self).seen_cursors,
                ..*old(self)
            }),
    {
        self.next_cursor = None;
        self.seen_cursors = Vec::new();
    }

    fn clear_details(&mut self)
        ensures
            final(self).transcripts@.len() == 0,
            final(self).seen_cursors@.len() == 0,
            final(self).transcript_previews@.len() == 0,
            final(self).preview_loading@.len() == 0,
            *final(self) == (PickerState {
                transcripts: final(self).transcripts,
                seen_cursors: final(self).seen_cursors,
                transcript_previews: final(self).transcript_previews,
                preview_loading: final(self).preview_loading,
                ..old(self).reset_list()
            }),
    {
        self.next_cursor = None;
        self.seen_cursors = Vec::new();
        self.transcript_previews = Vec::new();
        self.preview_loading = Vec::new();
        self.selected = 0;
        self.expanded_thread_id = None;
        self.transcripts = Vec::new();
        self.transcript_pager = None;
    }

    /// Switches between active and archived sessions.
    pub fn toggle_status(&mut self)
        ensures
            Self::status_toggled(*old(self), *final(self)),
    {
        self.status = match self.status {
            SessionStatus::Active => SessionStatus::Archived,
            SessionStatus::Archived => SessionStatus::Active,
        };
        self.clear_details();
    }

    /// Switches between sessions of the working directory and all sessions.
    pub fn toggle_filter(&mut self)
        ensures
            Self::filter_toggled(*old(self), *final(self)),
    {
        self.show_all = !self.show_all;
        self.clear_details();
    }

    /// Switches the listing order: by creation time after update time, and
    /// by update time after any other order.
    pub fn toggle_sort(&mut self)
        ensures
            Self::sort_toggled(*old(self), *final(self)),
    {
        self.sort_key = match self.sort_key {
            ThreadSortKey::UpdatedAt => ThreadSortKey::CreatedAt,
            _ => ThreadSortKey::UpdatedAt,
        };
        self.clear_details();
    }

    /// Switches the list density.
    pub fn toggle_density(&mut self)
        ensures
            Self::density_toggled(*old(self), *final(self)),
    {
        self.density = self.density.toggle();
    }

    /// Whether the transcript pager is open.
    pub fn transcript_pager_is_open(&self) -> (r: bool)
        ensures
            r == self.transcript_pager is Some,
    {
        self.transcript_pager.is_some()
    }

    /// Hands a key to the open transcript pager (`key_step`) and closes
    /// the pager when the key closes it; other events change nothing.
    pub fn handle_transcript_pager_event(&mut self, event: &InputEvent)
        ensures
            Self::pager_event_handled(*old(self), *final(self), event),
    {
        let key = match event {
            InputEvent::Key(key) => *key,
            _ => return,
        };
        match self.transcript_pager.take() {
            Some(mut pager) => {
                let action = pager.overlay.handle_event(pager_key(key));
                if action != PagerAction::Close {
                    self.transcript_pager = Some(pager);
                }
            },
            None => {},
        }
    }
}


impl PickerState {
    /// What `expansion_toggled` promises of the picker before and after it.
    pub open spec fn expansion_toggled(o: PickerState, n: PickerState, r: Option<String>) -> bool {
        &&& match selected_id(o.threads@, o.selected as int) {
            None => r is None && n == o,
            Some(id) => if holds_text(o.expanded_thread_id, id) {
                r is None && n == (PickerState { expanded_thread_id: None, ..o })
            } else {
                &&& holds_text(n.expanded_thread_id, id)
                &&& n == (PickerState {
                    expanded_thread_id: n.expanded_thread_id,
                    transcripts: n.transcripts,
                    ..o
                })
                &&& if transcript_of(o.transcripts@, id) matches Some(SessionTranscriptState::Loaded(_)) {
                    r is None && n.transcripts == o.transcripts
                } else {
                    &&& r matches Some(x) && x@ == id
                    &&& transcript_of(n.transcripts@, id) == Some(SessionTranscriptState::Loading)
                    &&& forall|x: Seq<char>| x != id ==> transcript_of(n.transcripts@, x)
                        == transcript_of(o.transcripts@, x)
                }
            }
        }
    }

    /// What `transcript_pager_opened` promises of the picker before and after it.
    pub open spec fn transcript_pager_opened(o: PickerState, n: PickerState, locale: Locale, r: Option<String>) -> bool {
        &&& match selected_id(o.threads@, o.selected as int) {
            None => r is None && n == o,
            Some(id) => {
                &&& n.transcript_pager matches Some(p) && p.thread_id@ == id
                    && p.overlay@.title == locale.transcript_title_text()
                    && p.overlay@.static_lines is None && p.overlay@.state == tail_state()
                &&& n == (PickerState {
                    transcript_pager: n.transcript_pager,
                    transcripts: n.transcripts,
                    ..o
                })
                &&& if transcript_of(o.transcripts@, id) is Some {
                    r is None && n.transcripts == o.transcripts
                } else {
                    &&& r matches Some(x) && x@ == id
                    &&& transcript_of(n.transcripts@, id) == Some(SessionTranscriptState::Loading)
                    &&& forall|x: Seq<char>| x != id ==> transcript_of(n.transcripts@, x)
                        == transcript_of(o.transcripts@, x)
                }
            }
        }
    }

    /// What `transcript_recorded` promises of the picker before and after it.
    pub open spec fn transcript_recorded(o: PickerState, n: PickerState, thread_id: String, result: Result<Vec<TranscriptEntry>, String>) -> bool {
        &&& transcript_of(n.transcripts@, thread_id@) == Some(
            match result {
                Ok(entries) => SessionTranscriptState::Loaded(entries),
                Err(_) => SessionTranscriptState::Failed,
            }
        )
        &&& forall|x: Seq<char>| x != thread_id@ ==> transcript_of(n.transcripts@, x)
            == transcript_of(o.transcripts@, x)
        &&& n == (PickerState { transcripts: n.transcripts, ..o })
    }

    /// What `load_failed` promises of the picker before and after it.
    pub open spec fn load_failed(o: PickerState, n: PickerState, token: usize, error: String) -> bool {
        &&& token != o.load_token ==> n == o
        &&& token == o.load_token ==> n == (PickerState {
            loading: false,
            status_message: Some(error),
            ..o
        })
    }

    /// What `event_handled` promises of the picker before and after it.
    pub open spec fn event_handled(o: PickerState, n: PickerState, event: InputEvent, r: PickerAction) -> bool {
        &&& match event {
            InputEvent::Key(key) => {
                let (sel, q, action) = picker_key_step(
                    key,
                    o.status,
                    o.archive_ready(),
                    o.threads@.len() as int,
                    o.selected as int,
                    o.query@,
                );
                let fresh = action == PickerAction::Reload;
                &&& r == action
                &&& n.selected == sel
                &&& n.query@ == q
                &&& fresh ==> n.seen_cursors@.len() == 0
                &&& n == (PickerState {
                    selected: n.selected,
                    query: n.query,
                    next_cursor: if fresh { None } else { o.next_cursor },
                    seen_cursors: if fresh { n.seen_cursors } else { o.seen_cursors },
                    ..o
                })
            },
            InputEvent::Paste(text) => {
                &&& r == PickerAction::Reload
                &&& n.query@ == pasted_query(o.query@, text@)
                &&& text@.len() > 0 ==> n.seen_cursors@.len() == 0
                &&& n == (PickerState {
                    query: n.query,
                    next_cursor: if text@.len() > 0 { None } else { o.next_cursor },
                    seen_cursors: if text@.len() > 0 { n.seen_cursors } else { o.seen_cursors },
                    ..o
                })
            },
            InputEvent::Other => r == PickerAction::Ignored && n == o
        }
    }

    /// What `status_toggled` promises of the picker before and after it.
    pub open spec fn status_toggled(o: PickerState, n: PickerState) -> bool {
        &&& n.status == match o.status {
            SessionStatus::Active => SessionStatus::Archived,
            SessionStatus::Archived => SessionStatus::Active
        }
        &&& n.transcripts@.len() == 0
        &&& n.seen_cursors@.len() == 0
        &&& n.transcript_previews@.len() == 0
        &&& n.preview_loading@.len() == 0
        &&& n == (PickerState {
            status: n.status,
            transcripts: n.transcripts,
            seen_cursors: n.seen_cursors,
            transcript_previews: n.transcript_previews,
            preview_loading: n.preview_loading,
            ..o.reset_list()
        })
    }

    /// What `filter_toggled` promises of the picker before and after it.
    pub open spec fn filter_toggled(o: PickerState, n: PickerState) -> bool {
        &&& n.show_all == !o.show_all
        &&& n.transcripts@.len() == 0
        &&& n.seen_cursors@.len() == 0
        &&& n.transcript_previews@.len() == 0
        &&& n.preview_loading@.len() == 0
        &&& n == (PickerState {
            show_all: n.show_all,
            transcripts: n.transcripts,
            seen_cursors: n.seen_cursors,
            transcript_previews: n.transcript_previews,
            preview_loading: n.preview_loading,
            ..o.reset_list()
        })
    }

    /// What `sort_toggled` promises of the picker before and after it.
    pub open spec fn sort_toggled(o: PickerState, n: PickerState) -> bool {
        &&& n.sort_key == if o.sort_key == ThreadSortKey::UpdatedAt {
            ThreadSortKey::CreatedAt
        } else {
            ThreadSortKey::UpdatedAt
        }
        &&& n.transcripts@.len() == 0
        &&& n.seen_cursors@.len() == 0
        &&& n.transcript_previews@.len() == 0
        &&& n.preview_loading@.len() == 0
        &&& n == (PickerState {
            sort_key: n.sort_key,
            transcripts: n.transcripts,
            seen_cursors: n.seen_cursors,
            transcript_previews: n.transcript_previews,
            preview_loading: n.preview_loading,
            ..o.reset_list()
        })
    }

    /// What `density_toggled` promises of the picker before and after it.
    pub open spec fn density_toggled(o: PickerState, n: PickerState) -> bool {
        &&& n.density != o.density
        &&& n == (PickerState { density: n.density, ..o })
    }

    /// What `pager_event_handled` promises of the picker before and after it.
    pub open spec fn pager_event_handled(o: PickerState, n: PickerState, event: &InputEvent) -> bool {
        &&& match (o.transcript_pager, event) {
            (Some(p), InputEvent::Key(key)) => {
                let (next, action) = key_step(
                    p.overlay@.static_lines is None,
                    p.overlay@.older_history_available,
                    p.overlay@.state,
                    pager_key_spec(*key),
                );
                &&& action == PagerAction::Close ==> n.transcript_pager is None
                &&& action != PagerAction::Close ==> (n.transcript_pager matches Some(q)
                    && q.thread_id == p.thread_id && q.overlay@ == (PagerView { state: next, ..p.overlay@ }))
                &&& n == (PickerState {
                    transcript_pager: n.transcript_pager,
                    ..o
                })
            },
            _ => n == o
        }
    }
}

} // verus!
