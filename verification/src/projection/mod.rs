//! The transcript projection: the ordered transcript entries of a
//! conversation, kept up to date from canonical thread items and server
//! notifications.
//!
//! Entries are found by id: an item seen again replaces its entry in place,
//! streamed text is appended to the entry of its item, and a finished turn
//! settles the entries still running.
use vstd::prelude::*;

use crate::projection::items::{
    entry_is, entry_model, item_entry, patch_text, project_item, project_item_with_lifecycle,
    projects, EntryModel, WebSearchLifecycle,
};
use crate::history_filter::{is_listed_ids as is_listed, listed};
use crate::protocol::{ThreadItem, TurnPlanStep, TurnPlanStepStatus};
use crate::text::{owned, push_dec, str_eq, trim};

pub mod items;

verus! {

/// What a transcript entry shows.
#[derive(Clone, Copy, Debug, PartialEq, Eq, Structural)]
pub enum EntryKind {
    User,
    Assistant,
    Reasoning,
    Command,
    Patch,
    Mcp,
    Plan,
    MultiAgent,
    Tool,
    System,
}

/// The lifecycle state of a transcript entry.
#[derive(Clone, Copy, Debug, PartialEq, Eq, Structural)]
pub enum EntryStatus {
    Running,
    Completed,
    Failed,
    Declined,
    Interrupted,
}

impl EntryStatus {
    /// The status word shown beside an entry.
    pub open spec fn label_text(self) -> Seq<char> {
        match self {
            EntryStatus::Running => "running"@,
            EntryStatus::Completed => "completed"@,
            EntryStatus::Failed => "failed"@,
            EntryStatus::Declined => "declined"@,
            EntryStatus::Interrupted => "interrupted"@,
        }
    }

    /// The status word shown beside an entry.
    pub fn label(self) -> (r: &'static str)
        ensures
            r@ == self.label_text(),
    {
        match self {
            EntryStatus::Running => "running",
            EntryStatus::Completed => "completed",
            EntryStatus::Failed => "failed",
            EntryStatus::Declined => "declined",
            EntryStatus::Interrupted => "interrupted",
        }
    }
}

/// One entry of the transcript.
#[derive(Debug)]
pub struct TranscriptEntry {
    pub id: String,
    pub kind: EntryKind,
    pub text: String,
    pub streaming: bool,
    pub status: Option<EntryStatus>,
    /// Stable, display-ready facts derived from the canonical item payload.
    pub summary: Vec<String>,
}

/// A turn-completion separator placed after the last visible entry of a
/// completed turn.
#[derive(Debug)]
pub struct CompletionBoundary {
    pub after_entry_id: String,
    pub elapsed_seconds: Option<u64>,
}

/// What is known of a completed turn of grouped history.
#[derive(Clone, Copy, Debug, PartialEq, Eq, Structural)]
pub struct CompletionMetadata {
    pub elapsed_seconds: Option<u64>,
}

/// The phase of an assistant message.
#[derive(Clone, Copy, Debug, PartialEq, Eq, Structural)]
pub enum MessagePhase {
    Commentary,
    FinalAnswer,
}

/// The state of a turn.
#[derive(Clone, Copy, Debug, PartialEq, Eq, Structural)]
pub enum TurnStatus {
    Completed,
    Interrupted,
    Failed,
    InProgress,
}

/// The state of a hook run.
#[derive(Clone, Copy, Debug, PartialEq, Eq, Structural)]
pub enum HookRunStatus {
    Running,
    Completed,
    Failed,
    Blocked,
    Stopped,
}

/// What a hook output entry is for; context entries are for the model only.
#[derive(Clone, Copy, Debug, PartialEq, Eq, Structural)]
pub enum HookOutputEntryKind {
    Context,
    Feedback,
    Warning,
    Error,
}

/// One output entry of a hook run.
#[derive(Debug)]
pub struct HookOutputEntry {
    pub kind: HookOutputEntryKind,
    pub text: String,
}

/// What the server reports of a hook run.
#[derive(Debug)]
pub struct HookRunSummary {
    pub id: String,
    pub status: HookRunStatus,
    pub status_message: Option<String>,
    pub entries: Vec<HookOutputEntry>,
}

/// A hook that is running.
#[derive(Debug)]
pub struct ActiveHook {
    pub id: String,
    pub turn_id: Option<String>,
    pub status_message: Option<String>,
}

/// The first entry, from position `from` on, with id `id`.
pub open spec fn find_entry(es: Seq<TranscriptEntry>, id: Seq<char>, from: int) -> Option<int>
    decreases es.len() - from,
{
    if from < 0 || from >= es.len() {
        None
    } else if es[from].id@ == id {
        Some(from)
    } else {
        find_entry(es, id, from + 1)
    }
}

/// Whether some entry has id `id`.
pub open spec fn has_entry(es: Seq<TranscriptEntry>, id: Seq<char>) -> bool {
    exists|i: int| 0 <= i < es.len() && es[i].id@ == id
}

/// No two entries share an id.
pub open spec fn ids_unique(es: Seq<TranscriptEntry>) -> bool {
    forall|i: int, j: int| 0 <= i < j < es.len() ==> es[i].id@ != es[j].id@
}

/// `find_entry` finds the first entry with the id, and finds none exactly
/// when no entry has it.
pub proof fn lemma_find_entry(es: Seq<TranscriptEntry>, id: Seq<char>, from: int)
    requires
        0 <= from <= es.len(),
    ensures
        match find_entry(es, id, from) {
            Some(i) => from <= i < es.len() && es[i].id@ == id && forall|j: int|
                from <= j < i ==> es[j].id@ != id,
            None => forall|j: int| from <= j < es.len() ==> es[j].id@ != id,
        },
    decreases es.len() - from,
{
    if from < es.len() {
        lemma_find_entry(es, id, from + 1);
    }
}

/// Position of the first entry with id `id`.
fn position_of_entry(es: &Vec<TranscriptEntry>, id: &str) -> (r: Option<usize>)
    ensures
        match r {
            Some(i) => find_entry(es@, id@, 0) == Some(i as int) && i < es.len(),
            None => find_entry(es@, id@, 0) is None,
        },
{
    let mut i: usize = 0;
    while i < es.len()
        invariant
            i <= es.len(),
            find_entry(es@, id@, 0) == find_entry(es@, id@, i as int),
        decreases es.len() - i,
    {
        if str_eq(es[i].id.as_str(), id) {
            return Some(i);
        }
        i = i + 1;
    }
    None
}

/// The message of a hook, trimmed, when it is not blank.
pub open spec fn hook_message(h: ActiveHook) -> Option<Seq<char>> {
    match h.status_message {
        Some(m) => if trim(m@).len() > 0 {
            Some(trim(m@))
        } else {
            None
        },
        None => None,
    }
}

/// The message of a hook, trimmed (blank messages included).
pub open spec fn hook_message_trimmed(h: ActiveHook) -> Option<Seq<char>> {
    match h.status_message {
        Some(m) => Some(trim(m@)),
        None => None,
    }
}

/// The status shown while hooks run: none without running hooks; for one
/// hook its message or `running hook`; for several, their shared message
/// when all carry the same one, else `running hooks`.
pub open spec fn hook_status_spec(hooks: Seq<ActiveHook>) -> Option<Seq<char>> {
    if hooks.len() == 0 {
        None
    } else if hooks.len() == 1 {
        match hook_message(hooks[0]) {
            Some(m) => Some(m),
            None => Some("running hook"@),
        }
    } else if hook_message(hooks[0]) is Some && (forall|i: int|
        0 <= i < hooks.len() ==> hook_message_trimmed(#[trigger] hooks[i]) == hook_message(
            hooks[0],
        )) {
        hook_message(hooks[0])
    } else {
        Some("running hooks"@)
    }
}

/// The phase last recorded for an assistant message among the first `n`
/// records; none when none was recorded or the last record cleared it.
pub open spec fn phase_of(phases: Seq<(String, Option<MessagePhase>)>, id: Seq<char>, n: int) -> Option<
    MessagePhase,
>
    decreases n,
{
    if n <= 0 {
        None
    } else if phases[n - 1].0@ == id {
        phases[n - 1].1
    } else {
        phase_of(phases, id, n - 1)
    }
}

/// The phase recorded for an assistant message.
pub open spec fn phase_now(phases: Seq<(String, Option<MessagePhase>)>, id: Seq<char>) -> Option<
    MessagePhase,
> {
    phase_of(phases, id, phases.len() as int)
}

/// Whether an entry can be the final answer: assistant text that is not
/// empty and not commentary.
pub open spec fn is_answer(e: TranscriptEntry, phases: Seq<(String, Option<MessagePhase>)>) -> bool {
    e.kind == EntryKind::Assistant && e.text@.len() > 0 && phase_now(phases, e.id@) != Some(
        MessagePhase::Commentary,
    )
}

/// The text of the last entry that can be the final answer, among the first
/// `n`; empty when there is none.
pub open spec fn last_answer(
    es: Seq<TranscriptEntry>,
    phases: Seq<(String, Option<MessagePhase>)>,
    n: int,
) -> Seq<char>
    decreases n,
{
    if n <= 0 {
        Seq::<char>::empty()
    } else if is_answer(es[n - 1], phases) {
        es[n - 1].text@
    } else {
        last_answer(es, phases, n - 1)
    }
}

/// Entry `e` with its status settled: a running entry takes `to`.
pub open spec fn settled(e: TranscriptEntry, to: EntryStatus) -> Option<EntryStatus> {
    if e.status == Some(EntryStatus::Running) {
        Some(to)
    } else {
        e.status
    }
}

/// The entry status a finished turn gives its running entries.
pub open spec fn settle_status(status: TurnStatus) -> Option<EntryStatus> {
    match status {
        TurnStatus::Completed => Some(EntryStatus::Completed),
        TurnStatus::Failed => Some(EntryStatus::Failed),
        TurnStatus::Interrupted => Some(EntryStatus::Interrupted),
        TurnStatus::InProgress => None,
    }
}

/// The status word of a turn state.
pub open spec fn turn_status_text(status: TurnStatus) -> Seq<char> {
    match status {
        TurnStatus::Completed => "ready"@,
        TurnStatus::Interrupted => "interrupted"@,
        TurnStatus::Failed => "failed"@,
        TurnStatus::InProgress => "running"@,
    }
}

/// The status word of a turn state.
pub fn turn_status(status: TurnStatus) -> (r: &'static str)
    ensures
        r@ == turn_status_text(status),
{
    match status {
        TurnStatus::Completed => "ready",
        TurnStatus::Interrupted => "interrupted",
        TurnStatus::Failed => "failed",
        TurnStatus::InProgress => "running",
    }
}

/// The transcript of one conversation.
pub struct ConversationProjection {
    entries: Vec<TranscriptEntry>,
    completion_boundaries: Vec<CompletionBoundary>,
    active_turn_id: Option<String>,
    status: String,
    review_mode: bool,
    active_hooks: Vec<ActiveHook>,
    /// Explicit assistant phases keyed by canonical item id. Legacy items
    /// omit the phase and keep the historical final-answer behavior.
    assistant_phases: Vec<(String, Option<MessagePhase>)>,
    /// Whether the last turn ended: until the next turn starts, late stream
    /// notifications are not taken.
    turn_closed: bool,
    /// The heading of the reasoning being streamed, shown as the status.
    reasoning_header: Option<String>,
}

impl ConversationProjection {
    /// The entries, in transcript order.
    pub closed spec fn entries_view(&self) -> Seq<TranscriptEntry> {
        self.entries@
    }

    /// The completion separators.
    pub closed spec fn boundaries_view(&self) -> Seq<CompletionBoundary> {
        self.completion_boundaries@
    }

    /// The id of the turn in progress.
    pub closed spec fn active_turn_view(&self) -> Option<Seq<char>> {
        match self.active_turn_id {
            Some(t) => Some(t@),
            None => None,
        }
    }

    /// The status word set by the last turn event.
    pub closed spec fn status_view(&self) -> Seq<char> {
        self.status@
    }

    /// Whether the conversation is inside a review.
    pub closed spec fn review_view(&self) -> bool {
        self.review_mode
    }

    /// The hooks running.
    pub closed spec fn hooks_view(&self) -> Seq<ActiveHook> {
        self.active_hooks@
    }

    /// The recorded assistant phases.
    pub closed spec fn phases_view(&self) -> Seq<(String, Option<MessagePhase>)> {
        self.assistant_phases@
    }

    /// Whether the last turn ended and no other has started.
    pub closed spec fn closed_view(&self) -> bool {
        self.turn_closed
    }

    /// The reasoning heading shown as the status.
    pub closed spec fn header_view(&self) -> Option<Seq<char>> {
        match self.reasoning_header {
            Some(h) => Some(h@),
            None => None,
        }
    }

    /// An empty transcript, ready.
    pub fn new() -> (r: Self)
        ensures
            r.entries_view().len() == 0,
            r.boundaries_view().len() == 0,
            r.active_turn_view() is None,
            r.status_view().len() == 0,
            !r.review_view(),
            r.hooks_view().len() == 0,
            r.phases_view().len() == 0,
            !r.closed_view(),
            r.header_view() is None,
    {
        ConversationProjection {
            entries: Vec::new(),
            completion_boundaries: Vec::new(),
            active_turn_id: None,
            status: String::new(),
            review_mode: false,
            active_hooks: Vec::new(),
            assistant_phases: Vec::new(),
            turn_closed: false,
            reasoning_header: None,
        }
    }

    /// The entries, in transcript order.
    pub fn entries(&self) -> (r: &[TranscriptEntry])
        ensures
            r@ == self.entries_view(),
    {
        self.entries.as_slice()
    }

    /// The id of the turn in progress.
    pub fn active_turn_id(&self) -> (r: Option<&str>)
        ensures
            match r {
                Some(t) => self.active_turn_view() == Some(t@),
                None => self.active_turn_view() is None,
            },
    {
        match &self.active_turn_id {
            Some(t) => Some(t.as_str()),
            None => None,
        }
    }

    /// The status line: what running hooks report, else the turn status.
    pub open spec fn status_text(&self) -> Seq<char> {
        match hook_status_spec(self.hooks_view()) {
            Some(h) => h,
            None => match self.header_view() {
                Some(h) => h,
                None => self.status_view(),
            },
        }
    }

    /// The status line.
    pub fn status(&self) -> (r: String)
        ensures
            r@ == self.status_text(),
    {
        match self.hook_status() {
            Some(h) => h,
            None => match &self.reasoning_header {
                Some(h) => owned(h.as_str()),
                None => owned(self.status.as_str()),
            },
        }
    }

    /// Sets the status word; an explicit status replaces the reasoning
    /// heading.
    pub fn set_status(&mut self, status: &str)
        ensures
            final(self).status_view() == status@,
            final(self).header_view() is None,
            final(self).entries_view() == old(self).entries_view(),
            final(self).boundaries_view() == old(self).boundaries_view(),
            final(self).active_turn_view() == old(self).active_turn_view(),
            final(self).hooks_view() == old(self).hooks_view(),
            final(self).phases_view() == old(self).phases_view(),
            final(self).review_view() == old(self).review_view(),
            final(self).closed_view() == old(self).closed_view(),
    {
        self.status = owned(status);
        self.reasoning_header = None;
    }

    fn hook_status(&self) -> (r: Option<String>)
        ensures
            match r {
                Some(s) => hook_status_spec(self.hooks_view()) == Some(s@),
                None => hook_status_spec(self.hooks_view()) is None,
            },
    {
        let hooks = &self.active_hooks;
        if hooks.len() == 0 {
            return None;
        }
        let first = message_of(&hooks[0]);
        if hooks.len() == 1 {
            return match first {
                Some(m) => Some(m),
                None => Some(owned("running hook")),
            };
        }
        match first {
            None => Some(owned("running hooks")),
            Some(m) => {
                let mut i: usize = 0;
                while i < hooks.len()
                    invariant
                        i <= hooks.len(),
                        hooks@ == self.hooks_view(),
                        hook_message(hooks@[0]) == Some(m@),
                        forall|j: int|
                            0 <= j < i ==> hook_message_trimmed(#[trigger] hooks@[j]) == Some(m@),
                    decreases hooks.len() - i,
                {
                    let same = match &hooks[i].status_message {
                        Some(x) => {
                            let t = crate::text::trimmed(x.as_str());
                            str_eq(t.as_str(), m.as_str())
                        },
                        None => false,
                    };
                    if !same {
                        assert(hook_message_trimmed(hooks@[i as int]) != Some(m@));
                        return Some(owned("running hooks"));
                    }
                    i = i + 1;
                }
                Some(m)
            },
        }
    }

    /// The answer to copy: the text of the last assistant entry that is not
    /// empty and not commentary; empty when there is none.
    pub fn final_answer(&self) -> (r: String)
        ensures
            r@ == last_answer(self.entries_view(), self.phases_view(), self.entries_view().len() as int),
    {
        let mut i = self.entries.len();
        while i > 0
            invariant
                i <= self.entries.len(),
                last_answer(self.entries@, self.assistant_phases@, self.entries@.len() as int)
                    == last_answer(self.entries@, self.assistant_phases@, i as int),
            decreases i,
        {
            let e = &self.entries[i - 1];
            if e.kind == EntryKind::Assistant && !e.text.as_str().is_empty() {
                let phase = phase_lookup(&self.assistant_phases, e.id.as_str());
                let commentary = match phase {
                    Some(MessagePhase::Commentary) => true,
                    _ => false,
                };
                if !commentary {
                    return owned(e.text.as_str());
                }
            }
            i = i - 1;
        }
        String::new()
    }
}

fn message_of(h: &ActiveHook) -> (r: Option<String>)
    ensures
        match r {
            Some(s) => hook_message(*h) == Some(s@),
            None => hook_message(*h) is None,
        },
{
    match &h.status_message {
        Some(m) => {
            let t = crate::text::trimmed(m.as_str());
            if !t.as_str().is_empty() {
                Some(t)
            } else {
                None
            }
        },
        None => None,
    }
}

fn phase_lookup(phases: &Vec<(String, Option<MessagePhase>)>, id: &str) -> (r: Option<MessagePhase>)
    ensures
        r == phase_now(phases@, id@),
{
    let mut i = phases.len();
    while i > 0
        invariant
            i <= phases.len(),
            phase_now(phases@, id@) == phase_of(phases@, id@, i as int),
        decreases i,
    {
        if str_eq(phases[i - 1].0.as_str(), id) {
            return phases[i - 1].1;
        }
        i = i - 1;
    }
    None
}

/// The entries after `e` is recorded: it replaces the first entry with its id,
/// or is appended when no entry has that id.
pub open spec fn replaced(es: Seq<TranscriptEntry>, e: TranscriptEntry) -> Seq<TranscriptEntry> {
    match find_entry(es, e.id@, 0) {
        Some(i) => es.update(i, e),
        None => es.push(e),
    }
}

/// Whether `b` is `a` with text `delta` appended and marked streaming.
pub open spec fn extended(a: TranscriptEntry, b: TranscriptEntry, delta: Seq<char>) -> bool {
    &&& b.id == a.id
    &&& b.kind == a.kind
    &&& b.text@ == a.text@ + delta
    &&& b.streaming
    &&& b.status == a.status
    &&& b.summary == a.summary
}

/// Whether `e` is the entry that a delta for an unknown item starts.
pub open spec fn started_by_delta(e: TranscriptEntry, id: Seq<char>, kind: EntryKind, delta: Seq<
    char,
>) -> bool {
    &&& e.id@ == id
    &&& e.kind == kind
    &&& e.text@ == delta
    &&& e.streaming
    &&& e.status == (if kind == EntryKind::Command || kind == EntryKind::Plan {
        Some(EntryStatus::Running)
    } else {
        None
    })
    &&& e.summary@.len() == 0
}

/// Whether `e` is the system entry with `text` that is appended as entry
/// number `n`.
pub open spec fn system_entry(e: TranscriptEntry, n: nat, text: Seq<char>) -> bool {
    &&& e.id@ == "system-"@ + crate::text::dec(n)
    &&& e.kind == EntryKind::System
    &&& e.text@ == text
    &&& !e.streaming
    &&& e.status is None
    &&& e.summary@.len() == 0
}

/// The first boundary, from position `from` on, after entry `id`.
pub open spec fn find_boundary(bs: Seq<CompletionBoundary>, id: Seq<char>, from: int) -> Option<int>
    decreases bs.len() - from,
{
    if from < 0 || from >= bs.len() {
        None
    } else if bs[from].after_entry_id@ == id {
        Some(from)
    } else {
        find_boundary(bs, id, from + 1)
    }
}

/// A boundary list that ends after entry `x` has a boundary after `x`.
pub proof fn lemma_find_boundary_last(bs: Seq<CompletionBoundary>, x: Seq<char>, from: int)
    requires
        0 <= from < bs.len(),
        bs.last().after_entry_id@ == x,
    ensures
        find_boundary(bs, x, from) is Some,
    decreases bs.len() - from,
{
    if from < bs.len() - 1 {
        lemma_find_boundary_last(bs, x, from + 1);
    }
}

/// The entries whose ids are not listed, in order.
pub open spec fn visible_entries(es: Seq<TranscriptEntry>, hidden: Seq<String>) -> Seq<
    TranscriptEntry,
>
    decreases es.len(),
{
    if es.len() == 0 {
        es
    } else {
        let init = visible_entries(es.drop_last(), hidden);
        if listed(hidden, es.last().id@) {
            init
        } else {
            init.push(es.last())
        }
    }
}

/// The boundaries after entries that are not listed, in order.
pub open spec fn visible_boundaries(bs: Seq<CompletionBoundary>, hidden: Seq<String>) -> Seq<
    CompletionBoundary,
>
    decreases bs.len(),
{
    if bs.len() == 0 {
        bs
    } else {
        let init = visible_boundaries(bs.drop_last(), hidden);
        if listed(hidden, bs.last().after_entry_id@) {
            init
        } else {
            init.push(bs.last())
        }
    }
}

impl ConversationProjection {
    /// Whether only the entries differ between `self` and `other`.
    pub open spec fn same_but_entries(&self, other: &Self) -> bool {
        &&& self.boundaries_view() == other.boundaries_view()
        &&& self.active_turn_view() == other.active_turn_view()
        &&& self.status_view() == other.status_view()
        &&& self.review_view() == other.review_view()
        &&& self.hooks_view() == other.hooks_view()
        &&& self.phases_view() == other.phases_view()
        &&& self.closed_view() == other.closed_view()
        &&& self.header_view() == other.header_view()
    }

    /// Records an entry: it replaces the entry with its id, or is appended.
    pub fn replace_entry(&mut self, entry: TranscriptEntry)
        ensures
            final(self).entries_view() == replaced(old(self).entries_view(), entry),
            final(self).same_but_entries(old(self)),
    {
        match position_of_entry(&self.entries, entry.id.as_str()) {
            Some(i) => {
                self.entries.set(i, entry);
            },
            None => {
                self.entries.push(entry);
            },
        }
    }

    /// Appends streamed text to the entry of item `id`, marking it
    /// streaming; a delta for an unknown item starts its entry (running for
    /// commands and plans).
    pub fn append_delta(&mut self, id: String, kind: EntryKind, delta: String)
        ensures
            final(self).same_but_entries(old(self)),
            match find_entry(old(self).entries_view(), id@, 0) {
                Some(i) => {
                    &&& final(self).entries_view().len() == old(self).entries_view().len()
                    &&& forall|j: int|
                        #![trigger final(self).entries_view()[j]]
                        0 <= j < old(self).entries_view().len() && j != i
                            ==> final(self).entries_view()[j] == old(self).entries_view()[j]
                    &&& extended(old(self).entries_view()[i], final(self).entries_view()[i], delta@)
                },
                None => {
                    &&& final(self).entries_view().len() == old(self).entries_view().len() + 1
                    &&& final(self).entries_view().drop_last() == old(self).entries_view()
                    &&& started_by_delta(final(self).entries_view().last(), id@, kind, delta@)
                },
            },
    {
        match position_of_entry(&self.entries, id.as_str()) {
            Some(i) => {
                let mut e = self.entries.remove(i);
                e.text.append(delta.as_str());
                e.streaming = true;
                self.entries.insert(i, e);
            },
            None => {
                let status = if kind == EntryKind::Command || kind == EntryKind::Plan {
                    Some(EntryStatus::Running)
                } else {
                    None
                };
                self.entries.push(
                    TranscriptEntry {
                        id,
                        kind,
                        text: delta,
                        streaming: true,
                        status,
                        summary: Vec::new(),
                    },
                );
            },
        }
    }

    fn push_system(&mut self, text: String)
        ensures
            final(self).same_but_entries(old(self)),
            final(self).entries_view().len() == old(self).entries_view().len() + 1,
            final(self).entries_view().drop_last() == old(self).entries_view(),
            system_entry(
                final(self).entries_view().last(),
                old(self).entries_view().len(),
                text@,
            ),
    {
        let mut id = owned("system-");
        push_dec(&mut id, self.entries.len() as u64);
        self.entries.push(
            TranscriptEntry {
                id,
                kind: EntryKind::System,
                text,
                streaming: false,
                status: None,
                summary: Vec::new(),
            },
        );
    }

    /// Appends a system message, numbered by its position.
    pub fn add_system_message(&mut self, message: String)
        ensures
            final(self).same_but_entries(old(self)),
            final(self).entries_view().len() == old(self).entries_view().len() + 1,
            final(self).entries_view().drop_last() == old(self).entries_view(),
            system_entry(
                final(self).entries_view().last(),
                old(self).entries_view().len(),
                message@,
            ),
    {
        self.push_system(message);
    }

    /// Starts turn `turn_id`: it becomes the active turn, the status reads
    /// `running`, and stream notifications are taken again.
    pub fn start_turn(&mut self, turn_id: String)
        ensures
            final(self).active_turn_view() == Some(turn_id@),
            final(self).status_view() == "running"@,
            !final(self).closed_view(),
            final(self).header_view() is None,
            final(self).entries_view() == old(self).entries_view(),
            final(self).boundaries_view() == old(self).boundaries_view(),
            final(self).review_view() == old(self).review_view(),
            final(self).hooks_view() == old(self).hooks_view(),
            final(self).phases_view() == old(self).phases_view(),
    {
        self.active_turn_id = Some(turn_id);
        self.status = owned("running");
        self.turn_closed = false;
        self.reasoning_header = None;
    }

    /// Settles the entries still running when a turn ends: they take the
    /// turn's outcome. A turn still in progress settles nothing.
    pub fn settle_running_entries(&mut self, status: TurnStatus)
        ensures
            final(self).same_but_entries(old(self)),
            final(self).entries_view().len() == old(self).entries_view().len(),
            forall|i: int|
                0 <= i < old(self).entries_view().len() ==> {
                    let a = #[trigger] old(self).entries_view()[i];
                    let b = final(self).entries_view()[i];
                    &&& b.id == a.id
                    &&& b.kind == a.kind
                    &&& b.text == a.text
                    &&& b.streaming == a.streaming
                    &&& b.summary == a.summary
                    &&& b.status == match settle_status(status) {
                        Some(to) => settled(a, to),
                        None => a.status,
                    }
                },
    {
        let to = match status {
            TurnStatus::Completed => EntryStatus::Completed,
            TurnStatus::Failed => EntryStatus::Failed,
            TurnStatus::Interrupted => EntryStatus::Interrupted,
            TurnStatus::InProgress => return ,
        };
        let ghost before = self.entries@;
        let mut i: usize = 0;
        while i < self.entries.len()
            invariant
                i <= self.entries.len(),
                self.entries.len() == before.len(),
                settle_status(status) == Some(to),
                self.same_but_entries(old(self)),
                forall|j: int|
                    i <= j < before.len() ==> #[trigger] self.entries@[j] == before[j],
                forall|j: int|
                    0 <= j < i ==> {
                        let a = #[trigger] before[j];
                        let b = self.entries@[j];
                        &&& b.id == a.id
                        &&& b.kind == a.kind
                        &&& b.text == a.text
                        &&& b.streaming == a.streaming
                        &&& b.summary == a.summary
                        &&& b.status == settled(a, to)
                    },
            decreases before.len() - i,
        {
            if self.entries[i].status == Some(EntryStatus::Running) {
                let mut e = self.entries.remove(i);
                e.status = Some(to);
                self.entries.insert(i, e);
            }
            i = i + 1;
        }
    }

    /// Records the phase of an assistant message; a message without a phase
    /// clears what was recorded for it.
    pub fn record_assistant_phase(&mut self, id: String, phase: Option<MessagePhase>)
        ensures
            phase_now(final(self).phases_view(), id@) == phase,
            forall|other: Seq<char>|
                other != id@ ==> phase_now(final(self).phases_view(), other) == phase_now(
                    old(self).phases_view(),
                    other,
                ),
            final(self).entries_view() == old(self).entries_view(),
            final(self).boundaries_view() == old(self).boundaries_view(),
            final(self).active_turn_view() == old(self).active_turn_view(),
            final(self).status_view() == old(self).status_view(),
            final(self).review_view() == old(self).review_view(),
            final(self).hooks_view() == old(self).hooks_view(),
            final(self).closed_view() == old(self).closed_view(),
            final(self).header_view() == old(self).header_view(),
    {
        let ghost before = self.assistant_phases@;
        self.assistant_phases.push((id, phase));
        proof {
            let after = self.assistant_phases@;
            assert forall|other: Seq<char>| other != id@ implies phase_of(
                after,
                other,
                after.len() as int,
            ) == phase_of(before, other, before.len() as int) by {
                lemma_phase_of_prefix(after, before, other, before.len() as int);
                assert(phase_of(after, other, after.len() as int) == phase_of(
                    after,
                    other,
                    before.len() as int,
                ));
            }
        }
    }

    /// The completion separator after entry `entry_id`, if any.
    pub fn completion_after(&self, entry_id: &str) -> (r: Option<&CompletionBoundary>)
        ensures
            match r {
                Some(b) => exists|i: int|
                    find_boundary(self.boundaries_view(), entry_id@, 0) == Some(i) && *b
                        == self.boundaries_view()[i],
                None => find_boundary(self.boundaries_view(), entry_id@, 0) is None,
            },
    {
        let bs = &self.completion_boundaries;
        let mut i: usize = 0;
        while i < bs.len()
            invariant
                i <= bs.len(),
                bs@ == self.boundaries_view(),
                find_boundary(bs@, entry_id@, 0) == find_boundary(bs@, entry_id@, i as int),
            decreases bs.len() - i,
        {
            if str_eq(bs[i].after_entry_id.as_str(), entry_id) {
                return Some(&bs[i]);
            }
            i = i + 1;
        }
        None
    }

    /// Places a completion separator after entry `after_entry_id`, unless
    /// one is already there.
    pub fn add_completion_boundary(&mut self, after_entry_id: String, elapsed_seconds: Option<u64>)
        ensures
            final(self).entries_view() == old(self).entries_view(),
            final(self).active_turn_view() == old(self).active_turn_view(),
            final(self).status_view() == old(self).status_view(),
            final(self).review_view() == old(self).review_view(),
            final(self).hooks_view() == old(self).hooks_view(),
            final(self).phases_view() == old(self).phases_view(),
            final(self).closed_view() == old(self).closed_view(),
            final(self).header_view() == old(self).header_view(),
            find_boundary(old(self).boundaries_view(), after_entry_id@, 0) is Some
                ==> final(self).boundaries_view() == old(self).boundaries_view(),
            find_boundary(old(self).boundaries_view(), after_entry_id@, 0) is None ==> {
                &&& final(self).boundaries_view().drop_last() == old(self).boundaries_view()
                &&& final(self).boundaries_view().len() == old(self).boundaries_view().len() + 1
                &&& final(self).boundaries_view().last().after_entry_id == after_entry_id
                &&& final(self).boundaries_view().last().elapsed_seconds == elapsed_seconds
            },
    {
        if self.completion_after(after_entry_id.as_str()).is_some() {
            return ;
        }
        self.completion_boundaries.push(CompletionBoundary { after_entry_id, elapsed_seconds });
    }

    /// Removes the entries whose ids are listed, and the separators after
    /// them.
    pub fn remove_hidden_entries(&mut self, hidden_ids: &[String])
        ensures
            final(self).entries_view() == visible_entries(old(self).entries_view(), hidden_ids@),
            final(self).boundaries_view() == visible_boundaries(
                old(self).boundaries_view(),
                hidden_ids@,
            ),
            final(self).active_turn_view() == old(self).active_turn_view(),
            final(self).status_view() == old(self).status_view(),
            final(self).review_view() == old(self).review_view(),
            final(self).hooks_view() == old(self).hooks_view(),
            final(self).phases_view() == old(self).phases_view(),
            final(self).closed_view() == old(self).closed_view(),
            final(self).header_view() == old(self).header_view(),
    {
        if hidden_ids.len() == 0 {
            proof {
                lemma_visible_entries_none(self.entries@, hidden_ids@);
                lemma_visible_boundaries_none(self.completion_boundaries@, hidden_ids@);
            }
            return ;
        }
        let mut old_entries: Vec<TranscriptEntry> = Vec::new();
        std::mem::swap(&mut old_entries, &mut self.entries);
        let ghost es = old_entries@;
        let n = old_entries.len();
        let mut k: usize = 0;
        while k < n
            invariant
                k <= n,
                n == es.len(),
                old_entries.len() == n - k,
                forall|j: int| 0 <= j < n - k ==> #[trigger] old_entries@[j] == es[j + k],
                self.entries@ == visible_entries(es.take(k as int), hidden_ids@),
                self.completion_boundaries@ == old(self).boundaries_view(),
                self.active_turn_id == old(self).active_turn_id,
                self.status == old(self).status,
                self.review_mode == old(self).review_mode,
                self.active_hooks == old(self).active_hooks,
                self.assistant_phases == old(self).assistant_phases,
                self.turn_closed == old(self).turn_closed,
                self.reasoning_header == old(self).reasoning_header,
            decreases n - k,
        {
            let e = old_entries.remove(0);
            assert(es.take(k + 1).drop_last() =~= es.take(k as int));
            if !is_listed(hidden_ids, e.id.as_str()) {
                self.entries.push(e);
            }
            k = k + 1;
        }
        assert(es.take(n as int) =~= es);
        let mut old_bounds: Vec<CompletionBoundary> = Vec::new();
        std::mem::swap(&mut old_bounds, &mut self.completion_boundaries);
        let ghost bs = old_bounds@;
        let m = old_bounds.len();
        let mut k: usize = 0;
        while k < m
            invariant
                k <= m,
                m == bs.len(),
                old_bounds.len() == m - k,
                forall|j: int| 0 <= j < m - k ==> #[trigger] old_bounds@[j] == bs[j + k],
                self.completion_boundaries@ == visible_boundaries(bs.take(k as int), hidden_ids@),
                bs == old(self).boundaries_view(),
                self.entries@ == visible_entries(old(self).entries_view(), hidden_ids@),
                self.active_turn_id == old(self).active_turn_id,
                self.status == old(self).status,
                self.review_mode == old(self).review_mode,
                self.active_hooks == old(self).active_hooks,
                self.assistant_phases == old(self).assistant_phases,
                self.turn_closed == old(self).turn_closed,
                self.reasoning_header == old(self).reasoning_header,
            decreases m - k,
        {
            let b = old_bounds.remove(0);
            assert(bs.take(k + 1).drop_last() =~= bs.take(k as int));
            if !is_listed(hidden_ids, b.after_entry_id.as_str()) {
                self.completion_boundaries.push(b);
            }
            k = k + 1;
        }
        assert(bs.take(m as int) =~= bs);
    }
}

/// Records past the first `n` do not change what the first `n` say of
/// another id.
proof fn lemma_phase_of_prefix(
    after: Seq<(String, Option<MessagePhase>)>,
    before: Seq<(String, Option<MessagePhase>)>,
    id: Seq<char>,
    n: int,
)
    requires
        0 <= n <= before.len(),
        after.len() == before.len() + 1,
        forall|i: int| 0 <= i < before.len() ==> after[i] == before[i],
        after[before.len() as int].0@ != id,
    ensures
        phase_of(after, id, n) == phase_of(before, id, n),
    decreases n,
{
    if n > 0 {
        lemma_phase_of_prefix(after, before, id, n - 1);
    }
}

proof fn lemma_visible_entries_none(es: Seq<TranscriptEntry>, hidden: Seq<String>)
    requires
        hidden.len() == 0,
    ensures
        visible_entries(es, hidden) == es,
    decreases es.len(),
{
    if es.len() > 0 {
        lemma_visible_entries_none(es.drop_last(), hidden);
        assert(es.drop_last().push(es.last()) =~= es);
    }
}

proof fn lemma_visible_boundaries_none(bs: Seq<CompletionBoundary>, hidden: Seq<String>)
    requires
        hidden.len() == 0,
    ensures
        visible_boundaries(bs, hidden) == bs,
    decreases bs.len(),
{
    if bs.len() > 0 {
        lemma_visible_boundaries_none(bs.drop_last(), hidden);
        assert(bs.drop_last().push(bs.last()) =~= bs);
    }
}

/// The marker of a plan step.
pub open spec fn plan_marker_text(status: TurnPlanStepStatus) -> Seq<char> {
    match status {
        TurnPlanStepStatus::Pending => "[ ]"@,
        TurnPlanStepStatus::InProgress => "[~]"@,
        TurnPlanStepStatus::Completed => "[x]"@,
    }
}

/// The text of a turn plan: one line per step, its marker then its text.
pub open spec fn plan_text(plan: Seq<TurnPlanStep>) -> Seq<char> {
    crate::projection::items::join_lines(
        Seq::new(plan.len(), |i: int| plan_marker_text(plan[i].status) + " "@ + plan[i].step@),
    )
}

/// Each plan line starts with a marker that tells the step's status:
/// `[ ]` pending, `[~]` in progress, `[x]` completed, so steps of different
/// status are marked differently; a one-step plan is its marker, a space
/// and the step.
pub proof fn lemma_plan_marker_tells_status(a: TurnPlanStepStatus, b: TurnPlanStepStatus, step: TurnPlanStep)
    ensures
        plan_marker_text(TurnPlanStepStatus::Pending) == "[ ]"@,
        plan_marker_text(TurnPlanStepStatus::InProgress) == "[~]"@,
        plan_marker_text(TurnPlanStepStatus::Completed) == "[x]"@,
        a != b ==> plan_marker_text(a) != plan_marker_text(b),
        plan_text(seq![step]) == plan_marker_text(step.status) + " "@ + step.step@,
{
    reveal_strlit("[ ]");
    reveal_strlit("[~]");
    reveal_strlit("[x]");
    if a != b {
        assert(plan_marker_text(a)[1] != plan_marker_text(b)[1]);
    }
    let lines = Seq::new(1, |i: int| plan_marker_text(seq![step][i].status) + " "@ + seq![step][i].step@);
    assert(lines.len() == 1);
    assert(lines[0] == plan_marker_text(step.status) + " "@ + step.step@);
}

/// How a turn's outcome shows: a finished turn settles its running entries
/// with the same outcome (completed, failed or interrupted) and leaves the
/// others as they were, while a turn still in progress settles nothing;
/// the status words of the four turn states all differ, a finished turn
/// reading "ready" and a running one "running"; a hook run's entry is
/// completed, running or failed as the run is.
pub proof fn lemma_turn_outcomes(e: TranscriptEntry, to: EntryStatus, t: TurnStatus, u: TurnStatus, h: HookRunStatus)
    ensures
        settle_status(TurnStatus::Completed) == Some(EntryStatus::Completed),
        settle_status(TurnStatus::Failed) == Some(EntryStatus::Failed),
        settle_status(TurnStatus::Interrupted) == Some(EntryStatus::Interrupted),
        settle_status(TurnStatus::InProgress) is None,
        settled(e, to) == if e.status == Some(EntryStatus::Running) {
            Some(to)
        } else {
            e.status
        },
        t != u ==> turn_status_text(t) != turn_status_text(u),
        turn_status_text(TurnStatus::Completed) == "ready"@,
        turn_status_text(TurnStatus::InProgress) == "running"@,
        (h == HookRunStatus::Completed) == (hook_entry_status(h) == EntryStatus::Completed),
        (h == HookRunStatus::Running) == (hook_entry_status(h) == EntryStatus::Running),
        h != HookRunStatus::Completed && h != HookRunStatus::Running ==> hook_entry_status(h)
            == EntryStatus::Failed,
{
    reveal_strlit("ready");
    reveal_strlit("interrupted");
    reveal_strlit("failed");
    reveal_strlit("running");
    assert("ready"@.len() == 5);
    assert("interrupted"@.len() == 11);
    assert("failed"@.len() == 6);
    assert("running"@.len() == 7);
}

/// The diff and plan entries of a turn have different ids, each made of
/// `turn-`, the turn id and a suffix, so no two turns share one.
pub proof fn lemma_turn_entry_ids_differ(a: Seq<char>, b: Seq<char>)
    ensures
        diff_id(a) != plan_id(b),
        diff_id(a) == diff_id(b) ==> a == b,
        plan_id(a) == plan_id(b) ==> a == b,
{
    reveal_strlit("turn-");
    reveal_strlit("-diff");
    reveal_strlit("-plan");
    assert("turn-"@ =~= seq!['t', 'u', 'r', 'n', '-']);
    assert("-diff"@ =~= seq!['-', 'd', 'i', 'f', 'f']);
    assert("-plan"@ =~= seq!['-', 'p', 'l', 'a', 'n']);
    let d = diff_id(a);
    let p = plan_id(b);
    if d == p {
        assert(d[d.len() - 1] == 'f');
        assert(p[p.len() - 1] == 'n');
    }
    assert(diff_id(a).len() == a.len() + 10 && diff_id(b).len() == b.len() + 10);
    assert(plan_id(a).len() == a.len() + 10 && plan_id(b).len() == b.len() + 10);
    if diff_id(a) == diff_id(b) {
        assert(a.len() == b.len());
        assert forall|i: int| 0 <= i < a.len() implies a[i] == b[i] by {
            assert(diff_id(a)[5 + i] == a[i]);
            assert(diff_id(b)[5 + i] == b[i]);
        }
        assert(a =~= b);
    }
    if plan_id(a) == plan_id(b) {
        assert(a.len() == b.len());
        assert forall|i: int| 0 <= i < a.len() implies a[i] == b[i] by {
            assert(plan_id(a)[5 + i] == a[i]);
            assert(plan_id(b)[5 + i] == b[i]);
        }
        assert(a =~= b);
    }
}

fn format_plan(plan: &Vec<TurnPlanStep>) -> (r: String)
    ensures
        r@ == plan_text(plan@),
{
    let mut lines: Vec<String> = Vec::new();
    let mut i: usize = 0;
    while i < plan.len()
        invariant
            i <= plan.len(),
            lines@.map_values(|s: String| s@) =~= Seq::new(
                i as nat,
                |j: int| plan_marker_text(plan@[j].status) + " "@ + plan@[j].step@,
            ),
        decreases plan.len() - i,
    {
        let marker = match plan[i].status {
            TurnPlanStepStatus::Pending => "[ ]",
            TurnPlanStepStatus::InProgress => "[~]",
            TurnPlanStepStatus::Completed => "[x]",
        };
        let mut line = owned(marker);
        line.append(" ");
        line.append(plan[i].step.as_str());
        let ghost before = lines@.map_values(|s: String| s@);
        lines.push(line);
        assert(lines@.map_values(|s: String| s@) =~= before.push(line@));
        i = i + 1;
    }
    crate::projection::items::join_strings(&lines)
}

/// The entries after a projected entry is recorded (`replaced`), in terms of
/// the entry's values.
pub open spec fn replaced_with(es: Seq<TranscriptEntry>, after: Seq<TranscriptEntry>, m: EntryModel) -> bool {
    exists|e: TranscriptEntry| entry_is(e, m) && after == replaced(es, e)
}

/// What a stream delta does to the entries: it extends a streaming entry of
/// its item; it is dropped for a finished entry, and for an unknown item
/// once the turn has ended; otherwise it starts the item's entry.
pub open spec fn delta_applied(
    es: Seq<TranscriptEntry>,
    after: Seq<TranscriptEntry>,
    closed: bool,
    id: Seq<char>,
    kind: EntryKind,
    delta: Seq<char>,
) -> bool {
    match find_entry(es, id, 0) {
        Some(i) => if es[i].streaming {
            &&& after.len() == es.len()
            &&& forall|j: int| 0 <= j < es.len() && j != i ==> #[trigger] after[j] == es[j]
            &&& extended(es[i], after[i], delta)
        } else {
            after == es
        },
        None => if closed {
            after == es
        } else {
            &&& after.len() == es.len() + 1
            &&& after.drop_last() == es
            &&& started_by_delta(after.last(), id, kind, delta)
        },
    }
}

impl ConversationProjection {
    /// Tracks review markers: a review starts and ends with its markers.
    fn update_review_mode(&mut self, item: &ThreadItem)
        ensures
            final(self).review_view() == match *item {
                ThreadItem::EnteredReviewMode { .. } => true,
                ThreadItem::ExitedReviewMode { .. } => false,
                _ => old(self).review_view(),
            },
            final(self).same_but_entries_and_review(old(self)),
            final(self).entries_view() == old(self).entries_view(),
    {
        match item {
            ThreadItem::EnteredReviewMode { .. } => self.review_mode = true,
            ThreadItem::ExitedReviewMode { .. } => self.review_mode = false,
            _ => {},
        }
    }

    /// Whether only the entries and the review state differ.
    pub open spec fn same_but_entries_and_review(&self, other: &Self) -> bool {
        &&& self.boundaries_view() == other.boundaries_view()
        &&& self.active_turn_view() == other.active_turn_view()
        &&& self.status_view() == other.status_view()
        &&& self.hooks_view() == other.hooks_view()
        &&& self.phases_view() == other.phases_view()
        &&& self.closed_view() == other.closed_view()
        &&& self.header_view() == other.header_view()
    }

    /// Records the phase of an assistant message item; other items record
    /// nothing.
    fn record_item_phase(&mut self, item: &ThreadItem)
        ensures
            match *item {
                ThreadItem::AgentMessage { id, phase, .. } => {
                    &&& phase_now(final(self).phases_view(), id@) == phase
                    &&& forall|other: Seq<char>|
                        other != id@ ==> phase_now(final(self).phases_view(), other) == phase_now(
                            old(self).phases_view(),
                            other,
                        )
                },
                _ => final(self).phases_view() == old(self).phases_view(),
            },
            final(self).entries_view() == old(self).entries_view(),
            final(self).boundaries_view() == old(self).boundaries_view(),
            final(self).active_turn_view() == old(self).active_turn_view(),
            final(self).status_view() == old(self).status_view(),
            final(self).review_view() == old(self).review_view(),
            final(self).hooks_view() == old(self).hooks_view(),
            final(self).closed_view() == old(self).closed_view(),
            final(self).header_view() == old(self).header_view(),
    {
        if let ThreadItem::AgentMessage { id, phase, .. } = item {
            self.record_assistant_phase(owned(id.as_str()), *phase);
        }
    }

    /// A stream delta for item `id` (`delta_applied`).
    fn take_delta(&mut self, id: String, kind: EntryKind, delta: String)
        ensures
            delta_applied(
                old(self).entries_view(),
                final(self).entries_view(),
                old(self).closed_view(),
                id@,
                kind,
                delta@,
            ),
            final(self).same_but_entries(old(self)),
    {
        match position_of_entry(&self.entries, id.as_str()) {
            Some(i) => {
                if self.entries[i].streaming {
                    self.append_delta(id, kind, delta);
                }
            },
            None => {
                if !self.turn_closed {
                    self.append_delta(id, kind, delta);
                }
            },
        }
    }
}

/// The first hook, from position `from` on, with id `id`.
pub open spec fn find_hook(hs: Seq<ActiveHook>, id: Seq<char>, from: int) -> Option<int>
    decreases hs.len() - from,
{
    if from < 0 || from >= hs.len() {
        None
    } else if hs[from].id@ == id {
        Some(from)
    } else {
        find_hook(hs, id, from + 1)
    }
}

/// `find_hook` finds the first hook with the id.
pub proof fn lemma_find_hook(hs: Seq<ActiveHook>, id: Seq<char>, from: int)
    requires
        0 <= from <= hs.len(),
    ensures
        match find_hook(hs, id, from) {
            Some(i) => from <= i < hs.len() && hs[i].id@ == id,
            None => forall|j: int| from <= j < hs.len() ==> hs[j].id@ != id,
        },
    decreases hs.len() - from,
{
    if from < hs.len() {
        lemma_find_hook(hs, id, from + 1);
    }
}

/// The hooks kept by `keep`, in order.
pub open spec fn hooks_kept(hs: Seq<ActiveHook>, keep: spec_fn(ActiveHook) -> bool) -> Seq<
    ActiveHook,
>
    decreases hs.len(),
{
    if hs.len() == 0 {
        hs
    } else if keep(hs.last()) {
        hooks_kept(hs.drop_last(), keep).push(hs.last())
    } else {
        hooks_kept(hs.drop_last(), keep)
    }
}

/// Whether a hook is other than hook `id`.
pub open spec fn not_hook(id: Seq<char>) -> spec_fn(ActiveHook) -> bool {
    |h: ActiveHook| h.id@ != id
}

/// Whether a hook does not belong to turn `turn_id`.
pub open spec fn not_of_turn(turn_id: Seq<char>) -> spec_fn(ActiveHook) -> bool {
    |h: ActiveHook| h.turn_id is None || h.turn_id.unwrap()@ != turn_id
}

/// The entry status of a hook run.
pub open spec fn hook_entry_status(status: HookRunStatus) -> EntryStatus {
    match status {
        HookRunStatus::Completed => EntryStatus::Completed,
        HookRunStatus::Running => EntryStatus::Running,
        _ => EntryStatus::Failed,
    }
}

/// The transcript entry of a finished hook run.
pub open spec fn hook_entry_model(run: HookRunSummary, text: Seq<char>) -> EntryModel {
    EntryModel {
        id: "hook-"@ + run.id@,
        kind: EntryKind::System,
        text,
        streaming: false,
        status: Some(hook_entry_status(run.status)),
        summary: crate::history_cell::hook::output_details_spec(run),
    }
}

impl ConversationProjection {
    fn keep_hooks_without(&mut self, id: &str)
        ensures
            final(self).hooks_view() == hooks_kept(old(self).hooks_view(), not_hook(id@)),
            final(self).entries_view() == old(self).entries_view(),
            final(self).boundaries_view() == old(self).boundaries_view(),
            final(self).active_turn_view() == old(self).active_turn_view(),
            final(self).status_view() == old(self).status_view(),
            final(self).review_view() == old(self).review_view(),
            final(self).phases_view() == old(self).phases_view(),
            final(self).closed_view() == old(self).closed_view(),
            final(self).header_view() == old(self).header_view(),
    {
        let mut old_hooks: Vec<ActiveHook> = Vec::new();
        std::mem::swap(&mut old_hooks, &mut self.active_hooks);
        let ghost hs = old_hooks@;
        let n = old_hooks.len();
        let mut k: usize = 0;
        while k < n
            invariant
                k <= n,
                n == hs.len(),
                hs == old(self).hooks_view(),
                old_hooks.len() == n - k,
                forall|j: int| 0 <= j < n - k ==> #[trigger] old_hooks@[j] == hs[j + k],
                self.active_hooks@ == hooks_kept(hs.take(k as int), not_hook(id@)),
                self.entries == old(self).entries,
                self.completion_boundaries == old(self).completion_boundaries,
                self.active_turn_id == old(self).active_turn_id,
                self.status == old(self).status,
                self.review_mode == old(self).review_mode,
                self.assistant_phases == old(self).assistant_phases,
                self.turn_closed == old(self).turn_closed,
                self.reasoning_header == old(self).reasoning_header,
            decreases n - k,
        {
            let h = old_hooks.remove(0);
            assert(hs.take(k + 1).drop_last() =~= hs.take(k as int));
            if !str_eq(h.id.as_str(), id) {
                self.active_hooks.push(h);
            }
            k = k + 1;
        }
        assert(hs.take(n as int) =~= hs);
    }

    fn keep_hooks_not_of_turn(&mut self, turn_id: &str)
        ensures
            final(self).hooks_view() == hooks_kept(old(self).hooks_view(), not_of_turn(turn_id@)),
            final(self).entries_view() == old(self).entries_view(),
            final(self).boundaries_view() == old(self).boundaries_view(),
            final(self).active_turn_view() == old(self).active_turn_view(),
            final(self).status_view() == old(self).status_view(),
            final(self).review_view() == old(self).review_view(),
            final(self).phases_view() == old(self).phases_view(),
            final(self).closed_view() == old(self).closed_view(),
            final(self).header_view() == old(self).header_view(),
    {
        let mut old_hooks: Vec<ActiveHook> = Vec::new();
        std::mem::swap(&mut old_hooks, &mut self.active_hooks);
        let ghost hs = old_hooks@;
        let n = old_hooks.len();
        let mut k: usize = 0;
        while k < n
            invariant
                k <= n,
                n == hs.len(),
                hs == old(self).hooks_view(),
                old_hooks.len() == n - k,
                forall|j: int| 0 <= j < n - k ==> #[trigger] old_hooks@[j] == hs[j + k],
                self.active_hooks@ == hooks_kept(hs.take(k as int), not_of_turn(turn_id@)),
                self.entries == old(self).entries,
                self.completion_boundaries == old(self).completion_boundaries,
                self.active_turn_id == old(self).active_turn_id,
                self.status == old(self).status,
                self.review_mode == old(self).review_mode,
                self.assistant_phases == old(self).assistant_phases,
                self.turn_closed == old(self).turn_closed,
                self.reasoning_header == old(self).reasoning_header,
            decreases n - k,
        {
            let h = old_hooks.remove(0);
            assert(hs.take(k + 1).drop_last() =~= hs.take(k as int));
            let owned_by_turn = match &h.turn_id {
                Some(t) => str_eq(t.as_str(), turn_id),
                None => false,
            };
            if !owned_by_turn {
                self.active_hooks.push(h);
            }
            k = k + 1;
        }
        assert(hs.take(n as int) =~= hs);
    }

    /// What starting hook run `run` of turn `turn_id` does, `before` being
    /// the projection before: a running hook is tracked (updated in place
    /// when already tracked); a run reported in another state is ignored;
    /// nothing else changes.
    pub open spec fn starts_hook(&self, before: &Self, turn_id: Option<String>, run: HookRunSummary) -> bool {
        &&& self.entries_view() == before.entries_view()
        &&& self.boundaries_view() == before.boundaries_view()
        &&& self.active_turn_view() == before.active_turn_view()
        &&& self.status_view() == before.status_view()
        &&& self.review_view() == before.review_view()
        &&& self.phases_view() == before.phases_view()
        &&& self.closed_view() == before.closed_view()
        &&& self.header_view() == before.header_view()
        &&& run.status != HookRunStatus::Running ==> self.hooks_view() == before.hooks_view()
        &&& run.status == HookRunStatus::Running ==> match find_hook(before.hooks_view(), run.id@, 0) {
            Some(i) => {
                &&& self.hooks_view().len() == before.hooks_view().len()
                &&& forall|j: int|
                    0 <= j < before.hooks_view().len() && j != i
                        ==> #[trigger] self.hooks_view()[j] == before.hooks_view()[j]
                &&& self.hooks_view()[i].id == before.hooks_view()[i].id
                &&& self.hooks_view()[i].turn_id == turn_id
                &&& self.hooks_view()[i].status_message == run.status_message
            },
            None => self.hooks_view() == before.hooks_view().push(
                ActiveHook { id: run.id, turn_id, status_message: run.status_message },
            ),
        }
    }

    /// A hook run starts (`starts_hook`).
    fn start_hook(&mut self, turn_id: Option<String>, run: HookRunSummary)
        ensures
            final(self).starts_hook(old(self), turn_id, run),
    {
        if run.status != HookRunStatus::Running {
            return ;
        }
        proof {
            lemma_find_hook(self.active_hooks@, run.id@, 0);
        }
        let mut i: usize = 0;
        while i < self.active_hooks.len()
            invariant
                i <= self.active_hooks.len(),
                *self == *old(self),
                run.status == HookRunStatus::Running,
                find_hook(self.active_hooks@, run.id@, 0) == find_hook(
                    self.active_hooks@,
                    run.id@,
                    i as int,
                ),
            decreases self.active_hooks.len() - i,
        {
            if str_eq(self.active_hooks[i].id.as_str(), run.id.as_str()) {
                let mut h = self.active_hooks.remove(i);
                h.turn_id = turn_id;
                h.status_message = run.status_message;
                self.active_hooks.insert(i, h);
                return ;
            }
            i = i + 1;
        }
        self.active_hooks.push(
            ActiveHook { id: run.id, turn_id, status_message: run.status_message },
        );
    }

    /// What completing hook run `run` does, `before` being the projection
    /// before: the hook stops being tracked and, unless it quietly
    /// succeeded or still runs, its outcome is recorded as a system entry
    /// `hook-<id>`; nothing else changes.
    pub open spec fn completes_hook(&self, before: &Self, run: HookRunSummary) -> bool {
        &&& self.hooks_view() == hooks_kept(before.hooks_view(), not_hook(run.id@))
        &&& self.boundaries_view() == before.boundaries_view()
        &&& self.active_turn_view() == before.active_turn_view()
        &&& self.status_view() == before.status_view()
        &&& self.review_view() == before.review_view()
        &&& self.phases_view() == before.phases_view()
        &&& self.closed_view() == before.closed_view()
        &&& self.header_view() == before.header_view()
        &&& match crate::history_cell::hook::status_text_spec(run.status) {
            Some(text) => if crate::history_cell::hook::quiet_success(run) {
                self.entries_view() == before.entries_view()
            } else {
                replaced_with(before.entries_view(), self.entries_view(), hook_entry_model(run, text))
            },
            None => self.entries_view() == before.entries_view(),
        }
    }

    /// A hook run completes (`completes_hook`).
    fn complete_hook(&mut self, run: HookRunSummary)
        ensures
            final(self).completes_hook(old(self), run),
    {
        self.keep_hooks_without(run.id.as_str());
        let text = match crate::history_cell::hook::status_text(run.status) {
            Some(t) => t,
            None => return ,
        };
        if crate::history_cell::hook::is_quiet_success(&run) {
            return ;
        }
        let status = match run.status {
            HookRunStatus::Completed => EntryStatus::Completed,
            HookRunStatus::Running => EntryStatus::Running,
            _ => EntryStatus::Failed,
        };
        let mut id = owned("hook-");
        id.append(run.id.as_str());
        let summary = crate::history_cell::hook::output_details(&run);
        let e = TranscriptEntry {
            id,
            kind: EntryKind::System,
            text: owned(text),
            streaming: false,
            status: Some(status),
            summary,
        };
        assert(entry_is(e, hook_entry_model(run, text@)));
        self.replace_entry(e);
    }
}

/// Whether `b` is `a` with its streaming flag cleared.
pub open spec fn closed_entry(a: TranscriptEntry, b: TranscriptEntry) -> bool {
    &&& b.id == a.id
    &&& b.kind == a.kind
    &&& b.text == a.text
    &&& !b.streaming
    &&& b.status == a.status
    &&& b.summary == a.summary
}

impl ConversationProjection {
    /// Ends every stream: no entry is streaming afterwards.
    fn close_streams(&mut self)
        ensures
            final(self).same_but_entries(old(self)),
            final(self).entries_view().len() == old(self).entries_view().len(),
            forall|i: int|
                0 <= i < old(self).entries_view().len() ==> closed_entry(
                    #[trigger] old(self).entries_view()[i],
                    final(self).entries_view()[i],
                ),
    {
        let ghost before = self.entries@;
        let mut i: usize = 0;
        while i < self.entries.len()
            invariant
                i <= self.entries.len(),
                self.entries.len() == before.len(),
                before == old(self).entries_view(),
                self.same_but_entries(old(self)),
                forall|j: int| i <= j < before.len() ==> #[trigger] self.entries@[j] == before[j],
                forall|j: int|
                    0 <= j < i ==> closed_entry(#[trigger] before[j], self.entries@[j]),
            decreases before.len() - i,
        {
            let mut e = self.entries.remove(i);
            e.streaming = false;
            self.entries.insert(i, e);
            i = i + 1;
        }
    }

    /// A new reasoning summary section: the streaming text of the item goes
    /// on to a new line. Finished or empty entries are left alone.
    fn take_summary_part(&mut self, item_id: &str)
        ensures
            final(self).same_but_entries(old(self)),
            match find_entry(old(self).entries_view(), item_id@, 0) {
                Some(i) => if old(self).entries_view()[i].streaming
                    && old(self).entries_view()[i].text@.len() > 0 {
                    &&& final(self).entries_view().len() == old(self).entries_view().len()
                    &&& forall|j: int|
                        0 <= j < old(self).entries_view().len() && j != i
                            ==> #[trigger] final(self).entries_view()[j] == old(self).entries_view()[j]
                    &&& extended(old(self).entries_view()[i], final(self).entries_view()[i], "\n"@)
                } else {
                    final(self).entries_view() == old(self).entries_view()
                },
                None => final(self).entries_view() == old(self).entries_view(),
            },
    {
        if let Some(i) = position_of_entry(&self.entries, item_id) {
            if self.entries[i].streaming && !self.entries[i].text.as_str().is_empty() {
                let mut e = self.entries.remove(i);
                e.text.append("\n");
                self.entries.insert(i, e);
            }
        }
    }
}

/// The lines of `s`, split at each line feed.
pub open spec fn split_lines(s: Seq<char>) -> Seq<Seq<char>>
    decreases s.len(),
{
    match crate::text::find_char(s, '\n') {
        Some(i) => {
            proof {
                crate::text::lemma_find_char(s, '\n');
            }
            seq![s.take(i)] + split_lines(s.skip(i + 1))
        },
        None => seq![s],
    }
}

/// Whether `t` is wrapped in `**` bold markers.
pub open spec fn is_bold(t: Seq<char>) -> bool {
    t.len() >= 4 && t[0] == '*' && t[1] == '*' && t[t.len() - 2] == '*' && t[t.len() - 1] == '*'
}

/// Whether `t` opens an HTML comment.
pub open spec fn is_comment(t: Seq<char>) -> bool {
    t.len() >= 4 && t[0] == '<' && t[1] == '!' && t[2] == '-' && t[3] == '-'
}

/// The heading a line gives: the line trimmed, without bold markers; none
/// for a comment or a blank line.
pub open spec fn line_heading(line: Seq<char>) -> Option<Seq<char>> {
    let t = trim(line);
    let h = trim(
        if is_bold(t) {
            t.subrange(2, t.len() - 2)
        } else {
            t
        },
    );
    if is_comment(t) || h.len() == 0 {
        None
    } else {
        Some(h)
    }
}

/// The heading of the last line, among the first `n`, that gives one.
pub open spec fn last_heading(lines: Seq<Seq<char>>, n: int) -> Option<Seq<char>>
    decreases n,
{
    if n <= 0 {
        None
    } else {
        match line_heading(lines[n - 1]) {
            Some(h) => Some(h),
            None => last_heading(lines, n - 1),
        }
    }
}

/// `last_heading` of a prefix depends on the prefix only.
pub proof fn lemma_last_heading_prefix(a: Seq<Seq<char>>, b: Seq<Seq<char>>, k: int)
    requires
        0 <= k <= a.len(),
        k <= b.len(),
        forall|i: int| 0 <= i < k ==> a[i] == b[i],
    ensures
        last_heading(a, k) == last_heading(b, k),
    decreases k,
{
    if k > 0 {
        lemma_last_heading_prefix(a, b, k - 1);
    }
}

/// The heading of streamed reasoning: that of its last line giving one.
pub open spec fn reasoning_heading_spec(text: Seq<char>) -> Option<Seq<char>> {
    let lines = split_lines(text);
    last_heading(lines, lines.len() as int)
}

/// The bounds of `trim(v[a..b])`.
fn trim_bounds(v: &Vec<char>, a: usize, b: usize) -> (r: (usize, usize))
    requires
        a <= b <= v.len(),
    ensures
        a <= r.0 <= r.1 <= b,
        v@.subrange(r.0 as int, r.1 as int) == trim(v@.subrange(a as int, b as int)),
{
    let a1 = crate::text::trim_start_index(v, a, b);
    let b1 = crate::text::trim_end_index(v, a1, b);
    proof {
        let s = v@.subrange(a as int, b as int);
        assert(crate::text::trim_start(s) =~= v@.subrange(a1 as int, b as int));
        assert(v@.subrange(a1 as int, b1 as int) =~= crate::text::trim_end(
            v@.subrange(a1 as int, b as int),
        ));
    }
    (a1, b1)
}

/// The heading of the line `v[a..b]`, as bounds within `v`.
fn heading_bounds(v: &Vec<char>, a: usize, b: usize) -> (r: Option<(usize, usize)>)
    requires
        a <= b <= v.len(),
    ensures
        match r {
            Some((c, d)) => c <= d <= v.len() && line_heading(v@.subrange(a as int, b as int))
                == Some(v@.subrange(c as int, d as int)),
            None => line_heading(v@.subrange(a as int, b as int)) is None,
        },
{
    let (a1, b1) = trim_bounds(v, a, b);
    let ghost t = v@.subrange(a1 as int, b1 as int);
    let comment = b1 - a1 >= 4 && v[a1] == '<' && v[a1 + 1] == '!' && v[a1 + 2] == '-' && v[a1
        + 3] == '-';
    let bold = b1 - a1 >= 4 && v[a1] == '*' && v[a1 + 1] == '*' && v[b1 - 2] == '*' && v[b1 - 1]
        == '*';
    assert(comment == is_comment(t));
    assert(bold == is_bold(t));
    let (c0, d0) = if bold {
        (a1 + 2, b1 - 2)
    } else {
        (a1, b1)
    };
    assert(v@.subrange(c0 as int, d0 as int) == (if is_bold(t) {
        t.subrange(2, t.len() - 2)
    } else {
        t
    }));
    let (c, d) = trim_bounds(v, c0, d0);
    if comment || c == d {
        None
    } else {
        Some((c, d))
    }
}

/// The position of the first line feed in `v[from..]`.
fn newline_from(v: &Vec<char>, from: usize) -> (r: Option<usize>)
    requires
        from <= v.len(),
    ensures
        match r {
            Some(i) => from <= i < v.len() && crate::text::find_char(v@.skip(from as int), '\n')
                == Some(i - from),
            None => crate::text::find_char(v@.skip(from as int), '\n') is None,
        },
{
    let mut i = from;
    while i < v.len()
        invariant
            from <= i <= v.len(),
            forall|j: int| from <= j < i ==> v@[j] != '\n',
        decreases v.len() - i,
    {
        if v[i] == '\n' {
            proof {
                crate::text::lemma_find_char_is(v@.skip(from as int), '\n', i - from);
            }
            return Some(i);
        }
        i = i + 1;
    }
    proof {
        crate::text::lemma_find_char_is(v@.skip(from as int), '\n', v.len() - from);
    }
    None
}

/// The heading of streamed reasoning (`reasoning_heading_spec`).
pub fn reasoning_heading(text: &str) -> (r: Option<String>)
    ensures
        match r {
            Some(h) => reasoning_heading_spec(text@) == Some(h@),
            None => reasoning_heading_spec(text@) is None,
        },
{
    let v = crate::text::chars_of(text);
    let ghost all = split_lines(v@);
    let mut best: Option<(usize, usize)> = None;
    let mut pos: usize = 0;
    let ghost mut done: Seq<Seq<char>> = Seq::empty();
    assert(v@.skip(0) =~= v@);
    loop
        invariant_except_break
            pos <= v.len(),
            all == done + split_lines(v@.skip(pos as int)),
        invariant
            all == split_lines(v@),
            match best {
                Some((c, d)) => c <= d <= v.len() && last_heading(done, done.len() as int) == Some(
                    v@.subrange(c as int, d as int),
                ),
                None => last_heading(done, done.len() as int) is None,
            },
        ensures
            all == done,
        decreases v.len() - pos,
    {
        let end = match newline_from(&v, pos) {
            Some(i) => i,
            None => v.len(),
        };
        let ghost line = v@.subrange(pos as int, end as int);
        proof {
            let rest = v@.skip(pos as int);
            assert(rest.take(end - pos) =~= line);
        }
        let h = heading_bounds(&v, pos, end);
        if let Some(b) = h {
            best = Some(b);
        }
        proof {
            let rest = v@.skip(pos as int);
            let d2 = done.push(line);
            assert(d2.drop_last() =~= done);
            lemma_last_heading_prefix(d2, done, done.len() as int);
            assert(last_heading(d2, d2.len() as int) == match line_heading(line) {
                Some(x) => Some(x),
                None => last_heading(done, done.len() as int),
            });
            if end < v.len() {
                assert(rest.skip(end - pos + 1) =~= v@.skip(end + 1));
                assert(split_lines(rest) == seq![line] + split_lines(v@.skip(end + 1)));
                assert(done + split_lines(rest) =~= d2 + split_lines(v@.skip(end + 1)));
            } else {
                assert(split_lines(rest) == seq![line]);
                assert(done + split_lines(rest) =~= d2);
                assert(all == d2);
            }
            done = d2;
        }
        if end == v.len() {
            break;
        }
        pos = end + 1;
    }
    match best {
        Some((c, d)) => Some(crate::text::string_of(&v, c, d)),
        None => None,
    }
}

/// Entries with the same ids, position by position, find ids alike.
pub proof fn lemma_find_entry_same_ids(a: Seq<TranscriptEntry>, b: Seq<TranscriptEntry>, x: Seq<char>, from: int)
    requires
        a.len() == b.len(),
        0 <= from <= a.len(),
        forall|i: int| 0 <= i < a.len() ==> #[trigger] a[i].id@ == b[i].id@,
    ensures
        find_entry(a, x, from) == find_entry(b, x, from),
    decreases a.len() - from,
{
    if from < a.len() {
        lemma_find_entry_same_ids(a, b, x, from + 1);
    }
}

/// Inserting an entry with a new id: it is found where it was put, and every
/// other id is found where it was, shifted past the new entry.
pub proof fn lemma_find_entry_insert(es: Seq<TranscriptEntry>, p: int, e: TranscriptEntry, x: Seq<char>)
    requires
        0 <= p <= es.len(),
        find_entry(es, e.id@, 0) is None,
    ensures
        x == e.id@ ==> find_entry(es.insert(p, e), x, 0) == Some(p),
        x != e.id@ ==> find_entry(es.insert(p, e), x, 0) == match find_entry(es, x, 0) {
            Some(j) => Some(
                if j < p {
                    j
                } else {
                    j + 1
                },
            ),
            None => None,
        },
{
    let n = es.insert(p, e);
    lemma_find_entry(es, x, 0);
    lemma_find_entry(n, x, 0);
    lemma_find_entry(es, e.id@, 0);
    if x == e.id@ {
        assert(n[p].id@ == x);
        match find_entry(n, x, 0) {
            Some(i) => {
                if i != p {
                    if i < p {
                        assert(n[i] == es[i]);
                    } else {
                        assert(n[i] == es[i - 1]);
                    }
                }
            },
            None => {},
        }
    } else {
        match find_entry(es, x, 0) {
            Some(j) => {
                let jj = if j < p {
                    j
                } else {
                    j + 1
                };
                assert(n[jj] == es[j]);
                match find_entry(n, x, 0) {
                    Some(i) => {
                        if i < jj {
                            if i < p {
                                assert(n[i] == es[i]);
                            } else if i > p {
                                assert(n[i] == es[i - 1]);
                            }
                        }
                    },
                    None => {},
                }
            },
            None => {
                match find_entry(n, x, 0) {
                    Some(i) => {
                        if i < p {
                            assert(n[i] == es[i]);
                        } else if i > p {
                            assert(n[i] == es[i - 1]);
                        }
                    },
                    None => {},
                }
            },
        }
    }
}

/// Whether the entry with the model's id holds the model's values.
pub open spec fn shown(es: Seq<TranscriptEntry>, m: EntryModel) -> bool {
    match find_entry(es, m.id, 0) {
        Some(i) => entry_is(es[i], m),
        None => false,
    }
}

/// Whether model `j` is the last of the first `k` with its id.
pub open spec fn latest(ms: Seq<EntryModel>, j: int, k: int) -> bool {
    forall|j2: int| j < j2 < k ==> #[trigger] ms[j2].id != ms[j].id
}

/// The models of the kept items (`kept` positions of `items`), in order;
/// items that project to nothing are left out.
pub open spec fn kept_models(
    items: Seq<ThreadItem>,
    kept: Seq<int>,
    lifecycle: WebSearchLifecycle,
) -> Seq<EntryModel>
    decreases kept.len(),
{
    if kept.len() == 0 {
        Seq::empty()
    } else {
        let init = kept_models(items, kept.drop_last(), lifecycle);
        match item_entry(items[kept.last()], false, lifecycle) {
            Some(m) => init.push(m),
            None => init,
        }
    }
}

/// The phase of assistant message `id` after the first `n` items are
/// recorded over `before`.
pub open spec fn phase_after_items(
    items: Seq<ThreadItem>,
    id: Seq<char>,
    n: int,
    before: Option<MessagePhase>,
) -> Option<MessagePhase>
    decreases n,
{
    if n <= 0 {
        before
    } else {
        match items[n - 1] {
            ThreadItem::AgentMessage { id: i, phase, .. } => if i@ == id {
                phase
            } else {
                phase_after_items(items, id, n - 1, before)
            },
            _ => phase_after_items(items, id, n - 1, before),
        }
    }
}

impl ConversationProjection {
    /// Follows the review markers and records the assistant phases of
    /// `items`, in order.
    fn follow_items(&mut self, items: &Vec<ThreadItem>)
        ensures
            final(self).review_view() == crate::history_filter::review_after(
                items@,
                old(self).review_view(),
                items@.len() as int,
            ),
            forall|id: Seq<char>|
                #[trigger] phase_now(final(self).phases_view(), id) == phase_after_items(
                    items@,
                    id,
                    items@.len() as int,
                    phase_now(old(self).phases_view(), id),
                ),
            final(self).entries_view() == old(self).entries_view(),
            final(self).boundaries_view() == old(self).boundaries_view(),
            final(self).active_turn_view() == old(self).active_turn_view(),
            final(self).status_view() == old(self).status_view(),
            final(self).hooks_view() == old(self).hooks_view(),
            final(self).closed_view() == old(self).closed_view(),
            final(self).header_view() == old(self).header_view(),
    {
        let mut i: usize = 0;
        while i < items.len()
            invariant
                i <= items.len(),
                self.review_view() == crate::history_filter::review_after(
                    items@,
                    old(self).review_view(),
                    i as int,
                ),
                forall|id: Seq<char>|
                    #[trigger] phase_now(self.phases_view(), id) == phase_after_items(
                        items@,
                        id,
                        i as int,
                        phase_now(old(self).phases_view(), id),
                    ),
                self.entries_view() == old(self).entries_view(),
                self.boundaries_view() == old(self).boundaries_view(),
                self.active_turn_view() == old(self).active_turn_view(),
                self.status_view() == old(self).status_view(),
                self.hooks_view() == old(self).hooks_view(),
                self.closed_view() == old(self).closed_view(),
                self.header_view() == old(self).header_view(),
            decreases items.len() - i,
        {
            let ghost before = self.phases_view();
            self.update_review_mode(&items[i]);
            self.record_item_phase(&items[i]);
            proof {
                assert forall|id: Seq<char>|
                    #[trigger] phase_now(self.phases_view(), id) == phase_after_items(
                        items@,
                        id,
                        i + 1,
                        phase_now(old(self).phases_view(), id),
                    ) by {
                    match items@[i as int] {
                        ThreadItem::AgentMessage { id: x, .. } => {
                            if x@ != id {
                                assert(phase_now(self.phases_view(), id) == phase_now(before, id));
                            }
                        },
                        _ => {},
                    }
                }
            }
            i = i + 1;
        }
    }
}

impl ConversationProjection {
    /// Puts `entry` in place of the first entry with its id, or inserts it
    /// at `insert_at` when no entry has its id.
    fn put_entry(&mut self, entry: TranscriptEntry, insert_at: usize)
        requires
            insert_at <= old(self).entries_view().len(),
        ensures
            final(self).same_but_entries(old(self)),
            final(self).entries_view() == match find_entry(old(self).entries_view(), entry.id@, 0) {
                Some(i) => old(self).entries_view().update(i, entry),
                None => old(self).entries_view().insert(insert_at as int, entry),
            },
            match find_entry(final(self).entries_view(), entry.id@, 0) {
                Some(i) => final(self).entries_view()[i] == entry,
                None => false,
            },
            forall|x: Seq<char>|
                #![trigger find_entry(final(self).entries_view(), x, 0)]
                x != entry.id@ ==> match (
                    find_entry(old(self).entries_view(), x, 0),
                    find_entry(final(self).entries_view(), x, 0),
                ) {
                    (Some(a), Some(b)) => old(self).entries_view()[a] == final(self).entries_view()[b],
                    (None, None) => true,
                    _ => false,
                },
            forall|x: Seq<char>|
                #[trigger] has_entry(old(self).entries_view(), x) ==> has_entry(
                    final(self).entries_view(),
                    x,
                ),
    {
        let ghost es0 = self.entries@;
        proof {
            lemma_find_entry(es0, entry.id@, 0);
        }
        match position_of_entry(&self.entries, entry.id.as_str()) {
            Some(i) => {
                self.entries.set(i, entry);
                proof {
                    let es1 = self.entries@;
                    assert forall|x: Seq<char>| find_entry(es1, x, 0) == find_entry(es0, x, 0) by {
                        assert forall|k: int| 0 <= k < es1.len() implies #[trigger] es1[k].id@
                            == es0[k].id@ by {}
                        lemma_find_entry_same_ids(es1, es0, x, 0);
                    }
                    assert forall|x: Seq<char>| #![trigger find_entry(es1, x, 0)] x != entry.id@ implies match (
                        find_entry(es0, x, 0),
                        find_entry(es1, x, 0),
                    ) {
                        (Some(a), Some(b)) => es0[a] == es1[b],
                        (None, None) => true,
                        _ => false,
                    } by {
                        lemma_find_entry(es0, x, 0);
                    }
                    assert forall|x: Seq<char>| has_entry(es0, x) implies has_entry(es1, x) by {
                        let k = choose|k: int| 0 <= k < es0.len() && es0[k].id@ == x;
                        assert(es1[k].id@ == x);
                    }
                }
            },
            None => {
                self.entries.insert(insert_at, entry);
                proof {
                    let es1 = self.entries@;
                    lemma_find_entry_insert(es0, insert_at as int, entry, entry.id@);
                    assert forall|x: Seq<char>| #![trigger find_entry(es1, x, 0)] x != entry.id@ implies match (
                        find_entry(es0, x, 0),
                        find_entry(es1, x, 0),
                    ) {
                        (Some(a), Some(b)) => es0[a] == es1[b],
                        (None, None) => true,
                        _ => false,
                    } by {
                        lemma_find_entry_insert(es0, insert_at as int, entry, x);
                        lemma_find_entry(es0, x, 0);
                    }
                    assert forall|x: Seq<char>| has_entry(es0, x) implies has_entry(es1, x) by {
                        let k = choose|k: int| 0 <= k < es0.len() && es0[k].id@ == x;
                        if k < insert_at {
                            assert(es1[k].id@ == x);
                        } else {
                            assert(es1[k + 1].id@ == x);
                        }
                    }
                }
            },
        }
    }

    fn first_known_after(
        &self,
        items: &Vec<ThreadItem>,
        kept: &Vec<usize>,
        from: usize,
        Ghost(cur): Ghost<Seq<EntryModel>>,
    ) -> (r: Option<usize>)
        requires
            forall|j: int| 0 <= j < kept.len() ==> #[trigger] kept@[j] < items.len(),
            entries_are(self.entries@, cur),
        ensures
            r matches Some(p) ==> p < self.entries.len(),
            match r {
                Some(p) => known_after(cur, items@, crate::history_filter::positions(kept@), from as int) == Some(p as int),
                None => known_after(cur, items@, crate::history_filter::positions(kept@), from as int) is None,
            },
    {
        let ghost kp = crate::history_filter::positions(kept@);
        let mut j = from;
        while j < kept.len()
            invariant
                forall|q: int| 0 <= q < kept.len() ==> #[trigger] kept@[q] < items.len(),
                entries_are(self.entries@, cur),
                kp == crate::history_filter::positions(kept@),
                kp.len() == kept.len(),
                from <= j,
                known_after(cur, items@, kp, from as int) == known_after(cur, items@, kp, j as int),
            decreases kept.len() - j,
        {
            assert(kp[j as int] == kept@[j as int] as int);
            if let Some(e) = project_item(&items[kept[j]], false) {
                proof {
                    lemma_find_model_entry(self.entries@, cur, e.id@, 0);
                    lemma_find_entry(self.entries@, e.id@, 0);
                }
                if let Some(p) = position_of_entry(&self.entries, e.id.as_str()) {
                    return Some(p);
                }
            }
            j = j + 1;
        }
        None
    }

    fn last_known_before(
        &self,
        items: &Vec<ThreadItem>,
        kept: &Vec<usize>,
        upto: usize,
        Ghost(cur): Ghost<Seq<EntryModel>>,
    ) -> (r: Option<usize>)
        requires
            upto <= kept.len(),
            forall|j: int| 0 <= j < kept.len() ==> #[trigger] kept@[j] < items.len(),
            entries_are(self.entries@, cur),
        ensures
            r matches Some(p) ==> p < self.entries.len(),
            match r {
                Some(p) => known_before(cur, items@, crate::history_filter::positions(kept@), upto as int) == Some(p as int),
                None => known_before(cur, items@, crate::history_filter::positions(kept@), upto as int) is None,
            },
    {
        let ghost kp = crate::history_filter::positions(kept@);
        let mut j = upto;
        while j > 0
            invariant
                j <= upto,
                upto <= kept.len(),
                forall|q: int| 0 <= q < kept.len() ==> #[trigger] kept@[q] < items.len(),
                entries_are(self.entries@, cur),
                kp == crate::history_filter::positions(kept@),
                kp.len() == kept.len(),
                known_before(cur, items@, kp, upto as int) == known_before(cur, items@, kp, j as int),
            decreases j,
        {
            assert(kp[j - 1] == kept@[j - 1] as int);
            if let Some(e) = project_item(&items[kept[j - 1]], false) {
                proof {
                    lemma_find_model_entry(self.entries@, cur, e.id@, 0);
                    lemma_find_entry(self.entries@, e.id@, 0);
                }
                if let Some(p) = position_of_entry(&self.entries, e.id.as_str()) {
                    return Some(p);
                }
            }
            j = j - 1;
        }
        None
    }

    /// Where the `index`-th repaired entry goes when its id is not shown
    /// (`merge_pos`).
    fn merge_insert_at(
        &self,
        items: &Vec<ThreadItem>,
        kept: &Vec<usize>,
        index: usize,
        Ghost(cur): Ghost<Seq<EntryModel>>,
    ) -> (r: usize)
        requires
            forall|j: int| 0 <= j < kept.len() ==> #[trigger] kept@[j] < items.len(),
            entries_are(self.entries@, cur),
            index < usize::MAX,
        ensures
            r as int == merge_pos(cur, items@, crate::history_filter::positions(kept@), index as int),
            r <= self.entries.len(),
    {
        let ghost kp = crate::history_filter::positions(kept@);
        assert(kp.len() == kept.len());
        match self.first_known_after(items, kept, index + 1, Ghost(cur)) {
            Some(p) => p,
            None => match self.last_known_before(
                items,
                kept,
                if index <= kept.len() {
                    index
                } else {
                    kept.len()
                },
                Ghost(cur),
            ) {
                Some(p) => p + 1,
                None => self.entries.len(),
            },
        }
    }

    /// Repairs the entries from the canonical items of a turn: every kept
    /// item (user messages inside a review are dropped) replaces the entry
    /// with its id, or is inserted beside its nearest known neighbour; the
    /// review markers and assistant phases of all the items are followed.
    fn merge_canonical_items(&mut self, items: &Vec<ThreadItem>, web_search_lifecycle: WebSearchLifecycle)
        ensures
            ({
                let ms = kept_models(
                    items@,
                    crate::history_filter::review_kept(
                        items@,
                        old(self).review_view(),
                        items@.len() as int,
                    ),
                    web_search_lifecycle,
                );
                &&& forall|j: int|
                    0 <= j < ms.len() && latest(ms, j, ms.len() as int) ==> shown(
                        final(self).entries_view(),
                        #[trigger] ms[j],
                    )
                &&& forall|j: int|
                    0 <= j < ms.len() ==> has_entry(final(self).entries_view(), #[trigger] ms[j].id)
                &&& entries_are(
                    final(self).entries_view(),
                    merged(
                        entry_models(old(self).entries_view()),
                        ms,
                        items@,
                        crate::history_filter::review_kept(
                            items@,
                            old(self).review_view(),
                            items@.len() as int,
                        ),
                        ms.len() as int,
                    ),
                )
            }),
            forall|x: Seq<char>|
                has_entry(old(self).entries_view(), x) ==> has_entry(final(self).entries_view(), x),
            final(self).review_view() == crate::history_filter::review_after(
                items@,
                old(self).review_view(),
                items@.len() as int,
            ),
            forall|id: Seq<char>|
                #[trigger] phase_now(final(self).phases_view(), id) == phase_after_items(
                    items@,
                    id,
                    items@.len() as int,
                    phase_now(old(self).phases_view(), id),
                ),
            final(self).boundaries_view() == old(self).boundaries_view(),
            final(self).active_turn_view() == old(self).active_turn_view(),
            final(self).status_view() == old(self).status_view(),
            final(self).hooks_view() == old(self).hooks_view(),
            final(self).closed_view() == old(self).closed_view(),
            final(self).header_view() == old(self).header_view(),
    {
        let kept = crate::history_filter::filter_review_mode_items_with_state(items, self.review_mode);
        let ghost kp = crate::history_filter::positions(kept@);
        proof {
            lemma_review_kept_bounds(items@, self.review_view(), items@.len() as int);
            assert forall|j: int| 0 <= j < kept.len() implies #[trigger] kept@[j] < items.len() by {
                assert(kp[j] == kept@[j] as int);
            }
        }
        self.follow_items(items);
        // The projected entries of the kept items, in order.
        let mut projected: Vec<TranscriptEntry> = Vec::new();
        let mut q: usize = 0;
        while q < kept.len()
            invariant
                q <= kept.len(),
                kp == crate::history_filter::positions(kept@),
                forall|j: int| 0 <= j < kept.len() ==> #[trigger] kept@[j] < items.len(),
                projected@.len() == kept_models(items@, kp.take(q as int), web_search_lifecycle).len(),
                forall|j: int|
                    0 <= j < projected@.len() ==> entry_is(
                        #[trigger] projected@[j],
                        kept_models(items@, kp.take(q as int), web_search_lifecycle)[j],
                    ),
            decreases kept.len() - q,
        {
            assert(kp.take(q + 1).drop_last() =~= kp.take(q as int));
            assert(kp[q as int] == kept@[q as int] as int);
            if let Some(e) = project_item_with_lifecycle(&items[kept[q]], false, web_search_lifecycle) {
                projected.push(e);
            }
            q = q + 1;
        }
        assert(kp.take(kept.len() as int) =~= kp);
        let ghost ms = kept_models(items@, kp, web_search_lifecycle);
        let ghost start = self.entries@;
        let ghost start_m = entry_models(start);
        proof {
            assert forall|i: int| 0 <= i < start.len() implies entry_is(#[trigger] start[i], start_m[i]) by {}
        }
        let n = projected.len();
        let mut index: usize = 0;
        while index < n
            invariant
                index <= n,
                n == ms.len(),
                kp == crate::history_filter::positions(kept@),
                kp.len() == kept.len(),
                start_m == entry_models(start),
                entries_are(self.entries@, merged(start_m, ms, items@, kp, index as int)),
                projected.len() == n - index,
                forall|j: int|
                    0 <= j < n - index ==> entry_is(#[trigger] projected@[j], ms[j + index]),
                forall|j: int| 0 <= j < kept.len() ==> #[trigger] kept@[j] < items.len(),
                forall|j: int|
                    0 <= j < index && latest(ms, j, index as int) ==> shown(
                        self.entries@,
                        #[trigger] ms[j],
                    ),
                forall|j: int| 0 <= j < index ==> has_entry(self.entries@, #[trigger] ms[j].id),
                forall|x: Seq<char>| has_entry(start, x) ==> has_entry(self.entries@, x),
                start == old(self).entries_view(),
                self.boundaries_view() == old(self).boundaries_view(),
                self.active_turn_view() == old(self).active_turn_view(),
                self.status_view() == old(self).status_view(),
                self.hooks_view() == old(self).hooks_view(),
                self.closed_view() == old(self).closed_view(),
                self.header_view() == old(self).header_view(),
                self.review_view() == crate::history_filter::review_after(
                    items@,
                    old(self).review_view(),
                    items@.len() as int,
                ),
                forall|id: Seq<char>|
                    #[trigger] phase_now(self.phases_view(), id) == phase_after_items(
                        items@,
                        id,
                        items@.len() as int,
                        phase_now(old(self).phases_view(), id),
                    ),
            decreases n - index,
        {
            let ghost ph = self.phases_view();
            let entry = projected.remove(0);
            let ghost m = ms[index as int];
            let ghost es0 = self.entries@;
            let ghost cur = merged(start_m, ms, items@, kp, index as int);
            assert(entry_is(entry, m));
            proof {
                lemma_find_model_entry(es0, cur, entry.id@, 0);
                lemma_find_entry(es0, entry.id@, 0);
            }
            let found = position_of_entry(&self.entries, entry.id.as_str()).is_some();
            let insert_at = if found {
                0
            } else {
                let at = self.merge_insert_at(items, &kept, index, Ghost(cur));
                assert(at as int == merge_pos(cur, items@, kp, index as int));
                at
            };
            assert(!found ==> find_entry(es0, entry.id@, 0) is None);
            assert(!found ==> insert_at as int == merge_pos(cur, items@, kp, index as int));
            self.put_entry(entry, insert_at);
            proof {
                let es1 = self.entries@;
                assert(merged(start_m, ms, items@, kp, index + 1) == match find_model(cur, m.id, 0) {
                    Some(i) => cur.update(i, m),
                    None => cur.insert(merge_pos(cur, items@, kp, index as int), m),
                });
                lemma_merge_step(es0, cur, entry, m, insert_at as int, merge_pos(cur, items@, kp, index as int));
                assert forall|j: int|
                    0 <= j < index + 1 && latest(ms, j, index + 1) implies shown(
                        es1,
                        #[trigger] ms[j],
                    ) by {
                    if j < index as int {
                        assert(latest(ms, j, index as int));
                        assert(ms[j].id != m.id);
                    }
                }
                assert forall|j: int| 0 <= j < index + 1 implies has_entry(es1, #[trigger] ms[j].id) by {
                    if j == index as int {
                        lemma_find_entry(es1, m.id, 0);
                    }
                }
            }
            assert(self.phases_view() == ph);
            index = index + 1;
        }
    }
}

/// The positions `review_kept` gives are positions of items, in order.
pub proof fn lemma_review_kept_bounds(items: Seq<ThreadItem>, initial: bool, n: int)
    requires
        0 <= n <= items.len(),
    ensures
        forall|j: int|
            0 <= j < crate::history_filter::review_kept(items, initial, n).len() ==> 0
                <= #[trigger] crate::history_filter::review_kept(items, initial, n)[j] < n,
    decreases n,
{
    if n > 0 {
        lemma_review_kept_bounds(items, initial, n - 1);
        let init = crate::history_filter::review_kept(items, initial, n - 1);
        let all = crate::history_filter::review_kept(items, initial, n);
        assert forall|j: int| 0 <= j < all.len() implies 0 <= #[trigger] all[j] < n by {
            if j < init.len() {
                assert(all[j] == init[j]);
            }
        }
    }
}

/// The status the entry of model `m` has once a turn ending with `to` is
/// settled.
pub open spec fn settled_status(m: EntryModel, to: Option<EntryStatus>) -> Option<EntryStatus> {
    match to {
        Some(t) => if m.status == Some(EntryStatus::Running) {
            Some(t)
        } else {
            m.status
        },
        None => m.status,
    }
}

/// Whether the entry with the model's id shows the model's content, closed
/// and settled.
pub open spec fn shown_settled(es: Seq<TranscriptEntry>, m: EntryModel, to: Option<EntryStatus>) -> bool {
    match find_entry(es, m.id, 0) {
        Some(i) => {
            &&& es[i].kind == m.kind
            &&& es[i].text@ == m.text
            &&& crate::projection::items::views(es[i].summary@) == m.summary
            &&& !es[i].streaming
            &&& es[i].status == settled_status(m, to)
        },
        None => false,
    }
}

/// The whole seconds of a duration in milliseconds; none when negative.
pub open spec fn elapsed_seconds(duration_ms: Option<i64>) -> Option<u64> {
    match duration_ms {
        Some(d) => if d >= 0 {
            Some((d / 1000) as u64)
        } else {
            None
        },
        None => None,
    }
}

/// The separators as (entry id, elapsed seconds) pairs.
pub open spec fn bound_pairs(bs: Seq<CompletionBoundary>) -> Seq<(Seq<char>, Option<u64>)> {
    bs.map_values(|b: CompletionBoundary| (b.after_entry_id@, b.elapsed_seconds))
}

/// The separators after turn `turn` ends, the entries then being `es`:
/// a completed turn gets one after the entry of its last item when that
/// entry is shown and has none yet, with the turn's elapsed seconds.
pub open spec fn turn_end_bounds(
    ps: Seq<(Seq<char>, Option<u64>)>,
    turn: crate::protocol::Turn,
    es: Seq<TranscriptEntry>,
) -> Seq<(Seq<char>, Option<u64>)> {
    if turn.status == TurnStatus::Completed && turn.items@.len() > 0 {
        match item_entry(turn.items@.last(), false, WebSearchLifecycle::Historical) {
            Some(m) => if has_entry(es, m.id) && !bound_for(ps, m.id) {
                ps.push((m.id, elapsed_seconds(turn.duration_ms)))
            } else {
                ps
            },
            None => ps,
        }
    } else {
        ps
    }
}

fn elapsed_of(duration_ms: Option<i64>) -> (r: Option<u64>)
    ensures
        r == elapsed_seconds(duration_ms),
{
    match duration_ms {
        Some(d) => if d >= 0 {
            Some((d as u64) / 1000)
        } else {
            None
        },
        None => None,
    }
}

impl ConversationProjection {
    /// What ending `turn` makes of `before`.
    pub open spec fn completes_turn(&self, before: &Self, turn: crate::protocol::Turn) -> bool {
        let ms = kept_models(
            turn.items@,
            crate::history_filter::review_kept(
                turn.items@,
                before.review_view(),
                turn.items@.len() as int,
            ),
            if turn.status == TurnStatus::Completed {
                WebSearchLifecycle::Completed
            } else {
                WebSearchLifecycle::Historical
            },
        );
        &&& self.active_turn_view() is None
        &&& self.status_view() == turn_status_text(turn.status)
        &&& self.closed_view()
        &&& self.header_view() is None
        &&& self.hooks_view() == hooks_kept(before.hooks_view(), not_of_turn(turn.id@))
        &&& forall|j: int|
            0 <= j < ms.len() && latest(ms, j, ms.len() as int) ==> shown_settled(
                self.entries_view(),
                #[trigger] ms[j],
                settle_status(turn.status),
            )
        &&& forall|j: int| 0 <= j < ms.len() ==> has_entry(self.entries_view(), #[trigger] ms[j].id)
        &&& forall|x: Seq<char>|
            has_entry(before.entries_view(), x) ==> has_entry(self.entries_view(), x)
        &&& forall|i: int|
            0 <= i < self.entries_view().len() ==> !(#[trigger] self.entries_view()[i]).streaming
        &&& settle_status(turn.status) is Some ==> forall|i: int|
            0 <= i < self.entries_view().len() ==> (#[trigger] self.entries_view()[i]).status
                != Some(EntryStatus::Running)
        &&& self.review_view() == crate::history_filter::review_after(
            turn.items@,
            before.review_view(),
            turn.items@.len() as int,
        )
        &&& turn.status == TurnStatus::Completed && turn.items@.len() > 0 ==> match item_entry(
            turn.items@.last(),
            false,
            WebSearchLifecycle::Historical,
        ) {
            Some(m) => has_entry(self.entries_view(), m.id) ==> find_boundary(
                self.boundaries_view(),
                m.id,
                0,
            ) is Some,
            None => self.boundaries_view() == before.boundaries_view(),
        }
        &&& entries_are(
            self.entries_view(),
            merged(
                entry_models(before.entries_view()),
                ms,
                turn.items@,
                crate::history_filter::review_kept(
                    turn.items@,
                    before.review_view(),
                    turn.items@.len() as int,
                ),
                ms.len() as int,
            ).map_values(|m: EntryModel| finished_model(m, settle_status(turn.status))),
        )
        &&& bound_pairs(self.boundaries_view()) == turn_end_bounds(
            bound_pairs(before.boundaries_view()),
            turn,
            self.entries_view(),
        )
        &&& forall|id: Seq<char>|
            #[trigger] phase_now(self.phases_view(), id) == phase_after_items(
                turn.items@,
                id,
                turn.items@.len() as int,
                phase_now(before.phases_view(), id),
            )
    }

    /// A turn ends (`completes_turn`): the canonical items of the turn
    /// repair the entries, a completed turn gets its separator after the
    /// entry of its last item, running entries take the turn's outcome,
    /// every stream ends, the turn's hooks are dropped, and the status reads
    /// the outcome.
    pub fn complete_turn(&mut self, turn: crate::protocol::Turn)
        ensures
            final(self).completes_turn(old(self), turn),
    {
        self.active_turn_id = None;
        self.keep_hooks_not_of_turn(turn.id.as_str());
        let lifecycle = if turn.status == TurnStatus::Completed {
            WebSearchLifecycle::Completed
        } else {
            WebSearchLifecycle::Historical
        };
        let ghost e_before = self.entries@;
        let ghost b0 = self.boundaries_view();
        self.merge_canonical_items(&turn.items, lifecycle);
        let ghost merged = self.entries@;
        proof {
            assert forall|i: int| 0 <= i < b0.len() implies (#[trigger] b0[i]).after_entry_id@
                == bound_pairs(b0)[i].0 && b0[i].elapsed_seconds == bound_pairs(b0)[i].1 by {}
        }
        if turn.status == TurnStatus::Completed && turn.items.len() > 0 {
            let last = turn.items.len() - 1;
            if let Some(e) = project_item(&turn.items[last], false) {
                proof {
                    lemma_find_entry(merged, e.id@, 0);
                    lemma_bound_for(b0, bound_pairs(b0), e.id@);
                }
                if position_of_entry(&self.entries, e.id.as_str()).is_some() {
                    let ghost id = e.id@;
                    let ghost el = elapsed_seconds(turn.duration_ms);
                    assert(has_entry(merged, id)) by {
                        let i = find_entry(merged, id, 0).unwrap();
                        assert(merged[i].id@ == id);
                    }
                    self.add_completion_boundary(e.id, elapsed_of(turn.duration_ms));
                    proof {
                        if self.boundaries_view().len() > 0 && self.boundaries_view().last().after_entry_id@ == id {
                            lemma_find_boundary_last(self.boundaries_view(), id, 0);
                        }
                        if find_boundary(b0, id, 0) is None {
                            assert(bound_pairs(self.boundaries_view()) =~= bound_pairs(b0).push((id, el)));
                        }
                        assert(bound_pairs(self.boundaries_view()) == turn_end_bounds(bound_pairs(b0), turn, merged));
                    }
                } else {
                    assert(!has_entry(merged, e.id@));
                    assert(bound_pairs(self.boundaries_view()) == turn_end_bounds(bound_pairs(b0), turn, merged));
                }
            }
        }
        assert(bound_pairs(self.boundaries_view()) == turn_end_bounds(bound_pairs(b0), turn, merged));
        let ghost bounded = self.boundaries_view();
        self.settle_running_entries(turn.status);
        let ghost settled_es = self.entries@;
        self.close_streams();
        proof {
            let es = self.entries@;
            assert forall|x: Seq<char>| find_entry(es, x, 0) == find_entry(merged, x, 0) by {
                assert forall|k: int| 0 <= k < es.len() implies #[trigger] es[k].id@ == merged[k].id@ by {
                    assert(closed_entry(settled_es[k], es[k]));
                }
                lemma_find_entry_same_ids(es, merged, x, 0);
            }
            assert forall|x: Seq<char>| has_entry(merged, x) implies has_entry(es, x) by {
                let k = choose|k: int| 0 <= k < merged.len() && merged[k].id@ == x;
                assert(closed_entry(settled_es[k], es[k]));
            }
            assert forall|x: Seq<char>| has_entry(es, x) implies has_entry(merged, x) by {
                let k = choose|k: int| 0 <= k < es.len() && es[k].id@ == x;
                assert(closed_entry(settled_es[k], es[k]));
                assert(merged[k].id@ == x);
            }
            assert(turn_end_bounds(bound_pairs(b0), turn, merged) == turn_end_bounds(bound_pairs(b0), turn, es));
            let kp0 = crate::history_filter::review_kept(
                turn.items@,
                old(self).review_view(),
                turn.items@.len() as int,
            );
            let ms0 = kept_models(turn.items@, kp0, lifecycle);
            let mm = crate::projection::merged(entry_models(e_before), ms0, turn.items@, kp0, ms0.len() as int);
            assert(e_before == old(self).entries_view());
            assert(entries_are(merged, mm));
            let fin = mm.map_values(|m: EntryModel| finished_model(m, settle_status(turn.status)));
            assert forall|i: int| 0 <= i < es.len() implies entry_is(#[trigger] es[i], fin[i]) by {
                assert(closed_entry(settled_es[i], es[i]));
                assert(entry_is(merged[i], mm[i]));
            }
            assert forall|i: int| 0 <= i < es.len() implies !(#[trigger] es[i]).streaming by {
                assert(closed_entry(settled_es[i], es[i]));
            }
            assert forall|i: int| 0 <= i < es.len() && settle_status(turn.status) is Some implies (
            #[trigger] es[i]).status != Some(EntryStatus::Running) by {
                assert(closed_entry(settled_es[i], es[i]));
                let a = merged[i];
                assert(settled_es[i].status == settled(a, settle_status(turn.status).unwrap()));
            }
            let ms = kept_models(
                turn.items@,
                crate::history_filter::review_kept(
                    turn.items@,
                    old(self).review_view(),
                    turn.items@.len() as int,
                ),
                lifecycle,
            );
            assert forall|j: int|
                0 <= j < ms.len() && latest(ms, j, ms.len() as int) implies shown_settled(
                    es,
                    #[trigger] ms[j],
                    settle_status(turn.status),
                ) by {
                assert(shown(merged, ms[j]));
                lemma_find_entry(merged, ms[j].id, 0);
                let i = find_entry(merged, ms[j].id, 0).unwrap();
                assert(closed_entry(settled_es[i], es[i]));
                let a = merged[i];
                assert(settled_es[i].text == a.text);
            }
        }
        self.turn_closed = true;
        self.reasoning_header = None;
        self.status = owned(turn_status(turn.status));
    }
}

impl ConversationProjection {
    /// What showing `item` makes of `before`: a user message inside a
    /// review is hidden, and so is any item when `refused`; otherwise the
    /// item's entry is recorded and an assistant message's phase with it.
    /// Review markers are followed either way.
    pub open spec fn takes_item(
        &self,
        before: &Self,
        item: ThreadItem,
        streaming: bool,
        lifecycle: WebSearchLifecycle,
        refused: bool,
    ) -> bool {
        let hidden = item is UserMessage && before.review_view();
        &&& self.review_view() == match item {
            ThreadItem::EnteredReviewMode { .. } => true,
            ThreadItem::ExitedReviewMode { .. } => false,
            _ => before.review_view(),
        }
        &&& self.boundaries_view() == before.boundaries_view()
        &&& self.active_turn_view() == before.active_turn_view()
        &&& self.status_view() == before.status_view()
        &&& self.hooks_view() == before.hooks_view()
        &&& self.closed_view() == before.closed_view()
        &&& self.header_view() == before.header_view()
        &&& if hidden || refused || item_entry(item, streaming, lifecycle) is None {
            &&& self.entries_view() == before.entries_view()
            &&& self.phases_view() == before.phases_view()
        } else {
            &&& replaced_with(
                before.entries_view(),
                self.entries_view(),
                item_entry(item, streaming, lifecycle).unwrap(),
            )
            &&& match item {
                ThreadItem::AgentMessage { id, phase, .. } => {
                    &&& phase_now(self.phases_view(), id@) == phase
                    &&& forall|other: Seq<char>|
                        other != id@ ==> phase_now(self.phases_view(), other) == phase_now(
                            before.phases_view(),
                            other,
                        )
                },
                _ => self.phases_view() == before.phases_view(),
            }
        }
    }

    fn take_item(&mut self, item: ThreadItem, streaming: bool, lifecycle: WebSearchLifecycle, refused: bool)
        ensures
            final(self).takes_item(old(self), item, streaming, lifecycle, refused),
    {
        let hidden = match &item {
            ThreadItem::UserMessage { .. } => self.review_mode,
            _ => false,
        };
        self.update_review_mode(&item);
        if hidden || refused {
            return ;
        }
        if let Some(entry) = project_item_with_lifecycle(&item, streaming, lifecycle) {
            self.record_item_phase(&item);
            let ghost e = entry;
            self.replace_entry(entry);
            assert(entry_is(e, item_entry(item, streaming, lifecycle).unwrap()));
        }
    }

    /// What reasoning summary delta `delta` of item `id` does, `before`
    /// being the projection before: it is taken as any delta; while a turn
    /// runs, the heading of the item's streamed text becomes the header.
    pub open spec fn takes_summary_delta(&self, before: &Self, id: Seq<char>, delta: Seq<char>) -> bool {
        &&& delta_applied(
            before.entries_view(),
            self.entries_view(),
            before.closed_view(),
            id,
            EntryKind::Reasoning,
            delta,
        )
        &&& self.boundaries_view() == before.boundaries_view()
        &&& self.active_turn_view() == before.active_turn_view()
        &&& self.status_view() == before.status_view()
        &&& self.review_view() == before.review_view()
        &&& self.hooks_view() == before.hooks_view()
        &&& self.phases_view() == before.phases_view()
        &&& self.closed_view() == before.closed_view()
        &&& self.header_view() == if before.active_turn_view() is Some {
            match find_entry(self.entries_view(), id, 0) {
                Some(i) => match reasoning_heading_spec(self.entries_view()[i].text@) {
                    Some(h) => Some(h),
                    None => before.header_view(),
                },
                None => before.header_view(),
            }
        } else {
            before.header_view()
        }
    }

    /// A reasoning summary delta (`takes_summary_delta`).
    fn take_summary_delta(&mut self, id: String, delta: String)
        ensures
            final(self).takes_summary_delta(old(self), id@, delta@),
    {
        let ghost key = id@;
        let probe = owned(id.as_str());
        self.take_delta(id, EntryKind::Reasoning, delta);
        if self.active_turn_id.is_some() {
            if let Some(i) = position_of_entry(&self.entries, probe.as_str()) {
                if let Some(h) = reasoning_heading(self.entries[i].text.as_str()) {
                    self.reasoning_header = Some(h);
                }
            }
        }
    }
}

/// The id of the diff entry of a turn: `turn-<id>-diff`.
pub open spec fn diff_id(turn_id: Seq<char>) -> Seq<char> {
    "turn-"@ + turn_id + "-diff"@
}

/// The id of the plan entry of a turn: `turn-<id>-plan`.
pub open spec fn plan_id(turn_id: Seq<char>) -> Seq<char> {
    "turn-"@ + turn_id + "-plan"@
}

/// A live entry model: running and streaming, without facts.
pub open spec fn live_model(id: Seq<char>, kind: EntryKind, text: Seq<char>) -> EntryModel {
    EntryModel { id, kind, text, streaming: true, status: Some(EntryStatus::Running), summary: Seq::empty() }
}

fn turn_entry_id(turn_id: &str, suffix: &str) -> (r: String)
    ensures
        r@ == "turn-"@ + turn_id@ + suffix@,
{
    let mut s = owned("turn-");
    s.append(turn_id);
    s.append(suffix);
    s
}

impl ConversationProjection {
    /// Whether only the entries differ, and they only as `replaced` by an
    /// entry holding `m`.
    pub open spec fn records(&self, before: &Self, m: EntryModel) -> bool {
        &&& self.same_but_entries(before)
        &&& replaced_with(before.entries_view(), self.entries_view(), m)
    }

    /// Whether only the entries differ, and they by the system entry `text`
    /// appended as entry number `before.entries_view().len()`.
    pub open spec fn appends_system(&self, before: &Self, text: Seq<char>) -> bool {
        &&& self.entries_view().len() == before.entries_view().len() + 1
        &&& self.entries_view().drop_last() == before.entries_view()
        &&& system_entry(self.entries_view().last(), before.entries_view().len(), text)
    }

    /// Whether only the entries differ, and they as `delta_applied`.
    pub open spec fn takes_delta(&self, before: &Self, id: Seq<char>, kind: EntryKind, delta: Seq<char>) -> bool {
        &&& self.same_but_entries(before)
        &&& delta_applied(before.entries_view(), self.entries_view(), before.closed_view(), id, kind, delta)
    }

    fn record_live(&mut self, id: String, kind: EntryKind, text: String)
        ensures
            final(self).records(old(self), live_model(id@, kind, text@)),
    {
        let e = TranscriptEntry {
            id,
            kind,
            text,
            streaming: true,
            status: Some(EntryStatus::Running),
            summary: Vec::new(),
        };
        assert(crate::projection::items::views(e.summary@) =~= Seq::<Seq<char>>::empty());
        assert(entry_is(e, live_model(e.id@, kind, e.text@)));
        self.replace_entry(e);
    }

    /// Follows one server notification.
    pub fn apply(&mut self, notification: crate::protocol::ServerNotification)
        ensures
            match notification {
                crate::protocol::ServerNotification::TurnStarted { turn_id } => {
                    &&& final(self).active_turn_view() == Some(turn_id@)
                    &&& final(self).status_view() == "running"@
                    &&& !final(self).closed_view()
                    &&& final(self).header_view() is None
                    &&& final(self).entries_view() == old(self).entries_view()
                    &&& final(self).boundaries_view() == old(self).boundaries_view()
                    &&& final(self).hooks_view() == old(self).hooks_view()
                    &&& final(self).review_view() == old(self).review_view()
                    &&& final(self).phases_view() == old(self).phases_view()
                },
                crate::protocol::ServerNotification::TurnCompleted { turn } => final(self).completes_turn(old(self), turn),
                crate::protocol::ServerNotification::ItemStarted { item } => final(self).takes_item(
                    old(self),
                    item,
                    true,
                    WebSearchLifecycle::Started,
                    old(self).closed_view(),
                ),
                crate::protocol::ServerNotification::ItemCompleted { item } => final(self).takes_item(old(self), item, false, WebSearchLifecycle::Completed, false),
                crate::protocol::ServerNotification::AgentMessageDelta { item_id, delta } => final(self).takes_delta(old(self), item_id@, EntryKind::Assistant, delta@),
                crate::protocol::ServerNotification::ReasoningSummaryTextDelta { item_id, delta } =>
                    final(self).takes_summary_delta(old(self), item_id@, delta@),
                crate::protocol::ServerNotification::ReasoningSummaryPartAdded { item_id } => {
                    &&& final(self).same_but_entries(old(self))
                    &&& match find_entry(old(self).entries_view(), item_id@, 0) {
                        Some(i) => if old(self).entries_view()[i].streaming
                            && old(self).entries_view()[i].text@.len() > 0 {
                            &&& final(self).entries_view().len() == old(self).entries_view().len()
                            &&& forall|j: int|
                                0 <= j < old(self).entries_view().len() && j != i
                                    ==> #[trigger] final(self).entries_view()[j] == old(self).entries_view()[j]
                            &&& extended(old(self).entries_view()[i], final(self).entries_view()[i], "\n"@)
                        } else {
                            final(self).entries_view() == old(self).entries_view()
                        },
                        None => final(self).entries_view() == old(self).entries_view(),
                    }
                },
                crate::protocol::ServerNotification::ReasoningTextDelta { item_id, delta } => final(self).takes_delta(old(self), item_id@, EntryKind::Reasoning, delta@),
                crate::protocol::ServerNotification::PlanDelta { item_id, delta } => final(self).takes_delta(old(self), item_id@, EntryKind::Plan, delta@),
                crate::protocol::ServerNotification::CommandExecutionOutputDelta { item_id, delta } =>
                    final(self).takes_delta(old(self), item_id@, EntryKind::Command, delta@),
                crate::protocol::ServerNotification::FileChangePatchUpdated { item_id, changes } =>
                    final(self).records(
                    old(self),
                    live_model(item_id@, EntryKind::Patch, patch_text(changes@)),
                ),
                crate::protocol::ServerNotification::TurnDiffUpdated { turn_id, diff } => final(self).records(old(self), live_model(diff_id(turn_id@), EntryKind::Patch, diff@)),
                crate::protocol::ServerNotification::TurnPlanUpdated { turn_id, plan } => final(self).records(old(self), live_model(plan_id(turn_id@), EntryKind::Plan, plan_text(plan@))),
                crate::protocol::ServerNotification::Warning { message } => {
                    &&& final(self).same_but_entries(old(self))
                    &&& final(self).appends_system(old(self), "warning: "@ + message@)
                },
                crate::protocol::ServerNotification::Error { message, will_retry } => {
                    &&& final(self).status_view() == if will_retry {
                        "retrying"@
                    } else {
                        "failed"@
                    }
                    &&& final(self).appends_system(old(self), message@)
                    &&& final(self).boundaries_view() == old(self).boundaries_view()
                    &&& final(self).hooks_view() == old(self).hooks_view()
                    &&& final(self).active_turn_view() == old(self).active_turn_view()
                    &&& final(self).review_view() == old(self).review_view()
                    &&& final(self).phases_view() == old(self).phases_view()
                    &&& final(self).closed_view() == old(self).closed_view()
                    &&& final(self).header_view() == old(self).header_view()
                },
                crate::protocol::ServerNotification::HookStarted { turn_id, run } => final(self).starts_hook(old(self), turn_id, run),
                crate::protocol::ServerNotification::HookCompleted { run } => final(self).completes_hook(old(self), run),
                crate::protocol::ServerNotification::Other => {
                    &&& final(self).entries_view() == old(self).entries_view()
                    &&& final(self).same_but_entries(old(self))
                },
            },
    {
        match notification {
            crate::protocol::ServerNotification::TurnStarted { turn_id } => {
                self.start_turn(turn_id);
            },
            crate::protocol::ServerNotification::TurnCompleted { turn } => {
                self.complete_turn(turn);
            },
            crate::protocol::ServerNotification::ItemStarted { item } => {
                let refused = self.turn_closed;
                self.take_item(item, true, WebSearchLifecycle::Started, refused);
            },
            crate::protocol::ServerNotification::ItemCompleted { item } => {
                self.take_item(item, false, WebSearchLifecycle::Completed, false);
            },
            crate::protocol::ServerNotification::AgentMessageDelta { item_id, delta } => {
                self.take_delta(item_id, EntryKind::Assistant, delta);
            },
            crate::protocol::ServerNotification::ReasoningSummaryTextDelta { item_id, delta } => {
                self.take_summary_delta(item_id, delta);
            },
            crate::protocol::ServerNotification::ReasoningSummaryPartAdded { item_id } => {
                self.take_summary_part(item_id.as_str());
                proof {
                    lemma_find_entry(old(self).entries_view(), item_id@, 0);
                }
            },
            crate::protocol::ServerNotification::ReasoningTextDelta { item_id, delta } => {
                self.take_delta(item_id, EntryKind::Reasoning, delta);
            },
            crate::protocol::ServerNotification::PlanDelta { item_id, delta } => {
                self.take_delta(item_id, EntryKind::Plan, delta);
            },
            crate::protocol::ServerNotification::CommandExecutionOutputDelta { item_id, delta } => {
                self.take_delta(item_id, EntryKind::Command, delta);
            },
            crate::protocol::ServerNotification::FileChangePatchUpdated { item_id, changes } => {
                let text = crate::projection::items::format_patch(&changes);
                self.record_live(item_id, EntryKind::Patch, text);
            },
            crate::protocol::ServerNotification::TurnDiffUpdated { turn_id, diff } => {
                let id = turn_entry_id(turn_id.as_str(), "-diff");
                self.record_live(id, EntryKind::Patch, diff);
            },
            crate::protocol::ServerNotification::TurnPlanUpdated { turn_id, plan } => {
                let id = turn_entry_id(turn_id.as_str(), "-plan");
                let text = format_plan(&plan);
                self.record_live(id, EntryKind::Plan, text);
            },
            crate::protocol::ServerNotification::Warning { message } => {
                let mut text = owned("warning: ");
                text.append(message.as_str());
                self.push_system(text);
            },
            crate::protocol::ServerNotification::Error { message, will_retry } => {
                self.status = owned(
                    if will_retry {
                        "retrying"
                    } else {
                        "failed"
                    },
                );
                self.push_system(message);
            },
            crate::protocol::ServerNotification::HookStarted { turn_id, run } => {
                self.start_hook(turn_id, run);
            },
            crate::protocol::ServerNotification::HookCompleted { run } => {
                self.complete_hook(run);
            },
            crate::protocol::ServerNotification::Other => {},
        }
    }
}

/// What `replaced` does, id by id: the new entry is found by its id, every
/// other id is found as before, and the ids are the old ones and the new one.
pub proof fn lemma_replaced(es: Seq<TranscriptEntry>, e: TranscriptEntry)
    ensures
        match find_entry(replaced(es, e), e.id@, 0) {
            Some(i) => replaced(es, e)[i] == e,
            None => false,
        },
        forall|x: Seq<char>|
            #![trigger find_entry(replaced(es, e), x, 0)]
            x != e.id@ ==> match (find_entry(es, x, 0), find_entry(replaced(es, e), x, 0)) {
                (Some(a), Some(b)) => es[a] == replaced(es, e)[b],
                (None, None) => true,
                _ => false,
            },
        forall|x: Seq<char>|
            #[trigger] has_entry(replaced(es, e), x) <==> (has_entry(es, x) || x == e.id@),
{
    let n = replaced(es, e);
    lemma_find_entry(es, e.id@, 0);
    match find_entry(es, e.id@, 0) {
        Some(i) => {
            assert forall|x: Seq<char>| find_entry(n, x, 0) == find_entry(es, x, 0) by {
                assert forall|k: int| 0 <= k < n.len() implies #[trigger] n[k].id@ == es[k].id@ by {}
                lemma_find_entry_same_ids(n, es, x, 0);
            }
            assert forall|x: Seq<char>| #![trigger find_entry(n, x, 0)] x != e.id@ implies match (find_entry(es, x, 0), find_entry(n, x, 0)) {
                (Some(a), Some(b)) => es[a] == n[b],
                (None, None) => true,
                _ => false,
            } by {
                lemma_find_entry(es, x, 0);
            }
            assert forall|x: Seq<char>| #[trigger] has_entry(n, x) <==> (has_entry(es, x) || x == e.id@) by {
                if has_entry(n, x) {
                    let k = choose|k: int| 0 <= k < n.len() && n[k].id@ == x;
                    assert(es[k].id@ == x);
                }
                if has_entry(es, x) {
                    let k = choose|k: int| 0 <= k < es.len() && es[k].id@ == x;
                    assert(n[k].id@ == x);
                }
                if x == e.id@ {
                    assert(n[i].id@ == x);
                }
            }
        },
        None => {
            assert(es.insert(es.len() as int, e) =~= n);
            lemma_find_entry_insert(es, es.len() as int, e, e.id@);
            assert forall|x: Seq<char>| #![trigger find_entry(n, x, 0)] x != e.id@ implies match (find_entry(es, x, 0), find_entry(n, x, 0)) {
                (Some(a), Some(b)) => es[a] == n[b],
                (None, None) => true,
                _ => false,
            } by {
                lemma_find_entry_insert(es, es.len() as int, e, x);
                lemma_find_entry(es, x, 0);
            }
            assert forall|x: Seq<char>| #[trigger] has_entry(n, x) <==> (has_entry(es, x) || x == e.id@) by {
                if has_entry(n, x) {
                    let k = choose|k: int| 0 <= k < n.len() && n[k].id@ == x;
                    if k < es.len() {
                        assert(es[k].id@ == x);
                    }
                }
                if has_entry(es, x) {
                    let k = choose|k: int| 0 <= k < es.len() && es[k].id@ == x;
                    assert(n[k].id@ == x);
                }
                if x == e.id@ {
                    assert(n[es.len() as int].id@ == x);
                }
            }
        },
    }
}

/// Whether item `item` is a user message whose id is hidden.
pub open spec fn hidden_item(item: ThreadItem, hidden: spec_fn(Seq<char>) -> bool) -> bool {
    match crate::history_filter::user_id(item) {
        Some(id) => hidden(id),
        None => false,
    }
}

/// The ids of the user messages of a thread that history does not show.
pub open spec fn thread_hidden(turns: Seq<crate::protocol::Turn>) -> spec_fn(Seq<char>) -> bool {
    |id: Seq<char>|
        exists|t: int, k: int|
            crate::history_filter::hidden_user_at(turns, t, k)
                && #[trigger] crate::history_filter::user_id_at(turns, t, k) == Some(id)
}

/// The models of the first `k` items of a turn, hidden ones left out.
pub open spec fn turn_models(items: Seq<ThreadItem>, hidden: spec_fn(Seq<char>) -> bool, k: int) -> Seq<EntryModel>
    decreases k,
{
    if k <= 0 {
        Seq::empty()
    } else {
        let init = turn_models(items, hidden, k - 1);
        if hidden_item(items[k - 1], hidden) {
            init
        } else {
            match item_entry(items[k - 1], false, WebSearchLifecycle::Historical) {
                Some(m) => init.push(m),
                None => init,
            }
        }
    }
}

/// The models of the items of the first `t` turns, hidden ones left out.
pub open spec fn thread_models(turns: Seq<crate::protocol::Turn>, hidden: spec_fn(Seq<char>) -> bool, t: int) -> Seq<
    EntryModel,
>
    decreases t,
{
    if t <= 0 {
        Seq::empty()
    } else {
        thread_models(turns, hidden, t - 1) + turn_models(
            turns[t - 1].items@,
            hidden,
            turns[t - 1].items@.len() as int,
        )
    }
}

/// Whether some model has id `x`.
pub open spec fn model_id(ms: Seq<EntryModel>, x: Seq<char>) -> bool {
    exists|j: int| 0 <= j < ms.len() && ms[j].id == x
}

/// The id of the last turn in progress among the first `t`.
pub open spec fn last_in_progress(turns: Seq<crate::protocol::Turn>, t: int) -> Option<Seq<char>>
    decreases t,
{
    if t <= 0 {
        None
    } else if turns[t - 1].status == TurnStatus::InProgress {
        Some(turns[t - 1].id@)
    } else {
        last_in_progress(turns, t - 1)
    }
}

/// The status after the first `t` turns: `running` once a turn is in
/// progress, else that of the last turn, `ready` without turns.
pub open spec fn hydrated_status(turns: Seq<crate::protocol::Turn>, t: int) -> Seq<char> {
    if last_in_progress(turns, t) is Some {
        "running"@
    } else if t <= 0 {
        "ready"@
    } else {
        turn_status_text(turns[t - 1].status)
    }
}

/// The assistant phase of message `id` after the items of the first `t`
/// turns.
pub open spec fn thread_phase(turns: Seq<crate::protocol::Turn>, id: Seq<char>, t: int) -> Option<MessagePhase>
    decreases t,
{
    if t <= 0 {
        None
    } else {
        phase_after_items(
            turns[t - 1].items@,
            id,
            turns[t - 1].items@.len() as int,
            thread_phase(turns, id, t - 1),
        )
    }
}

/// The review state after the first `t` turns.
pub open spec fn thread_review(turns: Seq<crate::protocol::Turn>, t: int) -> bool {
    crate::history_filter::review_at_turn(turns, t)
}

impl ConversationProjection {
    /// Loads a whole thread, replacing what was shown: the entries of its
    /// items that are not hidden user messages, the separators of its
    /// completed turns, the turn in progress, the status, the review state
    /// and the assistant phases.
    pub fn hydrate_thread(&mut self, thread: crate::protocol::Thread)
        ensures
            ({
                let turns = thread.turns@;
                let ms = thread_models(turns, thread_hidden(turns), turns.len() as int);
                &&& forall|j: int|
                    0 <= j < ms.len() && latest(ms, j, ms.len() as int) ==> shown(
                        final(self).entries_view(),
                        #[trigger] ms[j],
                    )
                &&& forall|x: Seq<char>|
                    #[trigger] has_entry(final(self).entries_view(), x) <==> model_id(ms, x)
                &&& final(self).active_turn_view() == last_in_progress(turns, turns.len() as int)
                &&& final(self).status_view() == hydrated_status(turns, turns.len() as int)
                &&& entries_are(
                    final(self).entries_view(),
                    recorded(thread_models(turns, thread_hidden(turns), turns.len() as int)),
                )
                &&& bounds_are(
                    final(self).boundaries_view(),
                    hydrated_bounds(turns, thread_hidden(turns), turns.len() as int),
                )
                &&& final(self).review_view() == thread_review(turns, turns.len() as int)
                &&& forall|id: Seq<char>|
                    #[trigger] phase_now(final(self).phases_view(), id) == thread_phase(
                        turns,
                        id,
                        turns.len() as int,
                    )
                &&& forall|t: int|
                    0 <= t < turns.len() && (#[trigger] turns[t]).status == TurnStatus::Completed
                        && turns[t].items@.len() > 0 ==> match item_entry(
                        turns[t].items@.last(),
                        false,
                        WebSearchLifecycle::Historical,
                    ) {
                        Some(m) => model_id(thread_models(turns, thread_hidden(turns), t + 1), m.id)
                            ==> find_boundary(final(self).boundaries_view(), m.id, 0) is Some,
                        None => true,
                    }
            }),
            final(self).hooks_view().len() == 0,
            !final(self).closed_view(),
            final(self).header_view() is None,
    {
        self.entries = Vec::new();
        self.completion_boundaries = Vec::new();
        self.active_turn_id = None;
        self.status = owned("ready");
        self.review_mode = false;
        self.active_hooks = Vec::new();
        self.assistant_phases = Vec::new();
        self.turn_closed = false;
        self.reasoning_header = None;
        let turns = &thread.turns;
        let hidden = crate::history_filter::hidden_user_message_ids(turns);
        let ghost hid = thread_hidden(turns@);
        proof {
            assert forall|id: Seq<char>| listed(hidden@, id) == hid(id) by {
                assert(crate::history_filter::listed(hidden@, id) == listed(hidden@, id));
            }
        }
        let mut t: usize = 0;
        while t < turns.len()
            invariant
                t <= turns.len(),
                turns@ == thread.turns@,
                forall|id: Seq<char>| listed(hidden@, id) == hid(id),
                hid == thread_hidden(turns@),
                ({
                    let ms = thread_models(turns@, hid, t as int);
                    &&& forall|j: int|
                        0 <= j < ms.len() && latest(ms, j, ms.len() as int) ==> shown(
                            self.entries@,
                            #[trigger] ms[j],
                        )
                    &&& forall|x: Seq<char>| #[trigger] has_entry(self.entries@, x) <==> model_id(ms, x)
                }),
                entries_are(self.entries@, recorded(thread_models(turns@, hid, t as int))),
                bounds_are(self.boundaries_view(), hydrated_bounds(turns@, hid, t as int)),
                self.active_turn_view() == last_in_progress(turns@, t as int),
                self.status_view() == hydrated_status(turns@, t as int),
                self.review_view() == thread_review(turns@, t as int),
                forall|id: Seq<char>|
                    #[trigger] phase_now(self.phases_view(), id) == thread_phase(turns@, id, t as int),
                forall|u: int|
                    0 <= u < t && (#[trigger] turns@[u]).status == TurnStatus::Completed
                        && turns@[u].items@.len() > 0 ==> match item_entry(
                        turns@[u].items@.last(),
                        false,
                        WebSearchLifecycle::Historical,
                    ) {
                        Some(m) => model_id(thread_models(turns@, hid, u + 1), m.id) ==> find_boundary(
                            self.boundaries_view(),
                            m.id,
                            0,
                        ) is Some,
                        None => true,
                    },
                self.hooks_view().len() == 0,
                !self.closed_view(),
                self.header_view() is None,
            decreases turns.len() - t,
        {
            self.hydrate_turn(&turns[t], &hidden, Ghost(turns@), Ghost(t as int), Ghost(hid));
            t = t + 1;
        }
    }
}

/// Whether the entries show the models: the last model of each id is shown
/// exactly, and the entry ids are the model ids.
pub open spec fn models_shown(es: Seq<TranscriptEntry>, ms: Seq<EntryModel>) -> bool {
    &&& forall|j: int|
        0 <= j < ms.len() && latest(ms, j, ms.len() as int) ==> shown(es, #[trigger] ms[j])
    &&& forall|x: Seq<char>| #[trigger] has_entry(es, x) <==> model_id(ms, x)
}

/// Recording the entry of one more model keeps the models shown.
pub proof fn lemma_models_shown_push(
    es: Seq<TranscriptEntry>,
    ms: Seq<EntryModel>,
    e: TranscriptEntry,
    m: EntryModel,
)
    requires
        models_shown(es, ms),
        entry_is(e, m),
    ensures
        models_shown(replaced(es, e), ms.push(m)),
{
    lemma_replaced(es, e);
    let n = replaced(es, e);
    let ms2 = ms.push(m);
    assert forall|j: int| 0 <= j < ms2.len() && latest(ms2, j, ms2.len() as int) implies shown(
        n,
        #[trigger] ms2[j],
    ) by {
        if j < ms.len() {
            assert(ms2[ms.len() as int].id != ms2[j].id);
            assert(latest(ms, j, ms.len() as int)) by {
                assert forall|j2: int| j < j2 < ms.len() implies #[trigger] ms[j2].id != ms[j].id by {
                    assert(ms2[j2] == ms[j2]);
                }
            }
            assert(shown(es, ms[j]));
        }
    }
    assert forall|x: Seq<char>| #[trigger] has_entry(n, x) <==> model_id(ms2, x) by {
        if model_id(ms2, x) {
            let j = choose|j: int| 0 <= j < ms2.len() && ms2[j].id == x;
            if j < ms.len() {
                assert(model_id(ms, x));
            }
        }
        if model_id(ms, x) {
            let j = choose|j: int| 0 <= j < ms.len() && ms[j].id == x;
            assert(ms2[j].id == x);
        }
        if x == e.id@ {
            assert(ms2[ms.len() as int].id == x);
        }
    }
}

/// A boundary list keeps finding what it found when one is appended.
pub proof fn lemma_find_boundary_push(bs: Seq<CompletionBoundary>, b: CompletionBoundary, x: Seq<char>, from: int)
    requires
        0 <= from <= bs.len(),
        find_boundary(bs, x, from) is Some,
    ensures
        find_boundary(bs.push(b), x, from) is Some,
    decreases bs.len() - from,
{
    if from < bs.len() && bs[from].after_entry_id@ != x {
        lemma_find_boundary_push(bs, b, x, from + 1);
    }
}

impl ConversationProjection {
    fn hydrate_turn(
        &mut self,
        turn: &crate::protocol::Turn,
        hidden: &Vec<String>,
        Ghost(turns): Ghost<Seq<crate::protocol::Turn>>,
        Ghost(t): Ghost<int>,
        Ghost(hid): Ghost<spec_fn(Seq<char>) -> bool>,
    )
        requires
            0 <= t < turns.len(),
            *turn == turns[t],
            forall|id: Seq<char>| listed(hidden@, id) == hid(id),
            models_shown(old(self).entries_view(), thread_models(turns, hid, t)),
            entries_are(old(self).entries_view(), recorded(thread_models(turns, hid, t))),
            bounds_are(old(self).boundaries_view(), hydrated_bounds(turns, hid, t)),
            old(self).active_turn_view() == last_in_progress(turns, t),
            old(self).status_view() == hydrated_status(turns, t),
            old(self).review_view() == thread_review(turns, t),
            forall|id: Seq<char>|
                #[trigger] phase_now(old(self).phases_view(), id) == thread_phase(turns, id, t),
            forall|u: int|
                0 <= u < t && (#[trigger] turns[u]).status == TurnStatus::Completed
                    && turns[u].items@.len() > 0 ==> match item_entry(
                    turns[u].items@.last(),
                    false,
                    WebSearchLifecycle::Historical,
                ) {
                    Some(m) => model_id(thread_models(turns, hid, u + 1), m.id) ==> find_boundary(
                        old(self).boundaries_view(),
                        m.id,
                        0,
                    ) is Some,
                    None => true,
                },
            old(self).hooks_view().len() == 0,
            !old(self).closed_view(),
            old(self).header_view() is None,
        ensures
            models_shown(final(self).entries_view(), thread_models(turns, hid, t + 1)),
            entries_are(final(self).entries_view(), recorded(thread_models(turns, hid, t + 1))),
            bounds_are(final(self).boundaries_view(), hydrated_bounds(turns, hid, t + 1)),
            final(self).active_turn_view() == last_in_progress(turns, t + 1),
            final(self).status_view() == hydrated_status(turns, t + 1),
            final(self).review_view() == thread_review(turns, t + 1),
            forall|id: Seq<char>|
                #[trigger] phase_now(final(self).phases_view(), id) == thread_phase(turns, id, t + 1),
            forall|u: int|
                0 <= u < t + 1 && (#[trigger] turns[u]).status == TurnStatus::Completed
                    && turns[u].items@.len() > 0 ==> match item_entry(
                    turns[u].items@.last(),
                    false,
                    WebSearchLifecycle::Historical,
                ) {
                    Some(m) => model_id(thread_models(turns, hid, u + 1), m.id) ==> find_boundary(
                        final(self).boundaries_view(),
                        m.id,
                        0,
                    ) is Some,
                    None => true,
                },
            final(self).hooks_view().len() == 0,
            !final(self).closed_view(),
            final(self).header_view() is None,
    {
        if turn.status == TurnStatus::InProgress {
            self.active_turn_id = Some(owned(turn.id.as_str()));
            self.status = owned("running");
        }
        let ghost base = thread_models(turns, hid, t);
        let ghost start_review = self.review_view();
        let ghost start_bounds = self.boundaries_view();
        let items = &turn.items;
        assert(base + turn_models(items@, hid, 0) =~= base);
        assert(self.phases_view() == old(self).phases_view());
        assert forall|id: Seq<char>|
            #[trigger] phase_now(self.phases_view(), id) == phase_after_items(
                items@,
                id,
                0,
                thread_phase(turns, id, t),
            ) by {
            assert(phase_now(old(self).phases_view(), id) == thread_phase(turns, id, t));
        }
        let mut k: usize = 0;
        while k < items.len()
            invariant
                k <= items.len(),
                *items == turns[t].items,
                0 <= t < turns.len(),
                forall|id: Seq<char>| listed(hidden@, id) == hid(id),
                base == thread_models(turns, hid, t),
                models_shown(self.entries@, base + turn_models(items@, hid, k as int)),
                entries_are(self.entries@, recorded(base + turn_models(items@, hid, k as int))),
                start_review == thread_review(turns, t),
                self.review_view() == crate::history_filter::review_after(items@, start_review, k as int),
                forall|id: Seq<char>|
                    #[trigger] phase_now(self.phases_view(), id) == phase_after_items(
                        items@,
                        id,
                        k as int,
                        thread_phase(turns, id, t),
                    ),
                self.boundaries_view() == start_bounds,
                self.active_turn_view() == (if turn.status == TurnStatus::InProgress {
                    Some(turn.id@)
                } else {
                    last_in_progress(turns, t)
                }),
                self.status_view() == (if turn.status == TurnStatus::InProgress {
                    "running"@
                } else {
                    hydrated_status(turns, t)
                }),
                self.hooks_view().len() == 0,
                !self.closed_view(),
                self.header_view() is None,
            decreases items.len() - k,
        {
            let ghost before = base + turn_models(items@, hid, k as int);
            self.hydrate_item(&items[k], hidden, Ghost(before), Ghost(hid));
            proof {
                assert forall|id: Seq<char>|
                    #[trigger] phase_now(self.phases_view(), id) == phase_after_items(
                        items@,
                        id,
                        k + 1,
                        thread_phase(turns, id, t),
                    ) by {}
                match item_entry(items@[k as int], false, WebSearchLifecycle::Historical) {
                    Some(m) => if !hidden_item(items@[k as int], hid) {
                        assert(before.push(m) =~= base + turn_models(items@, hid, k + 1));
                    } else {
                        assert(before =~= base + turn_models(items@, hid, k + 1));
                    },
                    None => {
                        assert(before =~= base + turn_models(items@, hid, k + 1));
                    },
                }
            }
            k = k + 1;
        }
        assert(base + turn_models(items@, hid, items@.len() as int) =~= thread_models(turns, hid, t + 1));
        let ghost all = thread_models(turns, hid, t + 1);
        proof {
            assert forall|id: Seq<char>|
                #[trigger] phase_now(self.phases_view(), id) == thread_phase(turns, id, t + 1) by {
                assert(phase_now(self.phases_view(), id) == phase_after_items(
                    items@,
                    id,
                    items@.len() as int,
                    thread_phase(turns, id, t),
                ));
            }
        }
        if turn.status == TurnStatus::Completed && items.len() > 0 {
            if let Some(e) = project_item(&items[items.len() - 1], false) {
                let ghost id = e.id@;
                proof {
                    lemma_find_entry(self.entries@, id, 0);
                }
                if position_of_entry(&self.entries, e.id.as_str()).is_some() {
                    let ghost b0 = self.boundaries_view();
                    proof {
                        lemma_bound_for(b0, hydrated_bounds(turns, hid, t), id);
                        let i = find_entry(self.entries@, id, 0).unwrap();
                        assert(self.entries@[i].id@ == id);
                        assert(has_entry(self.entries@, id));
                        assert(model_id(all, id));
                    }
                    self.add_completion_boundary(e.id, elapsed_of(turn.duration_ms));
                    proof {
                        if self.boundaries_view() != b0 {
                            lemma_find_boundary_last(self.boundaries_view(), id, 0);
                        }
                        assert(find_boundary(self.boundaries_view(), id, 0) is Some);
                        let hb = hydrated_bounds(turns, hid, t + 1);
                        assert(bounds_are(self.boundaries_view(), hb)) by {
                            if find_boundary(b0, id, 0) is None {
                                let nb = self.boundaries_view();
                                assert(hb == hydrated_bounds(turns, hid, t).push((id, elapsed_seconds(turn.duration_ms))));
                                assert forall|j: int| 0 <= j < nb.len() implies (#[trigger] nb[j]).after_entry_id@ == hb[j].0
                                    && nb[j].elapsed_seconds == hb[j].1 by {
                                    if j < b0.len() {
                                        assert(nb[j] == b0[j]);
                                    }
                                }
                            }
                        }
                    }
                } else {
                    assert(!has_entry(self.entries@, id));
                    assert(!model_id(all, id));
                }
            }
        }
        proof {
            lemma_hydrate_bounds(turns, hid, t, start_bounds, self.boundaries_view());
        }
        if self.active_turn_id.is_none() {
            self.status = owned(turn_status(turn.status));
        }
    }
}

/// The first position, from `from` on, of a model with id `id`.
pub open spec fn find_model(ms: Seq<EntryModel>, id: Seq<char>, from: int) -> Option<int>
    decreases ms.len() - from,
{
    if from < 0 || from >= ms.len() {
        None
    } else if ms[from].id == id {
        Some(from)
    } else {
        find_model(ms, id, from + 1)
    }
}

/// The position of the first shown entry among the kept items from
/// position `from` of `kp` on: the position, in `cur`, of the entry of the
/// first such item whose entry is there.
pub open spec fn known_after(cur: Seq<EntryModel>, items: Seq<ThreadItem>, kp: Seq<int>, from: int) -> Option<int>
    decreases kp.len() - from,
{
    if from < 0 || from >= kp.len() {
        None
    } else {
        match item_entry(items[kp[from]], false, WebSearchLifecycle::Historical) {
            Some(m) => match find_model(cur, m.id, 0) {
                Some(p) => Some(p),
                None => known_after(cur, items, kp, from + 1),
            },
            None => known_after(cur, items, kp, from + 1),
        }
    }
}

/// The position of the last shown entry among the first `upto` kept items:
/// the position, in `cur`, of the entry of the last such item whose entry is
/// there.
pub open spec fn known_before(cur: Seq<EntryModel>, items: Seq<ThreadItem>, kp: Seq<int>, upto: int) -> Option<int>
    decreases upto,
{
    if upto <= 0 || upto > kp.len() {
        None
    } else {
        match item_entry(items[kp[upto - 1]], false, WebSearchLifecycle::Historical) {
            Some(m) => match find_model(cur, m.id, 0) {
                Some(p) => Some(p),
                None => known_before(cur, items, kp, upto - 1),
            },
            None => known_before(cur, items, kp, upto - 1),
        }
    }
}

/// Where the `index`-th repaired entry goes when its id is not shown:
/// before the entry of the nearest later kept item that is shown, else
/// after that of the nearest earlier one, else at the end.
pub open spec fn merge_pos(cur: Seq<EntryModel>, items: Seq<ThreadItem>, kp: Seq<int>, index: int) -> int {
    match known_after(cur, items, kp, index + 1) {
        Some(p) => p,
        None => match known_before(cur, items, kp, if index <= kp.len() { index } else { kp.len() as int }) {
            Some(p) => p + 1,
            None => cur.len() as int,
        },
    }
}

/// The entries after the first `n` repaired models are merged into
/// `start`: each replaces the entry with its id, or is inserted at its
/// `merge_pos`.
pub open spec fn merged(
    start: Seq<EntryModel>,
    ms: Seq<EntryModel>,
    items: Seq<ThreadItem>,
    kp: Seq<int>,
    n: int,
) -> Seq<EntryModel>
    decreases n,
{
    if n <= 0 {
        start
    } else {
        let c = merged(start, ms, items, kp, n - 1);
        let m = ms[n - 1];
        match find_model(c, m.id, 0) {
            Some(i) => c.update(i, m),
            None => c.insert(merge_pos(c, items, kp, n - 1), m),
        }
    }
}

proof fn lemma_find_model(ms: Seq<EntryModel>, id: Seq<char>, from: int)
    requires
        0 <= from,
    ensures
        find_model(ms, id, from) matches Some(i) ==> from <= i < ms.len() && ms[i].id == id,
    decreases ms.len() - from,
{
    if from < ms.len() && ms[from].id != id {
        lemma_find_model(ms, id, from + 1);
    }
}

proof fn lemma_known_after(cur: Seq<EntryModel>, items: Seq<ThreadItem>, kp: Seq<int>, from: int)
    ensures
        known_after(cur, items, kp, from) matches Some(p) ==> 0 <= p < cur.len(),
    decreases kp.len() - from,
{
    if 0 <= from < kp.len() {
        match item_entry(items[kp[from]], false, WebSearchLifecycle::Historical) {
            Some(m) => {
                lemma_find_model(cur, m.id, 0);
            },
            None => {},
        }
        lemma_known_after(cur, items, kp, from + 1);
    }
}

/// A repaired entry whose id is not shown goes right before the entry of
/// the nearest later item that is shown: a missing user message cannot
/// land after the reply that follows it.
pub proof fn lemma_repair_precedes_next_shown(
    start: Seq<EntryModel>,
    ms: Seq<EntryModel>,
    items: Seq<ThreadItem>,
    kp: Seq<int>,
    index: int,
)
    requires
        0 <= index < ms.len(),
        find_model(merged(start, ms, items, kp, index), ms[index].id, 0) is None,
        known_after(merged(start, ms, items, kp, index), items, kp, index + 1) is Some,
    ensures
        ({
            let c = merged(start, ms, items, kp, index);
            let p = known_after(c, items, kp, index + 1).unwrap();
            let r = merged(start, ms, items, kp, index + 1);
            &&& r[p] == ms[index]
            &&& r[p + 1] == c[p]
        }),
{
    let c = merged(start, ms, items, kp, index);
    lemma_known_after(c, items, kp, index + 1);
}

/// The plain values of entries.
pub open spec fn entry_models(es: Seq<TranscriptEntry>) -> Seq<EntryModel> {
    es.map_values(|e: TranscriptEntry| entry_model(e))
}

/// The model of an entry once its turn has ended with `to`: no longer
/// streaming, and settled.
pub open spec fn finished_model(m: EntryModel, to: Option<EntryStatus>) -> EntryModel {
    EntryModel { streaming: false, status: settled_status(m, to), ..m }
}

/// The models after `m` is recorded: it replaces the model with its id, or
/// comes last when there is none.
pub open spec fn record_model(ms: Seq<EntryModel>, m: EntryModel) -> Seq<EntryModel> {
    match find_model(ms, m.id, 0) {
        Some(i) => ms.update(i, m),
        None => ms.push(m),
    }
}

/// The entries shown after the models are recorded in order, starting
/// from none: each id where it first appeared, with its last model.
pub open spec fn recorded(ms: Seq<EntryModel>) -> Seq<EntryModel>
    decreases ms.len(),
{
    if ms.len() == 0 {
        ms
    } else {
        record_model(recorded(ms.drop_last()), ms.last())
    }
}

/// Whether one of the separators follows the entry with id `id`.
pub open spec fn bound_for(bs: Seq<(Seq<char>, Option<u64>)>, id: Seq<char>) -> bool {
    exists|k: int| 0 <= k < bs.len() && bs[k].0 == id
}

/// The separators placed while the first `t` turns are loaded: after each
/// completed turn, one after the entry of its last item, when that entry is
/// shown and has none yet, with the turn's elapsed seconds.
pub open spec fn hydrated_bounds(
    turns: Seq<crate::protocol::Turn>,
    hid: spec_fn(Seq<char>) -> bool,
    t: int,
) -> Seq<(Seq<char>, Option<u64>)>
    decreases t,
{
    if t <= 0 {
        Seq::empty()
    } else {
        let b = hydrated_bounds(turns, hid, t - 1);
        let turn = turns[t - 1];
        if turn.status == TurnStatus::Completed && turn.items@.len() > 0 {
            match item_entry(turn.items@.last(), false, WebSearchLifecycle::Historical) {
                Some(m) => if model_id(thread_models(turns, hid, t), m.id) && !bound_for(b, m.id) {
                    b.push((m.id, elapsed_seconds(turn.duration_ms)))
                } else {
                    b
                },
                None => b,
            }
        } else {
            b
        }
    }
}

proof fn lemma_find_model_entry(es: Seq<TranscriptEntry>, ms: Seq<EntryModel>, id: Seq<char>, from: int)
    requires
        entries_are(es, ms),
        0 <= from <= es.len(),
    ensures
        find_entry(es, id, from) == find_model(ms, id, from),
    decreases es.len() - from,
{
    if from < es.len() {
        assert(entry_is(es[from], ms[from]));
        if es[from].id@ != id {
            lemma_find_model_entry(es, ms, id, from + 1);
        }
    }
}

/// Putting an entry (replacing the one with its id, or inserting it at
/// `at`) puts its model the same way.
proof fn lemma_merge_step(
    es: Seq<TranscriptEntry>,
    cur: Seq<EntryModel>,
    e: TranscriptEntry,
    m: EntryModel,
    at: int,
    pos: int,
)
    requires
        entries_are(es, cur),
        entry_is(e, m),
        find_entry(es, e.id@, 0) is None ==> at == pos && 0 <= at <= es.len(),
    ensures
        entries_are(
            match find_entry(es, e.id@, 0) {
                Some(i) => es.update(i, e),
                None => es.insert(at, e),
            },
            match find_model(cur, m.id, 0) {
                Some(i) => cur.update(i, m),
                None => cur.insert(pos, m),
            },
        ),
{
    lemma_find_model_entry(es, cur, e.id@, 0);
    lemma_find_entry(es, e.id@, 0);
    match find_entry(es, e.id@, 0) {
        Some(i) => {
            let r = es.update(i, e);
            let rm = cur.update(i, m);
            assert forall|j: int| 0 <= j < r.len() implies entry_is(#[trigger] r[j], rm[j]) by {
                if j != i {
                    assert(entry_is(es[j], cur[j]));
                }
            }
        },
        None => {
            let r = es.insert(at, e);
            let rm = cur.insert(pos, m);
            assert forall|j: int| 0 <= j < r.len() implies entry_is(#[trigger] r[j], rm[j]) by {
                if j < at {
                    assert(entry_is(es[j], cur[j]));
                } else if j > at {
                    assert(entry_is(es[j - 1], cur[j - 1]));
                }
            }
        },
    }
}

/// Recording an entry records its model.
proof fn lemma_record_model(es: Seq<TranscriptEntry>, ms: Seq<EntryModel>, e: TranscriptEntry, m: EntryModel)
    requires
        entries_are(es, ms),
        entry_is(e, m),
    ensures
        entries_are(replaced(es, e), record_model(ms, m)),
{
    lemma_find_model_entry(es, ms, e.id@, 0);
    lemma_find_entry(es, e.id@, 0);
    let r = replaced(es, e);
    let rm = record_model(ms, m);
    match find_entry(es, e.id@, 0) {
        Some(i) => {
            assert forall|j: int| 0 <= j < r.len() implies entry_is(#[trigger] r[j], rm[j]) by {
                if j != i {
                    assert(entry_is(es[j], ms[j]));
                }
            }
        },
        None => {
            assert forall|j: int| 0 <= j < r.len() implies entry_is(#[trigger] r[j], rm[j]) by {
                if j < es.len() {
                    assert(entry_is(es[j], ms[j]));
                }
            }
        },
    }
}

/// With the separators as the pairs, a separator follows entry `id`
/// exactly when a pair names it.
proof fn lemma_bound_for(bs: Seq<CompletionBoundary>, ps: Seq<(Seq<char>, Option<u64>)>, id: Seq<char>)
    requires
        bounds_are(bs, ps),
    ensures
        find_boundary(bs, id, 0) is Some <==> bound_for(ps, id),
{
    lemma_find_boundary(bs, id, 0);
    if bound_for(ps, id) {
        let k = choose|k: int| 0 <= k < ps.len() && ps[k].0 == id;
        assert(bs[k].after_entry_id@ == id);
    }
    if find_boundary(bs, id, 0) is Some {
        let k = find_boundary(bs, id, 0).unwrap();
        assert(ps[k].0 == id);
    }
}

impl ConversationProjection {
    fn hydrate_item(
        &mut self,
        item: &ThreadItem,
        hidden: &Vec<String>,
        Ghost(ms): Ghost<Seq<EntryModel>>,
        Ghost(hid): Ghost<spec_fn(Seq<char>) -> bool>,
    )
        requires
            forall|id: Seq<char>| listed(hidden@, id) == hid(id),
            models_shown(old(self).entries_view(), ms),
            entries_are(old(self).entries_view(), recorded(ms)),
        ensures
            models_shown(
                final(self).entries_view(),
                if hidden_item(*item, hid) {
                    ms
                } else {
                    match item_entry(*item, false, WebSearchLifecycle::Historical) {
                        Some(m) => ms.push(m),
                        None => ms,
                    }
                },
            ),
            entries_are(
                final(self).entries_view(),
                recorded(
                    if hidden_item(*item, hid) {
                        ms
                    } else {
                        match item_entry(*item, false, WebSearchLifecycle::Historical) {
                            Some(m) => ms.push(m),
                            None => ms,
                        }
                    },
                ),
            ),
            final(self).review_view() == match *item {
                ThreadItem::EnteredReviewMode { .. } => true,
                ThreadItem::ExitedReviewMode { .. } => false,
                _ => old(self).review_view(),
            },
            forall|id: Seq<char>|
                #[trigger] phase_now(final(self).phases_view(), id) == match *item {
                    ThreadItem::AgentMessage { id: x, phase, .. } => if x@ == id {
                        phase
                    } else {
                        phase_now(old(self).phases_view(), id)
                    },
                    _ => phase_now(old(self).phases_view(), id),
                },
            final(self).boundaries_view() == old(self).boundaries_view(),
            final(self).active_turn_view() == old(self).active_turn_view(),
            final(self).status_view() == old(self).status_view(),
            final(self).hooks_view() == old(self).hooks_view(),
            final(self).closed_view() == old(self).closed_view(),
            final(self).header_view() == old(self).header_view(),
    {
        self.update_review_mode(item);
        self.record_item_phase(item);
        let hide = match crate::history_filter::user_message_id(item) {
            Some(id) => is_listed(hidden, id),
            None => false,
        };
        assert(hide == hidden_item(*item, hid));
        if !hide {
            if let Some(e) = project_item(item, false) {
                proof {
                    let m = item_entry(*item, false, WebSearchLifecycle::Historical).unwrap();
                    lemma_models_shown_push(self.entries@, ms, e, m);
                    lemma_record_model(self.entries@, recorded(ms), e, m);
                    assert(ms.push(m).drop_last() =~= ms);
                }
                self.replace_entry(e);
            }
        }
    }
}

/// Separators found before are found after more are appended, and the
/// separator of the turn that just ended is found when its entry is shown.
pub proof fn lemma_hydrate_bounds(
    turns: Seq<crate::protocol::Turn>,
    hid: spec_fn(Seq<char>) -> bool,
    t: int,
    before: Seq<CompletionBoundary>,
    after: Seq<CompletionBoundary>,
)
    requires
        0 <= t < turns.len(),
        after == before || (after.len() == before.len() + 1 && after.drop_last() == before),
        forall|u: int|
            0 <= u < t && (#[trigger] turns[u]).status == TurnStatus::Completed
                && turns[u].items@.len() > 0 ==> match item_entry(
                turns[u].items@.last(),
                false,
                WebSearchLifecycle::Historical,
            ) {
                Some(m) => model_id(thread_models(turns, hid, u + 1), m.id) ==> find_boundary(
                    before,
                    m.id,
                    0,
                ) is Some,
                None => true,
            },
        turns[t].status == TurnStatus::Completed && turns[t].items@.len() > 0 ==> match item_entry(
            turns[t].items@.last(),
            false,
            WebSearchLifecycle::Historical,
        ) {
            Some(m) => model_id(thread_models(turns, hid, t + 1), m.id) ==> find_boundary(
                after,
                m.id,
                0,
            ) is Some,
            None => true,
        },
    ensures
        forall|u: int|
            0 <= u < t + 1 && (#[trigger] turns[u]).status == TurnStatus::Completed
                && turns[u].items@.len() > 0 ==> match item_entry(
                turns[u].items@.last(),
                false,
                WebSearchLifecycle::Historical,
            ) {
                Some(m) => model_id(thread_models(turns, hid, u + 1), m.id) ==> find_boundary(
                    after,
                    m.id,
                    0,
                ) is Some,
                None => true,
            },
{
    assert forall|u: int|
        0 <= u < t + 1 && (#[trigger] turns[u]).status == TurnStatus::Completed
            && turns[u].items@.len() > 0 implies match item_entry(
            turns[u].items@.last(),
            false,
            WebSearchLifecycle::Historical,
        ) {
            Some(m) => model_id(thread_models(turns, hid, u + 1), m.id) ==> find_boundary(
                after,
                m.id,
                0,
            ) is Some,
            None => true,
        } by {
        if u < t {
            match item_entry(turns[u].items@.last(), false, WebSearchLifecycle::Historical) {
                Some(m) => {
                    if model_id(thread_models(turns, hid, u + 1), m.id) && after != before {
                        assert(after == before.push(after.last()));
                        lemma_find_boundary_push(before, after.last(), m.id, 0);
                    }
                },
                None => {},
            }
        }
    }
}

/// The models of the kept items whose ids no entry of `es` has, in order.
pub open spec fn new_models(ms: Seq<EntryModel>, es: Seq<TranscriptEntry>) -> Seq<EntryModel>
    decreases ms.len(),
{
    if ms.len() == 0 {
        ms
    } else if has_entry(es, ms.last().id) {
        new_models(ms.drop_last(), es)
    } else {
        new_models(ms.drop_last(), es).push(ms.last())
    }
}

/// The phase of message `id` after the kept items (`kept` positions of
/// `items`) are recorded over `before`.
pub open spec fn phase_after_kept(
    items: Seq<ThreadItem>,
    kept: Seq<int>,
    id: Seq<char>,
    before: Option<MessagePhase>,
) -> Option<MessagePhase>
    decreases kept.len(),
{
    if kept.len() == 0 {
        before
    } else {
        match items[kept.last()] {
            ThreadItem::AgentMessage { id: i, phase, .. } => if i@ == id {
                phase
            } else {
                phase_after_kept(items, kept.drop_last(), id, before)
            },
            _ => phase_after_kept(items, kept.drop_last(), id, before),
        }
    }
}

impl ConversationProjection {
    /// Prepends older history: the entries of the page's items (user
    /// messages inside a review left out) whose ids are not shown yet go
    /// before the current entries, in order; the assistant phases of those
    /// items are recorded.
    pub fn prepend_items(&mut self, items: Vec<ThreadItem>)
        ensures
            ({
                let kept = crate::history_filter::review_kept(items@, false, items@.len() as int);
                let older = new_models(
                    kept_models(items@, kept, WebSearchLifecycle::Historical),
                    old(self).entries_view(),
                );
                &&& final(self).entries_view().len() == older.len() + old(self).entries_view().len()
                &&& forall|i: int|
                    0 <= i < older.len() ==> entry_is(
                        #[trigger] final(self).entries_view()[i],
                        older[i],
                    )
                &&& forall|i: int|
                    0 <= i < old(self).entries_view().len() ==> final(self).entries_view()[older.len()
                        + i] == #[trigger] old(self).entries_view()[i]
                &&& forall|id: Seq<char>|
                    #[trigger] phase_now(final(self).phases_view(), id) == phase_after_kept(
                        items@,
                        kept,
                        id,
                        phase_now(old(self).phases_view(), id),
                    )
            }),
            final(self).boundaries_view() == old(self).boundaries_view(),
            final(self).active_turn_view() == old(self).active_turn_view(),
            final(self).status_view() == old(self).status_view(),
            final(self).review_view() == old(self).review_view(),
            final(self).hooks_view() == old(self).hooks_view(),
            final(self).closed_view() == old(self).closed_view(),
            final(self).header_view() == old(self).header_view(),
    {
        let kept = crate::history_filter::filter_review_mode_items(&items);
        let ghost kp = crate::history_filter::positions(kept@);
        proof {
            lemma_review_kept_bounds(items@, false, items@.len() as int);
            assert forall|j: int| 0 <= j < kept.len() implies #[trigger] kept@[j] < items.len() by {
                assert(kp[j] == kept@[j] as int);
            }
        }
        let ghost es = self.entries@;
        let mut older: Vec<TranscriptEntry> = Vec::new();
        let mut q: usize = 0;
        while q < kept.len()
            invariant
                q <= kept.len(),
                kp == crate::history_filter::positions(kept@),
                forall|j: int| 0 <= j < kept.len() ==> #[trigger] kept@[j] < items.len(),
                es == self.entries@,
                es == old(self).entries_view(),
                ({
                    let older_m = new_models(
                        kept_models(items@, kp.take(q as int), WebSearchLifecycle::Historical),
                        es,
                    );
                    &&& older@.len() == older_m.len()
                    &&& forall|i: int| 0 <= i < older@.len() ==> entry_is(#[trigger] older@[i], older_m[i])
                }),
                forall|id: Seq<char>|
                    #[trigger] phase_now(self.phases_view(), id) == phase_after_kept(
                        items@,
                        kp.take(q as int),
                        id,
                        phase_now(old(self).phases_view(), id),
                    ),
                self.boundaries_view() == old(self).boundaries_view(),
                self.active_turn_view() == old(self).active_turn_view(),
                self.status_view() == old(self).status_view(),
                self.review_view() == old(self).review_view(),
                self.hooks_view() == old(self).hooks_view(),
                self.closed_view() == old(self).closed_view(),
                self.header_view() == old(self).header_view(),
            decreases kept.len() - q,
        {
            let item = &items[kept[q]];
            assert(kp.take(q + 1).drop_last() =~= kp.take(q as int));
            assert(kp[q as int] == kept@[q as int] as int);
            let ghost ph = self.phases_view();
            self.record_item_phase(item);
            proof {
                assert forall|id: Seq<char>|
                    #[trigger] phase_now(self.phases_view(), id) == phase_after_kept(
                        items@,
                        kp.take(q + 1),
                        id,
                        phase_now(old(self).phases_view(), id),
                    ) by {
                    match items@[kp[q as int]] {
                        ThreadItem::AgentMessage { id: x, .. } => {
                            if x@ != id {
                                assert(phase_now(self.phases_view(), id) == phase_now(ph, id));
                            }
                        },
                        _ => {},
                    }
                }
            }
            let ghost ms_q = kept_models(items@, kp.take(q as int), WebSearchLifecycle::Historical);
            let ghost ms_q1 = kept_models(items@, kp.take(q + 1), WebSearchLifecycle::Historical);
            let ghost older0 = older@;
            assert(ms_q1 == match item_entry(items@[kp[q as int]], false, WebSearchLifecycle::Historical) {
                Some(m) => ms_q.push(m),
                None => ms_q,
            });
            if let Some(entry) = project_item(item, false) {
                let ghost m = item_entry(items@[kp[q as int]], false, WebSearchLifecycle::Historical).unwrap();
                assert(ms_q.push(m).drop_last() =~= ms_q);
                proof {
                    lemma_find_entry(es, entry.id@, 0);
                }
                if position_of_entry(&self.entries, entry.id.as_str()).is_none() {
                    older.push(entry);
                    assert(new_models(ms_q1, es) == new_models(ms_q, es).push(m));
                } else {
                    assert(new_models(ms_q1, es) == new_models(ms_q, es));
                }
            }
            q = q + 1;
        }
        assert(kp.take(kept.len() as int) =~= kp);
        assert forall|id: Seq<char>|
            #[trigger] phase_now(self.phases_view(), id) == phase_after_kept(
                items@,
                kp,
                id,
                phase_now(old(self).phases_view(), id),
            ) by {
            assert(kp.take(kept.len() as int) == kp);
        }
        let ghost phases = self.phases_view();
        if older.len() == 0 {
            assert(self.entries@ =~= Seq::<TranscriptEntry>::empty() + es);
            return ;
        }
        let ghost older_v = older@;
        older.append(&mut self.entries);
        self.entries = older;
        assert(self.entries@ =~= older_v + es);
        assert(self.phases_view() == phases);
    }
}

/// Whether `older` holds entries with ids that no entry of `es` has and no
/// other entry of `older` has.
pub open spec fn fresh_entries(older: Seq<TranscriptEntry>, es: Seq<TranscriptEntry>) -> bool {
    &&& forall|i: int| 0 <= i < older.len() ==> !has_entry(es, #[trigger] older[i].id@)
    &&& ids_unique(older)
}

/// Whether the new separators are after shown entries and after no entry
/// that already has one.
pub open spec fn fresh_boundaries(
    bs: Seq<CompletionBoundary>,
    known: Seq<CompletionBoundary>,
    es: Seq<TranscriptEntry>,
) -> bool {
    forall|i: int|
        0 <= i < bs.len() ==> has_entry(es, (#[trigger] bs[i]).after_entry_id@) && find_boundary(
            known,
            bs[i].after_entry_id@,
            0,
        ) is None
}

/// Entries with fresh ids in front keep ids unique.
pub proof fn lemma_prepend_keeps_ids_unique(older: Seq<TranscriptEntry>, es: Seq<TranscriptEntry>)
    requires
        fresh_entries(older, es),
        ids_unique(es),
    ensures
        ids_unique(older + es),
{
    let all = older + es;
    assert forall|i: int, j: int| 0 <= i < j < all.len() implies all[i].id@ != all[j].id@ by {
        if j >= older.len() && i < older.len() {
            assert(all[j] == es[j - older.len()]);
            assert(!has_entry(es, older[i].id@));
        }
        if i >= older.len() {
            assert(all[i] == es[i - older.len()]);
            assert(all[j] == es[j - older.len()]);
        }
    }
}

fn has_id(es: &Vec<TranscriptEntry>, id: &str) -> (r: bool)
    ensures
        r == has_entry(es@, id@),
{
    proof {
        lemma_find_entry(es@, id@, 0);
    }
    position_of_entry(es, id).is_some()
}

/// Whether an item is a user message whose id is listed as hidden.
pub open spec fn hidden_by_list(item: ThreadItem, hidden: Seq<String>) -> bool {
    match crate::history_filter::user_id(item) {
        Some(id) => listed(hidden, id),
        None => false,
    }
}

/// The positions of a group's items that stay outside review mode.
pub open spec fn group_kept(items: Seq<ThreadItem>) -> Seq<int> {
    crate::history_filter::review_kept(items, false, items.len() as int)
}

/// The entries of the kept items (`kept` positions of `items`) that are
/// not hidden, in order.
pub open spec fn shown_models(items: Seq<ThreadItem>, kept: Seq<int>, hidden: Seq<String>) -> Seq<EntryModel>
    decreases kept.len(),
{
    if kept.len() == 0 {
        Seq::empty()
    } else {
        let init = shown_models(items, kept.drop_last(), hidden);
        let item = items[kept.last()];
        if hidden_by_list(item, hidden) {
            init
        } else {
            match item_entry(item, false, WebSearchLifecycle::Historical) {
                Some(m) => init.push(m),
                None => init,
            }
        }
    }
}

/// Whether one of the entries has the id.
pub open spec fn has_model(ms: Seq<EntryModel>, id: Seq<char>) -> bool {
    exists|i: int| 0 <= i < ms.len() && ms[i].id == id
}

/// `older`, followed by the entries of `ms` whose ids are neither shown in
/// `es` nor added before them, in order.
pub open spec fn add_fresh(older: Seq<EntryModel>, ms: Seq<EntryModel>, es: Seq<TranscriptEntry>) -> Seq<EntryModel>
    decreases ms.len(),
{
    if ms.len() == 0 {
        older
    } else {
        let o = add_fresh(older, ms.drop_last(), es);
        if has_entry(es, ms.last().id) || has_model(o, ms.last().id) {
            o
        } else {
            o.push(ms.last())
        }
    }
}

/// The id of the entry of a group's last item, if it has one.
pub open spec fn group_final_id(items: Seq<ThreadItem>) -> Option<Seq<char>> {
    if items.len() > 0 {
        match item_entry(items.last(), false, WebSearchLifecycle::Historical) {
            Some(m) => Some(m.id),
            None => None,
        }
    } else {
        None
    }
}

/// The entries that the groups add before the current entries `es`.
pub open spec fn grouped_older(
    groups: Seq<(Vec<ThreadItem>, Option<CompletionMetadata>)>,
    hidden: Seq<String>,
    es: Seq<TranscriptEntry>,
) -> Seq<EntryModel>
    decreases groups.len(),
{
    if groups.len() == 0 {
        Seq::empty()
    } else {
        let items = groups.last().0@;
        add_fresh(
            grouped_older(groups.drop_last(), hidden, es),
            shown_models(items, group_kept(items), hidden),
            es,
        )
    }
}

/// The separators (entry id, elapsed seconds) that the groups add: one
/// after the entry of a completed group's last item, when that entry is
/// shown once the group is added and no separator of `known` follows it.
pub open spec fn grouped_bounds(
    groups: Seq<(Vec<ThreadItem>, Option<CompletionMetadata>)>,
    hidden: Seq<String>,
    es: Seq<TranscriptEntry>,
    known: Seq<CompletionBoundary>,
) -> Seq<(Seq<char>, Option<u64>)>
    decreases groups.len(),
{
    if groups.len() == 0 {
        Seq::empty()
    } else {
        let b = grouped_bounds(groups.drop_last(), hidden, es, known);
        let items = groups.last().0@;
        let older = grouped_older(groups, hidden, es);
        match (group_final_id(items), groups.last().1) {
            (Some(id), Some(meta)) => if (has_entry(es, id) || has_model(older, id)) && find_boundary(
                known,
                id,
                0,
            ) is None {
                b.push((id, meta.elapsed_seconds))
            } else {
                b
            },
            _ => b,
        }
    }
}

/// The phase of message `id` after the kept items of the groups are
/// recorded over `before`.
pub open spec fn grouped_phase(
    groups: Seq<(Vec<ThreadItem>, Option<CompletionMetadata>)>,
    id: Seq<char>,
    before: Option<MessagePhase>,
) -> Option<MessagePhase>
    decreases groups.len(),
{
    if groups.len() == 0 {
        before
    } else {
        let items = groups.last().0@;
        phase_after_kept(items, group_kept(items), id, grouped_phase(groups.drop_last(), id, before))
    }
}

/// Whether `id` is the entry of the last item of a completed group.
pub open spec fn completed_group_tail(
    groups: Seq<(Vec<ThreadItem>, Option<CompletionMetadata>)>,
    id: Seq<char>,
) -> bool {
    exists|g: int|
        0 <= g < groups.len() && groups[g].1 is Some && #[trigger] group_final_id(groups[g].0@)
            == Some(id)
}

/// A separator of grouped history follows the entry of the last item of a
/// completed group, never an earlier entry of it: hiding that item's user
/// message does not move the separator.
pub proof fn lemma_grouped_bounds_follow_group_tails(
    groups: Seq<(Vec<ThreadItem>, Option<CompletionMetadata>)>,
    hidden: Seq<String>,
    es: Seq<TranscriptEntry>,
    known: Seq<CompletionBoundary>,
)
    ensures
        forall|i: int|
            0 <= i < grouped_bounds(groups, hidden, es, known).len() ==> completed_group_tail(
                groups,
                (#[trigger] grouped_bounds(groups, hidden, es, known)[i]).0,
            ),
    decreases groups.len(),
{
    if groups.len() > 0 {
        let pre = groups.drop_last();
        lemma_grouped_bounds_follow_group_tails(pre, hidden, es, known);
        let b = grouped_bounds(pre, hidden, es, known);
        let r = grouped_bounds(groups, hidden, es, known);
        assert forall|i: int| 0 <= i < r.len() implies completed_group_tail(groups, (#[trigger] r[i]).0) by {
            if i < b.len() {
                assert(r[i] == b[i]);
                assert(completed_group_tail(pre, b[i].0));
                let g = choose|g: int|
                    0 <= g < pre.len() && pre[g].1 is Some && #[trigger] group_final_id(pre[g].0@)
                        == Some(b[i].0);
                assert(groups[g] == pre[g]);
            } else {
                let g = groups.len() - 1;
                assert(group_final_id(groups[g].0@) == Some(r[i].0));
            }
        }
    }
}

/// Whether the entries are exactly the models, in order.
pub open spec fn entries_are(es: Seq<TranscriptEntry>, ms: Seq<EntryModel>) -> bool {
    es.len() == ms.len() && forall|i: int| 0 <= i < es.len() ==> entry_is(#[trigger] es[i], ms[i])
}

/// Whether the separators are exactly the (entry id, elapsed seconds)
/// pairs, in order.
pub open spec fn bounds_are(bs: Seq<CompletionBoundary>, ms: Seq<(Seq<char>, Option<u64>)>) -> bool {
    bs.len() == ms.len() && forall|i: int|
        0 <= i < bs.len() ==> (#[trigger] bs[i]).after_entry_id@ == ms[i].0 && bs[i].elapsed_seconds
            == ms[i].1
}

proof fn lemma_has_model(es: Seq<TranscriptEntry>, ms: Seq<EntryModel>, id: Seq<char>)
    requires
        entries_are(es, ms),
    ensures
        has_entry(es, id) == has_model(ms, id),
{
    if has_entry(es, id) {
        let k = choose|k: int| 0 <= k < es.len() && es[k].id@ == id;
        assert(entry_is(es[k], ms[k]));
    }
    if has_model(ms, id) {
        let k = choose|k: int| 0 <= k < ms.len() && ms[k].id == id;
        assert(entry_is(es[k], ms[k]));
    }
}

impl ConversationProjection {
    /// Adds the entries of one group's shown items to `older`: the kept,
    /// not hidden items whose entries are shown nowhere yet; records the
    /// phases of the kept items.
    fn add_group_entries(
        &mut self,
        items: &Vec<ThreadItem>,
        hidden_ids: &[String],
        older: &mut Vec<TranscriptEntry>,
        bounds: &Vec<CompletionBoundary>,
        Ghost(om): Ghost<Seq<EntryModel>>,
    )
        requires
            entries_are(old(older)@, om),
            fresh_entries(old(older)@, old(self).entries_view()),
            fresh_boundaries(bounds@, old(self).boundaries_view(), old(older)@ + old(self).entries_view()),
        ensures
            entries_are(
                final(older)@,
                add_fresh(
                    om,
                    shown_models(items@, group_kept(items@), hidden_ids@),
                    old(self).entries_view(),
                ),
            ),
            fresh_entries(final(older)@, old(self).entries_view()),
            fresh_boundaries(bounds@, old(self).boundaries_view(), final(older)@ + old(self).entries_view()),
            forall|id: Seq<char>|
                #[trigger] phase_now(final(self).phases_view(), id) == phase_after_kept(
                    items@,
                    group_kept(items@),
                    id,
                    phase_now(old(self).phases_view(), id),
                ),
            final(self).entries_view() == old(self).entries_view(),
            final(self).boundaries_view() == old(self).boundaries_view(),
            final(self).active_turn_view() == old(self).active_turn_view(),
            final(self).status_view() == old(self).status_view(),
            final(self).review_view() == old(self).review_view(),
            final(self).hooks_view() == old(self).hooks_view(),
            final(self).closed_view() == old(self).closed_view(),
            final(self).header_view() == old(self).header_view(),
    {
        let ghost es = self.entries@;
        let ghost known = self.completion_boundaries@;
        let kept = crate::history_filter::filter_review_mode_items(items);
        let ghost kp = crate::history_filter::positions(kept@);
        proof {
            lemma_review_kept_bounds(items@, false, items@.len() as int);
            assert forall|j: int| 0 <= j < kept.len() implies #[trigger] kept@[j] < items.len() by {
                assert(kp[j] == kept@[j] as int);
            }
            assert(kp.take(0) =~= Seq::<int>::empty());
        }
        let mut q: usize = 0;
        while q < kept.len()
            invariant
                q <= kept.len(),
                kp == crate::history_filter::positions(kept@),
                kp == group_kept(items@),
                forall|j: int| 0 <= j < kept.len() ==> #[trigger] kept@[j] < items.len(),
                es == self.entries@,
                es == old(self).entries_view(),
                known == self.completion_boundaries@,
                known == old(self).boundaries_view(),
                entries_are(older@, add_fresh(om, shown_models(items@, kp.take(q as int), hidden_ids@), es)),
                fresh_entries(older@, es),
                fresh_boundaries(bounds@, known, older@ + es),
                forall|id: Seq<char>|
                    #[trigger] phase_now(self.phases_view(), id) == phase_after_kept(
                        items@,
                        kp.take(q as int),
                        id,
                        phase_now(old(self).phases_view(), id),
                    ),
                self.active_turn_view() == old(self).active_turn_view(),
                self.status_view() == old(self).status_view(),
                self.review_view() == old(self).review_view(),
                self.hooks_view() == old(self).hooks_view(),
                self.closed_view() == old(self).closed_view(),
                self.header_view() == old(self).header_view(),
            decreases kept.len() - q,
        {
            let item = &items[kept[q]];
            assert(kp.take(q + 1).drop_last() =~= kp.take(q as int));
            assert(kp[q as int] == kept@[q as int] as int);
            assert(kp.take(q + 1).last() == kp[q as int]);
            let ghost ms_q = shown_models(items@, kp.take(q as int), hidden_ids@);
            let ghost ms_q1 = shown_models(items@, kp.take(q + 1), hidden_ids@);
            let ghost ph = self.phases_view();
            let hide = match crate::history_filter::user_message_id(item) {
                Some(id) => is_listed(hidden_ids, id),
                None => false,
            };
            if hide {
                assert(ms_q1 == ms_q);
                assert forall|id: Seq<char>|
                    #[trigger] phase_now(self.phases_view(), id) == phase_after_kept(
                        items@,
                        kp.take(q + 1),
                        id,
                        phase_now(old(self).phases_view(), id),
                    ) by {
                    assert(items@[kp[q as int]] is UserMessage);
                }
            } else {
                self.record_item_phase(item);
                proof {
                    assert forall|id: Seq<char>|
                        #[trigger] phase_now(self.phases_view(), id) == phase_after_kept(
                            items@,
                            kp.take(q + 1),
                            id,
                            phase_now(old(self).phases_view(), id),
                        ) by {
                        match items@[kp[q as int]] {
                            ThreadItem::AgentMessage { id: x, .. } => {
                                if x@ != id {
                                    assert(phase_now(self.phases_view(), id) == phase_now(ph, id));
                                }
                            },
                            _ => {},
                        }
                    }
                }
                if let Some(entry) = project_item(item, false) {
                    let ghost m = item_entry(items@[kp[q as int]], false, WebSearchLifecycle::Historical).unwrap();
                    assert(ms_q1 == ms_q.push(m));
                    assert(ms_q.push(m).drop_last() =~= ms_q);
                    let ghost o_m = add_fresh(om, ms_q, es);
                    proof {
                        lemma_has_model(older@, o_m, entry.id@);
                    }
                    if !has_id(&self.entries, entry.id.as_str()) && !has_id(&older, entry.id.as_str()) {
                        let ghost o0 = older@;
                        older.push(entry);
                        proof {
                            assert(add_fresh(om, ms_q1, es) == o_m.push(m));
                            assert forall|i: int, j: int| 0 <= i < j < older@.len() implies older@[i].id@
                                != older@[j].id@ by {
                                if j == o0.len() {
                                    assert(!has_entry(o0, older@[j].id@));
                                }
                            }
                            assert forall|i: int| 0 <= i < bounds@.len() implies has_entry(
                                older@ + es,
                                (#[trigger] bounds@[i]).after_entry_id@,
                            ) && find_boundary(known, bounds@[i].after_entry_id@, 0) is None by {
                                let x = bounds@[i].after_entry_id@;
                                let k = choose|k: int| 0 <= k < (o0 + es).len() && (o0 + es)[k].id@ == x;
                                if k < o0.len() {
                                    assert((older@ + es)[k] == (o0 + es)[k]);
                                } else {
                                    assert((older@ + es)[k + 1] == (o0 + es)[k]);
                                }
                            }
                            assert(entries_are(older@, o_m.push(m)));
                        }
                    } else {
                        assert(add_fresh(om, ms_q1, es) == o_m);
                    }
                } else {
                    assert(ms_q1 == ms_q);
                }
            }
            q = q + 1;
        }
        assert(kp.take(kept.len() as int) =~= kp);
    }

    /// Prepends grouped older history (`grouped_older`): each group's
    /// items, user messages inside a review or listed as hidden left out,
    /// add the entries whose ids are shown nowhere yet, before the current
    /// entries; a completed group gets its separator after the entry of its
    /// last item when that entry is shown and has no separator yet
    /// (`grouped_bounds`); the phases of the kept items are recorded.
    pub fn prepend_grouped_items_with_hidden_ids(
        &mut self,
        groups: Vec<(Vec<ThreadItem>, Option<CompletionMetadata>)>,
        hidden_ids: &[String],
    )
        ensures
            ({
                let older = grouped_older(groups@, hidden_ids@, old(self).entries_view());
                &&& final(self).entries_view().len() == older.len() + old(self).entries_view().len()
                &&& entries_are(final(self).entries_view().take(older.len() as int), older)
                &&& final(self).entries_view().skip(older.len() as int) == old(self).entries_view()
                &&& fresh_entries(final(self).entries_view().take(older.len() as int), old(self).entries_view())
            }),
            ({
                let bs = grouped_bounds(
                    groups@,
                    hidden_ids@,
                    old(self).entries_view(),
                    old(self).boundaries_view(),
                );
                &&& final(self).boundaries_view().len() == bs.len() + old(self).boundaries_view().len()
                &&& bounds_are(final(self).boundaries_view().take(bs.len() as int), bs)
                &&& final(self).boundaries_view().skip(bs.len() as int) == old(self).boundaries_view()
                &&& fresh_boundaries(
                    final(self).boundaries_view().take(bs.len() as int),
                    old(self).boundaries_view(),
                    final(self).entries_view(),
                )
            }),
            forall|id: Seq<char>|
                #[trigger] phase_now(final(self).phases_view(), id) == grouped_phase(
                    groups@,
                    id,
                    phase_now(old(self).phases_view(), id),
                ),
            final(self).active_turn_view() == old(self).active_turn_view(),
            final(self).status_view() == old(self).status_view(),
            final(self).review_view() == old(self).review_view(),
            final(self).hooks_view() == old(self).hooks_view(),
            final(self).closed_view() == old(self).closed_view(),
            final(self).header_view() == old(self).header_view(),
    {
        let ghost es = self.entries@;
        let ghost known = self.completion_boundaries@;
        let ghost all = groups@;
        let ghost hidden = hidden_ids@;
        let mut older: Vec<TranscriptEntry> = Vec::new();
        let mut bounds: Vec<CompletionBoundary> = Vec::new();
        let mut groups = groups;
        let n = groups.len();
        let mut g: usize = 0;
        assert(all.take(0) =~= Seq::<(Vec<ThreadItem>, Option<CompletionMetadata>)>::empty());
        while g < n
            invariant
                g <= n,
                n == all.len(),
                groups@ == all.skip(g as int),
                hidden == hidden_ids@,
                es == self.entries@,
                es == old(self).entries_view(),
                known == self.completion_boundaries@,
                known == old(self).boundaries_view(),
                entries_are(older@, grouped_older(all.take(g as int), hidden, es)),
                bounds_are(bounds@, grouped_bounds(all.take(g as int), hidden, es, known)),
                fresh_entries(older@, es),
                fresh_boundaries(bounds@, known, older@ + es),
                forall|id: Seq<char>|
                    #[trigger] phase_now(self.phases_view(), id) == grouped_phase(
                        all.take(g as int),
                        id,
                        phase_now(old(self).phases_view(), id),
                    ),
                self.active_turn_view() == old(self).active_turn_view(),
                self.status_view() == old(self).status_view(),
                self.review_view() == old(self).review_view(),
                self.hooks_view() == old(self).hooks_view(),
                self.closed_view() == old(self).closed_view(),
                self.header_view() == old(self).header_view(),
            decreases n - g,
        {
            let (items, completion) = groups.remove(0);
            let ghost group = all[g as int];
            assert(group == (items, completion));
            assert(all.skip(g + 1) =~= all.skip(g as int).drop_first());
            let ghost pre = all.take(g as int);
            let ghost post = all.take(g + 1);
            assert(post.drop_last() =~= pre);
            assert(post.last() == group);
            let final_entry_id: Option<String> = if items.len() > 0 {
                match project_item(&items[items.len() - 1], false) {
                    Some(e) => Some(e.id),
                    None => None,
                }
            } else {
                None
            };
            assert(match final_entry_id {
                Some(x) => group_final_id(items@) == Some(x@),
                None => group_final_id(items@) is None,
            });
            let ghost ph = self.phases_view();
            self.add_group_entries(&items, hidden_ids, &mut older, &bounds, Ghost(grouped_older(pre, hidden, es)));
            assert(grouped_older(post, hidden, es) == add_fresh(
                grouped_older(pre, hidden, es),
                shown_models(items@, group_kept(items@), hidden),
                es,
            ));
            assert forall|id: Seq<char>|
                #[trigger] phase_now(self.phases_view(), id) == grouped_phase(
                    post,
                    id,
                    phase_now(old(self).phases_view(), id),
                ) by {
                assert(phase_now(ph, id) == grouped_phase(pre, id, phase_now(old(self).phases_view(), id)));
            }
            let ghost b_pre = grouped_bounds(pre, hidden, es, known);
            if let (Some(id), Some(meta)) = (final_entry_id, completion) {
                proof {
                    lemma_has_model(older@, grouped_older(post, hidden, es), id@);
                }
                let shown_now = has_id(&self.entries, id.as_str()) || has_id(&older, id.as_str());
                let mut known_now = false;
                let mut k: usize = 0;
                while k < self.completion_boundaries.len()
                    invariant
                        k <= self.completion_boundaries.len(),
                        known == self.completion_boundaries@,
                        !known_now ==> find_boundary(known, id@, 0) == find_boundary(known, id@, k as int),
                        known_now ==> find_boundary(known, id@, 0) is Some,
                    decreases self.completion_boundaries.len() - k,
                {
                    if str_eq(self.completion_boundaries[k].after_entry_id.as_str(), id.as_str()) {
                        known_now = true;
                    }
                    k = k + 1;
                }
                if shown_now && !known_now {
                    proof {
                        if has_entry(es, id@) {
                            let k = choose|k: int| 0 <= k < es.len() && es[k].id@ == id@;
                            assert((older@ + es)[older@.len() + k] == es[k]);
                        } else {
                            let k = choose|k: int| 0 <= k < older@.len() && older@[k].id@ == id@;
                            assert((older@ + es)[k] == older@[k]);
                        }
                    }
                    let ghost el = meta.elapsed_seconds;
                    bounds.push(CompletionBoundary { after_entry_id: id, elapsed_seconds: meta.elapsed_seconds });
                    assert(grouped_bounds(post, hidden, es, known) == b_pre.push((id@, el)));
                } else {
                    assert(grouped_bounds(post, hidden, es, known) == b_pre);
                }
            } else {
                assert(grouped_bounds(post, hidden, es, known) == b_pre);
            }
            g = g + 1;
        }
        assert(all.take(n as int) =~= all);
        assert forall|id: Seq<char>|
            #[trigger] phase_now(self.phases_view(), id) == grouped_phase(
                all,
                id,
                phase_now(old(self).phases_view(), id),
            ) by {
            assert(all.take(n as int) == all);
        }
        let ghost older_v = older@;
        let ghost bounds_v = bounds@;
        if older.len() > 0 {
            older.append(&mut self.entries);
            self.entries = older;
        } else {
            assert(older_v + es =~= es);
        }
        assert(self.entries@ =~= older_v + es);
        assert(self.entries@.skip(older_v.len() as int) =~= es);
        assert(self.entries@.take(older_v.len() as int) =~= older_v);
        bounds.append(&mut self.completion_boundaries);
        self.completion_boundaries = bounds;
        assert(self.completion_boundaries@ =~= bounds_v + known);
        assert(self.completion_boundaries@.skip(bounds_v.len() as int) =~= known);
        assert(self.completion_boundaries@.take(bounds_v.len() as int) =~= bounds_v);
    }
}

/// Recording an entry keeps entry ids unique, and the recorded entry is the
/// one found by its id: a read after a write gives the write back.
pub proof fn lemma_replace_keeps_ids_unique(es: Seq<TranscriptEntry>, e: TranscriptEntry)
    requires
        ids_unique(es),
    ensures
        ids_unique(replaced(es, e)),
        has_entry(replaced(es, e), e.id@),
        match find_entry(replaced(es, e), e.id@, 0) {
            Some(i) => replaced(es, e)[i] == e,
            None => false,
        },
        replaced(es, e).len() <= es.len() + 1,
{
    lemma_replaced(es, e);
    lemma_find_entry(es, e.id@, 0);
    let n = replaced(es, e);
    match find_entry(es, e.id@, 0) {
        Some(i) => {
            assert forall|a: int, b: int| 0 <= a < b < n.len() implies n[a].id@ != n[b].id@ by {
                assert(n[a].id@ == es[a].id@);
                assert(n[b].id@ == es[b].id@);
            }
        },
        None => {
            assert forall|a: int, b: int| 0 <= a < b < n.len() implies n[a].id@ != n[b].id@ by {
                if b == es.len() {
                    assert(n[a] == es[a]);
                }
            }
        },
    }
}

/// A stream delta keeps entry ids unique.
pub proof fn lemma_delta_keeps_ids_unique(
    es: Seq<TranscriptEntry>,
    after: Seq<TranscriptEntry>,
    closed: bool,
    id: Seq<char>,
    kind: EntryKind,
    delta: Seq<char>,
)
    requires
        ids_unique(es),
        delta_applied(es, after, closed, id, kind, delta),
    ensures
        ids_unique(after),
{
    lemma_find_entry(es, id, 0);
    match find_entry(es, id, 0) {
        Some(i) => {
            if es[i].streaming {
                assert forall|a: int, b: int| 0 <= a < b < after.len() implies after[a].id@
                    != after[b].id@ by {
                    assert(after[a].id@ == es[a].id@);
                    assert(after[b].id@ == es[b].id@);
                }
            }
        },
        None => {
            if !closed {
                assert forall|a: int, b: int| 0 <= a < b < after.len() implies after[a].id@
                    != after[b].id@ by {
                    if b < es.len() {
                        assert(after[a] == es[a]);
                        assert(after[b] == es[b]);
                    } else {
                        assert(after[a] == es[a]);
                    }
                }
            }
        },
    }
}

/// No two separators follow the same entry.
pub open spec fn boundaries_unique(bs: Seq<CompletionBoundary>) -> bool {
    forall|i: int, j: int| 0 <= i < j < bs.len() ==> bs[i].after_entry_id@ != bs[j].after_entry_id@
}

/// `find_boundary` finds the first separator after the entry, and none
/// when there is none.
pub proof fn lemma_find_boundary(bs: Seq<CompletionBoundary>, x: Seq<char>, from: int)
    requires
        0 <= from <= bs.len(),
    ensures
        match find_boundary(bs, x, from) {
            Some(i) => from <= i < bs.len() && bs[i].after_entry_id@ == x,
            None => forall|j: int| from <= j < bs.len() ==> bs[j].after_entry_id@ != x,
        },
    decreases bs.len() - from,
{
    if from < bs.len() {
        lemma_find_boundary(bs, x, from + 1);
    }
}

/// Placing a separator keeps separators unique: one is added only after an
/// entry without one.
pub proof fn lemma_add_boundary_keeps_unique(
    bs: Seq<CompletionBoundary>,
    after: Seq<CompletionBoundary>,
    x: Seq<char>,
)
    requires
        boundaries_unique(bs),
        find_boundary(bs, x, 0) is Some ==> after == bs,
        find_boundary(bs, x, 0) is None ==> after.drop_last() == bs && after.len() == bs.len() + 1
            && after.last().after_entry_id@ == x,
    ensures
        boundaries_unique(after),
{
    lemma_find_boundary(bs, x, 0);
    if find_boundary(bs, x, 0) is None {
        assert forall|i: int, j: int| 0 <= i < j < after.len() implies after[i].after_entry_id@
            != after[j].after_entry_id@ by {
            assert(after[i] == bs[i]);
            if j < bs.len() {
                assert(after[j] == bs[j]);
            }
        }
    }
}

/// Removing hidden entries leaves exactly the entries that are not listed,
/// in order: none of them is listed, and each entry that is not listed
/// stays.
pub proof fn lemma_visible_entries(es: Seq<TranscriptEntry>, hidden: Seq<String>)
    ensures
        forall|i: int|
            0 <= i < visible_entries(es, hidden).len() ==> !listed(
                hidden,
                (#[trigger] visible_entries(es, hidden)[i]).id@,
            ),
        forall|i: int|
            0 <= i < es.len() && !listed(hidden, (#[trigger] es[i]).id@) ==> exists|k: int|
                0 <= k < visible_entries(es, hidden).len() && visible_entries(es, hidden)[k] == es[i],
        visible_entries(es, hidden).len() <= es.len(),
    decreases es.len(),
{
    if es.len() > 0 {
        let init = es.drop_last();
        lemma_visible_entries(init, hidden);
        let v0 = visible_entries(init, hidden);
        let v = visible_entries(es, hidden);
        assert forall|i: int| 0 <= i < v.len() implies !listed(hidden, (#[trigger] v[i]).id@) by {
            if i < v0.len() {
                assert(v[i] == v0[i]);
            }
        }
        assert forall|i: int| 0 <= i < es.len() && !listed(hidden, (#[trigger] es[i]).id@) implies exists|k: int|
            0 <= k < v.len() && v[k] == es[i] by {
            if i < es.len() - 1 {
                assert(es[i] == init[i]);
                let k = choose|k: int| 0 <= k < v0.len() && v0[k] == init[i];
                assert(v[k] == v0[k]);
            } else {
                assert(v[v.len() - 1] == es[i]);
            }
        }
    }
}

} // verus!
