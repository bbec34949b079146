//! Transcript cells: each cell is presented through the transcript entry it
//! stands for, so the cells here say which entry that is.
use vstd::prelude::*;

use crate::history_cell::{join_parts, joined};
use crate::locale::Locale;
use crate::projection::items::{join_lines, join_strings, views};
use crate::projection::{EntryKind, TranscriptEntry};
use crate::text::{owned, push_char};

verus! {

/// The entry of a message: no id, no status and no summary.
pub open spec fn is_message_entry(
    e: TranscriptEntry,
    kind: EntryKind,
    text: Seq<char>,
    streaming: bool,
) -> bool {
    &&& e.id@ == Seq::<char>::empty()
    &&& e.kind == kind
    &&& e.text@ == text
    &&& e.streaming == streaming
    &&& e.status is None
    &&& e.summary@.len() == 0
}

/// The transcript entry of a message of the given kind.
pub fn message_entry(kind: EntryKind, text: String, streaming: bool) -> (r: TranscriptEntry)
    ensures
        is_message_entry(r, kind, text@, streaming),
{
    TranscriptEntry {
        id: String::new(),
        kind,
        text,
        streaming,
        status: None,
        summary: Vec::new(),
    }
}

/// A cell presenting one entry of the projection.
pub struct TranscriptHistoryCell {
    entry: TranscriptEntry,
    locale: Locale,
    cwd: String,
}

impl TranscriptHistoryCell {
    /// The entry presented.
    pub closed spec fn entry_value(&self) -> TranscriptEntry {
        self.entry
    }

    /// The locale its labels are in.
    pub closed spec fn locale_value(&self) -> Locale {
        self.locale
    }

    /// The directory paths are shown relative to.
    pub closed spec fn cwd_value(&self) -> Seq<char> {
        self.cwd@
    }

    /// A cell for `entry`.
    pub fn new(entry: TranscriptEntry, locale: Locale, cwd: String) -> (r: TranscriptHistoryCell)
        ensures
            r.entry_value() == entry,
            r.locale_value() == locale,
            r.cwd_value() == cwd@,
    {
        TranscriptHistoryCell { entry, locale, cwd }
    }

    /// The entry presented.
    pub fn entry(&self) -> (r: &TranscriptEntry)
        ensures
            *r == self.entry_value(),
    {
        &self.entry
    }

    /// The locale its labels are in.
    pub fn locale(&self) -> (r: Locale)
        ensures
            r == self.locale_value(),
    {
        self.locale
    }

    /// The directory paths are shown relative to.
    pub fn cwd(&self) -> (r: &str)
        ensures
            r@ == self.cwd_value(),
    {
        self.cwd.as_str()
    }

    /// Whether the cell continues a stream: its entry is still streaming.
    pub fn is_stream_continuation(&self) -> (r: bool)
        ensures
            r == self.entry_value().streaming,
    {
        self.entry.streaming
    }
}

/// A cell of fixed lines.
pub struct PlainHistoryCell {
    pub lines: Vec<String>,
}

impl PlainHistoryCell {
    pub fn new(lines: Vec<String>) -> (r: PlainHistoryCell)
        ensures
            r.lines@ == lines@,
    {
        PlainHistoryCell { lines }
    }
}

/// A cell of lines that carry their own links.
pub struct WebHyperlinkHistoryCell {
    pub lines: Vec<String>,
}

impl WebHyperlinkHistoryCell {
    pub fn new_hyperlink_lines(lines: Vec<String>) -> (r: WebHyperlinkHistoryCell)
        ensures
            r.lines@ == lines@,
    {
        WebHyperlinkHistoryCell { lines }
    }
}

/// A message the user sent.
pub struct UserHistoryCell {
    pub message: String,
    pub local_image_paths: Vec<String>,
    pub remote_image_urls: Vec<String>,
}

impl UserHistoryCell {
    pub fn new(message: String) -> (r: UserHistoryCell)
        ensures
            r.message@ == message@,
            r.local_image_paths@.len() == 0,
            r.remote_image_urls@.len() == 0,
    {
        UserHistoryCell { message, local_image_paths: Vec::new(), remote_image_urls: Vec::new() }
    }

    /// The user message entry.
    pub fn entry(&self) -> (r: TranscriptEntry)
        ensures
            is_message_entry(r, EntryKind::User, self.message@, false),
    {
        message_entry(EntryKind::User, owned(self.message.as_str()), false)
    }
}

/// A message of the assistant, possibly still streaming.
pub struct AgentMessageCell {
    pub message: String,
    pub streaming: bool,
}

impl AgentMessageCell {
    pub fn new(message: String, streaming: bool) -> (r: AgentMessageCell)
        ensures
            r.message@ == message@,
            r.streaming == streaming,
    {
        AgentMessageCell { message, streaming }
    }

    /// The assistant message entry.
    pub fn entry(&self) -> (r: TranscriptEntry)
        ensures
            is_message_entry(r, EntryKind::Assistant, self.message@, self.streaming),
    {
        message_entry(EntryKind::Assistant, owned(self.message.as_str()), self.streaming)
    }

    pub fn is_stream_continuation(&self) -> (r: bool)
        ensures
            r == self.streaming,
    {
        self.streaming
    }
}

/// A reasoning summary.
pub struct ReasoningSummaryCell {
    pub summary: String,
}

impl ReasoningSummaryCell {
    pub fn new(summary: String) -> (r: ReasoningSummaryCell)
        ensures
            r.summary@ == summary@,
    {
        ReasoningSummaryCell { summary }
    }

    /// The reasoning entry.
    pub fn entry(&self) -> (r: TranscriptEntry)
        ensures
            is_message_entry(r, EntryKind::Reasoning, self.summary@, false),
    {
        message_entry(EntryKind::Reasoning, owned(self.summary.as_str()), false)
    }
}

/// A patch.
pub struct PatchHistoryCell {
    pub text: String,
}

impl PatchHistoryCell {
    pub fn new(text: String) -> (r: PatchHistoryCell)
        ensures
            r.text@ == text@,
    {
        PatchHistoryCell { text }
    }

    /// The patch entry.
    pub fn entry(&self) -> (r: TranscriptEntry)
        ensures
            is_message_entry(r, EntryKind::Patch, self.text@, false),
    {
        message_entry(EntryKind::Patch, owned(self.text.as_str()), false)
    }
}

/// A plan update.
pub struct PlanUpdateCell {
    pub text: String,
}

impl PlanUpdateCell {
    pub fn new(text: String) -> (r: PlanUpdateCell)
        ensures
            r.text@ == text@,
    {
        PlanUpdateCell { text }
    }

    /// The plan entry.
    pub fn entry(&self) -> (r: TranscriptEntry)
        ensures
            is_message_entry(r, EntryKind::Plan, self.text@, false),
    {
        message_entry(EntryKind::Plan, owned(self.text.as_str()), false)
    }
}

/// The kinds of notice: an update is available, access was blocked for
/// safety, a deprecation, a thread recap being loaded, a thread recap.
#[derive(Clone, Copy, Debug, PartialEq, Eq, Structural)]
pub enum NoticeKind {
    UpdateAvailable,
    SafetyAccessBlock,
    Deprecation,
    ThreadRecapLoading,
    ThreadRecap,
}

/// A notice: a system message shown as it is.
pub struct NoticeCell {
    pub kind: NoticeKind,
    pub message: String,
}

impl NoticeCell {
    pub fn new(kind: NoticeKind, message: String) -> (r: NoticeCell)
        ensures
            r.kind == kind,
            r.message@ == message@,
    {
        NoticeCell { kind, message }
    }

    /// The system entry the notice is shown as.
    pub fn entry(&self) -> (r: TranscriptEntry)
        ensures
            is_message_entry(r, EntryKind::System, self.message@, false),
    {
        message_entry(EntryKind::System, owned(self.message.as_str()), false)
    }

    /// The notice as plain lines: its message.
    pub fn raw_lines(&self) -> (r: Vec<String>)
        ensures
            r@.len() == 1,
            r@[0]@ == self.message@,
    {
        let mut lines: Vec<String> = Vec::new();
        lines.push(owned(self.message.as_str()));
        lines
    }
}

/// The output of a finished command.
pub struct CommandOutput {
    pub exit_code: i32,
    pub aggregated_output: String,
}

impl CommandOutput {
    pub fn new(exit_code: i32, aggregated_output: String) -> (r: CommandOutput)
        ensures
            r.exit_code == exit_code,
            r.aggregated_output@ == aggregated_output@,
    {
        CommandOutput { exit_code, aggregated_output }
    }
}

/// One command call.
pub struct ExecCall {
    pub call_id: String,
    pub command: String,
    pub output: Option<CommandOutput>,
    pub streaming: bool,
}

/// A group of command calls.
pub struct ExecCell {
    pub calls: Vec<ExecCall>,
}

/// The text of a call: its command, then its output on the next line when
/// there is any.
pub open spec fn call_text(c: ExecCall) -> Seq<char> {
    match c.output {
        Some(o) => if o.aggregated_output@.len() > 0 {
            c.command@ + "\n"@ + o.aggregated_output@
        } else {
            c.command@
        },
        None => c.command@,
    }
}

/// The text of a group: the calls' texts, one after another on their own
/// lines.
pub open spec fn exec_text(calls: Seq<ExecCall>) -> Seq<char> {
    join_lines(calls.map_values(|c: ExecCall| call_text(c)))
}

/// Whether any call is still streaming.
pub open spec fn any_streaming(calls: Seq<ExecCall>) -> bool {
    exists|i: int| 0 <= i < calls.len() && #[trigger] calls[i].streaming
}

fn text_of_call(c: &ExecCall) -> (r: String)
    ensures
        r@ == call_text(*c),
{
    let mut text = owned(c.command.as_str());
    match &c.output {
        Some(o) => {
            if !o.aggregated_output.as_str().is_empty() {
                push_char(&mut text, '\n');
                text.append(o.aggregated_output.as_str());
                assert(text@ =~= c.command@ + "\n"@ + o.aggregated_output@) by {
                    reveal_strlit("\n");
                }
            }
        },
        None => {},
    }
    text
}

impl ExecCell {
    /// A group holding one call.
    pub fn new(call: ExecCall) -> (r: ExecCell)
        ensures
            r.calls@ == seq![call],
    {
        let mut calls: Vec<ExecCall> = Vec::new();
        calls.push(call);
        ExecCell { calls }
    }

    /// Adds a call at the end.
    pub fn add_call(&mut self, call: ExecCall)
        ensures
            final(self).calls@ == old(self).calls@.push(call),
    {
        self.calls.push(call);
    }

    /// The calls, in order.
    pub fn iter_calls(&self) -> (r: &[ExecCall])
        ensures
            r@ == self.calls@,
    {
        self.calls.as_slice()
    }

    /// Whether the group continues a stream: a call is still streaming.
    pub fn is_stream_continuation(&self) -> (r: bool)
        ensures
            r == any_streaming(self.calls@),
    {
        let mut i: usize = 0;
        while i < self.calls.len()
            invariant
                i <= self.calls.len(),
                forall|j: int| 0 <= j < i ==> !(#[trigger] self.calls@[j]).streaming,
            decreases self.calls.len() - i,
        {
            if self.calls[i].streaming {
                return true;
            }
            i = i + 1;
        }
        false
    }

    /// The command entry of the group: the first call's id (none without
    /// calls), the calls' texts, streaming while any call streams.
    pub fn entry(&self) -> (r: TranscriptEntry)
        ensures
            r.id@ == (if self.calls@.len() > 0 {
                self.calls@[0].call_id@
            } else {
                Seq::<char>::empty()
            }),
            r.kind == EntryKind::Command,
            r.text@ == exec_text(self.calls@),
            r.streaming == any_streaming(self.calls@),
            r.status is None,
            r.summary@.len() == 0,
    {
        let mut texts: Vec<String> = Vec::new();
        let mut i: usize = 0;
        while i < self.calls.len()
            invariant
                i <= self.calls.len(),
                views(texts@) =~= self.calls@.take(i as int).map_values(|c: ExecCall| call_text(c)),
            decreases self.calls.len() - i,
        {
            let ghost before = texts@;
            texts.push(text_of_call(&self.calls[i]));
            proof {
                assert(self.calls@.take(i + 1) =~= self.calls@.take(i as int).push(self.calls@[i as int]));
                assert(views(texts@) =~= views(before).push(texts@[i as int]@));
            }
            i = i + 1;
        }
        assert(self.calls@.take(self.calls.len() as int) =~= self.calls@);
        assert(texts@.map_values(|s: String| s@) == views(texts@));
        let text = join_strings(&texts);
        let id = if self.calls.len() > 0 {
            owned(self.calls[0].call_id.as_str())
        } else {
            String::new()
        };
        TranscriptEntry {
            id,
            kind: EntryKind::Command,
            text,
            streaming: self.is_stream_continuation(),
            status: None,
            summary: Vec::new(),
        }
    }
}

/// A cell made of parts shown one after another, an empty line between
/// two non-empty parts.
pub struct CompositeHistoryCell {
    pub parts: Vec<Vec<String>>,
}

impl CompositeHistoryCell {
    pub fn new(parts: Vec<Vec<String>>) -> (r: CompositeHistoryCell)
        ensures
            r.parts@ == parts@,
    {
        CompositeHistoryCell { parts }
    }

    /// The lines of the cell (`joined`).
    pub fn into_lines(self) -> (r: Vec<String>)
        ensures
            r@.map_values(|l: String| l@) == joined(self.parts@.map_values(|p: Vec<String>| p@)),
    {
        join_parts(self.parts)
    }
}

/// The session information shown when a session starts: a composite of
/// its parts.
pub struct SessionInfoCell(pub CompositeHistoryCell);

impl SessionInfoCell {
    pub fn new(parts: Vec<Vec<String>>) -> (r: SessionInfoCell)
        ensures
            r.0.parts@ == parts@,
    {
        SessionInfoCell(CompositeHistoryCell::new(parts))
    }

    /// The lines of the cell (`joined`).
    pub fn into_lines(self) -> (r: Vec<String>)
        ensures
            r@.map_values(|l: String| l@) == joined(self.0.parts@.map_values(|p: Vec<String>| p@)),
    {
        self.0.into_lines()
    }
}

} // verus!
