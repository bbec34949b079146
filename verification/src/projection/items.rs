//! How one canonical thread item becomes a transcript entry.
use vstd::prelude::*;

use crate::history_cell::mcp_result::{invocation_text, McpToolCallResult};
use crate::history_cell::search::{search_detail, web_search_detail};
use crate::history_cell::{compact_spec, compact_text};
use crate::multi_agents::{
    activity_summary, call_title, collab_summary_for_item, sub_agent_activity_summary,
    summary_for_call, tool_call_history_cell, CollabAgentTool, CollabAgentToolCall,
    CollabAgentToolCallStatus, SubAgentActivityKind,
};
use crate::projection::{EntryKind, EntryStatus, TranscriptEntry};
use crate::protocol::{
    CommandExecutionStatus, DynamicContentItem, FileUpdateChange, PatchApplyStatus,
    PatchChangeKind, ThreadItem, ToolCallStatus, UserInput,
};
use crate::text::{dec, dec_int, is_blank, owned, push_dec, push_dec_i64, trim};

verus! {

/// When a web search item is shown: from history, as it starts, or as it
/// completes.
#[derive(Clone, Copy, Debug, PartialEq, Eq, Structural)]
pub enum WebSearchLifecycle {
    Historical,
    Started,
    Completed,
}

/// An entry as plain values: id, kind, text, streaming, status, summary.
pub struct EntryModel {
    pub id: Seq<char>,
    pub kind: EntryKind,
    pub text: Seq<char>,
    pub streaming: bool,
    pub status: Option<EntryStatus>,
    pub summary: Seq<Seq<char>>,
}

/// The plain values of an entry.
pub open spec fn entry_model(e: TranscriptEntry) -> EntryModel {
    EntryModel {
        id: e.id@,
        kind: e.kind,
        text: e.text@,
        streaming: e.streaming,
        status: e.status,
        summary: e.summary@.map_values(|s: String| s@),
    }
}

/// The parts joined with line feeds.
pub open spec fn join_lines(parts: Seq<Seq<char>>) -> Seq<char>
    decreases parts.len(),
{
    if parts.len() == 0 {
        Seq::empty()
    } else if parts.len() == 1 {
        parts[0]
    } else {
        join_lines(parts.drop_last()) + "\n"@ + parts.last()
    }
}

/// The strings joined with line feeds.
pub fn join_strings(parts: &Vec<String>) -> (r: String)
    ensures
        r@ == join_lines(parts@.map_values(|s: String| s@)),
{
    let ghost ps = parts@.map_values(|s: String| s@);
    let mut out = String::new();
    let mut i: usize = 0;
    while i < parts.len()
        invariant
            i <= parts.len(),
            ps == parts@.map_values(|s: String| s@),
            out@ == join_lines(ps.take(i as int)),
        decreases parts.len() - i,
    {
        assert(ps.take(i + 1).drop_last() =~= ps.take(i as int));
        if i > 0 {
            out.append("\n");
        } else {
            assert(ps.take(1) =~= seq![ps[0]]);
        }
        out.append(parts[i].as_str());
        i = i + 1;
    }
    assert(ps.take(parts.len() as int) =~= ps);
    out
}

/// The text parts of a user message: texts as they are, skills as
/// `[skill: name]`, mentions as `[@name]`; images leave no text.
pub open spec fn user_texts(content: Seq<UserInput>) -> Seq<Seq<char>>
    decreases content.len(),
{
    if content.len() == 0 {
        Seq::empty()
    } else {
        let init = user_texts(content.drop_last());
        match content.last() {
            UserInput::Text(t) => init.push(t@),
            UserInput::Skill(name) => init.push("[skill: "@ + name@ + "]"@),
            UserInput::Mention(name) => init.push("[@"@ + name@ + "]"@),
            _ => init,
        }
    }
}

/// The number of images of a user message.
pub open spec fn image_count(content: Seq<UserInput>) -> nat
    decreases content.len(),
{
    if content.len() == 0 {
        0
    } else {
        let init = image_count(content.drop_last());
        match content.last() {
            UserInput::Image | UserInput::LocalImage { .. } => init + 1,
            _ => init,
        }
    }
}

/// `image: 1`, ..., `image: n`.
pub open spec fn numbered_images(n: nat) -> Seq<Seq<char>> {
    Seq::new(n, |i: int| "image: "@ + dec((i + 1) as nat))
}

/// A command with its output: the output on the line after the command;
/// while streaming without output, the command ends in a line feed.
pub open spec fn command_text_spec(command: Seq<char>, output: Option<Seq<char>>, streaming: bool) -> Seq<
    char,
> {
    let nl = if command.len() > 0 && command.last() == '\n' {
        command
    } else {
        command.push('\n')
    };
    match output {
        Some(o) => if o.len() > 0 {
            nl + o
        } else if streaming {
            nl
        } else {
            command
        },
        None => if streaming {
            nl
        } else {
            command
        },
    }
}

fn ends_with_newline(s: &String) -> (r: bool)
    ensures
        r == (s@.len() > 0 && s@.last() == '\n'),
{
    let v = crate::text::chars_of(s.as_str());
    v.len() > 0 && v[v.len() - 1] == '\n'
}

/// A command with its output (`command_text_spec`).
pub fn command_text(command: &str, output: Option<&str>, streaming: bool) -> (r: String)
    ensures
        r@ == command_text_spec(
            command@,
            match output {
                Some(o) => Some(o@),
                None => None,
            },
            streaming,
        ),
{
    let mut text = owned(command);
    let has_output = match output {
        Some(o) => !o.is_empty(),
        None => false,
    };
    if has_output {
        if !ends_with_newline(&text) {
            crate::text::push_char(&mut text, '\n');
        }
        text.append(output.unwrap());
    } else if streaming && !ends_with_newline(&text) {
        crate::text::push_char(&mut text, '\n');
    }
    text
}

/// The word for a change kind.
pub open spec fn change_word(k: PatchChangeKind) -> Seq<char> {
    match k {
        PatchChangeKind::Add => "added"@,
        PatchChangeKind::Delete => "deleted"@,
        PatchChangeKind::Update { .. } => "updated"@,
    }
}

/// One file of a patch: its change word and path (with the destination of
/// a rename), then its diff on the following lines when there is one.
pub open spec fn change_text(c: FileUpdateChange) -> Seq<char> {
    let path = match c.kind {
        PatchChangeKind::Update { move_path: Some(m) } => if trim(m@).len() > 0 {
            c.path@ + " → "@ + m@
        } else {
            c.path@
        },
        _ => c.path@,
    };
    let head = change_word(c.kind) + " "@ + path;
    if trim(c.diff@).len() == 0 {
        head
    } else {
        head + "\n"@ + c.diff@
    }
}

/// The text of one file of a patch (`change_text`).
pub fn format_change(c: &FileUpdateChange) -> (r: String)
    ensures
        r@ == change_text(*c),
{
    let word = match &c.kind {
        PatchChangeKind::Add => "added",
        PatchChangeKind::Delete => "deleted",
        PatchChangeKind::Update { .. } => "updated",
    };
    let mut s = owned(word);
    s.append(" ");
    s.append(c.path.as_str());
    if let PatchChangeKind::Update { move_path: Some(m) } = &c.kind {
        if !is_blank(m.as_str()) {
            s.append(" → ");
            s.append(m.as_str());
        }
    }
    if !is_blank(c.diff.as_str()) {
        s.append("\n");
        s.append(c.diff.as_str());
    }
    s
}

/// The patch text: its files, one after another.
pub open spec fn patch_text(changes: Seq<FileUpdateChange>) -> Seq<char> {
    join_lines(Seq::new(changes.len(), |i: int| change_text(changes[i])))
}

/// The patch text (`patch_text`).
pub fn format_patch(changes: &Vec<FileUpdateChange>) -> (r: String)
    ensures
        r@ == patch_text(changes@),
{
    let mut parts: Vec<String> = Vec::new();
    let mut i: usize = 0;
    while i < changes.len()
        invariant
            i <= changes.len(),
            parts@.map_values(|s: String| s@) =~= Seq::new(
                i as nat,
                |j: int| change_text(changes@[j]),
            ),
        decreases changes.len() - i,
    {
        let c = format_change(&changes[i]);
        let ghost before = parts@.map_values(|s: String| s@);
        parts.push(c);
        assert(parts@.map_values(|s: String| s@) =~= before.push(c@));
        i = i + 1;
    }
    join_strings(&parts)
}

/// The number of changes of each kind among the first `n`: added, deleted,
/// updated.
pub open spec fn change_counts(changes: Seq<FileUpdateChange>, n: int) -> (nat, nat, nat)
    decreases n,
{
    if n <= 0 {
        (0, 0, 0)
    } else {
        let (a, d, u) = change_counts(changes, n - 1);
        match changes[n - 1].kind {
            PatchChangeKind::Add => (a + 1, d, u),
            PatchChangeKind::Delete => (a, d + 1, u),
            PatchChangeKind::Update { .. } => (a, d, u + 1),
        }
    }
}

/// The facts of a patch: the number of files, then the counts of added,
/// deleted and updated files that are not zero.
pub open spec fn patch_summary_spec(changes: Seq<FileUpdateChange>) -> Seq<Seq<char>> {
    let (a, d, u) = change_counts(changes, changes.len() as int);
    let s0 = seq!["files: "@ + dec(changes.len())];
    let s1 = if a > 0 {
        s0.push("added: "@ + dec(a))
    } else {
        s0
    };
    let s2 = if d > 0 {
        s1.push("deleted: "@ + dec(d))
    } else {
        s1
    };
    if u > 0 {
        s2.push("updated: "@ + dec(u))
    } else {
        s2
    }
}

fn labeled_number(label: &str, n: u64) -> (r: String)
    ensures
        r@ == label@ + dec(n as nat),
{
    let mut s = owned(label);
    push_dec(&mut s, n);
    s
}

/// The facts of a patch (`patch_summary_spec`).
pub fn patch_summary(changes: &Vec<FileUpdateChange>) -> (r: Vec<String>)
    ensures
        r@.map_values(|s: String| s@) == patch_summary_spec(changes@),
{
    let mut added: u64 = 0;
    let mut deleted: u64 = 0;
    let mut updated: u64 = 0;
    let mut i: usize = 0;
    while i < changes.len()
        invariant
            i <= changes.len(),
            (added as nat, deleted as nat, updated as nat) == change_counts(changes@, i as int),
            added + deleted + updated <= i,
        decreases changes.len() - i,
    {
        match &changes[i].kind {
            PatchChangeKind::Add => added = added + 1,
            PatchChangeKind::Delete => deleted = deleted + 1,
            PatchChangeKind::Update { .. } => updated = updated + 1,
        }
        i = i + 1;
    }
    let mut details: Vec<String> = Vec::new();
    details.push(labeled_number("files: ", changes.len() as u64));
    if added > 0 {
        details.push(labeled_number("added: ", added));
    }
    if deleted > 0 {
        details.push(labeled_number("deleted: ", deleted));
    }
    if updated > 0 {
        details.push(labeled_number("updated: ", updated));
    }
    assert(details@.map_values(|s: String| s@) =~= patch_summary_spec(changes@));
    details
}

/// The text outputs of a dynamic tool call shown as facts, in order, at
/// most four: text that is not blank, compacted.
pub open spec fn content_previews(items: Seq<DynamicContentItem>, n: int) -> Seq<Seq<char>>
    decreases n,
{
    if n <= 0 {
        Seq::empty()
    } else {
        let init = content_previews(items, n - 1);
        match items[n - 1].input_text {
            Some(t) => if trim(t@).len() > 0 {
                init.push("output: "@ + compact_spec(t@))
            } else {
                init
            },
            None => init,
        }
    }
}

/// The first four previews at most.
pub open spec fn first_previews(items: Seq<DynamicContentItem>) -> Seq<Seq<char>> {
    let all = content_previews(items, items.len() as int);
    if all.len() > 4 {
        all.take(4)
    } else {
        all
    }
}

/// `true` or `false`.
pub open spec fn bool_text(b: bool) -> Seq<char> {
    if b {
        "true"@
    } else {
        "false"@
    }
}

/// The facts of a dynamic tool call: its success, the number of its output
/// items and the previews of their text, its duration.
pub open spec fn dynamic_summary_spec(
    items: Option<Seq<DynamicContentItem>>,
    success: Option<bool>,
    duration_ms: Option<i64>,
) -> Seq<Seq<char>> {
    let s0 = match success {
        Some(b) => seq!["success: "@ + bool_text(b)],
        None => Seq::empty(),
    };
    let s1 = match items {
        Some(it) => s0.push("content items: "@ + dec(it.len())) + first_previews(it),
        None => s0,
    };
    match duration_ms {
        Some(d) => s1.push("duration "@ + dec_int(d as int) + "ms"@),
        None => s1,
    }
}

proof fn lemma_previews_prefix(items: Seq<DynamicContentItem>, i: int, n: int)
    requires
        0 <= i <= n,
    ensures
        content_previews(items, i).len() <= content_previews(items, n).len(),
        content_previews(items, n).take(content_previews(items, i).len() as int)
            == content_previews(items, i),
    decreases n - i,
{
    if i < n {
        lemma_previews_prefix(items, i, n - 1);
        let a = content_previews(items, i);
        let b = content_previews(items, n - 1);
        match items[n - 1].input_text {
            Some(t) => if trim(t@).len() > 0 {
                assert(b.push("output: "@ + compact_spec(t@)).take(a.len() as int) =~= b.take(
                    a.len() as int,
                ));
            },
            None => {},
        }
    } else {
        assert(content_previews(items, n).take(content_previews(items, n).len() as int)
            =~= content_previews(items, n));
    }
}

fn push_previews(details: &mut Vec<String>, items: &Vec<DynamicContentItem>)
    ensures
        final(details)@.map_values(|s: String| s@) == old(details)@.map_values(|s: String| s@)
            + first_previews(items@),
{
    let ghost start = details@.map_values(|s: String| s@);
    let mut taken: usize = 0;
    let mut i: usize = 0;
    while i < items.len() && taken < 4
        invariant
            i <= items.len(),
            taken <= 4,
            taken == content_previews(items@, i as int).len(),
            details@.map_values(|s: String| s@) == start + content_previews(items@, i as int),
        decreases items.len() - i,
    {
        if let Some(t) = &items[i].input_text {
            if !is_blank(t.as_str()) {
                let mut line = owned("output: ");
                let c = compact_text(t.as_str());
                line.append(c.as_str());
                let ghost before = details@.map_values(|s: String| s@);
                details.push(line);
                assert(details@.map_values(|s: String| s@) =~= before.push(line@));
                taken = taken + 1;
            }
        }
        i = i + 1;
    }
    proof {
        lemma_previews_prefix(items@, i as int, items@.len() as int);
    }
}

/// The facts of a dynamic tool call (`dynamic_summary_spec`).
pub fn dynamic_summary(
    content_items: Option<&Vec<DynamicContentItem>>,
    success: Option<bool>,
    duration_ms: Option<i64>,
) -> (r: Vec<String>)
    ensures
        r@.map_values(|s: String| s@) == dynamic_summary_spec(
            match content_items {
                Some(it) => Some(it@),
                None => None,
            },
            success,
            duration_ms,
        ),
{
    let mut details: Vec<String> = Vec::new();
    let ghost s0: Seq<Seq<char>> = match success {
        Some(b) => seq!["success: "@ + bool_text(b)],
        None => Seq::empty(),
    };
    if let Some(b) = success {
        let mut line = owned("success: ");
        line.append(if b { "true" } else { "false" });
        details.push(line);
    }
    assert(details@.map_values(|s: String| s@) =~= s0);
    let ghost s1: Seq<Seq<char>> = match content_items {
        Some(it) => s0.push("content items: "@ + dec(it@.len())) + first_previews(it@),
        None => s0,
    };
    if let Some(items) = content_items {
        let line = labeled_number("content items: ", items.len() as u64);
        details.push(line);
        assert(details@.map_values(|s: String| s@) =~= s0.push(line@));
        push_previews(&mut details, items);
    }
    assert(details@.map_values(|s: String| s@) =~= s1);
    if let Some(d) = duration_ms {
        let mut line = owned("duration ");
        push_dec_i64(&mut line, d);
        line.append("ms");
        details.push(line);
        assert(details@.map_values(|s: String| s@) =~= s1.push(line@));
    }
    details
}

/// The status of an image generation, read case-insensitively.
pub open spec fn image_generation_status_spec(status: Seq<char>) -> Option<EntryStatus> {
    let s = status.map_values(|c: char| crate::text::ascii_lower(c));
    if s == "in_progress"@ || s == "in-progress"@ || s == "running"@ {
        Some(EntryStatus::Running)
    } else if s == "completed"@ || s == "succeeded"@ || s == "success"@ {
        Some(EntryStatus::Completed)
    } else if s == "failed"@ || s == "error"@ {
        Some(EntryStatus::Failed)
    } else if s == "declined"@ {
        Some(EntryStatus::Declined)
    } else {
        None
    }
}

/// The status of an image generation.
pub fn image_generation_status(status: &str) -> (r: Option<EntryStatus>)
    ensures
        r == image_generation_status_spec(status@),
{
    let v = crate::text::chars_of(status);
    let mut lower: Vec<char> = Vec::new();
    let mut i: usize = 0;
    while i < v.len()
        invariant
            i <= v.len(),
            v@ == status@,
            lower@ == v@.take(i as int).map_values(|c: char| crate::text::ascii_lower(c)),
        decreases v.len() - i,
    {
        lower.push(crate::text::to_ascii_lower(v[i]));
        assert(v@.take(i + 1).map_values(|c: char| crate::text::ascii_lower(c)) =~= v@.take(
            i as int,
        ).map_values(|c: char| crate::text::ascii_lower(c)).push(crate::text::ascii_lower(v@[i as int])));
        i = i + 1;
    }
    assert(v@.take(v.len() as int) =~= v@);
    if crate::text::matches_str(&lower, "in_progress") || crate::text::matches_str(&lower, "in-progress") || crate::text::matches_str(&lower, "running") {
        Some(EntryStatus::Running)
    } else if crate::text::matches_str(&lower, "completed") || crate::text::matches_str(&lower, "succeeded") || crate::text::matches_str(&lower, "success") {
        Some(EntryStatus::Completed)
    } else if crate::text::matches_str(&lower, "failed") || crate::text::matches_str(&lower, "error") {
        Some(EntryStatus::Failed)
    } else if crate::text::matches_str(&lower, "declined") {
        Some(EntryStatus::Declined)
    } else {
        None
    }
}

/// The entry status of a command execution.
pub open spec fn command_status(s: CommandExecutionStatus) -> EntryStatus {
    match s {
        CommandExecutionStatus::InProgress => EntryStatus::Running,
        CommandExecutionStatus::Completed => EntryStatus::Completed,
        CommandExecutionStatus::Failed => EntryStatus::Failed,
        CommandExecutionStatus::Declined => EntryStatus::Declined,
    }
}

/// The entry status of a patch application.
pub open spec fn patch_status(s: PatchApplyStatus) -> EntryStatus {
    match s {
        PatchApplyStatus::InProgress => EntryStatus::Running,
        PatchApplyStatus::Completed => EntryStatus::Completed,
        PatchApplyStatus::Failed => EntryStatus::Failed,
        PatchApplyStatus::Declined => EntryStatus::Declined,
    }
}

/// The entry status of a tool call.
pub open spec fn tool_status(s: ToolCallStatus) -> EntryStatus {
    match s {
        ToolCallStatus::InProgress => EntryStatus::Running,
        ToolCallStatus::Completed => EntryStatus::Completed,
        ToolCallStatus::Failed => EntryStatus::Failed,
    }
}

/// The facts of a command execution: its exit code and its duration, when
/// known.
pub open spec fn command_summary(exit_code: Option<i32>, duration_ms: Option<i64>) -> Seq<Seq<char>> {
    let s0 = match exit_code {
        Some(c) => seq!["exit "@ + dec_int(c as int)],
        None => Seq::empty(),
    };
    match duration_ms {
        Some(d) => s0.push("duration "@ + dec_int(d as int) + "ms"@),
        None => s0,
    }
}

/// The text of a web search entry for each moment it is shown.
pub open spec fn web_search_text(detail: Seq<char>, lifecycle: WebSearchLifecycle) -> Seq<char> {
    match lifecycle {
        WebSearchLifecycle::Historical => if detail.len() == 0 {
            "web search"@
        } else {
            "web search: "@ + detail
        },
        WebSearchLifecycle::Started => if detail.len() == 0 {
            "searching the web"@
        } else {
            "searching the web "@ + detail
        },
        WebSearchLifecycle::Completed => if detail.len() == 0 {
            "searched the web"@
        } else {
            "searched the web for "@ + detail
        },
    }
}

/// The facts of an image generation: where it was saved and the revised
/// prompt, compacted.
pub open spec fn image_generation_summary(saved_path: Option<Seq<char>>, revised_prompt: Option<Seq<char>>) -> Seq<
    Seq<char>,
> {
    let s0 = match saved_path {
        Some(p) => seq!["saved: "@ + p],
        None => Seq::empty(),
    };
    match revised_prompt {
        Some(p) => s0.push("revised prompt: "@ + compact_spec(p)),
        None => s0,
    }
}

/// The view of an optional string.
pub open spec fn opt_view(o: Option<String>) -> Option<Seq<char>> {
    match o {
        Some(s) => Some(s@),
        None => None,
    }
}

/// The views of strings.
pub open spec fn views(v: Seq<String>) -> Seq<Seq<char>> {
    v.map_values(|s: String| s@)
}

/// The facts of an MCP tool call: those of its result, error and
/// duration, then, for the computer-use server, those of the computer
/// action.
pub open spec fn mcp_summary_of(
    server: Seq<char>,
    title: Option<Seq<char>>,
    result: Option<McpToolCallResult>,
    error: Option<Seq<char>>,
    duration_ms: Option<i64>,
) -> Seq<Seq<char>> {
    let base = crate::history_cell::mcp_result::summary_spec(result, error, duration_ms);
    if server == "cua_repl"@ {
        base + crate::history_cell::computer_activity::summary_spec(
            title,
            match result {
                Some(r) => Some(r.content@),
                None => None,
            },
            error,
        )
    } else {
        base
    }
}

/// The name of a collaboration tool.
pub open spec fn tool_name(tool: CollabAgentTool) -> Seq<char> {
    match tool {
        CollabAgentTool::SpawnAgent => "SpawnAgent"@,
        CollabAgentTool::SendInput => "SendInput"@,
        CollabAgentTool::ResumeAgent => "ResumeAgent"@,
        CollabAgentTool::Wait => "Wait"@,
        CollabAgentTool::CloseAgent => "CloseAgent"@,
    }
}

/// The text of a collaboration call: its title, or the tool's name when it
/// has none.
pub open spec fn collab_text(c: CollabAgentToolCall) -> Seq<char> {
    match call_title(c.tool, c.status, views(c.receiver_thread_ids@)) {
        Some(t) => t,
        None => tool_name(c.tool),
    }
}

/// The entry status of a collaboration call.
pub open spec fn collab_status(s: CollabAgentToolCallStatus) -> EntryStatus {
    match s {
        CollabAgentToolCallStatus::InProgress => EntryStatus::Running,
        CollabAgentToolCallStatus::Completed => EntryStatus::Completed,
        CollabAgentToolCallStatus::Failed => EntryStatus::Failed,
    }
}

/// The entry an item projects to; `Sleep` projects to none.
pub open spec fn item_entry(item: ThreadItem, streaming: bool, lifecycle: WebSearchLifecycle) -> Option<
    EntryModel,
> {
    let m = |id: Seq<char>, kind: EntryKind, text: Seq<char>, status: Option<EntryStatus>, summary: Seq<Seq<char>>|
        EntryModel { id, kind, text, streaming, status, summary };
    match item {
        ThreadItem::UserMessage { id, client_id, content } => Some(
            m(
                match client_id {
                    Some(c) => c@,
                    None => id@,
                },
                EntryKind::User,
                join_lines(user_texts(content@)),
                None,
                numbered_images(image_count(content@)),
            ),
        ),
        ThreadItem::HookPrompt { id, fragments } => Some(
            m(id@, EntryKind::System, join_lines(views(fragments@)), None, Seq::empty()),
        ),
        ThreadItem::AgentMessage { id, text, .. } => Some(
            m(id@, EntryKind::Assistant, text@, None, Seq::empty()),
        ),
        ThreadItem::Plan { id, text } => Some(
            m(id@, EntryKind::Plan, text@, Some(EntryStatus::Completed), Seq::empty()),
        ),
        ThreadItem::Reasoning { id, summary, content } => Some(
            m(
                id@,
                EntryKind::Reasoning,
                join_lines(
                    if summary@.len() == 0 {
                        views(content@)
                    } else {
                        views(summary@)
                    },
                ),
                None,
                Seq::empty(),
            ),
        ),
        ThreadItem::CommandExecution { id, command, status, aggregated_output, exit_code, duration_ms } =>
            Some(
            m(
                id@,
                EntryKind::Command,
                command_text_spec(command@, opt_view(aggregated_output), streaming),
                Some(command_status(status)),
                command_summary(exit_code, duration_ms),
            ),
        ),
        ThreadItem::FileChange { id, changes, status } => Some(
            m(
                id@,
                EntryKind::Patch,
                patch_text(changes@),
                Some(patch_status(status)),
                patch_summary_spec(changes@),
            ),
        ),
        ThreadItem::McpToolCall {
            id,
            server,
            tool,
            arguments,
            title,
            status,
            result,
            error,
            duration_ms,
        } => Some(
            m(
                id@,
                EntryKind::Mcp,
                server@ + "."@ + tool@ + "("@ + compact_spec(arguments@) + ")"@,
                Some(tool_status(status)),
                mcp_summary_of(server@, opt_view(title), result, opt_view(error), duration_ms),
            ),
        ),
        ThreadItem::DynamicToolCall { id, tool, status, content_items, success, duration_ms } =>
            Some(
            m(
                id@,
                EntryKind::Tool,
                tool@,
                Some(tool_status(status)),
                dynamic_summary_spec(
                    match content_items {
                        Some(it) => Some(it@),
                        None => None,
                    },
                    success,
                    duration_ms,
                ),
            ),
        ),
        ThreadItem::CollabAgentToolCall(c) => Some(
            m(
                c.id@,
                EntryKind::MultiAgent,
                collab_text(c),
                Some(collab_status(c.status)),
                summary_for_call(c),
            ),
        ),
        ThreadItem::SubAgentActivity(a) => Some(
            m(
                a.id@,
                EntryKind::MultiAgent,
                activity_summary(a.kind, a.agent_path@),
                Some(
                    if a.kind == SubAgentActivityKind::Interrupted {
                        EntryStatus::Interrupted
                    } else {
                        EntryStatus::Running
                    },
                ),
                Seq::empty(),
            ),
        ),
        ThreadItem::WebSearch { id, query, action } => Some(
            m(
                id@,
                EntryKind::Tool,
                web_search_text(
                    search_detail(
                        match query {
                            Some(q) => q@,
                            None => Seq::empty(),
                        },
                        action,
                    ),
                    lifecycle,
                ),
                None,
                Seq::empty(),
            ),
        ),
        ThreadItem::ImageView { id, path } => Some(
            m(id@, EntryKind::Tool, "view image: "@ + path@, None, Seq::empty()),
        ),
        ThreadItem::Sleep => None,
        ThreadItem::ImageGeneration { id, status, saved_path, revised_prompt } => Some(
            m(
                id@,
                EntryKind::Tool,
                "image generation"@,
                image_generation_status_spec(status@),
                image_generation_summary(opt_view(saved_path), opt_view(revised_prompt)),
            ),
        ),
        ThreadItem::EnteredReviewMode { id, review } => Some(
            m(id@, EntryKind::System, "review started: "@ + review@, Some(EntryStatus::Running), Seq::empty()),
        ),
        ThreadItem::ExitedReviewMode { id, review } => Some(
            m(
                id@,
                EntryKind::System,
                "review completed: "@ + review@,
                Some(EntryStatus::Completed),
                Seq::empty(),
            ),
        ),
        ThreadItem::ContextCompaction { id } => Some(
            m(id@, EntryKind::System, "context compacted"@, None, Seq::empty()),
        ),
        ThreadItem::UnknownItem { id, upstream_type } => Some(
            m(
                id@,
                EntryKind::System,
                "unsupported item: "@ + upstream_type@,
                Some(EntryStatus::Failed),
                Seq::empty(),
            ),
        ),
    }
}

/// Whether `e` holds the values of model `m`.
pub open spec fn entry_is(e: TranscriptEntry, m: EntryModel) -> bool {
    &&& e.id@ == m.id
    &&& e.kind == m.kind
    &&& e.text@ == m.text
    &&& e.streaming == m.streaming
    &&& e.status == m.status
    &&& views(e.summary@) == m.summary
}

/// Whether `r` is what `item` projects to.
pub open spec fn projects(
    r: Option<TranscriptEntry>,
    item: ThreadItem,
    streaming: bool,
    lifecycle: WebSearchLifecycle,
) -> bool {
    match (r, item_entry(item, streaming, lifecycle)) {
        (Some(e), Some(m)) => entry_is(e, m),
        (None, None) => true,
        _ => false,
    }
}

/// The text and facts of a user message.
pub fn user_input_projection(content: &Vec<UserInput>) -> (r: (String, Vec<String>))
    ensures
        r.0@ == join_lines(user_texts(content@)),
        views(r.1@) == numbered_images(image_count(content@)),
{
    let mut texts: Vec<String> = Vec::new();
    let mut images: u64 = 0;
    let mut i: usize = 0;
    while i < content.len()
        invariant
            i <= content.len(),
            views(texts@) == user_texts(content@.take(i as int)),
            images == image_count(content@.take(i as int)),
            images <= i,
        decreases content.len() - i,
    {
        assert(content@.take(i + 1).drop_last() =~= content@.take(i as int));
        let ghost before = views(texts@);
        match &content[i] {
            UserInput::Text(t) => {
                texts.push(owned(t.as_str()));
                assert(views(texts@) =~= before.push(t@));
            },
            UserInput::Image | UserInput::LocalImage { .. } => {
                images = images + 1;
            },
            UserInput::Skill(name) => {
                let mut l = owned("[skill: ");
                l.append(name.as_str());
                l.append("]");
                texts.push(l);
                assert(views(texts@) =~= before.push(l@));
            },
            UserInput::Mention(name) => {
                let mut l = owned("[@");
                l.append(name.as_str());
                l.append("]");
                texts.push(l);
                assert(views(texts@) =~= before.push(l@));
            },
        }
        i = i + 1;
    }
    assert(content@.take(content.len() as int) =~= content@);
    let mut summary: Vec<String> = Vec::new();
    let mut k: u64 = 0;
    while k < images
        invariant
            k <= images,
            views(summary@) =~= numbered_images(k as nat),
        decreases images - k,
    {
        let l = labeled_number("image: ", k + 1);
        let ghost before = views(summary@);
        summary.push(l);
        assert(views(summary@) =~= before.push(l@));
        assert(numbered_images((k + 1) as nat) =~= numbered_images(k as nat).push(
            "image: "@ + dec((k + 1) as nat),
        ));
        k = k + 1;
    }
    (join_strings(&texts), summary)
}

/// The facts of a command execution (`command_summary`).
fn command_facts(exit_code: Option<i32>, duration_ms: Option<i64>) -> (r: Vec<String>)
    ensures
        views(r@) == command_summary(exit_code, duration_ms),
{
    let mut details: Vec<String> = Vec::new();
    if let Some(c) = exit_code {
        let mut l = owned("exit ");
        push_dec_i64(&mut l, c as i64);
        details.push(l);
    }
    let ghost s0 = views(details@);
    if let Some(d) = duration_ms {
        let mut l = owned("duration ");
        push_dec_i64(&mut l, d);
        l.append("ms");
        details.push(l);
        assert(views(details@) =~= s0.push(l@));
    }
    assert(views(details@) =~= command_summary(exit_code, duration_ms));
    details
}

fn image_generation_facts(saved_path: &Option<String>, revised_prompt: &Option<String>) -> (r: Vec<
    String,
>)
    ensures
        views(r@) == image_generation_summary(opt_view(*saved_path), opt_view(*revised_prompt)),
{
    let mut details: Vec<String> = Vec::new();
    if let Some(p) = saved_path {
        let mut l = owned("saved: ");
        l.append(p.as_str());
        details.push(l);
    }
    let ghost s0 = views(details@);
    if let Some(p) = revised_prompt {
        let mut l = owned("revised prompt: ");
        let c = compact_text(p.as_str());
        l.append(c.as_str());
        details.push(l);
        assert(views(details@) =~= s0.push(l@));
    }
    assert(views(details@) =~= image_generation_summary(
        opt_view(*saved_path),
        opt_view(*revised_prompt),
    ));
    details
}

fn mcp_facts(
    server: &String,
    title: &Option<String>,
    result: &Option<McpToolCallResult>,
    error: &Option<String>,
    duration_ms: Option<i64>,
) -> (r: Vec<String>)
    ensures
        views(r@) == mcp_summary_of(server@, opt_view(*title), *result, opt_view(*error), duration_ms),
{
    let res = match result {
        Some(x) => Some(x),
        None => None,
    };
    let err: Option<&str> = match error {
        Some(e) => Some(e.as_str()),
        None => None,
    };
    let mut facts = crate::history_cell::mcp_result::summary(res, err, duration_ms);
    if crate::history_cell::computer_activity::is_computer_activity(server.as_str()) {
        let t: Option<&str> = match title {
            Some(t) => Some(t.as_str()),
            None => None,
        };
        let content = match result {
            Some(x) => Some(&x.content),
            None => None,
        };
        let ghost before = facts@;
        let mut more = crate::history_cell::computer_activity::summary(t, content, err);
        let ghost added = more@;
        facts.append(&mut more);
        assert(views(facts@) =~= views(before) + views(added));
    }
    facts
}

fn collab_title(c: &CollabAgentToolCall) -> (r: String)
    ensures
        r@ == collab_text(*c),
{
    match tool_call_history_cell(c) {
        Some(cell) => cell.title,
        None => owned(
            match c.tool {
                CollabAgentTool::SpawnAgent => "SpawnAgent",
                CollabAgentTool::SendInput => "SendInput",
                CollabAgentTool::ResumeAgent => "ResumeAgent",
                CollabAgentTool::Wait => "Wait",
                CollabAgentTool::CloseAgent => "CloseAgent",
            },
        ),
    }
}

fn web_search_line(detail: &str, lifecycle: WebSearchLifecycle) -> (r: String)
    ensures
        r@ == web_search_text(detail@, lifecycle),
{
    let empty = detail.is_empty();
    let (bare, head) = match lifecycle {
        WebSearchLifecycle::Historical => ("web search", "web search: "),
        WebSearchLifecycle::Started => ("searching the web", "searching the web "),
        WebSearchLifecycle::Completed => ("searched the web", "searched the web for "),
    };
    if empty {
        owned(bare)
    } else {
        let mut s = owned(head);
        s.append(detail);
        s
    }
}

fn prefixed(head: &str, tail: &str) -> (r: String)
    ensures
        r@ == head@ + tail@,
{
    let mut s = owned(head);
    s.append(tail);
    s
}

fn entry(
    id: String,
    kind: EntryKind,
    text: String,
    streaming: bool,
    status: Option<EntryStatus>,
    summary: Vec<String>,
) -> (r: TranscriptEntry)
    ensures
        r.id == id,
        r.kind == kind,
        r.text == text,
        r.streaming == streaming,
        r.status == status,
        r.summary == summary,
{
    TranscriptEntry { id, kind, text, streaming, status, summary }
}

/// The entry an item projects to (`item_entry`); `Sleep` projects to none.
pub fn project_item_with_lifecycle(
    item: &ThreadItem,
    streaming: bool,
    web_search_lifecycle: WebSearchLifecycle,
) -> (r: Option<TranscriptEntry>)
    ensures
        projects(r, *item, streaming, web_search_lifecycle),
{
    let none: Vec<String> = Vec::new();
    assert(views(none@) =~= Seq::<Seq<char>>::empty());
    match item {
        ThreadItem::UserMessage { id, client_id, content } => {
            let (text, summary) = user_input_projection(content);
            let key = match client_id {
                Some(c) => owned(c.as_str()),
                None => owned(id.as_str()),
            };
            Some(entry(key, EntryKind::User, text, streaming, None, summary))
        },
        ThreadItem::HookPrompt { id, fragments } => Some(
            entry(owned(id.as_str()), EntryKind::System, join_strings(fragments), streaming, None, none),
        ),
        ThreadItem::AgentMessage { id, text, .. } => Some(
            entry(owned(id.as_str()), EntryKind::Assistant, owned(text.as_str()), streaming, None, none),
        ),
        ThreadItem::Plan { id, text } => Some(
            entry(
                owned(id.as_str()),
                EntryKind::Plan,
                owned(text.as_str()),
                streaming,
                Some(EntryStatus::Completed),
                none,
            ),
        ),
        ThreadItem::Reasoning { id, summary, content } => {
            let text = if summary.len() == 0 {
                join_strings(content)
            } else {
                join_strings(summary)
            };
            Some(entry(owned(id.as_str()), EntryKind::Reasoning, text, streaming, None, none))
        },
        ThreadItem::CommandExecution {
            id,
            command,
            status,
            aggregated_output,
            exit_code,
            duration_ms,
        } => {
            let output = match aggregated_output {
                Some(o) => Some(o.as_str()),
                None => None,
            };
            let entry_status = match status {
                CommandExecutionStatus::InProgress => EntryStatus::Running,
                CommandExecutionStatus::Completed => EntryStatus::Completed,
                CommandExecutionStatus::Failed => EntryStatus::Failed,
                CommandExecutionStatus::Declined => EntryStatus::Declined,
            };
            Some(
                entry(
                    owned(id.as_str()),
                    EntryKind::Command,
                    command_text(command.as_str(), output, streaming),
                    streaming,
                    Some(entry_status),
                    command_facts(*exit_code, *duration_ms),
                ),
            )
        },
        ThreadItem::FileChange { id, changes, status } => {
            let entry_status = match status {
                PatchApplyStatus::InProgress => EntryStatus::Running,
                PatchApplyStatus::Completed => EntryStatus::Completed,
                PatchApplyStatus::Failed => EntryStatus::Failed,
                PatchApplyStatus::Declined => EntryStatus::Declined,
            };
            Some(
                entry(
                    owned(id.as_str()),
                    EntryKind::Patch,
                    format_patch(changes),
                    streaming,
                    Some(entry_status),
                    patch_summary(changes),
                ),
            )
        },
        ThreadItem::McpToolCall {
            id,
            server,
            tool,
            arguments,
            title,
            status,
            result,
            error,
            duration_ms,
        } => Some(
            entry(
                owned(id.as_str()),
                EntryKind::Mcp,
                invocation_text(server.as_str(), tool.as_str(), arguments.as_str()),
                streaming,
                Some(tool_entry_status(*status)),
                mcp_facts(server, title, result, error, *duration_ms),
            ),
        ),
        ThreadItem::DynamicToolCall { id, tool, status, content_items, success, duration_ms } => {
            let items = match content_items {
                Some(it) => Some(it),
                None => None,
            };
            Some(
                entry(
                    owned(id.as_str()),
                    EntryKind::Tool,
                    owned(tool.as_str()),
                    streaming,
                    Some(tool_entry_status(*status)),
                    dynamic_summary(items, *success, *duration_ms),
                ),
            )
        },
        ThreadItem::CollabAgentToolCall(c) => Some(
            entry(
                owned(c.id.as_str()),
                EntryKind::MultiAgent,
                collab_title(c),
                streaming,
                Some(
                    match c.status {
                        CollabAgentToolCallStatus::InProgress => EntryStatus::Running,
                        CollabAgentToolCallStatus::Completed => EntryStatus::Completed,
                        CollabAgentToolCallStatus::Failed => EntryStatus::Failed,
                    },
                ),
                collab_summary_for_item(c),
            ),
        ),
        ThreadItem::SubAgentActivity(a) => Some(
            entry(
                owned(a.id.as_str()),
                EntryKind::MultiAgent,
                sub_agent_activity_summary(a.kind, a.agent_path.as_str()),
                streaming,
                Some(
                    if a.kind == SubAgentActivityKind::Interrupted {
                        EntryStatus::Interrupted
                    } else {
                        EntryStatus::Running
                    },
                ),
                none,
            ),
        ),
        ThreadItem::WebSearch { id, query, action } => {
            let q: &str = match query {
                Some(q) => q.as_str(),
                None => "",
            };
            proof {
                if query is None {
                    reveal_strlit("");
                }
            }
            let a = match action {
                Some(a) => Some(a),
                None => None,
            };
            let detail = web_search_detail(q, a);
            Some(
                entry(
                    owned(id.as_str()),
                    EntryKind::Tool,
                    web_search_line(detail.as_str(), web_search_lifecycle),
                    streaming,
                    None,
                    none,
                ),
            )
        },
        ThreadItem::ImageView { id, path } => Some(
            entry(
                owned(id.as_str()),
                EntryKind::Tool,
                prefixed("view image: ", path.as_str()),
                streaming,
                None,
                none,
            ),
        ),
        ThreadItem::Sleep => None,
        ThreadItem::ImageGeneration { id, status, saved_path, revised_prompt } => Some(
            entry(
                owned(id.as_str()),
                EntryKind::Tool,
                owned("image generation"),
                streaming,
                image_generation_status(status.as_str()),
                image_generation_facts(saved_path, revised_prompt),
            ),
        ),
        ThreadItem::EnteredReviewMode { id, review } => Some(
            entry(
                owned(id.as_str()),
                EntryKind::System,
                prefixed("review started: ", review.as_str()),
                streaming,
                Some(EntryStatus::Running),
                none,
            ),
        ),
        ThreadItem::ExitedReviewMode { id, review } => Some(
            entry(
                owned(id.as_str()),
                EntryKind::System,
                prefixed("review completed: ", review.as_str()),
                streaming,
                Some(EntryStatus::Completed),
                none,
            ),
        ),
        ThreadItem::ContextCompaction { id } => Some(
            entry(
                owned(id.as_str()),
                EntryKind::System,
                owned("context compacted"),
                streaming,
                None,
                none,
            ),
        ),
        ThreadItem::UnknownItem { id, upstream_type } => Some(
            entry(
                owned(id.as_str()),
                EntryKind::System,
                prefixed("unsupported item: ", upstream_type.as_str()),
                streaming,
                Some(EntryStatus::Failed),
                none,
            ),
        ),
    }
}

fn tool_entry_status(s: ToolCallStatus) -> (r: EntryStatus)
    ensures
        r == tool_status(s),
{
    match s {
        ToolCallStatus::InProgress => EntryStatus::Running,
        ToolCallStatus::Completed => EntryStatus::Completed,
        ToolCallStatus::Failed => EntryStatus::Failed,
    }
}

/// The entry an item projects to as history (`item_entry` with the
/// historical web search wording).
pub fn project_item(item: &ThreadItem, streaming: bool) -> (r: Option<TranscriptEntry>)
    ensures
        projects(r, *item, streaming, WebSearchLifecycle::Historical),
{
    project_item_with_lifecycle(item, streaming, WebSearchLifecycle::Historical)
}

} // verus!
