//! Loading the session list page by page, and the picker's event loop:
//! which answers and keys lead to which requests, and when the picker ends.
use vstd::prelude::*;

use super::{
    PreviewLine, sat_sub, selected_id, PickerAction, PickerState, SessionSelection, SessionStatus,
    SessionTarget, ThreadSortKey, ThreadSummary,
};
use crate::input::InputEvent;
use crate::locale::Locale;
use crate::projection::TranscriptEntry;
use crate::text::{concat2, owned, str_eq};

verus! {

/// Whether a session with id `id` is listed.
pub open spec fn has_thread(list: Seq<ThreadSummary>, id: Seq<char>) -> bool {
    exists|i: int| 0 <= i < list.len() && (#[trigger] list[i]).id@ == id
}

/// The list after a page: each session of the page, in turn, is added
/// unless one with its id is already listed.
pub open spec fn add_new_threads(list: Seq<ThreadSummary>, page: Seq<ThreadSummary>) -> Seq<ThreadSummary>
    decreases page.len(),
{
    if page.len() == 0 {
        list
    } else {
        let l = add_new_threads(list, page.drop_last());
        if has_thread(l, page.last().id@) {
            l
        } else {
            l.push(page.last())
        }
    }
}

/// Whether the page start `c` was asked for already.
pub open spec fn cursor_seen(seen: Seq<String>, c: Seq<char>) -> bool {
    exists|i: int| 0 <= i < seen.len() && (#[trigger] seen[i])@ == c
}

/// The text an optional string holds.
pub open spec fn opt_text(o: Option<String>) -> Option<Seq<char>> {
    match o {
        Some(s) => Some(s@),
        None => None,
    }
}

/// The token after `t`, wrapping.
pub open spec fn next_token(t: usize) -> usize {
    if t == usize::MAX {
        0
    } else {
        (t + 1) as usize
    }
}

/// Whether no two listed sessions share an id.
pub open spec fn unique_ids(l: Seq<ThreadSummary>) -> bool {
    forall|i: int, j: int| 0 <= i < j < l.len() ==> (#[trigger] l[i]).id@ != (#[trigger] l[j]).id@
}

/// Taking a page keeps the listed sessions where they were, lists every
/// session of the page, and lists no id twice when none was listed twice
/// before.
pub proof fn lemma_page_keeps_ids_unique(list: Seq<ThreadSummary>, page: Seq<ThreadSummary>)
    requires
        unique_ids(list),
    ensures
        unique_ids(add_new_threads(list, page)),
        add_new_threads(list, page).len() >= list.len(),
        add_new_threads(list, page).take(list.len() as int) == list,
        forall|k: int| 0 <= k < page.len() ==> has_thread(add_new_threads(list, page), #[trigger] page[k].id@),
    decreases page.len(),
{
    if page.len() > 0 {
        let rest = page.drop_last();
        let l = add_new_threads(list, rest);
        let t = page.last();
        lemma_page_keeps_ids_unique(list, rest);
        let r = add_new_threads(list, page);
        if has_thread(l, t.id@) {
            assert(r == l);
        } else {
            assert(r == l.push(t));
            assert forall|i: int, j: int| 0 <= i < j < r.len() implies (#[trigger] r[i]).id@ != (#[trigger] r[j]).id@ by {
                if j == l.len() {
                    assert(r[i] == l[i]);
                } else {
                    assert(r[i] == l[i] && r[j] == l[j]);
                }
            }
            assert(r.take(list.len() as int) =~= l.take(list.len() as int));
        }
        assert forall|k: int| 0 <= k < page.len() implies has_thread(r, #[trigger] page[k].id@) by {
            if k < rest.len() {
                assert(rest[k] == page[k]);
                assert(has_thread(l, rest[k].id@));
                let i = choose|i: int| 0 <= i < l.len() && (#[trigger] l[i]).id@ == rest[k].id@;
                assert(r[i] == l[i]);
            } else if !has_thread(l, t.id@) {
                assert(r[l.len() as int] == t);
            }
        }
    }
}

/// A page of the session list as the server answered it.
pub struct ThreadPage {
    pub threads: Vec<ThreadSummary>,
    pub next_cursor: Option<String>,
}

/// A request for a page of the session list.
pub struct ThreadLoadRequest {
    pub token: usize,
    pub status: SessionStatus,
    /// The directory the sessions must belong to; none when all are shown.
    pub cwd: Option<String>,
    pub query: String,
    pub sort_key: ThreadSortKey,
    /// Where the page starts; none for the first page.
    pub cursor: Option<String>,
}

/// What the picker's loop hears: an answer of the server, an input event,
/// or that the inputs or answers have ended.
pub enum PickerLoopEvent {
    Threads { token: usize, result: Result<ThreadPage, String> },
    Transcript { thread_id: String, result: Result<Vec<TranscriptEntry>, String> },
    Preview { thread_id: String, result: Result<Vec<PreviewLine>, String> },
    Archive { thread_id: String, result: Result<(), String> },
    Unarchive { thread_id: String, result: Result<SessionTarget, String> },
    Input(InputEvent),
    Closed,
}

/// What the picker's loop asks of its caller next.
pub enum PickerLoopCommand {
    Wait,
    LoadThreads(ThreadLoadRequest),
    LoadTranscript(String),
    /// Load the transcript preview of this session (asked for by
    /// `PickerState::next_preview_request` before each draw).
    LoadPreview(String),
    Archive(String),
    Unarchive(String),
    /// The picker ends, with the id of the chosen session if there is one.
    Finish(Option<String>),
}

/// The command for a list request that may have been refused.
pub open spec fn load_command(req: Option<ThreadLoadRequest>) -> PickerLoopCommand {
    match req {
        Some(q) => PickerLoopCommand::LoadThreads(q),
        None => PickerLoopCommand::Wait,
    }
}

/// The command for a transcript that may need loading.
pub open spec fn transcript_command(id: Option<String>) -> PickerLoopCommand {
    match id {
        Some(x) => PickerLoopCommand::LoadTranscript(x),
        None => PickerLoopCommand::Wait,
    }
}

impl PickerState {
    /// What `apply_thread_page` promises: an answer to any load but the one
    /// in flight changes nothing; otherwise the load ends, the new sessions
    /// of the page are added, the next page start is kept and the
    /// selection stays on the list.
    pub open spec fn page_applied(
        o: PickerState,
        n: PickerState,
        token: usize,
        page: Seq<ThreadSummary>,
        cursor: Option<String>,
    ) -> bool {
        if token != o.load_token || !o.loading {
            n == o
        } else {
            let threads = add_new_threads(o.threads@, page);
            let last = sat_sub(threads.len() as int, 1);
            &&& n.threads@ == threads
            &&& n.selected as int == if o.selected <= last {
                o.selected as int
            } else {
                last
            }
            &&& n == (PickerState {
                threads: n.threads,
                selected: n.selected,
                loading: false,
                next_cursor: cursor,
                ..o
            })
        }
    }

    /// What `start_thread_load` promises. Without a next page start the
    /// list starts over: it is emptied with its details and the page
    /// starts seen. A page start asked for before is refused with a
    /// message. Otherwise it is remembered, a fresh load begins, and the
    /// request carries the token, the list options, the query and the page
    /// start.
    pub open spec fn thread_load_started(o: PickerState, n: PickerState, r: Option<ThreadLoadRequest>) -> bool {
        let begun = |m: PickerState| {
            &&& r matches Some(q)
            &&& q.token == n.load_token
            &&& q.status == o.status
            &&& opt_text(q.cwd) == if o.show_all { None } else { opt_text(o.filter_cwd) }
            &&& q.query@ == o.query@
            &&& q.sort_key == o.sort_key
            &&& opt_text(q.cursor) == opt_text(o.next_cursor)
            &&& n == (PickerState {
                load_token: next_token(o.load_token),
                loading: true,
                status_message: None,
                ..m
            })
        };
        match o.next_cursor {
            None => {
                &&& n.threads@.len() == 0
                &&& n.transcripts@.len() == 0
                &&& n.seen_cursors@.len() == 0
                &&& n.transcript_previews@.len() == 0
                &&& n.preview_loading@.len() == 0
                &&& begun(
                    PickerState {
                        threads: n.threads,
                        transcripts: n.transcripts,
                        seen_cursors: n.seen_cursors,
                        transcript_previews: n.transcript_previews,
                        preview_loading: n.preview_loading,
                        selected: 0,
                        expanded_thread_id: None,
                        transcript_pager: None,
                        ..o
                    },
                )
            },
            Some(c) => if cursor_seen(o.seen_cursors@, c@) {
                &&& r is None
                &&& n.status_message matches Some(m) && m@
                    == "thread list pagination repeated cursor "@ + c@
                &&& n == (PickerState { status_message: n.status_message, ..o })
            } else {
                &&& n.seen_cursors@.len() == o.seen_cursors@.len() + 1
                &&& n.seen_cursors@.drop_last() == o.seen_cursors@
                &&& n.seen_cursors@.last()@ == c@
                &&& begun(PickerState { seen_cursors: n.seen_cursors, ..o })
            },
        }
    }

    /// Whether moving down should ask for the next page: no load is in
    /// flight, the server has more, and the last listed session is
    /// selected.
    pub open spec fn wants_more(self) -> bool {
        !self.loading && self.next_cursor is Some && self.threads@.len() > 0 && self.selected + 1
            >= self.threads@.len()
    }

    /// Takes a page of the session list (`page_applied`).
    pub fn apply_thread_page(&mut self, token: usize, page: ThreadPage)
        ensures
            Self::page_applied(*old(self), *final(self), token, page.threads@, page.next_cursor),
    {
        if token != self.load_token || !self.loading {
            return;
        }
        let ghost start = self.threads@;
        let ghost all = page.threads@;
        let total: usize = page.threads.len();
        assert(all.len() == total);
        let mut rest = page.threads;
        let mut i: usize = 0;
        assert(all.take(0) =~= Seq::<ThreadSummary>::empty());
        while rest.len() > 0
            invariant
                i <= all.len(),
                all.len() <= usize::MAX,
                rest@ == all.skip(i as int),
                self.threads@ == add_new_threads(start, all.take(i as int)),
                self.load_token == old(self).load_token,
                *self == (PickerState { threads: self.threads, ..*old(self) }),
            decreases rest.len(),
        {
            let t = rest.remove(0);
            assert(t == all[i as int]);
            assert(all.take(i + 1).drop_last() =~= all.take(i as int));
            assert(all.take(i + 1).last() == t);
            if !contains_thread(&self.threads, t.id.as_str()) {
                self.threads.push(t);
            }
            i = i + 1;
            assert(all.skip(i as int) =~= all.skip(i - 1).drop_first());
        }
        assert(all.take(i as int) =~= all);
        self.loading = false;
        self.next_cursor = page.next_cursor;
        let len = self.threads.len();
        let last = if len >= 1 { len - 1 } else { 0 };
        if self.selected > last {
            self.selected = last;
        }
    }

    /// Whether the server has more pages.
    pub fn has_more_pages(&self) -> (r: bool)
        ensures
            r == self.next_cursor is Some,
    {
        self.next_cursor.is_some()
    }

    /// Whether moving down should ask for the next page (`wants_more`).
    pub fn should_load_more(&self) -> (r: bool)
        ensures
            r == self.wants_more(),
    {
        !self.loading && self.next_cursor.is_some() && self.threads.len() > 0 && self.selected
            >= self.threads.len() - 1
    }

    /// Starts loading the session list from where it stands
    /// (`thread_load_started`).
    pub fn start_thread_load(&mut self) -> (r: Option<ThreadLoadRequest>)
        ensures
            Self::thread_load_started(*old(self), *final(self), r),
    {
        let cursor = match &self.next_cursor {
            Some(c) => Some(owned(c.as_str())),
            None => None,
        };
        match &cursor {
            None => {
                self.threads = Vec::new();
                self.selected = 0;
                self.expanded_thread_id = None;
                self.transcripts = Vec::new();
                self.transcript_pager = None;
                self.seen_cursors = Vec::new();
                self.transcript_previews = Vec::new();
                self.preview_loading = Vec::new();
            },
            Some(c) => {
                if contains_text_in(&self.seen_cursors, c.as_str()) {
                    self.status_message = Some(
                        concat2("thread list pagination repeated cursor ", c.as_str()),
                    );
                    return None;
                }
                let ghost before = self.seen_cursors@;
                self.seen_cursors.push(owned(c.as_str()));
                assert(self.seen_cursors@.drop_last() =~= before);
            },
        }
        let token = self.begin_load();
        let cwd = if self.show_all {
            None
        } else {
            match &self.filter_cwd {
                Some(d) => Some(owned(d.as_str())),
                None => None,
            }
        };
        Some(
            ThreadLoadRequest {
                token,
                status: self.status,
                cwd,
                query: owned(self.query.as_str()),
                sort_key: self.sort_key,
                cursor,
            },
        )
    }
}

/// Whether a session with id `id` is listed (`has_thread`).
fn contains_thread(list: &Vec<ThreadSummary>, id: &str) -> (r: bool)
    ensures
        r == has_thread(list@, id@),
{
    let mut j: usize = 0;
    while j < list.len()
        invariant
            j <= list.len(),
            forall|k: int| 0 <= k < j ==> (#[trigger] list@[k]).id@ != id@,
        decreases list.len() - j,
    {
        if str_eq(list[j].id.as_str(), id) {
            assert(list@[j as int].id@ == id@);
            return true;
        }
        j = j + 1;
    }
    false
}

/// Whether `c` was asked for already (`cursor_seen`).
fn contains_text_in(seen: &Vec<String>, c: &str) -> (r: bool)
    ensures
        r == cursor_seen(seen@, c@),
{
    let mut j: usize = 0;
    while j < seen.len()
        invariant
            j <= seen.len(),
            forall|k: int| 0 <= k < j ==> (#[trigger] seen@[k])@ != c@,
        decreases seen.len() - j,
    {
        if str_eq(seen[j].as_str(), c) {
            assert(seen@[j as int]@ == c@);
            return true;
        }
        j = j + 1;
    }
    false
}

/// What the loop does once the picker has taken an input event, giving
/// `action` and leaving the picker as `mid`: a choice ends the picker with
/// the selected session, a cancel ends it with none; an archive or restore
/// asks for that request; a change of list options or query reloads the
/// list; expanding or opening a transcript loads it when needed; moving
/// down onto the last session asks for the next page when there is one.
pub open spec fn input_followed(
    mid: PickerState,
    n: PickerState,
    action: PickerAction,
    locale: Locale,
    r: PickerLoopCommand,
) -> bool {
    match action {
        PickerAction::Select => n == mid && (r matches PickerLoopCommand::Finish(x) && opt_text(x)
            == selected_id(mid.threads@, mid.selected as int)),
        PickerAction::Restore => exists|id: Option<String>|
            #[trigger] PickerState::unarchive_requested(mid, n, id) && r == match id {
                Some(x) => PickerLoopCommand::Unarchive(x),
                None => PickerLoopCommand::Wait,
            },
        PickerAction::Archive => exists|id: Option<String>|
            #[trigger] PickerState::archive_requested(mid, n, id) && r == match id {
                Some(x) => PickerLoopCommand::Archive(x),
                None => PickerLoopCommand::Wait,
            },
        PickerAction::ToggleStatus => exists|m: PickerState, q: Option<ThreadLoadRequest>|
            PickerState::status_toggled(mid, m) && #[trigger] PickerState::thread_load_started(m, n, q)
                && r == load_command(q),
        PickerAction::ToggleFilter => exists|m: PickerState, q: Option<ThreadLoadRequest>|
            PickerState::filter_toggled(mid, m) && #[trigger] PickerState::thread_load_started(m, n, q)
                && r == load_command(q),
        PickerAction::ToggleSort => exists|m: PickerState, q: Option<ThreadLoadRequest>|
            PickerState::sort_toggled(mid, m) && #[trigger] PickerState::thread_load_started(m, n, q)
                && r == load_command(q),
        PickerAction::Reload => exists|q: Option<ThreadLoadRequest>|
            #[trigger] PickerState::thread_load_started(mid, n, q) && r == load_command(q),
        PickerAction::ToggleDensity => PickerState::density_toggled(mid, n) && r is Wait,
        PickerAction::ToggleExpanded => exists|id: Option<String>|
            #[trigger] PickerState::expansion_toggled(mid, n, id) && r == transcript_command(id),
        PickerAction::OpenTranscript => exists|id: Option<String>|
            #[trigger] PickerState::transcript_pager_opened(mid, n, locale, id) && r
                == transcript_command(id),
        PickerAction::Cancel => n == mid && r == PickerLoopCommand::Finish(None),
        PickerAction::MoveDown => if mid.wants_more() {
            exists|q: Option<ThreadLoadRequest>|
                #[trigger] PickerState::thread_load_started(mid, n, q) && r == load_command(q)
        } else {
            n == mid && r is Wait
        },
        _ => n == mid && r is Wait,
    }
}

/// One turn of the picker's loop, from the picker `o` to `n`, answering
/// `r`. A page of sessions is taken, and when it leaves the list empty
/// while the server has more, the next page is asked for; a failed load is
/// reported if it is the one in flight; transcripts and archive answers
/// are recorded, and a restored session ends the picker with its id. While
/// the transcript pager is open it takes the input events; otherwise the
/// picker does (`input_followed`). When the events end, so does the picker,
/// with no session.
pub open spec fn loop_stepped(
    o: PickerState,
    n: PickerState,
    event: PickerLoopEvent,
    locale: Locale,
    r: PickerLoopCommand,
) -> bool {
    match event {
        PickerLoopEvent::Threads { token, result } => match result {
            Ok(page) => exists|m: PickerState|
                #[trigger] PickerState::page_applied(o, m, token, page.threads@, page.next_cursor) && if m.threads@.len()
                    == 0 && m.next_cursor is Some {
                    exists|q: Option<ThreadLoadRequest>|
                        #[trigger] PickerState::thread_load_started(m, n, q) && r == load_command(q)
                } else {
                    n == m && r is Wait
                },
            Err(e) => r is Wait && PickerState::load_failed(o, n, token, e),
        },
        PickerLoopEvent::Transcript { thread_id, result } => r is Wait
            && PickerState::transcript_recorded(o, n, thread_id, result),
        PickerLoopEvent::Preview { thread_id, result } => r is Wait && match result {
            Ok(lines) => PickerState::preview_recorded(o, n, thread_id, lines),
            Err(_) => exists|v: Vec<PreviewLine>|
                v@.len() == 0 && #[trigger] PickerState::preview_recorded(o, n, thread_id, v),
        },
        PickerLoopEvent::Archive { thread_id, result } => r is Wait
            && PickerState::archive_result_applied(o, n, thread_id, result),
        PickerLoopEvent::Unarchive { thread_id, result } => exists|s: Option<SessionSelection>|
            #[trigger] PickerState::unarchive_result_applied(o, n, thread_id, result, s) && r == match s {
                Some(SessionSelection::Resume(t)) => PickerLoopCommand::Finish(Some(t.thread_id)),
                _ => PickerLoopCommand::Wait,
            },
        PickerLoopEvent::Input(e) => if o.transcript_pager is Some {
            r is Wait && PickerState::pager_event_handled(o, n, &e)
        } else {
            exists|m: PickerState, a: PickerAction|
                #[trigger] PickerState::event_handled(o, m, e, a) && input_followed(m, n, a, locale, r)
        },
        PickerLoopEvent::Closed => n == o && r == PickerLoopCommand::Finish(None),
    }
}

fn load_cmd(q: Option<ThreadLoadRequest>) -> (r: PickerLoopCommand)
    ensures
        r == load_command(q),
{
    match q {
        Some(x) => PickerLoopCommand::LoadThreads(x),
        None => PickerLoopCommand::Wait,
    }
}

fn transcript_cmd(id: Option<String>) -> (r: PickerLoopCommand)
    ensures
        r == transcript_command(id),
{
    match id {
        Some(x) => PickerLoopCommand::LoadTranscript(x),
        None => PickerLoopCommand::Wait,
    }
}

/// Takes one event of the picker's loop and says what to do next
/// (`loop_stepped`).
pub fn picker_loop_step(picker: &mut PickerState, event: PickerLoopEvent, locale: Locale) -> (r: PickerLoopCommand)
    ensures
        loop_stepped(*old(picker), *final(picker), event, locale, r),
{
    match event {
        PickerLoopEvent::Threads { token, result } => match result {
            Ok(page) => {
                let ghost pt = page.threads@;
                let ghost pc = page.next_cursor;
                picker.apply_thread_page(token, page);
                let ghost m = *picker;
                assert(PickerState::page_applied(*old(picker), m, token, pt, pc));
                if picker.threads.len() == 0 && picker.next_cursor.is_some() {
                    let q = picker.start_thread_load();
                    let ghost gq = q;
                    assert(PickerState::thread_load_started(m, *picker, gq));
                    load_cmd(q)
                } else {
                    PickerLoopCommand::Wait
                }
            },
            Err(e) => {
                picker.fail_thread_load(token, e);
                PickerLoopCommand::Wait
            },
        },
        PickerLoopEvent::Transcript { thread_id, result } => {
            picker.set_transcript(thread_id, result);
            PickerLoopCommand::Wait
        },
        PickerLoopEvent::Preview { thread_id, result } => {
            let lines = match result {
                Ok(lines) => lines,
                Err(_) => Vec::new(),
            };
            let ghost gl = lines;
            let ghost gid = thread_id;
            picker.set_transcript_preview(thread_id, lines);
            assert(PickerState::preview_recorded(*old(picker), *picker, gid, gl));
            PickerLoopCommand::Wait
        },
        PickerLoopEvent::Archive { thread_id, result } => {
            picker.handle_archive_result(thread_id, result);
            PickerLoopCommand::Wait
        },
        PickerLoopEvent::Unarchive { thread_id, result } => {
            let s = picker.handle_unarchive_result(thread_id, result);
            let ghost gs = s;
            assert(PickerState::unarchive_result_applied(*old(picker), *picker, thread_id, result, gs));
            match s {
                Some(SessionSelection::Resume(t)) => PickerLoopCommand::Finish(Some(t.thread_id)),
                _ => PickerLoopCommand::Wait,
            }
        },
        PickerLoopEvent::Input(e) => {
            if picker.transcript_pager_is_open() {
                picker.handle_transcript_pager_event(&e);
                return PickerLoopCommand::Wait;
            }
            let ghost ge = e;
            let action = picker.handle_event(e);
            let ghost m = *picker;
            assert(PickerState::event_handled(*old(picker), m, ge, action));
            match action {
                PickerAction::Select => {
                    let id = match picker.selected_thread_id() {
                        Some(x) => Some(owned(x)),
                        None => None,
                    };
                    PickerLoopCommand::Finish(id)
                },
                PickerAction::Restore => {
                    let id = picker.request_unarchive_for_selected_session();
                    let ghost gid = id;
                    assert(PickerState::unarchive_requested(m, *picker, gid));
                    match id {
                        Some(x) => PickerLoopCommand::Unarchive(x),
                        None => PickerLoopCommand::Wait,
                    }
                },
                PickerAction::Archive => {
                    let id = picker.request_archive_for_selected_session();
                    let ghost gid = id;
                    assert(PickerState::archive_requested(m, *picker, gid));
                    match id {
                        Some(x) => PickerLoopCommand::Archive(x),
                        None => PickerLoopCommand::Wait,
                    }
                },
                PickerAction::ToggleStatus | PickerAction::ToggleFilter | PickerAction::ToggleSort => {
                    match action {
                        PickerAction::ToggleStatus => picker.toggle_status(),
                        PickerAction::ToggleFilter => picker.toggle_filter(),
                        _ => picker.toggle_sort(),
                    }
                    let ghost m2 = *picker;
                    let q = picker.start_thread_load();
                    let ghost gq = q;
                    assert(PickerState::thread_load_started(m2, *picker, gq));
                    load_cmd(q)
                },
                PickerAction::Reload => {
                    let q = picker.start_thread_load();
                    let ghost gq = q;
                    assert(PickerState::thread_load_started(m, *picker, gq));
                    load_cmd(q)
                },
                PickerAction::ToggleDensity => {
                    picker.toggle_density();
                    PickerLoopCommand::Wait
                },
                PickerAction::ToggleExpanded => {
                    let id = picker.toggle_selected_expansion();
                    let ghost gid = id;
                    assert(PickerState::expansion_toggled(m, *picker, gid));
                    transcript_cmd(id)
                },
                PickerAction::OpenTranscript => {
                    let id = picker.open_transcript_pager(locale);
                    let ghost gid = id;
                    assert(PickerState::transcript_pager_opened(m, *picker, locale, gid));
                    transcript_cmd(id)
                },
                PickerAction::Cancel => PickerLoopCommand::Finish(None),
                PickerAction::MoveDown => {
                    if picker.should_load_more() {
                        let q = picker.start_thread_load();
                        let ghost gq = q;
                        assert(PickerState::thread_load_started(m, *picker, gq));
                        load_cmd(q)
                    } else {
                        PickerLoopCommand::Wait
                    }
                },
                _ => PickerLoopCommand::Wait,
            }
        },
        PickerLoopEvent::Closed => PickerLoopCommand::Finish(None),
    }
}

} // verus!
