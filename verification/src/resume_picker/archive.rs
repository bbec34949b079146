//! Archiving and restoring the selected session, one request at a time.
use vstd::prelude::*;

use super::{
    holds_text, remove_transcript, selected_id, transcript_of, ArchiveState, PickerState,
    SessionSelection, SessionTarget, ThreadSummary,
};
use crate::text::{concat2, owned, str_eq};

verus! {

/// Whether the request in flight is the archive of session `id`.
pub open spec fn archiving(a: ArchiveState, id: Seq<char>) -> bool {
    a matches ArchiveState::Pending { thread_id } && thread_id@ == id
}

/// Whether the request in flight is the restore of session `id`.
pub open spec fn restoring(a: ArchiveState, id: Seq<char>) -> bool {
    a matches ArchiveState::Restoring { thread_id } && thread_id@ == id
}

/// The sessions other than `id`, in order.
pub open spec fn without_thread(threads: Seq<ThreadSummary>, id: Seq<char>) -> Seq<ThreadSummary> {
    threads.filter(|t: ThreadSummary| t.id@ != id)
}

/// While a request is in flight, no other can start.
pub proof fn lemma_request_in_flight_blocks_archive(s: PickerState)
    requires
        !(s.archive_state is Idle),
    ensures
        !s.archive_ready(),
{
}

fn drop_thread(threads: Vec<ThreadSummary>, id: &str) -> (r: Vec<ThreadSummary>)
    ensures
        r@ == without_thread(threads@, id@),
{
    let ghost all = threads@;
    let n = threads.len();
    let mut rest = threads;
    let mut out: Vec<ThreadSummary> = Vec::new();
    let mut i: usize = 0;
    while i < n
        invariant
            i <= n,
            all.len() == n,
            rest@ == all.skip(i as int),
            out@ == without_thread(all.take(i as int), id@),
        decreases n - i,
    {
        let t = rest.remove(0);
        assert(t == all[i as int]);
        assert(all.skip(i + 1) =~= all.skip(i as int).drop_first());
        assert(all.take(i + 1).drop_last() =~= all.take(i as int));
        reveal_with_fuel(Seq::filter, 1);
        if !str_eq(t.id.as_str(), id) {
            out.push(t);
        }
        i = i + 1;
    }
    assert(all.take(n as int) =~= all);
    out
}

impl PickerState {
    /// Whether the archive shortcut may start a request: none is in flight
    /// and a session is selected.
    pub fn archive_shortcut_available(&self) -> (r: bool)
        ensures
            r == self.archive_ready(),
    {
        let idle = match self.archive_state {
            ArchiveState::Idle => true,
            _ => false,
        };
        idle && self.selected < self.threads.len()
    }

    /// Starts archiving the selected session and returns its id; `None`,
    /// with nothing changed, when a request is in flight or no session is
    /// selected.
    pub fn request_archive_for_selected_session(&mut self) -> (r: Option<String>)
        ensures
            Self::archive_requested(*old(self), *final(self), r),
    {
        if !self.archive_shortcut_available() {
            return None;
        }
        let thread_id = owned(self.threads[self.selected].id.as_str());
        self.archive_state = ArchiveState::Pending { thread_id: owned(thread_id.as_str()) };
        self.status_message = None;
        Some(thread_id)
    }

    /// Starts restoring the selected session and returns its id; `None`,
    /// with nothing changed, when a request is in flight or no session is
    /// selected.
    pub fn request_unarchive_for_selected_session(&mut self) -> (r: Option<String>)
        ensures
            Self::unarchive_requested(*old(self), *final(self), r),
    {
        if !self.archive_shortcut_available() {
            return None;
        }
        let thread_id = owned(self.threads[self.selected].id.as_str());
        self.archive_state = ArchiveState::Restoring { thread_id: owned(thread_id.as_str()) };
        self.status_message = None;
        Some(thread_id)
    }

    /// Takes the server's answer to the archive of `thread_id`. An answer
    /// to no request in flight changes nothing. A failure ends the request
    /// and says why; a success ends it, drops the session with its details
    /// and keeps the selection on the list.
    pub fn handle_archive_result(&mut self, thread_id: String, result: Result<(), String>)
        ensures
            Self::archive_result_applied(*old(self), *final(self), thread_id, result),
    {
        let pending = match &self.archive_state {
            ArchiveState::Pending { thread_id: p } => str_eq(p.as_str(), thread_id.as_str()),
            _ => false,
        };
        if !pending {
            return;
        }
        self.archive_state = ArchiveState::Idle;
        match result {
            Err(error) => {
                self.status_message = Some(concat2("Failed to archive session: ", error.as_str()));
                proof {
                    reveal_strlit("Failed to archive session: ");
                }
            },
            Ok(()) => {
                let mut threads: Vec<ThreadSummary> = Vec::new();
                std::mem::swap(&mut threads, &mut self.threads);
                self.threads = drop_thread(threads, thread_id.as_str());
                remove_transcript(&mut self.transcripts, thread_id.as_str());
                remove_transcript(&mut self.transcript_previews, thread_id.as_str());
                let close_pager = match &self.transcript_pager {
                    Some(p) => str_eq(p.thread_id.as_str(), thread_id.as_str()),
                    None => false,
                };
                if close_pager {
                    self.transcript_pager = None;
                }
                let expanded = match &self.expanded_thread_id {
                    Some(e) => str_eq(e.as_str(), thread_id.as_str()),
                    None => false,
                };
                if expanded {
                    self.expanded_thread_id = None;
                }
                let len = self.threads.len();
                if self.selected >= len {
                    self.selected = if len > 0 { len - 1 } else { 0 };
                }
                self.status_message = None;
            },
        }
    }

    /// Takes the server's answer to the restore of `thread_id`: the session
    /// to resume, as the server describes it, on success. An answer to no
    /// request in flight changes nothing; a failure ends the request and
    /// says why.
    pub fn handle_unarchive_result(&mut self, thread_id: String, result: Result<SessionTarget, String>) -> (r: Option<SessionSelection>)
        ensures
            Self::unarchive_result_applied(*old(self), *final(self), thread_id, result, r),
    {
        let restoring = match &self.archive_state {
            ArchiveState::Restoring { thread_id: p } => str_eq(p.as_str(), thread_id.as_str()),
            _ => false,
        };
        if !restoring {
            return None;
        }
        self.archive_state = ArchiveState::Idle;
        match result {
            Ok(target) => Some(SessionSelection::Resume(target)),
            Err(error) => {
                self.status_message = Some(
                    concat2("Failed to restore archived session: ", error.as_str()),
                );
                None
            },
        }
    }
}


impl PickerState {
    /// What `archive_requested` promises of the picker before and after it.
    pub open spec fn archive_requested(o: PickerState, n: PickerState, r: Option<String>) -> bool {
        &&& !o.archive_ready() ==> r is None && n == o
        &&& o.archive_ready() ==> {
            let id = selected_id(o.threads@, o.selected as int).unwrap();
            &&& r matches Some(x) && x@ == id
            &&& archiving(n.archive_state, id)
            &&& n == (PickerState {
                archive_state: n.archive_state,
                status_message: None,
                ..o
            })
        }
    }

    /// What `unarchive_requested` promises of the picker before and after it.
    pub open spec fn unarchive_requested(o: PickerState, n: PickerState, r: Option<String>) -> bool {
        &&& !o.archive_ready() ==> r is None && n == o
        &&& o.archive_ready() ==> {
            let id = selected_id(o.threads@, o.selected as int).unwrap();
            &&& r matches Some(x) && x@ == id
            &&& restoring(n.archive_state, id)
            &&& n == (PickerState {
                archive_state: n.archive_state,
                status_message: None,
                ..o
            })
        }
    }

    /// What `archive_result_applied` promises of the picker before and after it.
    pub open spec fn archive_result_applied(o: PickerState, n: PickerState, thread_id: String, result: Result<(), String>) -> bool {
        &&& !archiving(o.archive_state, thread_id@) ==> n == o
        &&& archiving(o.archive_state, thread_id@) ==> n.archive_state is Idle
        &&& archiving(o.archive_state, thread_id@) ==> match result {
            Err(e) => {
                &&& n.status_message matches Some(m)
                    && m@ == "Failed to archive session: "@ + e@
                &&& n == (PickerState {
                    archive_state: n.archive_state,
                    status_message: n.status_message,
                    ..o
                })
            },
            Ok(_) => {
                let threads = without_thread(o.threads@, thread_id@);
                &&& n.threads@ == threads
                &&& n.selected == if o.selected < threads.len() {
                    o.selected as int
                } else if threads.len() > 0 {
                    threads.len() - 1
                } else {
                    0
                }
                &&& transcript_of(n.transcripts@, thread_id@) is None
                &&& forall|x: Seq<char>| x != thread_id@ ==> transcript_of(n.transcripts@, x)
                    == transcript_of(o.transcripts@, x)
                &&& transcript_of(n.transcript_previews@, thread_id@) is None
                &&& forall|x: Seq<char>| x != thread_id@ ==> transcript_of(n.transcript_previews@, x)
                    == transcript_of(o.transcript_previews@, x)
                &&& n.transcript_pager == match o.transcript_pager {
                    Some(p) => if p.thread_id@ == thread_id@ { None } else { Some(p) },
                    None => None,
                }
                &&& n.expanded_thread_id == if holds_text(o.expanded_thread_id, thread_id@) {
                    None
                } else {
                    o.expanded_thread_id
                }
                &&& n.status_message is None
                &&& n == (PickerState {
                    threads: n.threads,
                    selected: n.selected,
                    transcripts: n.transcripts,
                    transcript_previews: n.transcript_previews,
                    transcript_pager: n.transcript_pager,
                    expanded_thread_id: n.expanded_thread_id,
                    archive_state: n.archive_state,
                    status_message: n.status_message,
                    ..o
                })
            }
        }
    }

    /// What `unarchive_result_applied` promises of the picker before and after it.
    pub open spec fn unarchive_result_applied(o: PickerState, n: PickerState, thread_id: String, result: Result<SessionTarget, String>, r: Option<SessionSelection>) -> bool {
        &&& !restoring(o.archive_state, thread_id@) ==> r is None && n == o
        &&& restoring(o.archive_state, thread_id@) ==> n.archive_state is Idle
        &&& restoring(o.archive_state, thread_id@) ==> match result {
            Ok(target) => {
                &&& r matches Some(SessionSelection::Resume(t)) && t == target
                &&& n == (PickerState { archive_state: n.archive_state, ..o })
            },
            Err(e) => {
                &&& r is None
                &&& n.status_message matches Some(m)
                    && m@ == "Failed to restore archived session: "@ + e@
                &&& n == (PickerState {
                    archive_state: n.archive_state,
                    status_message: n.status_message,
                    ..o
                })
            }
        }
    }
}

} // verus!
