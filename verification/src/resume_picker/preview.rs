//! Transcript previews of the listed sessions: which to load, what is
//! known, and the one-line text shown for a session.
use vstd::prelude::*;

use super::{
    holds_id, put_transcript, selected_id, transcript_of, PickerState, PreviewLine,
    PreviewSpeaker,
};
use crate::text::{owned, str_eq};

verus! {

/// The text of a preview line: who spoke, then what was said.
pub open spec fn preview_line_text(l: PreviewLine) -> Seq<char> {
    (match l.speaker {
        PreviewSpeaker::User => "you: "@,
        PreviewSpeaker::Assistant => "assistant: "@,
    }) + l.text@
}

/// The lines joined by ` | `.
pub open spec fn join_bars(parts: Seq<Seq<char>>) -> Seq<char>
    decreases parts.len(),
{
    if parts.len() == 0 {
        Seq::empty()
    } else if parts.len() == 1 {
        parts[0]
    } else {
        join_bars(parts.drop_last()) + " | "@ + parts.last()
    }
}

/// The one-line preview of session `id`: its preview lines joined, when it
/// has a preview with a line.
pub open spec fn preview_text(p: PickerState, id: Seq<char>) -> Option<Seq<char>> {
    match transcript_of(p.transcript_previews@, id) {
        Some(lines) => if lines@.len() == 0 {
            None
        } else {
            Some(join_bars(lines@.map_values(|l: PreviewLine| preview_line_text(l))))
        },
        None => None,
    }
}

/// Whether session `id` needs its preview loaded: none is known and none
/// is being loaded.
pub open spec fn needs_preview(p: PickerState, id: Seq<char>) -> bool {
    transcript_of(p.transcript_previews@, id) is None && !holds_id(p.preview_loading@, id)
}

impl PickerState {
    /// What `set_transcript_preview` promises: the preview of `thread_id`
    /// is recorded and it is no longer being loaded; nothing else changes.
    pub open spec fn preview_recorded(o: PickerState, n: PickerState, thread_id: String, preview: Vec<PreviewLine>) -> bool {
        &&& transcript_of(n.transcript_previews@, thread_id@) == Some(preview)
        &&& forall|x: Seq<char>| x != thread_id@ ==> transcript_of(n.transcript_previews@, x)
            == transcript_of(o.transcript_previews@, x)
        &&& forall|x: Seq<char>| holds_id(n.preview_loading@, x) == (holds_id(o.preview_loading@, x) && x != thread_id@)
        &&& n == (PickerState {
            transcript_previews: n.transcript_previews,
            preview_loading: n.preview_loading,
            ..o
        })
    }

    /// What `next_preview_request` promises: when the selected session
    /// needs its preview, it is marked loading and its id returned;
    /// otherwise nothing changes.
    pub open spec fn preview_requested(o: PickerState, n: PickerState, r: Option<String>) -> bool {
        match selected_id(o.threads@, o.selected as int) {
            Some(id) => if needs_preview(o, id) {
                &&& r matches Some(x) && x@ == id
                &&& n.preview_loading@.len() == o.preview_loading@.len() + 1
                &&& n.preview_loading@.drop_last() == o.preview_loading@
                &&& n.preview_loading@.last()@ == id
                &&& n == (PickerState { preview_loading: n.preview_loading, ..o })
            } else {
                r is None && n == o
            },
            None => r is None && n == o,
        }
    }

    /// Records the preview of a session (`preview_recorded`).
    pub fn set_transcript_preview(&mut self, thread_id: String, preview: Vec<PreviewLine>)
        ensures
            Self::preview_recorded(*old(self), *final(self), thread_id, preview),
    {
        let ghost id = thread_id@;
        remove_text(&mut self.preview_loading, thread_id.as_str());
        put_transcript(&mut self.transcript_previews, thread_id, preview);
    }

    /// Whether session `thread_id` needs its preview loaded
    /// (`needs_preview`).
    pub fn preview_needs_load(&self, thread_id: &str) -> (r: bool)
        ensures
            r == needs_preview(*self, thread_id@),
    {
        !contains_id(&self.preview_loading, thread_id) && super::find_transcript(
            &self.transcript_previews,
            thread_id,
        ).is_none()
    }

    /// Marks the selected session's preview loading when it needs one, and
    /// returns its id for the caller to load (`preview_requested`).
    pub fn next_preview_request(&mut self) -> (r: Option<String>)
        ensures
            Self::preview_requested(*old(self), *final(self), r),
    {
        let id = match self.selected_thread_id() {
            Some(id) => owned(id),
            None => return None,
        };
        if !self.preview_needs_load(id.as_str()) {
            return None;
        }
        let ghost before = self.preview_loading@;
        self.preview_loading.push(owned(id.as_str()));
        assert(self.preview_loading@.drop_last() =~= before);
        Some(id)
    }

    /// The one-line preview of a session (`preview_text`).
    pub fn transcript_preview_text(&self, thread_id: &str) -> (r: Option<String>)
        ensures
            match r {
                Some(t) => preview_text(*self, thread_id@) == Some(t@),
                None => preview_text(*self, thread_id@) is None,
            },
    {
        let k = match super::find_transcript(&self.transcript_previews, thread_id) {
            Some(k) => k,
            None => return None,
        };
        proof {
            super::lemma_transcript_index(self.transcript_previews@, thread_id@);
        }
        let lines = &self.transcript_previews[k].1;
        if lines.len() == 0 {
            return None;
        }
        let ghost parts = lines@.map_values(|l: PreviewLine| preview_line_text(l));
        let mut out = String::new();
        let mut i: usize = 0;
        while i < lines.len()
            invariant
                i <= lines.len(),
                parts == lines@.map_values(|l: PreviewLine| preview_line_text(l)),
                out@ == join_bars(parts.take(i as int)),
            decreases lines.len() - i,
        {
            assert(parts.take(i + 1).drop_last() =~= parts.take(i as int));
            assert(parts.take(i + 1).last() == preview_line_text(lines@[i as int]));
            if i > 0 {
                out.append(" | ");
            } else {
                assert(parts.take(1) =~= seq![preview_line_text(lines@[0])]);
            }
            match lines[i].speaker {
                PreviewSpeaker::User => out.append("you: "),
                PreviewSpeaker::Assistant => out.append("assistant: "),
            }
            out.append(lines[i].text.as_str());
            i = i + 1;
        }
        assert(parts.take(lines.len() as int) =~= parts);
        Some(out)
    }
}

/// Whether `id` is among the texts (`holds_id`).
fn contains_id(v: &Vec<String>, id: &str) -> (r: bool)
    ensures
        r == holds_id(v@, id@),
{
    let mut j: usize = 0;
    while j < v.len()
        invariant
            j <= v.len(),
            forall|k: int| 0 <= k < j ==> (#[trigger] v@[k])@ != id@,
        decreases v.len() - j,
    {
        if str_eq(v[j].as_str(), id) {
            assert(v@[j as int]@ == id@);
            return true;
        }
        j = j + 1;
    }
    false
}

/// Drops every copy of `id` from the texts.
fn remove_text(v: &mut Vec<String>, id: &str)
    ensures
        forall|x: Seq<char>| holds_id(final(v)@, x) == (holds_id(old(v)@, x) && x != id@),
{
    let mut rest: Vec<String> = Vec::new();
    std::mem::swap(&mut rest, v);
    let ghost all = rest@;
    let n = rest.len();
    let mut i: usize = 0;
    while i < n
        invariant
            i <= n,
            all.len() == n,
            rest@ == all.skip(i as int),
            forall|x: Seq<char>| holds_id(v@, x) == (holds_id(all.take(i as int), x) && x != id@),
        decreases n - i,
    {
        let e = rest.remove(0);
        assert(e == all[i as int]);
        assert(all.skip(i + 1) =~= all.skip(i as int).drop_first());
        let ghost before = v@;
        let keep = !str_eq(e.as_str(), id);
        if keep {
            v.push(e);
        }
        proof {
            let t = all.take(i + 1);
            assert(t =~= all.take(i as int).push(e));
            assert forall|x: Seq<char>| holds_id(v@, x) == (holds_id(t, x) && x != id@) by {
                if holds_id(t, x) && x != id@ {
                    let k = choose|k: int| 0 <= k < t.len() && (#[trigger] t[k])@ == x;
                    if k < i {
                        assert(all.take(i as int)[k] == t[k]);
                        assert(holds_id(before, x));
                        let q = choose|q: int| 0 <= q < before.len() && (#[trigger] before[q])@ == x;
                        assert(v@[q] == before[q]);
                    } else {
                        assert(v@[before.len() as int] == e);
                    }
                }
                if holds_id(v@, x) {
                    let q = choose|q: int| 0 <= q < v@.len() && (#[trigger] v@[q])@ == x;
                    if q < before.len() {
                        assert(v@[q] == before[q]);
                        assert(holds_id(before, x));
                        let k = choose|k: int| 0 <= k < i && (#[trigger] all.take(i as int)[k])@ == x;
                        assert(t[k] == all.take(i as int)[k]);
                    } else {
                        assert(t[i as int] == e);
                    }
                }
            }
        }
        i = i + 1;
    }
    assert(all.take(n as int) =~= all);
}

} // verus!
