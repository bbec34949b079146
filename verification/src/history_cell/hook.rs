//! Bounded hook lifecycle facts for the transcript.
use vstd::prelude::*;

use crate::history_cell::{compact_spec, compact_text};
use crate::projection::{HookOutputEntry, HookOutputEntryKind, HookRunStatus, HookRunSummary};
use crate::text::{owned, trim};

verus! {

/// The most hook outputs shown.
pub const MAX_OUTPUTS: usize = 4;

/// A hook run that succeeded with model-facing context only: nothing to show.
pub open spec fn quiet_success(run: HookRunSummary) -> bool {
    run.status == HookRunStatus::Completed && forall|i: int|
        0 <= i < run.entries@.len() ==> (#[trigger] run.entries@[i]).kind
            == HookOutputEntryKind::Context
}

/// Whether a hook run succeeded with model-facing context only.
pub fn is_quiet_success(run: &HookRunSummary) -> (r: bool)
    ensures
        r == quiet_success(*run),
{
    if run.status != HookRunStatus::Completed {
        return false;
    }
    let mut i: usize = 0;
    while i < run.entries.len()
        invariant
            i <= run.entries.len(),
            forall|j: int|
                0 <= j < i ==> (#[trigger] run.entries@[j]).kind == HookOutputEntryKind::Context,
        decreases run.entries.len() - i,
    {
        if run.entries[i].kind != HookOutputEntryKind::Context {
            return false;
        }
        i = i + 1;
    }
    true
}

/// The transcript line of a finished hook run; none while it runs.
pub open spec fn status_text_spec(status: HookRunStatus) -> Option<Seq<char>> {
    match status {
        HookRunStatus::Completed => Some("hook completed"@),
        HookRunStatus::Failed => Some("hook failed"@),
        HookRunStatus::Blocked => Some("hook blocked"@),
        HookRunStatus::Stopped => Some("hook stopped"@),
        HookRunStatus::Running => None,
    }
}

/// The transcript line of a finished hook run.
pub fn status_text(status: HookRunStatus) -> (r: Option<&'static str>)
    ensures
        match r {
            Some(t) => status_text_spec(status) == Some(t@),
            None => status_text_spec(status) is None,
        },
{
    match status {
        HookRunStatus::Completed => Some("hook completed"),
        HookRunStatus::Failed => Some("hook failed"),
        HookRunStatus::Blocked => Some("hook blocked"),
        HookRunStatus::Stopped => Some("hook stopped"),
        HookRunStatus::Running => None,
    }
}

/// The shown form of one output entry: none for context entries and for
/// entries whose compacted text is blank.
pub open spec fn output_line(e: HookOutputEntry) -> Option<Seq<char>> {
    if e.kind == HookOutputEntryKind::Context || trim(compact_spec(e.text@)).len() == 0 {
        None
    } else {
        Some("hook output: "@ + compact_spec(e.text@))
    }
}

/// The shown forms of the first `n` output entries, in order.
pub open spec fn output_lines(es: Seq<HookOutputEntry>, n: int) -> Seq<Seq<char>>
    decreases n,
{
    if n <= 0 {
        Seq::empty()
    } else {
        match output_line(es[n - 1]) {
            Some(l) => output_lines(es, n - 1).push(l),
            None => output_lines(es, n - 1),
        }
    }
}

/// Whether `line` is the shown form of one of the first `n` entries, an
/// entry that is not model-facing context.
pub open spec fn shown_from(es: Seq<HookOutputEntry>, n: int, line: Seq<char>) -> bool {
    exists|j: int|
        0 <= j < n && es[j].kind != HookOutputEntryKind::Context && #[trigger] output_line(es[j])
            == Some(line)
}

/// Each shown output comes from an entry that is not model-facing context.
pub proof fn lemma_output_lines_skip_context(es: Seq<HookOutputEntry>, n: int)
    requires
        0 <= n <= es.len(),
    ensures
        forall|i: int| 0 <= i < output_lines(es, n).len() ==> shown_from(es, n, #[trigger] output_lines(es, n)[i]),
    decreases n,
{
    if n > 0 {
        lemma_output_lines_skip_context(es, n - 1);
        let r = output_lines(es, n);
        let p = output_lines(es, n - 1);
        assert forall|i: int| 0 <= i < r.len() implies shown_from(es, n, #[trigger] r[i]) by {
            if i < p.len() {
                assert(r[i] == p[i]);
                assert(shown_from(es, n - 1, p[i]));
                let j = choose|j: int|
                    0 <= j < n - 1 && es[j].kind != HookOutputEntryKind::Context && #[trigger] output_line(es[j])
                        == Some(p[i]);
                assert(output_line(es[j]) == Some(r[i]));
            } else {
                assert(output_line(es[n - 1]) == Some(r[i]));
            }
        }
    }
}

/// A hook run shows at most four outputs, and none of them comes from
/// model-facing context.
pub proof fn lemma_output_details_hide_context(run: HookRunSummary)
    ensures
        output_details_spec(run).len() <= MAX_OUTPUTS,
        forall|i: int|
            0 <= i < output_details_spec(run).len() ==> shown_from(
                run.entries@,
                run.entries@.len() as int,
                #[trigger] output_details_spec(run)[i],
            ),
{
    let es = run.entries@;
    lemma_output_lines_skip_context(es, es.len() as int);
    let all = output_lines(es, es.len() as int);
    assert forall|i: int| 0 <= i < output_details_spec(run).len() implies shown_from(
        es,
        es.len() as int,
        #[trigger] output_details_spec(run)[i],
    ) by {
        assert(output_details_spec(run)[i] == all[i]);
    }
}

/// The user-visible outputs of a hook run, at most four; model-facing
/// context stays hidden.
pub open spec fn output_details_spec(run: HookRunSummary) -> Seq<Seq<char>> {
    let all = output_lines(run.entries@, run.entries@.len() as int);
    if all.len() > MAX_OUTPUTS {
        all.take(MAX_OUTPUTS as int)
    } else {
        all
    }
}

/// The user-visible outputs of a hook run, at most four.
pub fn output_details(run: &HookRunSummary) -> (r: Vec<String>)
    ensures
        r@.map_values(|l: String| l@) == output_details_spec(*run),
{
    let mut out: Vec<String> = Vec::new();
    let mut i: usize = 0;
    let ghost es = run.entries@;
    while i < run.entries.len() && out.len() < MAX_OUTPUTS
        invariant
            i <= run.entries.len(),
            es == run.entries@,
            out.len() <= MAX_OUTPUTS,
            out@.map_values(|l: String| l@) == output_lines(es, i as int),
        decreases run.entries.len() - i,
    {
        let e = &run.entries[i];
        if e.kind != HookOutputEntryKind::Context {
            let text = compact_text(e.text.as_str());
            if !crate::text::is_blank(text.as_str()) {
                let mut line = owned("hook output: ");
                line.append(text.as_str());
                out.push(line);
            }
        }
        i = i + 1;
    }
    proof {
        lemma_output_lines_prefix(es, i as int, es.len() as int);
    }
    out
}

/// Shown lines only accumulate: those of a prefix start those of the whole.
proof fn lemma_output_lines_prefix(es: Seq<HookOutputEntry>, i: int, n: int)
    requires
        0 <= i <= n,
    ensures
        output_lines(es, i).len() <= output_lines(es, n).len(),
        output_lines(es, n).take(output_lines(es, i).len() as int) == output_lines(es, i),
    decreases n - i,
{
    if i < n {
        lemma_output_lines_prefix(es, i, n - 1);
        let a = output_lines(es, i);
        let b = output_lines(es, n - 1);
        assert(b.take(a.len() as int) == a);
        match output_line(es[n - 1]) {
            Some(l) => {
                assert(b.push(l).take(a.len() as int) =~= b.take(a.len() as int));
            },
            None => {},
        }
    } else {
        assert(output_lines(es, n).take(output_lines(es, n).len() as int) =~= output_lines(es, n));
    }
}

} // verus!
