//! The transcript line recording an approval decision.
use vstd::prelude::*;

use crate::history_cell::cells::PlainHistoryCell;
use crate::text::owned;

verus! {

/// What was decided.
#[derive(Clone, Copy, Debug, PartialEq, Eq, Structural)]
pub enum ReviewDecision {
    Approved,
    ApprovedForSession,
    Denied,
    TimedOut,
    Abort,
}

/// What the decision was about: a command (its words) or network access to
/// a target.
pub enum ApprovalDecisionSubject {
    Command(Vec<String>),
    NetworkAccess { target: String },
}

/// Who decided.
#[derive(Clone, Copy, Debug, PartialEq, Eq, Structural)]
pub enum ApprovalDecisionActor {
    User,
    Policy,
}

pub open spec fn actor_word(actor: ApprovalDecisionActor) -> Seq<char> {
    match actor {
        ApprovalDecisionActor::User => "user"@,
        ApprovalDecisionActor::Policy => "policy"@,
    }
}

pub open spec fn decision_words(decision: ReviewDecision) -> Seq<char> {
    match decision {
        ReviewDecision::Approved => "approved"@,
        ReviewDecision::ApprovedForSession => "approved for session"@,
        ReviewDecision::Denied => "denied"@,
        ReviewDecision::TimedOut => "timed out"@,
        ReviewDecision::Abort => "aborted"@,
    }
}

/// The words joined by single spaces.
pub open spec fn join_spaces(words: Seq<Seq<char>>) -> Seq<char>
    decreases words.len(),
{
    if words.len() == 0 {
        Seq::empty()
    } else if words.len() == 1 {
        words[0]
    } else {
        join_spaces(words.drop_last()) + " "@ + words.last()
    }
}

/// The subject as text: a command's words joined by spaces, or the target.
pub open spec fn subject_text(subject: ApprovalDecisionSubject) -> Seq<char> {
    match subject {
        ApprovalDecisionSubject::Command(words) => join_spaces(words@.map_values(|w: String| w@)),
        ApprovalDecisionSubject::NetworkAccess { target } => target@,
    }
}

/// The decision line: `{actor} {decision}: {subject}`.
pub open spec fn decision_line(
    subject: ApprovalDecisionSubject,
    decision: ReviewDecision,
    actor: ApprovalDecisionActor,
) -> Seq<char> {
    actor_word(actor) + " "@ + decision_words(decision) + ": "@ + subject_text(subject)
}

fn join_words(words: &Vec<String>) -> (r: String)
    ensures
        r@ == join_spaces(words@.map_values(|w: String| w@)),
{
    let ghost ws = words@.map_values(|w: String| w@);
    let mut out = String::new();
    let mut i: usize = 0;
    while i < words.len()
        invariant
            i <= words.len(),
            ws == words@.map_values(|w: String| w@),
            out@ == join_spaces(ws.take(i as int)),
        decreases words.len() - i,
    {
        assert(ws.take(i + 1).drop_last() =~= ws.take(i as int));
        if i > 0 {
            out.append(" ");
        } else {
            assert(ws.take(1) =~= seq![ws[0]]);
        }
        out.append(words[i].as_str());
        i = i + 1;
    }
    assert(ws.take(words.len() as int) =~= ws);
    out
}

/// The cell recording an approval decision: one line (`decision_line`).
pub fn new_approval_decision_cell(
    subject: ApprovalDecisionSubject,
    decision: ReviewDecision,
    actor: ApprovalDecisionActor,
) -> (r: PlainHistoryCell)
    ensures
        r.lines@.len() == 1,
        r.lines@[0]@ == decision_line(subject, decision, actor),
{
    let subject_line = match &subject {
        ApprovalDecisionSubject::Command(words) => join_words(words),
        ApprovalDecisionSubject::NetworkAccess { target } => owned(target.as_str()),
    };
    let actor_text = match actor {
        ApprovalDecisionActor::User => "user",
        ApprovalDecisionActor::Policy => "policy",
    };
    let decision_text = match decision {
        ReviewDecision::Approved => "approved",
        ReviewDecision::ApprovedForSession => "approved for session",
        ReviewDecision::Denied => "denied",
        ReviewDecision::TimedOut => "timed out",
        ReviewDecision::Abort => "aborted",
    };
    let mut line = owned(actor_text);
    line.append(" ");
    line.append(decision_text);
    line.append(": ");
    line.append(subject_line.as_str());
    let mut lines: Vec<String> = Vec::new();
    lines.push(line);
    PlainHistoryCell::new(lines)
}

} // verus!
