//! The transcript record of a finished request for user input: how many
//! questions were answered, and each question with its answer.
use vstd::prelude::*;

use crate::history_cell::mcp_result::join_commas;
use crate::protocol::{ToolRequestUserInputAnswer, ToolRequestUserInputQuestion};
use crate::text::{dec, owned, push_dec, str_eq};

verus! {

/// A finished request for user input: the questions, the answers by
/// question id (one per id), and whether the request was interrupted.
pub struct RequestUserInputResultCell {
    questions: Vec<ToolRequestUserInputQuestion>,
    answers: Vec<(String, ToolRequestUserInputAnswer)>,
    interrupted: bool,
}

/// What a request-for-input record holds.
pub struct RequestUserInputView {
    pub questions: Seq<ToolRequestUserInputQuestion>,
    pub answers: Seq<(String, ToolRequestUserInputAnswer)>,
    pub interrupted: bool,
}

impl View for RequestUserInputResultCell {
    type V = RequestUserInputView;

    closed spec fn view(&self) -> RequestUserInputView {
        RequestUserInputView {
            questions: self.questions@,
            answers: self.answers@,
            interrupted: self.interrupted,
        }
    }
}

/// Whether no two answers are for the same question id.
pub open spec fn unique_answer_ids(answers: Seq<(String, ToolRequestUserInputAnswer)>) -> bool {
    forall|i: int, j: int| 0 <= i < j < answers.len() ==> (#[trigger] answers[i]).0@ != (#[trigger] answers[j]).0@
}

/// The answers after `p` is given: it replaces the answer to the same
/// question, or is added.
pub open spec fn put_answer(
    answers: Seq<(String, ToolRequestUserInputAnswer)>,
    p: (String, ToolRequestUserInputAnswer),
) -> Seq<(String, ToolRequestUserInputAnswer)> {
    match answer_index(answers, p.0@) {
        Some(k) => answers.update(k, p),
        None => answers.push(p),
    }
}

/// The answers by question id, given in turn: a later answer to a
/// question replaces an earlier one.
pub open spec fn collect_answers(given: Seq<(String, ToolRequestUserInputAnswer)>) -> Seq<(String, ToolRequestUserInputAnswer)>
    decreases given.len(),
{
    if given.len() == 0 {
        Seq::empty()
    } else {
        put_answer(collect_answers(given.drop_last()), given.last())
    }
}

/// The position of the answer to question `id`.
pub open spec fn answer_index(answers: Seq<(String, ToolRequestUserInputAnswer)>, id: Seq<char>) -> Option<int>
    decreases answers.len(),
{
    if answers.len() == 0 {
        None
    } else if answers[0].0@ == id {
        Some(0)
    } else {
        match answer_index(answers.drop_first(), id) {
            Some(k) => Some(k + 1),
            None => None,
        }
    }
}

/// How the answer to question `id` reads: its answers joined by `, `, or
/// `(unanswered)`.
pub open spec fn answer_text(answers: Seq<(String, ToolRequestUserInputAnswer)>, id: Seq<char>) -> Seq<char> {
    match answer_index(answers, id) {
        Some(k) => join_commas(answers[k].1.answers@.map_values(|a: String| a@)),
        None => "(unanswered)"@,
    }
}

/// How many of the first `n` questions have an answer.
pub open spec fn answered_count(
    questions: Seq<ToolRequestUserInputQuestion>,
    answers: Seq<(String, ToolRequestUserInputAnswer)>,
    n: int,
) -> nat
    decreases n,
{
    if n <= 0 {
        0
    } else {
        answered_count(questions, answers, n - 1) + if answer_index(answers, questions[n - 1].id@) is Some {
            1nat
        } else {
            0nat
        }
    }
}

/// The lines of the record: `Questions <answered>/<asked> answered`, with
/// ` (interrupted)` after an interruption, then each question with its
/// answer.
pub open spec fn result_lines(
    questions: Seq<ToolRequestUserInputQuestion>,
    answers: Seq<(String, ToolRequestUserInputAnswer)>,
    interrupted: bool,
) -> Seq<Seq<char>> {
    seq![
        "Questions "@ + dec(answered_count(questions, answers, questions.len() as int)) + "/"@ + dec(
            questions.len(),
        ) + " answered"@ + if interrupted {
            " (interrupted)"@
        } else {
            Seq::empty()
        },
    ] + Seq::new(
        questions.len(),
        |i: int| questions[i].question@ + ": "@ + answer_text(answers, questions[i].id@),
    )
}

proof fn lemma_answer_index(answers: Seq<(String, ToolRequestUserInputAnswer)>, id: Seq<char>)
    ensures
        match answer_index(answers, id) {
            Some(k) => 0 <= k < answers.len() && answers[k].0@ == id,
            None => forall|j: int| 0 <= j < answers.len() ==> #[trigger] answers[j].0@ != id,
        },
    decreases answers.len(),
{
    if answers.len() > 0 && answers[0].0@ != id {
        lemma_answer_index(answers.drop_first(), id);
        assert forall|j: int| 1 <= j < answers.len() implies #[trigger] answers[j].0@ == answers.drop_first()[j - 1].0@ by {}
    }
}

/// Collecting answers leaves one answer per question id, and every id
/// given has an answer.
pub proof fn lemma_collect_answers(given: Seq<(String, ToolRequestUserInputAnswer)>)
    ensures
        unique_answer_ids(collect_answers(given)),
        forall|k: int| 0 <= k < given.len() ==> answer_index(collect_answers(given), #[trigger] given[k].0@) is Some,
    decreases given.len(),
{
    if given.len() > 0 {
        let prev = collect_answers(given.drop_last());
        let p = given.last();
        lemma_collect_answers(given.drop_last());
        lemma_answer_index(prev, p.0@);
        let r = collect_answers(given);
        assert forall|i: int, j: int| 0 <= i < j < r.len() implies (#[trigger] r[i]).0@ != (#[trigger] r[j]).0@ by {
            match answer_index(prev, p.0@) {
                Some(k) => {
                    if i == k {
                        assert(r[j] == prev[j]);
                    } else if j == k {
                        assert(r[i] == prev[i]);
                    } else {
                        assert(r[i] == prev[i] && r[j] == prev[j]);
                    }
                },
                None => {
                    if j == prev.len() {
                        assert(r[i] == prev[i]);
                    } else {
                        assert(r[i] == prev[i] && r[j] == prev[j]);
                    }
                },
            }
        }
        assert forall|k: int| 0 <= k < given.len() implies answer_index(r, #[trigger] given[k].0@) is Some by {
            lemma_answer_index(r, given[k].0@);
            if k < given.len() - 1 {
                assert(given.drop_last()[k] == given[k]);
                lemma_answer_index(prev, given[k].0@);
                let q = answer_index(prev, given[k].0@).unwrap();
                match answer_index(prev, p.0@) {
                    Some(m) => {
                        if q != m {
                            assert(r[q] == prev[q]);
                        } else {
                            assert(r[m] == p);
                        }
                    },
                    None => {
                        assert(r[q] == prev[q]);
                    },
                }
            } else {
                match answer_index(prev, p.0@) {
                    Some(m) => {
                        assert(r[m] == p);
                    },
                    None => {
                        assert(r[prev.len() as int] == p);
                    },
                }
            }
        }
    }
}

fn find_answer(answers: &Vec<(String, ToolRequestUserInputAnswer)>, id: &str) -> (r: Option<usize>)
    ensures
        match r {
            Some(k) => answer_index(answers@, id@) == Some(k as int),
            None => answer_index(answers@, id@) is None,
        },
{
    let ghost a = answers@;
    let mut k: usize = 0;
    assert(a.skip(0) =~= a);
    while k < answers.len()
        invariant
            k <= answers.len(),
            a == answers@,
            answer_index(a, id@) == match answer_index(a.skip(k as int), id@) {
                Some(j) => Some(j + k),
                None => None,
            },
        decreases answers.len() - k,
    {
        assert(a.skip(k as int)[0] == a[k as int]);
        assert(a.skip(k as int).drop_first() =~= a.skip(k + 1));
        if str_eq(answers[k].0.as_str(), id) {
            return Some(k);
        }
        k = k + 1;
    }
    None
}

pub(crate) fn join_answers(parts: &Vec<String>) -> (r: String)
    ensures
        r@ == join_commas(parts@.map_values(|a: String| a@)),
{
    let ghost v = parts@.map_values(|a: String| a@);
    let mut out = String::new();
    let mut i: usize = 0;
    while i < parts.len()
        invariant
            i <= parts.len(),
            v == parts@.map_values(|a: String| a@),
            out@ == join_commas(v.take(i as int)),
        decreases parts.len() - i,
    {
        assert(v.take(i + 1).drop_last() =~= v.take(i as int));
        assert(v.take(i + 1).last() == parts@[i as int]@);
        if i > 0 {
            out.append(", ");
        } else {
            assert(v.take(1) =~= seq![parts@[0]@]);
        }
        out.append(parts[i].as_str());
        i = i + 1;
    }
    assert(v.take(parts.len() as int) =~= v);
    out
}

impl RequestUserInputResultCell {
    #[verifier::type_invariant]
    spec fn one_answer_per_question(self) -> bool {
        unique_answer_ids(self.answers@)
    }

    /// A record of the questions and the answers given, by question id; a
    /// later answer to a question replaces an earlier one.
    pub fn new(
        questions: Vec<ToolRequestUserInputQuestion>,
        answers: Vec<(String, ToolRequestUserInputAnswer)>,
        interrupted: bool,
    ) -> (r: RequestUserInputResultCell)
        ensures
            r@.questions == questions@,
            r@.answers == collect_answers(answers@),
            r@.interrupted == interrupted,
    {
        let ghost all = answers@;
        let mut rest = answers;
        let mut out: Vec<(String, ToolRequestUserInputAnswer)> = Vec::new();
        let mut i: usize = 0;
        let total: usize = rest.len();
        assert(all.take(0) =~= Seq::<(String, ToolRequestUserInputAnswer)>::empty());
        while rest.len() > 0
            invariant
                i <= all.len(),
                all.len() == total,
                rest@ == all.skip(i as int),
                out@ == collect_answers(all.take(i as int)),
            decreases rest.len(),
        {
            let p = rest.remove(0);
            assert(p == all[i as int]);
            assert(all.take(i + 1).drop_last() =~= all.take(i as int));
            assert(all.take(i + 1).last() == p);
            match find_answer(&out, p.0.as_str()) {
                Some(k) => {
                    proof {
                        lemma_answer_index(out@, p.0@);
                    }
                    out.set(k, p);
                },
                None => {
                    out.push(p);
                },
            }
            i = i + 1;
            assert(all.skip(i as int) =~= all.skip(i - 1).drop_first());
        }
        assert(all.take(i as int) =~= all);
        proof {
            lemma_collect_answers(all);
        }
        RequestUserInputResultCell { questions, answers: out, interrupted }
    }

    /// The lines of the record (`result_lines`), whatever the width.
    pub fn display_lines(&self, width: u16) -> (r: Vec<String>)
        ensures
            r@.map_values(|s: String| s@) == result_lines(self@.questions, self@.answers, self@.interrupted),
    {
        let ghost qs = self.questions@;
        let ghost ans = self.answers@;
        let mut answered: usize = 0;
        let mut i: usize = 0;
        while i < self.questions.len()
            invariant
                i <= self.questions.len(),
                qs == self.questions@,
                ans == self.answers@,
                answered <= i,
                answered == answered_count(qs, ans, i as int),
            decreases self.questions.len() - i,
        {
            if find_answer(&self.answers, self.questions[i].id.as_str()).is_some() {
                answered = answered + 1;
            }
            i = i + 1;
        }
        let mut header = owned("Questions ");
        push_dec(&mut header, answered as u64);
        header.append("/");
        push_dec(&mut header, self.questions.len() as u64);
        header.append(" answered");
        if self.interrupted {
            header.append(" (interrupted)");
        }
        let mut lines: Vec<String> = Vec::new();
        lines.push(header);
        let ghost tail = Seq::new(qs.len(), |i: int| qs[i].question@ + ": "@ + answer_text(ans, qs[i].id@));
        let mut k: usize = 0;
        while k < self.questions.len()
            invariant
                k <= self.questions.len(),
                qs == self.questions@,
                ans == self.answers@,
                lines@.len() == k + 1,
                tail == Seq::new(qs.len(), |i: int| qs[i].question@ + ": "@ + answer_text(ans, qs[i].id@)),
                lines@[0]@ == result_lines(qs, ans, self.interrupted)[0],
                forall|j: int| 0 <= j < k ==> #[trigger] lines@[j + 1]@ == tail[j],
            decreases self.questions.len() - k,
        {
            let q = &self.questions[k];
            let mut line = owned(q.question.as_str());
            line.append(": ");
            match find_answer(&self.answers, q.id.as_str()) {
                Some(a) => {
                    proof {
                        lemma_answer_index(ans, q.id@);
                    }
                    let text = join_answers(&self.answers[a].1.answers);
                    line.append(text.as_str());
                },
                None => {
                    line.append("(unanswered)");
                },
            }
            assert(line@ == tail[k as int]);
            let ghost before = lines@;
            lines.push(line);
            assert forall|j: int| 0 <= j < k + 1 implies #[trigger] lines@[j + 1]@ == tail[j] by {
                if j < k {
                    assert(lines@[j + 1] == before[j + 1]);
                }
            }
            k = k + 1;
        }
        assert(lines@.map_values(|s: String| s@) =~= result_lines(qs, ans, self.interrupted)) by {
            let r = result_lines(qs, ans, self.interrupted);
            assert forall|j: int| 0 <= j < r.len() implies lines@.map_values(|s: String| s@)[j] == r[j] by {
                if j > 0 {
                    assert(lines@[(j - 1) + 1]@ == tail[j - 1]);
                }
            }
        }
        lines
    }

    /// The lines of the record (`result_lines`).
    pub fn raw_lines(&self) -> (r: Vec<String>)
        ensures
            r@.map_values(|s: String| s@) == result_lines(self@.questions, self@.answers, self@.interrupted),
    {
        self.display_lines(u16::MAX)
    }
}

} // verus!
