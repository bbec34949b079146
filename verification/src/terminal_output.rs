//! Reading what a terminal program printed: the visible text without
//! control sequences, and the decision of a loop waiting for a marker to
//! appear in it.
use vstd::prelude::*;

use crate::history_cell::{csi_end, lemma_csi_end};
use crate::text::{chars_of, contains_seq, contains_text, push_char};

verus! {

/// Length of an operating-system command's body and its terminator: up to
/// and including a bell, or a backslash right after an escape; all of `t`
/// when unterminated. `prev` is the character before `t`.
pub open spec fn osc_end(t: Seq<char>, prev: char) -> int
    decreases t.len(),
{
    if t.len() == 0 {
        0
    } else if t[0] == '\x07' || (prev == '\x1b' && t[0] == '\\') {
        1
    } else {
        1 + osc_end(t.drop_first(), t[0])
    }
}

/// `osc_end` stays within the text.
pub proof fn lemma_osc_end(t: Seq<char>, prev: char)
    ensures
        0 <= osc_end(t, prev) <= t.len(),
    decreases t.len(),
{
    if t.len() > 0 {
        lemma_osc_end(t.drop_first(), t[0]);
    }
}

/// The visible text of terminal output: an escape and what it introduces
/// are dropped: a control sequence (`[` up to a character in `@`..=`~`), an
/// operating-system command (`]` up to a bell or escape-backslash), or any
/// one other character; an escape at the very end ends the text.
pub open spec fn visible(s: Seq<char>) -> Seq<char>
    decreases s.len(),
{
    if s.len() == 0 {
        s
    } else if s[0] != '\x1b' {
        seq![s[0]] + visible(s.drop_first())
    } else if s.len() == 1 {
        Seq::empty()
    } else if s[1] == '[' {
        proof {
            lemma_csi_end(s.skip(2));
        }
        visible(s.skip(2 + csi_end(s.skip(2))))
    } else if s[1] == ']' {
        proof {
            lemma_osc_end(s.skip(2), '\0');
        }
        visible(s.skip(2 + osc_end(s.skip(2), '\0')))
    } else {
        visible(s.skip(2))
    }
}

/// The visible text of terminal output (`visible`).
pub fn visible_terminal_text(output: &str) -> (r: String)
    ensures
        r@ == visible(output@),
{
    let v = chars_of(output);
    let mut out = String::new();
    let mut i: usize = 0;
    assert(v@.skip(0) =~= v@);
    while i < v.len()
        invariant
            v@ == output@,
            i <= v.len(),
            out@ + visible(v@.skip(i as int)) == visible(v@),
        decreases v.len() - i,
    {
        let ghost s = v@.skip(i as int);
        let ghost before = out@;
        assert(s.drop_first() =~= v@.skip(i + 1));
        let c = v[i];
        if c != '\x1b' {
            push_char(&mut out, c);
            assert(before + visible(s) =~= out@ + visible(v@.skip(i + 1)));
            i = i + 1;
        } else if i + 1 == v.len() {
            assert(visible(s).len() == 0);
            assert(v@.skip(v.len() as int).len() == 0);
            i = v.len();
            assert(visible(v@.skip(i as int)) =~= Seq::<char>::empty());
        } else if v[i + 1] == '[' {
            assert(s.skip(2) =~= v@.skip(i + 2));
            let mut j = i + 2;
            proof {
                lemma_csi_end(v@.skip(i + 2));
            }
            while j < v.len() && !('@' <= v[j] && v[j] <= '~')
                invariant
                    i + 2 <= j <= v.len(),
                    csi_end(v@.skip(i + 2)) == (j - (i + 2)) + csi_end(v@.skip(j as int)),
                decreases v.len() - j,
            {
                assert(v@.skip(j as int).drop_first() =~= v@.skip(j + 1));
                j = j + 1;
            }
            if j < v.len() {
                j = j + 1;
            } else {
                assert(v@.skip(j as int).len() == 0);
            }
            assert(s.skip(2 + csi_end(s.skip(2))) =~= v@.skip(j as int));
            i = j;
        } else if v[i + 1] == ']' {
            assert(s.skip(2) =~= v@.skip(i + 2));
            let mut j = i + 2;
            let mut prev = '\0';
            proof {
                lemma_osc_end(v@.skip(i + 2), '\0');
            }
            while j < v.len() && !(v[j] == '\x07' || (prev == '\x1b' && v[j] == '\\'))
                invariant
                    i + 2 <= j <= v.len(),
                    osc_end(v@.skip(i + 2), '\0') == (j - (i + 2)) + osc_end(
                        v@.skip(j as int),
                        prev,
                    ),
                decreases v.len() - j,
            {
                assert(v@.skip(j as int).drop_first() =~= v@.skip(j + 1));
                prev = v[j];
                j = j + 1;
            }
            if j < v.len() {
                j = j + 1;
            } else {
                assert(v@.skip(j as int).len() == 0);
            }
            assert(s.skip(2 + osc_end(s.skip(2), '\0')) =~= v@.skip(j as int));
            i = j;
        } else {
            assert(s.skip(2) =~= v@.skip(i + 2));
            i = i + 2;
        }
    }
    assert(visible(v@.skip(i as int)) =~= Seq::<char>::empty());
    out
}

/// What a loop waiting for a marker does next.
#[derive(Clone, Copy, Debug, PartialEq, Eq, Structural)]
pub enum WaitStep {
    /// The marker is there: stop waiting.
    Found,
    /// The time is up and the marker is not there.
    TimedOut,
    /// Read more output.
    Receive,
}

/// The next step of a wait for `marker` to show in `text`.
pub open spec fn wait_step(text: Seq<char>, marker: Seq<char>, time_is_up: bool) -> WaitStep {
    if contains_seq(text, marker) {
        WaitStep::Found
    } else if time_is_up {
        WaitStep::TimedOut
    } else {
        WaitStep::Receive
    }
}

/// The next step of a wait for `marker` to show in the visible output.
pub fn wait_for_marker(output: &str, marker: &str, time_is_up: bool) -> (r: WaitStep)
    ensures
        r == wait_step(visible(output@), marker@, time_is_up),
{
    let text = visible_terminal_text(output);
    if contains_text(text.as_str(), marker) {
        WaitStep::Found
    } else if time_is_up {
        WaitStep::TimedOut
    } else {
        WaitStep::Receive
    }
}

/// The output from the `start`th character on; none past its end.
pub open spec fn output_after(output: Seq<char>, start: nat) -> Seq<char> {
    if start <= output.len() {
        output.skip(start as int)
    } else {
        Seq::empty()
    }
}

/// The next step of a wait for `marker` to show in the visible output
/// printed after the first `start` characters.
pub fn wait_for_marker_after(output: &str, start: usize, marker: &str, time_is_up: bool) -> (r:
    WaitStep)
    ensures
        r == wait_step(visible(output_after(output@, start as nat)), marker@, time_is_up),
{
    let v = chars_of(output);
    let mut recent = String::new();
    if start <= v.len() {
        let mut i = start;
        while i < v.len()
            invariant
                v@ == output@,
                start <= i <= v.len(),
                recent@ == v@.subrange(start as int, i as int),
            decreases v.len() - i,
        {
            push_char(&mut recent, v[i]);
            assert(v@.subrange(start as int, i + 1) =~= v@.subrange(start as int, i as int).push(
                v@[i as int],
            ));
            i = i + 1;
        }
        assert(recent@ =~= output@.skip(start as int));
    } else {
        assert(recent@ =~= Seq::<char>::empty());
    }
    wait_for_marker(recent.as_str(), marker, time_is_up)
}

/// The next step of a wait for `marker` to show on the screen, given the
/// screen's text.
pub fn wait_for_screen_marker(screen: &str, marker: &str, time_is_up: bool) -> (r: WaitStep)
    ensures
        r == wait_step(screen@, marker@, time_is_up),
{
    if contains_text(screen, marker) {
        WaitStep::Found
    } else if time_is_up {
        WaitStep::TimedOut
    } else {
        WaitStep::Receive
    }
}

} // verus!
