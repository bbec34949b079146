//! Text shaping for transcript cells: bounded one-line details, control
//! sequence removal and the joining of cell parts.
use vstd::prelude::*;

use crate::text::{chars_of, first_line, first_line_end, is_ctrl, is_control, push_char};

pub mod approvals;
pub mod cells;
pub mod computer_activity;
pub mod hook;
pub mod mcp;
pub mod mcp_result;
pub mod request_user_input;
pub mod search;
pub mod separators;
pub mod session;

verus! {

/// The longest detail kept, in characters.
pub const DETAIL_CHARS: usize = 160;

/// A detail bounded to one line of at most 160 characters, `...` marking a
/// cut: the first line of `s` (all of `s` when it has none).
pub open spec fn compact_spec(s: Seq<char>) -> Seq<char> {
    let line = match first_line(s) {
        Some(l) => l,
        None => s,
    };
    if line.len() > 160 {
        line.take(160) + "..."@
    } else {
        line
    }
}

/// A detail bounded to one line of at most 160 characters.
pub fn compact_text(value: &str) -> (r: String)
    ensures
        r@ == compact_spec(value@),
{
    let v = chars_of(value);
    let end = match first_line_end(&v) {
        Some(e) => e,
        None => v.len(),
    };
    assert(v@.take(v.len() as int) =~= v@);
    let mut s = String::new();
    let stop = if end > DETAIL_CHARS {
        DETAIL_CHARS
    } else {
        end
    };
    let mut i: usize = 0;
    while i < stop
        invariant
            i <= stop <= end <= v.len(),
            s@ == v@.take(i as int),
        decreases stop - i,
    {
        push_char(&mut s, v[i]);
        assert(v@.take(i + 1) =~= v@.take(i as int).push(v@[i as int]));
        i = i + 1;
    }
    if end > DETAIL_CHARS {
        s.append("...");
        assert(v@.take(end as int).take(160) =~= v@.take(160));
    } else {
        assert(v@.take(end as int) =~= v@.take(i as int));
    }
    s
}

/// `s` without terminal control sequences: an escape character is dropped,
/// and when `[` follows it, so is everything up to and including the next
/// character in `@`..=`~`; other control characters are dropped except
/// line feeds and tabs.
pub open spec fn sanitized(s: Seq<char>) -> Seq<char>
    decreases s.len(),
{
    if s.len() == 0 {
        s
    } else if s[0] == '\x1b' {
        if s.len() > 1 && s[1] == '[' {
            proof {
                lemma_csi_end(s.skip(2));
            }
            sanitized(s.skip(csi_end(s.skip(2)) + 2))
        } else {
            sanitized(s.drop_first())
        }
    } else if is_ctrl(s[0]) && s[0] != '\n' && s[0] != '\t' {
        sanitized(s.drop_first())
    } else {
        seq![s[0]] + sanitized(s.drop_first())
    }
}

/// Length of the parameters of a control sequence and its final character:
/// up to and including the first character in `@`..=`~`, or all of `s`.
pub open spec fn csi_end(s: Seq<char>) -> int
    decreases s.len(),
{
    if s.len() == 0 {
        0
    } else if '@' <= s[0] && s[0] <= '~' {
        1
    } else {
        1 + csi_end(s.drop_first())
    }
}

/// `csi_end` stays within the text and takes at least one character when there is one.
pub proof fn lemma_csi_end(s: Seq<char>)
    ensures
        0 <= csi_end(s) <= s.len(),
        s.len() > 0 ==> csi_end(s) >= 1,
    decreases s.len(),
{
    if s.len() > 0 {
        lemma_csi_end(s.drop_first());
    }
}

/// A detail is one line of at most 160 characters, and `...` after a cut.
pub proof fn lemma_compact_is_one_bounded_line(s: Seq<char>)
    ensures
        compact_spec(s).len() <= 163,
        forall|i: int| 0 <= i < compact_spec(s).len() ==> compact_spec(s)[i] != '\n',
{
    reveal_strlit("...");
    crate::text::lemma_find_char(s, '\n');
    let line = match first_line(s) {
        Some(l) => l,
        None => s,
    };
    assert forall|i: int| 0 <= i < line.len() implies line[i] != '\n' by {
        if s.len() > 0 {
            match crate::text::find_char(s, '\n') {
                Some(k) => {
                    assert(line[i] == s.take(k)[i]);
                },
                None => {},
            }
        }
    }
    if line.len() > 160 {
        let c = line.take(160) + "..."@;
        assert forall|i: int| 0 <= i < c.len() implies c[i] != '\n' by {
            if i < 160 {
                assert(c[i] == line[i]);
            }
        }
    }
}

/// Whether a character may stay in text shown to the user: no escape
/// character and no control character but line feeds and tabs.
pub open spec fn shown_char(c: char) -> bool {
    c != '\x1b' && (is_ctrl(c) ==> c == '\n' || c == '\t')
}

/// Text without control sequences holds no escape character and no
/// control character but line feeds and tabs.
pub proof fn lemma_sanitized_has_no_controls(s: Seq<char>)
    ensures
        forall|i: int| 0 <= i < sanitized(s).len() ==> shown_char(#[trigger] sanitized(s)[i]),
    decreases s.len(),
{
    if s.len() > 0 {
        let r = sanitized(s);
        if s[0] == '\x1b' {
            if s.len() > 1 && s[1] == '[' {
                lemma_csi_end(s.skip(2));
                let t = s.skip(csi_end(s.skip(2)) + 2);
                lemma_sanitized_has_no_controls(t);
                assert(r == sanitized(t));
            } else {
                lemma_sanitized_has_no_controls(s.drop_first());
                assert(r == sanitized(s.drop_first()));
            }
        } else if is_ctrl(s[0]) && s[0] != '\n' && s[0] != '\t' {
            lemma_sanitized_has_no_controls(s.drop_first());
            assert(r == sanitized(s.drop_first()));
        } else {
            lemma_sanitized_has_no_controls(s.drop_first());
            let t = sanitized(s.drop_first());
            assert(r == seq![s[0]] + t);
            assert forall|i: int| 0 <= i < r.len() implies shown_char(#[trigger] r[i]) by {
                if i > 0 {
                    assert(r[i] == t[i - 1]);
                }
            }
        }
    }
}

/// `sanitized` of `v[i..]` equals that of `v[i+k..]` after the parameters
/// are skipped, unrolled for the loop below.
proof fn lemma_sanitized_step(v: Seq<char>, i: int)
    requires
        0 <= i < v.len(),
    ensures
        v[i] == '\x1b' && i + 1 < v.len() && v[i + 1] == '[' ==> sanitized(v.skip(i)) == sanitized(
            v.skip(i + 2 + csi_end(v.skip(i + 2))),
        ),
        v[i] == '\x1b' && !(i + 1 < v.len() && v[i + 1] == '[') ==> sanitized(v.skip(i))
            == sanitized(v.skip(i + 1)),
        v[i] != '\x1b' && is_ctrl(v[i]) && v[i] != '\n' && v[i] != '\t' ==> sanitized(v.skip(i))
            == sanitized(v.skip(i + 1)),
        v[i] != '\x1b' && !(is_ctrl(v[i]) && v[i] != '\n' && v[i] != '\t') ==> sanitized(v.skip(i))
            == seq![v[i]] + sanitized(v.skip(i + 1)),
{
    let s = v.skip(i);
    assert(s.drop_first() =~= v.skip(i + 1));
    if s.len() > 1 {
        assert(s.skip(2) =~= v.skip(i + 2));
        lemma_csi_end(v.skip(i + 2));
        assert(s.skip(csi_end(s.skip(2)) + 2) =~= v.skip(i + 2 + csi_end(v.skip(i + 2))));
    }
}

/// `text` without terminal control sequences (`sanitized`).
pub fn sanitize_user_text(text: &str) -> (r: String)
    ensures
        r@ == sanitized(text@),
{
    let v = chars_of(text);
    let mut out = String::new();
    let mut i: usize = 0;
    assert(v@.skip(0) =~= v@);
    while i < v.len()
        invariant
            i <= v.len(),
            out@ + sanitized(v@.skip(i as int)) == sanitized(v@),
        decreases v.len() - i,
    {
        let ghost before = out@;
        proof {
            lemma_sanitized_step(v@, i as int);
        }
        let c = v[i];
        if c == '\x1b' {
            if i + 1 < v.len() && v[i + 1] == '[' {
                let mut j = i + 2;
                proof {
                    lemma_csi_end(v@.skip(i + 2));
                }
                while j < v.len() && !('@' <= v[j] && v[j] <= '~')
                    invariant
                        i + 2 <= j <= v.len(),
                        csi_end(v@.skip(i + 2)) == (j - (i + 2)) + csi_end(v@.skip(j as int)),
                    decreases v.len() - j,
                {
                    assert(v@.skip(j as int).drop_first() =~= v@.skip(j + 1));
                    j = j + 1;
                }
                if j < v.len() {
                    j = j + 1;
                } else {
                    assert(v@.skip(j as int).len() == 0);
                }
                i = j;
            } else {
                i = i + 1;
            }
        } else if is_control(c) && c != '\n' && c != '\t' {
            i = i + 1;
        } else {
            push_char(&mut out, c);
            assert(before + (seq![c] + sanitized(v@.skip(i + 1))) =~= before.push(c) + sanitized(
                v@.skip(i + 1),
            ));
            i = i + 1;
        }
    }
    assert(v@.skip(i as int).len() == 0);
    assert(out@ + sanitized(v@.skip(i as int)) =~= out@);
    out
}

/// The non-empty parts, in order, with an empty line between two parts.
pub open spec fn joined(parts: Seq<Seq<String>>) -> Seq<Seq<char>>
    decreases parts.len(),
{
    if parts.len() == 0 {
        Seq::empty()
    } else {
        let init = joined(parts.drop_last());
        let last = parts.last().map_values(|l: String| l@);
        if last.len() == 0 {
            init
        } else if init.len() == 0 {
            last
        } else {
            init.push(Seq::<char>::empty()) + last
        }
    }
}

/// The lines of the parts of a composite cell: the non-empty parts, in
/// order, separated by one empty line.
pub fn join_parts(parts: Vec<Vec<String>>) -> (r: Vec<String>)
    ensures
        r@.map_values(|l: String| l@) == joined(parts@.map_values(|p: Vec<String>| p@)),
{
    let ghost ps = parts@.map_values(|p: Vec<String>| p@);
    let mut out: Vec<String> = Vec::new();
    let mut first = true;
    let mut parts = parts;
    // Take the parts in order from the front.
    let n = parts.len();
    let mut k: usize = 0;
    proof {
        assert(ps.take(0) =~= Seq::<Seq<String>>::empty());
    }
    while k < n
        invariant
            k <= n,
            parts.len() == n - k,
            forall|j: int| 0 <= j < n - k ==> #[trigger] parts@[j]@ == ps[j + k],
            ps.len() == n,
            out@.map_values(|l: String| l@) == joined(ps.take(k as int)),
            first == (joined(ps.take(k as int)).len() == 0),
        decreases n - k,
    {
        let mut part = parts.remove(0);
        assert(ps.take(k + 1).drop_last() =~= ps.take(k as int));
        let ghost before = out@.map_values(|l: String| l@);
        if part.len() > 0 {
            if !first {
                out.push(String::new());
            }
            let ghost mid = out@;
            out.append(&mut part);
            proof {
                let last = ps[k as int].map_values(|l: String| l@);
                if first {
                    assert(out@.map_values(|l: String| l@) =~= last);
                } else {
                    assert(out@.map_values(|l: String| l@) =~= before.push(Seq::<char>::empty()) + last);
                }
            }
            first = false;
        } else {
            assert(ps[k as int].map_values(|l: String| l@).len() == 0);
        }
        k = k + 1;
    }
    assert(ps.take(n as int) =~= ps);
    out
}

} // verus!
