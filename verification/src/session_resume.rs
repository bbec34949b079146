//! Working-directory comparison for resumed sessions.
//!
//! Two directories are compared by their lexical normal form: `.` segments
//! and empty segments are dropped, and `..` removes the segment before it
//! (at the root it is dropped, in a relative path with nothing to remove it
//! is kept). Resolving symbolic links needs the file system; a caller that
//! can resolve a path hands the resolved path in, which is already normal.
use vstd::prelude::*;

use crate::projection::items::views;
use crate::text::{chars_of, push_char, push_chars, str_eq};

verus! {

/// Whether a path is absolute.
pub open spec fn rooted(s: Seq<char>) -> bool {
    s.len() > 0 && s[0] == '/'
}

/// The parts after one more segment: `.` and empty segments change
/// nothing, `..` removes the last part (kept at the root when there is none;
/// kept as a part of a relative path), any other segment is appended.
pub open spec fn apply_segment_spec(parts: Seq<Seq<char>>, seg: Seq<char>, root: bool) -> Seq<
    Seq<char>,
> {
    if seg.len() == 0 || seg == seq!['.'] {
        parts
    } else if seg == seq!['.', '.'] {
        if parts.len() > 0 {
            parts.drop_last()
        } else if root {
            parts
        } else {
            parts.push(seg)
        }
    } else {
        parts.push(seg)
    }
}

/// The normal parts of the segments completed within the first `i`
/// characters, and the segment still open.
pub open spec fn walk(s: Seq<char>, i: int) -> (Seq<Seq<char>>, Seq<char>)
    decreases i,
{
    if i <= 0 {
        (Seq::empty(), Seq::empty())
    } else {
        let (parts, cur) = walk(s, i - 1);
        if s[i - 1] == '/' {
            (apply_segment_spec(parts, cur, rooted(s)), Seq::empty())
        } else {
            (parts, cur.push(s[i - 1]))
        }
    }
}

/// The normal parts of a path.
pub open spec fn normal_parts(s: Seq<char>) -> Seq<Seq<char>> {
    let (parts, cur) = walk(s, s.len() as int);
    apply_segment_spec(parts, cur, rooted(s))
}

/// The parts joined by `/`.
pub open spec fn join_slash(parts: Seq<Seq<char>>) -> Seq<char>
    decreases parts.len(),
{
    if parts.len() == 0 {
        Seq::empty()
    } else if parts.len() == 1 {
        parts[0]
    } else {
        join_slash(parts.drop_last()) + seq!['/'] + parts.last()
    }
}

/// The normal form of a path as text.
pub open spec fn normal_text(s: Seq<char>) -> Seq<char> {
    if rooted(s) {
        seq!['/'] + join_slash(normal_parts(s))
    } else {
        join_slash(normal_parts(s))
    }
}

fn apply_segment(parts: &mut Vec<String>, seg: &Vec<char>, root: bool)
    ensures
        views(final(parts)@) == apply_segment_spec(views(old(parts)@), seg@, root),
{
    if seg.len() == 0 || (seg.len() == 1 && seg[0] == '.') {
        proof {
            if seg@.len() == 1 {
                assert(seg@ =~= seq!['.']);
            }
        }
        return;
    }
    if seg.len() == 2 && seg[0] == '.' && seg[1] == '.' {
        assert(seg@ =~= seq!['.', '.']);
        if parts.len() > 0 {
            parts.pop();
            assert(views(parts@) =~= views(old(parts)@).drop_last());
        } else if !root {
            let mut up = String::new();
            push_char(&mut up, '.');
            push_char(&mut up, '.');
            assert(up@ =~= seg@);
            parts.push(up);
            assert(views(parts@) =~= views(old(parts)@).push(seg@));
        }
        return;
    }
    proof {
        if seg@.len() == 1 {
            assert(seg@ != seq!['.']) by {
                assert(seq!['.'][0] == '.');
            }
        }
        if seg@.len() == 2 {
            assert(seg@ != seq!['.', '.']) by {
                assert(seq!['.', '.'][0] == '.');
                assert(seq!['.', '.'][1] == '.');
            }
        }
    }
    let mut part = String::new();
    push_chars(&mut part, seg, 0, seg.len());
    assert(part@ =~= seg@);
    parts.push(part);
    assert(views(parts@) =~= views(old(parts)@).push(seg@));
}

/// Whether the path is absolute, and its normal parts.
fn normal_form(path: &str) -> (r: (bool, Vec<String>))
    ensures
        r.0 == rooted(path@),
        views(r.1@) == normal_parts(path@),
{
    let chars = chars_of(path);
    let root = chars.len() > 0 && chars[0] == '/';
    let mut parts: Vec<String> = Vec::new();
    let mut cur: Vec<char> = Vec::new();
    let mut i: usize = 0;
    while i < chars.len()
        invariant
            chars@ == path@,
            root == rooted(path@),
            i <= chars.len(),
            (views(parts@), cur@) == walk(path@, i as int),
        decreases chars.len() - i,
    {
        if chars[i] == '/' {
            apply_segment(&mut parts, &cur, root);
            cur = Vec::new();
        } else {
            cur.push(chars[i]);
        }
        i = i + 1;
    }
    apply_segment(&mut parts, &cur, root);
    (root, parts)
}

/// The lexical normal form of a working directory (`normal_text`).
pub fn normalize_cwd(path: &str) -> (r: String)
    ensures
        r@ == normal_text(path@),
{
    let (root, parts) = normal_form(path);
    let mut out = String::new();
    if root {
        push_char(&mut out, '/');
    }
    let ghost lead: Seq<char> = out@;
    let mut i: usize = 0;
    while i < parts.len()
        invariant
            i <= parts.len(),
            lead == (if root {
                seq!['/']
            } else {
                Seq::<char>::empty()
            }),
            out@ == lead + join_slash(views(parts@).take(i as int)),
        decreases parts.len() - i,
    {
        let ghost before = out@;
        if i > 0 {
            push_char(&mut out, '/');
        }
        out.append(parts[i].as_str());
        proof {
            let t = views(parts@).take(i as int + 1);
            assert(t.drop_last() =~= views(parts@).take(i as int));
            assert(t.last() == parts@[i as int]@);
            if i == 0 {
                assert(join_slash(views(parts@).take(0)) =~= Seq::<char>::empty());
            }
            assert(out@ =~= lead + join_slash(t));
        }
        i = i + 1;
    }
    assert(views(parts@).take(parts.len() as int) =~= views(parts@));
    out
}

/// Whether two working directories are different places, by their lexical
/// normal form.
pub fn cwds_differ(current_cwd: &str, session_cwd: &str) -> (r: bool)
    ensures
        r == (rooted(current_cwd@) != rooted(session_cwd@) || normal_parts(current_cwd@)
            != normal_parts(session_cwd@)),
{
    let (root_a, parts_a) = normal_form(current_cwd);
    let (root_b, parts_b) = normal_form(session_cwd);
    if root_a != root_b || parts_a.len() != parts_b.len() {
        proof {
            if root_a == root_b {
                assert(views(parts_a@).len() != views(parts_b@).len());
            }
        }
        return true;
    }
    let mut i: usize = 0;
    while i < parts_a.len()
        invariant
            parts_a.len() == parts_b.len(),
            i <= parts_a.len(),
            root_a == root_b,
            root_a == rooted(current_cwd@),
            root_b == rooted(session_cwd@),
            views(parts_a@) == normal_parts(current_cwd@),
            views(parts_b@) == normal_parts(session_cwd@),
            forall|j: int| 0 <= j < i ==> #[trigger] parts_a@[j]@ == parts_b@[j]@,
        decreases parts_a.len() - i,
    {
        if !str_eq(parts_a[i].as_str(), parts_b[i].as_str()) {
            assert(views(parts_a@)[i as int] != views(parts_b@)[i as int]);
            assert(views(parts_a@) != views(parts_b@));
            return true;
        }
        i = i + 1;
    }
    assert(views(parts_a@) =~= views(parts_b@));
    false
}

} // verus!
