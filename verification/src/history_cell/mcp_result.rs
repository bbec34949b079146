//! Bounded summaries of tool results: counts, content kinds, the first few
//! text previews and the structured content, each bounded to one line.
use vstd::prelude::*;

use crate::history_cell::computer_activity::ContentBlock;
use crate::history_cell::{compact_spec, compact_text};
use crate::text::{dec, dec_int, dec_string, owned, push_dec_i64, str_eq, trim, trimmed};

verus! {

/// A tool result, as the facts the summary reads: its content blocks, its
/// structured content in compact JSON text, and whether its metadata marks
/// it truncated or says more output is available.
#[derive(Debug)]
pub struct McpToolCallResult {
    pub content: Vec<ContentBlock>,
    pub structured_content: Option<String>,
    pub meta_truncated: bool,
    pub meta_output_available: bool,
}

/// The kind of a block, as an index into the labels: text, image, audio,
/// resource, resource link, unknown.
pub open spec fn kind_index(b: ContentBlock) -> nat {
    match b.kind {
        Some(k) => if k@ == "text"@ {
            0
        } else if k@ == "image"@ {
            1
        } else if k@ == "audio"@ {
            2
        } else if k@ == "resource"@ {
            3
        } else if k@ == "resource_link"@ || k@ == "resourceLink"@ {
            4
        } else {
            5
        },
        None => 5,
    }
}

pub open spec fn kind_label(i: nat) -> Seq<char> {
    if i == 0 {
        "text"@
    } else if i == 1 {
        "image"@
    } else if i == 2 {
        "audio"@
    } else if i == 3 {
        "resource"@
    } else if i == 4 {
        "resource-link"@
    } else {
        "unknown"@
    }
}

/// The number of blocks of kind `k` among the first `n`.
pub open spec fn kind_count(c: Seq<ContentBlock>, k: nat, n: int) -> nat
    decreases n,
{
    if n <= 0 {
        0
    } else {
        kind_count(c, k, n - 1) + if kind_index(c[n - 1]) == k {
            1nat
        } else {
            0nat
        }
    }
}

/// `label=count` for each of the first `k` kinds that occur.
pub open spec fn kind_entries(c: Seq<ContentBlock>, k: nat) -> Seq<Seq<char>>
    decreases k,
{
    if k == 0 {
        Seq::empty()
    } else {
        let before = kind_entries(c, (k - 1) as nat);
        let n = kind_count(c, (k - 1) as nat, c.len() as int);
        if n > 0 {
            before.push(kind_label((k - 1) as nat) + "="@ + dec(n))
        } else {
            before
        }
    }
}

/// The parts joined by `, `.
pub open spec fn join_commas(parts: Seq<Seq<char>>) -> Seq<char>
    decreases parts.len(),
{
    if parts.len() == 0 {
        Seq::empty()
    } else if parts.len() == 1 {
        parts[0]
    } else {
        join_commas(parts.drop_last()) + ", "@ + parts.last()
    }
}

/// The kinds of content and how many blocks of each, in label order.
pub open spec fn type_summary(c: Seq<ContentBlock>) -> Seq<char> {
    join_commas(kind_entries(c, 6))
}

/// The preview of a block: a text block with a non-blank text.
pub open spec fn preview(b: ContentBlock) -> Option<Seq<char>> {
    match (b.kind, b.text) {
        (Some(k), Some(t)) => if k@ == "text"@ && trim(t@).len() > 0 {
            Some("output: "@ + compact_spec(t@))
        } else {
            None
        },
        _ => None,
    }
}

/// The previews of the first `n` blocks.
pub open spec fn all_previews(c: Seq<ContentBlock>, n: int) -> Seq<Seq<char>>
    decreases n,
{
    if n <= 0 {
        Seq::empty()
    } else {
        match preview(c[n - 1]) {
            Some(p) => all_previews(c, n - 1).push(p),
            None => all_previews(c, n - 1),
        }
    }
}

/// The previews of the content: at most the first four.
pub open spec fn previews(c: Seq<ContentBlock>) -> Seq<Seq<char>> {
    let all = all_previews(c, c.len() as int);
    if all.len() > 4 {
        all.take(4)
    } else {
        all
    }
}

/// The details of a result.
pub open spec fn result_details(r: McpToolCallResult) -> Seq<Seq<char>> {
    let c = r.content@;
    let types = type_summary(c);
    let a = seq!["result items: "@ + dec(c.len())];
    let b = if types.len() > 0 {
        a.push("content types: "@ + types)
    } else {
        a
    };
    let d = b + previews(c);
    let e = match r.structured_content {
        Some(s) => d.push("structured content: "@ + compact_spec(s@)),
        None => d,
    };
    let f = if r.meta_truncated {
        e.push("truncated"@)
    } else {
        e
    };
    if r.meta_output_available {
        f.push("output available"@)
    } else {
        f
    }
}

/// The summary of a tool call: the result's details, then the error, then
/// the duration.
pub open spec fn summary_spec(
    result: Option<McpToolCallResult>,
    error: Option<Seq<char>>,
    duration_ms: Option<i64>,
) -> Seq<Seq<char>> {
    let a = match result {
        Some(r) => result_details(r),
        None => Seq::empty(),
    };
    let b = match error {
        Some(e) => a.push("error: "@ + compact_spec(e)),
        None => a,
    };
    match duration_ms {
        Some(d) => b.push("duration "@ + dec_int(d as int) + "ms"@),
        None => b,
    }
}

fn kind_of(b: &ContentBlock) -> (r: usize)
    ensures
        r == kind_index(*b),
{
    match &b.kind {
        Some(k) => {
            let k = k.as_str();
            if str_eq(k, "text") {
                0
            } else if str_eq(k, "image") {
                1
            } else if str_eq(k, "audio") {
                2
            } else if str_eq(k, "resource") {
                3
            } else if str_eq(k, "resource_link") || str_eq(k, "resourceLink") {
                4
            } else {
                5
            }
        },
        None => 5,
    }
}

fn count_kind(c: &Vec<ContentBlock>, k: usize) -> (r: u64)
    ensures
        r == kind_count(c@, k as nat, c@.len() as int),
{
    let mut n: u64 = 0;
    let mut i: usize = 0;
    while i < c.len()
        invariant
            i <= c.len(),
            c.len() <= u64::MAX,
            n == kind_count(c@, k as nat, i as int),
            n <= i,
        decreases c.len() - i,
    {
        if kind_of(&c[i]) == k {
            n = n + 1;
        }
        i = i + 1;
    }
    n
}

/// The kinds of content and their counts (`type_summary`).
pub fn content_type_summary(content: &Vec<ContentBlock>) -> (r: String)
    ensures
        r@ == type_summary(content@),
{
    let labels = ["text", "image", "audio", "resource", "resource-link", "unknown"];
    let mut out = String::new();
    let mut any = false;
    let mut k: usize = 0;
    while k < 6
        invariant
            k <= 6,
            any == (kind_entries(content@, k as nat).len() > 0),
            labels@.len() == 6,
            forall|j: int| 0 <= j < 6 ==> #[trigger] labels@[j]@ == kind_label(j as nat),
            out@ == join_commas(kind_entries(content@, k as nat)),
        decreases 6 - k,
    {
        let n = count_kind(content, k);
        if n > 0 {
            let ghost before = kind_entries(content@, k as nat);
            if any {
                out.append(", ");
            }
            out.append(labels[k]);
            out.append("=");
            out.append(dec_string(n).as_str());
            proof {
                let after = kind_entries(content@, (k + 1) as nat);
                assert(after == before.push(kind_label(k as nat) + "="@ + dec(n as nat)));
                assert(after.drop_last() =~= before);
                if before.len() == 0 {
                    assert(out@ =~= join_commas(after));
                } else {
                    assert(out@ =~= join_commas(after));
                }
            }
            any = true;
        }
        k = k + 1;
    }
    out
}

fn preview_of(b: &ContentBlock) -> (r: Option<String>)
    ensures
        match r {
            Some(s) => preview(*b) == Some(s@),
            None => preview(*b) is None,
        },
{
    match (&b.kind, &b.text) {
        (Some(k), Some(t)) => {
            if str_eq(k.as_str(), "text") && !trimmed(t.as_str()).as_str().is_empty() {
                let mut s = owned("output: ");
                s.append(compact_text(t.as_str()).as_str());
                Some(s)
            } else {
                None
            }
        },
        _ => None,
    }
}

/// The text previews of the content, at most four (`previews`).
pub fn content_previews(content: &Vec<ContentBlock>) -> (r: Vec<String>)
    ensures
        r@.map_values(|s: String| s@) == previews(content@),
{
    let mut out: Vec<String> = Vec::new();
    let mut i: usize = 0;
    while i < content.len() && out.len() < 4
        invariant
            i <= content.len(),
            out@.len() <= 4,
            out@.map_values(|s: String| s@) == all_previews(content@, i as int),
        decreases content.len() - i,
    {
        let ghost before = out@;
        match preview_of(&content[i]) {
            Some(p) => {
                out.push(p);
                assert(out@.map_values(|s: String| s@) =~= before.map_values(|s: String| s@).push(
                    out@[before.len() as int]@,
                ));
            },
            None => {},
        }
        i = i + 1;
    }
    proof {
        lemma_previews_prefix(content@, i as int, content@.len() as int);
        let all = all_previews(content@, content@.len() as int);
        if out@.len() == 4 {
            assert(all.take(4) =~= all_previews(content@, i as int));
        } else {
            assert(i == content.len());
        }
    }
    out
}

proof fn lemma_previews_prefix(c: Seq<ContentBlock>, i: int, n: int)
    requires
        0 <= i <= n <= c.len(),
    ensures
        all_previews(c, n).len() >= all_previews(c, i).len(),
        all_previews(c, n).take(all_previews(c, i).len() as int) == all_previews(c, i),
    decreases n,
{
    if n > i {
        lemma_previews_prefix(c, i, n - 1);
        let before = all_previews(c, n - 1);
        assert(all_previews(c, n).take(before.len() as int) =~= before);
        assert(before.take(all_previews(c, i).len() as int) == all_previews(c, i));
        assert(all_previews(c, n).take(all_previews(c, i).len() as int) =~= all_previews(c, i));
    } else {
        assert(all_previews(c, n).take(all_previews(c, n).len() as int) =~= all_previews(c, n));
    }
}

fn push_line(v: &mut Vec<String>, line: String)
    ensures
        final(v)@.map_values(|s: String| s@) == old(v)@.map_values(|s: String| s@).push(line@),
{
    v.push(line);
    assert(v@.map_values(|s: String| s@) =~= old(v)@.map_values(|s: String| s@).push(line@));
}

fn result_lines(res: &McpToolCallResult) -> (r: Vec<String>)
    ensures
        r@.map_values(|s: String| s@) == result_details(*res),
{
    let mut details: Vec<String> = Vec::new();
    let mut items = owned("result items: ");
    items.append(dec_string(res.content.len() as u64).as_str());
    push_line(&mut details, items);
    assert(details@.map_values(|s: String| s@) =~= seq!["result items: "@ + dec(res.content@.len())]);
    let types = content_type_summary(&res.content);
    if !types.as_str().is_empty() {
        let mut line = owned("content types: ");
        line.append(types.as_str());
        push_line(&mut details, line);
    }
    let ghost dv = details@;
    let mut previews_v = content_previews(&res.content);
    let ghost pv = previews_v@;
    details.append(&mut previews_v);
    assert(details@ == dv + pv);
    assert(details@.map_values(|s: String| s@) =~= dv.map_values(|s: String| s@) + pv.map_values(
        |s: String| s@,
    ));
    if let Some(s) = &res.structured_content {
        let mut line = owned("structured content: ");
        line.append(compact_text(s.as_str()).as_str());
        push_line(&mut details, line);
    }
    if res.meta_truncated {
        push_line(&mut details, owned("truncated"));
    }
    if res.meta_output_available {
        push_line(&mut details, owned("output available"));
    }
    details
}

/// The summary of a tool call (`summary_spec`).
pub fn summary(result: Option<&McpToolCallResult>, error: Option<&str>, duration_ms: Option<i64>) -> (r:
    Vec<String>)
    ensures
        r@.map_values(|s: String| s@) == summary_spec(
            match result {
                Some(x) => Some(*x),
                None => None,
            },
            match error {
                Some(e) => Some(e@),
                None => None,
            },
            duration_ms,
        ),
{
    let mut details: Vec<String> = match result {
        Some(res) => result_lines(res),
        None => Vec::new(),
    };
    assert(result is None ==> details@.map_values(|s: String| s@) =~= Seq::<Seq<char>>::empty());
    if let Some(e) = error {
        let mut line = owned("error: ");
        line.append(compact_text(e).as_str());
        push_line(&mut details, line);
    }
    if let Some(d) = duration_ms {
        let mut line = owned("duration ");
        push_dec_i64(&mut line, d);
        line.append("ms");
        push_line(&mut details, line);
    }
    details
}

/// How a tool call is shown: `server.tool(arguments)`, the arguments in
/// compact JSON text bounded to one line.
pub fn invocation_text(server: &str, tool: &str, arguments_json: &str) -> (r: String)
    ensures
        r@ == server@ + "."@ + tool@ + "("@ + compact_spec(arguments_json@) + ")"@,
{
    let mut s = owned(server);
    s.append(".");
    s.append(tool);
    s.append("(");
    s.append(compact_text(arguments_json).as_str());
    s.append(")");
    s
}

} // verus!
