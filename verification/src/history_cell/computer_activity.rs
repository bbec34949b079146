//! The facts shown for a tool call of the computer-use server: a bounded
//! title, whether screenshots were captured, and a bounded diagnostic. No
//! media and no provider text beyond its first line are kept.
use vstd::prelude::*;

use crate::history_cell::{compact_spec, compact_text};
use crate::text::{
    chars_of, dec, dec_string, is_prefix, owned, starts_with_str, str_eq, string_of, trim, trimmed,
};

verus! {

/// One content block of a tool result: its `type` and `text` fields, where
/// they are strings.
#[derive(Debug)]
pub struct ContentBlock {
    pub kind: Option<String>,
    pub text: Option<String>,
}

/// Whether a tool call went to the computer-use server.
pub fn is_computer_activity(server: &str) -> (r: bool)
    ensures
        r == (server@ == "cua_repl"@),
{
    str_eq(server, "cua_repl")
}

/// The title shown: the trimmed title bounded to one line, or
/// `Computer action` when there is none or it is blank.
pub open spec fn title_text(title: Option<Seq<char>>) -> Seq<char> {
    match title {
        Some(t) => if trim(t).len() > 0 {
            compact_spec(trim(t))
        } else {
            "Computer action"@
        },
        None => "Computer action"@,
    }
}

/// Whether a block is an image.
pub open spec fn is_image(b: ContentBlock) -> bool {
    b.kind matches Some(k) && k@ == "image"@
}

/// The number of images among the first `n` blocks.
pub open spec fn image_count(c: Seq<ContentBlock>, n: int) -> nat
    decreases n,
{
    if n <= 0 {
        0
    } else {
        image_count(c, n - 1) + if is_image(c[n - 1]) {
            1nat
        } else {
            0nat
        }
    }
}

/// The diagnostic of a block: the trimmed text after `Script error:`, when
/// its text starts so and something is left.
pub open spec fn block_diagnostic(b: ContentBlock) -> Option<Seq<char>> {
    match b.text {
        Some(t) => if is_prefix("Script error:"@, t@) && trim(t@.skip(13)).len() > 0 {
            Some(trim(t@.skip(13)))
        } else {
            None
        },
        None => None,
    }
}

/// The first diagnostic among the first `n` blocks.
pub open spec fn first_diagnostic(c: Seq<ContentBlock>, n: int) -> Option<Seq<char>>
    decreases n,
{
    if n <= 0 {
        None
    } else {
        match first_diagnostic(c, n - 1) {
            Some(d) => Some(d),
            None => block_diagnostic(c[n - 1]),
        }
    }
}

/// The facts of a computer-use call: the action's title; then the error
/// when the call failed, or else, for a result, whether screenshots were
/// captured and the first script diagnostic.
pub open spec fn summary_spec(
    title: Option<Seq<char>>,
    result: Option<Seq<ContentBlock>>,
    error: Option<Seq<char>>,
) -> Seq<Seq<char>> {
    let first = "computer action: "@ + title_text(title);
    match error {
        Some(e) => seq![first, "computer error: "@ + compact_spec(e)],
        None => match result {
            None => seq![first],
            Some(c) => {
                let n = image_count(c, c.len() as int);
                let shots = if n > 0 {
                    seq![
                        first,
                        "computer screenshot: "@ + if n == 1 {
                            "captured"@
                        } else {
                            dec(n) + " captured"@
                        },
                    ]
                } else {
                    seq![first]
                };
                match first_diagnostic(c, c.len() as int) {
                    Some(d) => shots.push("computer error: "@ + compact_spec(d)),
                    None => shots,
                }
            },
        },
    }
}

fn diagnostic_of(b: &ContentBlock) -> (r: Option<String>)
    ensures
        match r {
            Some(s) => block_diagnostic(*b) == Some(s@),
            None => block_diagnostic(*b) is None,
        },
{
    match &b.text {
        Some(t) => {
            let v = chars_of(t.as_str());
            if !starts_with_str(&v, "Script error:") {
                return None;
            }
            proof {
                reveal_strlit("Script error:");
            }
            let rest = string_of(&v, 13, v.len());
            assert(rest@ =~= t@.skip(13));
            let d = trimmed(rest.as_str());
            if d.as_str().is_empty() {
                None
            } else {
                Some(d)
            }
        },
        None => None,
    }
}

/// The facts of a computer-use call (`summary_spec`).
pub fn summary(title: Option<&str>, result: Option<&Vec<ContentBlock>>, error: Option<&str>) -> (r:
    Vec<String>)
    ensures
        r@.map_values(|s: String| s@) == summary_spec(
            match title {
                Some(t) => Some(t@),
                None => None,
            },
            match result {
                Some(c) => Some(c@),
                None => None,
            },
            match error {
                Some(e) => Some(e@),
                None => None,
            },
        ),
{
    let ghost t_spec: Option<Seq<char>> = match title {
        Some(t) => Some(t@),
        None => None,
    };
    let shown = match title {
        Some(t) => {
            let tt = trimmed(t);
            if tt.as_str().is_empty() {
                owned("Computer action")
            } else {
                compact_text(tt.as_str())
            }
        },
        None => owned("Computer action"),
    };
    assert(shown@ == title_text(t_spec));
    let mut first = owned("computer action: ");
    first.append(shown.as_str());
    let mut details: Vec<String> = Vec::new();
    details.push(first);
    if let Some(e) = error {
        let mut line = owned("computer error: ");
        line.append(compact_text(e).as_str());
        details.push(line);
        assert(details@.map_values(|s: String| s@) =~= seq![details@[0]@, details@[1]@]);
        return details;
    }
    if let Some(c) = result {
        let mut images: u64 = 0;
        let mut diag: Option<String> = None;
        let mut i: usize = 0;
        while i < c.len()
            invariant
                i <= c.len(),
                c.len() <= u64::MAX,
                details@.len() == 1,
                details@[0]@ == "computer action: "@ + title_text(t_spec),
                images as nat == image_count(c@, i as int),
                images <= i,
                match diag {
                    Some(d) => first_diagnostic(c@, i as int) == Some(d@),
                    None => first_diagnostic(c@, i as int) is None,
                },
            decreases c.len() - i,
        {
            let image = match &c[i].kind {
                Some(k) => str_eq(k.as_str(), "image"),
                None => false,
            };
            if image {
                images = images + 1;
            }
            if diag.is_none() {
                diag = diagnostic_of(&c[i]);
            }
            i = i + 1;
        }
        if images > 0 {
            let mut line = owned("computer screenshot: ");
            if images == 1 {
                line.append("captured");
            } else {
                line.append(dec_string(images).as_str());
                line.append(" captured");
            }
            details.push(line);
        }
        if let Some(d) = diag {
            let mut line = owned("computer error: ");
            line.append(compact_text(d.as_str()).as_str());
            details.push(line);
        }
        proof {
            let n = image_count(c@, c@.len() as int);
            let exp = summary_spec(t_spec, Some(c@), None);
            let first_spec = "computer action: "@ + title_text(t_spec);
            let shot_spec = "computer screenshot: "@ + if n == 1 {
                "captured"@
            } else {
                dec(n) + " captured"@
            };
            if n > 0 {
                assert(details@[1]@ == shot_spec);
                if first_diagnostic(c@, c@.len() as int) is Some {
                    assert(exp == seq![first_spec, shot_spec].push(details@[2]@));
                    assert(details@.map_values(|s: String| s@) =~= exp);
                } else {
                    assert(details@.map_values(|s: String| s@) =~= exp);
                }
            } else {
                if first_diagnostic(c@, c@.len() as int) is Some {
                    assert(details@.map_values(|s: String| s@) =~= exp);
                } else {
                    assert(details@.map_values(|s: String| s@) =~= exp);
                }
            }
        }
        return details;
    }
    assert(details@.map_values(|s: String| s@) =~= seq![details@[0]@]);
    details
}

} // verus!
