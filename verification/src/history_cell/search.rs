//! The detail shown for a web search: what its action was about, falling
//! back to the search's query.
use vstd::prelude::*;

use crate::text::owned;

verus! {

/// The action of a web search, as typed from the item's action value; an
/// action value of another shape has no typed action.
#[derive(Debug)]
pub enum WebSearchAction {
    Search { query: Option<String>, queries: Option<Vec<String>> },
    OpenPage { url: Option<String> },
    FindInPage { url: Option<String>, pattern: Option<String> },
    Other,
}

/// What an action is about: a search's query (or its first query, with
/// `...` when there were more), a page's address, or the pattern looked
/// for and where.
pub open spec fn action_detail(action: WebSearchAction) -> Seq<char> {
    match action {
        WebSearchAction::Search { query, queries } => match query {
            Some(q) if q@.len() > 0 => q@,
            _ => {
                let first = match queries {
                    Some(qs) => if qs@.len() > 0 {
                        qs@[0]@
                    } else {
                        Seq::empty()
                    },
                    None => Seq::empty(),
                };
                let more = match queries {
                    Some(qs) => qs@.len() > 1,
                    None => false,
                };
                if more && first.len() > 0 {
                    first + " ..."@
                } else {
                    first
                }
            },
        },
        WebSearchAction::OpenPage { url } => match url {
            Some(u) => u@,
            None => Seq::empty(),
        },
        WebSearchAction::FindInPage { url, pattern } => match (pattern, url) {
            (Some(p), Some(u)) => "'"@ + p@ + "' in "@ + u@,
            (Some(p), None) => "'"@ + p@ + "'"@,
            (None, Some(u)) => u@,
            (None, None) => Seq::empty(),
        },
        WebSearchAction::Other => Seq::empty(),
    }
}

/// The detail of a web search: its action's detail, or the query when
/// there is no typed action or its detail is empty.
pub open spec fn search_detail(query: Seq<char>, action: Option<WebSearchAction>) -> Seq<char> {
    match action {
        Some(a) => if action_detail(a).len() > 0 {
            action_detail(a)
        } else {
            query
        },
        None => query,
    }
}

fn detail_of(action: &WebSearchAction) -> (r: String)
    ensures
        r@ == action_detail(*action),
{
    match action {
        WebSearchAction::Search { query, queries } => {
            match query {
                Some(q) => {
                    if !q.as_str().is_empty() {
                        return owned(q.as_str());
                    }
                },
                None => {},
            }
            let (first, more) = match queries {
                Some(qs) => {
                    if qs.len() > 0 {
                        (owned(qs[0].as_str()), qs.len() > 1)
                    } else {
                        (String::new(), false)
                    }
                },
                None => (String::new(), false),
            };
            if more && !first.as_str().is_empty() {
                let mut s = first;
                s.append(" ...");
                s
            } else {
                first
            }
        },
        WebSearchAction::OpenPage { url } => match url {
            Some(u) => owned(u.as_str()),
            None => String::new(),
        },
        WebSearchAction::FindInPage { url, pattern } => match (pattern, url) {
            (Some(p), Some(u)) => {
                let mut s = owned("'");
                s.append(p.as_str());
                s.append("' in ");
                s.append(u.as_str());
                s
            },
            (Some(p), None) => {
                let mut s = owned("'");
                s.append(p.as_str());
                s.append("'");
                s
            },
            (None, Some(u)) => owned(u.as_str()),
            (None, None) => String::new(),
        },
        WebSearchAction::Other => String::new(),
    }
}

/// The detail of a web search (`search_detail`).
pub fn web_search_detail(query: &str, action: Option<&WebSearchAction>) -> (r: String)
    ensures
        r@ == search_detail(
            query@,
            match action {
                Some(a) => Some(*a),
                None => None,
            },
        ),
{
    match action {
        Some(a) => {
            let d = detail_of(a);
            if d.as_str().is_empty() {
                owned(query)
            } else {
                d
            }
        },
        None => owned(query),
    }
}

} // verus!
