//! Which canonical user messages the transcript hides: review prompts, that
//! is, user messages inside a review, and the duplicated prompt of an
//! interrupted turn nested in a finished review.
use vstd::prelude::*;

use crate::projection::TurnStatus;
use crate::protocol::{ThreadItem, Turn, UserInput};
use crate::text::{owned, str_eq};

verus! {

/// Whether the review is on after the first `n` items, starting from
/// `initial`.
pub open spec fn review_after(items: Seq<ThreadItem>, initial: bool, n: int) -> bool
    decreases n,
{
    if n <= 0 {
        initial
    } else {
        match items[n - 1] {
            ThreadItem::EnteredReviewMode { .. } => true,
            ThreadItem::ExitedReviewMode { .. } => false,
            _ => review_after(items, initial, n - 1),
        }
    }
}

/// Whether item `i` is kept: every item but a user message inside a review.
pub open spec fn kept_in_review(items: Seq<ThreadItem>, initial: bool, i: int) -> bool {
    !(items[i] is UserMessage && review_after(items, initial, i))
}

/// The positions, among the first `n`, of the items kept.
pub open spec fn review_kept(items: Seq<ThreadItem>, initial: bool, n: int) -> Seq<int>
    decreases n,
{
    if n <= 0 {
        Seq::empty()
    } else if kept_in_review(items, initial, n - 1) {
        review_kept(items, initial, n - 1).push(n - 1)
    } else {
        review_kept(items, initial, n - 1)
    }
}

/// Positions as integers.
pub open spec fn positions(v: Seq<usize>) -> Seq<int> {
    v.map_values(|x: usize| x as int)
}

/// The positions of the items kept when user messages inside a review are
/// hidden, the review state starting at `initial_review_mode`.
pub fn filter_review_mode_items_with_state(items: &Vec<ThreadItem>, initial_review_mode: bool) -> (r:
    Vec<usize>)
    ensures
        positions(r@) == review_kept(items@, initial_review_mode, items@.len() as int),
{
    let mut review = initial_review_mode;
    let mut kept: Vec<usize> = Vec::new();
    let mut i: usize = 0;
    while i < items.len()
        invariant
            i <= items.len(),
            review == review_after(items@, initial_review_mode, i as int),
            positions(kept@) == review_kept(items@, initial_review_mode, i as int),
        decreases items.len() - i,
    {
        let ghost before = positions(kept@);
        match &items[i] {
            ThreadItem::EnteredReviewMode { .. } => {
                kept.push(i);
                review = true;
            },
            ThreadItem::ExitedReviewMode { .. } => {
                kept.push(i);
                review = false;
            },
            ThreadItem::UserMessage { .. } => {
                if !review {
                    kept.push(i);
                }
            },
            _ => {
                kept.push(i);
            },
        }
        assert(positions(kept@) =~= review_kept(items@, initial_review_mode, i + 1));
        i = i + 1;
    }
    kept
}

/// The positions of the items kept from a flat page, whose review state is
/// not known before it.
pub fn filter_review_mode_items(items: &Vec<ThreadItem>) -> (r: Vec<usize>)
    ensures
        positions(r@) == review_kept(items@, false, items@.len() as int),
{
    filter_review_mode_items_with_state(items, false)
}

/// The id of a user message.
pub open spec fn user_id(item: ThreadItem) -> Option<Seq<char>> {
    match item {
        ThreadItem::UserMessage { id, .. } => Some(id@),
        _ => None,
    }
}

/// The id of a user message.
pub fn user_message_id(item: &ThreadItem) -> (r: Option<&str>)
    ensures
        match r {
            Some(s) => user_id(*item) == Some(s@),
            None => user_id(*item) is None,
        },
{
    match item {
        ThreadItem::UserMessage { id, .. } => Some(id.as_str()),
        _ => None,
    }
}

/// Whether one of `ids` is `id`.
pub open spec fn listed(ids: Seq<String>, id: Seq<char>) -> bool {
    exists|i: int| 0 <= i < ids.len() && ids[i]@ == id
}

/// Whether one of `ids` is `id`.
pub fn is_listed_ids(ids: &[String], id: &str) -> (r: bool)
    ensures
        r == listed(ids@, id@),
{
    is_listed(ids, id)
}

fn is_listed(ids: &[String], id: &str) -> (r: bool)
    ensures
        r == listed(ids@, id@),
{
    let mut i: usize = 0;
    while i < ids.len()
        invariant
            i <= ids.len(),
            forall|j: int| 0 <= j < i ==> ids@[j]@ != id@,
        decreases ids.len() - i,
    {
        if str_eq(ids[i].as_str(), id) {
            return true;
        }
        i = i + 1;
    }
    false
}

/// The positions, among the first `n`, of the items that are not user
/// messages with a listed id.
pub open spec fn id_kept(items: Seq<ThreadItem>, hidden: Seq<String>, n: int) -> Seq<int>
    decreases n,
{
    if n <= 0 {
        Seq::empty()
    } else {
        let init = id_kept(items, hidden, n - 1);
        match user_id(items[n - 1]) {
            Some(id) => if listed(hidden, id) {
                init
            } else {
                init.push(n - 1)
            },
            None => init.push(n - 1),
        }
    }
}

/// The positions of the items kept when the listed user messages are hidden.
pub fn filter_user_message_ids(items: &Vec<ThreadItem>, hidden_ids: &[String]) -> (r: Vec<usize>)
    ensures
        positions(r@) == id_kept(items@, hidden_ids@, items@.len() as int),
{
    let mut kept: Vec<usize> = Vec::new();
    let mut i: usize = 0;
    while i < items.len()
        invariant
            i <= items.len(),
            positions(kept@) == id_kept(items@, hidden_ids@, i as int),
        decreases items.len() - i,
    {
        let hide = match user_message_id(&items[i]) {
            Some(id) => is_listed(hidden_ids, id),
            None => false,
        };
        if !hide {
            kept.push(i);
        }
        assert(positions(kept@) =~= id_kept(items@, hidden_ids@, i + 1));
        i = i + 1;
    }
    kept
}

/// Whether two user inputs are the same.
pub open spec fn same_input(a: UserInput, b: UserInput) -> bool {
    match (a, b) {
        (UserInput::Text(x), UserInput::Text(y)) => x@ == y@,
        (UserInput::Image, UserInput::Image) => true,
        (UserInput::LocalImage { .. }, UserInput::LocalImage { .. }) => true,
        (UserInput::Skill(x), UserInput::Skill(y)) => x@ == y@,
        (UserInput::Mention(x), UserInput::Mention(y)) => x@ == y@,
        _ => false,
    }
}

/// Whether two user messages have the same content.
pub open spec fn same_content(a: Seq<UserInput>, b: Seq<UserInput>) -> bool {
    a.len() == b.len() && forall|i: int| 0 <= i < a.len() ==> same_input(a[i], b[i])
}

fn same_input_exec(a: &UserInput, b: &UserInput) -> (r: bool)
    ensures
        r == same_input(*a, *b),
{
    match (a, b) {
        (UserInput::Text(x), UserInput::Text(y)) => str_eq(x.as_str(), y.as_str()),
        (UserInput::Image, UserInput::Image) => true,
        (UserInput::LocalImage { .. }, UserInput::LocalImage { .. }) => true,
        (UserInput::Skill(x), UserInput::Skill(y)) => str_eq(x.as_str(), y.as_str()),
        (UserInput::Mention(x), UserInput::Mention(y)) => str_eq(x.as_str(), y.as_str()),
        _ => false,
    }
}

fn same_content_exec(a: &Vec<UserInput>, b: &Vec<UserInput>) -> (r: bool)
    ensures
        r == same_content(a@, b@),
{
    if a.len() != b.len() {
        return false;
    }
    let mut i: usize = 0;
    while i < a.len()
        invariant
            i <= a.len(),
            a.len() == b.len(),
            forall|j: int| 0 <= j < i ==> same_input(a@[j], b@[j]),
        decreases a.len() - i,
    {
        if !same_input_exec(&a[i], &b[i]) {
            return false;
        }
        i = i + 1;
    }
    true
}

/// The positions, among the first `n` items, of the user messages.
pub open spec fn user_positions(items: Seq<ThreadItem>, n: int) -> Seq<int>
    decreases n,
{
    if n <= 0 {
        Seq::empty()
    } else if items[n - 1] is UserMessage {
        user_positions(items, n - 1).push(n - 1)
    } else {
        user_positions(items, n - 1)
    }
}

/// The content of a user message.
pub open spec fn content_of(item: ThreadItem) -> Seq<UserInput> {
    match item {
        ThreadItem::UserMessage { content, .. } => content@,
        _ => Seq::empty(),
    }
}

/// Whether some item is an entered (or exited) review marker.
pub open spec fn has_marker(items: Seq<ThreadItem>, entered: bool) -> bool {
    exists|i: int|
        0 <= i < items.len() && (if entered {
            items[i] is EnteredReviewMode
        } else {
            items[i] is ExitedReviewMode
        })
}

/// Whether `turn` is the interrupted duplicate of a review prompt: it
/// follows a completed turn holding a whole review, was interrupted without
/// completing, and holds exactly two user messages with the same content.
pub open spec fn hidden_nested(previous: Turn, turn: Turn) -> bool {
    let users = user_positions(turn.items@, turn.items@.len() as int);
    &&& previous.status == TurnStatus::Completed
    &&& turn.status == TurnStatus::Interrupted
    &&& turn.completed_at is None
    &&& has_marker(previous.items@, true)
    &&& has_marker(previous.items@, false)
    &&& users.len() == 2
    &&& same_content(content_of(turn.items@[users[0]]), content_of(turn.items@[users[1]]))
}

fn find_marker(items: &Vec<ThreadItem>, entered: bool) -> (r: bool)
    ensures
        r == has_marker(items@, entered),
{
    let mut i: usize = 0;
    while i < items.len()
        invariant
            i <= items.len(),
            forall|j: int|
                0 <= j < i ==> !(if entered {
                    items@[j] is EnteredReviewMode
                } else {
                    items@[j] is ExitedReviewMode
                }),
        decreases items.len() - i,
    {
        let hit = match &items[i] {
            ThreadItem::EnteredReviewMode { .. } => entered,
            ThreadItem::ExitedReviewMode { .. } => !entered,
            _ => false,
        };
        if hit {
            return true;
        }
        i = i + 1;
    }
    false
}

/// Whether `turn` is the interrupted duplicate of a review prompt
/// (`hidden_nested`).
pub fn is_hidden_nested_review_turn(previous: &Turn, turn: &Turn) -> (r: bool)
    ensures
        r == hidden_nested(*previous, *turn),
{
    if previous.status != TurnStatus::Completed || turn.status != TurnStatus::Interrupted
        || turn.completed_at.is_some() || !find_marker(&previous.items, true) || !find_marker(
        &previous.items,
        false,
    ) {
        return false;
    }
    let mut users: Vec<usize> = Vec::new();
    let mut i: usize = 0;
    while i < turn.items.len()
        invariant
            i <= turn.items.len(),
            positions(users@) == user_positions(turn.items@, i as int),
            forall|j: int| 0 <= j < users.len() ==> users@[j] < i,
        decreases turn.items.len() - i,
    {
        if let ThreadItem::UserMessage { .. } = &turn.items[i] {
            users.push(i);
        }
        assert(positions(users@) =~= user_positions(turn.items@, i + 1));
        i = i + 1;
    }
    if users.len() != 2 {
        return false;
    }
    assert(users@[0] as int == positions(users@)[0]);
    assert(users@[1] as int == positions(users@)[1]);
    match (&turn.items[users[0]], &turn.items[users[1]]) {
        (ThreadItem::UserMessage { content: a, .. }, ThreadItem::UserMessage { content: b, .. }) => {
            same_content_exec(a, b)
        },
        _ => {
            proof {
                lemma_user_positions(turn.items@, turn.items@.len() as int);
            }
            false
        },
    }
}

/// The positions `user_positions` gives hold user messages.
pub proof fn lemma_user_positions(items: Seq<ThreadItem>, n: int)
    requires
        0 <= n <= items.len(),
    ensures
        forall|j: int|
            0 <= j < user_positions(items, n).len() ==> 0 <= #[trigger] user_positions(items, n)[j]
                < n && items[user_positions(items, n)[j]] is UserMessage,
    decreases n,
{
    if n > 0 {
        lemma_user_positions(items, n - 1);
    }
}

/// The review state at the start of turn `t`.
pub open spec fn review_at_turn(turns: Seq<Turn>, t: int) -> bool
    decreases t,
{
    if t <= 0 {
        false
    } else {
        review_after(
            turns[t - 1].items@,
            review_at_turn(turns, t - 1),
            turns[t - 1].items@.len() as int,
        )
    }
}

/// Whether item `k` of turn `t` is a user message hidden from history: it
/// is inside a review, or its turn is the interrupted duplicate of a review
/// prompt.
pub open spec fn hidden_user_at(turns: Seq<Turn>, t: int, k: int) -> bool {
    &&& 0 <= t < turns.len()
    &&& 0 <= k < turns[t].items@.len()
    &&& turns[t].items@[k] is UserMessage
    &&& (review_after(turns[t].items@, review_at_turn(turns, t), k) || (t > 0 && hidden_nested(
        turns[t - 1],
        turns[t],
    )))
}

/// `listed` after a push.
pub proof fn lemma_listed_push(v: Seq<String>, s: String)
    ensures
        forall|x: Seq<char>| listed(v.push(s), x) <==> (listed(v, x) || s@ == x),
{
    assert forall|x: Seq<char>| listed(v.push(s), x) <==> (listed(v, x) || s@ == x) by {
        if listed(v.push(s), x) {
            let w = choose|w: int| 0 <= w < v.push(s).len() && v.push(s)[w]@ == x;
            if w < v.len() {
                assert(v[w]@ == x);
            }
        }
        if listed(v, x) {
            let w = choose|w: int| 0 <= w < v.len() && v[w]@ == x;
            assert(v.push(s)[w]@ == x);
        }
        if s@ == x {
            assert(v.push(s)[v.len() as int]@ == x);
        }
    }
}

/// The id of the user message at item `j` of turn `u`.
pub open spec fn user_id_at(turns: Seq<Turn>, u: int, j: int) -> Option<Seq<char>> {
    user_id(turns[u].items@[j])
}

/// Whether a hidden user message with id `id` comes before item `k` of turn
/// `t`.
pub open spec fn hidden_before(turns: Seq<Turn>, t: int, k: int, id: Seq<char>) -> bool {
    exists|u: int, j: int|
        hidden_user_at(turns, u, j) && (u < t || (u == t && j < k)) && #[trigger] user_id_at(
            turns,
            u,
            j,
        ) == Some(id)
}

proof fn lemma_hidden_step(turns: Seq<Turn>, t: int, k: int, id: Seq<char>)
    requires
        0 <= t < turns.len(),
        0 <= k < turns[t].items@.len(),
    ensures
        hidden_before(turns, t, k + 1, id) <==> (hidden_before(turns, t, k, id) || (hidden_user_at(
            turns,
            t,
            k,
        ) && user_id_at(turns, t, k) == Some(id))),
{
    if hidden_before(turns, t, k + 1, id) {
        let (u, j) = choose|u: int, j: int|
            hidden_user_at(turns, u, j) && (u < t || (u == t && j < k + 1)) && #[trigger] user_id_at(
                turns,
                u,
                j,
            ) == Some(id);
        if !(u == t && j == k) {
            assert(hidden_before(turns, t, k, id));
        }
    }
    if hidden_user_at(turns, t, k) && user_id_at(turns, t, k) == Some(id) {
        assert(hidden_before(turns, t, k + 1, id));
    }
}

proof fn lemma_hidden_turn_end(turns: Seq<Turn>, t: int, id: Seq<char>)
    requires
        0 <= t < turns.len(),
    ensures
        hidden_before(turns, t, turns[t].items@.len() as int, id) <==> hidden_before(
            turns,
            t + 1,
            0,
            id,
        ),
{
    if hidden_before(turns, t + 1, 0, id) {
        let (u, j) = choose|u: int, j: int|
            hidden_user_at(turns, u, j) && (u < t + 1 || (u == t + 1 && j < 0)) && #[trigger] user_id_at(
                turns,
                u,
                j,
            ) == Some(id);
        assert(hidden_before(turns, t, turns[t].items@.len() as int, id));
    }
}

/// The ids of the user messages that history does not show.
pub fn hidden_user_message_ids(turns: &Vec<Turn>) -> (r: Vec<String>)
    ensures
        forall|id: Seq<char>|
            listed(r@, id) <==> exists|t: int, k: int|
                hidden_user_at(turns@, t, k) && #[trigger] user_id_at(turns@, t, k) == Some(id),
{
    let mut hidden: Vec<String> = Vec::new();
    let mut review = false;
    let mut t: usize = 0;
    while t < turns.len()
        invariant
            t <= turns.len(),
            review == review_at_turn(turns@, t as int),
            forall|id: Seq<char>| listed(hidden@, id) <==> hidden_before(turns@, t as int, 0, id),
        decreases turns.len() - t,
    {
        let turn = &turns[t];
        let nested = t > 0 && is_hidden_nested_review_turn(&turns[t - 1], turn);
        let ghost start = review;
        let mut k: usize = 0;
        while k < turn.items.len()
            invariant
                t < turns.len(),
                *turn == turns@[t as int],
                k <= turn.items.len(),
                start == review_at_turn(turns@, t as int),
                review == review_after(turn.items@, start, k as int),
                nested == (t > 0 && hidden_nested(turns@[t - 1], turns@[t as int])),
                forall|id: Seq<char>|
                    listed(hidden@, id) <==> hidden_before(turns@, t as int, k as int, id),
            decreases turn.items.len() - k,
        {
            let ghost h0 = hidden@;
            let ghost rv = review;
            match &turn.items[k] {
                ThreadItem::EnteredReviewMode { .. } => {
                    review = true;
                },
                ThreadItem::ExitedReviewMode { .. } => {
                    review = false;
                },
                ThreadItem::UserMessage { id, .. } => {
                    if review || nested {
                        let copy = owned(id.as_str());
                        hidden.push(copy);
                        proof {
                            lemma_listed_push(h0, copy);
                        }
                    }
                },
                _ => {},
            }
            proof {
                let item = turns@[t as int].items@[k as int];
                assert(item == turn.items@[k as int]);
                assert(hidden_user_at(turns@, t as int, k as int) == (item is UserMessage && (rv
                    || nested)));
                assert forall|x: Seq<char>|
                    listed(hidden@, x) <==> hidden_before(turns@, t as int, k + 1, x) by {
                    lemma_hidden_step(turns@, t as int, k as int, x);
                    if item is UserMessage && (rv || nested) {
                        assert(listed(hidden@, x) <==> (listed(h0, x) || user_id(item) == Some(x)));
                    } else {
                        assert(hidden@ == h0);
                    }
                }
            }
            k = k + 1;
        }
        proof {
            assert forall|x: Seq<char>| listed(hidden@, x) <==> hidden_before(turns@, t + 1, 0, x) by {
                lemma_hidden_turn_end(turns@, t as int, x);
            }
        }
        t = t + 1;
    }
    proof {
        assert forall|x: Seq<char>|
            listed(hidden@, x) <==> exists|u: int, k: int|
                hidden_user_at(turns@, u, k) && #[trigger] user_id_at(turns@, u, k) == Some(x) by {
            if exists|u: int, k: int|
                hidden_user_at(turns@, u, k) && #[trigger] user_id_at(turns@, u, k) == Some(x) {
                let (u, k) = choose|u: int, k: int|
                    hidden_user_at(turns@, u, k) && #[trigger] user_id_at(turns@, u, k) == Some(x);
                assert(hidden_before(turns@, t as int, 0, x));
            }
        }
    }
    hidden
}

} // verus!
