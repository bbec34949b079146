//! The model picker: the models the server offers, filtered by a search
//! query, with one of them selected.
use vstd::prelude::*;

use crate::input::{InputEvent, Key, KeyPress};
use crate::multi_agents::{str_lt, text_less};
use crate::protocol::Model;
use crate::text::{
    chars_of, contains_seq, contains_text, lowercase, string_of, to_lowercase, trim, trimmed,
};

verus! {

/// The model and provider a picked row stands for.
#[derive(Clone, Debug)]
pub struct ModelSelection {
    pub model: String,
    pub provider: String,
}

/// What an event did in the picker.
#[derive(Clone, Copy, Debug, PartialEq, Eq, Structural)]
pub enum ModelPickerAction {
    /// Nothing to report to the caller.
    Ignored,
    Cancel,
    /// The visible row at this position was chosen.
    Select(usize),
}

/// Whether `a` sorts no later than `b`: default models first, then by
/// lower-case display name.
pub open spec fn key_le(a: Model, b: Model) -> bool {
    if a.is_default != b.is_default {
        a.is_default
    } else {
        !str_lt(lowercase(b.display_name@), lowercase(a.display_name@))
    }
}

/// How many leading models of `s` sort no later than `m`.
pub open spec fn insert_point(s: Seq<Model>, m: Model) -> nat
    decreases s.len(),
{
    if s.len() > 0 && key_le(s[0], m) {
        1 + insert_point(s.drop_first(), m)
    } else {
        0
    }
}

/// The models in stable order of `key_le`: each model, in turn, goes after
/// every earlier model that sorts no later than it.
pub open spec fn sort_models(s: Seq<Model>) -> Seq<Model>
    decreases s.len(),
{
    if s.len() == 0 {
        s
    } else {
        let t = sort_models(s.drop_last());
        t.insert(insert_point(t, s.last()) as int, s.last())
    }
}

/// The models that are not hidden, in their order.
pub open spec fn shown_models(s: Seq<Model>) -> Seq<Model> {
    s.filter(|m: Model| !m.hidden)
}

/// The search key of a query: trimmed and in lower case.
pub open spec fn query_key(query: Seq<char>) -> Seq<char> {
    lowercase(trim(query))
}

/// Whether a model matches a search key: every model matches the empty key;
/// otherwise the key occurs in the lower-case display name, model name or
/// provider.
pub open spec fn model_matches(m: Model, key: Seq<char>) -> bool {
    ||| key.len() == 0
    ||| contains_seq(lowercase(m.display_name@), key)
    ||| contains_seq(lowercase(m.model@), key)
    ||| contains_seq(lowercase(m.provider_id@), key)
}

/// The positions of the models that match the search key, in order.
pub open spec fn visible_positions(models: Seq<Model>, key: Seq<char>) -> Seq<int> {
    Seq::new(models.len(), |i: int| i).filter(|i: int| model_matches(models[i], key))
}

/// What the picker holds: the models in picking order, the selected row
/// and the query.
pub struct ModelPickerView {
    pub models: Seq<Model>,
    pub selected: int,
    pub query: Seq<char>,
}

impl ModelPickerView {
    /// The positions of the visible models.
    pub open spec fn visible(self) -> Seq<int> {
        visible_positions(self.models, query_key(self.query))
    }

    /// The number of visible models.
    pub open spec fn count(self) -> int {
        self.visible().len() as int
    }
}

/// Whether the key is Control with one of the characters.
pub open spec fn control_char(key: KeyPress, a: char, b: char) -> bool {
    key.control && (key.code == Key::Char(a) || key.code == Key::Char(b))
}

/// The picker after an event, and what the event did.
pub open spec fn picker_step(v: ModelPickerView, event: InputEvent) -> (ModelPickerView, ModelPickerAction) {
    let unchanged = (v, ModelPickerAction::Ignored);
    match event {
        InputEvent::Key(key) => if !key.press {
            unchanged
        } else if control_char(key, 'c', 'd') || key.code == Key::Esc {
            (v, ModelPickerAction::Cancel)
        } else if key.code == Key::Up || control_char(key, 'p', 'k') {
            if v.count() > 0 {
                let s = if v.selected == 0 { v.count() - 1 } else { v.selected - 1 };
                (ModelPickerView { selected: s, ..v }, ModelPickerAction::Ignored)
            } else {
                unchanged
            }
        } else if key.code == Key::Down || control_char(key, 'n', 'j') {
            if v.count() > 0 {
                (
                    ModelPickerView { selected: (v.selected + 1) % v.count(), ..v },
                    ModelPickerAction::Ignored,
                )
            } else {
                unchanged
            }
        } else if key.code == Key::Enter {
            if v.selected < v.count() {
                (v, ModelPickerAction::Select(v.selected as usize))
            } else {
                unchanged
            }
        } else if key.code == Key::Backspace {
            (
                ModelPickerView {
                    query: if v.query.len() > 0 { v.query.drop_last() } else { v.query },
                    selected: 0,
                    ..v
                },
                ModelPickerAction::Ignored,
            )
        } else {
            match key.code {
                Key::Char(c) => if !key.control && !key.alt {
                    (
                        ModelPickerView { query: v.query.push(c), selected: 0, ..v },
                        ModelPickerAction::Ignored,
                    )
                } else {
                    unchanged
                },
                _ => unchanged,
            }
        },
        InputEvent::Paste(text) => (
            ModelPickerView { query: v.query + text@, selected: 0, ..v },
            ModelPickerAction::Ignored,
        ),
        InputEvent::Other => unchanged,
    }
}

/// Whether the selection is on a visible row, or on the first row.
pub open spec fn selection_on_row(v: ModelPickerView) -> bool {
    v.selected == 0 || 0 <= v.selected < v.count()
}

/// No event moves the selection off the visible rows: it stays on a
/// visible row, or goes back to the first.
pub proof fn lemma_step_keeps_selection(v: ModelPickerView, event: InputEvent)
    requires
        selection_on_row(v),
    ensures
        selection_on_row(picker_step(v, event).0),
{
    let n = picker_step(v, event).0;
    if n.selected != 0 && n.selected != v.selected && v.count() > 0 {
        vstd::arithmetic::div_mod::lemma_mod_bound(v.selected + 1, v.count());
    }
}

/// Up (or Control-P / Control-K) moves the selection to the previous
/// visible row, and from the first row to the last; the models and the
/// query stay as they were.
pub proof fn lemma_up_selects_previous_row(v: ModelPickerView, key: KeyPress)
    requires
        key.press,
        key.code == Key::Up || (key.control && (key.code == Key::Char('p') || key.code == Key::Char('k'))),
        v.count() > 0,
        0 <= v.selected < v.count(),
    ensures
        picker_step(v, InputEvent::Key(key)).0.selected == if v.selected > 0 {
            v.selected - 1
        } else {
            v.count() - 1
        },
        picker_step(v, InputEvent::Key(key)).0.models == v.models,
        picker_step(v, InputEvent::Key(key)).0.query == v.query,
        picker_step(v, InputEvent::Key(key)).1 == ModelPickerAction::Ignored,
{
}

/// Down (or Control-N / Control-J) moves the selection to the next visible
/// row, and from the last row to the first.
pub proof fn lemma_down_selects_next_row(v: ModelPickerView, key: KeyPress)
    requires
        key.press,
        key.code == Key::Down || (key.control && (key.code == Key::Char('n') || key.code == Key::Char('j'))),
        v.count() > 0,
        0 <= v.selected < v.count(),
    ensures
        picker_step(v, InputEvent::Key(key)).0.selected == if v.selected + 1 < v.count() {
            v.selected + 1
        } else {
            0
        },
        picker_step(v, InputEvent::Key(key)).1 == ModelPickerAction::Ignored,
{
    if v.selected + 1 < v.count() {
        assert((v.selected + 1) % v.count() == v.selected + 1) by (nonlinear_arith)
            requires 0 <= v.selected + 1 < v.count();
    } else {
        assert((v.selected + 1) % v.count() == 0) by (nonlinear_arith)
            requires v.selected + 1 == v.count(), v.count() > 0;
    }
}

/// The search and choice keys: typing a plain character adds it to the
/// query and Backspace removes the query's last character, both putting
/// the selection back on the first row; a paste adds its text the same
/// way; Enter chooses the selected row when there is one; Escape and
/// Control-C / Control-D cancel; a released key does nothing. None of them
/// changes the list of models.
pub proof fn lemma_search_and_choice_keys(v: ModelPickerView, key: KeyPress, c: char, text: String)
    requires
        v.selected >= 0,
    ensures
        ({
            let (n, a) = picker_step(v, InputEvent::Key(key));
            &&& n.models == v.models
            &&& !key.press ==> n == v && a == ModelPickerAction::Ignored
            &&& key.press && key.code == Key::Char(c) && !key.control && !key.alt ==> n.query
                == v.query.push(c) && n.selected == 0 && a == ModelPickerAction::Ignored
            &&& key.press && key.code == Key::Backspace ==> n.query == (if v.query.len() > 0 {
                v.query.drop_last()
            } else {
                v.query
            }) && n.selected == 0
            &&& key.press && (key.code == Key::Esc || (key.control && (key.code == Key::Char('c')
                || key.code == Key::Char('d')))) ==> n == v && a == ModelPickerAction::Cancel
            &&& key.press && key.code == Key::Enter ==> n == v && a == if v.selected < v.count() {
                ModelPickerAction::Select(v.selected as usize)
            } else {
                ModelPickerAction::Ignored
            }
        }),
        ({
            let (n, a) = picker_step(v, InputEvent::Paste(text));
            n.query == v.query + text@ && n.selected == 0 && n.models == v.models && a
                == ModelPickerAction::Ignored
        }),
{
}

/// Down and then Up bring the selection back to the row it was on, and Up
/// and then Down likewise: the two keys undo each other.
pub proof fn lemma_down_and_up_undo_each_other(v: ModelPickerView, down: KeyPress, up: KeyPress)
    requires
        down.press,
        down.code == Key::Down,
        up.press,
        up.code == Key::Up,
        v.count() > 0,
        0 <= v.selected < v.count(),
    ensures
        picker_step(picker_step(v, InputEvent::Key(down)).0, InputEvent::Key(up)).0.selected
            == v.selected,
        picker_step(picker_step(v, InputEvent::Key(up)).0, InputEvent::Key(down)).0.selected
            == v.selected,
{
    let d = picker_step(v, InputEvent::Key(down)).0;
    let u = picker_step(v, InputEvent::Key(up)).0;
    assert(d.count() == v.count());
    assert(u.count() == v.count());
    if v.selected + 1 < v.count() {
        assert((v.selected + 1) % v.count() == v.selected + 1) by (nonlinear_arith)
            requires 0 <= v.selected + 1 < v.count();
    } else {
        assert((v.selected + 1) % v.count() == 0) by (nonlinear_arith)
            requires v.selected + 1 == v.count(), v.count() > 0;
    }
    if v.selected > 0 {
        assert(v.selected % v.count() == v.selected) by (nonlinear_arith)
            requires 0 <= v.selected < v.count();
    } else {
        assert((v.count() - 1 + 1) % v.count() == 0) by (nonlinear_arith)
            requires v.count() > 0;
    }
}

/// The order of `key_le` is transitive.
pub proof fn lemma_key_le_transitive(a: Model, b: Model, c: Model)
    requires
        key_le(a, b),
        key_le(b, c),
    ensures
        key_le(a, c),
{
    if a.is_default == b.is_default && b.is_default == c.is_default {
        let (la, lb, lc) = (
            lowercase(a.display_name@),
            lowercase(b.display_name@),
            lowercase(c.display_name@),
        );
        if str_lt(lc, la) {
            crate::multi_agents::lemma_str_lt_total(lb, lc);
            if str_lt(lb, lc) {
                crate::multi_agents::lemma_str_lt_transitive(lb, lc, la);
            }
        }
    }
}

/// Any two models are ordered one way or the other by `key_le`.
pub proof fn lemma_key_le_total(a: Model, b: Model)
    ensures
        key_le(a, b) || key_le(b, a),
{
    if a.is_default == b.is_default {
        let (la, lb) = (lowercase(a.display_name@), lowercase(b.display_name@));
        if str_lt(la, lb) && str_lt(lb, la) {
            crate::multi_agents::lemma_str_lt_transitive(la, lb, la);
            crate::multi_agents::lemma_str_lt_irreflexive(la);
        }
    }
}

/// Whether the models are in `key_le` order.
pub open spec fn sorted_by_key(s: Seq<Model>) -> bool {
    forall|i: int, j: int| 0 <= i < j < s.len() ==> key_le(#[trigger] s[i], #[trigger] s[j])
}

proof fn lemma_insert_point(s: Seq<Model>, m: Model)
    ensures
        insert_point(s, m) <= s.len(),
        forall|k: int| 0 <= k < insert_point(s, m) ==> key_le(#[trigger] s[k], m),
        insert_point(s, m) < s.len() ==> !key_le(s[insert_point(s, m) as int], m),
    decreases s.len(),
{
    if s.len() > 0 && key_le(s[0], m) {
        lemma_insert_point(s.drop_first(), m);
        assert forall|k: int| 0 <= k < insert_point(s, m) implies key_le(#[trigger] s[k], m) by {
            if k > 0 {
                assert(s[k] == s.drop_first()[k - 1]);
            }
        }
        if insert_point(s, m) < s.len() {
            assert(s[insert_point(s, m) as int] == s.drop_first()[insert_point(s.drop_first(), m) as int]);
        }
    }
}

/// The picking order puts the models in `key_le` order (default models
/// first, then by lower-case display name) and keeps every model.
pub proof fn lemma_sort_models(s: Seq<Model>)
    ensures
        sorted_by_key(sort_models(s)),
        sort_models(s).to_multiset() == s.to_multiset(),
    decreases s.len(),
{
    if s.len() > 0 {
        let t = sort_models(s.drop_last());
        let m = s.last();
        lemma_sort_models(s.drop_last());
        lemma_insert_point(t, m);
        let p = insert_point(t, m) as int;
        let r = t.insert(p, m);
        assert forall|i: int, j: int| 0 <= i < j < r.len() implies key_le(#[trigger] r[i], #[trigger] r[j]) by {
            if p < t.len() {
                lemma_key_le_total(t[p], m);
            }
            if j < p {
                assert(r[i] == t[i] && r[j] == t[j]);
            } else if j == p {
                assert(r[i] == t[i]);
            } else if i == p {
                assert(r[j] == t[j - 1]);
                if j - 1 > p {
                    assert(key_le(t[p], t[j - 1]));
                    lemma_key_le_transitive(m, t[p], t[j - 1]);
                }
            } else if i < p {
                assert(r[i] == t[i] && r[j] == t[j - 1]);
            } else {
                assert(r[i] == t[i - 1] && r[j] == t[j - 1]);
            }
        }
        assert(t =~= t.take(p) + t.skip(p));
        assert(r =~= t.take(p) + seq![m] + t.skip(p));
        vstd::seq_lib::lemma_multiset_commutative(t.take(p) + seq![m], t.skip(p));
        vstd::seq_lib::lemma_multiset_commutative(t.take(p), seq![m]);
        vstd::seq_lib::lemma_multiset_commutative(t.take(p), t.skip(p));
        vstd::seq_lib::lemma_multiset_commutative(s.drop_last(), seq![m]);
        assert(s =~= s.drop_last() + seq![m]);
    }
}

/// The model picker.
pub struct ModelPicker {
    models: Vec<Model>,
    selected: usize,
    query: String,
}

impl View for ModelPicker {
    type V = ModelPickerView;

    closed spec fn view(&self) -> ModelPickerView {
        ModelPickerView { models: self.models@, selected: self.selected as int, query: self.query@ }
    }
}

proof fn lemma_filter_len_le<A>(s: Seq<A>, p: spec_fn(A) -> bool)
    ensures
        s.filter(p).len() <= s.len(),
    decreases s.len(),
{
    reveal_with_fuel(Seq::filter, 1);
    if s.len() > 0 {
        lemma_filter_len_le(s.drop_last(), p);
    }
}

/// The index of `m` in `s` sorted by key, computed over the lower-case
/// display names `keys` of `s`.
fn find_insert_point(s: &Vec<Model>, keys: &Vec<String>, m: &Model, m_key: &str) -> (r: usize)
    requires
        keys.len() == s.len(),
        forall|k: int| 0 <= k < s.len() ==> #[trigger] keys@[k]@ == lowercase(s@[k].display_name@),
        m_key@ == lowercase(m.display_name@),
    ensures
        r == insert_point(s@, *m),
        r <= s.len(),
{
    let mut p: usize = 0;
    assert(s@.skip(0) =~= s@);
    while p < s.len()
        invariant
            p <= s.len(),
            keys.len() == s.len(),
            forall|k: int| 0 <= k < s.len() ==> #[trigger] keys@[k]@ == lowercase(s@[k].display_name@),
            m_key@ == lowercase(m.display_name@),
            insert_point(s@, *m) == p + insert_point(s@.skip(p as int), *m),
        decreases s.len() - p,
    {
        let le = if s[p].is_default != m.is_default {
            s[p].is_default
        } else {
            !text_less(m_key, keys[p].as_str())
        };
        assert(s@.skip(p as int)[0] == s@[p as int]);
        assert(s@.skip(p as int).drop_first() =~= s@.skip(p + 1));
        if !le {
            return p;
        }
        p = p + 1;
    }
    assert(s@.skip(p as int).len() == 0);
    p
}

impl ModelPicker {
    #[verifier::type_invariant]
    spec fn selection_in_range(self) -> bool {
        self.selected == 0 || self.selected < self.models.len()
    }

    /// A picker over the models that are not hidden, defaults first and then
    /// by lower-case display name, with the first row selected and an
    /// empty query.
    pub fn new(models: Vec<Model>) -> (r: ModelPicker)
        ensures
            r@.models == sort_models(shown_models(models@)),
            r@.selected == 0,
            r@.query.len() == 0,
    {
        let ghost all = models@;
        let n = models.len();
        let mut rest = models;
        let mut sorted: Vec<Model> = Vec::new();
        let mut keys: Vec<String> = Vec::new();
        let mut i: usize = 0;
        while rest.len() > 0
            invariant
                i <= all.len(),
                all.len() == n,
                rest@ == all.skip(i as int),
                sorted@ == sort_models(shown_models(all.take(i as int))),
                keys.len() == sorted.len(),
                forall|k: int| 0 <= k < sorted.len() ==> #[trigger] keys@[k]@ == lowercase(sorted@[k].display_name@),
            decreases rest.len(),
        {
            let ghost before = sorted@;
            let ghost before_keys = keys@;
            let m = rest.remove(0);
            assert(m == all[i as int]);
            assert(all.take(i + 1).drop_last() =~= all.take(i as int));
            assert(all.take(i + 1).last() == m);
            reveal_with_fuel(Seq::filter, 1);
            if !m.hidden {
                let key = to_lowercase(m.display_name.as_str());
                let p = find_insert_point(&sorted, &keys, &m, key.as_str());
                assert(shown_models(all.take(i + 1)) =~= shown_models(all.take(i as int)).push(m));
                assert(shown_models(all.take(i + 1)).drop_last() =~= shown_models(all.take(i as int)));
                sorted.insert(p, m);
                keys.insert(p, key);
                assert forall|k: int| 0 <= k < sorted.len() implies #[trigger] keys@[k]@ == lowercase(
                    sorted@[k].display_name@,
                ) by {
                    if k < p {
                        assert(keys@[k] == before_keys[k] && sorted@[k] == before[k]);
                    } else if k > p {
                        assert(keys@[k] == before_keys[k - 1] && sorted@[k] == before[k - 1]);
                    }
                }
            } else {
                assert(shown_models(all.take(i + 1)) =~= shown_models(all.take(i as int)));
            }
            i = i + 1;
            assert(all.skip(i as int) =~= all.skip(i - 1).drop_first());
        }
        assert(all.take(i as int) =~= all);
        ModelPicker { models: sorted, selected: 0, query: String::new() }
    }

    /// The query typed so far.
    pub fn query(&self) -> (r: &str)
        ensures
            r@ == self@.query,
    {
        self.query.as_str()
    }

    /// The selected row.
    pub fn selected(&self) -> (r: usize)
        ensures
            r == self@.selected,
    {
        self.selected
    }

    fn visible_indices(&self) -> (r: Vec<usize>)
        ensures
            r@.len() == self@.visible().len(),
            forall|k: int| 0 <= k < r@.len() ==> #[trigger] r@[k] as int == self@.visible()[k],
            forall|k: int| 0 <= k < r@.len() ==> #[trigger] r@[k] < self@.models.len(),
    {
        let key = to_lowercase(trimmed(self.query.as_str()).as_str());
        let n = self.models.len();
        let ghost all = Seq::new(n as nat, |i: int| i);
        let ghost pred = |i: int| model_matches(self.models@[i], key@);
        let mut r: Vec<usize> = Vec::new();
        let mut i: usize = 0;
        while i < n
            invariant
                i <= n,
                n == self.models.len(),
                all == Seq::new(n as nat, |i: int| i),
                key@ == query_key(self.query@),
                pred == (|i: int| model_matches(self.models@[i], key@)),
                r@.len() == all.take(i as int).filter(pred).len(),
                forall|k: int| 0 <= k < r@.len() ==> #[trigger] r@[k] as int == all.take(i as int).filter(pred)[k],
                forall|k: int| 0 <= k < r@.len() ==> #[trigger] r@[k] < i,
            decreases n - i,
        {
            let m = &self.models[i];
            let matched = key.as_str().is_empty() || contains_text(
                to_lowercase(m.display_name.as_str()).as_str(),
                key.as_str(),
            ) || contains_text(to_lowercase(m.model.as_str()).as_str(), key.as_str())
                || contains_text(to_lowercase(m.provider_id.as_str()).as_str(), key.as_str());
            proof {
                reveal_with_fuel(Seq::filter, 1);
                assert(all.take(i + 1).drop_last() =~= all.take(i as int));
                assert(all.take(i + 1).last() == i as int);
            }
            if matched {
                r.push(i);
            }
            i = i + 1;
        }
        assert(all.take(n as int) =~= all);
        assert(visible_positions(self.models@, key@) == all.filter(pred));
        r
    }

    /// The model and provider of the visible row `index`, if there is one.
    pub fn selected_model(&self, index: usize) -> (r: Option<ModelSelection>)
        ensures
            match r {
                Some(s) => index < self@.count() && s.model@ == self@.models[self@.visible()[index as int]].model@
                    && s.provider@ == self@.models[self@.visible()[index as int]].provider_id@,
                None => index >= self@.count(),
            },
    {
        let visible = self.visible_indices();
        if index < visible.len() {
            let m = &self.models[visible[index]];
            Some(
                ModelSelection {
                    model: crate::text::owned(m.model.as_str()),
                    provider: crate::text::owned(m.provider_id.as_str()),
                },
            )
        } else {
            None
        }
    }

    /// The visible models, in order.
    pub fn visible_models(&self) -> (r: Vec<&Model>)
        ensures
            r@.len() == self@.count(),
            forall|k: int| 0 <= k < r@.len() ==> *#[trigger] r@[k] == self@.models[self@.visible()[k]],
    {
        let visible = self.visible_indices();
        let mut r: Vec<&Model> = Vec::new();
        let mut i: usize = 0;
        while i < visible.len()
            invariant
                i <= visible.len(),
                visible@.len() == self@.visible().len(),
                forall|k: int| 0 <= k < visible@.len() ==> #[trigger] visible@[k] as int == self@.visible()[k],
                forall|k: int| 0 <= k < visible@.len() ==> #[trigger] visible@[k] < self@.models.len(),
                r@.len() == i,
                forall|k: int| 0 <= k < i ==> *#[trigger] r@[k] == self@.models[self@.visible()[k]],
            decreases visible.len() - i,
        {
            r.push(&self.models[visible[i]]);
            i = i + 1;
        }
        r
    }

    /// Applies an event (`picker_step`): Control+C, Control+D and Esc
    /// cancel; Up and Down (or Control with `p`/`k` and `n`/`j`) move the
    /// selection, wrapping around; Enter chooses the selected row; typing,
    /// pasting and Backspace edit the query and select the first row.
    pub fn handle_event(&mut self, event: InputEvent) -> (r: ModelPickerAction)
        ensures
            (final(self)@, r) == picker_step(old(self)@, event),
    {
        proof {
            use_type_invariant(&*self);
            lemma_filter_len_le(Seq::new(self.models@.len(), |i: int| i), |i: int| model_matches(self.models@[i], query_key(self.query@)));
        }
        match event {
            InputEvent::Key(key) => {
                if !key.press {
                    return ModelPickerAction::Ignored;
                }
                let control_cd = key.control && (key.code == Key::Char('c') || key.code == Key::Char('d'));
                if control_cd || key.code == Key::Esc {
                    return ModelPickerAction::Cancel;
                }
                let up = key.code == Key::Up || (key.control && (key.code == Key::Char('p') || key.code == Key::Char('k')));
                let down = key.code == Key::Down || (key.control && (key.code == Key::Char('n') || key.code == Key::Char('j')));
                if up {
                    let count = self.visible_indices().len();
                    if count > 0 {
                        self.selected = if self.selected == 0 {
                            count - 1
                        } else {
                            self.selected - 1
                        };
                    }
                    return ModelPickerAction::Ignored;
                }
                if down {
                    let count = self.visible_indices().len();
                    if count > 0 {
                        self.selected = (self.selected + 1) % count;
                    }
                    return ModelPickerAction::Ignored;
                }
                match key.code {
                    Key::Enter => {
                        match self.selected_model(self.selected) {
                            Some(_) => ModelPickerAction::Select(self.selected),
                            None => ModelPickerAction::Ignored,
                        }
                    },
                    Key::Backspace => {
                        let v = chars_of(self.query.as_str());
                        if v.len() > 0 {
                            self.query = string_of(&v, 0, v.len() - 1);
                            assert(v@.subrange(0, v.len() - 1) =~= v@.drop_last());
                        }
                        self.selected = 0;
                        ModelPickerAction::Ignored
                    },
                    Key::Char(c) => {
                        if !key.control && !key.alt {
                            let mut q = crate::text::owned(self.query.as_str());
                            crate::text::push_char(&mut q, c);
                            self.query = q;
                            self.selected = 0;
                        }
                        ModelPickerAction::Ignored
                    },
                    _ => ModelPickerAction::Ignored,
                }
            },
            InputEvent::Paste(text) => {
                self.query = crate::text::concat2(self.query.as_str(), text.as_str());
                self.selected = 0;
                ModelPickerAction::Ignored
            },
            InputEvent::Other => ModelPickerAction::Ignored,
        }
    }
}

} // verus!
