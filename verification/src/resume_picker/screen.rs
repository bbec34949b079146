//! What the session picker shows: the title, the search and list-option
//! line, how each listed session is laid out, which row is highlighted,
//! and the footer; or, while it is open, the transcript pager.
use vstd::prelude::*;

use super::{
    holds_text, PickerState, SessionListDensity, SessionPickerAction, SessionStatus,
    ThreadSortKey, ThreadSummary,
};
use crate::locale::Locale;
use super::preview::preview_text;
use crate::text::{concat3, is_blank, owned, trim};

verus! {

/// How a listed session is laid out: its title line alone (dense), with a
/// line of metadata below (comfortable), or with its details (expanded).
#[derive(Clone, Copy, Debug, PartialEq, Eq, Structural)]
pub enum PickerRowLayout {
    TitleOnly,
    WithMetadata,
    Expanded,
}

/// The text of the session list screen.
pub struct PickerListScreen {
    /// The bold title, and the dim subtitle after it.
    pub title: String,
    pub subtitle: String,
    /// The search text and the list options.
    pub search_line: String,
    pub rows: Vec<PickerRowLayout>,
    /// The title of each listed session's row.
    pub row_titles: Vec<String>,
    pub highlighted: Option<usize>,
    pub footer: String,
}

/// What the picker shows.
pub enum PickerScreen {
    /// The transcript pager of the session with this id.
    Transcript(String),
    List(PickerListScreen),
}

/// The layout of the session at `index`: expanded when it is the selected
/// and expanded one, else by density.
pub open spec fn row_layout(p: PickerState, index: int, t: ThreadSummary) -> PickerRowLayout {
    if p.selected == index && holds_text(p.expanded_thread_id, t.id@) {
        PickerRowLayout::Expanded
    } else if p.density == SessionListDensity::Dense {
        PickerRowLayout::TitleOnly
    } else {
        PickerRowLayout::WithMetadata
    }
}

/// The title of a session's row: its name when it has one that is not
/// blank, else its transcript preview, else its first prompt, and the
/// untitled label when that is blank too.
pub open spec fn row_title(p: PickerState, t: ThreadSummary, locale: Locale) -> Seq<char> {
    if t.name is Some && trim(t.name.unwrap()@).len() > 0 {
        t.name.unwrap()@
    } else {
        let preview = match preview_text(p, t.id@) {
            Some(x) => x,
            None => t.preview@,
        };
        if trim(preview).len() == 0 {
            locale.untitled_conversation_text()
        } else {
            preview
        }
    }
}

/// The title: the resume label and what the picker is for.
pub open spec fn title_text(p: PickerState, locale: Locale) -> Seq<char> {
    " "@ + locale.resume_label_text() + ": "@ + locale.resume_picker_title_text(
        p.action == SessionPickerAction::Fork,
    ) + " "@
}

/// The search text (the placeholder, then the query when there is one)
/// and the status, filter and sort options.
pub open spec fn search_line_text(p: PickerState, locale: Locale) -> Seq<char> {
    let placeholder = locale.resume_search_placeholder_text();
    let search = if p.query@.len() == 0 {
        placeholder
    } else {
        placeholder + ": "@ + p.query@
    };
    search + " | "@ + locale.resume_status_label_text(p.status == SessionStatus::Archived) + " | "@
        + locale.resume_filter_label_text(p.show_all) + " | "@ + locale.resume_sort_label_text(
        p.sort_key == ThreadSortKey::CreatedAt,
    )
}

/// The footer: loading, then an empty list, then the status message, and
/// otherwise the key hints with the density.
pub open spec fn footer_text(p: PickerState, locale: Locale) -> Seq<char> {
    if p.loading {
        locale.resume_loading_text()
    } else if p.threads@.len() == 0 {
        locale.resume_empty_text()
    } else if p.status_message is Some {
        p.status_message.unwrap()@
    } else {
        locale.resume_enter_hint_text(
            p.action == SessionPickerAction::Fork,
            p.status == SessionStatus::Archived,
        ) + " | "@ + locale.resume_controls_hint_text() + "  "@ + locale.resume_expand_hint_text()
            + " | "@ + locale.resume_transcript_hint_text() + " | "@
            + locale.resume_density_label_text(p.density == SessionListDensity::Dense)
    }
}

/// Whether `s` is what the picker `p` shows.
pub open spec fn screen_of(p: PickerState, locale: Locale, s: PickerScreen) -> bool {
    match p.transcript_pager {
        Some(pager) => s matches PickerScreen::Transcript(id) && id@ == pager.thread_id@,
        None => s matches PickerScreen::List(l) && {
            &&& l.title@ == title_text(p, locale)
            &&& l.subtitle@ == locale.resume_title_text()
            &&& l.search_line@ == search_line_text(p, locale)
            &&& l.rows@.len() == p.threads@.len()
            &&& forall|i: int|
                0 <= i < l.rows@.len() ==> #[trigger] l.rows@[i] == row_layout(p, i, p.threads@[i])
            &&& l.row_titles@.len() == p.threads@.len()
            &&& forall|i: int|
                0 <= i < l.row_titles@.len() ==> (#[trigger] l.row_titles@[i])@ == row_title(
                    p,
                    p.threads@[i],
                    locale,
                )
            &&& l.highlighted == if p.threads@.len() == 0 {
                None
            } else {
                Some(p.selected)
            }
            &&& l.footer@ == footer_text(p, locale)
        },
    }
}

fn row_layouts(picker: &PickerState) -> (r: Vec<PickerRowLayout>)
    ensures
        r@.len() == picker.threads@.len(),
        forall|i: int|
            0 <= i < r@.len() ==> #[trigger] r@[i] == row_layout(*picker, i, picker.threads@[i]),
{
    let mut rows: Vec<PickerRowLayout> = Vec::new();
    let mut i: usize = 0;
    while i < picker.threads.len()
        invariant
            i <= picker.threads.len(),
            rows@.len() == i,
            forall|k: int|
                0 <= k < i ==> #[trigger] rows@[k] == row_layout(*picker, k, picker.threads@[k]),
        decreases picker.threads.len() - i,
    {
        let expanded = picker.selected == i && match &picker.expanded_thread_id {
            Some(e) => crate::text::str_eq(e.as_str(), picker.threads[i].id.as_str()),
            None => false,
        };
        let layout = if expanded {
            PickerRowLayout::Expanded
        } else if picker.density == SessionListDensity::Dense {
            PickerRowLayout::TitleOnly
        } else {
            PickerRowLayout::WithMetadata
        };
        rows.push(layout);
        i = i + 1;
    }
    rows
}

fn row_titles(picker: &PickerState, locale: Locale) -> (r: Vec<String>)
    ensures
        r@.len() == picker.threads@.len(),
        forall|i: int|
            0 <= i < r@.len() ==> (#[trigger] r@[i])@ == row_title(*picker, picker.threads@[i], locale),
{
    let mut titles: Vec<String> = Vec::new();
    let mut i: usize = 0;
    while i < picker.threads.len()
        invariant
            i <= picker.threads.len(),
            titles@.len() == i,
            forall|k: int|
                0 <= k < i ==> (#[trigger] titles@[k])@ == row_title(*picker, picker.threads@[k], locale),
        decreases picker.threads.len() - i,
    {
        let t = &picker.threads[i];
        let named = match &t.name {
            Some(nm) => !is_blank(nm.as_str()),
            None => false,
        };
        let title = if named {
            match &t.name {
                Some(nm) => owned(nm.as_str()),
                None => String::new(),
            }
        } else {
            let preview = match picker.transcript_preview_text(t.id.as_str()) {
                Some(x) => x,
                None => owned(t.preview.as_str()),
            };
            if is_blank(preview.as_str()) {
                owned(locale.untitled_conversation())
            } else {
                preview
            }
        };
        titles.push(title);
        i = i + 1;
    }
    titles
}

/// What the picker shows (`screen_of`).
pub fn picker_screen_text(picker: &PickerState, locale: Locale) -> (r: PickerScreen)
    ensures
        screen_of(*picker, locale, r),
{
    if let Some(pager) = &picker.transcript_pager {
        return PickerScreen::Transcript(owned(pager.thread_id.as_str()));
    }
    let mut title = concat3(" ", locale.resume_label(), ": ");
    title.append(locale.resume_picker_title(picker.action == SessionPickerAction::Fork));
    title.append(" ");
    let mut search = owned(locale.resume_search_placeholder());
    if !picker.query.as_str().is_empty() {
        search.append(": ");
        search.append(picker.query.as_str());
    }
    search.append(" | ");
    search.append(locale.resume_status_label(picker.status == SessionStatus::Archived));
    search.append(" | ");
    search.append(locale.resume_filter_label(picker.show_all));
    search.append(" | ");
    search.append(locale.resume_sort_label(picker.sort_key == ThreadSortKey::CreatedAt));
    let footer = if picker.loading {
        owned(locale.resume_loading())
    } else if picker.threads.len() == 0 {
        owned(locale.resume_empty())
    } else if let Some(m) = &picker.status_message {
        owned(m.as_str())
    } else {
        let mut f = owned(
            locale.resume_enter_hint(
                picker.action == SessionPickerAction::Fork,
                picker.status == SessionStatus::Archived,
            ),
        );
        f.append(" | ");
        f.append(locale.resume_controls_hint());
        f.append("  ");
        f.append(locale.resume_expand_hint());
        f.append(" | ");
        f.append(locale.resume_transcript_hint());
        f.append(" | ");
        f.append(locale.resume_density_label(picker.density == SessionListDensity::Dense));
        f
    };
    let highlighted = if picker.threads.len() == 0 {
        None
    } else {
        Some(picker.selected)
    };
    PickerScreen::List(
        PickerListScreen {
            title,
            subtitle: owned(locale.resume_title()),
            search_line: search,
            rows: row_layouts(picker),
            row_titles: row_titles(picker, locale),
            highlighted,
            footer,
        },
    )
}

} // verus!
