//! The session header card: its width bounds, label padding, and the plain
//! lines it is exported as.
use vstd::prelude::*;

use crate::locale::Locale;
use crate::text::{owned, push_char, str_eq};
use crate::width::{display_width, str_width};

verus! {

/// The widest the card's inside grows.
pub const SESSION_HEADER_MAX_INNER_WIDTH: usize = 56;

/// The width inside the card's border: four columns less than the
/// terminal, at most 56; none when the terminal is narrower than four.
pub fn card_inner_width(width: u16) -> (r: Option<usize>)
    ensures
        width < 4 ==> r is None,
        width >= 4 ==> r == Some(
            if width - 4 <= 56 {
                (width - 4) as usize
            } else {
                56usize
            },
        ),
{
    if width >= 4 {
        let inner = (width - 4) as usize;
        Some(
            if inner <= SESSION_HEADER_MAX_INNER_WIDTH {
                inner
            } else {
                SESSION_HEADER_MAX_INNER_WIDTH
            },
        )
    } else {
        None
    }
}

/// `n` spaces.
pub open spec fn spaces(n: nat) -> Seq<char> {
    Seq::new(n, |i: int| ' ')
}

/// A label padded with spaces to `width` display columns.
pub open spec fn padded(label: Seq<char>, width: nat) -> Seq<char> {
    label + spaces(
        if width >= str_width(label) {
            (width - str_width(label)) as nat
        } else {
            0
        },
    )
}

/// A label padded with spaces to `width` display columns (`padded`).
pub fn padded_label(label: &str, width: usize) -> (r: String)
    ensures
        r@ == padded(label@, width as nat),
{
    let used = display_width(label);
    let pad = width.saturating_sub(used);
    let mut s = owned(label);
    let mut i: usize = 0;
    while i < pad
        invariant
            i <= pad,
            s@ == label@ + spaces(i as nat),
        decreases pad - i,
    {
        push_char(&mut s, ' ');
        assert(spaces((i + 1) as nat) =~= spaces(i as nat).push(' '));
        i = i + 1;
    }
    s
}

/// What a path is relative to a base: `Path::strip_prefix` of std, the
/// remainder shown as text; none when the base is not a prefix of the path
/// by components.
pub uninterp spec fn path_relative_to(path: Seq<char>, base: Seq<char>) -> Option<Seq<char>>;

/// `Path::strip_prefix` of std, the remainder shown as text: the result is
/// the named value `path_relative_to` of the two paths; nothing more is
/// claimed of it.
#[verifier::external_body]
fn relative_to(path: &str, base: &str) -> (r: Option<String>)
    ensures
        match r {
            Some(s) => path_relative_to(path@, base@) == Some(s@),
            None => path_relative_to(path@, base@) is None,
        },
{
    match std::path::Path::new(path).strip_prefix(base) {
        Ok(rel) => Some(rel.display().to_string()),
        Err(_) => None,
    }
}

/// The session header: model, effort, permissions, working directory,
/// client version and the locale of its labels.
pub struct SessionHeaderHistoryCell {
    pub version: String,
    pub model: String,
    pub reasoning_effort: Option<String>,
    pub permissions: Option<String>,
    pub directory: String,
    pub locale: Locale,
}

/// The directory as shown: under the home directory it reads `~`, or `~`,
/// the platform's path separator `sep` and the rest; elsewhere, as it is.
pub open spec fn directory_text(directory: Seq<char>, home: Option<Seq<char>>, sep: char) -> Seq<char> {
    match home {
        Some(h) => match path_relative_to(directory, h) {
            Some(rel) => if rel.len() == 0 {
                "~"@
            } else {
                seq!['~', sep] + rel
            },
            None => directory,
        },
        None => directory,
    }
}

/// The model and, when set and not empty, the effort after a space.
pub open spec fn model_text(model: Seq<char>, effort: Option<Seq<char>>) -> Seq<char> {
    match effort {
        Some(e) => if e.len() > 0 {
            model + " "@ + e
        } else {
            model
        },
        None => model,
    }
}

pub open spec fn opt_view(v: Option<String>) -> Option<Seq<char>> {
    match v {
        Some(s) => Some(s@),
        None => None,
    }
}

/// Whether the permissions are full access without a sandbox.
pub open spec fn is_danger(permissions: Option<Seq<char>>) -> bool {
    permissions == Some(":danger-full-access"@)
}

/// The header as plain lines: the client and version, the model, the
/// directory, and the permissions when they are full access.
pub open spec fn header_raw_lines(cell: SessionHeaderHistoryCell, home: Option<Seq<char>>, sep: char) -> Seq<
    Seq<char>,
> {
    let base = seq![
        "Lime (v"@ + cell.version@ + ")"@,
        cell.locale.model_label_text() + ": "@ + model_text(
            cell.model@,
            opt_view(cell.reasoning_effort),
        ),
        cell.locale.cwd_label_text() + ": "@ + directory_text(cell.directory@, home, sep),
    ];
    if is_danger(opt_view(cell.permissions)) {
        base.push(cell.locale.permissions_label_text() + ": :danger-full-access"@)
    } else {
        base
    }
}

impl SessionHeaderHistoryCell {
    pub fn new(
        model: String,
        reasoning_effort: Option<String>,
        permissions: Option<String>,
        directory: String,
        version: String,
        locale: Locale,
    ) -> (r: SessionHeaderHistoryCell)
        ensures
            r.model@ == model@,
            opt_view(r.reasoning_effort) == opt_view(reasoning_effort),
            opt_view(r.permissions) == opt_view(permissions),
            r.directory@ == directory@,
            r.version@ == version@,
            r.locale == locale,
    {
        SessionHeaderHistoryCell { version, model, reasoning_effort, permissions, directory, locale }
    }

    /// The directory as shown, given the home directory and the platform's
    /// path separator (`directory_text`).
    pub fn format_directory(&self, home: Option<&str>, separator: char) -> (r: String)
        ensures
            r@ == directory_text(
                self.directory@,
                match home {
                    Some(h) => Some(h@),
                    None => None,
                },
                separator,
            ),
    {
        match home {
            Some(h) => match relative_to(self.directory.as_str(), h) {
                Some(rel) => {
                    if rel.as_str().is_empty() {
                        owned("~")
                    } else {
                        let mut s = owned("~");
                        crate::text::push_char(&mut s, separator);
                        s.append(rel.as_str());
                        proof {
                            reveal_strlit("~");
                            assert(s@ =~= seq!['~', separator] + rel@);
                        }
                        s
                    }
                },
                None => owned(self.directory.as_str()),
            },
            None => owned(self.directory.as_str()),
        }
    }

    /// The header as plain lines (`header_raw_lines`), given the home
    /// directory and the platform's path separator.
    pub fn raw_lines(&self, home: Option<&str>, separator: char) -> (r: Vec<String>)
        ensures
            r@.map_values(|s: String| s@) == header_raw_lines(
                *self,
                match home {
                    Some(h) => Some(h@),
                    None => None,
                },
                separator,
            ),
    {
        let mut model = owned(self.model.as_str());
        match &self.reasoning_effort {
            Some(e) => {
                if !e.as_str().is_empty() {
                    model.append(" ");
                    model.append(e.as_str());
                }
            },
            None => {},
        }
        let mut first = owned("Lime (v");
        first.append(self.version.as_str());
        first.append(")");
        let mut second = owned(self.locale.model_label());
        second.append(": ");
        second.append(model.as_str());
        let mut third = owned(self.locale.cwd_label());
        third.append(": ");
        third.append(self.format_directory(home, separator).as_str());
        let mut lines: Vec<String> = Vec::new();
        lines.push(first);
        lines.push(second);
        lines.push(third);
        let danger = match &self.permissions {
            Some(p) => str_eq(p.as_str(), ":danger-full-access"),
            None => false,
        };
        if danger {
            let mut fourth = owned(self.locale.permissions_label());
            fourth.append(": :danger-full-access");
            lines.push(fourth);
        }
        proof {
            let exp = header_raw_lines(
                *self,
                match home {
                    Some(h) => Some(h@),
                    None => None,
                },
                separator,
            );
            assert(lines@.map_values(|s: String| s@) =~= exp);
        }
        lines
    }
}

} // verus!
