//! Separators placed after a completed turn.
use vstd::prelude::*;

use crate::locale::Locale;
use crate::text::{dec, owned, push_char, push_dec};
use crate::width::{display_width, str_width};

verus! {

/// The separator drawn after the last entry of a completed turn.
#[derive(Debug, Clone, Copy, PartialEq, Eq, Structural)]
pub struct FinalMessageSeparator {
    pub elapsed_seconds: Option<u64>,
    pub locale: Locale,
}

/// The label telling how long a turn worked.
pub open spec fn worked_text(locale: Locale, seconds: nat) -> Seq<char> {
    match locale {
        Locale::ZhCn => "已用时 "@ + dec(seconds) + " 秒"@,
        Locale::ZhTw => "已用時 "@ + dec(seconds) + " 秒"@,
        Locale::EnUs => "Worked for "@ + dec(seconds) + "s"@,
        Locale::JaJp => "所要時間 "@ + dec(seconds) + "秒"@,
        Locale::KoKr => "소요 시간 "@ + dec(seconds) + "초"@,
    }
}

/// `n` dashes.
pub open spec fn dashes(n: nat) -> Seq<char> {
    Seq::new(n, |i: int| '-')
}

fn push_dashes(s: &mut String, n: usize)
    ensures
        final(s)@ == old(s)@ + dashes(n as nat),
{
    let mut i: usize = 0;
    while i < n
        invariant
            i <= n,
            s@ == old(s)@ + dashes(i as nat),
        decreases n - i,
    {
        push_char(s, '-');
        assert(old(s)@ + dashes((i + 1) as nat) =~= (old(s)@ + dashes(i as nat)).push('-'));
        i = i + 1;
    }
}

impl FinalMessageSeparator {
    /// A separator in the default locale.
    pub fn new(elapsed_seconds: Option<u64>) -> (r: Self)
        ensures
            r.elapsed_seconds == elapsed_seconds,
            r.locale == Locale::EnUs,
    {
        FinalMessageSeparator { elapsed_seconds, locale: Locale::EnUs }
    }

    /// The separator in `locale`.
    pub fn with_locale(self, locale: Locale) -> (r: Self)
        ensures
            r.elapsed_seconds == self.elapsed_seconds,
            r.locale == locale,
    {
        FinalMessageSeparator { elapsed_seconds: self.elapsed_seconds, locale }
    }

    /// The label telling how long the turn worked.
    pub fn worked_label(&self, seconds: u64) -> (r: String)
        ensures
            r@ == worked_text(self.locale, seconds as nat),
    {
        let (head, tail) = match self.locale {
            Locale::ZhCn => ("已用时 ", " 秒"),
            Locale::ZhTw => ("已用時 ", " 秒"),
            Locale::EnUs => ("Worked for ", "s"),
            Locale::JaJp => ("所要時間 ", "秒"),
            Locale::KoKr => ("소요 시간 ", "초"),
        };
        let mut s = owned(head);
        push_dec(&mut s, seconds);
        s.append(tail);
        s
    }

    /// The label drawn into the rule: shown for turns longer than a minute.
    pub open spec fn rule_label(self) -> Option<Seq<char>> {
        match self.elapsed_seconds {
            Some(s) => if s > 60 {
                Some(" "@ + worked_text(self.locale, s as nat) + " "@)
            } else {
                None
            },
            None => None,
        }
    }

    /// The rule of `width` columns: dashes, with the label after the first
    /// dash when it is narrower than the rule.
    pub open spec fn display_spec(self, width: nat) -> Seq<char> {
        match self.rule_label() {
            Some(label) => if (str_width(label) as nat) < width {
                "-"@ + label + dashes((width - str_width(label) - 1) as nat)
            } else {
                dashes(width)
            },
            None => dashes(width),
        }
    }

    /// The rule drawn for a terminal `width` columns wide.
    pub fn display_line(&self, width: u16) -> (r: String)
        ensures
            r@ == self.display_spec(width as nat),
    {
        let w = width as usize;
        let label = match self.elapsed_seconds {
            Some(s) => if s > 60 {
                let mut l = owned(" ");
                let worked = self.worked_label(s);
                l.append(worked.as_str());
                l.append(" ");
                Some(l)
            } else {
                None
            },
            None => None,
        };
        match label {
            Some(l) => {
                let lw = display_width(l.as_str());
                if lw < w {
                    let mut s = owned("-");
                    s.append(l.as_str());
                    push_dashes(&mut s, w - lw - 1);
                    s
                } else {
                    let mut s = String::new();
                    push_dashes(&mut s, w);
                    s
                }
            },
            None => {
                let mut s = String::new();
                push_dashes(&mut s, w);
                s
            },
        }
    }

    /// The plain-text form: the worked label, when the time is known.
    pub fn raw_lines(&self) -> (r: Vec<String>)
        ensures
            match self.elapsed_seconds {
                Some(s) => r@.len() == 1 && r@[0]@ == worked_text(self.locale, s as nat),
                None => r@.len() == 0,
            },
    {
        match self.elapsed_seconds {
            Some(s) => {
                let mut v = Vec::new();
                v.push(self.worked_label(s));
                v
            },
            None => Vec::new(),
        }
    }
}

} // verus!
