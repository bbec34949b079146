//! The running-turn status line: elapsed time and the interrupt hint.
use vstd::prelude::*;

use crate::locale::Locale;
use crate::text::{dec, owned, push_dec};

verus! {

/// `n` written with at least two digits, as the `{:02}` format writes it.
pub open spec fn two_digits(n: nat) -> Seq<char> {
    if n < 10 {
        seq!['0'] + dec(n)
    } else {
        dec(n)
    }
}

/// Elapsed seconds in compact form: `59s`, `1m 00s`, `2h 03m 09s`.
pub open spec fn elapsed_compact(secs: nat) -> Seq<char> {
    if secs < 60 {
        dec(secs) + "s"@
    } else if secs < 3600 {
        dec(secs / 60) + "m "@ + two_digits(secs % 60) + "s"@
    } else {
        dec(secs / 3600) + "h "@ + two_digits((secs % 3600) / 60) + "m "@ + two_digits(secs % 60)
            + "s"@
    }
}

/// The compact form names the hours, minutes and seconds that make up the
/// time: `h` hours, `m` minutes and `s` seconds (with `m` and `s` under
/// sixty) read `<h>h <mm>m <ss>s` from an hour on, `<m>m <ss>s` from a
/// minute on, and `<s>s` below a minute.
pub proof fn lemma_elapsed_names_its_parts(h: nat, m: nat, s: nat)
    requires
        m < 60,
        s < 60,
    ensures
        h > 0 ==> elapsed_compact(3600 * h + 60 * m + s) == dec(h) + "h "@ + two_digits(m) + "m "@
            + two_digits(s) + "s"@,
        h == 0 && m > 0 ==> elapsed_compact(60 * m + s) == dec(m) + "m "@ + two_digits(s) + "s"@,
        h == 0 && m == 0 ==> elapsed_compact(s) == dec(s) + "s"@,
{
    let t = 3600 * h + 60 * m + s;
    if h > 0 {
        assert(t / 3600 == h && (t % 3600) / 60 == m && t % 60 == s && t >= 3600) by (nonlinear_arith)
            requires t == 3600 * h + 60 * m + s, m < 60, s < 60, h > 0;
    }
    if h == 0 && m > 0 {
        let u = 60 * m + s;
        assert(u / 60 == m && u % 60 == s && 60 <= u < 3600) by (nonlinear_arith)
            requires u == 60 * m + s, m < 60, s < 60, m > 0;
    }
}

fn push_two_digits(s: &mut String, n: u64)
    ensures
        final(s)@ == old(s)@ + two_digits(n as nat),
{
    if n < 10 {
        s.append("0");
        push_dec(s, n);
        proof {
            reveal_strlit("0");
        }
        assert(final(s)@ =~= old(s)@ + two_digits(n as nat));
    } else {
        push_dec(s, n);
    }
}

/// Elapsed seconds in compact form (`7389` seconds read `2h 03m 09s`).
pub fn fmt_elapsed_compact(elapsed_secs: u64) -> (r: String)
    ensures
        r@ == elapsed_compact(elapsed_secs as nat),
{
    let mut s = String::new();
    if elapsed_secs < 60 {
        push_dec(&mut s, elapsed_secs);
        s.append("s");
    } else if elapsed_secs < 3600 {
        push_dec(&mut s, elapsed_secs / 60);
        s.append("m ");
        push_two_digits(&mut s, elapsed_secs % 60);
        s.append("s");
    } else {
        push_dec(&mut s, elapsed_secs / 3600);
        s.append("h ");
        push_two_digits(&mut s, (elapsed_secs % 3600) / 60);
        s.append("m ");
        push_two_digits(&mut s, elapsed_secs % 60);
        s.append("s");
    }
    assert(s@ =~= elapsed_compact(elapsed_secs as nat));
    s
}

/// The status line of a running turn: `• Working (1m 03s • esc to interrupt)`.
pub open spec fn status_line_spec(locale: Locale, elapsed_secs: nat) -> Seq<char> {
    "• "@ + locale.working_label_text() + " ("@ + elapsed_compact(elapsed_secs) + " • "@
        + locale.interrupt_hint_text() + ")"@
}

/// The status line of a running turn, before it is fitted to the screen.
pub fn status_line_text(locale: Locale, elapsed_secs: u64) -> (r: String)
    ensures
        r@ == status_line_spec(locale, elapsed_secs as nat),
{
    let mut s = owned("• ");
    s.append(locale.working_label());
    s.append(" (");
    let e = fmt_elapsed_compact(elapsed_secs);
    s.append(e.as_str());
    s.append(" • ");
    s.append(locale.interrupt_hint());
    s.append(")");
    s
}

} // verus!
