//! Writing styled spans to the terminal: which attribute changes move the
//! terminal from one set of text modifiers to the next, and the sequence of
//! writes that draws a run of spans with the fewest style changes.
use vstd::prelude::*;

verus! {

/// The text modifiers a span may carry.
#[derive(Clone, Copy, Debug, PartialEq, Eq, Structural)]
pub struct Modifiers {
    pub bold: bool,
    pub dim: bool,
    pub italic: bool,
    pub underlined: bool,
    pub slow_blink: bool,
    pub rapid_blink: bool,
    pub reversed: bool,
    pub hidden: bool,
    pub crossed_out: bool,
}

/// No modifier.
pub open spec fn no_modifiers() -> Modifiers {
    Modifiers {
        bold: false,
        dim: false,
        italic: false,
        underlined: false,
        slow_blink: false,
        rapid_blink: false,
        reversed: false,
        hidden: false,
        crossed_out: false,
    }
}

/// The modifiers of `a` that `b` lacks.
pub open spec fn minus(a: Modifiers, b: Modifiers) -> Modifiers {
    Modifiers {
        bold: a.bold && !b.bold,
        dim: a.dim && !b.dim,
        italic: a.italic && !b.italic,
        underlined: a.underlined && !b.underlined,
        slow_blink: a.slow_blink && !b.slow_blink,
        rapid_blink: a.rapid_blink && !b.rapid_blink,
        reversed: a.reversed && !b.reversed,
        hidden: a.hidden && !b.hidden,
        crossed_out: a.crossed_out && !b.crossed_out,
    }
}

/// A terminal attribute change.
#[derive(Clone, Copy, Debug, PartialEq, Eq, Structural)]
pub enum Attribute {
    NoReverse,
    NormalIntensity,
    Dim,
    NoItalic,
    NoUnderline,
    NotCrossedOut,
    NoBlink,
    Reverse,
    Bold,
    Italic,
    Underlined,
    CrossedOut,
    SlowBlink,
    RapidBlink,
}

/// `a` when `b` holds, else nothing.
pub open spec fn when(b: bool, a: Attribute) -> Seq<Attribute> {
    if b {
        seq![a]
    } else {
        Seq::empty()
    }
}

/// The attribute changes from `from` to `to`: first switching off what is
/// dropped (turning bold off also clears dim, so dim is set again when it
/// stays), then switching on what is added.
pub open spec fn diff_spec(from: Modifiers, to: Modifiers) -> Seq<Attribute> {
    let removed = minus(from, to);
    let added = minus(to, from);
    when(removed.reversed, Attribute::NoReverse) + when(removed.bold, Attribute::NormalIntensity)
        + when(removed.bold && to.dim, Attribute::Dim) + when(removed.italic, Attribute::NoItalic)
        + when(removed.underlined, Attribute::NoUnderline) + when(
        removed.dim,
        Attribute::NormalIntensity,
    ) + when(removed.crossed_out, Attribute::NotCrossedOut) + when(
        removed.slow_blink || removed.rapid_blink,
        Attribute::NoBlink,
    ) + when(added.reversed, Attribute::Reverse) + when(added.bold, Attribute::Bold) + when(
        added.italic,
        Attribute::Italic,
    ) + when(added.underlined, Attribute::Underlined) + when(added.dim, Attribute::Dim) + when(
        added.crossed_out,
        Attribute::CrossedOut,
    ) + when(added.slow_blink, Attribute::SlowBlink) + when(added.rapid_blink, Attribute::RapidBlink)
}

/// Moving between equal modifiers changes no attribute, and from no
/// modifier to bold alone sets bold only.
pub proof fn lemma_diff_same_is_empty(m: Modifiers)
    ensures
        diff_spec(m, m) == Seq::<Attribute>::empty(),
        diff_spec(no_modifiers(), Modifiers { bold: true, ..no_modifiers() }) == seq![Attribute::Bold],
{
    reveal(diff_spec);
    assert(diff_spec(m, m) =~= Seq::<Attribute>::empty());
    assert(diff_spec(no_modifiers(), Modifiers { bold: true, ..no_modifiers() }) =~= seq![Attribute::Bold]);
}

fn push_when(v: &mut Vec<Attribute>, b: bool, a: Attribute)
    ensures
        final(v)@ == old(v)@ + when(b, a),
{
    if b {
        v.push(a);
    }
    assert(v@ =~= old(v)@ + when(b, a));
}

/// The attribute changes from `from` to `to` (`diff_spec`).
pub fn modifier_diff(from: Modifiers, to: Modifiers) -> (r: Vec<Attribute>)
    ensures
        r@ == diff_spec(from, to),
{
    let mut v: Vec<Attribute> = Vec::new();
    let ghost e = v@;
    push_when(&mut v, from.reversed && !to.reversed, Attribute::NoReverse);
    push_when(&mut v, from.bold && !to.bold, Attribute::NormalIntensity);
    push_when(&mut v, from.bold && !to.bold && to.dim, Attribute::Dim);
    push_when(&mut v, from.italic && !to.italic, Attribute::NoItalic);
    push_when(&mut v, from.underlined && !to.underlined, Attribute::NoUnderline);
    push_when(&mut v, from.dim && !to.dim, Attribute::NormalIntensity);
    push_when(&mut v, from.crossed_out && !to.crossed_out, Attribute::NotCrossedOut);
    push_when(
        &mut v,
        (from.slow_blink && !to.slow_blink) || (from.rapid_blink && !to.rapid_blink),
        Attribute::NoBlink,
    );
    push_when(&mut v, to.reversed && !from.reversed, Attribute::Reverse);
    push_when(&mut v, to.bold && !from.bold, Attribute::Bold);
    push_when(&mut v, to.italic && !from.italic, Attribute::Italic);
    push_when(&mut v, to.underlined && !from.underlined, Attribute::Underlined);
    push_when(&mut v, to.dim && !from.dim, Attribute::Dim);
    push_when(&mut v, to.crossed_out && !from.crossed_out, Attribute::CrossedOut);
    push_when(&mut v, to.slow_blink && !from.slow_blink, Attribute::SlowBlink);
    push_when(&mut v, to.rapid_blink && !from.rapid_blink, Attribute::RapidBlink);
    assert(e =~= Seq::<Attribute>::empty());
    assert(v@ =~= diff_spec(from, to)) by {
        reveal(diff_spec);
    }
    v
}

/// A terminal color.
#[derive(Clone, Copy, Debug, PartialEq, Eq, Structural)]
pub enum SpanColor {
    Reset,
    /// One of the terminal's sixteen named colors.
    Named(u8),
    Indexed(u8),
    Rgb(u8, u8, u8),
}

/// The style of a span: its colors, if set, and the modifiers it adds and
/// takes away.
#[derive(Clone, Copy, Debug, PartialEq, Eq, Structural)]
pub struct SpanStyle {
    pub fg: Option<SpanColor>,
    pub bg: Option<SpanColor>,
    pub add_modifier: Modifiers,
    pub sub_modifier: Modifiers,
}

/// A write to the terminal.
#[derive(Clone, Copy, Debug, PartialEq, Eq, Structural)]
pub enum TermWrite {
    SetAttribute(Attribute),
    SetColors { fg: SpanColor, bg: SpanColor },
    /// Print the text of the span at this position.
    Print(usize),
    ResetForeground,
    ResetBackground,
    ResetAttributes,
}

/// The modifiers a span is drawn with.
pub open spec fn span_modifiers(s: SpanStyle) -> Modifiers {
    minus(s.add_modifier, s.sub_modifier)
}

/// A color, with an unset one read as the reset color.
pub open spec fn color_or_reset(c: Option<SpanColor>) -> SpanColor {
    match c {
        Some(x) => x,
        None => SpanColor::Reset,
    }
}

/// The colors and modifiers in effect after a span with style `s` is
/// drawn with `st` in effect.
pub open spec fn next_state(st: (SpanColor, SpanColor, Modifiers), s: SpanStyle) -> (SpanColor, SpanColor, Modifiers) {
    let nf = color_or_reset(s.fg);
    let nb = color_or_reset(s.bg);
    if nf != st.0 || nb != st.1 {
        (nf, nb, span_modifiers(s))
    } else {
        (st.0, st.1, span_modifiers(s))
    }
}

/// The writes that draw span `i` with style `s` when `st` is in effect:
/// the attribute changes when its modifiers differ, new colors when either
/// differs, then its text.
pub open spec fn span_step(st: (SpanColor, SpanColor, Modifiers), s: SpanStyle, i: int) -> Seq<TermWrite> {
    let m = span_modifiers(s);
    let nf = color_or_reset(s.fg);
    let nb = color_or_reset(s.bg);
    (if m != st.2 {
        diff_spec(st.2, m).map_values(|a: Attribute| TermWrite::SetAttribute(a))
    } else {
        Seq::empty()
    }) + (if nf != st.0 || nb != st.1 {
        seq![TermWrite::SetColors { fg: nf, bg: nb }]
    } else {
        Seq::empty()
    }) + seq![TermWrite::Print(i as usize)]
}

/// The colors and modifiers in effect after the first `n` spans.
pub open spec fn state_after(styles: Seq<SpanStyle>, n: int) -> (SpanColor, SpanColor, Modifiers)
    decreases n,
{
    if n <= 0 {
        (SpanColor::Reset, SpanColor::Reset, no_modifiers())
    } else {
        next_state(state_after(styles, n - 1), styles[n - 1])
    }
}

/// The writes that draw the first `n` spans (`span_step` for each).
pub open spec fn writes_for(styles: Seq<SpanStyle>, n: int) -> Seq<TermWrite>
    decreases n,
{
    if n <= 0 {
        Seq::empty()
    } else {
        writes_for(styles, n - 1) + span_step(state_after(styles, n - 1), styles[n - 1], n - 1)
    }
}

/// The writes that draw spans with the given styles and then reset the
/// colors and attributes.
pub open spec fn span_writes_spec(styles: Seq<SpanStyle>) -> Seq<TermWrite> {
    writes_for(styles, styles.len() as int) + seq![
        TermWrite::ResetForeground,
        TermWrite::ResetBackground,
        TermWrite::ResetAttributes,
    ]
}

fn effective_modifiers(s: SpanStyle) -> (m: Modifiers)
    ensures
        m == span_modifiers(s),
{
    Modifiers {
        bold: s.add_modifier.bold && !s.sub_modifier.bold,
        dim: s.add_modifier.dim && !s.sub_modifier.dim,
        italic: s.add_modifier.italic && !s.sub_modifier.italic,
        underlined: s.add_modifier.underlined && !s.sub_modifier.underlined,
        slow_blink: s.add_modifier.slow_blink && !s.sub_modifier.slow_blink,
        rapid_blink: s.add_modifier.rapid_blink && !s.sub_modifier.rapid_blink,
        reversed: s.add_modifier.reversed && !s.sub_modifier.reversed,
        hidden: s.add_modifier.hidden && !s.sub_modifier.hidden,
        crossed_out: s.add_modifier.crossed_out && !s.sub_modifier.crossed_out,
    }
}

fn push_attributes(out: &mut Vec<TermWrite>, d: &Vec<Attribute>)
    ensures
        final(out)@ == old(out)@ + d@.map_values(|a: Attribute| TermWrite::SetAttribute(a)),
{
    let ghost before = out@;
    let mut k: usize = 0;
    while k < d.len()
        invariant
            k <= d.len(),
            out@ == before + d@.take(k as int).map_values(|a: Attribute| TermWrite::SetAttribute(a)),
        decreases d.len() - k,
    {
        out.push(TermWrite::SetAttribute(d[k]));
        assert(d@.take(k + 1) =~= d@.take(k as int).push(d@[k as int]));
        assert(out@ =~= before + d@.take(k + 1).map_values(|a: Attribute| TermWrite::SetAttribute(a)));
        k = k + 1;
    }
    assert(d@.take(d.len() as int) =~= d@);
}

fn write_span(
    out: &mut Vec<TermWrite>,
    st: (SpanColor, SpanColor, Modifiers),
    s: SpanStyle,
    i: usize,
) -> (r: (SpanColor, SpanColor, Modifiers))
    ensures
        final(out)@ == old(out)@ + span_step(st, s, i as int),
        r == next_state(st, s),
{
    let ghost before = out@;
    let (fg, bg, last) = st;
    let m = effective_modifiers(s);
    let ghost a = if m != last {
        diff_spec(last, m).map_values(|a: Attribute| TermWrite::SetAttribute(a))
    } else {
        Seq::<TermWrite>::empty()
    };
    if m != last {
        let d = modifier_diff(last, m);
        push_attributes(out, &d);
    }
    assert(out@ =~= before + a);
    let ghost after_attrs = out@;
    let nf = match s.fg {
        Some(c) => c,
        None => SpanColor::Reset,
    };
    let nb = match s.bg {
        Some(c) => c,
        None => SpanColor::Reset,
    };
    let changed = nf != fg || nb != bg;
    if changed {
        out.push(TermWrite::SetColors { fg: nf, bg: nb });
    }
    out.push(TermWrite::Print(i));
    assert(out@ =~= before + span_step(st, s, i as int));
    if changed {
        (nf, nb, m)
    } else {
        (fg, bg, m)
    }
}

/// Drawing spans that all carry the style in effect at the start writes
/// only their texts, in order, and the final resets.
pub proof fn lemma_plain_spans_only_print(styles: Seq<SpanStyle>, n: int)
    requires
        0 <= n <= styles.len(),
        forall|i: int|
            0 <= i < styles.len() ==> color_or_reset((#[trigger] styles[i]).fg) == SpanColor::Reset
                && color_or_reset(styles[i].bg) == SpanColor::Reset && span_modifiers(styles[i])
                == no_modifiers(),
    ensures
        state_after(styles, n) == (SpanColor::Reset, SpanColor::Reset, no_modifiers()),
        writes_for(styles, n) == Seq::new(n as nat, |i: int| TermWrite::Print(i as usize)),
    decreases n,
{
    if n > 0 {
        lemma_plain_spans_only_print(styles, n - 1);
        assert(span_modifiers(styles[n - 1]) == no_modifiers());
        assert(writes_for(styles, n) =~= Seq::new(n as nat, |i: int| TermWrite::Print(i as usize)));
    } else {
        assert(writes_for(styles, n) =~= Seq::new(0nat, |i: int| TermWrite::Print(i as usize)));
    }
}

/// The writes that draw spans with the given styles (`span_writes_spec`).
pub fn span_writes(styles: &Vec<SpanStyle>) -> (r: Vec<TermWrite>)
    ensures
        r@ == span_writes_spec(styles@),
{
    let mut out: Vec<TermWrite> = Vec::new();
    let mut st = (
        SpanColor::Reset,
        SpanColor::Reset,
        Modifiers {
            bold: false,
            dim: false,
            italic: false,
            underlined: false,
            slow_blink: false,
            rapid_blink: false,
            reversed: false,
            hidden: false,
            crossed_out: false,
        },
    );
    let mut i: usize = 0;
    while i < styles.len()
        invariant
            i <= styles.len(),
            st == state_after(styles@, i as int),
            out@ == writes_for(styles@, i as int),
        decreases styles.len() - i,
    {
        st = write_span(&mut out, st, styles[i], i);
        i = i + 1;
    }
    out.push(TermWrite::ResetForeground);
    out.push(TermWrite::ResetBackground);
    out.push(TermWrite::ResetAttributes);
    assert(out@ =~= span_writes_spec(styles@));
    out
}

} // verus!
