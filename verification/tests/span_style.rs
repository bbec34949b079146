use lime_tui::span_style::{
    modifier_diff, span_writes, Attribute, Modifiers, SpanColor, SpanStyle, TermWrite,
};

fn none() -> Modifiers {
    Modifiers {
        bold: false,
        dim: false,
        italic: false,
        underlined: false,
        slow_blink: false,
        rapid_blink: false,
        reversed: false,
        hidden: false,
        crossed_out: false,
    }
}

fn style(fg: Option<SpanColor>, add: Modifiers) -> SpanStyle {
    SpanStyle { fg, bg: None, add_modifier: add, sub_modifier: none() }
}

#[test]
fn dropping_bold_keeps_dim_by_setting_it_again() {
    let from = Modifiers { bold: true, dim: true, ..none() };
    let to = Modifiers { dim: true, ..none() };
    assert_eq!(modifier_diff(from, to), vec![Attribute::NormalIntensity, Attribute::Dim]);
}

#[test]
fn modifier_changes_switch_off_before_switching_on() {
    let from = Modifiers { italic: true, slow_blink: true, ..none() };
    let to = Modifiers { bold: true, underlined: true, ..none() };
    assert_eq!(
        modifier_diff(from, to),
        vec![
            Attribute::NoItalic,
            Attribute::NoBlink,
            Attribute::Bold,
            Attribute::Underlined,
        ]
    );
    assert!(modifier_diff(to, to).is_empty());
}

#[test]
fn spans_change_style_only_when_it_differs() {
    let bold = Modifiers { bold: true, ..none() };
    let red = Some(SpanColor::Named(1));
    let styles = vec![
        style(None, none()),
        style(red, bold),
        style(red, bold),
        SpanStyle { fg: red, bg: None, add_modifier: bold, sub_modifier: bold },
    ];
    assert_eq!(
        span_writes(&styles),
        vec![
            TermWrite::Print(0),
            TermWrite::SetAttribute(Attribute::Bold),
            TermWrite::SetColors { fg: SpanColor::Named(1), bg: SpanColor::Reset },
            TermWrite::Print(1),
            TermWrite::Print(2),
            TermWrite::SetAttribute(Attribute::NormalIntensity),
            TermWrite::Print(3),
            TermWrite::ResetForeground,
            TermWrite::ResetBackground,
            TermWrite::ResetAttributes,
        ]
    );
}

#[test]
fn no_spans_only_reset() {
    assert_eq!(
        span_writes(&Vec::new()),
        vec![
            TermWrite::ResetForeground,
            TermWrite::ResetBackground,
            TermWrite::ResetAttributes,
        ]
    );
}
