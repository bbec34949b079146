use lime_tui::markdown::table::{
    compute_column_widths, preferred_column_floor, shrink_columns, ColumnKind, ColumnMetrics,
};

#[test]
fn width_allocation_preserves_compact_columns_after_token_heavy_columns() {
    let metrics = [
        ColumnMetrics {
            max_width: 100,
            header_token_width: 4,
            body_token_width: 100,
            kind: ColumnKind::TokenHeavy,
        },
        ColumnMetrics {
            max_width: 8,
            header_token_width: 5,
            body_token_width: 8,
            kind: ColumnKind::Compact,
        },
    ];

    assert_eq!(compute_column_widths(&metrics, Some(24)), Some(vec![16, 8]));
}

fn column(max_width: usize, kind: ColumnKind) -> ColumnMetrics {
    ColumnMetrics {
        max_width,
        header_token_width: 4,
        body_token_width: max_width,
        kind,
    }
}

#[test]
fn unbounded_tables_keep_natural_widths_with_the_minimum() {
    let metrics = [column(1, ColumnKind::Compact), column(40, ColumnKind::Narrative)];
    assert_eq!(compute_column_widths(&metrics, None), Some(vec![3, 40]));
    assert_eq!(compute_column_widths(&metrics, Some(100)), Some(vec![3, 40]));
}

#[test]
fn too_narrow_for_the_minimum_widths_gives_no_columns() {
    let metrics = [column(10, ColumnKind::Compact), column(10, ColumnKind::Compact)];
    assert_eq!(compute_column_widths(&metrics, Some(5)), None);
}

#[test]
fn floors_bound_the_shrinking_and_leftovers_are_reported() {
    let metrics = [column(30, ColumnKind::Narrative), column(30, ColumnKind::Narrative)];
    let mut widths = vec![30, 30];
    let floors = [16, 16];
    assert_eq!(shrink_columns(&mut widths, &floors, &metrics, 10), 0);
    assert_eq!(widths, vec![25, 25]);
    assert_eq!(shrink_columns(&mut widths, &floors, &metrics, 30), 12);
    assert_eq!(widths, vec![16, 16]);
}

#[test]
fn narrative_columns_shrink_before_compact_ones() {
    let metrics = [column(20, ColumnKind::Compact), column(30, ColumnKind::Narrative)];
    let mut widths = vec![20, 30];
    let floors = [3, 3];
    assert_eq!(shrink_columns(&mut widths, &floors, &metrics, 5), 0);
    assert_eq!(widths, vec![20, 25]);
}

#[test]
fn column_floors_follow_the_column_kind() {
    assert_eq!(preferred_column_floor(&column(100, ColumnKind::TokenHeavy)), 16);
    assert_eq!(preferred_column_floor(&column(10, ColumnKind::Narrative)), 10);
    let compact = ColumnMetrics {
        max_width: 50,
        header_token_width: 6,
        body_token_width: 40,
        kind: ColumnKind::Compact,
    };
    assert_eq!(preferred_column_floor(&compact), 16);
    let tiny = ColumnMetrics {
        max_width: 1,
        header_token_width: 1,
        body_token_width: 1,
        kind: ColumnKind::Compact,
    };
    assert_eq!(preferred_column_floor(&tiny), 3);
}

#[test]
fn wide_tables_are_shrunk_to_fit() {
    let metrics = [
        column(60, ColumnKind::Narrative),
        column(50, ColumnKind::TokenHeavy),
        column(8, ColumnKind::Compact),
    ];
    let widths = compute_column_widths(&metrics, Some(50)).expect("fits");
    assert!(widths.iter().sum::<usize>() <= 50);
    assert!(widths.iter().all(|width| *width >= 3));
}

use lime_tui::markdown::table::{
    collect_metrics, line_text, longest_token_width, normalize_row, should_render_records,
};

fn cells(texts: &[&str]) -> Vec<String> {
    texts.iter().map(|text| text.to_string()).collect()
}

#[test]
fn rows_are_cut_or_padded_to_the_column_count() {
    let mut row = cells(&["a", "b", "c"]);
    normalize_row(&mut row, 2);
    assert_eq!(row, vec!["a", "b"]);
    normalize_row(&mut row, 4);
    assert_eq!(row, vec!["a", "b", "", ""]);
    assert_eq!(line_text("cell"), "cell");
}

#[test]
fn token_widths_are_measured_by_display_width() {
    assert_eq!(longest_token_width("  a bcd  ef "), 3);
    assert_eq!(longest_token_width(""), 0);
    assert_eq!(longest_token_width("宽字符 x"), 6);
}

#[test]
fn metrics_classify_columns() {
    let header = cells(&["Path", "Notes", "N"]);
    let rows = vec![
        cells(&[
            "/a/very/long/path/to/some/file.rs",
            "this column holds several words of prose",
            "1",
        ]),
        cells(&["/another/long/path/to/a/file.rs", "more prose in this cell", "2"]),
    ];
    let metrics = collect_metrics(&header, &rows, 3);
    assert_eq!(metrics.len(), 3);
    assert_eq!(metrics[0].kind, ColumnKind::TokenHeavy);
    assert_eq!(metrics[0].max_width, 33);
    assert_eq!(metrics[0].header_token_width, 4);
    assert_eq!(metrics[1].kind, ColumnKind::Narrative);
    assert_eq!(metrics[2].kind, ColumnKind::Compact);
    assert_eq!(metrics[2].max_width, 1);
    assert_eq!(metrics[2].body_token_width, 1);

    let empty_body = collect_metrics(&cells(&["a header of five words"]), &Vec::new(), 1);
    assert_eq!(empty_body[0].kind, ColumnKind::Narrative);
}

#[test]
fn records_replace_columns_when_rows_fragment() {
    let rows = vec![cells(&["abcdefgh", "x"]), cells(&["y", "z"])];
    let compact = [
        column(8, ColumnKind::Compact),
        column(1, ColumnKind::Compact),
    ];
    let wrapped = vec![vec![1, 1], vec![1, 1]];
    assert!(!should_render_records(&rows, &[8, 3], &compact, &wrapped));
    assert!(!should_render_records(&rows, &[4, 3], &compact, &wrapped));
    let single = vec![cells(&["abcdefgh", "x"])];
    assert!(should_render_records(&single, &[4, 3], &compact, &vec![vec![2, 1]]));
    assert!(!should_render_records(&Vec::new(), &[4, 3], &compact, &Vec::new()));

    let narrative = [
        column(30, ColumnKind::Narrative),
        column(30, ColumnKind::TokenHeavy),
    ];
    let starving = vec![cells(&["p", "q"]), cells(&["r", "s"])];
    assert!(should_render_records(
        &starving,
        &[5, 5],
        &narrative,
        &vec![vec![4, 5], vec![6, 4]]
    ));
    assert!(!should_render_records(
        &starving,
        &[5, 5],
        &narrative,
        &vec![vec![4, 3], vec![6, 3]]
    ));
}
