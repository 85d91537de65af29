use dioxus_virtual_scroll::layout::{GridLayout, RenderedItem};

fn ceil_div(a: usize, b: usize) -> usize {
    (a + b - 1) / b
}

fn layout(count: usize, buffer: usize, fitting: usize, first: usize, viewport: usize) -> GridLayout {
    GridLayout::calculate(count, buffer, fitting, first, viewport)
}

#[test]
fn readme_config_at_top() {
    // 200x280 items, 16px gap, 1000x800 container: 4 columns, rows of 296px,
    // the viewport spans 3 rows; 100 items make 25 rows.
    let l = layout(100, 2, 4, 0, 3);
    assert_eq!(
        l,
        GridLayout {
            columns: 4,
            start_row: 0,
            end_row: 6,
            start_idx: 0,
            end_idx: 24,
            top_padding_rows: 0,
            bottom_padding_rows: 19,
        }
    );
}

#[test]
fn readme_config_scrolled() {
    // scroll_top 1000px with 296px rows: first visible row 3.
    let l = layout(100, 2, 4, 3, 3);
    assert_eq!(l.start_row, 1);
    assert_eq!(l.end_row, 9);
    assert_eq!(l.start_idx, 4);
    assert_eq!(l.end_idx, 36);
    assert_eq!(l.top_padding_rows, 1);
    assert_eq!(l.bottom_padding_rows, 16);
}

#[test]
fn empty_list_renders_nothing() {
    let l = layout(0, 2, 4, 0, 3);
    assert_eq!(l.start_row, 0);
    assert_eq!(l.end_row, 0);
    assert_eq!(l.start_idx, 0);
    assert_eq!(l.end_idx, 0);
    assert_eq!(l.bottom_padding_rows, 0);
    assert!(l.rendered_items(true).is_empty());
}

#[test]
fn at_least_one_column() {
    let l = layout(5, 0, 0, 0, 1);
    assert_eq!(l.columns, 1);
    assert_eq!(l.end_row, 2);
    assert_eq!(l.end_idx, 2);
    assert_eq!(l.bottom_padding_rows, 3);
}

#[test]
fn at_least_one_viewport_row() {
    // A zero-height viewport still keeps one row plus the extra row.
    let l = layout(50, 0, 1, 10, 0);
    assert_eq!(l.start_row, 10);
    assert_eq!(l.end_row, 12);
}

#[test]
fn last_row_partially_filled() {
    let l = layout(10, 1, 3, 2, 2);
    assert_eq!(l.columns, 3);
    assert_eq!(l.start_row, 1);
    assert_eq!(l.end_row, 4);
    assert_eq!(l.start_idx, 3);
    assert_eq!(l.end_idx, 10);
    assert_eq!(l.bottom_padding_rows, 0);
}

#[test]
fn buffer_clamped_at_top() {
    let l = layout(100, 5, 2, 3, 4);
    assert_eq!(l.start_row, 0);
    assert_eq!(l.end_row, 13);
    assert_eq!(l.end_idx, 26);
}

#[test]
fn scrolled_past_the_end() {
    let l = layout(10, 2, 1, 100, 5);
    assert_eq!(l.start_row, 98);
    assert_eq!(l.end_row, 10);
    assert_eq!(l.start_idx, 98);
    assert_eq!(l.end_idx, 10);
    assert_eq!(l.top_padding_rows, 98);
    assert_eq!(l.bottom_padding_rows, 0);
    assert!(l.rendered_items(true).is_empty());
}

#[test]
fn rendered_items_marks_first_for_measurement() {
    let l = layout(100, 2, 4, 3, 3);
    let items = l.rendered_items(true);
    assert_eq!(items.len(), 32);
    assert_eq!(items[0], RenderedItem { index: 4, measure: true });
    assert_eq!(items[1], RenderedItem { index: 5, measure: false });
    assert_eq!(items[31], RenderedItem { index: 35, measure: false });
    let items = l.rendered_items(false);
    assert!(items.iter().all(|item| !item.measure));
    assert_eq!(items[0].index, 4);
}

#[test]
fn try_calculate_agrees_with_calculate() {
    assert_eq!(GridLayout::try_calculate(100, 2, 4, 3, 3), Some(layout(100, 2, 4, 3, 3)));
    assert_eq!(GridLayout::try_calculate(0, 0, 0, 0, 0), Some(layout(0, 0, 0, 0, 0)));
}

#[test]
fn try_calculate_refuses_row_overflow() {
    assert_eq!(GridLayout::try_calculate(10, 0, 1, usize::MAX, 1), None);
    assert_eq!(GridLayout::try_calculate(10, 0, 1, 0, usize::MAX), None);
    assert_eq!(GridLayout::try_calculate(10, usize::MAX - 3, 1, 2, 1), None);
}

#[test]
fn try_calculate_refuses_index_overflow() {
    assert_eq!(GridLayout::try_calculate(10, 0, 3, usize::MAX / 2, 1), None);
    assert_eq!(GridLayout::try_calculate(usize::MAX, 0, usize::MAX / 2 + 1, 0, 1), None);
    assert!(GridLayout::try_calculate(usize::MAX, 0, usize::MAX, 0, 1).is_some());
}

#[test]
fn law_rendered_iff_near_viewport() {
    for &(count, buffer, fitting, viewport) in &[(37, 2, 4, 3), (10, 0, 1, 1), (25, 1, 5, 0), (0, 3, 2, 2)] {
        for first in 0..20 {
            let l = layout(count, buffer, fitting, first, viewport);
            let visible = viewport.max(1) + 1;
            for i in 0..count + 10 {
                let rendered = l.start_idx <= i && i < l.end_idx;
                let row = i / l.columns;
                let near = i < count && first.saturating_sub(buffer) <= row && row < first + visible + buffer;
                assert_eq!(rendered, near, "count {count} first {first} index {i}");
            }
        }
    }
}

#[test]
fn law_rendered_items_exist() {
    for first in 0..40 {
        let l = layout(23, 2, 3, first, 2);
        assert!(l.end_idx <= 23);
        for item in l.rendered_items(false) {
            assert!(item.index < 23);
        }
    }
}

#[test]
fn law_spacers_keep_scroll_height() {
    for &(count, buffer, fitting, viewport) in &[(37, 2, 4, 3), (10, 0, 1, 1), (25, 1, 5, 0), (0, 3, 2, 2), (100, 2, 4, 3)] {
        let columns = fitting.max(1);
        let total = ceil_div(count, columns);
        for first in 0..(total + buffer + 1) {
            let l = layout(count, buffer, fitting, first, viewport);
            let rendered = l.end_idx.saturating_sub(l.start_idx);
            assert_eq!(
                l.top_padding_rows + ceil_div(rendered, columns) + l.bottom_padding_rows,
                total,
                "count {count} first {first}"
            );
        }
    }
}

#[test]
fn law_fails_far_past_the_end() {
    // More than `buffer_rows` rows below the last row the spacers overshoot.
    let l = layout(10, 2, 1, 100, 5);
    assert!(l.top_padding_rows + l.bottom_padding_rows > 10);
}

#[test]
fn law_scrolling_down_moves_window_down() {
    for &(count, buffer, fitting, viewport) in &[(37, 2, 4, 3), (10, 0, 1, 1), (100, 3, 2, 5)] {
        let mut previous = layout(count, buffer, fitting, 0, viewport);
        for first in 1..60 {
            let l = layout(count, buffer, fitting, first, viewport);
            assert!(previous.start_row <= l.start_row);
            assert!(previous.end_row <= l.end_row);
            assert!(previous.start_idx <= l.start_idx);
            assert!(previous.end_idx <= l.end_idx);
            previous = l;
        }
    }
}
