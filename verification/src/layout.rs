//! Row and index arithmetic of the virtual grid.
//!
//! The pixel geometry of a viewport (container size, item size, gap, scroll
//! offset) reaches this module already quantized into whole rows and columns.
//! From those integers the module decides which rows are materialized, which
//! item indices they hold and how many rows the two spacer elements stand for.
use vstd::prelude::*;
use vstd::arithmetic::div_mod::{
    lemma_fundamental_div_mod,
    lemma_fundamental_div_mod_converse,
    lemma_mod_pos_bound,
};
use vstd::arithmetic::mul::lemma_mul_inequality;

verus! {

/// Which rows and items of the grid are rendered for one viewport.
///
/// Rows `start_row..end_row` are materialized, holding the items
/// `start_idx..end_idx`; the spacer above the content stands for
/// `top_padding_rows` rows and the spacer below it for `bottom_padding_rows`
/// rows, so that the scrollable height matches the full grid.
#[derive(Clone, Copy, Debug, PartialEq, Eq, Structural)]
pub struct GridLayout {
    /// Number of columns that fit in the container (at least one).
    pub columns: usize,
    /// First row to render (including buffer).
    pub start_row: usize,
    /// Last row to render (exclusive, including buffer).
    pub end_row: usize,
    /// First item index to render.
    pub start_idx: usize,
    /// Last item index to render (exclusive).
    pub end_idx: usize,
    /// Rows represented by the spacer above the rendered content.
    pub top_padding_rows: usize,
    /// Rows represented by the spacer below the rendered content.
    pub bottom_padding_rows: usize,
}

/// One item handed to the renderer: its index in the item list, and whether
/// its rendered height is to be measured.
#[derive(Clone, Copy, Debug, PartialEq, Eq, Structural)]
pub struct RenderedItem {
    pub index: usize,
    pub measure: bool,
}

/// `a / b` rounded up, for `b > 0` and `a >= 0`.
pub open spec fn ceil_div(a: int, b: int) -> int {
    (a + b - 1) / b
}

/// Columns of the grid: as many as fit, and never fewer than one.
pub open spec fn grid_columns(fitting_columns: usize) -> int {
    if fitting_columns < 1 {
        1
    } else {
        fitting_columns as int
    }
}

/// Rows needed to hold `item_count` items.
pub open spec fn grid_total_rows(item_count: usize, fitting_columns: usize) -> int {
    ceil_div(item_count as int, grid_columns(fitting_columns))
}

/// Rows kept for the viewport: the rows it spans (at least one) plus one
/// more for a partially visible row at the bottom.
pub open spec fn grid_visible_rows(viewport_rows: usize) -> int {
    (if viewport_rows < 1 {
        1
    } else {
        viewport_rows as int
    }) + 1
}

/// First rendered row: `buffer_rows` above the first visible row, clamped at 0.
pub open spec fn grid_start_row(first_visible_row: usize, buffer_rows: usize) -> int {
    if first_visible_row < buffer_rows {
        0
    } else {
        first_visible_row - buffer_rows
    }
}

/// Row after the visible rows and the buffer below them, before clamping.
pub open spec fn grid_wanted_end_row(
    buffer_rows: usize,
    first_visible_row: usize,
    viewport_rows: usize,
) -> int {
    first_visible_row + grid_visible_rows(viewport_rows) + buffer_rows
}

/// End of the rendered rows (exclusive): the buffer below the visible rows,
/// clamped to the rows that exist.
pub open spec fn grid_end_row(
    item_count: usize,
    buffer_rows: usize,
    fitting_columns: usize,
    first_visible_row: usize,
    viewport_rows: usize,
) -> int {
    let wanted = grid_wanted_end_row(buffer_rows, first_visible_row, viewport_rows);
    let total = grid_total_rows(item_count, fitting_columns);
    if wanted < total {
        wanted
    } else {
        total
    }
}

/// First rendered item index.
pub open spec fn grid_start_index(
    buffer_rows: usize,
    fitting_columns: usize,
    first_visible_row: usize,
) -> int {
    grid_start_row(first_visible_row, buffer_rows) * grid_columns(fitting_columns)
}

/// End of the rendered item indices (exclusive), clamped to the item count.
pub open spec fn grid_end_index(
    item_count: usize,
    buffer_rows: usize,
    fitting_columns: usize,
    first_visible_row: usize,
    viewport_rows: usize,
) -> int {
    let end = grid_end_row(item_count, buffer_rows, fitting_columns, first_visible_row, viewport_rows)
        * grid_columns(fitting_columns);
    if end < item_count {
        end
    } else {
        item_count as int
    }
}

/// Number of items rendered (an empty index range counts as none).
pub open spec fn grid_rendered_count(
    item_count: usize,
    buffer_rows: usize,
    fitting_columns: usize,
    first_visible_row: usize,
    viewport_rows: usize,
) -> int {
    let span = grid_end_index(item_count, buffer_rows, fitting_columns, first_visible_row, viewport_rows)
        - grid_start_index(buffer_rows, fitting_columns, first_visible_row);
    if span < 0 {
        0
    } else {
        span
    }
}

/// The layout arithmetic stays within `usize`: the row after the buffer, the
/// first rendered index and the end row times the columns are representable.
pub open spec fn grid_fits(
    item_count: usize,
    buffer_rows: usize,
    fitting_columns: usize,
    first_visible_row: usize,
    viewport_rows: usize,
) -> bool {
    &&& grid_wanted_end_row(buffer_rows, first_visible_row, viewport_rows) <= usize::MAX
    &&& grid_start_index(buffer_rows, fitting_columns, first_visible_row) <= usize::MAX
    &&& grid_end_row(item_count, buffer_rows, fitting_columns, first_visible_row, viewport_rows)
        * grid_columns(fitting_columns) <= usize::MAX
}

/// `x / d == q` whenever `q * d <= x < q * d + d`.
proof fn lemma_div_exact(x: int, d: int, q: int)
    requires
        d > 0,
        q * d <= x,
        x < q * d + d,
    ensures
        x / d == q,
{
    lemma_fundamental_div_mod_converse(x, d, q, x - q * d);
}

/// Relates an index to the row that holds it: for `c` columns, row `r`
/// starts at or before index `i` exactly when `r <= i / c`, and ends after it
/// exactly when `i / c < r`.
proof fn lemma_row_of_index(i: int, c: int, r: int)
    requires
        c > 0,
        i >= 0,
    ensures
        (r * c <= i) == (r <= i / c),
        (i < r * c) == (i / c < r),
{
    let q = i / c;
    lemma_fundamental_div_mod(i, c);
    lemma_mod_pos_bound(i, c);
    assert(q * c <= i && i < q * c + c) by (nonlinear_arith)
        requires
            i == c * q + i % c,
            0 <= i % c < c,
    ;
    if r <= q {
        assert(r * c <= q * c) by (nonlinear_arith)
            requires
                r <= q,
                c > 0,
        ;
    } else {
        assert(r * c >= q * c + c) by (nonlinear_arith)
            requires
                r >= q + 1,
                c > 0,
        ;
    }
}

/// The rows needed for `count` items hold all of them, and one row fewer
/// would not; every index below `count` lies in one of those rows.
proof fn lemma_total_rows(count: int, c: int)
    requires
        c > 0,
        count >= 0,
    ensures
        ceil_div(count, c) >= 0,
        ceil_div(count, c) * c >= count,
        (ceil_div(count, c) - 1) * c < count,
        forall|i: int| 0 <= i < count ==> #[trigger] (i / c) < ceil_div(count, c),
{
    let t = ceil_div(count, c);
    let x = count + c - 1;
    lemma_row_of_index(x, c, t);
    lemma_row_of_index(x, c, t + 1);
    lemma_row_of_index(x, c, 0);
    assert((t + 1) * c == t * c + c && (t - 1) * c == t * c - c) by (nonlinear_arith);
    assert forall|i: int| 0 <= i < count implies #[trigger] (i / c) < t by {
        lemma_row_of_index(i, c, t);
    }
}

/// An item is rendered exactly when it exists and its row lies within
/// `buffer_rows` rows of the rows kept for the viewport: the grid renders the
/// visible items plus the buffer, and nothing else.
pub proof fn lemma_rendered_iff_near_viewport(
    item_count: usize,
    buffer_rows: usize,
    fitting_columns: usize,
    first_visible_row: usize,
    viewport_rows: usize,
    index: int,
)
    ensures
        (grid_start_index(buffer_rows, fitting_columns, first_visible_row) <= index
            < grid_end_index(item_count, buffer_rows, fitting_columns, first_visible_row, viewport_rows))
            <==> (0 <= index < item_count && first_visible_row - buffer_rows <= index
            / grid_columns(fitting_columns) < first_visible_row + (if viewport_rows < 1 {
            1
        } else {
            viewport_rows as int
        }) + 1 + buffer_rows),
{
    let c = grid_columns(fitting_columns);
    let s = grid_start_row(first_visible_row, buffer_rows);
    let e = grid_end_row(item_count, buffer_rows, fitting_columns, first_visible_row, viewport_rows);
    assert(s * c >= 0) by (nonlinear_arith)
        requires
            s >= 0,
            c >= 1,
    ;
    lemma_total_rows(item_count as int, c);
    if index >= 0 {
        lemma_row_of_index(index, c, s);
        lemma_row_of_index(index, c, e);
        lemma_row_of_index(index, c, 0);
    }
}

/// Every index handed to the renderer names an existing item: the rendered
/// index range starts at or after 0 and ends at or before the item count.
pub proof fn lemma_rendered_items_exist(
    item_count: usize,
    buffer_rows: usize,
    fitting_columns: usize,
    first_visible_row: usize,
    viewport_rows: usize,
)
    ensures
        0 <= grid_start_index(buffer_rows, fitting_columns, first_visible_row),
        grid_end_index(item_count, buffer_rows, fitting_columns, first_visible_row, viewport_rows)
            <= item_count,
{
    let c = grid_columns(fitting_columns);
    let s = grid_start_row(first_visible_row, buffer_rows);
    assert(s * c >= 0) by (nonlinear_arith)
        requires
            s >= 0,
            c >= 1,
    ;
}

/// The spacers keep the scroll height of the whole grid: the rows above, the
/// rows the rendered items fill and the rows below add up to the total rows.
/// This holds unless the viewport lies more than `buffer_rows` rows below
/// the last row.
pub proof fn lemma_spacers_keep_scroll_height(
    item_count: usize,
    buffer_rows: usize,
    fitting_columns: usize,
    first_visible_row: usize,
    viewport_rows: usize,
)
    requires
        grid_start_row(first_visible_row, buffer_rows) <= grid_total_rows(item_count, fitting_columns),
    ensures
        grid_start_row(first_visible_row, buffer_rows) <= grid_end_row(
            item_count,
            buffer_rows,
            fitting_columns,
            first_visible_row,
            viewport_rows,
        ) <= grid_total_rows(item_count, fitting_columns),
        grid_start_row(first_visible_row, buffer_rows) + ceil_div(
            grid_rendered_count(item_count, buffer_rows, fitting_columns, first_visible_row, viewport_rows),
            grid_columns(fitting_columns),
        ) + (grid_total_rows(item_count, fitting_columns) - grid_end_row(
            item_count,
            buffer_rows,
            fitting_columns,
            first_visible_row,
            viewport_rows,
        )) == grid_total_rows(item_count, fitting_columns),
{
    let c = grid_columns(fitting_columns);
    let s = grid_start_row(first_visible_row, buffer_rows);
    let e = grid_end_row(item_count, buffer_rows, fitting_columns, first_visible_row, viewport_rows);
    let t = grid_total_rows(item_count, fitting_columns);
    let count = item_count as int;
    let rendered = grid_rendered_count(item_count, buffer_rows, fitting_columns, first_visible_row, viewport_rows);
    lemma_total_rows(count, c);
    if s == e {
        assert(rendered == 0);
        lemma_div_exact(c - 1, c, 0);
    } else if e < t {
        assert(e * c <= (t - 1) * c) by (nonlinear_arith)
            requires
                e <= t - 1,
                c > 0,
        ;
        assert(s * c < e * c && (e - s) * c == e * c - s * c) by (nonlinear_arith)
            requires
                s < e,
                c > 0,
        ;
        assert(rendered == (e - s) * c);
        lemma_div_exact(rendered + c - 1, c, e - s);
    } else {
        assert(s * c <= (t - 1) * c && (t - s) * c == t * c - s * c) by (nonlinear_arith)
            requires
                s <= t - 1,
                c > 0,
        ;
        assert((t - 1) * c == t * c - c) by (nonlinear_arith);
        assert(rendered == count - s * c);
        lemma_div_exact(rendered + c - 1, c, t - s);
    }
}

/// Scrolling down never moves the rendered window up: with everything else
/// fixed, a later first visible row gives later (or equal) start and end rows
/// and indices.
pub proof fn lemma_scrolling_down_moves_window_down(
    item_count: usize,
    buffer_rows: usize,
    fitting_columns: usize,
    viewport_rows: usize,
    first_visible_row: usize,
    later_first_visible_row: usize,
)
    requires
        first_visible_row <= later_first_visible_row,
    ensures
        grid_start_row(first_visible_row, buffer_rows) <= grid_start_row(
            later_first_visible_row,
            buffer_rows,
        ),
        grid_end_row(item_count, buffer_rows, fitting_columns, first_visible_row, viewport_rows)
            <= grid_end_row(
            item_count,
            buffer_rows,
            fitting_columns,
            later_first_visible_row,
            viewport_rows,
        ),
        grid_start_index(buffer_rows, fitting_columns, first_visible_row) <= grid_start_index(
            buffer_rows,
            fitting_columns,
            later_first_visible_row,
        ),
        grid_end_index(item_count, buffer_rows, fitting_columns, first_visible_row, viewport_rows)
            <= grid_end_index(
            item_count,
            buffer_rows,
            fitting_columns,
            later_first_visible_row,
            viewport_rows,
        ),
{
    let c = grid_columns(fitting_columns);
    lemma_mul_inequality(
        grid_start_row(first_visible_row, buffer_rows),
        grid_start_row(later_first_visible_row, buffer_rows),
        c,
    );
    lemma_mul_inequality(
        grid_end_row(item_count, buffer_rows, fitting_columns, first_visible_row, viewport_rows),
        grid_end_row(item_count, buffer_rows, fitting_columns, later_first_visible_row, viewport_rows),
        c,
    );
}

/// The grid uses every column that fits across the container, and at least
/// one: never fewer columns than fit, and never more unless none fits.
pub proof fn lemma_columns_use_every_fitting_column(fitting_columns: usize)
    ensures
        grid_columns(fitting_columns) >= 1,
        grid_columns(fitting_columns) >= fitting_columns,
        grid_columns(fitting_columns) <= fitting_columns || grid_columns(fitting_columns) == 1,
{
}

/// The grid has just enough rows for its items: together they hold every
/// item, and one row fewer would not.
pub proof fn lemma_total_rows_hold_all_items(item_count: usize, fitting_columns: usize)
    ensures
        grid_total_rows(item_count, fitting_columns) >= 0,
        grid_total_rows(item_count, fitting_columns) * grid_columns(fitting_columns) >= item_count,
        (grid_total_rows(item_count, fitting_columns) - 1) * grid_columns(fitting_columns)
            < item_count,
{
    lemma_total_rows(item_count as int, grid_columns(fitting_columns));
}

/// Rendering starts `buffer_rows` rows above the first visible row, or at the
/// top of the grid when the first visible row is closer to the top than that.
pub proof fn lemma_start_row_is_buffer_above_viewport(first_visible_row: usize, buffer_rows: usize)
    ensures
        0 <= grid_start_row(first_visible_row, buffer_rows) <= first_visible_row,
        first_visible_row <= grid_start_row(first_visible_row, buffer_rows) + buffer_rows,
        grid_start_row(first_visible_row, buffer_rows) == 0 || grid_start_row(
            first_visible_row,
            buffer_rows,
        ) + buffer_rows == first_visible_row,
{
}

/// Rendering ends after the rows the viewport spans (at least one), one more
/// row for a partially visible bottom row, and `buffer_rows` rows below,
/// unless the grid ends first: every existing row before that point lies
/// before the end row, and the end row never passes it nor the last row.
pub proof fn lemma_end_row_keeps_viewport_and_buffer(
    item_count: usize,
    buffer_rows: usize,
    fitting_columns: usize,
    first_visible_row: usize,
    viewport_rows: usize,
    row: int,
)
    ensures
        grid_end_row(item_count, buffer_rows, fitting_columns, first_visible_row, viewport_rows)
            <= grid_total_rows(item_count, fitting_columns),
        grid_end_row(item_count, buffer_rows, fitting_columns, first_visible_row, viewport_rows)
            <= first_visible_row + (if viewport_rows < 1 {
            1
        } else {
            viewport_rows as int
        }) + 1 + buffer_rows,
        0 <= row < first_visible_row + (if viewport_rows < 1 {
            1
        } else {
            viewport_rows as int
        }) + 1 + buffer_rows && row < grid_total_rows(item_count, fitting_columns) ==> row
            < grid_end_row(item_count, buffer_rows, fitting_columns, first_visible_row, viewport_rows),
{
}

/// Every row that intersects the viewport, and every buffer row around it,
/// is rendered when it exists.
pub proof fn lemma_viewport_rows_rendered(
    item_count: usize,
    buffer_rows: usize,
    fitting_columns: usize,
    first_visible_row: usize,
    viewport_rows: usize,
    row: int,
)
    ensures
        first_visible_row - buffer_rows <= row <= first_visible_row + (if viewport_rows < 1 {
            1
        } else {
            viewport_rows as int
        }) + buffer_rows && 0 <= row < grid_total_rows(item_count, fitting_columns)
            ==> grid_start_row(first_visible_row, buffer_rows) <= row < grid_end_row(
            item_count,
            buffer_rows,
            fitting_columns,
            first_visible_row,
            viewport_rows,
        ),
{
}

/// The rendered index range consists of whole rows: it starts at the first
/// item of the start row, and ends at the first item of the end row or at the
/// end of the items, whichever comes first.
pub proof fn lemma_index_range_follows_rows(
    item_count: usize,
    buffer_rows: usize,
    fitting_columns: usize,
    first_visible_row: usize,
    viewport_rows: usize,
)
    ensures
        grid_start_index(buffer_rows, fitting_columns, first_visible_row) == grid_start_row(
            first_visible_row,
            buffer_rows,
        ) * grid_columns(fitting_columns),
        grid_end_index(item_count, buffer_rows, fitting_columns, first_visible_row, viewport_rows)
            == if grid_end_row(
            item_count,
            buffer_rows,
            fitting_columns,
            first_visible_row,
            viewport_rows,
        ) * grid_columns(fitting_columns) < item_count {
            grid_end_row(item_count, buffer_rows, fitting_columns, first_visible_row, viewport_rows)
                * grid_columns(fitting_columns)
        } else {
            item_count as int
        },
{
}

/// The layout is refused only on overflow: it is computable whenever the row
/// after the buffer, the first visible row times the columns and the item
/// count plus the columns fit in `usize`; and a computable layout has its row
/// after the buffer, first index and end row times columns within `usize`.
/// How close the viewport is to the top is never a reason to refuse.
pub proof fn lemma_fits_unless_overflow(
    item_count: usize,
    buffer_rows: usize,
    fitting_columns: usize,
    first_visible_row: usize,
    viewport_rows: usize,
)
    ensures
        first_visible_row + (if viewport_rows < 1 {
            1
        } else {
            viewport_rows as int
        }) + 1 + buffer_rows <= usize::MAX && first_visible_row * grid_columns(fitting_columns)
            <= usize::MAX && item_count + grid_columns(fitting_columns) <= usize::MAX ==> grid_fits(
            item_count,
            buffer_rows,
            fitting_columns,
            first_visible_row,
            viewport_rows,
        ),
        grid_fits(item_count, buffer_rows, fitting_columns, first_visible_row, viewport_rows) ==> {
            &&& first_visible_row + (if viewport_rows < 1 {
                1
            } else {
                viewport_rows as int
            }) + 1 + buffer_rows <= usize::MAX
            &&& grid_start_row(first_visible_row, buffer_rows) * grid_columns(fitting_columns)
                <= usize::MAX
            &&& grid_end_row(
                item_count,
                buffer_rows,
                fitting_columns,
                first_visible_row,
                viewport_rows,
            ) * grid_columns(fitting_columns) <= usize::MAX
        },
{
    let c = grid_columns(fitting_columns);
    let s = grid_start_row(first_visible_row, buffer_rows);
    let e = grid_end_row(item_count, buffer_rows, fitting_columns, first_visible_row, viewport_rows);
    let t = grid_total_rows(item_count, fitting_columns);
    lemma_total_rows(item_count as int, c);
    lemma_mul_inequality(s, first_visible_row as int, c);
    lemma_mul_inequality(e, t, c);
    assert((t - 1) * c == t * c - c) by (nonlinear_arith);
}

/// Grids with fewer than 2^16 items, columns, rows and buffer rows are always
/// computable, on 32-bit as on 64-bit targets.
pub proof fn lemma_small_grids_fit(
    item_count: usize,
    buffer_rows: usize,
    fitting_columns: usize,
    first_visible_row: usize,
    viewport_rows: usize,
)
    requires
        item_count < 0x10000,
        buffer_rows < 0x10000,
        fitting_columns < 0x10000,
        first_visible_row < 0x10000,
        viewport_rows < 0x10000,
    ensures
        grid_fits(item_count, buffer_rows, fitting_columns, first_visible_row, viewport_rows),
{
    let c = grid_columns(fitting_columns);
    assert(first_visible_row * c <= 0xffff * 0xffff) by (nonlinear_arith)
        requires
            0 <= first_visible_row < 0x10000,
            1 <= c < 0x10000,
    ;
    lemma_fits_unless_overflow(item_count, buffer_rows, fitting_columns, first_visible_row, viewport_rows);
}

/// Rows needed for `item_count` items in `columns` columns.
fn total_rows(item_count: usize, columns: usize) -> (rows: usize)
    requires
        columns >= 1,
    ensures
        rows == ceil_div(item_count as int, columns as int),
{
    let q = item_count / columns;
    let r = item_count % columns;
    proof {
        let x = item_count as int;
        let c = columns as int;
        lemma_fundamental_div_mod(x, c);
        lemma_mod_pos_bound(x, c);
        assert(x == q * c + r) by (nonlinear_arith)
            requires
                x == c * q + r,
        ;
        if r == 0 {
            lemma_div_exact(x + c - 1, c, q as int);
        } else {
            assert((q + 1) * c == q * c + c) by (nonlinear_arith);
            lemma_div_exact(x + c - 1, c, q + 1);
        }
        // q + 1 does not overflow: q < item_count when r != 0
        assert(q * c >= q) by (nonlinear_arith)
            requires
                c >= 1,
                q >= 0,
        ;
    }
    if r == 0 {
        q
    } else {
        q + 1
    }
}

impl GridLayout {
    /// Computes the rendered rows and items for one viewport.
    ///
    /// `fitting_columns` is the number of item columns that fit across the
    /// container (zero when none does), `first_visible_row` the row at the top
    /// of the viewport, and `viewport_rows` the number of rows the viewport
    /// spans, rounded up. `buffer_rows` extra rows are rendered above and below.
    pub fn calculate(
        item_count: usize,
        buffer_rows: usize,
        fitting_columns: usize,
        first_visible_row: usize,
        viewport_rows: usize,
    ) -> (layout: GridLayout)
        requires
            grid_fits(item_count, buffer_rows, fitting_columns, first_visible_row, viewport_rows),
        ensures
            layout.columns == grid_columns(fitting_columns),
            layout.start_row == grid_start_row(first_visible_row, buffer_rows),
            layout.end_row == grid_end_row(
                item_count,
                buffer_rows,
                fitting_columns,
                first_visible_row,
                viewport_rows,
            ),
            layout.start_idx == grid_start_index(buffer_rows, fitting_columns, first_visible_row),
            layout.end_idx == grid_end_index(
                item_count,
                buffer_rows,
                fitting_columns,
                first_visible_row,
                viewport_rows,
            ),
            layout.top_padding_rows == layout.start_row,
            layout.bottom_padding_rows == grid_total_rows(item_count, fitting_columns)
                - layout.end_row,
    {
        let columns: usize = if fitting_columns < 1 {
            1
        } else {
            fitting_columns
        };
        let total_rows = total_rows(item_count, columns);
        let viewport_span: usize = if viewport_rows < 1 {
            1
        } else {
            viewport_rows
        };
        let visible_row_count = viewport_span + 1;
        let start_row = first_visible_row.saturating_sub(buffer_rows);
        let wanted_end = first_visible_row + visible_row_count + buffer_rows;
        let end_row = if wanted_end < total_rows {
            wanted_end
        } else {
            total_rows
        };
        let end_limit = end_row * columns;
        GridLayout {
            columns,
            start_row,
            end_row,
            start_idx: start_row * columns,
            end_idx: if end_limit < item_count {
                end_limit
            } else {
                item_count
            },
            top_padding_rows: start_row,
            bottom_padding_rows: total_rows.saturating_sub(end_row),
        }
    }

    /// Like `calculate`, but returns `None` where the arithmetic would leave
    /// `usize` instead of requiring that it does not.
    pub fn try_calculate(
        item_count: usize,
        buffer_rows: usize,
        fitting_columns: usize,
        first_visible_row: usize,
        viewport_rows: usize,
    ) -> (result: Option<GridLayout>)
        ensures
            result is Some <==> grid_fits(
                item_count,
                buffer_rows,
                fitting_columns,
                first_visible_row,
                viewport_rows,
            ),
            result matches Some(layout) ==> {
                &&& layout.columns == grid_columns(fitting_columns)
                &&& layout.start_row == grid_start_row(first_visible_row, buffer_rows)
                &&& layout.end_row == grid_end_row(
                    item_count,
                    buffer_rows,
                    fitting_columns,
                    first_visible_row,
                    viewport_rows,
                )
                &&& layout.start_idx == grid_start_index(
                    buffer_rows,
                    fitting_columns,
                    first_visible_row,
                )
                &&& layout.end_idx == grid_end_index(
                    item_count,
                    buffer_rows,
                    fitting_columns,
                    first_visible_row,
                    viewport_rows,
                )
                &&& layout.top_padding_rows == layout.start_row
                &&& layout.bottom_padding_rows == grid_total_rows(item_count, fitting_columns)
                    - layout.end_row
            },
    {
        let columns: usize = if fitting_columns < 1 {
            1
        } else {
            fitting_columns
        };
        let viewport_span: usize = if viewport_rows < 1 {
            1
        } else {
            viewport_rows
        };
        let visible_row_count = match viewport_span.checked_add(1) {
            Some(n) => n,
            None => return None,
        };
        let below_visible = match first_visible_row.checked_add(visible_row_count) {
            Some(n) => n,
            None => return None,
        };
        let wanted_end = match below_visible.checked_add(buffer_rows) {
            Some(n) => n,
            None => return None,
        };
        let start_row = first_visible_row.saturating_sub(buffer_rows);
        if start_row.checked_mul(columns).is_none() {
            return None;
        }
        let total_rows = total_rows(item_count, columns);
        let end_row = if wanted_end < total_rows {
            wanted_end
        } else {
            total_rows
        };
        if end_row.checked_mul(columns).is_none() {
            return None;
        }
        Some(
            GridLayout::calculate(
                item_count,
                buffer_rows,
                fitting_columns,
                first_visible_row,
                viewport_rows,
            ),
        )
    }

    /// The items to render, in order: the indices `start_idx..end_idx`, the
    /// first of them marked for measurement when `needs_measurement` holds.
    pub fn rendered_items(&self, needs_measurement: bool) -> (items: Vec<RenderedItem>)
        ensures
            items.len() == if self.start_idx < self.end_idx {
                self.end_idx - self.start_idx
            } else {
                0
            },
            forall|k: int|
                0 <= k < items.len() ==> {
                    &&& (#[trigger] items[k]).index == self.start_idx + k
                    &&& items[k].measure == (k == 0 && needs_measurement)
                },
    {
        let mut items: Vec<RenderedItem> = Vec::new();
        let mut idx: usize = self.start_idx;
        while idx < self.end_idx
            invariant
                self.start_idx <= idx,
                idx <= self.end_idx || idx == self.start_idx,
                items.len() == idx - self.start_idx,
                forall|k: int|
                    0 <= k < items.len() ==> {
                        &&& (#[trigger] items[k]).index == self.start_idx + k
                        &&& items[k].measure == (k == 0 && needs_measurement)
                    },
            decreases self.end_idx - idx,
        {
            items.push(RenderedItem { index: idx, measure: idx == self.start_idx && needs_measurement });
            idx = idx + 1;
        }
        items
    }
}

} // verus!
