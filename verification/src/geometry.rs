//! Pixel geometry of the list: the row grid, how many rows a viewport shows,
//! and which row lies under a pointer.

use vstd::prelude::*;

verus! {

/// Height of one row. Layout and hit testing both go by this one constant.
pub const ROW_HEIGHT: u32 = 22;

/// Horizontal gap between the left edge of the viewport and a row's label.
pub const LABEL_INSET: u32 = 4;

/// The longest list the widget accepts. Up to this length every row
/// coordinate and every scroll offset fits the signed 64-bit layout
/// arithmetic.
pub const MAX_ENTRIES: u64 = 0x0100_0000_0000_0000;

/// A point or an extent in whole pixels.
#[derive(Clone, Copy, Debug, PartialEq, Eq, Structural)]
pub struct Vector2u {
    pub x: u32,
    pub y: u32,
}

/// How far the top of row `i` lies below the top of row 0.
pub open spec fn row_offset(i: int) -> int {
    i * ROW_HEIGHT
}

/// The number of rows, out of `count`, whose top edge lies above the bottom of
/// a viewport that is `height` pixels high: the rows `i` with
/// `row_offset(i) < height`.
pub open spec fn rows_fitting(count: nat, height: int) -> nat {
    if height <= 0 {
        0
    } else if count * ROW_HEIGHT < height {
        count
    } else {
        ((height + ROW_HEIGHT - 1) / (ROW_HEIGHT as int)) as nat
    }
}

/// The number of rows that count as visible. It is [`rows_fitting`], less one
/// where the last of those rows would reach more than two pixels below the
/// viewport.
pub open spec fn visible_rows(count: nat, height: int) -> nat {
    let fitting = rows_fitting(count, height);
    if fitting > 0 && fitting * ROW_HEIGHT > height + 2 {
        (fitting - 1) as nat
    } else {
        fitting
    }
}

/// Whether a list of `count` rows is at least as high as the viewport, so
/// that scrolling applies.
pub open spec fn content_overflows(count: nat, height: int) -> bool {
    count * ROW_HEIGHT >= height
}

/// The index of the row under a pointer at height `pointer_y`, for a viewport
/// whose top edge is at `top` and which is scrolled by `scroll` rows. The
/// division rounds down, so a pointer above the top edge yields a row before
/// `scroll`.
pub open spec fn row_at(pointer_y: int, top: int, scroll: int) -> int {
    (pointer_y - top) / (ROW_HEIGHT as int) + scroll
}

/// `rows_fitting` counts exactly the rows that start above the bottom edge.
pub proof fn lemma_rows_fitting(count: nat, height: int)
    ensures
        rows_fitting(count, height) <= count,
        forall|i: int|
            0 <= i < count ==> (i < rows_fitting(count, height) <==> #[trigger] row_offset(i)
                < height),
{
}

/// Adding a row adds one to `rows_fitting` exactly when the new row starts
/// above the bottom edge.
pub proof fn lemma_rows_fitting_step(count: nat, height: int)
    ensures
        rows_fitting(count + 1, height) == if count * ROW_HEIGHT < height {
            rows_fitting(count, height) + 1
        } else {
            rows_fitting(count, height)
        },
{
    lemma_rows_fitting(count, height);
    lemma_rows_fitting(count + 1, height);
}

/// The visible rows never outnumber the rows of the list.
pub proof fn lemma_visible_rows_bound(count: nat, height: int)
    ensures
        visible_rows(count, height) <= rows_fitting(count, height) <= count,
{
    lemma_rows_fitting(count, height);
}

/// The height of `rows` rows: `row_offset`, computed.
pub(crate) fn rows_height(rows: i64) -> (height: i64)
    requires
        -(MAX_ENTRIES as int) - 2 <= rows <= MAX_ENTRIES + 2,
    ensures
        height == row_offset(rows as int),
{
    assert(rows * ROW_HEIGHT == rows * 22) by (nonlinear_arith)
        requires
            ROW_HEIGHT == 22,
    ;
    rows * (ROW_HEIGHT as i64)
}

/// The row under a pointer: `row_at`, computed.
pub fn row_under(pointer_y: u32, top: u32, scroll: i64) -> (row: i64)
    requires
        -(MAX_ENTRIES as int) - 2 <= scroll <= MAX_ENTRIES + 2,
    ensures
        row == row_at(pointer_y as int, top as int, scroll as int),
{
    if pointer_y >= top {
        let below: u32 = pointer_y - top;
        (below / ROW_HEIGHT) as i64 + scroll
    } else {
        let above: u64 = (top - pointer_y) as u64;
        let rows_up: u64 = (above + (ROW_HEIGHT as u64 - 1)) / (ROW_HEIGHT as u64);
        scroll - rows_up as i64
    }
}

} // verus!
