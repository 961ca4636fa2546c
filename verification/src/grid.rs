//! The screen grid: a viewport of styled cells over a bounded scrollback
//! history, with a cursor, scrolling margins and per-row dirty tracking.

use vstd::prelude::*;
use std::collections::VecDeque;
use crate::cell::{blank_cell, Cell, CellFlags, Rgb};
use crate::grid_model::{sub_nat, GridModel};
use crate::row::{blank_cells, blank_row, Row, RowModel, ShapedRow};

verus! {

/// The values of a sequence of rows.
pub open spec fn rows_view(rows: Seq<Row>) -> Seq<RowModel> {
    rows.map_values(|r: Row| r@)
}

/// Taking the values commutes with inserting a row.
proof fn lemma_rows_view_insert(rows: Seq<Row>, i: int, row: Row)
    requires
        0 <= i <= rows.len(),
    ensures
        rows_view(rows.insert(i, row)) == rows_view(rows).insert(i, row@),
{
    assert(rows_view(rows.insert(i, row)) =~= rows_view(rows).insert(i, row@));
}

/// Taking the values commutes with removing a row.
proof fn lemma_rows_view_remove(rows: Seq<Row>, i: int)
    requires
        0 <= i < rows.len(),
    ensures
        rows_view(rows.remove(i)) == rows_view(rows).remove(i),
{
    assert(rows_view(rows.remove(i)) =~= rows_view(rows).remove(i));
}

/// Taking the values commutes with taking a part.
proof fn lemma_rows_view_subrange(rows: Seq<Row>, from: int, to: int)
    requires
        0 <= from <= to <= rows.len(),
    ensures
        rows_view(rows.subrange(from, to)) == rows_view(rows).subrange(from, to),
{
    assert(rows_view(rows.subrange(from, to)) =~= rows_view(rows).subrange(from, to));
}

/// Taking the values commutes with replacing a row.
proof fn lemma_rows_view_update(rows: Seq<Row>, i: int, row: Row)
    requires
        0 <= i < rows.len(),
    ensures
        rows_view(rows.update(i, row)) == rows_view(rows).update(i, row@),
{
    assert(rows_view(rows.update(i, row)) =~= rows_view(rows).update(i, row@));
}

/// Mutable access to one element of a deque.
///
/// Trusted: this is `VecDeque`'s `IndexMut::index_mut`, which vstd leaves
/// without a specification. As std documents, it hands out the element at
/// position `i`, and what is written through the reference replaces that
/// element and no other. It panics when `i` is out of bounds, which the
/// precondition rules out.
#[verifier::external_body]
pub(crate) fn deque_get_mut<T>(v: &mut VecDeque<T>, i: usize) -> (r: &mut T)
    requires
        i < old(v)@.len(),
    ensures
        *r == old(v)@[i as int],
        final(v)@ == old(v)@.update(i as int, *final(r)),
{
    &mut v[i]
}

/// Cutting `k` rows out at `at` and putting `fill` in before what was at
/// `after` gives the rows up to `at`, those from `at + k` to `after`, `fill`,
/// and the rest.
proof fn lemma_delete_shape(rows: Seq<RowModel>, at: int, k: int, after: int, fill: Seq<RowModel>)
    requires
        0 <= at,
        0 <= k,
        at + k <= after <= rows.len(),
    ensures
        ({
            let cut = rows.subrange(0, at) + rows.subrange(at + k, rows.len() as int);
            cut.subrange(0, after - k) + fill + cut.subrange(after - k, cut.len() as int)
        }) == rows.subrange(0, at) + rows.subrange(at + k, after) + fill + rows.subrange(
            after,
            rows.len() as int,
        ),
{
    let cut = rows.subrange(0, at) + rows.subrange(at + k, rows.len() as int);
    assert(cut.subrange(0, after - k) =~= rows.subrange(0, at) + rows.subrange(at + k, after));
    assert(cut.subrange(after - k, cut.len() as int) =~= rows.subrange(after, rows.len() as int));
}

/// Inserts `k` blank rows of `cols` cells at position `at`.
fn pad_rows(lines: &mut VecDeque<Row>, at: usize, k: usize, cols: usize, fg: Rgb, bg: Rgb)
    requires
        at <= old(lines)@.len(),
    ensures
        final(lines)@.len() == old(lines)@.len() + k,
        rows_view(final(lines)@) == rows_view(old(lines)@).subrange(0, at as int) + Seq::new(
            k as nat,
            |i: int| RowModel::blank(cols as nat, fg, bg),
        ) + rows_view(old(lines)@).subrange(at as int, old(lines)@.len() as int),
{
    let ghost before = rows_view(lines@);
    let ghost head = before.subrange(0, at as int);
    let ghost tail = before.subrange(at as int, before.len() as int);
    let ghost blank = RowModel::blank(cols as nat, fg, bg);
    assert(before =~= head + Seq::new(0nat, |i: int| blank) + tail);
    let mut i: usize = 0;
    while i < k
        invariant
            i <= k,
            at <= before.len(),
            before.len() == old(lines)@.len(),
            head == before.subrange(0, at as int),
            tail == before.subrange(at as int, before.len() as int),
            blank == RowModel::blank(cols as nat, fg, bg),
            lines@.len() == before.len() + i,
            rows_view(lines@) == head + Seq::new(i as nat, |j: int| blank) + tail,
        decreases k - i,
    {
        let row = blank_row(cols, fg, bg);
        let ghost prev = lines@;
        lines.insert(at, row);
        proof {
            lemma_rows_view_insert(prev, at as int, row);
            assert((head + Seq::new(i as nat, |j: int| blank) + tail).insert(at as int, blank)
                =~= head + Seq::new((i + 1) as nat, |j: int| blank) + tail);
        }
        i += 1;
    }
}

/// Removes the `k` rows at positions `at..at + k`.
fn remove_rows(lines: &mut VecDeque<Row>, at: usize, k: usize)
    requires
        at + k <= old(lines)@.len(),
    ensures
        final(lines)@.len() + k == old(lines)@.len(),
        rows_view(final(lines)@) == rows_view(old(lines)@).subrange(0, at as int) + rows_view(
            old(lines)@,
        ).subrange(at + k, old(lines)@.len() as int),
{
    let ghost before = rows_view(lines@);
    assert(before =~= before.subrange(0, at as int) + before.subrange(
        at as int,
        before.len() as int,
    ));
    let mut j: usize = 0;
    while j < k
        invariant
            j <= k,
            at + k <= before.len(),
            before.len() == old(lines)@.len(),
            lines@.len() + j == before.len(),
            rows_view(lines@) == before.subrange(0, at as int) + before.subrange(
                at + j,
                before.len() as int,
            ),
        decreases k - j,
    {
        let ghost prev = lines@;
        let gone = lines.remove(at);
        proof {
            lemma_rows_view_remove(prev, at as int);
            assert((before.subrange(0, at as int) + before.subrange(
                at + j,
                before.len() as int,
            )).remove(at as int) =~= before.subrange(0, at as int) + before.subrange(
                at + j + 1,
                before.len() as int,
            ));
        }
        j += 1;
    }
}

/// Drops rows from the front until at most `limit` are left.
fn drop_oldest(lines: &mut VecDeque<Row>, limit: usize)
    ensures
        rows_view(final(lines)@) == rows_view(old(lines)@).subrange(
            sub_nat(old(lines)@.len(), limit as nat) as int,
            old(lines)@.len() as int,
        ),
{
    let ghost before = rows_view(lines@);
    let ghost excess = sub_nat(before.len(), limit as nat);
    let ghost mut dropped: nat = 0;
    assert(before =~= before.subrange(0, before.len() as int));
    while lines.len() > limit
        invariant
            dropped <= excess,
            excess == sub_nat(before.len(), limit as nat),
            lines@.len() + dropped == before.len(),
            rows_view(lines@) == before.subrange(dropped as int, before.len() as int),
        decreases lines@.len(),
    {
        let ghost prev = lines@;
        let gone = lines.pop_front();
        proof {
            lemma_rows_view_subrange(prev, 1, prev.len() as int);
            assert(before.subrange(dropped as int, before.len() as int).subrange(
                1,
                prev.len() as int,
            ) =~= before.subrange((dropped + 1) as int, before.len() as int));
            dropped = dropped + 1;
        }
    }
}

/// A terminal screen: `rows` by `cols` cells, preceded by up to
/// `scrollback_capacity` rows of history.
pub struct ScreenGrid {
    rows: usize,
    cols: usize,
    /// History rows, oldest first, then the rows of the viewport.
    lines: VecDeque<Row>,
    cur_x: usize,
    cur_y: usize,
    scrollback_capacity: usize,
    full_redraw_needed: bool,
    scroll_top: usize,
    scroll_bottom: usize,
    default_fg: Rgb,
    default_bg: Rgb,
    deferred_wrap: bool,
}

impl View for ScreenGrid {
    type V = GridModel;

    closed spec fn view(&self) -> GridModel {
        GridModel {
            cols: self.cols as nat,
            rows: self.rows as nat,
            lines: rows_view(self.lines@),
            cur_x: self.cur_x as nat,
            cur_y: self.cur_y as nat,
            scrollback_capacity: self.scrollback_capacity as nat,
            scroll_top: self.scroll_top as nat,
            scroll_bottom: self.scroll_bottom as nat,
            default_fg: self.default_fg,
            default_bg: self.default_bg,
            full_redraw_needed: self.full_redraw_needed,
            deferred_wrap: self.deferred_wrap,
        }
    }
}

impl ScreenGrid {
    /// Well-formedness: the grid's value satisfies the grid invariant.
    pub open spec fn wf(&self) -> bool {
        self@.inv()
    }

    /// Creates a blank grid of `cols` by `rows` cells that keeps up to
    /// `scrollback` rows of history.
    pub fn new(cols: usize, rows: usize, scrollback: usize, default_fg: Rgb, default_bg: Rgb) -> (grid:
        ScreenGrid)
        requires
            cols >= 1,
            rows >= 1,
            rows + scrollback <= usize::MAX,
        ensures
            grid.wf(),
            grid@ == GridModel::fresh(
                cols as nat,
                rows as nat,
                scrollback as nat,
                default_fg,
                default_bg,
            ),
    {
        let lines = Self::blank_lines(cols, rows, default_fg, default_bg);
        let grid = ScreenGrid {
            rows,
            cols,
            lines,
            cur_x: 0,
            cur_y: 0,
            scrollback_capacity: scrollback,
            full_redraw_needed: true,
            scroll_top: 0,
            scroll_bottom: rows - 1,
            default_fg,
            default_bg,
            deferred_wrap: false,
        };
        assert(grid@.lines =~= GridModel::fresh(
            cols as nat,
            rows as nat,
            scrollback as nat,
            default_fg,
            default_bg,
        ).lines);
        grid
    }

    /// `rows` blank rows of `cols` cells.
    fn blank_lines(cols: usize, rows: usize, fg: Rgb, bg: Rgb) -> (lines: VecDeque<Row>)
        ensures
            rows_view(lines@) =~= Seq::new(rows as nat, |i: int| RowModel::blank(cols as nat, fg, bg)),
    {
        let mut lines: VecDeque<Row> = VecDeque::new();
        let mut i: usize = 0;
        while i < rows
            invariant
                i <= rows,
                lines@.len() == i,
                forall|j: int| 0 <= j < i ==> (#[trigger] lines@[j])@ == RowModel::blank(cols as nat, fg, bg),
            decreases rows - i,
        {
            lines.push_back(blank_row(cols, fg, bg));
            i += 1;
        }
        lines
    }

    /// Number of columns.
    pub fn cols(&self) -> (r: usize)
        ensures
            r == self@.cols,
    {
        self.cols
    }

    /// Number of rows of the viewport.
    pub fn rows(&self) -> (r: usize)
        ensures
            r == self@.rows,
    {
        self.rows
    }

    /// Column of the cursor.
    pub fn cur_x(&self) -> (r: usize)
        ensures
            r == self@.cur_x,
    {
        self.cur_x
    }

    /// Row of the cursor.
    pub fn cur_y(&self) -> (r: usize)
        ensures
            r == self@.cur_y,
    {
        self.cur_y
    }

    /// First row of the scrolling region.
    pub fn scroll_top(&self) -> (r: usize)
        ensures
            r == self@.scroll_top,
    {
        self.scroll_top
    }

    /// Last row of the scrolling region.
    pub fn scroll_bottom(&self) -> (r: usize)
        ensures
            r == self@.scroll_bottom,
    {
        self.scroll_bottom
    }

    /// Largest number of history rows that the grid keeps.
    pub fn scrollback_capacity(&self) -> (r: usize)
        ensures
            r == self@.scrollback_capacity,
    {
        self.scrollback_capacity
    }

    /// Whether the whole screen has to be drawn again.
    pub fn full_redraw_needed(&self) -> (r: bool)
        ensures
            r == self@.full_redraw_needed,
    {
        self.full_redraw_needed
    }

    /// Asks for the whole screen to be drawn again.
    pub fn request_full_redraw(&mut self)
        ensures
            final(self)@ == (GridModel { full_redraw_needed: true, ..old(self)@ }),
    {
        self.full_redraw_needed = true;
    }

    /// Withdraws the request for a full redraw.
    pub fn clear_full_redraw(&mut self)
        ensures
            final(self)@ == (GridModel { full_redraw_needed: false, ..old(self)@ }),
    {
        self.full_redraw_needed = false;
    }

    /// Whether a wrap is pending at the right margin.
    pub fn deferred_wrap(&self) -> (r: bool)
        ensures
            r == self@.deferred_wrap,
    {
        self.deferred_wrap
    }

    /// Foreground colour of blank cells.
    pub fn default_fg(&self) -> (r: Rgb)
        ensures
            r == self@.default_fg,
    {
        self.default_fg
    }

    /// Background colour of blank cells.
    pub fn default_bg(&self) -> (r: Rgb)
        ensures
            r == self@.default_bg,
    {
        self.default_bg
    }

    /// Number of rows held, history and viewport together.
    pub fn total_lines(&self) -> (r: usize)
        ensures
            r == self@.lines.len(),
    {
        self.lines.len()
    }

    /// Number of history rows above the viewport.
    pub fn scrollback_len(&self) -> (r: usize)
        ensures
            r == self@.scrollback_len(),
    {
        let len = self.lines.len();
        if len >= self.rows {
            len - self.rows
        } else {
            0
        }
    }

    /// The row at index `i`, counted from the oldest history row.
    pub fn line(&self, i: usize) -> (r: Option<&Row>)
        ensures
            r is Some <==> i < self@.lines.len(),
            r matches Some(row) ==> row@ == self@.lines[i as int],
    {
        if i < self.lines.len() {
            Some(&self.lines[i])
        } else {
            None
        }
    }

    /// Stores the shaped form of the row at index `i`, counted from the
    /// oldest history row, and marks the row clean.
    pub fn set_line_shaped(&mut self, i: usize, shaped: ShapedRow)
        requires
            old(self).wf(),
            i < old(self)@.lines.len(),
        ensures
            final(self).wf(),
            final(self)@ == old(self)@.with_line_shaped(i as int, shaped@),
    {
        let row = deque_get_mut(&mut self.lines, i);
        row.shaped_cache = Some(shaped);
        row.is_dirty = false;
        proof {
            lemma_rows_view_update(old(self).lines@, i as int, self.lines@[i as int]);
            assert(self.lines@ =~= old(self).lines@.update(i as int, self.lines@[i as int]));
            assert(old(self)@.lines[i as int] == old(self).lines@[i as int]@);
        }
    }

    /// Row `y` of the viewport, or `None` below the last row.
    pub fn visible_row(&self, y: usize) -> (r: Option<&Row>)
        requires
            self.wf(),
        ensures
            r is Some <==> y < self@.rows,
            r matches Some(row) ==> row@ == self@.row(y as nat),
    {
        if y < self.rows {
            let sb = self.scrollback_len();
            Some(&self.lines[sb + y])
        } else {
            None
        }
    }

    /// Mutable access to row `y` of the viewport, or `None` below the last
    /// row. What the caller leaves in the row becomes the grid's row; the
    /// grid stays well formed if the row keeps its number of cells.
    pub fn visible_row_mut(&mut self, y: usize) -> (r: Option<&mut Row>)
        requires
            old(self).wf(),
        ensures
            r is Some <==> y < old(self)@.rows,
            r is None ==> final(self)@ == old(self)@,
            r is Some ==> (*r.unwrap())@ == old(self)@.row(y as nat) && final(self)@ == old(
                self,
            )@.with_row(y as nat, (*final(r.unwrap()))@),
    {
        if y < self.rows {
            let idx = self.scrollback_len() + y;
            let row = deque_get_mut(&mut self.lines, idx);
            proof {
                assert(rows_view(old(self).lines@.update(idx as int, *final(row))) =~= rows_view(
                    old(self).lines@,
                ).update(idx as int, (*final(row))@));
            }
            Some(row)
        } else {
            None
        }
    }

    /// The row shown at display position `y` when the view is shifted
    /// `offset` rows into the history, or `None` past the last row held.
    pub fn get_display_row(&self, y: usize, offset: usize) -> (r: Option<&Row>)
        requires
            self.wf(),
        ensures
            r is Some <==> self@.display_index(y as nat, offset as nat) < self@.lines.len(),
            r matches Some(row) ==> row@ == self@.lines[self@.display_index(
                y as nat,
                offset as nat,
            )],
    {
        let sb = self.scrollback_len();
        let top = if offset >= sb {
            0
        } else {
            sb - offset
        };
        if y < self.lines.len() - top {
            Some(&self.lines[top + y])
        } else {
            None
        }
    }

    /// Clears the dirty flag of every row and the request for a full redraw.
    pub fn clear_all_dirty_flags(&mut self)
        ensures
            final(self)@ == old(self)@.clear_all_dirty_flags(),
            old(self).wf() ==> final(self).wf(),
    {
        self.full_redraw_needed = false;
        let n = self.lines.len();
        let mut i: usize = 0;
        while i < n
            invariant
                i <= n,
                n == self.lines@.len(),
                self.lines@.len() == old(self).lines@.len(),
                self.rows == old(self).rows,
                self.cols == old(self).cols,
                self.cur_x == old(self).cur_x,
                self.cur_y == old(self).cur_y,
                self.scrollback_capacity == old(self).scrollback_capacity,
                self.scroll_top == old(self).scroll_top,
                self.scroll_bottom == old(self).scroll_bottom,
                self.default_fg == old(self).default_fg,
                self.default_bg == old(self).default_bg,
                self.deferred_wrap == old(self).deferred_wrap,
                !self.full_redraw_needed,
                forall|j: int| 0 <= j < i ==> (#[trigger] self.lines@[j])@ == old(self).lines@[j]@.clean(),
                forall|j: int| i <= j < n ==> (#[trigger] self.lines@[j]) == old(self).lines@[j],
            decreases n - i,
        {
            let row = deque_get_mut(&mut self.lines, i);
            row.is_dirty = false;
            i += 1;
        }
        assert(self@.lines =~= old(self)@.clear_all_dirty_flags().lines);
    }

    /// Resizes the grid to `cols` by `rows`. All content is discarded, the
    /// viewport is rebuilt blank, the cursor returns to the origin and the
    /// margins to the screen's edges. A size of zero columns or zero rows is
    /// ignored.
    pub fn resize(&mut self, cols: usize, rows: usize)
        requires
            old(self).wf(),
            rows + old(self)@.scrollback_capacity <= usize::MAX,
        ensures
            final(self).wf(),
            final(self)@ == old(self)@.resize(cols as nat, rows as nat),
    {
        if cols == 0 || rows == 0 {
            return ;
        }
        self.lines = Self::blank_lines(cols, rows, self.default_fg, self.default_bg);
        self.cols = cols;
        self.rows = rows;
        self.cur_x = 0;
        self.cur_y = 0;
        self.scroll_top = 0;
        self.scroll_bottom = rows - 1;
        self.deferred_wrap = false;
        self.full_redraw_needed = true;
        assert(self@.lines =~= old(self)@.resize(cols as nat, rows as nat).lines);
    }

    /// Marks row `y` of the viewport dirty.
    pub fn mark_row_dirty(&mut self, y: usize)
        requires
            old(self).wf(),
            y < old(self)@.rows,
        ensures
            final(self).wf(),
            final(self)@ == old(self)@.mark_dirty(y as nat),
    {
        let idx = self.scrollback_len() + y;
        let row = deque_get_mut(&mut self.lines, idx);
        row.is_dirty = true;
        assert(self@.lines =~= old(self)@.mark_dirty(y as nat).lines);
    }

    /// Moves the cursor to `(x, y)`, marking the rows it leaves and enters.
    fn move_cursor_to(&mut self, x: usize, y: usize)
        requires
            old(self).wf(),
            x < old(self)@.cols,
            y < old(self)@.rows,
        ensures
            final(self).wf(),
            final(self)@ == old(self)@.move_cursor(x as nat, y as nat),
    {
        let from = self.cur_y;
        self.mark_row_dirty(from);
        self.cur_x = x;
        self.cur_y = y;
        self.mark_row_dirty(y);
    }

    /// Places the cursor at `(x, y)`, clamped to the screen, and clears the
    /// deferred wrap.
    pub fn set_cursor_pos(&mut self, x: usize, y: usize)
        requires
            old(self).wf(),
        ensures
            final(self).wf(),
            final(self)@ == old(self)@.set_cursor_pos(x as nat, y as nat),
    {
        let cx = if x < self.cols {
            x
        } else {
            self.cols - 1
        };
        let cy = if y < self.rows {
            y
        } else {
            self.rows - 1
        };
        self.move_cursor_to(cx, cy);
        self.deferred_wrap = false;
    }

    /// Moves the cursor up `n` rows, zero counting as one. It stops at the
    /// top margin.
    pub fn cursor_up(&mut self, n: usize)
        requires
            old(self).wf(),
        ensures
            final(self).wf(),
            final(self)@ == old(self)@.cursor_up(n as nat),
    {
        let n = if n == 0 {
            1
        } else {
            n
        };
        let raised = if self.cur_y >= n {
            self.cur_y - n
        } else {
            0
        };
        let y = if raised >= self.scroll_top {
            raised
        } else {
            self.scroll_top
        };
        let x = self.cur_x;
        self.move_cursor_to(x, y);
    }

    /// Moves the cursor down `n` rows, zero counting as one. It stops at the
    /// bottom margin.
    pub fn cursor_down(&mut self, n: usize)
        requires
            old(self).wf(),
        ensures
            final(self).wf(),
            final(self)@ == old(self)@.cursor_down(n as nat),
    {
        let n = if n == 0 {
            1
        } else {
            n
        };
        let y = if self.cur_y >= self.scroll_bottom || n >= self.scroll_bottom - self.cur_y {
            self.scroll_bottom
        } else {
            self.cur_y + n
        };
        let x = self.cur_x;
        self.move_cursor_to(x, y);
    }

    /// Moves the cursor right `n` columns, zero counting as one. It stops at
    /// the last column.
    pub fn cursor_forward(&mut self, n: usize)
        requires
            old(self).wf(),
        ensures
            final(self).wf(),
            final(self)@ == old(self)@.cursor_forward(n as nat),
    {
        let n = if n == 0 {
            1
        } else {
            n
        };
        let x = if n >= self.cols - 1 - self.cur_x {
            self.cols - 1
        } else {
            self.cur_x + n
        };
        let y = self.cur_y;
        self.move_cursor_to(x, y);
    }

    /// Moves the cursor left `n` columns, zero counting as one. It stops at
    /// the first column.
    pub fn cursor_back(&mut self, n: usize)
        requires
            old(self).wf(),
        ensures
            final(self).wf(),
            final(self)@ == old(self)@.cursor_back(n as nat),
    {
        let n = if n == 0 {
            1
        } else {
            n
        };
        let x = if self.cur_x >= n {
            self.cur_x - n
        } else {
            0
        };
        let y = self.cur_y;
        self.move_cursor_to(x, y);
    }

    /// Carriage return: the cursor goes to the first column and the deferred
    /// wrap is cleared.
    pub fn carriage_return(&mut self)
        requires
            old(self).wf(),
        ensures
            final(self).wf(),
            final(self)@ == old(self)@.carriage_return(),
    {
        let y = self.cur_y;
        self.move_cursor_to(0, y);
        self.deferred_wrap = false;
    }

    /// Backspace: the cursor goes one column left, if there is one, and the
    /// deferred wrap is cleared.
    pub fn backspace(&mut self)
        requires
            old(self).wf(),
        ensures
            final(self).wf(),
            final(self)@ == old(self)@.backspace(),
    {
        let x = if self.cur_x >= 1 {
            self.cur_x - 1
        } else {
            0
        };
        let y = self.cur_y;
        self.move_cursor_to(x, y);
        self.deferred_wrap = false;
    }

    /// Sets the scrolling margins to the rows `top` and `bottom` and sends
    /// the cursor to the origin. Margins that are not ordered, or not on the
    /// screen, are ignored.
    pub fn set_scroll_region(&mut self, top: usize, bottom: usize)
        requires
            old(self).wf(),
        ensures
            final(self).wf(),
            final(self)@ == old(self)@.set_scroll_region(top as nat, bottom as nat),
    {
        if top < bottom && bottom < self.rows {
            self.scroll_top = top;
            self.scroll_bottom = bottom;
            self.set_cursor_pos(0, 0);
        }
    }

    /// Scrolls the region between the margins up by `n` rows, `n` clamped to
    /// the region's height. Rows leaving a region that starts at the first
    /// row enter the history, whose oldest rows are dropped beyond the
    /// capacity; blank rows enter at the bottom margin.
    pub fn scroll_up(&mut self, n: usize)
        requires
            old(self).wf(),
        ensures
            final(self).wf(),
            final(self)@ == old(self)@.scroll_up(n as nat),
    {
        let height = self.scroll_bottom - self.scroll_top + 1;
        let k = if n < height {
            n
        } else {
            height
        };
        if k == 0 {
            return ;
        }
        let sb = self.scrollback_len();
        let after = sb + self.scroll_bottom + 1;
        let top = sb + self.scroll_top;
        let limit = self.rows + self.scrollback_capacity;
        let cols = self.cols;
        let fg = self.default_fg;
        let bg = self.default_bg;
        let keep = self.scroll_top == 0 && self.scrollback_capacity > 0;
        let ghost before = self@;
        let ghost padded = before.padded_below_region(k as nat);

        let mut lines: VecDeque<Row> = VecDeque::new();
        std::mem::swap(&mut self.lines, &mut lines);
        pad_rows(&mut lines, after, k, cols, fg, bg);
        assert(rows_view(lines@) =~= padded);
        if keep {
            drop_oldest(&mut lines, limit);
        } else {
            remove_rows(&mut lines, top, k);
        }
        self.lines = lines;
        self.full_redraw_needed = true;
        proof {
            assert(self@.lines == before.scroll_up(n as nat).lines);
            before.lemma_scroll_up_inv(n as nat);
        }
    }

    /// Takes the cursor one row down, scrolling at the bottom margin.
    fn index_down(&mut self)
        requires
            old(self).wf(),
        ensures
            final(self).wf(),
            final(self)@ == old(self)@.index_down(),
    {
        if self.cur_y == self.scroll_bottom {
            self.scroll_up(1);
        } else if self.cur_y + 1 < self.rows {
            let x = self.cur_x;
            let y = self.cur_y + 1;
            self.move_cursor_to(x, y);
        }
    }

    /// Line feed. A pending deferred wrap absorbs it; otherwise the cursor
    /// goes one row down, and at the bottom margin the region scrolls.
    pub fn line_feed(&mut self)
        requires
            old(self).wf(),
        ensures
            final(self).wf(),
            final(self)@ == old(self)@.line_feed(),
    {
        if self.deferred_wrap {
            self.deferred_wrap = false;
            return ;
        }
        self.index_down();
    }

    /// Next line: a line feed, then the first column.
    pub fn next_line(&mut self)
        requires
            old(self).wf(),
        ensures
            final(self).wf(),
            final(self)@ == old(self)@.next_line(),
    {
        self.line_feed();
        let y = self.cur_y;
        self.move_cursor_to(0, y);
    }

    /// Steps the cursor past a glyph just stored: one column right, or, in
    /// the last column, the wrap is deferred.
    fn advance_cursor(&mut self)
        requires
            old(self).wf(),
        ensures
            final(self).wf(),
            final(self)@ == old(self)@.advance_cursor(),
    {
        if self.cur_x + 1 >= self.cols {
            self.deferred_wrap = true;
        } else {
            self.cur_x += 1;
        }
    }

    /// Carries out a pending deferred wrap: the cursor goes one row down and
    /// to the first column.
    fn carry_out_wrap(&mut self)
        requires
            old(self).wf(),
        ensures
            final(self).wf(),
            final(self)@ == old(self)@.wrapped(),
    {
        if self.deferred_wrap {
            self.deferred_wrap = false;
            self.index_down();
            self.cur_x = 0;
        }
    }

    /// Stores a cell at the cursor.
    fn store_at_cursor(&mut self, cell: Cell)
        requires
            old(self).wf(),
        ensures
            final(self).wf(),
            final(self)@ == old(self)@.with_row(
                old(self)@.cur_y,
                old(self)@.row(old(self)@.cur_y).write(old(self)@.cur_x as int, cell),
            ),
    {
        let x = self.cur_x;
        let idx = self.scrollback_len() + self.cur_y;
        let row = deque_get_mut(&mut self.lines, idx);
        row.set_cell(x, cell);
        proof {
            lemma_rows_view_update(old(self).lines@, idx as int, self.lines@[idx as int]);
            assert(self.lines@ =~= old(self).lines@.update(idx as int, self.lines@[idx as int]));
        }
    }

    /// Writes one glyph with its colours, style and link at the cursor and
    /// steps the cursor. A pending deferred wrap is carried out first.
    pub fn put_char_ex(&mut self, ch: char, fg: Rgb, bg: Rgb, flags: CellFlags, link_id: Option<u32>)
        requires
            old(self).wf(),
        ensures
            final(self).wf(),
            final(self)@ == old(self)@.put_char(Cell { ch, fg, bg, flags, link_id }),
    {
        self.carry_out_wrap();
        self.store_at_cursor(Cell { ch, fg, bg, flags, link_id });
        self.advance_cursor();
    }

    /// Replaces the cells of the cursor's row. The row becomes dirty and
    /// loses its shaped form.
    fn set_cursor_cells(&mut self, cells: Vec<Cell>)
        requires
            old(self).wf(),
            cells@.len() == old(self)@.cols,
        ensures
            final(self).wf(),
            final(self)@ == old(self)@.with_cursor_cells(cells@),
    {
        let idx = self.scrollback_len() + self.cur_y;
        let row = deque_get_mut(&mut self.lines, idx);
        row.cells = cells;
        row.is_dirty = true;
        row.shaped_cache = None;
        proof {
            lemma_rows_view_update(old(self).lines@, idx as int, self.lines@[idx as int]);
            assert(self.lines@ =~= old(self).lines@.update(idx as int, self.lines@[idx as int]));
        }
    }

    /// The cells of the cursor's row with the columns `from..to` blanked.
    fn blanked_cells(&self, from: usize, to: usize) -> (cells: Vec<Cell>)
        requires
            self.wf(),
        ensures
            cells@ == self@.cursor_row_blanked(from as nat, to as nat),
            cells@.len() == self@.cols,
    {
        let idx = self.scrollback_len() + self.cur_y;
        let row = &self.lines[idx];
        let blank = blank_cell(self.default_fg, self.default_bg);
        let ghost target = self@.cursor_row_blanked(from as nat, to as nat);
        let mut cells: Vec<Cell> = Vec::new();
        let mut i: usize = 0;
        while i < self.cols
            invariant
                i <= self.cols,
                self.cols == self@.cols,
                row@.cells.len() == self@.cols,
                row@ == self@.row(self@.cur_y),
                blank == self@.blank(),
                target == self@.cursor_row_blanked(from as nat, to as nat),
                cells@ =~= target.subrange(0, i as int),
            decreases self.cols - i,
        {
            let c = if from <= i && i < to {
                blank
            } else {
                row.cells[i]
            };
            cells.push(c);
            i += 1;
        }
        assert(cells@ =~= target);
        cells
    }

    /// Blanks the viewport rows `from..to`.
    fn blank_rows_between(&mut self, from: usize, to: usize)
        requires
            old(self).wf(),
            to <= old(self)@.rows,
        ensures
            final(self).wf(),
            final(self)@ == old(self)@.blank_range(from as nat, to as nat),
    {
        let sb = self.scrollback_len();
        let cols = self.cols;
        let fg = self.default_fg;
        let bg = self.default_bg;
        let ghost before = self@;
        let mut lines: VecDeque<Row> = VecDeque::new();
        std::mem::swap(&mut self.lines, &mut lines);
        let mut y: usize = from;
        while y < to
            invariant
                from <= y,
                from <= to ==> y <= to,
                from > to ==> y == from,
                to <= before.rows,
                before.inv(),
                sb == before.scrollback_len(),
                cols == before.cols,
                fg == before.default_fg,
                bg == before.default_bg,
                lines@.len() == before.lines.len(),
                forall|i: int|
                    0 <= i < lines@.len() ==> (#[trigger] lines@[i])@ == (if sb + from <= i < sb + y {
                        before.blank_row()
                    } else {
                        before.lines[i]
                    }),
            decreases to - y,
        {
            let slot = deque_get_mut(&mut lines, sb + y);
            *slot = blank_row(cols, fg, bg);
            y += 1;
        }
        self.lines = lines;
        proof {
            let target = before.blank_range(from as nat, to as nat).lines;
            assert(target.len() == self@.lines.len());
            assert forall|i: int| 0 <= i < target.len() implies self@.lines[i] == target[i] by {
                assert(self@.lines[i] == self.lines@[i]@);
            }
            assert(self@.lines =~= target);
        }
    }

    /// Erases the cursor's row.
    pub fn clear_line(&mut self)
        requires
            old(self).wf(),
        ensures
            final(self).wf(),
            final(self)@ == old(self)@.clear_line(),
    {
        self.deferred_wrap = false;
        let y = self.cur_y;
        self.blank_rows_between(y, y + 1);
        assert(self@.lines =~= old(self)@.clear_line().lines);
    }

    /// Erases the cursor's row from its start up to and including the cursor.
    pub fn clear_line_to_cursor(&mut self)
        requires
            old(self).wf(),
        ensures
            final(self).wf(),
            final(self)@ == old(self)@.clear_line_to_cursor(),
    {
        self.deferred_wrap = false;
        let cells = self.blanked_cells(0, self.cur_x + 1);
        self.set_cursor_cells(cells);
    }

    /// Erases the cursor's row from the cursor to its end.
    pub fn clear_line_from_cursor(&mut self)
        requires
            old(self).wf(),
        ensures
            final(self).wf(),
            final(self)@ == old(self)@.clear_line_from_cursor(),
    {
        self.deferred_wrap = false;
        let cells = self.blanked_cells(self.cur_x, self.cols);
        self.set_cursor_cells(cells);
    }

    /// Erases the screen from its first row down to the cursor: the rows
    /// above the cursor's, and the cursor's row up to and including the
    /// cursor.
    pub fn clear_to_cursor(&mut self)
        requires
            old(self).wf(),
        ensures
            final(self).wf(),
            final(self)@ == old(self)@.clear_to_cursor(),
    {
        self.deferred_wrap = false;
        let y = self.cur_y;
        self.blank_rows_between(0, y);
        self.clear_line_to_cursor();
    }

    /// Erases the screen from the cursor to its last row: the cursor's row
    /// from the cursor on, and the rows below it.
    pub fn clear_from_cursor(&mut self)
        requires
            old(self).wf(),
        ensures
            final(self).wf(),
            final(self)@ == old(self)@.clear_from_cursor(),
    {
        self.clear_line_from_cursor();
        let y = self.cur_y;
        let rows = self.rows;
        self.blank_rows_between(y + 1, rows);
    }

    /// Erases the whole screen, places the cursor at the origin and asks for
    /// a full redraw. The scrolling margins stay as they are.
    pub fn clear_all(&mut self)
        requires
            old(self).wf(),
        ensures
            final(self).wf(),
            final(self)@ == old(self)@.clear_all(),
    {
        let rows = self.rows;
        self.blank_rows_between(0, rows);
        self.set_cursor_pos(0, 0);
        self.full_redraw_needed = true;
    }

    /// Inserts `n` blank lines at the cursor's row, pushing the rows from
    /// there to the bottom margin down. Outside the scrolling region this
    /// does nothing.
    pub fn insert_lines(&mut self, n: usize)
        requires
            old(self).wf(),
        ensures
            final(self).wf(),
            final(self)@ == old(self)@.insert_lines(n as nat),
    {
        let y = self.cur_y;
        if y < self.scroll_top || y > self.scroll_bottom {
            return ;
        }
        self.deferred_wrap = false;
        let room = self.scroll_bottom - y + 1;
        let k = if n < room {
            n
        } else {
            room
        };
        if k == 0 {
            return ;
        }
        let sb = self.scrollback_len();
        let at = sb + y;
        let after = sb + self.scroll_bottom + 1;
        let cols = self.cols;
        let fg = self.default_fg;
        let bg = self.default_bg;
        let ghost before = old(self)@;
        let mut lines: VecDeque<Row> = VecDeque::new();
        std::mem::swap(&mut self.lines, &mut lines);
        remove_rows(&mut lines, after - k, k);
        pad_rows(&mut lines, at, k, cols, fg, bg);
        self.lines = lines;
        self.full_redraw_needed = true;
        proof {
            assert(self@.lines =~= before.insert_lines(n as nat).lines);
            before.lemma_insert_lines_inv(n as nat);
        }
    }

    /// Deletes `n` lines at the cursor's row, pulling the rows below it, down
    /// to the bottom margin, up; blank rows enter at the margin. Outside the
    /// scrolling region this does nothing.
    pub fn delete_lines(&mut self, n: usize)
        requires
            old(self).wf(),
        ensures
            final(self).wf(),
            final(self)@ == old(self)@.delete_lines(n as nat),
    {
        let y = self.cur_y;
        if y < self.scroll_top || y > self.scroll_bottom {
            return ;
        }
        self.deferred_wrap = false;
        let room = self.scroll_bottom - y + 1;
        let k = if n < room {
            n
        } else {
            room
        };
        if k == 0 {
            return ;
        }
        let sb = self.scrollback_len();
        let at = sb + y;
        let after = sb + self.scroll_bottom + 1;
        let cols = self.cols;
        let fg = self.default_fg;
        let bg = self.default_bg;
        let ghost before = old(self)@;
        let mut lines: VecDeque<Row> = VecDeque::new();
        std::mem::swap(&mut self.lines, &mut lines);
        remove_rows(&mut lines, at, k);
        pad_rows(&mut lines, after - k, k, cols, fg, bg);
        proof {
            lemma_delete_shape(before.lines, at as int, k as int, after as int, before.blank_rows(k as nat));
            assert(before.blank_rows(k as nat) =~= Seq::new(
                k as nat,
                |i: int| RowModel::blank(cols as nat, fg, bg),
            ));
            assert(rows_view(lines@) == before.delete_lines(n as nat).lines);
            before.lemma_delete_lines_inv(n as nat);
        }
        self.lines = lines;
        self.full_redraw_needed = true;
    }

    /// Number of cells that a character operation with count `n` touches.
    fn char_count(&self, n: usize) -> (k: usize)
        requires
            self.wf(),
        ensures
            k == self@.char_count(n as nat),
            self@.cur_x + k <= self@.cols,
    {
        let room = self.cols - self.cur_x;
        if n < room {
            n
        } else {
            room
        }
    }

    /// Inserts `n` blank cells at the cursor; the cells pushed past the last
    /// column are lost.
    pub fn insert_chars(&mut self, n: usize)
        requires
            old(self).wf(),
        ensures
            final(self).wf(),
            final(self)@ == old(self)@.insert_chars(n as nat),
    {
        self.deferred_wrap = false;
        let k = self.char_count(n);
        let x = self.cur_x;
        let idx = self.scrollback_len() + self.cur_y;
        let row = &self.lines[idx];
        let blank = blank_cell(self.default_fg, self.default_bg);
        let ghost old_cells = row@.cells;
        assert(row@ == self@.lines[idx as int]);
        let ghost target = old_cells.subrange(0, x as int) + blank_cells(
            k as nat,
            self.default_fg,
            self.default_bg,
        ) + old_cells.subrange(x as int, self.cols - k);
        let mut cells: Vec<Cell> = Vec::new();
        let mut i: usize = 0;
        while i < self.cols
            invariant
                i <= self.cols,
                x + k <= self.cols,
                row@.cells == old_cells,
                old_cells.len() == self.cols,
                blank == crate::cell::blank_cell_spec(self.default_fg, self.default_bg),
                target == old_cells.subrange(0, x as int) + blank_cells(
                    k as nat,
                    self.default_fg,
                    self.default_bg,
                ) + old_cells.subrange(x as int, self.cols - k),
                cells@ =~= target.subrange(0, i as int),
            decreases self.cols - i,
        {
            let c = if i < x {
                row.cells[i]
            } else if i < x + k {
                blank
            } else {
                row.cells[i - k]
            };
            cells.push(c);
            i += 1;
        }
        assert(cells@ =~= target);
        self.set_cursor_cells(cells);
    }

    /// Deletes `n` cells at the cursor; blank cells enter at the end of the
    /// row.
    pub fn delete_chars(&mut self, n: usize)
        requires
            old(self).wf(),
        ensures
            final(self).wf(),
            final(self)@ == old(self)@.delete_chars(n as nat),
    {
        self.deferred_wrap = false;
        let k = self.char_count(n);
        let x = self.cur_x;
        let idx = self.scrollback_len() + self.cur_y;
        let row = &self.lines[idx];
        let blank = blank_cell(self.default_fg, self.default_bg);
        let ghost old_cells = row@.cells;
        assert(row@ == self@.lines[idx as int]);
        let ghost target = old_cells.subrange(0, x as int) + old_cells.subrange(
            x + k,
            self.cols as int,
        ) + blank_cells(k as nat, self.default_fg, self.default_bg);
        let mut cells: Vec<Cell> = Vec::new();
        let mut i: usize = 0;
        while i < self.cols
            invariant
                i <= self.cols,
                x + k <= self.cols,
                row@.cells == old_cells,
                old_cells.len() == self.cols,
                blank == crate::cell::blank_cell_spec(self.default_fg, self.default_bg),
                target == old_cells.subrange(0, x as int) + old_cells.subrange(
                    x + k,
                    self.cols as int,
                ) + blank_cells(k as nat, self.default_fg, self.default_bg),
                cells@ =~= target.subrange(0, i as int),
            decreases self.cols - i,
        {
            let c = if i < x {
                row.cells[i]
            } else if i < self.cols - k {
                row.cells[i + k]
            } else {
                blank
            };
            cells.push(c);
            i += 1;
        }
        assert(cells@ =~= target);
        self.set_cursor_cells(cells);
    }

    /// Overwrites `n` cells from the cursor on with blanks.
    pub fn erase_chars(&mut self, n: usize)
        requires
            old(self).wf(),
        ensures
            final(self).wf(),
            final(self)@ == old(self)@.erase_chars(n as nat),
    {
        self.deferred_wrap = false;
        let k = self.char_count(n);
        let cells = self.blanked_cells(self.cur_x, self.cur_x + k);
        self.set_cursor_cells(cells);
    }
}

} // verus!
