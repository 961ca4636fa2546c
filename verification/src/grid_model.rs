//! The mathematical model of a screen grid, and what each editing operation
//! does to it. The executable grid is specified against these functions.

use vstd::prelude::*;
use crate::cell::{blank_cell_spec, Cell, Rgb};
use crate::row::{blank_cells, RowModel, ShapedModel};

verus! {

/// The smaller of two naturals.
pub open spec fn min_nat(a: nat, b: nat) -> nat {
    if a <= b {
        a
    } else {
        b
    }
}

/// The larger of two naturals.
pub open spec fn max_nat(a: nat, b: nat) -> nat {
    if a >= b {
        a
    } else {
        b
    }
}

/// `a - b`, or 0 where `b` is the larger.
pub open spec fn sub_nat(a: nat, b: nat) -> nat {
    if a >= b {
        (a - b) as nat
    } else {
        0
    }
}

/// A count parameter with zero read as one.
pub open spec fn count_or_one(n: nat) -> nat {
    if n == 0 {
        1
    } else {
        n
    }
}

/// Value of a screen grid. `lines` holds the scrollback history, oldest row
/// first, followed by the `rows` rows of the viewport.
pub struct GridModel {
    pub cols: nat,
    pub rows: nat,
    pub lines: Seq<RowModel>,
    pub cur_x: nat,
    pub cur_y: nat,
    pub scrollback_capacity: nat,
    pub scroll_top: nat,
    pub scroll_bottom: nat,
    pub default_fg: Rgb,
    pub default_bg: Rgb,
    pub full_redraw_needed: bool,
    pub deferred_wrap: bool,
}

impl GridModel {
    /// The grid invariant: the viewport is exactly `rows` rows, the history
    /// is within its capacity, every row has `cols` cells, the cursor is on
    /// the screen and the scrolling margins are ordered and on the screen.
    /// The margins differ whenever the screen has two rows or more.
    pub open spec fn inv(self) -> bool {
        &&& 1 <= self.cols <= usize::MAX
        &&& 1 <= self.rows
        &&& self.rows + self.scrollback_capacity <= usize::MAX
        &&& self.rows <= self.lines.len() <= self.rows + self.scrollback_capacity
        &&& forall|i: int|
            0 <= i < self.lines.len() ==> (#[trigger] self.lines[i]).cells.len() == self.cols
        &&& self.cur_x < self.cols
        &&& self.cur_y < self.rows
        &&& self.scroll_top <= self.scroll_bottom < self.rows
        &&& (self.rows >= 2 ==> self.scroll_top < self.scroll_bottom)
    }

    /// Number of history rows above the viewport.
    pub open spec fn scrollback_len(self) -> nat {
        sub_nat(self.lines.len(), self.rows)
    }

    /// Index in `lines` of viewport row `y`.
    pub open spec fn line_index(self, y: nat) -> int {
        (self.scrollback_len() + y) as int
    }

    /// Viewport row `y`.
    pub open spec fn row(self, y: nat) -> RowModel {
        self.lines[self.line_index(y)]
    }

    /// The rows of the viewport, top to bottom.
    pub open spec fn visible(self) -> Seq<RowModel> {
        self.lines.subrange(self.scrollback_len() as int, self.lines.len() as int)
    }

    /// The history rows, oldest first.
    pub open spec fn history(self) -> Seq<RowModel> {
        self.lines.subrange(0, self.scrollback_len() as int)
    }

    /// Index in `lines` of the row shown at display position `y` when the
    /// view is shifted `offset` rows into the history.
    pub open spec fn display_index(self, y: nat, offset: nat) -> int {
        (sub_nat(self.scrollback_len(), offset) + y) as int
    }

    /// The cell that erasing leaves behind.
    pub open spec fn blank(self) -> Cell {
        blank_cell_spec(self.default_fg, self.default_bg)
    }

    /// A blank row of this grid's width.
    pub open spec fn blank_row(self) -> RowModel {
        RowModel::blank(self.cols, self.default_fg, self.default_bg)
    }

    /// `n` blank rows.
    pub open spec fn blank_rows(self, n: nat) -> Seq<RowModel> {
        Seq::new(n, |i: int| self.blank_row())
    }

    /// A grid as it is created: blank viewport, no history, cursor at the
    /// origin, margins at the screen's edges, a full redraw pending.
    pub open spec fn fresh(cols: nat, rows: nat, scrollback: nat, fg: Rgb, bg: Rgb) -> GridModel {
        GridModel {
            cols,
            rows,
            lines: Seq::new(rows, |i: int| RowModel::blank(cols, fg, bg)),
            cur_x: 0,
            cur_y: 0,
            scrollback_capacity: scrollback,
            scroll_top: 0,
            scroll_bottom: sub_nat(rows, 1),
            default_fg: fg,
            default_bg: bg,
            full_redraw_needed: true,
            deferred_wrap: false,
        }
    }

    /// The grid with other rows.
    pub open spec fn with_lines(self, lines: Seq<RowModel>) -> GridModel {
        GridModel { lines, ..self }
    }

    /// The grid with the deferred wrap cleared.
    pub open spec fn unlatched(self) -> GridModel {
        GridModel { deferred_wrap: false, ..self }
    }

    /// The grid with viewport row `y` replaced.
    pub open spec fn with_row(self, y: nat, row: RowModel) -> GridModel {
        self.with_lines(self.lines.update(self.line_index(y), row))
    }

    /// The grid with the shaped form of the row at index `i` of `lines`
    /// stored and the row marked clean.
    pub open spec fn with_line_shaped(self, i: int, shaped: ShapedModel) -> GridModel {
        self.with_lines(self.lines.update(i, self.lines[i].shaped_as(shaped)))
    }

    /// The grid with viewport row `y` marked dirty.
    pub open spec fn mark_dirty(self, y: nat) -> GridModel {
        self.with_row(y, self.row(y).touch())
    }

    /// The grid with the viewport rows `from..to` blanked.
    pub open spec fn blank_range(self, from: nat, to: nat) -> GridModel {
        let sb = self.scrollback_len();
        self.with_lines(
            Seq::new(
                self.lines.len(),
                |i: int|
                    if sb + from <= i < sb + to {
                        self.blank_row()
                    } else {
                        self.lines[i]
                    },
            ),
        )
    }

    /// The cursor moved to `(x, y)`: the row it leaves and the row it enters
    /// are marked dirty.
    pub open spec fn move_cursor(self, x: nat, y: nat) -> GridModel {
        let left = self.mark_dirty(self.cur_y);
        GridModel { cur_x: x, cur_y: y, ..left }.mark_dirty(y)
    }

    /// After a resize to `cols` by `rows`. A resize to zero columns or zero
    /// rows leaves the grid as it is; any other discards all content.
    pub open spec fn resize(self, cols: nat, rows: nat) -> GridModel {
        if cols == 0 || rows == 0 {
            self
        } else {
            GridModel::fresh(
                cols,
                rows,
                self.scrollback_capacity,
                self.default_fg,
                self.default_bg,
            )
        }
    }

    /// After every dirty flag was cleared.
    pub open spec fn clear_all_dirty_flags(self) -> GridModel {
        GridModel {
            lines: Seq::new(self.lines.len(), |i: int| self.lines[i].clean()),
            full_redraw_needed: false,
            ..self
        }
    }

    /// After the cursor was placed at `(x, y)`, clamped to the screen. The
    /// deferred wrap is cleared.
    pub open spec fn set_cursor_pos(self, x: nat, y: nat) -> GridModel {
        self.move_cursor(
            min_nat(x, sub_nat(self.cols, 1)),
            min_nat(y, sub_nat(self.rows, 1)),
        ).unlatched()
    }

    /// After the cursor went up `n` rows (zero counts as one), stopping at the
    /// top margin.
    pub open spec fn cursor_up(self, n: nat) -> GridModel {
        self.move_cursor(
            self.cur_x,
            max_nat(self.scroll_top, sub_nat(self.cur_y, count_or_one(n))),
        )
    }

    /// After the cursor went down `n` rows (zero counts as one), stopping at
    /// the bottom margin.
    pub open spec fn cursor_down(self, n: nat) -> GridModel {
        self.move_cursor(self.cur_x, min_nat(self.scroll_bottom, self.cur_y + count_or_one(n)))
    }

    /// After the cursor went right `n` columns (zero counts as one), stopping
    /// at the last column.
    pub open spec fn cursor_forward(self, n: nat) -> GridModel {
        self.move_cursor(
            min_nat(sub_nat(self.cols, 1), self.cur_x + count_or_one(n)),
            self.cur_y,
        )
    }

    /// After the cursor went left `n` columns (zero counts as one), stopping
    /// at the first column.
    pub open spec fn cursor_back(self, n: nat) -> GridModel {
        self.move_cursor(sub_nat(self.cur_x, count_or_one(n)), self.cur_y)
    }

    /// After a carriage return: first column, deferred wrap cleared.
    pub open spec fn carriage_return(self) -> GridModel {
        self.move_cursor(0, self.cur_y).unlatched()
    }

    /// After a backspace: one column left if there is one, deferred wrap
    /// cleared.
    pub open spec fn backspace(self) -> GridModel {
        self.move_cursor(sub_nat(self.cur_x, 1), self.cur_y).unlatched()
    }

    /// Number of rows that a scroll by `n` moves: `n`, at most the height of
    /// the scrolling region.
    pub open spec fn scroll_count(self, n: nat) -> nat {
        min_nat(n, (self.scroll_bottom - self.scroll_top + 1) as nat)
    }

    /// Whether rows that leave the scrolling region go to the history.
    pub open spec fn keeps_history(self) -> bool {
        self.scroll_top == 0 && self.scrollback_capacity > 0
    }

    /// The rows with `k` blank rows put in below the scrolling region.
    pub open spec fn padded_below_region(self, k: nat) -> Seq<RowModel> {
        let after = self.line_index(self.scroll_bottom) + 1;
        self.lines.subrange(0, after) + self.blank_rows(k) + self.lines.subrange(
            after,
            self.lines.len() as int,
        )
    }

    /// After the scrolling region moved up by `n` rows, `n` clamped to the
    /// region's height. The rows that leave at the top join the history when
    /// the region starts at the first row and the grid keeps a history; the
    /// oldest history rows are dropped beyond the capacity. Blank rows enter
    /// at the bottom of the region.
    pub open spec fn scroll_up(self, n: nat) -> GridModel {
        let k = self.scroll_count(n);
        if k == 0 {
            self
        } else {
            let padded = self.padded_below_region(k);
            let lines = if self.keeps_history() {
                let excess = sub_nat(padded.len(), self.rows + self.scrollback_capacity);
                padded.subrange(excess as int, padded.len() as int)
            } else {
                let top = self.line_index(self.scroll_top);
                padded.subrange(0, top) + padded.subrange(top + k, padded.len() as int)
            };
            GridModel { lines, full_redraw_needed: true, ..self }
        }
    }

    /// The cursor taken one row down: at the bottom margin the region scrolls
    /// and the cursor stays; on the last row of the screen it stays; anywhere
    /// else it goes down.
    pub open spec fn index_down(self) -> GridModel {
        if self.cur_y == self.scroll_bottom {
            self.scroll_up(1)
        } else if self.cur_y + 1 < self.rows {
            self.move_cursor(self.cur_x, self.cur_y + 1)
        } else {
            self
        }
    }

    /// After a line feed. A pending deferred wrap absorbs it: the wrap is
    /// cleared and nothing moves.
    pub open spec fn line_feed(self) -> GridModel {
        if self.deferred_wrap {
            self.unlatched()
        } else {
            self.index_down()
        }
    }

    /// After a next-line control: a line feed, then the first column.
    pub open spec fn next_line(self) -> GridModel {
        let fed = self.line_feed();
        fed.move_cursor(0, fed.cur_y)
    }

    /// The grid as it stands when a glyph is about to be stored: a pending
    /// deferred wrap is carried out, taking the cursor one row down and to the
    /// first column.
    pub open spec fn wrapped(self) -> GridModel {
        if self.deferred_wrap {
            GridModel { cur_x: 0, ..self.unlatched().index_down() }
        } else {
            self
        }
    }

    /// The cursor after a glyph was stored: one column right, or, in the last
    /// column, unmoved with the wrap deferred.
    pub open spec fn advance_cursor(self) -> GridModel {
        if self.cur_x + 1 >= self.cols {
            GridModel { deferred_wrap: true, ..self }
        } else {
            GridModel { cur_x: self.cur_x + 1, ..self }
        }
    }

    /// After one glyph was written at the cursor.
    pub open spec fn put_char(self, cell: Cell) -> GridModel {
        let g = self.wrapped();
        g.with_row(g.cur_y, g.row(g.cur_y).write(g.cur_x as int, cell)).advance_cursor()
    }

    /// The cells of the cursor's row with the columns `from..to` blanked.
    pub open spec fn cursor_row_blanked(self, from: nat, to: nat) -> Seq<Cell> {
        let cells = self.row(self.cur_y).cells;
        Seq::new(
            cells.len(),
            |i: int|
                if from <= i < to {
                    self.blank()
                } else {
                    cells[i]
                },
        )
    }

    /// The grid with new cells in the cursor's row.
    pub open spec fn with_cursor_cells(self, cells: Seq<Cell>) -> GridModel {
        self.with_row(self.cur_y, self.row(self.cur_y).with_cells(cells))
    }

    /// After the cursor's row was erased.
    pub open spec fn clear_line(self) -> GridModel {
        self.unlatched().with_row(self.cur_y, self.blank_row())
    }

    /// After the cursor's row was erased from its start up to and including
    /// the cursor.
    pub open spec fn clear_line_to_cursor(self) -> GridModel {
        self.unlatched().with_cursor_cells(self.cursor_row_blanked(0, self.cur_x + 1))
    }

    /// After the cursor's row was erased from the cursor to its end.
    pub open spec fn clear_line_from_cursor(self) -> GridModel {
        self.unlatched().with_cursor_cells(self.cursor_row_blanked(self.cur_x, self.cols))
    }

    /// After the screen was erased from its first row down to the cursor:
    /// the rows above the cursor's, and the cursor's row up to and including
    /// the cursor. The scrolling margins do not bound the erasure.
    pub open spec fn clear_to_cursor(self) -> GridModel {
        self.unlatched().blank_range(0, self.cur_y).clear_line_to_cursor()
    }

    /// After the screen was erased from the cursor to its last row: the
    /// cursor's row from the cursor on, and the rows below it. The scrolling
    /// margins do not bound the erasure.
    pub open spec fn clear_from_cursor(self) -> GridModel {
        self.clear_line_from_cursor().blank_range(self.cur_y + 1, self.rows)
    }

    /// After the whole screen was erased and the cursor was placed at the
    /// origin. The scrolling margins do not bound the erasure, and stay as
    /// they are.
    pub open spec fn clear_all(self) -> GridModel {
        GridModel {
            full_redraw_needed: true,
            ..self.blank_range(0, self.rows).set_cursor_pos(0, 0)
        }
    }

    /// Whether the cursor is between the scrolling margins.
    pub open spec fn cursor_in_region(self) -> bool {
        self.scroll_top <= self.cur_y <= self.scroll_bottom
    }

    /// Number of rows that an insertion or deletion of `n` lines moves: `n`,
    /// at most the rows from the cursor to the bottom margin.
    pub open spec fn line_count(self, n: nat) -> nat {
        min_nat(n, (self.scroll_bottom - self.cur_y + 1) as nat)
    }

    /// After `n` blank lines were inserted at the cursor's row. The rows from
    /// there to the bottom margin move down and the last ones are lost. With
    /// the cursor outside the scrolling region nothing changes.
    pub open spec fn insert_lines(self, n: nat) -> GridModel {
        if !self.cursor_in_region() {
            self
        } else {
            let k = self.line_count(n);
            if k == 0 {
                self.unlatched()
            } else {
                let at = self.line_index(self.cur_y);
                let after = self.line_index(self.scroll_bottom) + 1;
                GridModel {
                    lines: self.lines.subrange(0, at) + self.blank_rows(k) + self.lines.subrange(
                        at,
                        after - k,
                    ) + self.lines.subrange(after, self.lines.len() as int),
                    full_redraw_needed: true,
                    deferred_wrap: false,
                    ..self
                }
            }
        }
    }

    /// After `n` lines were deleted at the cursor's row. The rows below, down
    /// to the bottom margin, move up and blank rows enter at the margin. With
    /// the cursor outside the scrolling region nothing changes.
    pub open spec fn delete_lines(self, n: nat) -> GridModel {
        if !self.cursor_in_region() {
            self
        } else {
            let k = self.line_count(n);
            if k == 0 {
                self.unlatched()
            } else {
                let at = self.line_index(self.cur_y);
                let after = self.line_index(self.scroll_bottom) + 1;
                GridModel {
                    lines: self.lines.subrange(0, at) + self.lines.subrange(at + k, after)
                        + self.blank_rows(k) + self.lines.subrange(
                        after,
                        self.lines.len() as int,
                    ),
                    full_redraw_needed: true,
                    deferred_wrap: false,
                    ..self
                }
            }
        }
    }

    /// Number of cells that a character operation with count `n` touches:
    /// `n`, at most the cells from the cursor to the end of the row.
    pub open spec fn char_count(self, n: nat) -> nat {
        min_nat(n, (self.cols - self.cur_x) as nat)
    }

    /// After `n` blank cells were inserted at the cursor. The cells from
    /// there on move right and those pushed past the last column are lost.
    pub open spec fn insert_chars(self, n: nat) -> GridModel {
        let k = self.char_count(n);
        let cells = self.row(self.cur_y).cells;
        let x = self.cur_x as int;
        self.unlatched().with_cursor_cells(
            cells.subrange(0, x) + blank_cells(k, self.default_fg, self.default_bg)
                + cells.subrange(x, self.cols - k),
        )
    }

    /// After `n` cells were deleted at the cursor. The cells to their right
    /// move left and blank cells enter at the end of the row.
    pub open spec fn delete_chars(self, n: nat) -> GridModel {
        let k = self.char_count(n);
        let cells = self.row(self.cur_y).cells;
        let x = self.cur_x as int;
        self.unlatched().with_cursor_cells(
            cells.subrange(0, x) + cells.subrange(x + k, self.cols as int) + blank_cells(
                k,
                self.default_fg,
                self.default_bg,
            ),
        )
    }

    /// After `n` cells from the cursor on were overwritten with blanks.
    pub open spec fn erase_chars(self, n: nat) -> GridModel {
        self.unlatched().with_cursor_cells(
            self.cursor_row_blanked(self.cur_x, self.cur_x + self.char_count(n)),
        )
    }

    /// After the scrolling margins were set to the rows `top` and `bottom`
    /// and the cursor was sent to the origin. Margins that are not ordered,
    /// or not on the screen, change nothing.
    pub open spec fn set_scroll_region(self, top: nat, bottom: nat) -> GridModel {
        if top < bottom && bottom < self.rows {
            GridModel { scroll_top: top, scroll_bottom: bottom, ..self }.set_cursor_pos(0, 0)
        } else {
            self
        }
    }

    /// Scrolling keeps the grid invariant.
    pub proof fn lemma_scroll_up_inv(self, n: nat)
        requires
            self.inv(),
        ensures
            self.scroll_up(n).inv(),
    {
        let k = self.scroll_count(n);
        if k > 0 {
            let padded = self.padded_below_region(k);
            let after = self.scroll_up(n);
            assert(padded.len() == self.lines.len() + k);
            assert forall|i: int| 0 <= i < padded.len() implies (#[trigger] padded[i]).cells.len()
                == self.cols by {
                let cut = self.line_index(self.scroll_bottom) + 1;
                if i < cut {
                    assert(padded[i] == self.lines[i]);
                } else if i < cut + k {
                    assert(padded[i] == self.blank_row());
                } else {
                    assert(padded[i] == self.lines[i - k]);
                }
            }
            assert forall|i: int| 0 <= i < after.lines.len() implies (#[trigger] after.lines[i]).cells.len()
                == self.cols by {
                if self.keeps_history() {
                    let excess = sub_nat(padded.len(), self.rows + self.scrollback_capacity);
                    assert(after.lines[i] == padded[i + excess]);
                } else {
                    let top = self.line_index(self.scroll_top);
                    if i < top {
                        assert(after.lines[i] == padded[i]);
                    } else {
                        assert(after.lines[i] == padded[i + k]);
                    }
                }
            }
        }
    }

    /// Inserting lines keeps the grid invariant.
    pub proof fn lemma_insert_lines_inv(self, n: nat)
        requires
            self.inv(),
        ensures
            self.insert_lines(n).inv(),
    {
        let k = self.line_count(n);
        if self.cursor_in_region() && k > 0 {
            let after = self.insert_lines(n);
            let at = self.line_index(self.cur_y);
            assert(after.lines.len() == self.lines.len());
            assert forall|i: int| 0 <= i < after.lines.len() implies (#[trigger] after.lines[i]).cells.len()
                == self.cols by {
                if i < at {
                    assert(after.lines[i] == self.lines[i]);
                } else if i < at + k {
                    assert(after.lines[i] == self.blank_row());
                } else if i < self.line_index(self.scroll_bottom) + 1 {
                    assert(after.lines[i] == self.lines[i - k]);
                } else {
                    assert(after.lines[i] == self.lines[i]);
                }
            }
        }
    }

    /// Deleting lines keeps the grid invariant.
    pub proof fn lemma_delete_lines_inv(self, n: nat)
        requires
            self.inv(),
        ensures
            self.delete_lines(n).inv(),
    {
        let k = self.line_count(n);
        if self.cursor_in_region() && k > 0 {
            let after = self.delete_lines(n);
            let at = self.line_index(self.cur_y);
            let end = self.line_index(self.scroll_bottom) + 1;
            assert(after.lines.len() == self.lines.len());
            assert forall|i: int| 0 <= i < after.lines.len() implies (#[trigger] after.lines[i]).cells.len()
                == self.cols by {
                if i < at {
                    assert(after.lines[i] == self.lines[i]);
                } else if i < end - k {
                    assert(after.lines[i] == self.lines[i + k]);
                } else if i < end {
                    assert(after.lines[i] == self.blank_row());
                } else {
                    assert(after.lines[i] == self.lines[i]);
                }
            }
        }
    }
}

} // verus!
