//! Laws of the screen grid, proved over its model.

use vstd::prelude::*;
use crate::cell::{blank_cell_spec, Cell, Rgb};
use crate::grid_model::GridModel;
use crate::row::RowModel;

verus! {

/// The grid after the cells of `cells` were written one after the other.
pub open spec fn put_all(g: GridModel, cells: Seq<Cell>) -> GridModel
    decreases cells.len(),
{
    if cells.len() == 0 {
        g
    } else {
        put_all(g, cells.drop_last()).put_char(cells.last())
    }
}

/// Replacing a row by one of the same width keeps the grid invariant.
pub proof fn lemma_with_row_inv(g: GridModel, y: nat, row: RowModel)
    requires
        g.inv(),
        y < g.rows,
        row.cells.len() == g.cols,
    ensures
        g.with_row(y, row).inv(),
        g.with_row(y, row).scrollback_len() == g.scrollback_len(),
{
    let after = g.with_row(y, row);
    assert forall|i: int| 0 <= i < after.lines.len() implies (#[trigger] after.lines[i]).cells.len()
        == g.cols by {
        if i != g.line_index(y) {
            assert(after.lines[i] == g.lines[i]);
        }
    }
}

/// Moving the cursor to a position on the screen keeps the grid invariant.
pub proof fn lemma_move_cursor_inv(g: GridModel, x: nat, y: nat)
    requires
        g.inv(),
        x < g.cols,
        y < g.rows,
    ensures
        g.move_cursor(x, y).inv(),
        g.move_cursor(x, y).cur_x == x,
        g.move_cursor(x, y).cur_y == y,
        g.move_cursor(x, y).lines.len() == g.lines.len(),
{
    let left = g.mark_dirty(g.cur_y);
    lemma_with_row_inv(g, g.cur_y, g.row(g.cur_y).touch());
    let placed = GridModel { cur_x: x, cur_y: y, ..left };
    lemma_with_row_inv(placed, y, placed.row(y).touch());
}

/// Taking the cursor one row down keeps the grid invariant, the column and
/// the deferred wrap.
pub proof fn lemma_index_down_inv(g: GridModel)
    requires
        g.inv(),
    ensures
        g.index_down().inv(),
        g.index_down().cur_x == g.cur_x,
        g.index_down().deferred_wrap == g.deferred_wrap,
        g.index_down().cols == g.cols,
        g.index_down().rows == g.rows,
{
    if g.cur_y == g.scroll_bottom {
        g.lemma_scroll_up_inv(1);
    } else if g.cur_y + 1 < g.rows {
        lemma_move_cursor_inv(g, g.cur_x, g.cur_y + 1);
    }
}

/// A line feed keeps the grid invariant.
pub proof fn lemma_line_feed_inv(g: GridModel)
    requires
        g.inv(),
    ensures
        g.line_feed().inv(),
        g.line_feed().cols == g.cols,
        g.line_feed().rows == g.rows,
{
    if !g.deferred_wrap {
        lemma_index_down_inv(g);
    }
}

/// Writing a glyph keeps the grid invariant and the size of the screen.
pub proof fn lemma_put_char_inv(g: GridModel, cell: Cell)
    requires
        g.inv(),
    ensures
        g.put_char(cell).inv(),
        g.put_char(cell).cols == g.cols,
        g.put_char(cell).rows == g.rows,
{
    let w = g.wrapped();
    if g.deferred_wrap {
        lemma_index_down_inv(g.unlatched());
    }
    assert(w.inv());
    lemma_with_row_inv(w, w.cur_y, w.row(w.cur_y).write(w.cur_x as int, cell));
}

/// A new grid of any size with at least one column and one row: it has the
/// size asked for, its viewport is that many rows of that many blank cells
/// in the default colours, it has no history, the cursor is at the origin,
/// the margins are the first and the last row, and a full redraw is
/// pending. Where the rows and the capacity together fit a machine word, it
/// satisfies the grid invariant.
pub proof fn law_new_grid_is_blank(cols: nat, rows: nat, scrollback: nat, fg: Rgb, bg: Rgb)
    requires
        cols >= 1,
        rows >= 1,
    ensures
        ({
            let g = GridModel::fresh(cols, rows, scrollback, fg, bg);
            &&& g.cols == cols && g.rows == rows
            &&& g.lines.len() == rows
            &&& g.visible().len() == rows
            &&& g.scrollback_len() == 0
            &&& g.history().len() == 0
            &&& forall|y: int| 0 <= y < rows ==> (#[trigger] g.visible()[y]).cells.len() == cols
            &&& forall|y: int, x: int|
                0 <= y < rows && 0 <= x < cols ==> (#[trigger] g.visible()[y].cells[x])
                    == blank_cell_spec(fg, bg)
            &&& forall|y: int| 0 <= y < rows ==> (#[trigger] g.visible()[y]).is_dirty
            &&& g.cur_x == 0 && g.cur_y == 0
            &&& g.scroll_top == 0 && g.scroll_bottom == rows - 1
            &&& g.full_redraw_needed && !g.deferred_wrap
            &&& g.scrollback_capacity == scrollback
            &&& (cols <= usize::MAX && rows + scrollback <= usize::MAX ==> g.inv())
        }),
{
    let g = GridModel::fresh(cols, rows, scrollback, fg, bg);
    assert forall|y: int| 0 <= y < rows implies (#[trigger] g.visible()[y]) == RowModel::blank(
        cols,
        fg,
        bg,
    ) by {
        assert(g.visible()[y] == g.lines[y]);
    }
    assert forall|y: int, x: int| 0 <= y < rows && 0 <= x < cols implies (
    #[trigger] g.visible()[y].cells[x]) == blank_cell_spec(fg, bg) by {
        assert(g.visible()[y] == RowModel::blank(cols, fg, bg));
    }
}

/// In every grid that satisfies the invariant, each row of the viewport has
/// exactly `cols` cells, the viewport has exactly `rows` rows, and the
/// history is no longer than its capacity.
pub proof fn law_invariant_shape(g: GridModel)
    requires
        g.inv(),
    ensures
        g.visible().len() == g.rows,
        forall|y: int| 0 <= y < g.rows ==> (#[trigger] g.visible()[y]).cells.len() == g.cols,
        g.scrollback_len() <= g.scrollback_capacity,
{
    assert forall|y: int| 0 <= y < g.rows implies (#[trigger] g.visible()[y]).cells.len()
        == g.cols by {
        assert(g.visible()[y] == g.lines[g.scrollback_len() + y]);
    }
}

/// Writing a glyph and feeding a line with the cursor on the bottom margin
/// leaves the viewport with the same number of rows, each of full width.
pub proof fn law_write_and_feed_keeps_viewport(g: GridModel, cell: Cell)
    requires
        g.inv(),
        g.cur_y == g.scroll_bottom,
    ensures
        g.put_char(cell).line_feed().inv(),
        g.put_char(cell).line_feed().visible().len() == g.visible().len(),
        g.put_char(cell).line_feed().rows == g.rows,
{
    lemma_put_char_inv(g, cell);
    lemma_line_feed_inv(g.put_char(cell));
}

/// Clearing the dirty flags a second time changes nothing.
pub proof fn law_clear_dirty_idempotent(g: GridModel)
    ensures
        g.clear_all_dirty_flags().clear_all_dirty_flags() == g.clear_all_dirty_flags(),
{
    let once = g.clear_all_dirty_flags();
    assert(once.clear_all_dirty_flags().lines =~= once.lines);
}

/// Writing `cells` on one row, starting at the cursor with no wrap pending
/// and with room for all of them: the cursor stays on its row, the cells
/// stand where they were written, and the cursor ends one column past the
/// last of them, or, where that was the last column, on it with the wrap
/// deferred.
pub proof fn law_write_within_row(g: GridModel, cells: Seq<Cell>)
    requires
        g.inv(),
        !g.deferred_wrap,
        g.cur_x + cells.len() <= g.cols,
    ensures
        ({
            let r = put_all(g, cells);
            &&& r.inv()
            &&& r.cols == g.cols
            &&& r.cur_y == g.cur_y
            &&& r.lines.len() == g.lines.len()
            &&& forall|i: int|
                0 <= i < cells.len() ==> #[trigger] r.row(g.cur_y).cells[g.cur_x + i] == cells[i]
            &&& (g.cur_x + cells.len() < g.cols ==> r.cur_x == g.cur_x + cells.len()
                && !r.deferred_wrap)
            &&& (cells.len() > 0 && g.cur_x + cells.len() == g.cols ==> r.cur_x == g.cols - 1
                && r.deferred_wrap)
        }),
    decreases cells.len(),
{
    if cells.len() > 0 {
        let init = cells.drop_last();
        law_write_within_row(g, init);
        let p = put_all(g, init);
        let r = p.put_char(cells.last());
        lemma_put_char_inv(p, cells.last());
        assert(p.wrapped() == p);
        assert forall|i: int| 0 <= i < cells.len() implies #[trigger] r.row(g.cur_y).cells[g.cur_x
            + i] == cells[i] by {
            if i < init.len() {
                assert(p.row(g.cur_y).cells[g.cur_x + i] == init[i]);
            }
        }
    }
}

/// Writing a glyph while a wrap is pending: the cursor goes exactly one row
/// down, as after a line feed with no wrap pending, and the glyph is placed
/// in the first column of the row where the cursor then stands.
pub proof fn law_write_after_deferred_wrap(g: GridModel, cell: Cell)
    requires
        g.inv(),
        g.deferred_wrap,
    ensures
        ({
            let fed = g.unlatched().line_feed();
            let r = g.put_char(cell);
            &&& r.inv()
            &&& r.cur_y == fed.cur_y
            &&& r.row(r.cur_y).cells[0] == cell
            &&& r == (GridModel { cur_x: 0, ..fed }).put_char(cell)
            &&& (g.cols > 1 ==> r.cur_x == 1 && !r.deferred_wrap)
            &&& (g.cols == 1 ==> r.cur_x == 0 && r.deferred_wrap)
        }),
{
    lemma_index_down_inv(g.unlatched());
    lemma_put_char_inv(g, cell);
}

/// With the cursor outside the scrolling region, inserting and deleting
/// lines change nothing.
pub proof fn law_line_ops_outside_region(g: GridModel, n: nat)
    requires
        !g.cursor_in_region(),
    ensures
        g.insert_lines(n) == g,
        g.delete_lines(n) == g,
{
}

/// A glyph written in the last column leaves the cursor there and defers the
/// wrap; a carriage return and an explicit cursor position clear a deferred
/// wrap.
pub proof fn law_deferred_wrap(g: GridModel, cell: Cell, x: nat, y: nat)
    requires
        g.inv(),
    ensures
        !g.deferred_wrap && g.cur_x + 1 == g.cols ==> g.put_char(cell).deferred_wrap && g.put_char(
            cell,
        ).cur_x == g.cur_x && g.put_char(cell).cur_y == g.cur_y,
        !g.carriage_return().deferred_wrap,
        g.carriage_return().cur_x == 0,
        !g.set_cursor_pos(x, y).deferred_wrap,
{
}

/// A count of zero moves the cursor as a count of one does.
pub proof fn law_zero_count_is_one(g: GridModel)
    ensures
        g.cursor_up(0) == g.cursor_up(1),
        g.cursor_down(0) == g.cursor_down(1),
        g.cursor_forward(0) == g.cursor_forward(1),
        g.cursor_back(0) == g.cursor_back(1),
{
}

/// Whether two grids have the same size, capacity and default colours.
pub open spec fn same_frame(a: GridModel, b: GridModel) -> bool {
    &&& a.cols == b.cols
    &&& a.rows == b.rows
    &&& a.scrollback_capacity == b.scrollback_capacity
    &&& a.default_fg == b.default_fg
    &&& a.default_bg == b.default_bg
}

/// Blanking rows of the viewport keeps the grid invariant.
pub proof fn lemma_blank_range_inv(g: GridModel, from: nat, to: nat)
    requires
        g.inv(),
    ensures
        g.blank_range(from, to).inv(),
        same_frame(g.blank_range(from, to), g),
        g.blank_range(from, to).cur_x == g.cur_x,
        g.blank_range(from, to).cur_y == g.cur_y,
        g.blank_range(from, to).scroll_top == g.scroll_top,
        g.blank_range(from, to).scroll_bottom == g.scroll_bottom,
{
    let after = g.blank_range(from, to);
    assert forall|i: int| 0 <= i < after.lines.len() implies (#[trigger] after.lines[i]).cells.len()
        == g.cols by {
        let sb = g.scrollback_len();
        if !(sb + from <= i < sb + to) {
            assert(after.lines[i] == g.lines[i]);
        }
    }
}

/// Replacing the cells of the cursor's row by as many keeps the grid
/// invariant.
pub proof fn lemma_with_cursor_cells_inv(g: GridModel, cells: Seq<Cell>)
    requires
        g.inv(),
        cells.len() == g.cols,
    ensures
        g.with_cursor_cells(cells).inv(),
        same_frame(g.with_cursor_cells(cells), g),
{
    lemma_with_row_inv(g, g.cur_y, g.row(g.cur_y).with_cells(cells));
}

/// Every operation that a control sequence or a control can ask of a grid
/// keeps the grid invariant, the size of the grid, its capacity and its
/// default colours.
pub proof fn law_operations_keep_invariant(g: GridModel, n: nat, m: nat, cell: Cell)
    requires
        g.inv(),
    ensures
        g.put_char(cell).inv() && same_frame(g.put_char(cell), g),
        g.line_feed().inv() && same_frame(g.line_feed(), g),
        g.next_line().inv() && same_frame(g.next_line(), g),
        g.carriage_return().inv() && same_frame(g.carriage_return(), g),
        g.backspace().inv() && same_frame(g.backspace(), g),
        g.scroll_up(n).inv() && same_frame(g.scroll_up(n), g),
        g.set_cursor_pos(n, m).inv() && same_frame(g.set_cursor_pos(n, m), g),
        g.cursor_up(n).inv() && same_frame(g.cursor_up(n), g),
        g.cursor_down(n).inv() && same_frame(g.cursor_down(n), g),
        g.cursor_forward(n).inv() && same_frame(g.cursor_forward(n), g),
        g.cursor_back(n).inv() && same_frame(g.cursor_back(n), g),
        g.clear_line().inv() && same_frame(g.clear_line(), g),
        g.clear_line_to_cursor().inv() && same_frame(g.clear_line_to_cursor(), g),
        g.clear_line_from_cursor().inv() && same_frame(g.clear_line_from_cursor(), g),
        g.clear_to_cursor().inv() && same_frame(g.clear_to_cursor(), g),
        g.clear_from_cursor().inv() && same_frame(g.clear_from_cursor(), g),
        g.clear_all().inv() && same_frame(g.clear_all(), g),
        g.insert_lines(n).inv() && same_frame(g.insert_lines(n), g),
        g.delete_lines(n).inv() && same_frame(g.delete_lines(n), g),
        g.insert_chars(n).inv() && same_frame(g.insert_chars(n), g),
        g.delete_chars(n).inv() && same_frame(g.delete_chars(n), g),
        g.erase_chars(n).inv() && same_frame(g.erase_chars(n), g),
        g.set_scroll_region(n, m).inv() && same_frame(g.set_scroll_region(n, m), g),
        g.mark_dirty(g.cur_y).inv() && same_frame(g.mark_dirty(g.cur_y), g),
        g.clear_all_dirty_flags().inv() && same_frame(g.clear_all_dirty_flags(), g),
{
    lemma_write_and_feed_inv(g, cell);
    lemma_scroll_and_lines_inv(g, n);
    lemma_cursor_moves_inv(g, n, m);
    lemma_erase_inv(g, n);
    lemma_char_ops_inv(g, n);
    lemma_set_scroll_region_inv(g, n, m);
    lemma_flags_inv(g);
}

/// Writing, feeding lines and returning the carriage keep the grid
/// invariant.
pub proof fn lemma_write_and_feed_inv(g: GridModel, cell: Cell)
    requires
        g.inv(),
    ensures
        g.put_char(cell).inv() && same_frame(g.put_char(cell), g),
        g.line_feed().inv() && same_frame(g.line_feed(), g),
        g.next_line().inv() && same_frame(g.next_line(), g),
        g.carriage_return().inv() && same_frame(g.carriage_return(), g),
        g.backspace().inv() && same_frame(g.backspace(), g),
{
    lemma_index_down_frame(g.unlatched());
    lemma_index_down_frame(g);
    lemma_put_char_inv(g, cell);
    lemma_line_feed_inv(g);
    let fed = g.line_feed();
    lemma_move_cursor_inv(fed, 0, fed.cur_y);
    lemma_move_cursor_inv(g, 0, g.cur_y);
    lemma_move_cursor_inv(g, crate::grid_model::sub_nat(g.cur_x, 1), g.cur_y);
}

/// Taking the cursor one row down keeps the capacity and the default colours.
pub proof fn lemma_index_down_frame(g: GridModel)
    requires
        g.inv(),
    ensures
        same_frame(g.index_down(), g),
{
}

/// Scrolling and the line operations keep the grid invariant.
pub proof fn lemma_scroll_and_lines_inv(g: GridModel, n: nat)
    requires
        g.inv(),
    ensures
        g.scroll_up(n).inv() && same_frame(g.scroll_up(n), g),
        g.insert_lines(n).inv() && same_frame(g.insert_lines(n), g),
        g.delete_lines(n).inv() && same_frame(g.delete_lines(n), g),
{
    g.lemma_scroll_up_inv(n);
    g.lemma_insert_lines_inv(n);
    g.lemma_delete_lines_inv(n);
}

/// Marking the cursor's row and clearing the dirty flags keep the grid
/// invariant.
pub proof fn lemma_flags_inv(g: GridModel)
    requires
        g.inv(),
    ensures
        g.mark_dirty(g.cur_y).inv() && same_frame(g.mark_dirty(g.cur_y), g),
        g.clear_all_dirty_flags().inv() && same_frame(g.clear_all_dirty_flags(), g),
{
    lemma_with_row_inv(g, g.cur_y, g.row(g.cur_y).touch());
    let cleared = g.clear_all_dirty_flags();
    assert forall|i: int| 0 <= i < cleared.lines.len() implies (#[trigger] cleared.lines[i]).cells.len()
        == g.cols by {
        assert(cleared.lines[i] == g.lines[i].clean());
    }
}

/// The cursor motions keep the grid invariant.
pub proof fn lemma_cursor_moves_inv(g: GridModel, n: nat, m: nat)
    requires
        g.inv(),
    ensures
        g.set_cursor_pos(n, m).inv() && same_frame(g.set_cursor_pos(n, m), g),
        g.set_cursor_pos(n, m).scroll_top == g.scroll_top,
        g.set_cursor_pos(n, m).scroll_bottom == g.scroll_bottom,
        g.cursor_up(n).inv() && same_frame(g.cursor_up(n), g),
        g.cursor_down(n).inv() && same_frame(g.cursor_down(n), g),
        g.cursor_forward(n).inv() && same_frame(g.cursor_forward(n), g),
        g.cursor_back(n).inv() && same_frame(g.cursor_back(n), g),
{
    let one = crate::grid_model::count_or_one(n);
    lemma_move_cursor_inv(
        g,
        crate::grid_model::min_nat(n, crate::grid_model::sub_nat(g.cols, 1)),
        crate::grid_model::min_nat(m, crate::grid_model::sub_nat(g.rows, 1)),
    );
    lemma_move_cursor_inv(
        g,
        g.cur_x,
        crate::grid_model::max_nat(g.scroll_top, crate::grid_model::sub_nat(g.cur_y, one)),
    );
    lemma_move_cursor_inv(g, g.cur_x, crate::grid_model::min_nat(g.scroll_bottom, g.cur_y + one));
    lemma_move_cursor_inv(
        g,
        crate::grid_model::min_nat(crate::grid_model::sub_nat(g.cols, 1), g.cur_x + one),
        g.cur_y,
    );
    lemma_move_cursor_inv(g, crate::grid_model::sub_nat(g.cur_x, one), g.cur_y);
}

/// The erasures keep the grid invariant.
pub proof fn lemma_erase_inv(g: GridModel, n: nat)
    requires
        g.inv(),
    ensures
        g.clear_line().inv() && same_frame(g.clear_line(), g),
        g.clear_line_to_cursor().inv() && same_frame(g.clear_line_to_cursor(), g),
        g.clear_line_from_cursor().inv() && same_frame(g.clear_line_from_cursor(), g),
        g.clear_to_cursor().inv() && same_frame(g.clear_to_cursor(), g),
        g.clear_from_cursor().inv() && same_frame(g.clear_from_cursor(), g),
        g.clear_all().inv() && same_frame(g.clear_all(), g),
{
    let u = g.unlatched();
    lemma_with_row_inv(u, g.cur_y, g.blank_row());
    lemma_with_cursor_cells_inv(u, g.cursor_row_blanked(0, g.cur_x + 1));
    lemma_with_cursor_cells_inv(u, g.cursor_row_blanked(g.cur_x, g.cols));
    // From the first row to the cursor.
    lemma_blank_range_inv(u, 0, g.cur_y);
    let upper = u.blank_range(0, g.cur_y);
    lemma_with_cursor_cells_inv(upper.unlatched(), upper.cursor_row_blanked(0, upper.cur_x + 1));
    // From the cursor to the last row.
    let tail = g.clear_line_from_cursor();
    lemma_blank_range_inv(tail, g.cur_y + 1, g.rows);
    // The whole screen.
    lemma_blank_range_inv(g, 0, g.rows);
    lemma_cursor_moves_inv(g.blank_range(0, g.rows), 0, 0);
}

/// The character operations keep the grid invariant.
pub proof fn lemma_char_ops_inv(g: GridModel, n: nat)
    requires
        g.inv(),
    ensures
        g.insert_chars(n).inv() && same_frame(g.insert_chars(n), g),
        g.delete_chars(n).inv() && same_frame(g.delete_chars(n), g),
        g.erase_chars(n).inv() && same_frame(g.erase_chars(n), g),
{
    let u = g.unlatched();
    let k = g.char_count(n);
    let cells = g.row(g.cur_y).cells;
    let x = g.cur_x as int;
    assert(cells.len() == g.cols);
    lemma_with_cursor_cells_inv(
        u,
        cells.subrange(0, x) + crate::row::blank_cells(k, g.default_fg, g.default_bg)
            + cells.subrange(x, g.cols - k),
    );
    lemma_with_cursor_cells_inv(
        u,
        cells.subrange(0, x) + cells.subrange(x + k, g.cols as int) + crate::row::blank_cells(
            k,
            g.default_fg,
            g.default_bg,
        ),
    );
    lemma_with_cursor_cells_inv(u, g.cursor_row_blanked(g.cur_x, g.cur_x + k));
}

/// Setting the margins keeps the grid invariant.
pub proof fn lemma_set_scroll_region_inv(g: GridModel, top: nat, bottom: nat)
    requires
        g.inv(),
    ensures
        g.set_scroll_region(top, bottom).inv(),
        same_frame(g.set_scroll_region(top, bottom), g),
{
    if top < bottom && bottom < g.rows {
        let placed = GridModel { scroll_top: top, scroll_bottom: bottom, ..g };
        lemma_cursor_moves_inv(placed, 0, 0);
    }
}

} // verus!
