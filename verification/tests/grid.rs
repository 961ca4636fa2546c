use bnuuy::cell::{blank_cell, Cell, CellFlags, Rgb};
use bnuuy::grid::ScreenGrid;
use bnuuy::row::blank_row;

const FG: Rgb = Rgb(0xC0, 0xC0, 0xC0);
const BG: Rgb = Rgb(0, 0, 0);

fn grid(cols: usize, rows: usize, scrollback: usize) -> ScreenGrid {
    ScreenGrid::new(cols, rows, scrollback, FG, BG)
}

fn put(g: &mut ScreenGrid, ch: char) {
    g.put_char_ex(ch, Rgb(1, 2, 3), Rgb(4, 5, 6), CellFlags::empty(), None);
}

fn put_str(g: &mut ScreenGrid, s: &str) {
    for ch in s.chars() {
        put(g, ch);
    }
}

fn text(g: &ScreenGrid, y: usize) -> String {
    g.visible_row(y).unwrap().cells.iter().map(|c| c.ch).collect()
}

fn line_text(g: &ScreenGrid, i: usize) -> String {
    g.line(i).unwrap().cells.iter().map(|c| c.ch).collect()
}

/// Fills each row of the viewport with its own letter.
fn lettered(cols: usize, rows: usize, scrollback: usize) -> ScreenGrid {
    let mut g = grid(cols, rows, scrollback);
    for y in 0..rows {
        g.set_cursor_pos(0, y);
        for _ in 0..cols {
            put(&mut g, (b'a' + y as u8) as char);
        }
    }
    g.set_cursor_pos(0, 0);
    g
}

fn check_shape(g: &ScreenGrid) {
    assert!(g.total_lines() >= g.rows());
    assert_eq!(g.total_lines() - g.rows(), g.scrollback_len());
    assert!(g.scrollback_len() <= g.scrollback_capacity());
    for i in 0..g.total_lines() {
        assert_eq!(g.line(i).unwrap().cells.len(), g.cols());
    }
    for y in 0..g.rows() {
        assert_eq!(g.visible_row(y).unwrap().cells.len(), g.cols());
    }
    assert!(g.visible_row(g.rows()).is_none());
    assert!(g.cur_x() < g.cols());
    assert!(g.cur_y() < g.rows());
    assert!(g.scroll_top() <= g.scroll_bottom());
    assert!(g.scroll_bottom() < g.rows());
}

#[test]
fn new_grid_is_blank() {
    let g = grid(7, 3, 5);
    check_shape(&g);
    assert_eq!((g.cols(), g.rows()), (7, 3));
    assert_eq!((g.cur_x(), g.cur_y()), (0, 0));
    assert_eq!((g.scroll_top(), g.scroll_bottom()), (0, 2));
    assert_eq!(g.scrollback_len(), 0);
    assert_eq!(g.scrollback_capacity(), 5);
    assert!(g.full_redraw_needed());
    assert!(!g.deferred_wrap());
    for y in 0..3 {
        let row = g.visible_row(y).unwrap();
        assert!(row.is_dirty);
        assert!(row.shaped_cache.is_none());
        for c in row.iter() {
            assert_eq!(*c, blank_cell(FG, BG));
        }
    }
}

#[test]
fn default_cell_is_a_light_grey_space() {
    let c = Cell::default();
    assert_eq!(c.ch, ' ');
    assert_eq!(c.fg, Rgb(0xC0, 0xC0, 0xC0));
    assert_eq!(c.bg, Rgb(0, 0, 0));
    assert_eq!(c.flags, CellFlags::empty());
    assert_eq!(c.link_id, None);
    let row = blank_row(3, Rgb(9, 9, 9), Rgb(1, 1, 1));
    assert_eq!(row.cells.len(), 3);
    assert_eq!(row.cells[2], blank_cell(Rgb(9, 9, 9), Rgb(1, 1, 1)));
    assert!(row.is_dirty);
}

#[test]
fn flags_insert_remove_contains() {
    let mut f = CellFlags::empty();
    assert!(!f.contains(CellFlags::BOLD));
    f.insert(CellFlags::BOLD | CellFlags::UNDERCURL);
    assert_eq!(f.bits, 0x21);
    assert!(f.contains(CellFlags::BOLD));
    assert!(f.contains(CellFlags::UNDERCURL));
    assert!(!f.contains(CellFlags::BOLD | CellFlags::ITALIC));
    f.remove(CellFlags::BOLD);
    assert_eq!(f.bits, 0x20);
    assert_eq!(CellFlags::default(), CellFlags::empty());
}

#[test]
fn writing_stores_the_cell_and_steps_the_cursor() {
    let mut g = grid(5, 2, 0);
    g.clear_all_dirty_flags();
    g.put_char_ex('x', Rgb(1, 2, 3), Rgb(4, 5, 6), CellFlags { bits: CellFlags::ITALIC }, Some(7));
    let row = g.visible_row(0).unwrap();
    assert_eq!(
        row.cells[0],
        Cell {
            ch: 'x',
            fg: Rgb(1, 2, 3),
            bg: Rgb(4, 5, 6),
            flags: CellFlags { bits: CellFlags::ITALIC },
            link_id: Some(7)
        }
    );
    assert!(row.is_dirty);
    assert!(!g.visible_row(1).unwrap().is_dirty);
    assert_eq!((g.cur_x(), g.cur_y()), (1, 0));
    check_shape(&g);
}

#[test]
fn writing_n_characters_on_one_row() {
    for n in 0..=6usize {
        let mut g = grid(6, 3, 0);
        let s: String = (0..n).map(|i| (b'A' + i as u8) as char).collect();
        put_str(&mut g, &s);
        assert_eq!(g.cur_y(), 0);
        assert!(text(&g, 0).starts_with(&s));
        if n < 6 {
            assert_eq!(g.cur_x(), n);
            assert!(!g.deferred_wrap());
        } else {
            assert_eq!(g.cur_x(), 5);
            assert!(g.deferred_wrap());
        }
        check_shape(&g);
    }
}

#[test]
fn one_more_character_wraps_to_the_next_row() {
    let mut g = grid(3, 3, 0);
    put_str(&mut g, "abc");
    assert!(g.deferred_wrap());
    put(&mut g, 'd');
    assert_eq!(text(&g, 0), "abc");
    assert_eq!(text(&g, 1), "d  ");
    assert_eq!((g.cur_x(), g.cur_y()), (1, 1));
    assert!(!g.deferred_wrap());
}

#[test]
fn wrap_on_the_bottom_row_scrolls_once() {
    let mut g = grid(2, 2, 4);
    put_str(&mut g, "abcd");
    assert_eq!(text(&g, 0), "ab");
    assert_eq!(text(&g, 1), "cd");
    assert!(g.deferred_wrap());
    assert_eq!(g.scrollback_len(), 0);
    put(&mut g, 'e');
    assert_eq!(g.scrollback_len(), 1);
    assert_eq!(line_text(&g, 0), "ab");
    assert_eq!(text(&g, 0), "cd");
    assert_eq!(text(&g, 1), "e ");
    assert_eq!((g.cur_x(), g.cur_y()), (1, 1));
    check_shape(&g);
}

#[test]
fn single_column_grid_defers_every_wrap() {
    let mut g = grid(1, 3, 0);
    put(&mut g, 'a');
    assert_eq!((g.cur_x(), g.cur_y()), (0, 0));
    assert!(g.deferred_wrap());
    put(&mut g, 'b');
    assert_eq!((g.cur_x(), g.cur_y()), (0, 1));
    assert!(g.deferred_wrap());
    assert_eq!(text(&g, 0), "a");
    assert_eq!(text(&g, 1), "b");
}

#[test]
fn line_feed_absorbs_a_deferred_wrap() {
    let mut g = grid(3, 3, 0);
    put_str(&mut g, "abc");
    assert!(g.deferred_wrap());
    g.line_feed();
    assert!(!g.deferred_wrap());
    assert_eq!((g.cur_x(), g.cur_y()), (2, 0));
    g.line_feed();
    assert_eq!((g.cur_x(), g.cur_y()), (2, 1));
}

#[test]
fn line_feed_moves_down_and_scrolls_at_the_margin() {
    let mut g = lettered(3, 3, 2);
    g.clear_all_dirty_flags();
    g.line_feed();
    assert_eq!(g.cur_y(), 1);
    assert!(g.visible_row(0).unwrap().is_dirty);
    assert!(g.visible_row(1).unwrap().is_dirty);
    assert!(!g.visible_row(2).unwrap().is_dirty);
    assert!(!g.full_redraw_needed());
    g.line_feed();
    assert_eq!(g.cur_y(), 2);
    g.line_feed();
    assert_eq!(g.cur_y(), 2);
    assert!(g.full_redraw_needed());
    assert_eq!(g.scrollback_len(), 1);
    assert_eq!(line_text(&g, 0), "aaa");
    assert_eq!(text(&g, 0), "bbb");
    assert_eq!(text(&g, 1), "ccc");
    assert_eq!(text(&g, 2), "   ");
    check_shape(&g);
}

#[test]
fn line_feed_below_the_region_stops_at_the_last_row() {
    let mut g = lettered(2, 4, 0);
    g.set_scroll_region(0, 1);
    g.set_cursor_pos(0, 3);
    g.line_feed();
    assert_eq!(g.cur_y(), 3);
    assert_eq!(text(&g, 0), "aa");
    assert_eq!(text(&g, 3), "dd");
    g.set_cursor_pos(0, 2);
    g.line_feed();
    assert_eq!(g.cur_y(), 3);
}

#[test]
fn write_and_feed_at_the_bottom_margin_keeps_the_viewport() {
    let mut g = lettered(4, 5, 3);
    g.set_scroll_region(1, 3);
    g.set_cursor_pos(2, 3);
    put(&mut g, 'Z');
    g.line_feed();
    check_shape(&g);
    assert_eq!(g.rows(), 5);
    assert_eq!(g.total_lines(), 5);
    assert_eq!(text(&g, 0), "aaaa");
    assert_eq!(text(&g, 1), "cccc");
    assert_eq!(text(&g, 2), "ddZd");
    assert_eq!(text(&g, 3), "    ");
    assert_eq!(text(&g, 4), "eeee");
    assert_eq!(g.cur_y(), 3);
}

#[test]
fn scroll_up_keeps_history_only_for_a_region_at_the_top() {
    let mut g = lettered(2, 4, 5);
    g.set_scroll_region(1, 3);
    g.scroll_up(1);
    assert_eq!(g.scrollback_len(), 0);
    assert_eq!(text(&g, 0), "aa");
    assert_eq!(text(&g, 1), "cc");
    assert_eq!(text(&g, 2), "dd");
    assert_eq!(text(&g, 3), "  ");

    let mut h = lettered(2, 4, 5);
    h.set_scroll_region(0, 2);
    h.scroll_up(2);
    assert_eq!(h.scrollback_len(), 2);
    assert_eq!(line_text(&h, 0), "aa");
    assert_eq!(line_text(&h, 1), "bb");
    assert_eq!(text(&h, 0), "cc");
    assert_eq!(text(&h, 1), "  ");
    assert_eq!(text(&h, 2), "  ");
    assert_eq!(text(&h, 3), "dd");
    check_shape(&h);
}

#[test]
fn scroll_up_clamps_and_ignores_zero() {
    let mut g = lettered(2, 3, 1);
    g.clear_all_dirty_flags();
    g.scroll_up(0);
    assert!(!g.full_redraw_needed());
    assert_eq!(text(&g, 0), "aa");
    g.scroll_up(100);
    assert!(g.full_redraw_needed());
    assert_eq!(g.scrollback_len(), 1);
    assert_eq!(line_text(&g, 0), "cc");
    for y in 0..3 {
        assert_eq!(text(&g, y), "  ");
        assert!(g.visible_row(y).unwrap().is_dirty);
    }
    check_shape(&g);
}

#[test]
fn grid_without_history_drops_scrolled_rows() {
    let mut g = lettered(2, 2, 0);
    g.scroll_up(1);
    assert_eq!(g.scrollback_len(), 0);
    assert_eq!(g.total_lines(), 2);
    assert_eq!(text(&g, 0), "bb");
    assert_eq!(text(&g, 1), "  ");
}

#[test]
fn history_drops_its_oldest_rows() {
    let mut g = grid(1, 2, 3);
    for i in 0..9u8 {
        g.set_cursor_pos(0, 1);
        put(&mut g, (b'0' + i) as char);
        g.carriage_return();
        g.line_feed();
        check_shape(&g);
    }
    assert_eq!(g.scrollback_len(), 3);
    assert_eq!(line_text(&g, 0), "5");
    assert_eq!(line_text(&g, 1), "6");
    assert_eq!(line_text(&g, 2), "7");
    assert_eq!(text(&g, 0), "8");
    assert_eq!(text(&g, 1), " ");
}

#[test]
fn display_rows_follow_the_scroll_offset() {
    let mut g = lettered(1, 3, 4);
    g.scroll_up(2);
    assert_eq!(g.scrollback_len(), 2);
    let shown = |g: &ScreenGrid, off: usize| -> String {
        (0..3).map(|y| g.get_display_row(y, off).unwrap().cells[0].ch).collect()
    };
    assert_eq!(shown(&g, 0), "c  ");
    assert_eq!(shown(&g, 1), "bc ");
    assert_eq!(shown(&g, 2), "abc");
    assert_eq!(shown(&g, 9), "abc");
    assert!(g.get_display_row(3, 0).is_none());
    assert!(g.get_display_row(4, 1).is_none());
    assert_eq!(g.get_display_row(4, 2).unwrap().cells[0].ch, ' ');
    assert!(g.get_display_row(5, 2).is_none());
}

#[test]
fn set_cursor_pos_clamps_and_clears_the_wrap() {
    let mut g = grid(4, 3, 0);
    put_str(&mut g, "abcd");
    assert!(g.deferred_wrap());
    g.clear_all_dirty_flags();
    g.set_cursor_pos(100, 100);
    assert_eq!((g.cur_x(), g.cur_y()), (3, 2));
    assert!(!g.deferred_wrap());
    assert!(g.visible_row(0).unwrap().is_dirty);
    assert!(!g.visible_row(1).unwrap().is_dirty);
    assert!(g.visible_row(2).unwrap().is_dirty);
    g.set_cursor_pos(1, 1);
    assert_eq!((g.cur_x(), g.cur_y()), (1, 1));
}

#[test]
fn cursor_motions_count_zero_as_one_and_stop_at_their_bounds() {
    let mut g = grid(10, 10, 0);
    g.set_scroll_region(2, 7);
    g.set_cursor_pos(5, 5);
    g.cursor_up(0);
    assert_eq!(g.cur_y(), 4);
    g.cursor_up(1);
    assert_eq!(g.cur_y(), 3);
    g.cursor_up(50);
    assert_eq!(g.cur_y(), 2);
    g.cursor_down(0);
    assert_eq!(g.cur_y(), 3);
    g.cursor_down(3);
    assert_eq!(g.cur_y(), 6);
    g.cursor_down(usize::MAX);
    assert_eq!(g.cur_y(), 7);
    g.cursor_forward(0);
    assert_eq!(g.cur_x(), 6);
    g.cursor_forward(2);
    assert_eq!(g.cur_x(), 8);
    g.cursor_forward(usize::MAX);
    assert_eq!(g.cur_x(), 9);
    g.cursor_back(0);
    assert_eq!(g.cur_x(), 8);
    g.cursor_back(3);
    assert_eq!(g.cur_x(), 5);
    g.cursor_back(77);
    assert_eq!(g.cur_x(), 0);
    check_shape(&g);
}

#[test]
fn cursor_up_and_down_are_bounded_by_the_margins_from_outside_too() {
    let mut g = grid(4, 10, 0);
    g.set_scroll_region(3, 6);
    g.set_cursor_pos(0, 1);
    g.cursor_up(1);
    assert_eq!(g.cur_y(), 3);
    g.set_cursor_pos(0, 9);
    g.cursor_down(1);
    assert_eq!(g.cur_y(), 6);
}

#[test]
fn relative_motion_keeps_a_deferred_wrap_but_return_and_backspace_clear_it() {
    let mut g = grid(3, 3, 0);
    put_str(&mut g, "abc");
    g.cursor_down(1);
    assert!(g.deferred_wrap());
    g.carriage_return();
    assert!(!g.deferred_wrap());
    assert_eq!((g.cur_x(), g.cur_y()), (0, 1));

    let mut h = grid(3, 3, 0);
    put_str(&mut h, "abc");
    h.backspace();
    assert!(!h.deferred_wrap());
    assert_eq!(h.cur_x(), 1);
    h.backspace();
    h.backspace();
    h.backspace();
    assert_eq!(h.cur_x(), 0);
}

#[test]
fn next_line_feeds_and_returns() {
    let mut g = grid(4, 3, 0);
    put_str(&mut g, "ab");
    g.next_line();
    assert_eq!((g.cur_x(), g.cur_y()), (0, 1));
}

#[test]
fn set_scroll_region_validates() {
    let mut g = grid(4, 6, 0);
    g.set_cursor_pos(2, 2);
    g.set_scroll_region(3, 3);
    assert_eq!((g.scroll_top(), g.scroll_bottom()), (0, 5));
    assert_eq!((g.cur_x(), g.cur_y()), (2, 2));
    g.set_scroll_region(4, 2);
    assert_eq!((g.scroll_top(), g.scroll_bottom()), (0, 5));
    g.set_scroll_region(1, 6);
    assert_eq!((g.scroll_top(), g.scroll_bottom()), (0, 5));
    g.set_scroll_region(1, 4);
    assert_eq!((g.scroll_top(), g.scroll_bottom()), (1, 4));
    assert_eq!((g.cur_x(), g.cur_y()), (0, 0));
}

#[test]
fn erase_in_line() {
    let mut g = lettered(5, 2, 0);
    g.set_cursor_pos(2, 0);
    g.clear_line_to_cursor();
    assert_eq!(text(&g, 0), "   aa");
    assert_eq!(g.visible_row(0).unwrap().cells[0], blank_cell(FG, BG));
    g.set_cursor_pos(3, 1);
    g.clear_line_from_cursor();
    assert_eq!(text(&g, 1), "bbb  ");
    g.clear_line();
    assert_eq!(text(&g, 1), "     ");
    assert_eq!((g.cur_x(), g.cur_y()), (3, 1));
    check_shape(&g);
}

#[test]
fn erase_in_display_is_not_bounded_by_the_margins() {
    let mut g = lettered(3, 5, 0);
    g.set_scroll_region(1, 3);
    g.set_cursor_pos(1, 2);
    g.clear_all_dirty_flags();
    g.clear_from_cursor();
    assert_eq!(text(&g, 0), "aaa");
    assert_eq!(text(&g, 1), "bbb");
    assert_eq!(text(&g, 2), "c  ");
    assert_eq!(text(&g, 3), "   ");
    assert_eq!(text(&g, 4), "   ");
    assert_eq!((g.cur_x(), g.cur_y()), (1, 2));
    let dirty: Vec<bool> = (0..5).map(|y| g.visible_row(y).unwrap().is_dirty).collect();
    assert_eq!(dirty, vec![false, false, true, true, true]);

    let mut h = lettered(3, 5, 0);
    h.set_scroll_region(1, 3);
    h.set_cursor_pos(1, 2);
    h.clear_all_dirty_flags();
    h.clear_to_cursor();
    assert_eq!(text(&h, 0), "   ");
    assert_eq!(text(&h, 1), "   ");
    assert_eq!(text(&h, 2), "  c");
    assert_eq!(text(&h, 3), "ddd");
    assert_eq!(text(&h, 4), "eee");
    assert_eq!((h.cur_x(), h.cur_y()), (1, 2));
    let dirty: Vec<bool> = (0..5).map(|y| h.visible_row(y).unwrap().is_dirty).collect();
    assert_eq!(dirty, vec![true, true, true, false, false]);

    let mut k = lettered(3, 5, 2);
    k.scroll_up(1);
    k.set_scroll_region(1, 3);
    k.set_cursor_pos(2, 4);
    k.clear_all_dirty_flags();
    k.clear_all();
    for y in 0..5 {
        assert_eq!(text(&k, y), "   ");
        assert!(k.visible_row(y).unwrap().is_dirty);
    }
    // The history and the margins stay.
    assert_eq!(line_text(&k, 0), "aaa");
    assert_eq!((k.scroll_top(), k.scroll_bottom()), (1, 3));
    assert_eq!((k.cur_x(), k.cur_y()), (0, 0));
    assert!(k.full_redraw_needed());
    check_shape(&k);
}

#[test]
fn erase_in_display_on_the_first_and_last_row() {
    let mut g = lettered(2, 3, 0);
    g.set_cursor_pos(1, 0);
    g.clear_to_cursor();
    assert_eq!((text(&g, 0), text(&g, 1), text(&g, 2)), ("  ".into(), "bb".into(), "cc".into()));
    let mut h = lettered(2, 3, 0);
    h.set_cursor_pos(1, 2);
    h.clear_from_cursor();
    assert_eq!((text(&h, 0), text(&h, 1), text(&h, 2)), ("aa".into(), "bb".into(), "c ".into()));
}

#[test]
fn erasing_uses_the_default_colours() {
    let mut g = ScreenGrid::new(3, 1, 0, Rgb(10, 20, 30), Rgb(40, 50, 60));
    put_str(&mut g, "xyz");
    g.set_cursor_pos(1, 0);
    g.erase_chars(1);
    let c = g.visible_row(0).unwrap().cells[1];
    assert_eq!(c, blank_cell(Rgb(10, 20, 30), Rgb(40, 50, 60)));
    assert_eq!(text(&g, 0), "x z");
}

#[test]
fn insert_and_delete_lines() {
    let mut g = lettered(2, 6, 3);
    g.set_scroll_region(1, 4);
    g.set_cursor_pos(1, 2);
    g.clear_all_dirty_flags();
    g.insert_lines(2);
    let rows: Vec<String> = (0..6).map(|y| text(&g, y)).collect();
    assert_eq!(rows, vec!["aa", "bb", "  ", "  ", "cc", "ff"]);
    assert!(g.full_redraw_needed());
    assert_eq!((g.cur_x(), g.cur_y()), (1, 2));
    assert_eq!(g.scrollback_len(), 0);

    let mut h = lettered(2, 6, 3);
    h.set_scroll_region(1, 4);
    h.set_cursor_pos(0, 2);
    h.delete_lines(1);
    let rows: Vec<String> = (0..6).map(|y| text(&h, y)).collect();
    assert_eq!(rows, vec!["aa", "bb", "dd", "ee", "  ", "ff"]);
    h.delete_lines(100);
    let rows: Vec<String> = (0..6).map(|y| text(&h, y)).collect();
    assert_eq!(rows, vec!["aa", "bb", "  ", "  ", "  ", "ff"]);
    check_shape(&h);
}

#[test]
fn line_operations_outside_the_region_change_nothing() {
    for y in [0usize, 5] {
        let mut g = lettered(2, 6, 0);
        g.set_scroll_region(1, 4);
        g.set_cursor_pos(1, 5);
        put(&mut g, 'X');
        g.set_cursor_pos(1, y);
        g.clear_all_dirty_flags();
        let before: Vec<String> = (0..6).map(|r| text(&g, r)).collect();
        g.insert_lines(1);
        g.delete_lines(3);
        let after: Vec<String> = (0..6).map(|r| text(&g, r)).collect();
        assert_eq!(before, after);
        assert!(!g.full_redraw_needed());
        assert_eq!((g.cur_x(), g.cur_y()), (1, y));
        for r in 0..6 {
            assert!(!g.visible_row(r).unwrap().is_dirty);
        }
    }
}

#[test]
fn insert_delete_and_erase_characters() {
    let mut g = grid(6, 1, 0);
    put_str(&mut g, "abcdef");
    g.set_cursor_pos(2, 0);
    g.insert_chars(2);
    assert_eq!(text(&g, 0), "ab  cd");
    g.delete_chars(1);
    assert_eq!(text(&g, 0), "ab cd ");
    g.erase_chars(2);
    assert_eq!(text(&g, 0), "ab  d ");
    g.insert_chars(100);
    assert_eq!(text(&g, 0), "ab    ");
    put_str(&mut g, "wxyz");
    g.set_cursor_pos(1, 0);
    g.delete_chars(100);
    assert_eq!(text(&g, 0), "a     ");
    g.erase_chars(0);
    assert_eq!(text(&g, 0), "a     ");
    assert_eq!(g.cur_x(), 1);
    check_shape(&g);
}

#[test]
fn resize_discards_content() {
    let mut g = lettered(3, 3, 4);
    g.scroll_up(2);
    g.set_scroll_region(0, 1);
    g.set_cursor_pos(2, 2);
    g.clear_all_dirty_flags();
    g.resize(5, 2);
    check_shape(&g);
    assert_eq!((g.cols(), g.rows()), (5, 2));
    assert_eq!(g.scrollback_len(), 0);
    assert_eq!(g.scrollback_capacity(), 4);
    assert_eq!((g.cur_x(), g.cur_y()), (0, 0));
    assert_eq!((g.scroll_top(), g.scroll_bottom()), (0, 1));
    assert!(g.full_redraw_needed());
    assert_eq!(text(&g, 0), "     ");
    assert_eq!(text(&g, 1), "     ");
}

#[test]
fn resize_to_zero_is_ignored() {
    let mut g = lettered(3, 3, 4);
    g.set_cursor_pos(1, 2);
    g.clear_all_dirty_flags();
    g.resize(0, 5);
    g.resize(5, 0);
    g.resize(0, 0);
    assert_eq!((g.cols(), g.rows()), (3, 3));
    assert_eq!(text(&g, 1), "bbb");
    assert_eq!((g.cur_x(), g.cur_y()), (1, 2));
    assert!(!g.full_redraw_needed());
}

#[test]
fn clearing_dirty_flags_twice_is_clearing_once() {
    let mut g = lettered(3, 3, 2);
    g.scroll_up(1);
    g.clear_all_dirty_flags();
    let snapshot = |g: &ScreenGrid| -> Vec<(String, bool)> {
        (0..g.total_lines()).map(|i| (line_text(g, i), g.line(i).unwrap().is_dirty)).collect()
    };
    let once = snapshot(&g);
    let flags = (g.full_redraw_needed(), g.cur_x(), g.cur_y(), g.deferred_wrap());
    g.clear_all_dirty_flags();
    assert_eq!(snapshot(&g), once);
    assert_eq!((g.full_redraw_needed(), g.cur_x(), g.cur_y(), g.deferred_wrap()), flags);
    assert!(once.iter().all(|(_, dirty)| !dirty));
    assert!(!g.full_redraw_needed());
}

#[test]
fn visible_row_mut_reaches_the_row() {
    let mut g = grid(3, 2, 0);
    g.clear_all_dirty_flags();
    assert!(g.visible_row_mut(2).is_none());
    {
        let row = g.visible_row_mut(1).unwrap();
        row.set_cell(2, Cell { ch: 'q', ..blank_cell(FG, BG) });
    }
    assert_eq!(text(&g, 1), "  q");
    assert!(g.visible_row(1).unwrap().is_dirty);
    assert!(!g.visible_row(0).unwrap().is_dirty);
    g.mark_row_dirty(0);
    assert!(g.visible_row(0).unwrap().is_dirty);
}

#[test]
fn single_row_grid_scrolls_into_history() {
    let mut g = grid(2, 1, 2);
    assert_eq!((g.scroll_top(), g.scroll_bottom()), (0, 0));
    put_str(&mut g, "ab");
    g.carriage_return();
    g.line_feed();
    assert_eq!(g.scrollback_len(), 1);
    assert_eq!(line_text(&g, 0), "ab");
    assert_eq!(text(&g, 0), "  ");
    check_shape(&g);
}
