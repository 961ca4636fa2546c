use bnuuy::cell::{Cell, CellFlags, Rgb};
use bnuuy::color::Colors;
use bnuuy::grid::ScreenGrid;
use bnuuy::terminal::TerminalState;
use bnuuy::terminal_model::ActiveScreen;

fn colors() -> Colors {
    Colors {
        foreground: (0xC0, 0xC0, 0xC0),
        background: (0, 0, 0),
        cursor: (0xC0, 0xC0, 0xC0),
        cursor_text: (0, 0, 0),
    }
}

fn cell(term: &TerminalState, x: usize, y: usize) -> Cell {
    term.grid().visible_row(y).unwrap().cells[x]
}

fn row_text(grid: &ScreenGrid, y: usize) -> String {
    grid.visible_row(y).unwrap().cells.iter().map(|c| c.ch).collect()
}

#[test]
fn sgr_indexed_colour_then_reset() {
    let mut term = TerminalState::new(80, 24, colors());
    term.feed(b"\x1B[38;5;196mX\x1B[0mY");
    assert_eq!(cell(&term, 0, 0).ch, 'X');
    assert_eq!(cell(&term, 0, 0).fg, Rgb(255, 0, 0));
    assert_eq!(cell(&term, 1, 0).ch, 'Y');
    assert_eq!(cell(&term, 1, 0).fg, Rgb(0xC0, 0xC0, 0xC0));
    assert_eq!(cell(&term, 1, 0).bg, Rgb(0, 0, 0));
    assert_eq!(cell(&term, 1, 0).flags, CellFlags::empty());
    assert_eq!(term.grid().cur_x(), 2);
    assert_eq!(term.grid().cur_y(), 0);
}

#[test]
fn delete_line_inside_scrolling_region() {
    let mut term = TerminalState::new(80, 24, colors());
    term.feed(b"\x1B[2;4r");
    assert_eq!(term.grid().scroll_top(), 1);
    assert_eq!(term.grid().scroll_bottom(), 3);
    assert_eq!((term.grid().cur_x(), term.grid().cur_y()), (0, 0));
    term.feed(b"\x1B[2;1H");
    term.feed(b"A\nB\nC");
    assert_eq!(cell(&term, 0, 1).ch, 'A');
    assert_eq!(cell(&term, 1, 2).ch, 'B');
    assert_eq!(cell(&term, 2, 3).ch, 'C');
    // The cursor on the first row is above the region: deleting is ignored.
    term.feed(b"\x1B[1;1H\x1B[1M");
    assert_eq!(cell(&term, 0, 1).ch, 'A');
    assert_eq!(cell(&term, 1, 2).ch, 'B');
    assert_eq!(cell(&term, 2, 3).ch, 'C');
    term.feed(b"\x1B[2;1H\x1B[1M");
    assert_eq!(cell(&term, 1, 1).ch, 'B');
    assert_eq!(cell(&term, 0, 1).ch, ' ');
    assert_eq!(cell(&term, 2, 2).ch, 'C');
    assert_eq!(row_text(term.grid(), 3), " ".repeat(80));
    assert_eq!(row_text(term.grid(), 4), " ".repeat(80));
}

#[test]
fn alternate_screen_round_trip() {
    let mut term = TerminalState::new(80, 24, colors());
    term.feed(b"hello");
    term.feed(b"\x1B[6;6H");
    assert_eq!((term.grid().cur_x(), term.grid().cur_y()), (5, 5));
    let before = row_text(term.normal_grid(), 0);
    term.clear_dirty();
    assert!(!term.normal_grid().full_redraw_needed());

    term.feed(b"\x1B[?1049h");
    assert_eq!(term.active_screen(), ActiveScreen::Alternate);
    term.feed(b"Z");
    assert_eq!(cell(&term, 0, 0).ch, 'Z');
    term.feed(b"\x1B[?1049l");

    assert_eq!(term.active_screen(), ActiveScreen::Normal);
    assert_eq!(row_text(term.normal_grid(), 0), before);
    assert!(before.starts_with("hello"));
    assert_eq!((term.grid().cur_x(), term.grid().cur_y()), (5, 5));
    assert!(term.grid().full_redraw_needed());
    assert!(term.cursor_visible());
}

#[test]
fn hyperlink_registry() {
    let mut term = TerminalState::new(80, 24, colors());
    term.feed(b"\x1B]8;;https://example.com\x1B\\TEXT\x1B]8;;\x1B\\");
    assert_eq!(term.link_count(), 1);
    assert_eq!(term.link_url(1).map(|s| s.as_str()), Some("https://example.com"));
    assert_eq!(term.link_url(0), None);
    assert_eq!(term.link_url(2), None);
    let text: Vec<char> = (0..4).map(|x| cell(&term, x, 0).ch).collect();
    assert_eq!(text, vec!['T', 'E', 'X', 'T']);
    for x in 0..4 {
        assert_eq!(cell(&term, x, 0).link_id, Some(1));
    }
    assert_eq!(cell(&term, 4, 0).link_id, None);
    assert_eq!(term.current_link_id(), None);
    term.feed(b"!");
    assert_eq!(cell(&term, 4, 0).link_id, None);
    assert_eq!(term.get_link_at(2, 0), Some(1));
    assert_eq!(term.get_link_at(4, 0), None);
}

#[test]
fn deferred_wrap_at_right_margin() {
    let mut term = TerminalState::new(4, 3, colors());
    term.feed(b"ABCD");
    assert_eq!(row_text(term.grid(), 0), "ABCD");
    assert_eq!(term.grid().cur_x(), 3);
    assert_eq!(term.grid().cur_y(), 0);
    assert!(term.grid().deferred_wrap());
    term.feed(b"E");
    assert_eq!(row_text(term.grid(), 0), "ABCD");
    assert_eq!(row_text(term.grid(), 1), "E   ");
    assert_eq!(term.grid().cur_x(), 1);
    assert_eq!(term.grid().cur_y(), 1);
    assert!(!term.grid().deferred_wrap());
}

#[test]
fn scrollback_eviction() {
    let mut term = TerminalState::with_scrollback(10, 5, 3, colors());
    for i in 0..12u8 {
        let line = [b'a' + i, b'\r', b'\n'];
        term.feed(&line);
    }
    let grid = term.grid();
    assert_eq!(grid.scrollback_len(), 3);
    assert_eq!(grid.total_lines(), 8);
    // Twelve line feeds on five rows scroll eight rows off the top; the
    // three newest of them are kept, oldest first.
    let kept: Vec<char> = (0..3).map(|i| grid.line(i).unwrap().cells[0].ch).collect();
    assert_eq!(kept, vec!['f', 'g', 'h']);
    let shown: Vec<char> = (0..5).map(|y| grid.visible_row(y).unwrap().cells[0].ch).collect();
    assert_eq!(shown, vec!['i', 'j', 'k', 'l', ' ']);
    assert_eq!(row_text(grid, 4), " ".repeat(10));
    assert_eq!(grid.cur_y(), 4);
}
