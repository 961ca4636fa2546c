use bnuuy::cell::{blank_cell, Cell, CellFlags, Rgb};
use bnuuy::color::Colors;
use bnuuy::decor::{decorate_row, row_hash, Quad, Rgba, RowQuad};
use bnuuy::frame::{text_rows, GridPos, InstanceBuilder, Selection, TextRow, ROW_CACHE_ENTRIES};
use bnuuy::shaper::Shaper;
use bnuuy::terminal::TerminalState;

fn palette() -> Colors {
    Colors { foreground: (200, 200, 200), background: (0, 0, 0), cursor: (9, 8, 7), cursor_text: (1, 2, 3) }
}

fn cells_of(t: &TerminalState, y: usize) -> Vec<Cell> {
    t.grid().visible_row(y).unwrap().cells.clone()
}

fn sel(c0: usize, r0: usize, c1: usize, r1: usize) -> Option<Selection> {
    Some(Selection { start: GridPos { col: c0, row: r0 }, end: GridPos { col: c1, row: r1 } })
}

const OVERLAY: Rgba = Rgba(120, 120, 120, 128);

#[test]
fn a_default_row_has_no_quads() {
    let t = TerminalState::new(4, 2, palette());
    let d = decorate_row(&cells_of(&t, 0), None, None, &palette());
    assert!(d.bg.is_empty());
    assert!(d.underline.is_empty());
    assert!(d.undercurl.is_empty());
}

#[test]
fn backgrounds_underlines_and_undercurls() {
    let mut t = TerminalState::new(6, 2, palette());
    t.feed(b"a\x1B[41mb\x1B[0;4mc\x1B[0;4:3md\x1B[0;7me\x1B[0;32;4;7mf");
    let d = decorate_row(&cells_of(&t, 0), None, None, &palette());
    assert_eq!(
        d.bg,
        vec![
            RowQuad { col: 1, color: Rgba(205, 0, 0, 255) },
            RowQuad { col: 4, color: Rgba(200, 200, 200, 255) },
            RowQuad { col: 5, color: Rgba(0, 205, 0, 255) },
        ]
    );
    assert_eq!(
        d.underline,
        vec![
            RowQuad { col: 2, color: Rgba(200, 200, 200, 255) },
            RowQuad { col: 5, color: Rgba(0, 0, 0, 255) },
        ]
    );
    assert_eq!(d.undercurl, vec![RowQuad { col: 3, color: Rgba(200, 200, 200, 255) }]);
}

#[test]
fn the_cursor_adds_a_block_and_colours_the_decoration() {
    let mut t = TerminalState::new(3, 2, palette());
    t.feed(b"\x1B[4;45mab");
    let d = decorate_row(&cells_of(&t, 0), Some(1), None, &palette());
    assert_eq!(
        d.bg,
        vec![
            RowQuad { col: 0, color: Rgba(205, 0, 205, 255) },
            RowQuad { col: 1, color: Rgba(205, 0, 205, 255) },
            RowQuad { col: 1, color: Rgba(9, 8, 7, 255) },
        ]
    );
    assert_eq!(
        d.underline,
        vec![
            RowQuad { col: 0, color: Rgba(200, 200, 200, 255) },
            RowQuad { col: 1, color: Rgba(1, 2, 3, 255) },
        ]
    );
    let on_blank = decorate_row(&cells_of(&t, 0), Some(2), None, &palette());
    assert_eq!(on_blank.bg.last(), Some(&RowQuad { col: 2, color: Rgba(9, 8, 7, 255) }));
    assert_eq!(on_blank.bg.len(), 3);
}

#[test]
fn the_hovered_link_gets_an_undercurl() {
    let mut t = TerminalState::new(5, 2, palette());
    t.feed(b"\x1B]8;;u\x07ab\x1B]8;;v\x07c\x1B]8;;\x07d");
    let cells = cells_of(&t, 0);
    assert!(decorate_row(&cells, None, None, &palette()).undercurl.is_empty());
    let d = decorate_row(&cells, None, Some(1), &palette());
    let cols: Vec<usize> = d.undercurl.iter().map(|q| q.col).collect();
    assert_eq!(cols, vec![0, 1]);
    let d = decorate_row(&cells, None, Some(2), &palette());
    assert_eq!(d.undercurl, vec![RowQuad { col: 2, color: Rgba(200, 200, 200, 255) }]);
    assert!(decorate_row(&cells, None, Some(3), &palette()).undercurl.is_empty());
}

#[test]
fn the_row_hash_tells_rows_apart() {
    let mut t = TerminalState::new(4, 3, palette());
    t.feed(b"ab\r\nab\r\n\x1B]8;;u\x07ab");
    let (r0, r1, r2) = (cells_of(&t, 0), cells_of(&t, 1), cells_of(&t, 2));
    let h = row_hash(&r0, None, None);
    assert_eq!(h, row_hash(&r1, None, None));
    assert_eq!(h, row_hash(&r0, None, None));
    assert_ne!(h, row_hash(&r2, None, None));
    assert_ne!(h, row_hash(&r0, Some(0), None));
    assert_ne!(row_hash(&r0, Some(0), None), row_hash(&r0, Some(1), None));
    // A hovered link matters only on rows that hold a cell of it.
    assert_eq!(h, row_hash(&r0, None, Some(1)));
    assert_ne!(row_hash(&r2, None, None), row_hash(&r2, None, Some(1)));
    assert_eq!(row_hash(&r2, None, None), row_hash(&r2, None, Some(2)));
    let mut other = r0.clone();
    other[3] = Cell { flags: CellFlags { bits: CellFlags::BOLD }, ..blank_cell(Rgb(200, 200, 200), Rgb(0, 0, 0)) };
    assert_ne!(h, row_hash(&other, None, None));
    assert_eq!(row_hash(&Vec::new(), None, None), row_hash(&Vec::new(), None, Some(4)));
}

#[test]
fn a_frame_places_the_rows() {
    let mut t = TerminalState::new(3, 3, palette());
    t.feed(b"\x1B[41ma\x1B[0m\r\n\r\n\x1B[4;42mb");
    let mut b = InstanceBuilder::new(palette());
    assert_eq!(ROW_CACHE_ENTRIES, 15_000);
    assert!(b.needs_update(&t, None, None));
    b.prepare_decorations(&t, None, None, 3);
    assert_eq!(
        *b.bg(),
        vec![
            Quad { col: 0, row: 0, color: Rgba(205, 0, 0, 255) },
            Quad { col: 0, row: 2, color: Rgba(0, 205, 0, 255) },
            Quad { col: 1, row: 2, color: Rgba(9, 8, 7, 255) },
        ]
    );
    assert_eq!(*b.underline(), vec![Quad { col: 0, row: 2, color: Rgba(200, 200, 200, 255) }]);
    assert!(b.undercurl().is_empty());
    // Fewer rows than the grid has, and more.
    b.prepare_decorations(&t, None, None, 1);
    assert_eq!(b.bg().len(), 1);
    b.prepare_decorations(&t, None, None, 10);
    assert_eq!(b.bg().len(), 3);
    b.prepare_decorations(&t, None, None, 0);
    assert!(b.bg().is_empty());
}

#[test]
fn cached_rows_give_the_same_frame() {
    let mut t = TerminalState::new(4, 4, palette());
    t.feed(b"\x1B[41;4ma\x1B[0m\r\n\x1B[4:3mb\x1B[0m\r\n\x1B[41;4ma\x1B[0m\x1B[4;4H");
    let mut b = InstanceBuilder::new(palette());
    b.prepare_decorations(&t, None, None, 4);
    let first = (b.bg().clone(), b.underline().clone(), b.undercurl().clone());
    // Rows 0 and 2 are equal: the second is served from the caches.
    assert_eq!(first.0[0], Quad { col: 0, row: 0, color: Rgba(205, 0, 0, 255) });
    assert_eq!(first.0[1], Quad { col: 0, row: 2, color: Rgba(205, 0, 0, 255) });
    assert_eq!(first.1.len(), 2);
    assert_eq!(first.2, vec![Quad { col: 0, row: 1, color: Rgba(200, 200, 200, 255) }]);
    t.frame_done();
    assert!(!t.grid().full_redraw_needed());
    // Now every row comes from the caches.
    b.prepare_decorations(&t, None, None, 4);
    assert_eq!((b.bg().clone(), b.underline().clone(), b.undercurl().clone()), first);
    // A pending full redraw bypasses them, with the same result.
    t.feed(b"\x1B[?1049h\x1B[?1049l");
    assert!(t.grid().full_redraw_needed());
    b.prepare_decorations(&t, None, None, 4);
    assert_eq!((b.bg().clone(), b.underline().clone(), b.undercurl().clone()), first);
}

#[test]
fn the_cursor_is_drawn_only_in_the_live_view_and_when_visible() {
    let mut t = TerminalState::with_scrollback(2, 2, 5, palette());
    t.feed(b"\r\n\r\n\r\n");
    let mut b = InstanceBuilder::new(palette());
    b.prepare_decorations(&t, None, None, 2);
    assert_eq!(*b.bg(), vec![Quad { col: 0, row: 1, color: Rgba(9, 8, 7, 255) }]);
    t.scroll_viewport(-1);
    b.prepare_decorations(&t, None, None, 2);
    assert!(b.bg().is_empty());
    t.scroll_viewport(1);
    t.feed(b"\x1B[?25l");
    b.prepare_decorations(&t, None, None, 2);
    assert!(b.bg().is_empty());
}

#[test]
fn selection_on_one_row() {
    let t = TerminalState::new(5, 3, palette());
    let mut b = InstanceBuilder::new(palette());
    let mut hidden = t;
    hidden.feed(b"\x1B[?25l");
    b.prepare_decorations(&hidden, sel(1, 1, 4, 1), None, 3);
    let quads = |cols: &[usize], row: usize| -> Vec<Quad> {
        cols.iter().map(|&col| Quad { col, row, color: OVERLAY }).collect()
    };
    assert_eq!(*b.bg(), quads(&[1, 2, 3], 1));
    // The ends are taken in reading order.
    b.prepare_decorations(&hidden, sel(4, 1, 1, 1), None, 3);
    assert_eq!(*b.bg(), quads(&[1, 2, 3], 1));
    b.prepare_decorations(&hidden, sel(2, 0, 2, 0), None, 3);
    assert!(b.bg().is_empty());
}

#[test]
fn selection_over_several_rows() {
    let mut t = TerminalState::new(4, 3, palette());
    t.feed(b"\x1B[?25l");
    let mut b = InstanceBuilder::new(palette());
    b.prepare_decorations(&t, sel(2, 0, 1, 2), None, 3);
    let got: Vec<(usize, usize)> = b.bg().iter().map(|q| (q.row, q.col)).collect();
    assert_eq!(got, vec![(0, 2), (0, 3), (1, 0), (1, 1), (1, 2), (1, 3), (2, 0)]);
    assert!(b.bg().iter().all(|q| q.color == OVERLAY));
    b.prepare_decorations(&t, sel(1, 2, 2, 0), None, 3);
    let again: Vec<(usize, usize)> = b.bg().iter().map(|q| (q.row, q.col)).collect();
    assert_eq!(again, got);
    // Rows below the grid are not drawn.
    b.prepare_decorations(&t, sel(3, 2, 2, 5), None, 3);
    let below: Vec<(usize, usize)> = b.bg().iter().map(|q| (q.row, q.col)).collect();
    assert_eq!(below, vec![(2, 3)]);
}

#[test]
fn the_selection_lies_over_the_backgrounds() {
    let mut t = TerminalState::new(2, 1, palette());
    t.feed(b"\x1B[?25l\x1B[44mab");
    let mut b = InstanceBuilder::new(palette());
    b.prepare_decorations(&t, sel(0, 0, 1, 0), None, 1);
    assert_eq!(
        *b.bg(),
        vec![
            Quad { col: 0, row: 0, color: Rgba(0, 0, 238, 255) },
            Quad { col: 1, row: 0, color: Rgba(0, 0, 238, 255) },
            Quad { col: 0, row: 0, color: OVERLAY },
        ]
    );
}

#[test]
fn unchanged_frames_are_skipped() {
    let mut t = TerminalState::new(3, 2, palette());
    t.feed(b"\x1B[41ma");
    let mut b = InstanceBuilder::new(palette());
    t.frame_done();
    // A new builder prepares its first frame even for a clean terminal.
    assert!(b.update(&t, None, None, 2));
    let frame = b.bg().clone();
    assert_eq!(frame.len(), 2);
    assert!(!b.needs_update(&t, None, None));
    assert!(!b.update(&t, None, None, 2));
    assert_eq!(*b.bg(), frame);
    // Each of the four reasons asks for an update.
    assert!(b.needs_update(&t, sel(0, 0, 1, 0), None));
    assert!(b.needs_update(&t, None, Some(1)));
    assert!(b.update(&t, sel(0, 0, 1, 0), None, 2));
    assert!(!b.update(&t, sel(0, 0, 1, 0), None, 2));
    assert!(b.update(&t, sel(0, 0, 2, 0), None, 2));
    assert!(b.update(&t, None, Some(3), 2));
    assert!(!b.update(&t, None, Some(3), 2));
    assert!(b.update(&t, None, None, 2));
    t.mark_dirty();
    assert!(b.update(&t, None, None, 2));
    t.frame_done();
    assert!(!b.update(&t, None, None, 2));
    b.invalidate();
    assert!(b.update(&t, None, None, 2));
    assert!(!b.update(&t, None, None, 2));
}

#[test]
fn a_moved_view_asks_for_an_update() {
    let mut t = TerminalState::with_scrollback(2, 2, 5, palette());
    t.feed(b"a\r\nb\r\nc\r\nd");
    let mut b = InstanceBuilder::new(palette());
    assert!(b.update(&t, None, None, 2));
    t.scroll_viewport(-1);
    t.frame_done();
    assert!(b.update(&t, None, None, 2));
    assert!(!b.update(&t, None, None, 2));
}

#[test]
fn text_rows_list_clean_shaped_rows() {
    let mut t = TerminalState::with_scrollback(2, 3, 5, palette());
    t.feed(b"a\r\nb\r\nc\r\nd\r\ne");
    assert_eq!(t.grid().scrollback_len(), 2);
    assert!(text_rows(&t, 3).is_empty());
    let s = Shaper::new();
    assert!(s.shape_budgeted(&mut t, 2));
    assert_eq!(text_rows(&t, 3), vec![TextRow { y: 0, line: 2 }, TextRow { y: 1, line: 3 }]);
    assert!(!s.shape_budgeted(&mut t, 2));
    assert_eq!(
        text_rows(&t, 5),
        vec![TextRow { y: 0, line: 2 }, TextRow { y: 1, line: 3 }, TextRow { y: 2, line: 4 }]
    );
    assert_eq!(text_rows(&t, 1), vec![TextRow { y: 0, line: 2 }]);
    t.scroll_viewport(-1);
    // The history row that came into view was never shaped.
    assert_eq!(text_rows(&t, 3), vec![TextRow { y: 1, line: 2 }, TextRow { y: 2, line: 3 }]);
    t.scroll_viewport(1);
    t.feed(b"\x1B[2;1Hx");
    assert_eq!(text_rows(&t, 3), vec![TextRow { y: 0, line: 2 }]);
}
