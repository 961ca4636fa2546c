use bnuuy::cell::{blank_cell, CellFlags, Rgb};
use bnuuy::color::{ansi_16, ansi_256_to_rgb, to_rgb, Colors};
use bnuuy::event::VtEvent;
use bnuuy::terminal::{apply_sgr, TerminalState, SCROLLBACK_LINES};
use bnuuy::terminal_model::{ActiveScreen, Attrs};

fn palette() -> Colors {
    Colors {
        foreground: (200, 201, 202),
        background: (10, 11, 12),
        cursor: (1, 2, 3),
        cursor_text: (4, 5, 6),
    }
}

fn term(cols: usize, rows: usize) -> TerminalState {
    TerminalState::new(cols, rows, palette())
}

fn line(t: &TerminalState, y: usize) -> String {
    t.grid().visible_row(y).unwrap().cells.iter().map(|c| c.ch).collect()
}

fn pos(t: &TerminalState) -> (usize, usize) {
    (t.grid().cur_x(), t.grid().cur_y())
}

fn defaults() -> Attrs {
    Attrs { fg: Rgb(200, 201, 202), bg: Rgb(10, 11, 12), flags: CellFlags::empty() }
}

fn sgr(params: &[&[u16]]) -> Attrs {
    let start = Attrs { fg: Rgb(1, 1, 1), bg: Rgb(2, 2, 2), flags: CellFlags { bits: 0 } };
    let groups: Vec<Vec<u16>> = params.iter().map(|g| g.to_vec()).collect();
    apply_sgr(start, defaults(), &groups)
}

fn csi(t: &mut TerminalState, params: &[&[u16]], action: char) {
    let groups: Vec<Vec<u16>> = params.iter().map(|g| g.to_vec()).collect();
    t.csi_dispatch(&groups, &Vec::new(), false, action);
}

#[test]
fn new_terminal() {
    let t = term(8, 4);
    assert_eq!(t.active_screen(), ActiveScreen::Normal);
    assert!(t.cursor_visible());
    assert!(t.is_dirty());
    assert_eq!(t.scroll_offset(), 0);
    assert_eq!(t.link_count(), 0);
    assert_eq!(t.current_link_id(), None);
    assert_eq!(t.attrs(), defaults());
    assert_eq!(t.default_attrs(), defaults());
    assert_eq!(t.normal_grid().scrollback_capacity(), SCROLLBACK_LINES);
    assert_eq!(SCROLLBACK_LINES, 10_000);
    assert_eq!(t.alternate_grid().scrollback_capacity(), 0);
    assert_eq!((t.grid().cols(), t.grid().rows()), (8, 4));
    assert_eq!(t.grid().visible_row(0).unwrap().cells[0], blank_cell(Rgb(200, 201, 202), Rgb(10, 11, 12)));
}

#[test]
fn ansi_palette() {
    assert_eq!(ansi_16(0, false), Rgb(0, 0, 0));
    assert_eq!(ansi_16(1, false), Rgb(205, 0, 0));
    assert_eq!(ansi_16(2, false), Rgb(0, 205, 0));
    assert_eq!(ansi_16(3, false), Rgb(205, 205, 0));
    assert_eq!(ansi_16(4, false), Rgb(0, 0, 238));
    assert_eq!(ansi_16(5, false), Rgb(205, 0, 205));
    assert_eq!(ansi_16(6, false), Rgb(0, 205, 205));
    assert_eq!(ansi_16(7, false), Rgb(229, 229, 229));
    assert_eq!(ansi_16(0, true), Rgb(50, 50, 50));
    assert_eq!(ansi_16(1, true), Rgb(255, 50, 50));
    assert_eq!(ansi_16(4, true), Rgb(50, 50, 255));
    assert_eq!(ansi_16(7, true), Rgb(255, 255, 255));
    assert_eq!(to_rgb((7, 8, 9)), Rgb(7, 8, 9));
}

#[test]
fn palette_of_256_colours() {
    assert_eq!(ansi_256_to_rgb(0), Rgb(0, 0, 0));
    assert_eq!(ansi_256_to_rgb(7), Rgb(229, 229, 229));
    assert_eq!(ansi_256_to_rgb(8), Rgb(50, 50, 50));
    assert_eq!(ansi_256_to_rgb(9), Rgb(255, 50, 50));
    assert_eq!(ansi_256_to_rgb(15), Rgb(255, 255, 255));
    assert_eq!(ansi_256_to_rgb(16), Rgb(0, 0, 0));
    assert_eq!(ansi_256_to_rgb(17), Rgb(0, 0, 51));
    assert_eq!(ansi_256_to_rgb(21), Rgb(0, 0, 255));
    assert_eq!(ansi_256_to_rgb(22), Rgb(0, 51, 0));
    assert_eq!(ansi_256_to_rgb(52), Rgb(51, 0, 0));
    assert_eq!(ansi_256_to_rgb(110), Rgb(102, 153, 204));
    assert_eq!(ansi_256_to_rgb(196), Rgb(255, 0, 0));
    assert_eq!(ansi_256_to_rgb(231), Rgb(255, 255, 255));
    assert_eq!(ansi_256_to_rgb(232), Rgb(8, 8, 8));
    assert_eq!(ansi_256_to_rgb(244), Rgb(128, 128, 128));
    assert_eq!(ansi_256_to_rgb(255), Rgb(238, 238, 238));
}

#[test]
fn sgr_without_parameters_resets() {
    assert_eq!(sgr(&[]), defaults());
    assert_eq!(sgr(&[&[0]]), defaults());
    assert_eq!(sgr(&[&[1], &[31], &[0]]), defaults());
    let mut t = term(10, 2);
    t.feed(b"\x1B[1;3;4;38;2;9;8;7;48;5;100m");
    assert_ne!(t.attrs(), defaults());
    t.feed(b"\x1B[m");
    assert_eq!(t.attrs(), defaults());
}

#[test]
fn sgr_flags() {
    let flags = |params: &[&[u16]]| sgr(params).flags.bits;
    assert_eq!(flags(&[&[1]]), CellFlags::BOLD);
    assert_eq!(flags(&[&[2]]), CellFlags::FAINT);
    assert_eq!(flags(&[&[3]]), CellFlags::ITALIC);
    assert_eq!(flags(&[&[4]]), CellFlags::UNDERLINE);
    assert_eq!(flags(&[&[7]]), CellFlags::INVERSE);
    assert_eq!(flags(&[&[4, 3]]), CellFlags::UNDERCURL);
    assert_eq!(flags(&[&[4, 1]]), CellFlags::UNDERLINE);
    assert_eq!(flags(&[&[4, 2]]), CellFlags::UNDERLINE);
    assert_eq!(flags(&[&[4], &[4, 0]]), 0);
    assert_eq!(flags(&[&[4], &[4, 3]]), CellFlags::UNDERCURL);
    assert_eq!(flags(&[&[4, 3], &[4]]), CellFlags::UNDERLINE);
    assert_eq!(flags(&[&[1], &[2], &[3], &[22]]), CellFlags::ITALIC);
    assert_eq!(flags(&[&[1], &[3], &[23]]), CellFlags::BOLD);
    assert_eq!(flags(&[&[4, 3], &[7], &[24]]), CellFlags::INVERSE);
    assert_eq!(flags(&[&[4], &[7], &[27]]), CellFlags::UNDERLINE);
    assert_eq!(flags(&[&[1], &[99], &[3]]), CellFlags::BOLD | CellFlags::ITALIC);
    assert_eq!(flags(&[&[1], &[], &[3]]), CellFlags::BOLD | CellFlags::ITALIC);
}

#[test]
fn sgr_colours() {
    assert_eq!(sgr(&[&[31]]).fg, Rgb(205, 0, 0));
    assert_eq!(sgr(&[&[31]]).bg, Rgb(2, 2, 2));
    assert_eq!(sgr(&[&[37]]).fg, Rgb(229, 229, 229));
    assert_eq!(sgr(&[&[94]]).fg, Rgb(50, 50, 255));
    assert_eq!(sgr(&[&[44]]).bg, Rgb(0, 0, 238));
    assert_eq!(sgr(&[&[44]]).fg, Rgb(1, 1, 1));
    assert_eq!(sgr(&[&[103]]).bg, Rgb(255, 255, 50));
    assert_eq!(sgr(&[&[39]]).fg, Rgb(200, 201, 202));
    assert_eq!(sgr(&[&[49]]).bg, Rgb(10, 11, 12));
    assert_eq!(sgr(&[&[38], &[5], &[196]]).fg, Rgb(255, 0, 0));
    assert_eq!(sgr(&[&[48], &[5], &[232]]).bg, Rgb(8, 8, 8));
    assert_eq!(sgr(&[&[38], &[2], &[1], &[22], &[133]]).fg, Rgb(1, 22, 133));
    assert_eq!(sgr(&[&[38], &[2], &[1], &[22], &[133]]).flags.bits, 0);
    assert_eq!(sgr(&[&[48], &[2], &[255], &[0], &[256]]).bg, Rgb(255, 0, 0));
    assert_eq!(sgr(&[&[38], &[5], &[300]]).fg, ansi_256_to_rgb(44));
}

#[test]
fn sgr_extended_colour_consumes_its_parameters() {
    // The 1 is the red channel, not a request for bold.
    assert_eq!(sgr(&[&[38], &[2], &[1], &[1], &[1], &[3]]).flags.bits, CellFlags::ITALIC);
    // Channels are missing: nothing is selected and nothing is left over.
    let a = sgr(&[&[38], &[2], &[1], &[1]]);
    assert_eq!(a.fg, Rgb(1, 1, 1));
    assert_eq!(a.flags.bits, 0);
    let b = sgr(&[&[38], &[5]]);
    assert_eq!(b.fg, Rgb(1, 1, 1));
    // An unknown colour space takes its own parameter only.
    assert_eq!(sgr(&[&[38], &[9], &[1]]).flags.bits, CellFlags::BOLD);
    assert_eq!(sgr(&[&[38]]).fg, Rgb(1, 1, 1));
    assert_eq!(sgr(&[&[38], &[5], &[1], &[1]]).fg, Rgb(205, 0, 0));
    assert_eq!(sgr(&[&[38], &[5], &[1], &[1]]).flags.bits, CellFlags::BOLD);
}

#[test]
fn printing_uses_the_rendition_and_the_link() {
    let mut t = term(10, 2);
    t.feed(b"\x1B[1;7;32;45mA");
    let c = t.grid().visible_row(0).unwrap().cells[0];
    assert_eq!(c.ch, 'A');
    assert_eq!(c.fg, Rgb(0, 205, 0));
    assert_eq!(c.bg, Rgb(205, 0, 205));
    assert_eq!(c.flags.bits, CellFlags::BOLD | CellFlags::INVERSE);
    assert_eq!(c.link_id, None);
    t.print('B');
    assert_eq!(t.grid().visible_row(0).unwrap().cells[1].ch, 'B');
    assert_eq!(t.grid().visible_row(0).unwrap().cells[1].fg, Rgb(0, 205, 0));
}

#[test]
fn utf8_is_decoded_before_printing() {
    let mut t = term(10, 2);
    t.feed("é→😀".as_bytes());
    assert_eq!(line(&t, 0), "é→😀       ");
    // A character split over two feeds is put together.
    let bytes = "ü".as_bytes();
    t.feed(&bytes[..1]);
    assert_eq!(pos(&t), (3, 0));
    t.feed(&bytes[1..]);
    assert_eq!(line(&t, 0), "é→😀ü      ");
}

#[test]
fn controls() {
    let mut t = term(6, 4);
    t.feed(b"ab\ncd\r\nef\x08g");
    assert_eq!(line(&t, 0), "ab    ");
    assert_eq!(line(&t, 1), "  cd  ");
    assert_eq!(line(&t, 2), "eg    ");
    assert_eq!(pos(&t), (2, 2));
    t.execute(0x85);
    assert_eq!(pos(&t), (0, 3));
    t.feed(b"xy");
    t.execute(0x84);
    assert_eq!(pos(&t), (2, 3));
    assert_eq!(line(&t, 2), "xy    ");
    t.execute(0x07);
    t.execute(0x0B);
    t.execute(0x00);
    assert_eq!(pos(&t), (2, 3));
    assert_eq!(line(&t, 2), "xy    ");
}

#[test]
fn cursor_motion_sequences() {
    let mut t = term(20, 10);
    t.feed(b"\x1B[5;7H");
    assert_eq!(pos(&t), (6, 4));
    t.feed(b"\x1B[A");
    assert_eq!(pos(&t), (6, 3));
    t.feed(b"\x1B[0A");
    assert_eq!(pos(&t), (6, 2));
    t.feed(b"\x1B[1A");
    assert_eq!(pos(&t), (6, 1));
    t.feed(b"\x1B[9A");
    assert_eq!(pos(&t), (6, 0));
    t.feed(b"\x1B[3B");
    assert_eq!(pos(&t), (6, 3));
    t.feed(b"\x1B[0B\x1B[B");
    assert_eq!(pos(&t), (6, 5));
    t.feed(b"\x1B[99B");
    assert_eq!(pos(&t), (6, 9));
    t.feed(b"\x1B[0C\x1B[C\x1B[2C");
    assert_eq!(pos(&t), (10, 9));
    t.feed(b"\x1B[99C");
    assert_eq!(pos(&t), (19, 9));
    t.feed(b"\x1B[0D\x1B[D\x1B[3D");
    assert_eq!(pos(&t), (14, 9));
    t.feed(b"\x1B[99D");
    assert_eq!(pos(&t), (0, 9));
}

#[test]
fn cursor_position_counts_from_one_and_clamps() {
    let mut t = term(20, 10);
    t.feed(b"\x1B[3;4H");
    assert_eq!(pos(&t), (3, 2));
    t.feed(b"\x1B[1;1H");
    assert_eq!(pos(&t), (0, 0));
    t.feed(b"\x1B[0;0H");
    assert_eq!(pos(&t), (0, 0));
    t.feed(b"\x1B[2;3f");
    assert_eq!(pos(&t), (2, 1));
    t.feed(b"\x1B[99;99H");
    assert_eq!(pos(&t), (19, 9));
    t.feed(b"\x1B[10;20H");
    assert_eq!(pos(&t), (19, 9));
    t.feed(b"\x1B[11;21H");
    assert_eq!(pos(&t), (19, 9));
    t.feed(b"\x1B[H");
    assert_eq!(pos(&t), (0, 0));
    t.feed(b"\x1B[;5H");
    assert_eq!(pos(&t), (4, 0));
    // A single parameter names the row and the column.
    t.feed(b"\x1B[4H");
    assert_eq!(pos(&t), (3, 3));
}

#[test]
fn cursor_position_clears_a_deferred_wrap() {
    let mut t = term(3, 3);
    t.feed(b"abc");
    assert!(t.grid().deferred_wrap());
    t.feed(b"\x1B[1;3H");
    assert!(!t.grid().deferred_wrap());
    assert_eq!(pos(&t), (2, 0));
    t.feed(b"Z");
    assert_eq!(line(&t, 0), "abZ");
    assert!(t.grid().deferred_wrap());
    t.feed(b"\r");
    assert!(!t.grid().deferred_wrap());
    assert_eq!(pos(&t), (0, 0));
}

#[test]
fn erase_sequences() {
    let fill = |t: &mut TerminalState| {
        t.feed(b"\x1B[1;1Haaaa\r\nbbbb\r\ncccc\x1B[2;2H");
    };
    let mut t = term(4, 3);
    fill(&mut t);
    t.feed(b"\x1B[K");
    assert_eq!(line(&t, 1), "b   ");
    fill(&mut t);
    t.feed(b"\x1B[0K");
    assert_eq!(line(&t, 1), "b   ");
    fill(&mut t);
    t.feed(b"\x1B[1K");
    assert_eq!(line(&t, 1), "  bb");
    fill(&mut t);
    t.feed(b"\x1B[2K");
    assert_eq!(line(&t, 1), "    ");
    assert_eq!(line(&t, 0), "aaaa");
    fill(&mut t);
    t.feed(b"\x1B[3K");
    assert_eq!(line(&t, 1), "bbbb");

    fill(&mut t);
    t.feed(b"\x1B[J");
    assert_eq!((line(&t, 0), line(&t, 1), line(&t, 2)), ("aaaa".into(), "b   ".into(), "    ".into()));
    fill(&mut t);
    t.feed(b"\x1B[1J");
    assert_eq!((line(&t, 0), line(&t, 1), line(&t, 2)), ("    ".into(), "  bb".into(), "cccc".into()));
    assert_eq!(pos(&t), (1, 1));
    fill(&mut t);
    t.feed(b"\x1B[2J");
    assert_eq!((line(&t, 0), line(&t, 1), line(&t, 2)), ("    ".into(), "    ".into(), "    ".into()));
    assert_eq!(pos(&t), (0, 0));
    fill(&mut t);
    t.feed(b"\x1B[7J");
    assert_eq!((line(&t, 0), line(&t, 1), line(&t, 2)), ("aaaa".into(), "bbbb".into(), "cccc".into()));
}

#[test]
fn character_and_line_sequences_count_zero_as_one() {
    for count in ["", "0", "1"] {
        let mut t = term(5, 4);
        t.feed(b"abcde\r\nfghij\r\nklmno\r\npqrst\x1B[2;2H");
        t.feed(format!("\x1B[{}@", count).as_bytes());
        assert_eq!(line(&t, 1), "f ghi");
        t.feed(format!("\x1B[{}P", count).as_bytes());
        assert_eq!(line(&t, 1), "fghi ");
        t.feed(format!("\x1B[{}X", count).as_bytes());
        assert_eq!(line(&t, 1), "f hi ");
        t.feed(format!("\x1B[{}L", count).as_bytes());
        assert_eq!((line(&t, 1), line(&t, 2), line(&t, 3)), ("     ".into(), "f hi ".into(), "klmno".into()));
        t.feed(format!("\x1B[{}M", count).as_bytes());
        assert_eq!((line(&t, 1), line(&t, 2), line(&t, 3)), ("f hi ".into(), "klmno".into(), "     ".into()));
    }
    let mut t = term(5, 4);
    t.feed(b"abcde\x1B[1;2H\x1B[3@");
    assert_eq!(line(&t, 0), "a   b");
    t.feed(b"\x1B[2P");
    assert_eq!(line(&t, 0), "a b  ");
    t.feed(b"\x1B[2X");
    assert_eq!(line(&t, 0), "a    ");
}

#[test]
fn scrolling_region_sequence() {
    let mut t = term(4, 6);
    t.feed(b"\x1B[3;3H\x1B[2;5r");
    assert_eq!((t.grid().scroll_top(), t.grid().scroll_bottom()), (1, 4));
    assert_eq!(pos(&t), (0, 0));
    t.feed(b"\x1B[3;3H\x1B[4;2r");
    assert_eq!((t.grid().scroll_top(), t.grid().scroll_bottom()), (1, 4));
    assert_eq!(pos(&t), (2, 2));
    t.feed(b"\x1B[2;9r");
    assert_eq!((t.grid().scroll_top(), t.grid().scroll_bottom()), (1, 4));
    t.feed(b"\x1B[3r");
    assert_eq!((t.grid().scroll_top(), t.grid().scroll_bottom()), (2, 5));
    t.feed(b"\x1B[r");
    assert_eq!((t.grid().scroll_top(), t.grid().scroll_bottom()), (0, 5));
    assert_eq!(pos(&t), (0, 0));
}

#[test]
fn unknown_sequences_are_ignored() {
    let mut t = term(6, 3);
    t.feed(b"ab\x1B[2;2H");
    t.clear_dirty();
    t.feed(b"\x1B[5n\x1B[?7h\x1B[?2004l\x1B[>c\x1B[?1049x\x1B]0;title\x07\x1B]2;other\x1B\\\x1BM");
    assert_eq!(line(&t, 0), "ab    ");
    assert_eq!(pos(&t), (1, 1));
    assert_eq!(t.attrs(), defaults());
    assert_eq!(t.active_screen(), ActiveScreen::Normal);
    assert_eq!(t.link_count(), 0);
    assert!(!t.grid().full_redraw_needed());
}

#[test]
fn cursor_visibility() {
    let mut t = term(6, 3);
    t.feed(b"\x1B[2;1H");
    t.clear_dirty();
    t.feed(b"\x1B[?25l");
    assert!(!t.cursor_visible());
    assert!(t.grid().visible_row(1).unwrap().is_dirty);
    assert!(!t.grid().visible_row(0).unwrap().is_dirty);
    t.feed(b"\x1B[?25h");
    assert!(t.cursor_visible());
    t.feed(b"\x1B[?25l\x1B[?1049h\x1B[?1049l");
    assert!(t.cursor_visible());
}

#[test]
fn alternate_screen_is_cleared_on_entry_and_keeps_no_history() {
    let mut t = term(3, 2);
    t.feed(b"\x1B[?1049habc\r\ndef\r\nghi");
    assert_eq!(t.active_screen(), ActiveScreen::Alternate);
    assert_eq!(line(&t, 0), "def");
    assert_eq!(line(&t, 1), "ghi");
    assert_eq!(t.grid().scrollback_len(), 0);
    t.feed(b"\x1B[?1049l");
    assert_eq!(line(&t, 0), "   ");
    t.feed(b"\x1B[?1049h");
    assert_eq!(line(&t, 0), "   ");
    assert_eq!(line(&t, 1), "   ");
    assert_eq!(pos(&t), (0, 0));
    assert!(t.grid().full_redraw_needed());
}

#[test]
fn osc_8_reuses_known_targets() {
    let mut t = term(20, 2);
    t.feed(b"\x1B]8;;http://a\x07a\x1B]8;;http://b\x07b\x1B]8;id=1;http://a\x07c\x1B]8;;\x07d");
    assert_eq!(t.link_count(), 2);
    assert_eq!(t.link_url(1).map(|s| s.as_str()), Some("http://a"));
    assert_eq!(t.link_url(2).map(|s| s.as_str()), Some("http://b"));
    let ids: Vec<Option<u32>> = (0..4).map(|x| t.grid().visible_row(0).unwrap().cells[x].link_id).collect();
    assert_eq!(ids, vec![Some(1), Some(2), Some(1), None]);
}

#[test]
fn osc_dispatch_edge_cases() {
    let osc = |t: &mut TerminalState, parts: &[&[u8]]| {
        let params: Vec<Vec<u8>> = parts.iter().map(|p| p.to_vec()).collect();
        t.osc_dispatch(&params, false);
    };
    let mut t = term(20, 2);
    osc(&mut t, &[b"8", b"", b"x://y"]);
    assert_eq!(t.current_link_id(), Some(1));
    // Too few parameters, or another command: ignored.
    osc(&mut t, &[b"8", b""]);
    osc(&mut t, &[b"8"]);
    osc(&mut t, &[]);
    osc(&mut t, &[b"0", b"", b"x://z"]);
    osc(&mut t, &[b"88", b"", b"x://z"]);
    osc(&mut t, &[b"", b"", b"x://z"]);
    assert_eq!(t.current_link_id(), Some(1));
    assert_eq!(t.link_count(), 1);
    // A target that is not UTF-8 ends the link, as an empty one does.
    osc(&mut t, &[b"8", b"", &[0xFF, 0xFE]]);
    assert_eq!(t.current_link_id(), None);
    assert_eq!(t.link_count(), 1);
    osc(&mut t, &[b"8", b"", "x://é".as_bytes(), b"more"]);
    assert_eq!(t.current_link_id(), Some(2));
    assert_eq!(t.link_url(2).map(|s| s.as_str()), Some("x://é"));
    osc(&mut t, &[b"8", b"", b""]);
    assert_eq!(t.current_link_id(), None);
}

#[test]
fn events_can_be_applied_directly() {
    let events = vec![
        VtEvent::Print('h'),
        VtEvent::Print('i'),
        VtEvent::Execute(b'\r'),
        VtEvent::Execute(b'\n'),
        VtEvent::Csi { params: vec![vec![1]], intermediates: vec![], ignore: false, action: 'm' },
        VtEvent::Osc { params: vec![b"8".to_vec(), vec![], b"u".to_vec()], bell_terminated: true },
        VtEvent::Print('!'),
    ];
    let mut a = term(4, 3);
    a.apply_events(&events);
    let mut b = term(4, 3);
    for e in &events {
        b.perform(e);
    }
    for t in [&a, &b] {
        assert_eq!(line(t, 0), "hi  ");
        assert_eq!(line(t, 1), "!   ");
        let c = t.grid().visible_row(1).unwrap().cells[0];
        assert_eq!(c.flags.bits, CellFlags::BOLD);
        assert_eq!(c.link_id, Some(1));
        assert_eq!(pos(t), (1, 1));
    }
}

#[test]
fn feeding_nothing_changes_nothing() {
    let mut t = term(4, 3);
    t.feed(b"ab");
    t.clear_dirty();
    t.feed(b"");
    assert!(!t.is_dirty());
    assert!(!t.grid().visible_row(0).unwrap().is_dirty);
    t.feed(b"\x1B");
    assert!(t.is_dirty());
    assert_eq!(line(&t, 0), "ab  ");
}

#[test]
fn scrolling_the_view() {
    let mut t = TerminalState::with_scrollback(2, 2, 10, palette());
    for i in 0..6u8 {
        t.feed(&[b'a' + i, b'\r', b'\n']);
    }
    assert_eq!(t.grid().scrollback_len(), 5);
    t.clear_dirty();
    t.scroll_viewport(0);
    assert_eq!(t.scroll_offset(), 0);
    assert!(!t.is_dirty());
    t.scroll_viewport(3);
    assert_eq!(t.scroll_offset(), 0);
    assert!(!t.is_dirty());
    t.scroll_viewport(-2);
    assert_eq!(t.scroll_offset(), 2);
    assert!(t.is_dirty());
    assert_eq!(t.grid().get_display_row(0, t.scroll_offset()).unwrap().cells[0].ch, 'd');
    t.scroll_viewport(-100);
    assert_eq!(t.scroll_offset(), 5);
    t.scroll_viewport(i32::MIN);
    assert_eq!(t.scroll_offset(), 5);
    t.scroll_viewport(1);
    assert_eq!(t.scroll_offset(), 4);
    t.scroll_viewport(i32::MAX);
    assert_eq!(t.scroll_offset(), 0);
    t.scroll_viewport(-3);
    // Input brings the normal screen back to the live view.
    t.feed(b"x");
    assert_eq!(t.scroll_offset(), 0);
    t.scroll_viewport(-3);
    t.feed(b"\x1B[?1049h");
    assert_eq!(t.scroll_offset(), 0);
    t.scroll_viewport(-1);
    assert_eq!(t.scroll_offset(), 0);
}

#[test]
fn links_are_found_through_the_scroll_offset() {
    let mut t = TerminalState::with_scrollback(3, 2, 10, palette());
    t.feed(b"\x1B]8;;u\x07L\x1B]8;;\x07\r\n\r\n\r\n");
    assert_eq!(t.grid().scrollback_len(), 2);
    assert_eq!(t.get_link_at(0, 0), None);
    t.scroll_viewport(-2);
    assert_eq!(t.get_link_at(0, 0), Some(1));
    assert_eq!(t.get_link_at(1, 0), None);
    assert_eq!(t.get_link_at(3, 0), None);
    assert_eq!(t.get_link_at(0, 99), None);
}

#[test]
fn clearing_dirty_state() {
    let mut t = term(3, 2);
    t.feed(b"a");
    t.clear_dirty();
    assert!(!t.is_dirty());
    assert!(!t.grid().full_redraw_needed());
    assert!(!t.grid().visible_row(0).unwrap().is_dirty);
    t.feed(b"b\x1B[2J");
    t.frame_done();
    assert!(!t.is_dirty());
    assert!(!t.grid().full_redraw_needed());
    assert!(t.grid().visible_row(0).unwrap().is_dirty);
    t.mark_dirty();
    assert!(t.is_dirty());
}

#[test]
fn resizing_the_terminal() {
    let mut t = term(3, 2);
    t.feed(b"abc\x1B[?1049hxyz");
    t.clear_dirty();
    t.resize(5, 4);
    assert!(t.is_dirty());
    assert_eq!((t.normal_grid().cols(), t.normal_grid().rows()), (5, 4));
    assert_eq!((t.alternate_grid().cols(), t.alternate_grid().rows()), (5, 4));
    assert_eq!(line(&t, 0), "     ");
    assert_eq!(t.active_screen(), ActiveScreen::Alternate);
    t.resize(0, 0);
    assert_eq!((t.grid().cols(), t.grid().rows()), (5, 4));
    {
        let g = t.grid_mut();
        g.put_char_ex('k', Rgb(0, 0, 0), Rgb(0, 0, 0), CellFlags::empty(), None);
    }
    assert_eq!(line(&t, 0), "k    ");
}
