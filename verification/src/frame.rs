//! The instance builder: the quads of a whole frame, row by row through the
//! row caches, with the selection laid over them, and the guard that skips
//! the work when nothing changed.

use vstd::prelude::*;
use crate::cell::Cell;
use crate::color::Colors;
use crate::decor::{decorate_row, row_decor, row_hash, row_hash_spec, Quad, Rgba, RowQuad};
use crate::grid_model::GridModel;
use crate::row_cache::{
    cache_cap, cache_entries, cache_get, cache_new, cache_put, lookup, stored, touched, QuadCache,
};
use crate::terminal::TerminalState;
use crate::terminal_model::TerminalModel;

verus! {

/// Number of rows that each row cache holds.
pub const ROW_CACHE_ENTRIES: usize = 15_000;

/// A position on the screen, in cells.
#[derive(Debug, Clone, Copy, PartialEq, Eq, Structural)]
pub struct GridPos {
    pub col: usize,
    pub row: usize,
}

/// A selection: where the drag began and where it is now.
#[derive(Debug, Clone, Copy, PartialEq, Eq, Structural)]
pub struct Selection {
    pub start: GridPos,
    pub end: GridPos,
}

/// The colour laid over selected cells.
pub open spec fn selection_color() -> Rgba {
    Rgba(120, 120, 120, 128)
}

/// Whether `a` comes before `b`, or is `b`, in reading order.
pub open spec fn precedes(a: GridPos, b: GridPos) -> bool {
    a.row < b.row || (a.row == b.row && a.col <= b.col)
}

/// The ends of a selection in reading order.
pub open spec fn normalized(sel: Selection) -> (GridPos, GridPos) {
    if precedes(sel.start, sel.end) {
        (sel.start, sel.end)
    } else {
        (sel.end, sel.start)
    }
}

/// The columns `from..to` of row `y` that are selected: on a row between the
/// ends all `cols` columns, on the first row those from the first end on, on
/// the last row those before the last end.
pub open spec fn selected_span(first: GridPos, last: GridPos, y: int, cols: nat) -> (int, int) {
    (
        if y == first.row {
            first.col as int
        } else {
            0
        },
        if y == last.row {
            last.col as int
        } else {
            cols as int
        },
    )
}

/// Quads in `color` on the columns `from..to` of row `y`.
pub open spec fn span_quads(from: int, to: int, y: int, color: Rgba) -> Seq<Quad> {
    if to <= from {
        Seq::empty()
    } else {
        Seq::new(
            (to - from) as nat,
            |k: int| Quad { col: (from + k) as usize, row: y as usize, color },
        )
    }
}

/// The overlay quads of the rows `first.row..y_end` of a selection. Rows
/// that the grid does not hold at this scroll offset get none.
pub open spec fn selection_rows(g: GridModel, offset: nat, first: GridPos, last: GridPos, y_end: int) -> Seq<
    Quad,
>
    decreases y_end - first.row,
{
    if y_end <= first.row {
        Seq::empty()
    } else {
        let y = y_end - 1;
        let before = selection_rows(g, offset, first, last, y);
        if g.display_index(y as nat, offset) < g.lines.len() {
            let (from, to) = selected_span(first, last, y, g.cols);
            before + span_quads(from, to, y, selection_color())
        } else {
            before
        }
    }
}

/// The overlay quads of a selection.
pub open spec fn selection_quads(g: GridModel, offset: nat, sel: Option<Selection>) -> Seq<Quad> {
    match sel {
        Some(s) => {
            let (first, last) = normalized(s);
            selection_rows(g, offset, first, last, last.row + 1)
        },
        None => Seq::empty(),
    }
}

/// The quads of a row placed on row `y` of the screen.
pub open spec fn place(quads: Seq<RowQuad>, y: int) -> Seq<Quad> {
    Seq::new(quads.len(), |k: int| Quad { col: quads[k].col, row: y as usize, color: quads[k].color })
}

/// What the three row caches hold, and how many entries each was made for.
pub struct CachesModel {
    pub bg: Seq<(u64, Seq<RowQuad>)>,
    pub underline: Seq<(u64, Seq<RowQuad>)>,
    pub undercurl: Seq<(u64, Seq<RowQuad>)>,
    pub bg_cap: nat,
    pub underline_cap: nat,
    pub undercurl_cap: nat,
}

/// The caches and the three lists of quads while a frame is built.
pub struct FrameModel {
    pub caches: CachesModel,
    pub bg: Seq<Quad>,
    pub underline: Seq<Quad>,
    pub undercurl: Seq<Quad>,
}

/// What a cache lookup yields for the frame: the list found, or none.
pub open spec fn found_or_empty(hit: Option<Seq<RowQuad>>) -> Seq<RowQuad> {
    match hit {
        Some(quads) => quads,
        None => Seq::empty(),
    }
}

/// The frame after one row was added on screen row `y`. Where the
/// background cache holds the row's hash and the caches are not bypassed,
/// the lists that the three caches hold under the hash are placed, and the
/// entries become the most recently used. Otherwise the row's quads are
/// built, placed, and stored in the three caches.
pub open spec fn add_row(
    f: FrameModel,
    cells: Seq<Cell>,
    y: int,
    cursor: Option<usize>,
    hovered: Option<u32>,
    colors: Colors,
    bypass: bool,
) -> FrameModel {
    let h = row_hash_spec(cells, cursor, hovered);
    let c = f.caches;
    if !bypass && lookup(c.bg, h) is Some {
        FrameModel {
            caches: CachesModel {
                bg: touched(c.bg, h),
                underline: touched(c.underline, h),
                undercurl: touched(c.undercurl, h),
                ..c
            },
            bg: f.bg + place(found_or_empty(lookup(c.bg, h)), y),
            underline: f.underline + place(found_or_empty(lookup(c.underline, h)), y),
            undercurl: f.undercurl + place(found_or_empty(lookup(c.undercurl, h)), y),
        }
    } else {
        let d = row_decor(cells, cells.len() as int, cursor, hovered, colors);
        FrameModel {
            caches: CachesModel {
                bg: stored(c.bg, c.bg_cap, h, d.bg),
                underline: stored(c.underline, c.underline_cap, h, d.underline),
                undercurl: stored(c.undercurl, c.undercurl_cap, h, d.undercurl),
                ..c
            },
            bg: f.bg + place(d.bg, y),
            underline: f.underline + place(d.underline, y),
            undercurl: f.undercurl + place(d.undercurl, y),
        }
    }
}

/// The cursor's column, where the cursor is shown on screen row `y`: the
/// cursor is visible, the view is live, and `y` is the cursor's row.
pub open spec fn cursor_on_row(t: TerminalModel, y: int) -> Option<usize> {
    if t.cursor_visible && t.scroll_offset == 0 && y == t.grid().cur_y {
        Some(t.grid().cur_x as usize)
    } else {
        None
    }
}

/// The frame after the screen rows `0..n` were added. A pending full redraw
/// bypasses the caches. Rows that the grid does not hold at this scroll
/// offset add nothing.
pub open spec fn add_rows(f: FrameModel, t: TerminalModel, n: int, hovered: Option<u32>, colors: Colors) -> FrameModel
    decreases n,
{
    if n <= 0 {
        f
    } else {
        let before = add_rows(f, t, n - 1, hovered, colors);
        let y = n - 1;
        let g = t.grid();
        let i = g.display_index(y as nat, t.scroll_offset);
        if i < g.lines.len() {
            add_row(
                before,
                g.lines[i].cells,
                y,
                cursor_on_row(t, y),
                hovered,
                colors,
                g.full_redraw_needed,
            )
        } else {
            before
        }
    }
}

/// Value of an instance builder.
pub struct BuilderModel {
    pub colors: Colors,
    pub frame: FrameModel,
    pub last_scroll_offset: nat,
    pub last_selection: Option<Selection>,
    pub last_hovered_link: Option<u32>,
    pub decorations_dirty: bool,
}

/// The frame that a builder holds after the decorations of `rows` screen
/// rows were prepared: the lists start empty, the rows are added, and the
/// selection is laid over the backgrounds.
pub open spec fn prepared(
    caches: CachesModel,
    t: TerminalModel,
    selection: Option<Selection>,
    hovered: Option<u32>,
    rows: nat,
    colors: Colors,
) -> FrameModel {
    let start = FrameModel {
        caches,
        bg: Seq::empty(),
        underline: Seq::empty(),
        undercurl: Seq::empty(),
    };
    let built = add_rows(start, t, rows as int, hovered, colors);
    FrameModel { bg: built.bg + selection_quads(t.grid(), t.scroll_offset, selection), ..built }
}

/// Whether the decorations have to be prepared again: the terminal is
/// dirty, or the scroll offset, the selection or the link under the pointer
/// changed since the last frame, or the builder was told so.
pub open spec fn needs_update(
    b: BuilderModel,
    t: TerminalModel,
    selection: Option<Selection>,
    hovered: Option<u32>,
) -> bool {
    t.is_dirty || b.last_scroll_offset != t.scroll_offset || b.last_selection != selection
        || b.last_hovered_link != hovered || b.decorations_dirty
}

/// A row of shaped text and where it is drawn: screen row `y` shows the row
/// at index `line` of the grid's rows.
#[derive(Debug, Clone, Copy, PartialEq, Eq, Structural)]
pub struct TextRow {
    pub y: usize,
    pub line: usize,
}

/// The text rows of the screen rows `0..n`: one for each row shown that is
/// clean and has a shaped form.
pub open spec fn text_rows_spec(t: TerminalModel, n: int) -> Seq<TextRow>
    decreases n,
{
    if n <= 0 {
        Seq::empty()
    } else {
        let before = text_rows_spec(t, n - 1);
        let y = n - 1;
        let g = t.grid();
        let i = g.display_index(y as nat, t.scroll_offset);
        if i < g.lines.len() && !g.lines[i].is_dirty && g.lines[i].shaped is Some {
            before.push(TextRow { y: y as usize, line: i as usize })
        } else {
            before
        }
    }
}

/// Lists the shaped rows to draw in a frame of `rows` screen rows, each with
/// the screen row on which it is drawn.
pub fn text_rows(term: &TerminalState, rows: usize) -> (list: Vec<TextRow>)
    requires
        term.wf(),
    ensures
        list@ == text_rows_spec(term@, rows as int),
{
    let grid = term.grid();
    let offset = term.scroll_offset();
    let sb = grid.scrollback_len();
    let top = if offset >= sb {
        0
    } else {
        sb - offset
    };
    let total = grid.total_lines();
    let mut list: Vec<TextRow> = Vec::new();
    let mut y: usize = 0;
    while y < rows
        invariant
            y <= rows,
            grid.wf(),
            grid@ == term@.grid(),
            offset == term@.scroll_offset,
            total == grid@.lines.len(),
            top <= total,
            top == crate::grid_model::sub_nat(grid@.scrollback_len(), offset as nat),
            list@ == text_rows_spec(term@, y as int),
        decreases rows - y,
    {
        if y < total - top {
            match grid.line(top + y) {
                Some(row) => {
                    if !row.is_dirty && row.shaped_cache.is_some() {
                        list.push(TextRow { y, line: top + y });
                    }
                },
                None => {},
            }
        }
        y += 1;
    }
    list
}

/// Appends the quads of a row, placed on screen row `y`.
fn append_placed(out: &mut Vec<Quad>, quads: &Vec<RowQuad>, y: usize)
    ensures
        final(out)@ == old(out)@ + place(quads@, y as int),
{
    let mut k: usize = 0;
    while k < quads.len()
        invariant
            k <= quads@.len(),
            out@ =~= old(out)@ + place(quads@, y as int).subrange(0, k as int),
        decreases quads@.len() - k,
    {
        let q = quads[k];
        out.push(Quad { col: q.col, row: y, color: q.color });
        k += 1;
    }
    assert(place(quads@, y as int).subrange(0, quads@.len() as int) =~= place(quads@, y as int));
}

/// Appends quads in `color` on the columns `from..to` of row `y`.
fn append_span(out: &mut Vec<Quad>, from: usize, to: usize, y: usize, color: Rgba)
    ensures
        final(out)@ == old(out)@ + span_quads(from as int, to as int, y as int, color),
{
    if to <= from {
        assert(out@ =~= old(out)@ + span_quads(from as int, to as int, y as int, color));
        return ;
    }
    let ghost target = span_quads(from as int, to as int, y as int, color);
    let mut x: usize = from;
    while x < to
        invariant
            from <= x <= to,
            target == span_quads(from as int, to as int, y as int, color),
            out@ =~= old(out)@ + target.subrange(0, x - from),
        decreases to - x,
    {
        out.push(Quad { col: x, row: y, color });
        x += 1;
    }
    assert(target.subrange(0, to - from) =~= target);
}

/// Builds the decorations of frames, keeping the quads of rows in caches
/// between frames.
pub struct InstanceBuilder {
    colors: Colors,
    bg_cache: QuadCache,
    underline_cache: QuadCache,
    undercurl_cache: QuadCache,
    bg: Vec<Quad>,
    underline: Vec<Quad>,
    undercurl: Vec<Quad>,
    last_scroll_offset: usize,
    last_selection: Option<Selection>,
    last_hovered_link: Option<u32>,
    decorations_dirty: bool,
}

impl View for InstanceBuilder {
    type V = BuilderModel;

    closed spec fn view(&self) -> BuilderModel {
        BuilderModel {
            colors: self.colors,
            frame: FrameModel {
                caches: CachesModel {
                    bg: cache_entries(self.bg_cache),
                    underline: cache_entries(self.underline_cache),
                    undercurl: cache_entries(self.undercurl_cache),
                    bg_cap: cache_cap(self.bg_cache),
                    underline_cap: cache_cap(self.underline_cache),
                    undercurl_cap: cache_cap(self.undercurl_cache),
                },
                bg: self.bg@,
                underline: self.underline@,
                undercurl: self.undercurl@,
            },
            last_scroll_offset: self.last_scroll_offset as nat,
            last_selection: self.last_selection,
            last_hovered_link: self.last_hovered_link,
            decorations_dirty: self.decorations_dirty,
        }
    }
}

impl InstanceBuilder {
    /// A builder with empty caches and no quads, for a terminal drawn in
    /// `colors`. Its first frame prepares the decorations.
    pub fn new(colors: Colors) -> (b: InstanceBuilder)
        ensures
            b@ == (BuilderModel {
                colors,
                frame: FrameModel {
                    caches: CachesModel {
                        bg: Seq::empty(),
                        underline: Seq::empty(),
                        undercurl: Seq::empty(),
                        bg_cap: ROW_CACHE_ENTRIES as nat,
                        underline_cap: ROW_CACHE_ENTRIES as nat,
                        undercurl_cap: ROW_CACHE_ENTRIES as nat,
                    },
                    bg: Seq::empty(),
                    underline: Seq::empty(),
                    undercurl: Seq::empty(),
                },
                last_scroll_offset: 0,
                last_selection: None,
                last_hovered_link: None,
                decorations_dirty: true,
            }),
    {
        InstanceBuilder {
            colors,
            bg_cache: cache_new(ROW_CACHE_ENTRIES),
            underline_cache: cache_new(ROW_CACHE_ENTRIES),
            undercurl_cache: cache_new(ROW_CACHE_ENTRIES),
            bg: Vec::new(),
            underline: Vec::new(),
            undercurl: Vec::new(),
            last_scroll_offset: 0,
            last_selection: None,
            last_hovered_link: None,
            decorations_dirty: true,
        }
    }

    /// The background quads of the frame, the selection's among them.
    pub fn bg(&self) -> (q: &Vec<Quad>)
        ensures
            q@ == self@.frame.bg,
    {
        &self.bg
    }

    /// The underline quads of the frame.
    pub fn underline(&self) -> (q: &Vec<Quad>)
        ensures
            q@ == self@.frame.underline,
    {
        &self.underline
    }

    /// The undercurl quads of the frame.
    pub fn undercurl(&self) -> (q: &Vec<Quad>)
        ensures
            q@ == self@.frame.undercurl,
    {
        &self.undercurl
    }

    /// Asks for the decorations to be prepared in the next frame whatever
    /// the terminal's state.
    pub fn invalidate(&mut self)
        ensures
            final(self)@ == (BuilderModel { decorations_dirty: true, ..old(self)@ }),
    {
        self.decorations_dirty = true;
    }

    /// Whether the decorations have to be prepared again for this frame.
    pub fn needs_update(&self, term: &TerminalState, selection: Option<Selection>, hovered: Option<u32>) -> (r:
        bool)
        ensures
            r == needs_update(self@, term@, selection, hovered),
    {
        term.is_dirty() || self.last_scroll_offset != term.scroll_offset() || self.last_selection
            != selection || self.last_hovered_link != hovered || self.decorations_dirty
    }

    /// Adds one row to the frame on screen row `y`.
    fn add_row(&mut self, cells: &Vec<Cell>, y: usize, cursor: Option<usize>, hovered: Option<u32>, bypass: bool)
        ensures
            final(self)@.frame == add_row(
                old(self)@.frame,
                cells@,
                y as int,
                cursor,
                hovered,
                old(self)@.colors,
                bypass,
            ),
            final(self)@.colors == old(self)@.colors,
            final(self)@.last_scroll_offset == old(self)@.last_scroll_offset,
            final(self)@.last_selection == old(self)@.last_selection,
            final(self)@.last_hovered_link == old(self)@.last_hovered_link,
            final(self)@.decorations_dirty == old(self)@.decorations_dirty,
    {
        let h = row_hash(cells, cursor, hovered);
        if !bypass {
            match cache_get(&mut self.bg_cache, h) {
                Some(cached) => {
                    append_placed(&mut self.bg, cached, y);
                    match cache_get(&mut self.underline_cache, h) {
                        Some(lines) => append_placed(&mut self.underline, lines, y),
                        None => {
                            assert(self.underline@ =~= old(self).underline@ + place(
                                Seq::empty(),
                                y as int,
                            ));
                        },
                    }
                    match cache_get(&mut self.undercurl_cache, h) {
                        Some(curls) => append_placed(&mut self.undercurl, curls, y),
                        None => {
                            assert(self.undercurl@ =~= old(self).undercurl@ + place(
                                Seq::empty(),
                                y as int,
                            ));
                        },
                    }
                    return ;
                },
                None => {},
            }
        }
        let decor = decorate_row(cells, cursor, hovered, &self.colors);
        append_placed(&mut self.bg, &decor.bg, y);
        append_placed(&mut self.underline, &decor.underline, y);
        append_placed(&mut self.undercurl, &decor.undercurl, y);
        cache_put(&mut self.bg_cache, h, decor.bg);
        cache_put(&mut self.underline_cache, h, decor.underline);
        cache_put(&mut self.undercurl_cache, h, decor.undercurl);
    }

    /// Lays the selection over the backgrounds.
    fn add_selection(&mut self, term: &TerminalState, selection: Option<Selection>)
        requires
            term.wf(),
        ensures
            final(self)@ == (BuilderModel {
                frame: FrameModel {
                    bg: old(self)@.frame.bg + selection_quads(
                        term@.grid(),
                        term@.scroll_offset,
                        selection,
                    ),
                    ..old(self)@.frame
                },
                ..old(self)@
            }),
    {
        let sel = match selection {
            Some(s) => s,
            None => {
                assert(self.bg@ =~= old(self).bg@ + Seq::<Quad>::empty());
                return ;
            },
        };
        let (first, last) = if sel.start.row < sel.end.row || (sel.start.row == sel.end.row
            && sel.start.col <= sel.end.col) {
            (sel.start, sel.end)
        } else {
            (sel.end, sel.start)
        };
        let grid = term.grid();
        let offset = term.scroll_offset();
        let cols = grid.cols();
        let color = Rgba(120, 120, 120, 128);
        let mut bg: Vec<Quad> = Vec::new();
        std::mem::swap(&mut self.bg, &mut bg);
        let ghost base = bg@;
        let ghost g = grid@;
        let mut y: usize = first.row;
        assert(bg@ =~= base + selection_rows(g, offset as nat, first, last, y as int));
        loop
            invariant_except_break
                first.row <= y <= last.row,
                bg@ == base + selection_rows(g, offset as nat, first, last, y as int),
            invariant
                grid.wf(),
                g == grid@,
                cols == g.cols,
                color == selection_color(),
                first.row <= last.row,
            ensures
                bg@ == base + selection_rows(g, offset as nat, first, last, last.row + 1),
            decreases last.row - y,
        {
            let ghost before = bg@;
            if grid.get_display_row(y, offset).is_some() {
                let from = if y == first.row {
                    first.col
                } else {
                    0
                };
                let to = if y == last.row {
                    last.col
                } else {
                    cols
                };
                append_span(&mut bg, from, to, y, color);
            }
            assert(bg@ =~= base + selection_rows(g, offset as nat, first, last, y + 1));
            if y == last.row {
                break ;
            }
            y += 1;
        }
        self.bg = bg;
    }

    /// Prepares the decorations of a frame of `rows` screen rows: the three
    /// lists are built anew from the rows shown, through the row caches, and
    /// the selection is laid over the backgrounds.
    pub fn prepare_decorations(&mut self, term: &TerminalState, selection: Option<Selection>, hovered: Option<u32>, rows: usize)
        requires
            term.wf(),
        ensures
            final(self)@ == (BuilderModel {
                frame: prepared(
                    old(self)@.frame.caches,
                    term@,
                    selection,
                    hovered,
                    rows as nat,
                    old(self)@.colors,
                ),
                ..old(self)@
            }),
    {
        self.bg.clear();
        self.underline.clear();
        self.undercurl.clear();
        let grid = term.grid();
        let offset = term.scroll_offset();
        let show_cursor = term.cursor_visible() && offset == 0;
        let cur_x = grid.cur_x();
        let cur_y = grid.cur_y();
        let bypass = grid.full_redraw_needed();
        let ghost start = self@.frame;
        let ghost t = term@;
        let mut y: usize = 0;
        while y < rows
            invariant
                y <= rows,
                grid.wf(),
                grid@ == t.grid(),
                offset == t.scroll_offset,
                show_cursor == (t.cursor_visible && t.scroll_offset == 0),
                cur_x == t.grid().cur_x,
                cur_y == t.grid().cur_y,
                bypass == t.grid().full_redraw_needed,
                self@.colors == old(self)@.colors,
                self@.last_scroll_offset == old(self)@.last_scroll_offset,
                self@.last_selection == old(self)@.last_selection,
                self@.last_hovered_link == old(self)@.last_hovered_link,
                self@.decorations_dirty == old(self)@.decorations_dirty,
                self@.frame == add_rows(start, t, y as int, hovered, self@.colors),
            decreases rows - y,
        {
            match grid.get_display_row(y, offset) {
                Some(row) => {
                    let cursor = if show_cursor && y == cur_y {
                        Some(cur_x)
                    } else {
                        None
                    };
                    self.add_row(&row.cells, y, cursor, hovered, bypass);
                },
                None => {},
            }
            y += 1;
        }
        self.add_selection(term, selection);
    }

    /// Brings the decorations up to date for a frame of `rows` screen rows.
    /// They are prepared again where [`needs_update`] says so, and kept
    /// otherwise. The builder then remembers the scroll offset, the
    /// selection and the link under the pointer of this frame. The result
    /// tells whether the decorations were prepared.
    pub fn update(&mut self, term: &TerminalState, selection: Option<Selection>, hovered: Option<u32>, rows: usize) -> (updated:
        bool)
        requires
            term.wf(),
        ensures
            updated == needs_update(old(self)@, term@, selection, hovered),
            final(self)@ == (BuilderModel {
                colors: old(self)@.colors,
                frame: if updated {
                    prepared(
                        old(self)@.frame.caches,
                        term@,
                        selection,
                        hovered,
                        rows as nat,
                        old(self)@.colors,
                    )
                } else {
                    old(self)@.frame
                },
                last_scroll_offset: term@.scroll_offset,
                last_selection: selection,
                last_hovered_link: hovered,
                decorations_dirty: false,
            }),
    {
        let updated = self.needs_update(term, selection, hovered);
        if updated {
            self.prepare_decorations(term, selection, hovered, rows);
            self.decorations_dirty = false;
        }
        self.last_scroll_offset = term.scroll_offset();
        self.last_selection = selection;
        self.last_hovered_link = hovered;
        updated
    }
}

} // verus!
