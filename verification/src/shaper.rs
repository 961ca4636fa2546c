//! Shaping of dirty rows: the text of a row is cut into runs of equal style,
//! under a budget of rows per frame.

use vstd::prelude::*;
use std::collections::{HashMap, HashSet};
use crate::cell::{Cell, CellFlags, Rgb};
use crate::grid_model::GridModel;
use crate::row::{Row, ShapedModel, ShapedRow, StyleRun};
use crate::terminal::TerminalState;
use crate::terminal_model::TerminalModel;

verus! {

broadcast use vstd::std_specs::hash::group_hash_axioms;

/// Whether the cache marks `c` as missing from the primary font. A character
/// that the cache does not know counts as covered.
pub open spec fn needs_fallback(cache: Map<u32, bool>, c: char) -> bool {
    cache.contains_key(c as u32) && cache[c as u32]
}

/// What decides the style of a cell's glyph. Neighbouring cells with equal
/// keys are shaped as one run.
#[derive(Debug, Clone, Copy, PartialEq, Eq, Structural)]
pub struct RunKey {
    pub fg: Rgb,
    pub bg: Rgb,
    pub flags: CellFlags,
    pub link_id: Option<u32>,
    pub is_cursor: bool,
    pub fallback: bool,
}

/// The key of the cell in column `x`; `cursor` is the cursor's column where
/// the cursor is shown on this row.
pub open spec fn run_key(cells: Seq<Cell>, x: int, cursor: Option<usize>, cache: Map<u32, bool>) -> RunKey {
    RunKey {
        fg: cells[x].fg,
        bg: cells[x].bg,
        flags: cells[x].flags,
        link_id: cells[x].link_id,
        is_cursor: cursor == Some(x as usize),
        fallback: needs_fallback(cache, cells[x].ch),
    }
}

/// The run over the cells `start..end`, styled after the cell at `start`.
/// The cell under the cursor is drawn in its background colour, so that it
/// shows on the cursor block.
pub open spec fn run_of(key: RunKey, start: int, end: int) -> StyleRun {
    StyleRun {
        start: start as usize,
        end: end as usize,
        fg: if key.is_cursor {
            key.bg
        } else {
            key.fg
        },
        bold: key.flags.has(CellFlags::BOLD),
        italic: key.flags.has(CellFlags::ITALIC),
        fallback: key.fallback,
    }
}

/// The runs of the first `n` cells: each run is a longest stretch of cells
/// with equal keys.
pub open spec fn coalesce(cells: Seq<Cell>, n: int, cursor: Option<usize>, cache: Map<u32, bool>) -> Seq<
    StyleRun,
>
    decreases n,
{
    if n <= 0 {
        Seq::empty()
    } else if n == 1 {
        seq![run_of(run_key(cells, 0, cursor, cache), 0, 1)]
    } else {
        let before = coalesce(cells, n - 1, cursor, cache);
        let key = run_key(cells, n - 1, cursor, cache);
        if key == run_key(cells, n - 2, cursor, cache) {
            before.drop_last().push(run_of(key, before.last().start as int, n))
        } else {
            before.push(run_of(key, n - 1, n))
        }
    }
}

/// The characters of a row of cells.
pub open spec fn row_text(cells: Seq<Cell>) -> Seq<char> {
    Seq::new(cells.len(), |i: int| cells[i].ch)
}

/// The shaped form of a row of cells.
pub open spec fn shape_cells(cells: Seq<Cell>, cursor: Option<usize>, cache: Map<u32, bool>) -> ShapedModel {
    ShapedModel { text: row_text(cells), runs: coalesce(cells, cells.len() as int, cursor, cache) }
}

/// The cursor's column, where the cursor is shown on the row at index `i`
/// of the active grid: the cursor is visible, the view is live, and the row
/// is the cursor's.
pub open spec fn cursor_on_line(t: TerminalModel, i: int) -> Option<usize> {
    let g = t.grid();
    if t.cursor_visible && t.scroll_offset == 0 && i == g.line_index(g.cur_y) {
        Some(g.cur_x as usize)
    } else {
        None
    }
}

/// Index of the first row that shaping looks at: the row at the top of the
/// view.
pub open spec fn first_line(t: TerminalModel) -> int {
    t.grid().display_index(0, t.scroll_offset)
}

/// The active grid after the dirty rows from index `i` on were shaped, at
/// most `budget` of them, and whether a dirty row was left for want of
/// budget.
pub open spec fn shape_from(t: TerminalModel, g: GridModel, i: int, budget: nat, cache: Map<u32, bool>) -> (
    GridModel,
    bool,
)
    decreases g.lines.len() - i,
{
    if i < 0 || i >= g.lines.len() {
        (g, false)
    } else if !g.lines[i].is_dirty {
        shape_from(t, g, i + 1, budget, cache)
    } else if budget == 0 {
        (g, true)
    } else {
        shape_from(
            t,
            g.with_line_shaped(i, shape_cells(g.lines[i].cells, cursor_on_line(t, i), cache)),
            i + 1,
            (budget - 1) as nat,
            cache,
        )
    }
}

/// Whether the coverage of `c` has to be asked for: it is not a space, the
/// cache does not know it, and it is not among the characters `seen`.
pub open spec fn wants_lookup(cache: Map<u32, bool>, seen: Seq<char>, c: char) -> bool {
    c != ' ' && !cache.contains_key(c as u32) && !seen.contains(c)
}

/// `acc`, followed by the characters of the first `n` cells whose coverage
/// has to be asked for, each once, in the order of their first occurrence.
pub open spec fn unknown_in_row(cells: Seq<Cell>, n: int, cache: Map<u32, bool>, acc: Seq<char>) -> Seq<
    char,
>
    decreases n,
{
    if n <= 0 {
        acc
    } else {
        let before = unknown_in_row(cells, n - 1, cache, acc);
        if wants_lookup(cache, before, cells[n - 1].ch) {
            before.push(cells[n - 1].ch)
        } else {
            before
        }
    }
}

/// `acc`, followed by the characters whose coverage has to be asked for
/// before the dirty rows from index `i` on, at most `budget` of them, can be
/// shaped.
pub open spec fn unknown_from(g: GridModel, i: int, budget: nat, cache: Map<u32, bool>, acc: Seq<char>) -> Seq<
    char,
>
    decreases g.lines.len() - i,
{
    if i < 0 || i >= g.lines.len() {
        acc
    } else if !g.lines[i].is_dirty {
        unknown_from(g, i + 1, budget, cache, acc)
    } else if budget == 0 {
        acc
    } else {
        unknown_from(
            g,
            i + 1,
            (budget - 1) as nat,
            cache,
            unknown_in_row(g.lines[i].cells, g.lines[i].cells.len() as int, cache, acc),
        )
    }
}

/// Whether `codes` holds the code points of the characters of `chars`, and
/// no others.
pub open spec fn codes_of(codes: Set<u32>, chars: Seq<char>) -> bool {
    forall|c: char| codes.contains(c as u32) <==> chars.contains(c)
}

/// A set of code points that stands for a sequence of characters stands for
/// it still after one more character was added to both.
proof fn lemma_codes_push(codes: Set<u32>, chars: Seq<char>, c: char)
    requires
        codes_of(codes, chars),
    ensures
        codes_of(codes.insert(c as u32), chars.push(c)),
{
    let more = chars.push(c);
    assert forall|d: char| codes.insert(c as u32).contains(d as u32) <==> more.contains(d) by {
        if d == c {
            assert(more[chars.len() as int] == c);
        } else {
            assert(d as u32 != c as u32) by {
                vstd::utf8::char_u32_cast(d, d as u32);
                vstd::utf8::char_u32_cast(c, c as u32);
            }
            if chars.contains(d) {
                let i = choose|i: int| 0 <= i < chars.len() && chars[i] == d;
                assert(more[i] == d);
            }
            if more.contains(d) {
                let i = choose|i: int| 0 <= i < more.len() && more[i] == d;
                assert(chars[i] == d);
            }
        }
    }
}

/// The runs of a row tile it: the first starts at the first cell, each
/// starts where the one before it ends, the last ends at the last cell, and
/// none is empty. The cells of a run have equal keys, each run is styled
/// after them, and the key changes from each run to the next.
pub proof fn law_runs_tile_the_row(cells: Seq<Cell>, n: int, cursor: Option<usize>, cache: Map<u32, bool>)
    requires
        0 < n <= cells.len(),
        n <= usize::MAX,
    ensures
        ({
            let runs = coalesce(cells, n, cursor, cache);
            &&& runs.len() > 0
            &&& runs[0].start == 0
            &&& runs.last().end == n
            &&& forall|k: int| 0 <= k < runs.len() ==> (#[trigger] runs[k]).start < runs[k].end
            &&& forall|k: int|
                0 <= k < runs.len() - 1 ==> (#[trigger] runs[k]).end == runs[k + 1].start
            &&& forall|k: int, x: int|
                0 <= k < runs.len() && runs[k].start <= x < runs[k].end ==> #[trigger] run_key(
                    cells,
                    x,
                    cursor,
                    cache,
                ) == run_key(cells, (#[trigger] runs[k]).start as int, cursor, cache)
            &&& forall|k: int|
                0 <= k < runs.len() ==> #[trigger] runs[k] == run_of(
                    run_key(cells, runs[k].start as int, cursor, cache),
                    runs[k].start as int,
                    runs[k].end as int,
                )
            &&& forall|k: int|
                0 <= k < runs.len() - 1 ==> run_key(
                    cells,
                    (#[trigger] runs[k]).end - 1,
                    cursor,
                    cache,
                ) != run_key(cells, runs[k].end as int, cursor, cache)
        }),
    decreases n,
{
    if n > 1 {
        law_runs_tile_the_row(cells, n - 1, cursor, cache);
        let before = coalesce(cells, n - 1, cursor, cache);
        let runs = coalesce(cells, n, cursor, cache);
        let key = run_key(cells, n - 1, cursor, cache);
        if key == run_key(cells, n - 2, cursor, cache) {
            assert forall|k: int| 0 <= k < runs.len() - 1 implies (#[trigger] runs[k]) == before[k] by {}
            assert(runs.last().start == before.last().start);
        } else {
            assert forall|k: int| 0 <= k < runs.len() - 1 implies (#[trigger] runs[k]) == before[k] by {}
        }
    }
}

/// Shaping from row `i` on keeps the number of rows, their cells and the
/// rows before `i`; it cleans at most `budget` rows and dirties none; and when
/// it reports no work left, no row from `i` on is dirty.
pub proof fn law_shaping_within_budget(t: TerminalModel, g: GridModel, i: int, budget: nat, cache: Map<u32, bool>)
    requires
        0 <= i,
    ensures
        ({
            let (after, more) = shape_from(t, g, i, budget, cache);
            &&& after.lines.len() == g.lines.len()
            &&& after == g.with_lines(after.lines)
            &&& forall|j: int| 0 <= j < i && j < g.lines.len() ==> after.lines[j] == g.lines[j]
            &&& forall|j: int|
                0 <= j < g.lines.len() ==> (#[trigger] after.lines[j]).cells == g.lines[j].cells
            &&& forall|j: int|
                0 <= j < g.lines.len() && (#[trigger] after.lines[j]).is_dirty ==> after.lines[j]
                    == g.lines[j]
            &&& cleaned(g.lines, after.lines, g.lines.len() as int) <= budget
            &&& (!more ==> forall|j: int|
                i <= j < g.lines.len() ==> !(#[trigger] after.lines[j]).is_dirty)
            &&& (more ==> cleaned(g.lines, after.lines, g.lines.len() as int) == budget)
        }),
    decreases g.lines.len() - i,
{
    let (after, more) = shape_from(t, g, i, budget, cache);
    if i >= g.lines.len() {
        lemma_cleaned_none(g.lines, g.lines.len() as int);
    } else if !g.lines[i].is_dirty {
        law_shaping_within_budget(t, g, i + 1, budget, cache);
    } else if budget == 0 {
        lemma_cleaned_none(g.lines, g.lines.len() as int);
    } else {
        let shaped = shape_cells(g.lines[i].cells, cursor_on_line(t, i), cache);
        let next = g.with_line_shaped(i, shaped);
        law_shaping_within_budget(t, next, i + 1, (budget - 1) as nat, cache);
        assert forall|j: int| 0 <= j < g.lines.len() && j != i implies next.lines[j]
            == g.lines[j] by {}
        assert(!after.lines[i].is_dirty);
        lemma_cleaned_step(g.lines, next.lines, after.lines, i, g.lines.len() as int);
    }
}

/// Number of rows among the first `n` that are dirty in `before` and clean
/// in `after`.
pub open spec fn cleaned(before: Seq<crate::row::RowModel>, after: Seq<crate::row::RowModel>, n: int) -> nat
    decreases n,
{
    if n <= 0 {
        0
    } else {
        cleaned(before, after, n - 1) + if before[n - 1].is_dirty && !after[n - 1].is_dirty {
            1nat
        } else {
            0nat
        }
    }
}

/// Between equal rows nothing was cleaned.
proof fn lemma_cleaned_none(rows: Seq<crate::row::RowModel>, n: int)
    ensures
        cleaned(rows, rows, n) == 0,
    decreases n,
{
    if n > 0 {
        lemma_cleaned_none(rows, n - 1);
    }
}

/// Where `mid` differs from `before` in row `i` alone, which it cleans, and
/// `after` keeps row `i` clean, `after` has one more row cleaned against
/// `before` than against `mid`.
proof fn lemma_cleaned_step(
    before: Seq<crate::row::RowModel>,
    mid: Seq<crate::row::RowModel>,
    after: Seq<crate::row::RowModel>,
    i: int,
    n: int,
)
    requires
        0 <= i < before.len(),
        before.len() == mid.len() == after.len(),
        0 <= n <= before.len(),
        before[i].is_dirty,
        !mid[i].is_dirty,
        !after[i].is_dirty,
        forall|j: int| 0 <= j < before.len() && j != i ==> mid[j] == before[j],
    ensures
        cleaned(before, after, n) == cleaned(mid, after, n) + if i < n {
            1nat
        } else {
            0nat
        },
    decreases n,
{
    if n > 0 {
        lemma_cleaned_step(before, mid, after, i, n - 1);
    }
}

/// Cuts a row into runs of equal style.
pub fn shape_row(row: &Row, cursor: Option<usize>, cache: &HashMap<u32, bool>) -> (shaped: ShapedRow)
    ensures
        shaped@ == shape_cells(row@.cells, cursor, cache@),
{
    let n = row.cells.len();
    let mut text: Vec<char> = Vec::new();
    let mut runs: Vec<StyleRun> = Vec::new();
    let mut i: usize = 0;
    let mut prev_key: Option<RunKey> = None;
    while i < n
        invariant
            i <= n,
            n == row@.cells.len(),
            text@ =~= row_text(row@.cells).subrange(0, i as int),
            runs@ == coalesce(row@.cells, i as int, cursor, cache@),
            i == 0 ==> prev_key is None,
            i > 0 ==> prev_key == Some(run_key(row@.cells, i - 1, cursor, cache@)) && runs@.len() > 0,
        decreases n - i,
    {
        let cell = row.cells[i];
        let fallback = match cache.get(&(cell.ch as u32)) {
            Some(b) => *b,
            None => false,
        };
        let key = RunKey {
            fg: cell.fg,
            bg: cell.bg,
            flags: cell.flags,
            link_id: cell.link_id,
            is_cursor: match cursor {
                Some(x) => x == i,
                None => false,
            },
            fallback,
        };
        assert(key == run_key(row@.cells, i as int, cursor, cache@));
        let fg = if key.is_cursor {
            key.bg
        } else {
            key.fg
        };
        let bold = key.flags.contains(CellFlags::BOLD);
        let italic = key.flags.contains(CellFlags::ITALIC);
        let same = match prev_key {
            Some(p) => p == key,
            None => false,
        };
        if same {
            let last = runs.pop().unwrap();
            runs.push(StyleRun { start: last.start, end: i + 1, fg, bold, italic, fallback });
        } else {
            runs.push(StyleRun { start: i, end: i + 1, fg, bold, italic, fallback });
        }
        text.push(cell.ch);
        prev_key = Some(key);
        i += 1;
    }
    assert(text@ =~= row_text(row@.cells));
    ShapedRow { text, runs }
}

/// Shapes rows, and remembers which characters the primary font lacks.
pub struct Shaper {
    /// For each character seen, by code point: whether it needs a fallback
    /// font.
    fallback: HashMap<u32, bool>,
}

impl View for Shaper {
    type V = Map<u32, bool>;

    closed spec fn view(&self) -> Map<u32, bool> {
        self.fallback@
    }
}

impl Shaper {
    /// A shaper that has seen no character yet.
    pub fn new() -> (s: Shaper)
        ensures
            s@ == Map::<u32, bool>::empty(),
    {
        Shaper { fallback: HashMap::new() }
    }

    /// Whether the coverage of `c` was recorded.
    pub fn knows(&self, c: char) -> (r: bool)
        ensures
            r == self@.contains_key(c as u32),
    {
        self.fallback.contains_key(&(c as u32))
    }

    /// Whether `c` is known to need a fallback font.
    pub fn needs_fallback(&self, c: char) -> (r: bool)
        ensures
            r == needs_fallback(self@, c),
    {
        match self.fallback.get(&(c as u32)) {
            Some(b) => *b,
            None => false,
        }
    }

    /// Records whether `c` needs a fallback font.
    pub fn record_coverage(&mut self, c: char, needs: bool)
        ensures
            final(self)@ == old(self)@.insert(c as u32, needs),
    {
        self.fallback.insert(c as u32, needs);
    }

    /// The characters whose coverage by the primary font has to be recorded
    /// before [`Shaper::shape_budgeted`] is called with the same budget: the
    /// characters of the rows that it will shape, without spaces and without
    /// those already known, each once.
    pub fn unknown_chars(&self, term: &TerminalState, line_budget: usize) -> (chars: Vec<char>)
        requires
            term.wf(),
        ensures
            chars@ == unknown_from(
                term@.grid(),
                first_line(term@),
                line_budget as nat,
                self@,
                Seq::empty(),
            ),
    {
        let grid = term.grid();
        let offset = term.scroll_offset();
        let sb = grid.scrollback_len();
        let start = if offset >= sb {
            0
        } else {
            sb - offset
        };
        let total = grid.total_lines();
        let mut chars: Vec<char> = Vec::new();
        let mut seen: HashSet<u32> = HashSet::new();
        let mut left = line_budget;
        let mut i: usize = start;
        while i < total
            invariant_except_break
                unknown_from(grid@, i as int, left as nat, self@, chars@) == unknown_from(
                    grid@,
                    start as int,
                    line_budget as nat,
                    self@,
                    Seq::empty(),
                ),
            invariant
                start <= i <= total,
                total == grid@.lines.len(),
                codes_of(seen@, chars@),
            ensures
                chars@ == unknown_from(
                    grid@,
                    start as int,
                    line_budget as nat,
                    self@,
                    Seq::empty(),
                ),
            decreases total - i,
        {
            match grid.line(i) {
                Some(row) => {
                    if row.is_dirty {
                        if left == 0 {
                            break ;
                        }
                        let n = row.cells.len();
                        let ghost acc = chars@;
                        let mut x: usize = 0;
                        while x < n
                            invariant
                                x <= n,
                                n == row@.cells.len(),
                                codes_of(seen@, chars@),
                                chars@ == unknown_in_row(row@.cells, x as int, self@, acc),
                            decreases n - x,
                        {
                            let c = row.cells[x].ch;
                            if c != ' ' && !self.fallback.contains_key(&(c as u32)) && !seen.contains(
                                &(c as u32),
                            ) {
                                proof {
                                    lemma_codes_push(seen@, chars@, c);
                                }
                                chars.push(c);
                                seen.insert(c as u32);
                            }
                            x += 1;
                        }
                        left -= 1;
                    }
                },
                None => {},
            }
            i += 1;
        }
        chars
    }

    /// Shapes the dirty rows of the active grid from the top of the view
    /// down to the last row, at most `line_budget` of them. Each row shaped
    /// gets its shaped form and is marked clean. The result tells whether a
    /// dirty row was left unshaped because the budget ran out.
    pub fn shape_budgeted(&self, term: &mut TerminalState, line_budget: usize) -> (more: bool)
        requires
            old(term).wf(),
        ensures
            final(term).wf(),
            final(term)@ == old(term)@.with_grid(
                shape_from(
                    old(term)@,
                    old(term)@.grid(),
                    first_line(old(term)@),
                    line_budget as nat,
                    self@,
                ).0,
            ),
            more == shape_from(
                old(term)@,
                old(term)@.grid(),
                first_line(old(term)@),
                line_budget as nat,
                self@,
            ).1,
    {
        let cursor_visible = term.cursor_visible();
        let offset = term.scroll_offset();
        let ghost t = term@;
        let grid = term.grid_mut();
        let sb = grid.scrollback_len();
        let start = if offset >= sb {
            0
        } else {
            sb - offset
        };
        let cursor_line = sb + grid.cur_y();
        let cur_x = grid.cur_x();
        let total = grid.total_lines();
        let mut left = line_budget;
        let mut i: usize = start;
        let mut more = false;
        while i < total
            invariant_except_break
                !more,
                shape_from(t, grid@, i as int, left as nat, self@) == shape_from(
                    t,
                    t.grid(),
                    first_line(t),
                    line_budget as nat,
                    self@,
                ),
            invariant
                start <= i <= total,
                grid.wf(),
                total == grid@.lines.len(),
                sb == t.grid().scrollback_len(),
                cursor_line == t.grid().line_index(t.grid().cur_y),
                cur_x == t.grid().cur_x,
                cursor_visible == t.cursor_visible,
                offset == t.scroll_offset,
            ensures
                grid.wf(),
                (grid@, more) == shape_from(t, t.grid(), first_line(t), line_budget as nat, self@),
            decreases total - i,
        {
            let dirty = match grid.line(i) {
                Some(row) => row.is_dirty,
                None => false,
            };
            if dirty {
                if left == 0 {
                    more = true;
                    break ;
                }
                let cursor = if cursor_visible && offset == 0 && i == cursor_line {
                    Some(cur_x)
                } else {
                    None
                };
                assert(cursor == cursor_on_line(t, i as int));
                let shaped = match grid.line(i) {
                    Some(row) => shape_row(row, cursor, &self.fallback),
                    None => ShapedRow { text: Vec::new(), runs: Vec::new() },
                };
                grid.set_line_shaped(i, shaped);
                left -= 1;
            }
            i += 1;
        }
        more
    }
}

} // verus!
