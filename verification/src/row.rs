//! A row of the screen: its cells, its dirty flag and the cache of its shaped
//! text.

use vstd::prelude::*;
use crate::cell::{blank_cell, blank_cell_spec, Cell, Rgb};

verus! {

/// One attribute span of a shaped row: the cells `start..end`, drawn in `fg`
/// in the primary font, or in a fallback font where `fallback` is set.
#[derive(Debug, Clone, Copy, PartialEq, Eq, Structural)]
pub struct StyleRun {
    pub start: usize,
    pub end: usize,
    pub fg: Rgb,
    pub bold: bool,
    pub italic: bool,
    pub fallback: bool,
}

/// The shaped form of a row: its text and the attribute spans over it, with a
/// span boundary wherever the style changes and nowhere else.
#[derive(Debug, Clone, PartialEq, Eq)]
pub struct ShapedRow {
    pub text: Vec<char>,
    pub runs: Vec<StyleRun>,
}

/// Mathematical value of a [`ShapedRow`].
pub struct ShapedModel {
    pub text: Seq<char>,
    pub runs: Seq<StyleRun>,
}

impl View for ShapedRow {
    type V = ShapedModel;

    open spec fn view(&self) -> ShapedModel {
        ShapedModel { text: self.text@, runs: self.runs@ }
    }
}

/// A row of cells. `is_dirty` asks for the row to be shaped again;
/// `shaped_cache` holds the last shaped form, and is emptied whenever the
/// cells change.
#[derive(Debug, Clone, Default)]
pub struct Row {
    pub cells: Vec<Cell>,
    pub is_dirty: bool,
    pub shaped_cache: Option<ShapedRow>,
}

/// Mathematical value of a [`Row`].
pub struct RowModel {
    pub cells: Seq<Cell>,
    pub is_dirty: bool,
    pub shaped: Option<ShapedModel>,
}

impl View for Row {
    type V = RowModel;

    open spec fn view(&self) -> RowModel {
        RowModel {
            cells: self.cells@,
            is_dirty: self.is_dirty,
            shaped: match self.shaped_cache {
                Some(s) => Some(s@),
                None => None,
            },
        }
    }
}

/// `n` blank cells in the given colours.
pub open spec fn blank_cells(n: nat, fg: Rgb, bg: Rgb) -> Seq<Cell> {
    Seq::new(n, |i: int| blank_cell_spec(fg, bg))
}

impl RowModel {
    /// A fresh row of `cols` blank cells. It is dirty and has no shaped form.
    pub open spec fn blank(cols: nat, fg: Rgb, bg: Rgb) -> RowModel {
        RowModel { cells: blank_cells(cols, fg, bg), is_dirty: true, shaped: None }
    }

    /// The row marked dirty, its cells untouched.
    pub open spec fn touch(self) -> RowModel {
        RowModel { is_dirty: true, ..self }
    }

    /// The row with new cells: dirty, and with its shaped form dropped.
    pub open spec fn with_cells(self, cells: Seq<Cell>) -> RowModel {
        RowModel { cells, is_dirty: true, shaped: None }
    }

    /// The row after one cell was written.
    pub open spec fn write(self, x: int, cell: Cell) -> RowModel {
        self.with_cells(self.cells.update(x, cell))
    }

    /// The row with its dirty flag cleared.
    pub open spec fn clean(self) -> RowModel {
        RowModel { is_dirty: false, ..self }
    }

    /// The row after it was shaped: it holds the shaped form and is clean.
    pub open spec fn shaped_as(self, shaped: ShapedModel) -> RowModel {
        RowModel { is_dirty: false, shaped: Some(shaped), ..self }
    }
}

impl Row {
    /// Iterates over the cells from left to right.
    pub fn iter(&self) -> (it: std::slice::Iter<'_, Cell>)
        ensures
            exists|s: &[Cell]|
                s@ == self@.cells && it == #[trigger] vstd::std_specs::slice::spec_slice_iter(s),
    {
        self.cells.as_slice().iter()
    }

    /// Writes one cell, marks the row dirty and drops its shaped form.
    pub fn set_cell(&mut self, x: usize, cell: Cell)
        requires
            x < old(self)@.cells.len(),
        ensures
            final(self)@ == old(self)@.write(x as int, cell),
    {
        self.cells[x] = cell;
        self.is_dirty = true;
        self.shaped_cache = None;
    }
}

/// Builds a row of `cols` blank cells in the given colours.
pub fn blank_row(cols: usize, default_fg: Rgb, default_bg: Rgb) -> (row: Row)
    ensures
        row@ == RowModel::blank(cols as nat, default_fg, default_bg),
{
    let blank = blank_cell(default_fg, default_bg);
    let mut cells: Vec<Cell> = Vec::new();
    let mut i: usize = 0;
    while i < cols
        invariant
            i <= cols,
            blank == blank_cell_spec(default_fg, default_bg),
            cells@ =~= blank_cells(i as nat, default_fg, default_bg),
        decreases cols - i,
    {
        cells.push(blank);
        i += 1;
    }
    Row { cells, is_dirty: true, shaped_cache: None }
}

} // verus!
