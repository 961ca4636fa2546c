//! The frame pipeline: the buffer of bytes that wait to be parsed, the
//! budgeted feeding of the terminal, the selection and the link under the
//! pointer.

use vstd::prelude::*;
use std::collections::VecDeque;
use crate::cell::Cell;
use crate::frame::{normalized, selected_span, GridPos, Selection};
use crate::grid_model::GridModel;
use crate::terminal::TerminalState;
use crate::terminal_model::{parser_fed, TerminalModel};

verus! {

/// Milliseconds of a frame that may go into parsing.
pub const PROCESSING_BUDGET_MS: u128 = 12;

/// Largest number of bytes handed to the parser at once.
pub const PARSE_CHUNK_SIZE: usize = 65_536;

/// Largest number of rows shaped in one frame.
pub const SHAPE_LINE_BUDGET: usize = 400;

/// What wakes the event loop from outside: bytes arrived from the PTY.
#[derive(Debug, Clone, Copy)]
pub enum CustomEvent {
    PtyData,
}

/// A point in time: a declared type of the standard library.
#[verifier::external_type_specification]
#[verifier::external_body]
pub struct ExInstant(std::time::Instant);

/// The time that has passed since `start`.
///
/// Trusted: this is `Instant::elapsed`. The result depends on the clock, so
/// nothing is claimed of it.
#[verifier::external_body]
fn time_since(start: &std::time::Instant) -> (elapsed: std::time::Duration) {
    start.elapsed()
}

/// A span of time in whole milliseconds.
///
/// Trusted: this is `Duration::as_millis`. Nothing is claimed of the number.
#[verifier::external_body]
fn whole_millis(span: &std::time::Duration) -> (ms: u128) {
    span.as_millis()
}

/// Whether `c` is white space: a character with the Unicode property
/// White_Space.
pub open spec fn is_whitespace_spec(c: char) -> bool {
    let v = c as u32;
    (0x09 <= v && v <= 0x0D) || v == 0x20 || v == 0x85 || v == 0xA0 || v == 0x1680 || (0x2000 <= v
        && v <= 0x200A) || v == 0x2028 || v == 0x2029 || v == 0x202F || v == 0x205F || v == 0x3000
}

/// Whether `c` is white space.
pub fn is_whitespace(c: char) -> (r: bool)
    ensures
        r == is_whitespace_spec(c),
{
    let v = c as u32;
    (0x09 <= v && v <= 0x0D) || v == 0x20 || v == 0x85 || v == 0xA0 || v == 0x1680 || (0x2000 <= v
        && v <= 0x200A) || v == 0x2028 || v == 0x2029 || v == 0x202F || v == 0x205F || v == 0x3000
}

/// Length of `text` without the white space at its end.
pub open spec fn trimmed_len(text: Seq<char>) -> nat
    decreases text.len(),
{
    if text.len() == 0 {
        0
    } else if is_whitespace_spec(text.last()) {
        trimmed_len(text.drop_last())
    } else {
        text.len()
    }
}

/// The characters of the cells in columns `from..to`, as far as the row
/// has them.
pub open spec fn slice_text(cells: Seq<Cell>, from: int, to: int) -> Seq<char> {
    let end = if to < cells.len() {
        to
    } else {
        cells.len() as int
    };
    if 0 <= from < end {
        Seq::new((end - from) as nat, |k: int| cells[from + k].ch)
    } else {
        Seq::empty()
    }
}

/// `text`, without the white space at its end where `trim` is set.
pub open spec fn kept_text(text: Seq<char>, trim: bool) -> Seq<char> {
    if trim {
        text.subrange(0, trimmed_len(text) as int)
    } else {
        text
    }
}

/// The selected text of the rows `first.row..y_end`. Each row after the
/// first begins on a new line. All rows but the last lose the white space at
/// their end. Rows that the grid does not hold at this scroll offset are
/// empty.
pub open spec fn selected_rows(g: GridModel, offset: nat, first: GridPos, last: GridPos, y_end: int) -> Seq<
    char,
>
    decreases y_end - first.row,
{
    if y_end <= first.row {
        Seq::empty()
    } else {
        let y = y_end - 1;
        let before = selected_rows(g, offset, first, last, y);
        let opened = if y > first.row {
            before.push('\n')
        } else {
            before
        };
        let i = g.display_index(y as nat, offset);
        if i < g.lines.len() {
            let (from, to) = selected_span(first, last, y, g.cols);
            opened + kept_text(slice_text(g.lines[i].cells, from, to), y < last.row)
        } else {
            opened
        }
    }
}

/// The text of a selection on the active screen, or none where there is no
/// selection or the text is empty.
pub open spec fn selected_text_spec(t: TerminalModel, sel: Option<Selection>) -> Option<Seq<char>> {
    match sel {
        Some(s) => {
            let (first, last) = normalized(s);
            let text = selected_rows(t.grid(), t.scroll_offset, first, last, last.row + 1);
            if text.len() == 0 {
                None
            } else {
                Some(text)
            }
        },
        None => None,
    }
}

/// Appends the characters of the cells in columns `from..to`, without the
/// white space at their end where `trim` is set.
fn push_slice(out: &mut Vec<char>, cells: &Vec<Cell>, from: usize, to: usize, trim: bool)
    ensures
        final(out)@ == old(out)@ + kept_text(slice_text(cells@, from as int, to as int), trim),
{
    let end = if to < cells.len() {
        to
    } else {
        cells.len()
    };
    let ghost text = slice_text(cells@, from as int, to as int);
    if from >= end {
        assert(text.len() == 0);
        assert(out@ =~= old(out)@ + kept_text(text, trim));
        return ;
    }
    let mut stop = end;
    if trim {
        assert(text.subrange(0, end - from) =~= text);
        while stop > from && is_whitespace(cells[stop - 1].ch)
            invariant
                from <= stop <= end,
                end <= cells@.len(),
                text == slice_text(cells@, from as int, to as int),
                text.len() == end - from,
                trimmed_len(text) == trimmed_len(text.subrange(0, stop - from)),
            decreases stop,
        {
            proof {
                let part = text.subrange(0, stop - from);
                assert(part.last() == cells@[stop - 1].ch);
                assert(part.drop_last() =~= text.subrange(0, stop - 1 - from));
            }
            stop -= 1;
        }
        proof {
            let part = text.subrange(0, stop - from);
            if stop > from {
                assert(part.last() == cells@[stop - 1].ch);
            }
            assert(trimmed_len(part) == part.len());
        }
    }
    let mut x: usize = from;
    while x < stop
        invariant
            from <= x <= stop <= end,
            end <= cells@.len(),
            text == slice_text(cells@, from as int, to as int),
            text.len() == end - from,
            out@ =~= old(out)@ + text.subrange(0, x - from),
        decreases stop - x,
    {
        out.push(cells[x].ch);
        x += 1;
    }
    proof {
        if !trim {
            assert(text.subrange(0, end - from) =~= text);
        }
    }
}

/// The text of a selection on the active screen.
pub fn selected_text(term: &TerminalState, selection: Option<Selection>) -> (text: Option<Vec<char>>)
    requires
        term.wf(),
    ensures
        match text {
            Some(chars) => selected_text_spec(term@, selection) == Some(chars@),
            None => selected_text_spec(term@, selection) is None,
        },
{
    let sel = match selection {
        Some(s) => s,
        None => {
            return None;
        },
    };
    let (first, last) = if sel.start.row < sel.end.row || (sel.start.row == sel.end.row
        && sel.start.col <= sel.end.col) {
        (sel.start, sel.end)
    } else {
        (sel.end, sel.start)
    };
    let grid = term.grid();
    let offset = term.scroll_offset();
    let cols = grid.cols();
    let ghost g = grid@;
    let mut result: Vec<char> = Vec::new();
    let mut y: usize = first.row;
    loop
        invariant_except_break
            first.row <= y <= last.row,
            result@ == selected_rows(g, offset as nat, first, last, y as int),
        invariant
            grid.wf(),
            g == grid@,
            cols == g.cols,
            first.row <= last.row,
        ensures
            result@ == selected_rows(g, offset as nat, first, last, last.row + 1),
        decreases last.row - y,
    {
        if y > first.row {
            result.push('\n');
        }
        match grid.get_display_row(y, offset) {
            Some(row) => {
                let from = if y == first.row {
                    first.col
                } else {
                    0
                };
                let to = if y == last.row {
                    last.col
                } else {
                    cols
                };
                push_slice(&mut result, &row.cells, from, to, y < last.row);
            },
            None => {},
        }
        if y == last.row {
            break ;
        }
        y += 1;
    }
    if result.len() == 0 {
        None
    } else {
        Some(result)
    }
}

/// Whether feeding `chunks` chunks can have taken a buffer from `before`
/// bytes to `after`: every chunk is full, but for the last one where it
/// emptied the buffer.
pub open spec fn fed_bytes(before: nat, after: nat, chunks: nat) -> bool {
    let taken = before - after;
    &&& after <= before
    &&& taken <= chunks * 65_536
    &&& (chunks == 0 ==> taken == 0)
    &&& (chunks > 0 ==> taken > (chunks - 1) * 65_536)
    &&& (after > 0 ==> taken == chunks * 65_536)
}

/// Chunk `k` of a buffer that is cut into chunks of [`PARSE_CHUNK_SIZE`]
/// bytes: all of them full, but for the last.
pub open spec fn chunk_at(buffer: Seq<u8>, k: nat) -> Seq<u8> {
    let start = k * 65_536;
    let end = if start + 65_536 < buffer.len() {
        start + 65_536
    } else {
        buffer.len()
    };
    if start < buffer.len() {
        buffer.subrange(start as int, end as int)
    } else {
        Seq::empty()
    }
}

/// The terminal's value and the parser's state after the first `n` chunks of
/// `buffer` were fed, one after the other, to a terminal of value `t` whose
/// parser is in state `parser`.
pub open spec fn fed_chunks(t: TerminalModel, parser: vte::Parser, buffer: Seq<u8>, n: nat) -> (
    TerminalModel,
    vte::Parser,
)
    decreases n,
{
    if n == 0 {
        (t, parser)
    } else {
        let (before, state) = fed_chunks(t, parser, buffer, (n - 1) as nat);
        let chunk = chunk_at(buffer, (n - 1) as nat);
        (before.fed(state, chunk), parser_fed(state, chunk))
    }
}

/// Value of a frame pipeline.
pub struct PipelineModel {
    pub buffer: Seq<u8>,
    pub hovered_link_id: Option<u32>,
    pub selection_start: Option<GridPos>,
    pub selection_end: Option<GridPos>,
    pub is_mouse_dragging: bool,
}

impl PipelineModel {
    /// The selection, where both of its ends are set.
    pub open spec fn selection(self) -> Option<Selection> {
        match (self.selection_start, self.selection_end) {
            (Some(start), Some(end)) => Some(Selection { start, end }),
            _ => None,
        }
    }

    /// Number of bytes that the next chunk takes from the buffer.
    pub open spec fn chunk_len(self) -> nat {
        if self.buffer.len() < PARSE_CHUNK_SIZE {
            self.buffer.len()
        } else {
            PARSE_CHUNK_SIZE as nat
        }
    }

    /// The bytes that the next chunk takes from the buffer.
    pub open spec fn next_chunk(self) -> Seq<u8> {
        self.buffer.subrange(0, self.chunk_len() as int)
    }

    /// Whether a feeding step at `elapsed_ms` milliseconds into the frame
    /// feeds a chunk: bytes wait and the budget is not used up.
    pub open spec fn feeds_at(self, elapsed_ms: u128) -> bool {
        self.buffer.len() > 0 && elapsed_ms < PROCESSING_BUDGET_MS
    }
}

/// The state that the event loop keeps between frames.
pub struct FramePipeline {
    pty_data_buffer: VecDeque<u8>,
    hovered_link_id: Option<u32>,
    selection_start: Option<GridPos>,
    selection_end: Option<GridPos>,
    is_mouse_dragging: bool,
}

impl View for FramePipeline {
    type V = PipelineModel;

    closed spec fn view(&self) -> PipelineModel {
        PipelineModel {
            buffer: self.pty_data_buffer@,
            hovered_link_id: self.hovered_link_id,
            selection_start: self.selection_start,
            selection_end: self.selection_end,
            is_mouse_dragging: self.is_mouse_dragging,
        }
    }
}

impl FramePipeline {
    /// A pipeline with nothing buffered, nothing selected and nothing under
    /// the pointer.
    pub fn new() -> (p: FramePipeline)
        ensures
            p@ == (PipelineModel {
                buffer: Seq::empty(),
                hovered_link_id: None,
                selection_start: None,
                selection_end: None,
                is_mouse_dragging: false,
            }),
    {
        FramePipeline {
            pty_data_buffer: VecDeque::new(),
            hovered_link_id: None,
            selection_start: None,
            selection_end: None,
            is_mouse_dragging: false,
        }
    }

    /// Appends a batch of bytes from the PTY to the buffer.
    pub fn ingest(&mut self, data: &[u8])
        ensures
            final(self)@ == (PipelineModel { buffer: old(self)@.buffer + data@, ..old(self)@ }),
    {
        let mut i: usize = 0;
        while i < data.len()
            invariant
                i <= data@.len(),
                self@ == (PipelineModel {
                    buffer: old(self)@.buffer + data@.subrange(0, i as int),
                    ..old(self)@
                }),
            decreases data@.len() - i,
        {
            self.pty_data_buffer.push_back(data[i]);
            assert(self@.buffer =~= old(self)@.buffer + data@.subrange(0, i + 1));
            i += 1;
        }
        assert(data@.subrange(0, data@.len() as int) =~= data@);
    }

    /// Number of bytes that wait to be parsed.
    pub fn pending(&self) -> (n: usize)
        ensures
            n == self@.buffer.len(),
    {
        self.pty_data_buffer.len()
    }

    /// The link under the pointer.
    pub fn hovered_link_id(&self) -> (id: Option<u32>)
        ensures
            id == self@.hovered_link_id,
    {
        self.hovered_link_id
    }

    /// Whether a drag is under way.
    pub fn is_mouse_dragging(&self) -> (d: bool)
        ensures
            d == self@.is_mouse_dragging,
    {
        self.is_mouse_dragging
    }

    /// The selection, where there is one.
    pub fn selection(&self) -> (sel: Option<Selection>)
        ensures
            sel == self@.selection(),
    {
        match (self.selection_start, self.selection_end) {
            (Some(start), Some(end)) => Some(Selection { start, end }),
            _ => None,
        }
    }

    /// Takes the next chunk off the front of the buffer: all of it, or the
    /// first [`PARSE_CHUNK_SIZE`] bytes where it is longer.
    pub fn take_chunk(&mut self) -> (chunk: Vec<u8>)
        ensures
            chunk@ == old(self)@.buffer.subrange(0, old(self)@.chunk_len() as int),
            final(self)@ == (PipelineModel {
                buffer: old(self)@.buffer.subrange(
                    old(self)@.chunk_len() as int,
                    old(self)@.buffer.len() as int,
                ),
                ..old(self)@
            }),
    {
        let len = self.pty_data_buffer.len();
        let n = if len < PARSE_CHUNK_SIZE {
            len
        } else {
            PARSE_CHUNK_SIZE
        };
        let mut chunk: Vec<u8> = Vec::new();
        let mut i: usize = 0;
        assert(self@.buffer =~= old(self)@.buffer.subrange(0, old(self)@.buffer.len() as int));
        while i < n
            invariant
                i <= n,
                n == old(self)@.chunk_len(),
                chunk@ == old(self)@.buffer.subrange(0, i as int),
                self@ == (PipelineModel {
                    buffer: old(self)@.buffer.subrange(i as int, old(self)@.buffer.len() as int),
                    ..old(self)@
                }),
            decreases n - i,
        {
            let byte = self.pty_data_buffer.pop_front();
            match byte {
                Some(b) => {
                    chunk.push(b);
                },
                None => {},
            }
            proof {
                assert(chunk@ =~= old(self)@.buffer.subrange(0, i + 1));
                assert(self@.buffer =~= old(self)@.buffer.subrange(
                    i + 1,
                    old(self)@.buffer.len() as int,
                ));
            }
            i += 1;
        }
        chunk
    }

    /// One step of feeding, `elapsed_ms` milliseconds into the frame. While
    /// bytes wait and the budget is not used up, the next chunk is fed to the
    /// terminal, and the result asks for another step. Otherwise nothing
    /// changes.
    pub fn feed_step(&mut self, term: &mut TerminalState, elapsed_ms: u128) -> (fed: bool)
        requires
            old(term).wf(),
        ensures
            final(term).wf(),
            fed == old(self)@.feeds_at(elapsed_ms),
            !fed ==> final(self)@ == old(self)@ && final(term)@ == old(term)@,
            !fed ==> final(term).parser_value() == old(term).parser_value(),
            fed ==> final(self)@ == (PipelineModel {
                buffer: old(self)@.buffer.subrange(
                    old(self)@.chunk_len() as int,
                    old(self)@.buffer.len() as int,
                ),
                ..old(self)@
            }),
            fed ==> final(term)@ == old(term)@.fed(
                old(term).parser_value(),
                old(self)@.next_chunk(),
            ),
            fed ==> final(term).parser_value() == parser_fed(
                old(term).parser_value(),
                old(self)@.next_chunk(),
            ),
    {
        if self.pty_data_buffer.len() == 0 || elapsed_ms >= PROCESSING_BUDGET_MS {
            return false;
        }
        let chunk = self.take_chunk();
        term.feed(chunk.as_slice());
        true
    }

    /// Feeds the buffered bytes to the terminal chunk by chunk until none is
    /// left or the frame's budget, counted from `start`, is used up. What is
    /// left in the buffer is the end of what was there. The result is the
    /// number of chunks fed, which the clock decides: each of them but the
    /// last is a full chunk, and the terminal and its parser are as after
    /// that many chunks of the buffer.
    pub fn drain_pending(&mut self, term: &mut TerminalState, start: &std::time::Instant) -> (chunks:
        usize)
        requires
            old(term).wf(),
        ensures
            final(term).wf(),
            final(self)@.buffer.len() <= old(self)@.buffer.len(),
            final(self)@ == (PipelineModel {
                buffer: old(self)@.buffer.subrange(
                    old(self)@.buffer.len() - final(self)@.buffer.len(),
                    old(self)@.buffer.len() as int,
                ),
                ..old(self)@
            }),
            fed_bytes(old(self)@.buffer.len(), final(self)@.buffer.len(), chunks as nat),
            (final(term)@, final(term).parser_value()) == fed_chunks(
                old(term)@,
                old(term).parser_value(),
                old(self)@.buffer,
                chunks as nat,
            ),
    {
        let total = self.pty_data_buffer.len();
        let mut chunks: usize = 0;
        assert(self@.buffer =~= old(self)@.buffer.subrange(0, total as int));
        loop
            invariant
                term.wf(),
                total == old(self)@.buffer.len(),
                self@.buffer.len() <= total,
                self@ == (PipelineModel {
                    buffer: old(self)@.buffer.subrange(total - self@.buffer.len(), total as int),
                    ..old(self)@
                }),
                chunks <= total - self@.buffer.len(),
                fed_bytes(total as nat, self@.buffer.len(), chunks as nat),
                (term@, term.parser_value()) == fed_chunks(
                    old(term)@,
                    old(term).parser_value(),
                    old(self)@.buffer,
                    chunks as nat,
                ),
            decreases self@.buffer.len(),
        {
            let elapsed = time_since(start);
            let ms = whole_millis(&elapsed);
            let ghost before = self@;
            if !self.feed_step(term, ms) {
                break ;
            }
            proof {
                let skipped = total - before.buffer.len();
                assert(skipped == chunks * 65_536);
                assert(self@.buffer =~= old(self)@.buffer.subrange(
                    skipped + before.chunk_len(),
                    total as int,
                ));
                assert(before.next_chunk() =~= chunk_at(old(self)@.buffer, chunks as nat));
            }
            chunks += 1;
        }
        chunks
    }

    /// Ends a frame: the terminal's dirty flag and the pending full redraw of
    /// its active grid are cleared. The result asks for another frame at
    /// once: bytes still wait, or rows were left unshaped.
    pub fn finish_frame(&self, term: &mut TerminalState, more_shaping: bool) -> (again: bool)
        requires
            old(term).wf(),
        ensures
            final(term).wf(),
            final(term)@ == old(term)@.frame_done(),
            again == (self@.buffer.len() > 0 || more_shaping),
    {
        term.frame_done();
        self.pty_data_buffer.len() > 0 || more_shaping
    }

    /// The left button went down at `pos`: a drag begins, the selection is
    /// the one cell, and the terminal is marked dirty.
    pub fn mouse_down(&mut self, term: &mut TerminalState, pos: GridPos)
        ensures
            final(self)@ == (PipelineModel {
                selection_start: Some(pos),
                selection_end: Some(pos),
                is_mouse_dragging: true,
                ..old(self)@
            }),
            final(term)@ == (TerminalModel { is_dirty: true, ..old(term)@ }),
    {
        self.is_mouse_dragging = true;
        self.selection_start = Some(pos);
        self.selection_end = Some(pos);
        term.mark_dirty();
    }

    /// The pointer moved to `pos`. During a drag the selection follows it and
    /// the terminal is marked dirty; the result tells whether it did.
    pub fn mouse_move(&mut self, term: &mut TerminalState, pos: GridPos) -> (moved: bool)
        ensures
            moved == old(self)@.is_mouse_dragging,
            moved ==> final(self)@ == (PipelineModel { selection_end: Some(pos), ..old(self)@ })
                && final(term)@ == (TerminalModel { is_dirty: true, ..old(term)@ }),
            !moved ==> final(self)@ == old(self)@ && final(term)@ == old(term)@,
    {
        if self.is_mouse_dragging {
            self.selection_end = Some(pos);
            term.mark_dirty();
            true
        } else {
            false
        }
    }

    /// The left button went up: the drag ends. The result is the selected
    /// text, to be copied to the clipboard.
    pub fn mouse_up(&mut self, term: &TerminalState) -> (text: Option<Vec<char>>)
        requires
            term.wf(),
        ensures
            final(self)@ == (PipelineModel { is_mouse_dragging: false, ..old(self)@ }),
            match text {
                Some(chars) => selected_text_spec(term@, old(self)@.selection()) == Some(chars@),
                None => selected_text_spec(term@, old(self)@.selection()) is None,
            },
    {
        self.is_mouse_dragging = false;
        selected_text(term, self.selection())
    }

    /// The pointer is over the cell at `pos`: the link under it is
    /// remembered. The result tells whether it changed.
    pub fn update_hover(&mut self, term: &TerminalState, pos: GridPos) -> (changed: bool)
        requires
            term.wf(),
        ensures
            changed == (term@.link_at(pos.col as nat, pos.row as nat) != old(self)@.hovered_link_id),
            final(self)@ == (PipelineModel {
                hovered_link_id: term@.link_at(pos.col as nat, pos.row as nat),
                ..old(self)@
            }),
    {
        let id = term.get_link_at(pos.col, pos.row);
        if id != self.hovered_link_id {
            self.hovered_link_id = id;
            true
        } else {
            false
        }
    }
}

} // verus!
