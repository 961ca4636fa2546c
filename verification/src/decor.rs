//! Decorations of a frame: the background, underline and undercurl quads of
//! each row, in cell coordinates, and the key under which a row's quads are
//! cached.

use vstd::prelude::*;
use std::collections::hash_map::DefaultHasher;
use std::hash::Hasher;
use vstd::std_specs::hash::DefaultHasherAdditionalSpecFns;
use crate::cell::{Cell, CellFlags, Rgb};
use crate::color::{rgb_of, to_rgb, Colors};

verus! {

/// A colour with its opacity.
#[derive(Debug, Clone, Copy, PartialEq, Eq, Structural)]
pub struct Rgba(pub u8, pub u8, pub u8, pub u8);

/// A quad on one cell of a row that is not placed yet: the column and the
/// colour.
#[derive(Debug, Clone, Copy, PartialEq, Eq, Structural)]
pub struct RowQuad {
    pub col: usize,
    pub color: Rgba,
}

/// A quad on one cell of the screen.
#[derive(Debug, Clone, Copy, PartialEq, Eq, Structural)]
pub struct Quad {
    pub col: usize,
    pub row: usize,
    pub color: Rgba,
}

/// The colour `c`, opaque.
pub open spec fn opaque(c: Rgb) -> Rgba {
    Rgba(c.0, c.1, c.2, 255)
}

/// The foreground and background in which a cell is drawn: those of the
/// cell, exchanged where the cell is inverse.
pub open spec fn drawn_colors(cell: Cell) -> (Rgb, Rgb) {
    if cell.flags.has(CellFlags::INVERSE) {
        (cell.bg, cell.fg)
    } else {
        (cell.fg, cell.bg)
    }
}

/// The colour of a cell's underline or undercurl: the colour of the text
/// under the cursor where the cursor is on the cell, the cell's drawn
/// foreground elsewhere.
pub open spec fn decoration_color(cell: Cell, is_cursor: bool, colors: Colors) -> Rgba {
    if is_cursor {
        opaque(rgb_of(colors.cursor_text))
    } else {
        opaque(drawn_colors(cell).0)
    }
}

/// The background quads of the cell in column `x`: one in the drawn
/// background unless that is the default background, then one in the
/// cursor's colour where the cursor is on the cell.
pub open spec fn cell_bg_quads(cell: Cell, x: int, is_cursor: bool, colors: Colors) -> Seq<RowQuad> {
    let bg = drawn_colors(cell).1;
    let own = if bg != rgb_of(colors.background) {
        seq![RowQuad { col: x as usize, color: opaque(bg) }]
    } else {
        Seq::empty()
    };
    if is_cursor {
        own.push(RowQuad { col: x as usize, color: opaque(rgb_of(colors.cursor)) })
    } else {
        own
    }
}

/// The underline quads of the cell in column `x`: one where the cell is
/// underlined.
pub open spec fn cell_underline_quads(cell: Cell, x: int, is_cursor: bool, colors: Colors) -> Seq<
    RowQuad,
> {
    if cell.flags.has(CellFlags::UNDERLINE) {
        seq![RowQuad { col: x as usize, color: decoration_color(cell, is_cursor, colors) }]
    } else {
        Seq::empty()
    }
}

/// Whether the cell belongs to the link under the pointer.
pub open spec fn is_hovered(cell: Cell, hovered: Option<u32>) -> bool {
    hovered is Some && cell.link_id == hovered
}

/// The undercurl quads of the cell in column `x`: one where the cell has an
/// undercurl or belongs to the link under the pointer.
pub open spec fn cell_undercurl_quads(
    cell: Cell,
    x: int,
    is_cursor: bool,
    hovered: Option<u32>,
    colors: Colors,
) -> Seq<RowQuad> {
    if cell.flags.has(CellFlags::UNDERCURL) || is_hovered(cell, hovered) {
        seq![RowQuad { col: x as usize, color: decoration_color(cell, is_cursor, colors) }]
    } else {
        Seq::empty()
    }
}

/// The three lists of quads of one row.
pub struct RowDecorModel {
    pub bg: Seq<RowQuad>,
    pub underline: Seq<RowQuad>,
    pub undercurl: Seq<RowQuad>,
}

/// The quads of the first `n` cells of a row, column by column. `cursor` is
/// the cursor's column where the cursor is shown on this row, `hovered` the
/// link under the pointer.
pub open spec fn row_decor(cells: Seq<Cell>, n: int, cursor: Option<usize>, hovered: Option<u32>, colors: Colors) -> RowDecorModel
    decreases n,
{
    if n <= 0 {
        RowDecorModel { bg: Seq::empty(), underline: Seq::empty(), undercurl: Seq::empty() }
    } else {
        let before = row_decor(cells, n - 1, cursor, hovered, colors);
        let x = n - 1;
        let is_cursor = cursor == Some(x as usize);
        RowDecorModel {
            bg: before.bg + cell_bg_quads(cells[x], x, is_cursor, colors),
            underline: before.underline + cell_underline_quads(cells[x], x, is_cursor, colors),
            undercurl: before.undercurl + cell_undercurl_quads(
                cells[x],
                x,
                is_cursor,
                hovered,
                colors,
            ),
        }
    }
}

/// The three lists of quads of one row.
#[derive(Debug, Clone)]
pub struct RowDecor {
    pub bg: Vec<RowQuad>,
    pub underline: Vec<RowQuad>,
    pub undercurl: Vec<RowQuad>,
}

impl View for RowDecor {
    type V = RowDecorModel;

    open spec fn view(&self) -> RowDecorModel {
        RowDecorModel { bg: self.bg@, underline: self.underline@, undercurl: self.undercurl@ }
    }
}

/// Builds the quads of one row.
pub fn decorate_row(cells: &Vec<Cell>, cursor: Option<usize>, hovered: Option<u32>, colors: &Colors) -> (decor:
    RowDecor)
    ensures
        decor@ == row_decor(cells@, cells@.len() as int, cursor, hovered, *colors),
{
    let default_bg = to_rgb(colors.background);
    let cursor_color = to_rgb(colors.cursor);
    let cursor_text = to_rgb(colors.cursor_text);
    let mut bg: Vec<RowQuad> = Vec::new();
    let mut underline: Vec<RowQuad> = Vec::new();
    let mut undercurl: Vec<RowQuad> = Vec::new();
    let mut x: usize = 0;
    while x < cells.len()
        invariant
            x <= cells@.len(),
            default_bg == rgb_of(colors.background),
            cursor_color == rgb_of(colors.cursor),
            cursor_text == rgb_of(colors.cursor_text),
            (RowDecorModel { bg: bg@, underline: underline@, undercurl: undercurl@ }) == row_decor(
                cells@,
                x as int,
                cursor,
                hovered,
                *colors,
            ),
        decreases cells@.len() - x,
    {
        let cell = cells[x];
        let is_cursor = match cursor {
            Some(c) => c == x,
            None => false,
        };
        let (cell_fg, cell_bg) = if cell.flags.contains(CellFlags::INVERSE) {
            (cell.bg, cell.fg)
        } else {
            (cell.fg, cell.bg)
        };
        let ghost before = row_decor(cells@, x as int, cursor, hovered, *colors);
        if cell_bg != default_bg {
            bg.push(RowQuad { col: x, color: Rgba(cell_bg.0, cell_bg.1, cell_bg.2, 255) });
        }
        if is_cursor {
            bg.push(
                RowQuad { col: x, color: Rgba(cursor_color.0, cursor_color.1, cursor_color.2, 255) },
            );
        }
        let fg = if is_cursor {
            cursor_text
        } else {
            cell_fg
        };
        let color = Rgba(fg.0, fg.1, fg.2, 255);
        if cell.flags.contains(CellFlags::UNDERLINE) {
            underline.push(RowQuad { col: x, color });
        }
        let hovered_here = match hovered {
            Some(id) => cell.link_id == Some(id),
            None => false,
        };
        if cell.flags.contains(CellFlags::UNDERCURL) || hovered_here {
            undercurl.push(RowQuad { col: x, color });
        }
        proof {
            assert(bg@ =~= before.bg + cell_bg_quads(cells@[x as int], x as int, is_cursor, *colors));
            assert(underline@ =~= before.underline + cell_underline_quads(
                cells@[x as int],
                x as int,
                is_cursor,
                *colors,
            ));
            assert(undercurl@ =~= before.undercurl + cell_undercurl_quads(
                cells@[x as int],
                x as int,
                is_cursor,
                hovered,
                *colors,
            ));
        }
        x += 1;
    }
    RowDecor { bg, underline, undercurl }
}

/// The four bytes of `v`, lowest first.
pub open spec fn u32_bytes(v: u32) -> Seq<u8> {
    seq![
        (v % 256) as u8,
        ((v / 256) % 256) as u8,
        ((v / 65536) % 256) as u8,
        (v / 16777216) as u8,
    ]
}

/// The eight bytes of `v`, lowest first.
pub open spec fn u64_bytes(v: u64) -> Seq<u8> {
    u32_bytes((v % 4294967296) as u32) + u32_bytes((v / 4294967296) as u32)
}

/// A tag byte followed by the bytes of the link id, or the tag alone.
pub open spec fn link_bytes(link: Option<u32>) -> Seq<u8> {
    match link {
        Some(id) => seq![1u8] + u32_bytes(id),
        None => seq![0u8],
    }
}

/// The bytes that stand for one cell in a row's key.
pub open spec fn cell_bytes(cell: Cell) -> Seq<u8> {
    u32_bytes(cell.ch as u32) + seq![
        cell.fg.0,
        cell.fg.1,
        cell.fg.2,
        cell.bg.0,
        cell.bg.1,
        cell.bg.2,
        (cell.flags.bits % 256) as u8,
        (cell.flags.bits / 256) as u8,
    ] + link_bytes(cell.link_id)
}

/// The bytes of the first `n` cells.
pub open spec fn cells_bytes(cells: Seq<Cell>, n: int) -> Seq<u8>
    decreases n,
{
    if n <= 0 {
        Seq::empty()
    } else {
        cells_bytes(cells, n - 1) + cell_bytes(cells[n - 1])
    }
}

/// The link under the pointer, where a cell among the first `n` belongs to
/// it.
pub open spec fn hovered_on_row(cells: Seq<Cell>, n: int, hovered: Option<u32>) -> Option<u32>
    decreases n,
{
    if n <= 0 {
        None
    } else if is_hovered(cells[n - 1], hovered) {
        hovered
    } else {
        hovered_on_row(cells, n - 1, hovered)
    }
}

/// The bytes of a row's key: its cells, the cursor's column where the
/// cursor is shown on the row, and the link under the pointer where the row
/// has a cell of it.
pub open spec fn row_key_bytes(cells: Seq<Cell>, cursor: Option<usize>, hovered: Option<u32>) -> Seq<u8> {
    cells_bytes(cells, cells.len() as int) + (match cursor {
        Some(x) => seq![1u8] + u64_bytes(x as u64),
        None => seq![0u8],
    }) + link_bytes(hovered_on_row(cells, cells.len() as int, hovered))
}

/// The hash under which a row's quads are cached: that of the standard
/// hasher over the row's key.
pub open spec fn row_hash_spec(cells: Seq<Cell>, cursor: Option<usize>, hovered: Option<u32>) -> u64 {
    DefaultHasher::spec_finish(seq![row_key_bytes(cells, cursor, hovered)])
}

/// Appends the four bytes of `v`, lowest first.
fn push_u32(out: &mut Vec<u8>, v: u32)
    ensures
        final(out)@ == old(out)@ + u32_bytes(v),
{
    out.push((v % 256) as u8);
    out.push(((v / 256) % 256) as u8);
    out.push(((v / 65536) % 256) as u8);
    out.push((v / 16777216) as u8);
    assert(out@ =~= old(out)@ + u32_bytes(v));
}

/// Appends the bytes of an optional link id.
fn push_link(out: &mut Vec<u8>, link: Option<u32>)
    ensures
        final(out)@ == old(out)@ + link_bytes(link),
{
    match link {
        Some(id) => {
            out.push(1);
            push_u32(out, id);
        },
        None => {
            out.push(0);
        },
    }
    assert(out@ =~= old(out)@ + link_bytes(link));
}

/// The hash under which the quads of a row are cached.
pub fn row_hash(cells: &Vec<Cell>, cursor: Option<usize>, hovered: Option<u32>) -> (h: u64)
    ensures
        h == row_hash_spec(cells@, cursor, hovered),
{
    let mut bytes: Vec<u8> = Vec::new();
    let mut on_row: Option<u32> = None;
    let mut x: usize = 0;
    while x < cells.len()
        invariant
            x <= cells@.len(),
            bytes@ == cells_bytes(cells@, x as int),
            on_row == hovered_on_row(cells@, x as int, hovered),
            on_row is Some ==> on_row == hovered,
        decreases cells@.len() - x,
    {
        let cell = cells[x];
        let ghost before = bytes@;
        push_u32(&mut bytes, cell.ch as u32);
        bytes.push(cell.fg.0);
        bytes.push(cell.fg.1);
        bytes.push(cell.fg.2);
        bytes.push(cell.bg.0);
        bytes.push(cell.bg.1);
        bytes.push(cell.bg.2);
        bytes.push((cell.flags.bits % 256) as u8);
        bytes.push((cell.flags.bits / 256) as u8);
        push_link(&mut bytes, cell.link_id);
        assert(bytes@ =~= before + cell_bytes(cell));
        match hovered {
            Some(id) => {
                if cell.link_id == Some(id) {
                    on_row = hovered;
                }
            },
            None => {},
        }
        x += 1;
    }
    let ghost cells_part = bytes@;
    match cursor {
        Some(c) => {
            bytes.push(1);
            let wide = c as u64;
            push_u32(&mut bytes, (wide % 4294967296) as u32);
            push_u32(&mut bytes, (wide / 4294967296) as u32);
        },
        None => {
            bytes.push(0);
        },
    }
    push_link(&mut bytes, on_row);
    assert(bytes@ =~= row_key_bytes(cells@, cursor, hovered));
    let mut hasher = DefaultHasher::new();
    hasher.write(bytes.as_slice());
    hasher.finish()
}

} // verus!
