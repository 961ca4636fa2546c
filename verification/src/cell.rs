//! Value types that make up one character position on the screen.

use vstd::prelude::*;

verus! {

/// 24-bit sRGB colour.
#[derive(Debug, Clone, Copy, PartialEq, Eq, Hash, Default, Structural)]
pub struct Rgb(pub u8, pub u8, pub u8);

/// Style bits of a cell. Each style owns one bit of `bits`; the masks are the
/// associated constants, and several masks are combined with `|`.
#[derive(Debug, Clone, Copy, PartialEq, Eq, Hash, Structural)]
pub struct CellFlags {
    pub bits: u16,
}

impl CellFlags {
    /// Bold weight.
    pub const BOLD: u16 = 0x01;
    /// Italic slant.
    pub const ITALIC: u16 = 0x02;
    /// A straight underline.
    pub const UNDERLINE: u16 = 0x04;
    /// Foreground and background exchanged.
    pub const INVERSE: u16 = 0x08;
    /// Faint intensity.
    pub const FAINT: u16 = 0x10;
    /// A curly underline.
    pub const UNDERCURL: u16 = 0x20;

    /// Whether every bit of `mask` is set.
    pub open spec fn has(self, mask: u16) -> bool {
        self.bits & mask == mask
    }

    /// These flags with the bits of `mask` set.
    pub open spec fn with(self, mask: u16) -> CellFlags {
        CellFlags { bits: self.bits | mask }
    }

    /// These flags with the bits of `mask` cleared.
    pub open spec fn without(self, mask: u16) -> CellFlags {
        CellFlags { bits: self.bits & !mask }
    }

    /// The flag set with no style.
    pub fn empty() -> (r: CellFlags)
        ensures
            r.bits == 0,
    {
        CellFlags { bits: 0 }
    }

    /// Whether every bit of `mask` is set.
    pub fn contains(&self, mask: u16) -> (r: bool)
        ensures
            r == self.has(mask),
    {
        self.bits & mask == mask
    }

    /// Sets the bits of `mask`.
    pub fn insert(&mut self, mask: u16)
        ensures
            *final(self) == old(self).with(mask),
    {
        self.bits = self.bits | mask;
    }

    /// Clears the bits of `mask`.
    pub fn remove(&mut self, mask: u16)
        ensures
            *final(self) == old(self).without(mask),
    {
        self.bits = self.bits & !mask;
    }
}

impl Default for CellFlags {
    fn default() -> (r: CellFlags)
        ensures
            r.bits == 0,
    {
        CellFlags { bits: 0 }
    }
}

/// One character position: a character, its colours and style, and the
/// hyperlink it belongs to, if any.
#[derive(Debug, Clone, Copy, PartialEq, Eq, Hash, Structural)]
pub struct Cell {
    pub ch: char,
    pub fg: Rgb,
    pub bg: Rgb,
    pub flags: CellFlags,
    pub link_id: Option<u32>,
}

/// The cell that erased positions hold: a space in the given colours, with no
/// style and no link.
pub open spec fn blank_cell_spec(fg: Rgb, bg: Rgb) -> Cell {
    Cell { ch: ' ', fg, bg, flags: CellFlags { bits: 0 }, link_id: None }
}

/// Builds the cell that erased positions hold.
pub fn blank_cell(fg: Rgb, bg: Rgb) -> (c: Cell)
    ensures
        c == blank_cell_spec(fg, bg),
{
    Cell { ch: ' ', fg, bg, flags: CellFlags { bits: 0 }, link_id: None }
}

impl Default for Cell {
    /// A space, light grey on black.
    fn default() -> (c: Cell)
        ensures
            c == blank_cell_spec(Rgb(0xC0, 0xC0, 0xC0), Rgb(0, 0, 0)),
    {
        blank_cell(Rgb(0xC0, 0xC0, 0xC0), Rgb(0x00, 0x00, 0x00))
    }
}

} // verus!
