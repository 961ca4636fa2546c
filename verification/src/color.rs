//! The colours that SGR parameters select: the 16 ANSI colours and the
//! 256-colour palette built on them.

use vstd::prelude::*;
use crate::cell::Rgb;

verus! {

/// The configurable colours of the terminal.
#[derive(Debug, Clone, Copy)]
pub struct Colors {
    pub foreground: (u8, u8, u8),
    pub background: (u8, u8, u8),
    pub cursor: (u8, u8, u8),
    pub cursor_text: (u8, u8, u8),
}

impl Default for Colors {
    /// Light grey on black, with the cursor drawn as a light grey block.
    fn default() -> (c: Colors)
        ensures
            c == (Colors {
                foreground: (0xC0u8, 0xC0u8, 0xC0u8),
                background: (0u8, 0u8, 0u8),
                cursor: (0xC0u8, 0xC0u8, 0xC0u8),
                cursor_text: (0u8, 0u8, 0u8),
            }),
    {
        Colors {
            foreground: (0xC0, 0xC0, 0xC0),
            background: (0x00, 0x00, 0x00),
            cursor: (0xC0, 0xC0, 0xC0),
            cursor_text: (0x00, 0x00, 0x00),
        }
    }
}

/// A colour triple as an [`Rgb`].
pub open spec fn rgb_of(c: (u8, u8, u8)) -> Rgb {
    Rgb(c.0, c.1, c.2)
}

/// One channel made brighter: 50 more, at most 255.
pub open spec fn brighten(v: u8) -> u8 {
    if v >= 205 {
        255u8
    } else {
        (v + 50) as u8
    }
}

/// The eight normal ANSI colours, by index.
pub open spec fn ansi_base(idx: int) -> Rgb {
    if idx == 0 {
        Rgb(0, 0, 0)
    } else if idx == 1 {
        Rgb(205, 0, 0)
    } else if idx == 2 {
        Rgb(0, 205, 0)
    } else if idx == 3 {
        Rgb(205, 205, 0)
    } else if idx == 4 {
        Rgb(0, 0, 238)
    } else if idx == 5 {
        Rgb(205, 0, 205)
    } else if idx == 6 {
        Rgb(0, 205, 205)
    } else {
        Rgb(229, 229, 229)
    }
}

/// Colour `idx` of the ANSI palette, normal or bright. The bright colour has
/// each channel of the normal one raised by 50, saturating.
pub open spec fn ansi_16_spec(idx: u8, bright: bool) -> Rgb {
    let base = ansi_base(idx as int);
    if bright {
        Rgb(brighten(base.0), brighten(base.1), brighten(base.2))
    } else {
        base
    }
}

/// Colour `code` of the 256-colour palette: the 16 ANSI colours, then a
/// 6 by 6 by 6 cube whose channels step by 51, then 24 greys from 8 in steps
/// of 10.
pub open spec fn ansi_256_spec(code: u8) -> Rgb {
    if code < 8 {
        ansi_16_spec(code, false)
    } else if code < 16 {
        ansi_16_spec((code - 8) as u8, true)
    } else if code < 232 {
        let c = code - 16;
        Rgb(((c / 36) * 51) as u8, (((c % 36) / 6) * 51) as u8, ((c % 6) * 51) as u8)
    } else {
        let gray = ((code - 232) * 10 + 8) as u8;
        Rgb(gray, gray, gray)
    }
}

/// Converts a colour triple.
pub fn to_rgb(c: (u8, u8, u8)) -> (r: Rgb)
    ensures
        r == rgb_of(c),
{
    Rgb(c.0, c.1, c.2)
}

/// Colour `idx` (0 to 7) of the ANSI palette, normal or bright.
pub fn ansi_16(idx: u8, bright: bool) -> (r: Rgb)
    requires
        idx < 8,
    ensures
        r == ansi_16_spec(idx, bright),
{
    let base = if idx == 0 {
        Rgb(0, 0, 0)
    } else if idx == 1 {
        Rgb(205, 0, 0)
    } else if idx == 2 {
        Rgb(0, 205, 0)
    } else if idx == 3 {
        Rgb(205, 205, 0)
    } else if idx == 4 {
        Rgb(0, 0, 238)
    } else if idx == 5 {
        Rgb(205, 0, 205)
    } else if idx == 6 {
        Rgb(0, 205, 205)
    } else {
        Rgb(229, 229, 229)
    };
    if bright {
        Rgb(base.0.saturating_add(50u8), base.1.saturating_add(50u8), base.2.saturating_add(50u8))
    } else {
        base
    }
}

/// Colour `color_code` of the 256-colour palette.
pub fn ansi_256_to_rgb(color_code: u8) -> (r: Rgb)
    ensures
        r == ansi_256_spec(color_code),
{
    if color_code < 8 {
        ansi_16(color_code, false)
    } else if color_code < 16 {
        ansi_16(color_code - 8, true)
    } else if color_code < 232 {
        let code = color_code - 16;
        let r = (code / 36) * 51;
        let g = ((code % 36) / 6) * 51;
        let b = (code % 6) * 51;
        Rgb(r, g, b)
    } else {
        let gray = (color_code - 232) * 10 + 8;
        Rgb(gray, gray, gray)
    }
}

} // verus!
