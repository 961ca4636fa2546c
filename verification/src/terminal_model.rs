//! The mathematical model of the terminal state, and what each parser event
//! does to it.

use vstd::prelude::*;
use crate::cell::{Cell, CellFlags, Rgb};
use crate::color::{ansi_16_spec, ansi_256_spec};
use crate::event::{parsed_events, parser_after, VtEvent};
use crate::grid_model::{count_or_one, sub_nat, GridModel};

verus! {

/// Which of the two screens is shown and written to.
#[derive(Debug, Clone, Copy, PartialEq, Eq, Structural)]
pub enum ActiveScreen {
    Normal,
    Alternate,
}

/// The graphic rendition that printed characters receive.
#[derive(Debug, Clone, Copy, PartialEq, Eq, Structural)]
pub struct Attrs {
    pub fg: Rgb,
    pub bg: Rgb,
    pub flags: CellFlags,
}

/// The parameter groups of a control sequence as sequences.
pub open spec fn groups_view(params: Seq<Vec<u16>>) -> Seq<Seq<u16>> {
    params.map_values(|g: Vec<u16>| g@)
}

/// The parameters of an operating system command as sequences.
pub open spec fn bytes_view(params: Seq<Vec<u8>>) -> Seq<Seq<u8>> {
    params.map_values(|p: Vec<u8>| p@)
}

/// Parameter `i`: the first number of group `i`, if there is one.
pub open spec fn param(params: Seq<Seq<u16>>, i: int) -> Option<u16> {
    if 0 <= i < params.len() && params[i].len() > 0 {
        Some(params[i][0])
    } else {
        None
    }
}

/// Parameter `i`, or `default` where it is absent.
pub open spec fn param_or(params: Seq<Seq<u16>>, i: int, default: nat) -> nat {
    match param(params, i) {
        Some(v) => v as nat,
        None => default,
    }
}

/// The count that a sequence carries in its first parameter: absent and zero
/// both mean one.
pub open spec fn count_param(params: Seq<Seq<u16>>) -> nat {
    count_or_one(param_or(params, 0, 1))
}

/// The low eight bits of a parameter.
pub open spec fn low_byte(v: u16) -> u8 {
    (v % 256) as u8
}

/// The colour that the groups after an extended-colour parameter at `i`
/// select, if any, and how many groups they take. `5;N` selects colour `N` of
/// the 256-colour palette, `2;R;G;B` a colour by its channels.
pub open spec fn extended_color(params: Seq<Seq<u16>>, i: int) -> (Option<Rgb>, int) {
    if i + 1 >= params.len() {
        (None, 0)
    } else {
        match param(params, i + 1) {
            Some(5u16) => {
                if i + 2 >= params.len() {
                    (None, 1)
                } else {
                    match param(params, i + 2) {
                        Some(n) => (Some(ansi_256_spec(low_byte(n))), 2),
                        None => (None, 2),
                    }
                }
            },
            Some(2u16) => {
                let taken = if params.len() - (i + 2) < 3 {
                    params.len() - (i + 2)
                } else {
                    3
                };
                match (param(params, i + 2), param(params, i + 3), param(params, i + 4)) {
                    (Some(r), Some(g), Some(b)) => (
                        Some(Rgb(low_byte(r), low_byte(g), low_byte(b))),
                        1 + taken,
                    ),
                    _ => (None, 1 + taken),
                }
            },
            _ => (None, 1),
        }
    }
}

/// The style of underline that group `group` of an SGR 4 asks for: its first
/// sub-parameter, or 1 where it has none.
pub open spec fn underline_style(group: Seq<u16>) -> u16 {
    if group.len() > 1 {
        group[1]
    } else {
        1
    }
}

/// The flags after an SGR 4 with the given style: 0 is no underline, 3 an
/// undercurl, anything else a plain underline.
pub open spec fn underlined(flags: CellFlags, style: u16) -> CellFlags {
    let cleared = flags.without(CellFlags::UNDERLINE | CellFlags::UNDERCURL);
    if style == 0 {
        cleared
    } else if style == 3 {
        cleared.with(CellFlags::UNDERCURL)
    } else {
        cleared.with(CellFlags::UNDERLINE)
    }
}

/// The rendition after the SGR parameter at `i`, and the number of groups
/// that the parameter took. Unknown parameters change nothing.
pub open spec fn sgr_step(attrs: Attrs, defaults: Attrs, params: Seq<Seq<u16>>, i: int) -> (
    Attrs,
    int,
) {
    match param(params, i) {
        None => (attrs, 1),
        Some(n) => {
            if n == 0 {
                (defaults, 1)
            } else if n == 1 {
                (Attrs { flags: attrs.flags.with(CellFlags::BOLD), ..attrs }, 1)
            } else if n == 2 {
                (Attrs { flags: attrs.flags.with(CellFlags::FAINT), ..attrs }, 1)
            } else if n == 3 {
                (Attrs { flags: attrs.flags.with(CellFlags::ITALIC), ..attrs }, 1)
            } else if n == 4 {
                (Attrs { flags: underlined(attrs.flags, underline_style(params[i])), ..attrs }, 1)
            } else if n == 7 {
                (Attrs { flags: attrs.flags.with(CellFlags::INVERSE), ..attrs }, 1)
            } else if n == 22 {
                (
                    Attrs {
                        flags: attrs.flags.without(CellFlags::BOLD | CellFlags::FAINT),
                        ..attrs
                    },
                    1,
                )
            } else if n == 23 {
                (Attrs { flags: attrs.flags.without(CellFlags::ITALIC), ..attrs }, 1)
            } else if n == 24 {
                (
                    Attrs {
                        flags: attrs.flags.without(CellFlags::UNDERLINE | CellFlags::UNDERCURL),
                        ..attrs
                    },
                    1,
                )
            } else if n == 27 {
                (Attrs { flags: attrs.flags.without(CellFlags::INVERSE), ..attrs }, 1)
            } else if 30 <= n <= 37 {
                (Attrs { fg: ansi_16_spec((n - 30) as u8, false), ..attrs }, 1)
            } else if 90 <= n <= 97 {
                (Attrs { fg: ansi_16_spec((n - 90) as u8, true), ..attrs }, 1)
            } else if n == 39 {
                (Attrs { fg: defaults.fg, ..attrs }, 1)
            } else if 40 <= n <= 47 {
                (Attrs { bg: ansi_16_spec((n - 40) as u8, false), ..attrs }, 1)
            } else if 100 <= n <= 107 {
                (Attrs { bg: ansi_16_spec((n - 100) as u8, true), ..attrs }, 1)
            } else if n == 49 {
                (Attrs { bg: defaults.bg, ..attrs }, 1)
            } else if n == 38 {
                let (color, taken) = extended_color(params, i);
                (
                    match color {
                        Some(c) => Attrs { fg: c, ..attrs },
                        None => attrs,
                    },
                    1 + taken,
                )
            } else if n == 48 {
                let (color, taken) = extended_color(params, i);
                (
                    match color {
                        Some(c) => Attrs { bg: c, ..attrs },
                        None => attrs,
                    },
                    1 + taken,
                )
            } else {
                (attrs, 1)
            }
        },
    }
}

/// The rendition after the SGR parameters from `i` on were applied in order.
pub open spec fn sgr_from(attrs: Attrs, defaults: Attrs, params: Seq<Seq<u16>>, i: int) -> Attrs
    decreases params.len() - i,
{
    if i < 0 || i >= params.len() {
        attrs
    } else {
        let (next, taken) = sgr_step(attrs, defaults, params, i);
        if taken >= 1 {
            sgr_from(next, defaults, params, i + taken)
        } else {
            next
        }
    }
}

/// The rendition after an SGR sequence. An empty parameter list resets it.
pub open spec fn sgr(attrs: Attrs, defaults: Attrs, params: Seq<Seq<u16>>) -> Attrs {
    if params.len() == 0 {
        defaults
    } else {
        sgr_from(attrs, defaults, params, 0)
    }
}

/// The row and column, both counted from zero, that a cursor-position
/// sequence names. The parameters count from one and default to one; a
/// single parameter names both the row and the column.
pub open spec fn cup_target(params: Seq<Seq<u16>>) -> (nat, nat) {
    let row = param_or(params, 0, 1);
    let col = if params.len() >= 2 {
        param_or(params, 1, 1)
    } else {
        row
    };
    (sub_nat(row, 1), sub_nat(col, 1))
}

/// The grid after a control sequence that acts on the grid alone. Sequences
/// that the terminal does not know change nothing.
pub open spec fn grid_csi(g: GridModel, params: Seq<Seq<u16>>, action: char) -> GridModel {
    if action == 'A' {
        g.cursor_up(count_param(params))
    } else if action == 'B' {
        g.cursor_down(count_param(params))
    } else if action == 'C' {
        g.cursor_forward(count_param(params))
    } else if action == 'D' {
        g.cursor_back(count_param(params))
    } else if action == 'H' || action == 'f' {
        g.set_cursor_pos(cup_target(params).1, cup_target(params).0)
    } else if action == 'J' {
        let mode = param_or(params, 0, 0);
        if mode == 0 {
            g.clear_from_cursor()
        } else if mode == 1 {
            g.clear_to_cursor()
        } else if mode == 2 {
            g.clear_all()
        } else {
            g
        }
    } else if action == 'K' {
        let mode = param_or(params, 0, 0);
        if mode == 0 {
            g.clear_line_from_cursor()
        } else if mode == 1 {
            g.clear_line_to_cursor()
        } else if mode == 2 {
            g.clear_line()
        } else {
            g
        }
    } else if action == 'X' {
        g.erase_chars(count_param(params))
    } else if action == '@' {
        g.insert_chars(count_param(params))
    } else if action == 'L' {
        g.insert_lines(count_param(params))
    } else if action == 'M' {
        g.delete_lines(count_param(params))
    } else if action == 'P' {
        g.delete_chars(count_param(params))
    } else if action == 'r' {
        g.set_scroll_region(
            sub_nat(param_or(params, 0, 1), 1),
            sub_nat(param_or(params, 1, g.rows), 1),
        )
    } else {
        g
    }
}

/// Position of the first occurrence of `url` in `links` at or after `from`.
pub open spec fn find_url(links: Seq<Seq<char>>, url: Seq<char>, from: int) -> Option<int>
    decreases links.len() - from,
{
    if from < 0 || from >= links.len() {
        None
    } else if links[from] == url {
        Some(from)
    } else {
        find_url(links, url, from + 1)
    }
}

/// The text of a hyperlink target: what the bytes encode, or nothing where
/// they are not valid UTF-8.
pub open spec fn url_text(bytes: Seq<u8>) -> Seq<char> {
    if vstd::utf8::valid_utf8(bytes) {
        vstd::utf8::decode_utf8(bytes)
    } else {
        Seq::empty()
    }
}

/// The state of a parser after `bytes` were fed to the terminal: no bytes
/// leave it as it is.
pub open spec fn parser_fed(parser: vte::Parser, bytes: Seq<u8>) -> vte::Parser {
    if bytes.len() == 0 {
        parser
    } else {
        parser_after(parser, bytes)
    }
}

/// Value of a terminal. Link `id` of the registry is `links[id - 1]`.
pub struct TerminalModel {
    pub normal: GridModel,
    pub alternate: GridModel,
    pub active: ActiveScreen,
    pub attrs: Attrs,
    pub defaults: Attrs,
    pub cursor_visible: bool,
    pub scroll_offset: nat,
    pub links: Seq<Seq<char>>,
    pub current_link: Option<u32>,
    pub is_dirty: bool,
}

impl TerminalModel {
    /// The terminal invariant: both grids satisfy theirs, the registry holds
    /// each target once, none of them empty, and fewer than `u32::MAX` of
    /// them, and the current link is in the registry.
    pub open spec fn inv(self) -> bool {
        &&& self.normal.inv()
        &&& self.alternate.inv()
        &&& self.links.len() < u32::MAX
        &&& forall|i: int| 0 <= i < self.links.len() ==> (#[trigger] self.links[i]).len() > 0
        &&& forall|i: int, j: int|
            0 <= i < j < self.links.len() ==> self.links[i] != self.links[j]
        &&& (self.current_link matches Some(id) ==> 1 <= id <= self.links.len())
    }

    /// A terminal as it is created: two blank screens in the default
    /// colours, the normal one active and with room for `scrollback` rows of
    /// history, the default rendition, a visible cursor, no links, and dirty.
    pub open spec fn fresh(cols: nat, rows: nat, scrollback: nat, defaults: Attrs) -> TerminalModel {
        TerminalModel {
            normal: GridModel::fresh(cols, rows, scrollback, defaults.fg, defaults.bg),
            alternate: GridModel::fresh(cols, rows, 0, defaults.fg, defaults.bg),
            active: ActiveScreen::Normal,
            attrs: defaults,
            defaults,
            cursor_visible: true,
            scroll_offset: 0,
            links: Seq::empty(),
            current_link: None,
            is_dirty: true,
        }
    }

    /// The grid of the active screen.
    pub open spec fn grid(self) -> GridModel {
        match self.active {
            ActiveScreen::Normal => self.normal,
            ActiveScreen::Alternate => self.alternate,
        }
    }

    /// The terminal with another grid on the active screen.
    pub open spec fn with_grid(self, g: GridModel) -> TerminalModel {
        match self.active {
            ActiveScreen::Normal => TerminalModel { normal: g, ..self },
            ActiveScreen::Alternate => TerminalModel { alternate: g, ..self },
        }
    }

    /// The registry as a map from link ids to targets.
    pub open spec fn link_map(self) -> Map<u32, Seq<char>> {
        Map::new(|id: u32| 1 <= id <= self.links.len(), |id: u32| self.links[id - 1])
    }

    /// The cell that a printed character becomes.
    pub open spec fn styled(self, c: char) -> Cell {
        Cell {
            ch: c,
            fg: self.attrs.fg,
            bg: self.attrs.bg,
            flags: self.attrs.flags,
            link_id: self.current_link,
        }
    }

    /// After a character was printed: it is written to the active grid in the
    /// current rendition and under the current link.
    pub open spec fn print(self, c: char) -> TerminalModel {
        self.with_grid(self.grid().put_char(self.styled(c)))
    }

    /// After a control was executed. Line feed and index feed a line, next
    /// line feeds a line and returns the carriage, carriage return and
    /// backspace move the cursor; every other control is ignored.
    pub open spec fn execute(self, byte: u8) -> TerminalModel {
        if byte == 0x0A || byte == 0x84 {
            self.with_grid(self.grid().line_feed())
        } else if byte == 0x85 {
            self.with_grid(self.grid().next_line())
        } else if byte == 0x0D {
            self.with_grid(self.grid().carriage_return())
        } else if byte == 0x08 {
            self.with_grid(self.grid().backspace())
        } else {
            self
        }
    }

    /// After a private-mode sequence. Mode 1049 switches screens: setting it
    /// shows the alternate screen, cleared; resetting it shows the normal
    /// screen, with its cursor where it was left, makes the cursor visible
    /// and asks for a full redraw. Mode 25 shows and hides the cursor.
    pub open spec fn private_mode(self, params: Seq<Seq<u16>>, action: char) -> TerminalModel {
        let mode = param(params, 0);
        if mode == Some(1049u16) {
            if action == 'h' {
                TerminalModel {
                    active: ActiveScreen::Alternate,
                    alternate: self.alternate.clear_all(),
                    ..self
                }
            } else if action == 'l' {
                TerminalModel {
                    active: ActiveScreen::Normal,
                    cursor_visible: true,
                    normal: GridModel { full_redraw_needed: true, ..self.normal },
                    ..self
                }
            } else {
                self
            }
        } else if mode == Some(25u16) && (action == 'h' || action == 'l') {
            TerminalModel { cursor_visible: action == 'h', ..self }.with_grid(
                self.grid().mark_dirty(self.grid().cur_y),
            )
        } else {
            self
        }
    }

    /// After a control sequence.
    pub open spec fn csi(self, params: Seq<Seq<u16>>, intermediates: Seq<u8>, action: char) -> TerminalModel {
        if intermediates.len() > 0 && intermediates[0] == 0x3F {
            self.private_mode(params, action)
        } else if action == 'm' {
            TerminalModel { attrs: sgr(self.attrs, self.defaults, params), ..self }
        } else {
            self.with_grid(grid_csi(self.grid(), params, action))
        }
    }

    /// After a hyperlink command with the given target. An empty target ends
    /// the link. A target that the registry holds is taken up again under its
    /// id; a new one is added under the next id. Once the registry is full, a
    /// new target ends the link.
    pub open spec fn link_to(self, url: Seq<char>) -> TerminalModel {
        if url.len() == 0 {
            TerminalModel { current_link: None, ..self }
        } else {
            match find_url(self.links, url, 0) {
                Some(i) => TerminalModel { current_link: Some((i + 1) as u32), ..self },
                None => {
                    if self.links.len() + 1 < u32::MAX {
                        TerminalModel {
                            links: self.links.push(url),
                            current_link: Some((self.links.len() + 1) as u32),
                            ..self
                        }
                    } else {
                        TerminalModel { current_link: None, ..self }
                    }
                },
            }
        }
    }

    /// After an operating system command. Only command 8, the hyperlink, with
    /// its two parameters is known.
    pub open spec fn osc(self, params: Seq<Seq<u8>>) -> TerminalModel {
        if params.len() >= 3 && params[0] == seq![0x38u8] {
            self.link_to(url_text(params[2]))
        } else {
            self
        }
    }

    /// After one parser event.
    pub open spec fn apply_event(self, event: VtEvent) -> TerminalModel {
        match event {
            VtEvent::Print(c) => self.print(c),
            VtEvent::Execute(byte) => self.execute(byte),
            VtEvent::Csi { params, intermediates, ignore, action } => self.csi(
                groups_view(params@),
                intermediates@,
                action,
            ),
            VtEvent::Osc { params, bell_terminated } => self.osc(bytes_view(params@)),
        }
    }

    /// After the events of `events`, in order.
    pub open spec fn apply_all(self, events: Seq<VtEvent>) -> TerminalModel
        decreases events.len(),
    {
        if events.len() == 0 {
            self
        } else {
            self.apply_all(events.drop_last()).apply_event(events.last())
        }
    }

    /// The terminal as input arrives: it is dirty, and the normal screen
    /// returns to the live view.
    pub open spec fn input_arrived(self) -> TerminalModel {
        TerminalModel {
            is_dirty: true,
            scroll_offset: if self.active == ActiveScreen::Normal {
                0
            } else {
                self.scroll_offset
            },
            ..self
        }
    }

    /// After `bytes` were fed with the parser in state `parser`. No bytes
    /// change nothing. Otherwise input has arrived, and the events that the
    /// parser reports for the bytes are applied in order.
    pub open spec fn fed(self, parser: vte::Parser, bytes: Seq<u8>) -> TerminalModel {
        if bytes.len() == 0 {
            self
        } else {
            self.input_arrived().apply_all(parsed_events(parser, bytes))
        }
    }

    /// After one batch of events for each element of `batches` arrived, one
    /// batch after the other.
    pub open spec fn fed_all(self, batches: Seq<Seq<VtEvent>>) -> TerminalModel
        decreases batches.len(),
    {
        if batches.len() == 0 {
            self
        } else {
            self.fed_all(batches.drop_last()).input_arrived().apply_all(batches.last())
        }
    }

    /// After the view was moved by `delta` rows: towards the live view for a
    /// positive `delta`, into the history for a negative one, never past
    /// either end. The alternate screen does not scroll.
    pub open spec fn scroll_viewport(self, delta: int) -> TerminalModel {
        if self.active == ActiveScreen::Alternate {
            self
        } else {
            let wanted = self.scroll_offset - delta;
            let len = self.normal.scrollback_len();
            let offset: nat = if wanted < 0 {
                0
            } else if wanted > len {
                len
            } else {
                wanted as nat
            };
            if offset == self.scroll_offset {
                self
            } else {
                TerminalModel { scroll_offset: offset, is_dirty: true, ..self }
            }
        }
    }

    /// After the dirty state was cleared: the terminal's flag, and the flags
    /// of the active grid.
    pub open spec fn clear_dirty(self) -> TerminalModel {
        TerminalModel { is_dirty: false, ..self }.with_grid(self.grid().clear_all_dirty_flags())
    }

    /// After a frame was drawn: the terminal is clean and the active grid no
    /// longer asks for a full redraw.
    pub open spec fn frame_done(self) -> TerminalModel {
        TerminalModel { is_dirty: false, ..self }.with_grid(
            GridModel { full_redraw_needed: false, ..self.grid() },
        )
    }

    /// After both screens were resized.
    pub open spec fn resize(self, cols: nat, rows: nat) -> TerminalModel {
        TerminalModel {
            normal: self.normal.resize(cols, rows),
            alternate: self.alternate.resize(cols, rows),
            is_dirty: true,
            ..self
        }
    }

    /// The link under display position `(col, row)`, if any.
    pub open spec fn link_at(self, col: nat, row: nat) -> Option<u32> {
        let g = self.grid();
        let i = g.display_index(row, self.scroll_offset);
        if i < g.lines.len() && col < g.lines[i].cells.len() {
            g.lines[i].cells[col as int].link_id
        } else {
            None
        }
    }
}

} // verus!
