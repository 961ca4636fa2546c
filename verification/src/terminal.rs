//! The terminal state: two screens, the current rendition, the hyperlink
//! registry, and the interpreter that applies parser events to them.

use vstd::prelude::*;
use std::collections::HashMap;
use crate::cell::{CellFlags, Rgb};
use crate::color::{ansi_16, ansi_256_to_rgb, rgb_of, to_rgb, Colors};
use crate::event::{new_parser, parse_events, utf8_text, VtEvent};
use crate::grid::ScreenGrid;
use crate::grid_model::sub_nat;
use crate::terminal_model::{
    bytes_view, count_param, extended_color, find_url, grid_csi, groups_view, low_byte, param,
    parser_fed, sgr, sgr_from, sgr_step, ActiveScreen, Attrs, TerminalModel,
};

verus! {

broadcast use vstd::std_specs::hash::group_hash_axioms;

/// Number of history rows that the normal screen keeps.
pub const SCROLLBACK_LINES: usize = 10_000;

/// The rendition that a terminal starts with and that SGR 0 restores: the
/// configured foreground on the configured background, with no style.
pub open spec fn default_attrs(colors: Colors) -> Attrs {
    Attrs {
        fg: rgb_of(colors.foreground),
        bg: rgb_of(colors.background),
        flags: CellFlags { bits: 0 },
    }
}

/// The state of one terminal.
pub struct TerminalState {
    normal_grid: ScreenGrid,
    alternate_grid: ScreenGrid,
    active_screen: ActiveScreen,
    parser: vte::Parser,
    attrs: Attrs,
    scroll_offset: usize,
    cursor_visible: bool,
    colors: Colors,
    /// The hyperlink registry: the target of each link, by the link's id.
    links: HashMap<u32, String>,
    /// The id that the next new target gets. The ids below it, from 1 on, are
    /// the keys of `links`.
    next_link_id: u32,
    current_link_id: Option<u32>,
    is_dirty: bool,
}

impl View for TerminalState {
    type V = TerminalModel;

    closed spec fn view(&self) -> TerminalModel {
        TerminalModel {
            normal: self.normal_grid@,
            alternate: self.alternate_grid@,
            active: self.active_screen,
            attrs: self.attrs,
            defaults: default_attrs(self.colors),
            cursor_visible: self.cursor_visible,
            scroll_offset: self.scroll_offset as nat,
            links: Seq::new(
                sub_nat(self.next_link_id as nat, 1),
                |i: int| self.links@[(i + 1) as u32]@,
            ),
            current_link: self.current_link_id,
            is_dirty: self.is_dirty,
        }
    }
}

/// Parameter `i` of a control sequence.
fn param_at(params: &Vec<Vec<u16>>, i: usize) -> (r: Option<u16>)
    ensures
        r == param(groups_view(params@), i as int),
{
    if i < params.len() {
        let group = &params[i];
        if group.len() > 0 {
            Some(group[0])
        } else {
            None
        }
    } else {
        None
    }
}

/// The count in the first parameter, absent and zero both read as one.
fn count_of(params: &Vec<Vec<u16>>) -> (n: usize)
    ensures
        n == count_param(groups_view(params@)),
{
    match param_at(params, 0) {
        Some(v) => if v == 0 {
            1
        } else {
            v as usize
        },
        None => 1,
    }
}

/// The low eight bits of a parameter.
fn low_byte_of(v: u16) -> (b: u8)
    ensures
        b == low_byte(v),
{
    (v % 256) as u8
}

/// The colour that the groups after an extended-colour parameter at `i`
/// select, and how many groups they take.
fn extended_color_at(params: &Vec<Vec<u16>>, i: usize) -> (r: (Option<Rgb>, usize))
    requires
        i < params@.len(),
    ensures
        (r.0, r.1 as int) == extended_color(groups_view(params@), i as int),
        i + 1 + r.1 <= params@.len(),
{
    let len = params.len();
    if i + 1 >= len {
        return (None, 0);
    }
    match param_at(params, i + 1) {
        Some(5) => {
            if i + 2 >= len {
                (None, 1)
            } else {
                match param_at(params, i + 2) {
                    Some(n) => (Some(ansi_256_to_rgb(low_byte_of(n))), 2),
                    None => (None, 2),
                }
            }
        },
        Some(2) => {
            let left = len - (i + 2);
            let taken = if left < 3 {
                left
            } else {
                3
            };
            if left >= 3 {
                match (param_at(params, i + 2), param_at(params, i + 3), param_at(params, i + 4)) {
                    (Some(r), Some(g), Some(b)) => (
                        Some(Rgb(low_byte_of(r), low_byte_of(g), low_byte_of(b))),
                        1 + taken,
                    ),
                    _ => (None, 1 + taken),
                }
            } else {
                (None, 1 + taken)
            }
        },
        _ => (None, 1),
    }
}

/// Applies the SGR parameter at `i` and tells how many groups it took.
fn sgr_step_at(attrs: Attrs, defaults: Attrs, params: &Vec<Vec<u16>>, i: usize) -> (r: (
    Attrs,
    usize,
))
    requires
        i < params@.len(),
    ensures
        (r.0, r.1 as int) == sgr_step(attrs, defaults, groups_view(params@), i as int),
        1 <= r.1,
        i + r.1 <= params@.len(),
{
    let mut next = attrs;
    let n = match param_at(params, i) {
        Some(n) => n,
        None => {
            return (attrs, 1);
        },
    };
    if n == 0 {
        next = defaults;
    } else if n == 1 {
        next.flags.insert(CellFlags::BOLD);
    } else if n == 2 {
        next.flags.insert(CellFlags::FAINT);
    } else if n == 3 {
        next.flags.insert(CellFlags::ITALIC);
    } else if n == 4 {
        let group = &params[i];
        let style = if group.len() > 1 {
            group[1]
        } else {
            1
        };
        next.flags.remove(CellFlags::UNDERLINE | CellFlags::UNDERCURL);
        if style == 0 {
        } else if style == 3 {
            next.flags.insert(CellFlags::UNDERCURL);
        } else {
            next.flags.insert(CellFlags::UNDERLINE);
        }
    } else if n == 7 {
        next.flags.insert(CellFlags::INVERSE);
    } else if n == 22 {
        next.flags.remove(CellFlags::BOLD | CellFlags::FAINT);
    } else if n == 23 {
        next.flags.remove(CellFlags::ITALIC);
    } else if n == 24 {
        next.flags.remove(CellFlags::UNDERLINE | CellFlags::UNDERCURL);
    } else if n == 27 {
        next.flags.remove(CellFlags::INVERSE);
    } else if 30 <= n && n <= 37 {
        next.fg = ansi_16((n - 30) as u8, false);
    } else if 90 <= n && n <= 97 {
        next.fg = ansi_16((n - 90) as u8, true);
    } else if n == 39 {
        next.fg = defaults.fg;
    } else if 40 <= n && n <= 47 {
        next.bg = ansi_16((n - 40) as u8, false);
    } else if 100 <= n && n <= 107 {
        next.bg = ansi_16((n - 100) as u8, true);
    } else if n == 49 {
        next.bg = defaults.bg;
    } else if n == 38 {
        let (color, taken) = extended_color_at(params, i);
        if let Some(c) = color {
            next.fg = c;
        }
        return (next, 1 + taken);
    } else if n == 48 {
        let (color, taken) = extended_color_at(params, i);
        if let Some(c) = color {
            next.bg = c;
        }
        return (next, 1 + taken);
    }
    (next, 1)
}

/// The rendition after an SGR sequence with the given parameters.
pub fn apply_sgr(attrs: Attrs, defaults: Attrs, params: &Vec<Vec<u16>>) -> (r: Attrs)
    ensures
        r == sgr(attrs, defaults, groups_view(params@)),
{
    if params.len() == 0 {
        return defaults;
    }
    let mut current = attrs;
    let mut i: usize = 0;
    while i < params.len()
        invariant
            i <= params@.len(),
            sgr_from(current, defaults, groups_view(params@), i as int) == sgr_from(
                attrs,
                defaults,
                groups_view(params@),
                0,
            ),
        decreases params@.len() - i,
    {
        let (next, taken) = sgr_step_at(current, defaults, params, i);
        current = next;
        i += taken;
    }
    current
}

/// Applies to `grid` a control sequence that acts on the grid alone.
fn grid_csi_dispatch(grid: &mut ScreenGrid, params: &Vec<Vec<u16>>, action: char)
    requires
        old(grid).wf(),
    ensures
        final(grid).wf(),
        final(grid)@ == grid_csi(old(grid)@, groups_view(params@), action),
{
    if action == 'A' {
        grid.cursor_up(count_of(params));
    } else if action == 'B' {
        grid.cursor_down(count_of(params));
    } else if action == 'C' {
        grid.cursor_forward(count_of(params));
    } else if action == 'D' {
        grid.cursor_back(count_of(params));
    } else if action == 'H' || action == 'f' {
        let row = match param_at(params, 0) {
            Some(v) => v as usize,
            None => 1,
        };
        let col = if params.len() >= 2 {
            match param_at(params, 1) {
                Some(v) => v as usize,
                None => 1,
            }
        } else {
            row
        };
        grid.set_cursor_pos(col.saturating_sub(1), row.saturating_sub(1));
    } else if action == 'J' {
        match param_at(params, 0) {
            None | Some(0) => grid.clear_from_cursor(),
            Some(1) => grid.clear_to_cursor(),
            Some(2) => grid.clear_all(),
            _ => {},
        }
    } else if action == 'K' {
        match param_at(params, 0) {
            None | Some(0) => grid.clear_line_from_cursor(),
            Some(1) => grid.clear_line_to_cursor(),
            Some(2) => grid.clear_line(),
            _ => {},
        }
    } else if action == 'X' {
        grid.erase_chars(count_of(params));
    } else if action == '@' {
        grid.insert_chars(count_of(params));
    } else if action == 'L' {
        grid.insert_lines(count_of(params));
    } else if action == 'M' {
        grid.delete_lines(count_of(params));
    } else if action == 'P' {
        grid.delete_chars(count_of(params));
    } else if action == 'r' {
        let top = match param_at(params, 0) {
            Some(v) => v as usize,
            None => 1,
        };
        let bottom = match param_at(params, 1) {
            Some(v) => v as usize,
            None => grid.rows(),
        };
        grid.set_scroll_region(top.saturating_sub(1), bottom.saturating_sub(1));
    }
}

impl TerminalState {
    /// The state of the parser: what it has read of a sequence that is not
    /// complete yet. It is no part of the terminal's value; only feeding
    /// bytes changes it.
    pub closed spec fn parser_value(&self) -> vte::Parser {
        self.parser
    }

    /// Whether the registry is in order: it holds a target for each id
    /// from 1 up to the next id to be given, and for no other.
    pub closed spec fn registry_ok(&self) -> bool {
        &&& 1 <= self.next_link_id
        &&& forall|id: u32| self.links@.contains_key(id) <==> 1 <= id < self.next_link_id
    }

    /// Well-formedness: the terminal's value satisfies the terminal
    /// invariant, and the registry is in order.
    pub open spec fn wf(&self) -> bool {
        self@.inv() && self.registry_ok()
    }

    /// Creates a terminal of `cols` by `rows` cells in the given colours. The
    /// normal screen keeps [`SCROLLBACK_LINES`] rows of history, the
    /// alternate screen none.
    pub fn new(cols: usize, rows: usize, colors: Colors) -> (term: TerminalState)
        requires
            cols >= 1,
            rows >= 1,
            rows + SCROLLBACK_LINES <= usize::MAX,
        ensures
            term.wf(),
            term@ == TerminalModel::fresh(
                cols as nat,
                rows as nat,
                SCROLLBACK_LINES as nat,
                default_attrs(colors),
            ),
    {
        Self::with_scrollback(cols, rows, SCROLLBACK_LINES, colors)
    }

    /// Creates a terminal whose normal screen keeps `scrollback` rows of
    /// history.
    pub fn with_scrollback(cols: usize, rows: usize, scrollback: usize, colors: Colors) -> (term:
        TerminalState)
        requires
            cols >= 1,
            rows >= 1,
            rows + scrollback <= usize::MAX,
        ensures
            term.wf(),
            term@ == TerminalModel::fresh(
                cols as nat,
                rows as nat,
                scrollback as nat,
                default_attrs(colors),
            ),
    {
        let fg = to_rgb(colors.foreground);
        let bg = to_rgb(colors.background);
        let term = TerminalState {
            normal_grid: ScreenGrid::new(cols, rows, scrollback, fg, bg),
            alternate_grid: ScreenGrid::new(cols, rows, 0, fg, bg),
            active_screen: ActiveScreen::Normal,
            parser: new_parser(),
            attrs: Attrs { fg, bg, flags: CellFlags::empty() },
            scroll_offset: 0,
            cursor_visible: true,
            colors,
            links: HashMap::new(),
            next_link_id: 1,
            current_link_id: None,
            is_dirty: true,
        };
        assert(term@.links =~= Seq::empty());
        term
    }

    /// The grid of the active screen.
    pub fn grid(&self) -> (g: &ScreenGrid)
        ensures
            g@ == self@.grid(),
    {
        match self.active_screen {
            ActiveScreen::Normal => &self.normal_grid,
            ActiveScreen::Alternate => &self.alternate_grid,
        }
    }

    /// Mutable access to the grid of the active screen. What the caller
    /// leaves there becomes the active grid.
    pub fn grid_mut(&mut self) -> (g: &mut ScreenGrid)
        ensures
            final(self).parser_value() == old(self).parser_value(),
            final(self).registry_ok() == old(self).registry_ok(),
            g@ == old(self)@.grid(),
            final(self)@ == old(self)@.with_grid(final(g)@),
    {
        match self.active_screen {
            ActiveScreen::Normal => &mut self.normal_grid,
            ActiveScreen::Alternate => &mut self.alternate_grid,
        }
    }

    /// The grid of the normal screen.
    pub fn normal_grid(&self) -> (g: &ScreenGrid)
        ensures
            g@ == self@.normal,
    {
        &self.normal_grid
    }

    /// The grid of the alternate screen.
    pub fn alternate_grid(&self) -> (g: &ScreenGrid)
        ensures
            g@ == self@.alternate,
    {
        &self.alternate_grid
    }

    /// Which screen is active.
    pub fn active_screen(&self) -> (s: ActiveScreen)
        ensures
            s == self@.active,
    {
        self.active_screen
    }

    /// The current rendition.
    pub fn attrs(&self) -> (a: Attrs)
        ensures
            a == self@.attrs,
    {
        self.attrs
    }

    /// The rendition that SGR 0 restores.
    pub fn default_attrs(&self) -> (a: Attrs)
        ensures
            a == self@.defaults,
    {
        Attrs {
            fg: to_rgb(self.colors.foreground),
            bg: to_rgb(self.colors.background),
            flags: CellFlags::empty(),
        }
    }

    /// Whether the cursor is shown.
    pub fn cursor_visible(&self) -> (v: bool)
        ensures
            v == self@.cursor_visible,
    {
        self.cursor_visible
    }

    /// How many rows the view is shifted into the history.
    pub fn scroll_offset(&self) -> (n: usize)
        ensures
            n == self@.scroll_offset,
    {
        self.scroll_offset
    }

    /// Whether anything changed since the dirty state was last cleared.
    pub fn is_dirty(&self) -> (d: bool)
        ensures
            d == self@.is_dirty,
    {
        self.is_dirty
    }

    /// Marks the terminal as changed.
    pub fn mark_dirty(&mut self)
        ensures
            final(self).parser_value() == old(self).parser_value(),
            final(self).registry_ok() == old(self).registry_ok(),
            final(self)@ == (TerminalModel { is_dirty: true, ..old(self)@ }),
    {
        self.is_dirty = true;
    }

    /// The link that printed characters currently belong to.
    pub fn current_link_id(&self) -> (id: Option<u32>)
        ensures
            id == self@.current_link,
    {
        self.current_link_id
    }

    /// Number of targets in the hyperlink registry.
    pub fn link_count(&self) -> (n: usize)
        ensures
            n == self@.links.len(),
    {
        if self.next_link_id >= 1 {
            (self.next_link_id - 1) as usize
        } else {
            0
        }
    }

    /// The target of link `id`, if the registry holds it.
    pub fn link_url(&self, id: u32) -> (url: Option<&String>)
        requires
            self.wf(),
        ensures
            url is Some <==> self@.link_map().contains_key(id),
            url matches Some(s) ==> s@ == self@.link_map()[id],
    {
        if id >= 1 && id < self.next_link_id {
            let found = self.links.get(&id);
            assert(self.links@.contains_key(id));
            assert(self@.links[id - 1] == self.links@[id]@);
            found
        } else {
            None
        }
    }

    /// Handles a printable character: it is written to the active grid in the
    /// current rendition and under the current link.
    pub fn print(&mut self, c: char)
        requires
            old(self).wf(),
        ensures
            final(self).parser_value() == old(self).parser_value(),
            final(self).wf(),
            final(self)@ == old(self)@.print(c),
    {
        let attrs = self.attrs;
        let link_id = self.current_link_id;
        let grid = self.grid_mut();
        grid.put_char_ex(c, attrs.fg, attrs.bg, attrs.flags, link_id);
    }

    /// Handles a control: line feed, index, next line, carriage return and
    /// backspace act on the active grid, every other control is ignored.
    pub fn execute(&mut self, byte: u8)
        requires
            old(self).wf(),
        ensures
            final(self).parser_value() == old(self).parser_value(),
            final(self).wf(),
            final(self)@ == old(self)@.execute(byte),
    {
        if byte == 0x0A || byte == 0x84 {
            let grid = self.grid_mut();
            grid.line_feed();
        } else if byte == 0x85 {
            let grid = self.grid_mut();
            grid.next_line();
        } else if byte == 0x0D {
            let grid = self.grid_mut();
            grid.carriage_return();
        } else if byte == 0x08 {
            let grid = self.grid_mut();
            grid.backspace();
        }
    }

    /// Handles a private-mode sequence.
    fn private_mode(&mut self, params: &Vec<Vec<u16>>, action: char)
        requires
            old(self).wf(),
        ensures
            final(self).parser_value() == old(self).parser_value(),
            final(self).wf(),
            final(self)@ == old(self)@.private_mode(groups_view(params@), action),
    {
        let mode = param_at(params, 0);
        if mode == Some(1049) {
            if action == 'h' {
                self.active_screen = ActiveScreen::Alternate;
                self.alternate_grid.clear_all();
            } else if action == 'l' {
                self.active_screen = ActiveScreen::Normal;
                self.cursor_visible = true;
                self.normal_grid.request_full_redraw();
            }
        } else if mode == Some(25) && (action == 'h' || action == 'l') {
            self.cursor_visible = action == 'h';
            let grid = self.grid_mut();
            let y = grid.cur_y();
            grid.mark_row_dirty(y);
        }
    }

    /// Handles a complete control sequence.
    pub fn csi_dispatch(&mut self, params: &Vec<Vec<u16>>, intermediates: &Vec<u8>, ignore: bool, action: char)
        requires
            old(self).wf(),
        ensures
            final(self).parser_value() == old(self).parser_value(),
            final(self).wf(),
            final(self)@ == old(self)@.csi(groups_view(params@), intermediates@, action),
    {
        if intermediates.len() > 0 && intermediates[0] == 0x3F {
            self.private_mode(params, action);
        } else if action == 'm' {
            self.attrs = apply_sgr(self.attrs, self.default_attrs(), params);
        } else {
            let grid = self.grid_mut();
            grid_csi_dispatch(grid, params, action);
        }
    }

    /// Makes `url`, which is not empty, the current link: under its id if the
    /// registry holds it, under a new id otherwise.
    fn link_to(&mut self, url: String)
        requires
            old(self).wf(),
            url@.len() > 0,
        ensures
            final(self).parser_value() == old(self).parser_value(),
            final(self).wf(),
            final(self)@ == old(self)@.link_to(url@),
    {
        let ghost links = self@.links;
        let mut id: u32 = 1;
        while id < self.next_link_id
            invariant
                1 <= id <= self.next_link_id,
                *self == *old(self),
                self.wf(),
                links == self@.links,
                forall|j: int| 0 <= j < id - 1 ==> links[j] != url@,
                find_url(links, url@, id - 1) == find_url(links, url@, 0),
            decreases self.next_link_id - id,
        {
            assert(self.links@.contains_key(id));
            assert(links[id - 1] == self.links@[id]@);
            match self.links.get(&id) {
                Some(known) => {
                    if *known == url {
                        self.current_link_id = Some(id);
                        return ;
                    }
                },
                None => {},
            }
            id += 1;
        }
        if self.next_link_id < u32::MAX {
            let id = self.next_link_id;
            let ghost target = url@;
            self.links.insert(id, url);
            self.next_link_id = id + 1;
            self.current_link_id = Some(id);
            proof {
                assert(self@.links =~= links.push(target));
            }
        } else {
            self.current_link_id = None;
        }
    }

    /// Handles an operating system command. Only the hyperlink command is
    /// known; every other command is ignored.
    pub fn osc_dispatch(&mut self, params: &Vec<Vec<u8>>, bell_terminated: bool)
        requires
            old(self).wf(),
        ensures
            final(self).parser_value() == old(self).parser_value(),
            final(self).wf(),
            final(self)@ == old(self)@.osc(bytes_view(params@)),
    {
        if params.len() < 3 {
            return ;
        }
        let code = &params[0];
        if code.len() != 1 || code[0] != 0x38 {
            assert(bytes_view(params@)[0] != seq![0x38u8]) by {
                assert(bytes_view(params@)[0] == code@);
                if code@.len() == 1 {
                    assert(seq![0x38u8][0] == 0x38u8);
                }
            }
            return ;
        }
        assert(bytes_view(params@)[0] =~= seq![0x38u8]);
        assert(bytes_view(params@)[2] == params@[2]@);
        match utf8_text(params[2].as_slice()) {
            Some(text) => {
                if text.is_empty() {
                    self.current_link_id = None;
                } else {
                    self.link_to(text.to_owned());
                }
            },
            None => {
                self.current_link_id = None;
            },
        }
    }

    /// Applies one parser event.
    pub fn perform(&mut self, event: &VtEvent)
        requires
            old(self).wf(),
        ensures
            final(self).parser_value() == old(self).parser_value(),
            final(self).wf(),
            final(self)@ == old(self)@.apply_event(*event),
    {
        match event {
            VtEvent::Print(c) => self.print(*c),
            VtEvent::Execute(byte) => self.execute(*byte),
            VtEvent::Csi { params, intermediates, ignore, action } => self.csi_dispatch(
                params,
                intermediates,
                *ignore,
                *action,
            ),
            VtEvent::Osc { params, bell_terminated } => self.osc_dispatch(params, *bell_terminated),
        }
    }

    /// Applies the events of `events` in order.
    pub fn apply_events(&mut self, events: &Vec<VtEvent>)
        requires
            old(self).wf(),
        ensures
            final(self).parser_value() == old(self).parser_value(),
            final(self).wf(),
            final(self)@ == old(self)@.apply_all(events@),
    {
        let mut i: usize = 0;
        while i < events.len()
            invariant
                i <= events@.len(),
                self.wf(),
                self.parser_value() == old(self).parser_value(),
                self@ == old(self)@.apply_all(events@.subrange(0, i as int)),
            decreases events@.len() - i,
        {
            self.perform(&events[i]);
            proof {
                assert(events@.subrange(0, i + 1).drop_last() =~= events@.subrange(0, i as int));
            }
            i += 1;
        }
        assert(events@.subrange(0, events@.len() as int) =~= events@);
    }

    /// Feeds bytes from the PTY to the parser and applies the events that it
    /// reports. No bytes change nothing. Otherwise the terminal becomes
    /// dirty, the normal screen returns to the live view, the parser reads
    /// the bytes, and the events that it reports are applied in order.
    pub fn feed(&mut self, bytes: &[u8])
        requires
            old(self).wf(),
        ensures
            final(self).wf(),
            final(self)@ == old(self)@.fed(old(self).parser_value(), bytes@),
            final(self).parser_value() == parser_fed(old(self).parser_value(), bytes@),
    {
        if bytes.len() == 0 {
            return ;
        }
        self.is_dirty = true;
        if self.active_screen == ActiveScreen::Normal {
            self.scroll_offset = 0;
        }
        let events = parse_events(&mut self.parser, bytes);
        self.apply_events(&events);
    }

    /// Moves the view by `delta` rows: towards the live view for a positive
    /// `delta`, into the history for a negative one, never past either end.
    /// The terminal becomes dirty if the view moved. The alternate screen
    /// does not scroll.
    pub fn scroll_viewport(&mut self, delta: i32)
        requires
            old(self).wf(),
        ensures
            final(self).parser_value() == old(self).parser_value(),
            final(self).wf(),
            final(self)@ == old(self)@.scroll_viewport(delta as int),
    {
        if self.active_screen == ActiveScreen::Alternate {
            return ;
        }
        let len = self.normal_grid.scrollback_len();
        let wide = delta as i64;
        let raw = if wide >= 0 {
            let down = wide as usize;
            if self.scroll_offset >= down {
                self.scroll_offset - down
            } else {
                0
            }
        } else {
            let up = (-wide) as usize;
            if up >= len || self.scroll_offset >= len - up {
                len
            } else {
                self.scroll_offset + up
            }
        };
        let offset = if raw > len {
            len
        } else {
            raw
        };
        if self.scroll_offset != offset {
            self.scroll_offset = offset;
            self.is_dirty = true;
        }
    }

    /// Clears the terminal's dirty flag and the dirty flags of the active
    /// grid.
    pub fn clear_dirty(&mut self)
        requires
            old(self).wf(),
        ensures
            final(self).parser_value() == old(self).parser_value(),
            final(self).wf(),
            final(self)@ == old(self)@.clear_dirty(),
    {
        self.is_dirty = false;
        let grid = self.grid_mut();
        grid.clear_all_dirty_flags();
    }

    /// Ends a frame: the terminal's dirty flag and the pending full redraw of
    /// the active grid are cleared. The dirty flags of the rows stay: the
    /// shaper clears them row by row.
    pub fn frame_done(&mut self)
        requires
            old(self).wf(),
        ensures
            final(self).parser_value() == old(self).parser_value(),
            final(self).wf(),
            final(self)@ == old(self)@.frame_done(),
    {
        self.is_dirty = false;
        let grid = self.grid_mut();
        grid.clear_full_redraw();
    }

    /// Resizes both screens and marks the terminal dirty.
    pub fn resize(&mut self, cols: usize, rows: usize)
        requires
            old(self).wf(),
            rows + old(self)@.normal.scrollback_capacity <= usize::MAX,
            rows + old(self)@.alternate.scrollback_capacity <= usize::MAX,
        ensures
            final(self).parser_value() == old(self).parser_value(),
            final(self).wf(),
            final(self)@ == old(self)@.resize(cols as nat, rows as nat),
    {
        self.normal_grid.resize(cols, rows);
        self.alternate_grid.resize(cols, rows);
        self.is_dirty = true;
    }

    /// The link under display position `(col, row)` of the active screen, at
    /// the current scroll offset.
    pub fn get_link_at(&self, col: usize, row: usize) -> (id: Option<u32>)
        requires
            self.wf(),
        ensures
            id == self@.link_at(col as nat, row as nat),
    {
        let grid = self.grid();
        match grid.get_display_row(row, self.scroll_offset) {
            Some(r) => {
                if col < r.cells.len() {
                    r.cells[col].link_id
                } else {
                    None
                }
            },
            None => None,
        }
    }
}

} // verus!
