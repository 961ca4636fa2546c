//! Laws of the interpreter, proved over the terminal's model.

use vstd::prelude::*;
use crate::event::VtEvent;
use crate::grid_laws::{
    lemma_char_ops_inv, lemma_cursor_moves_inv, lemma_erase_inv, lemma_flags_inv,
    lemma_scroll_and_lines_inv, lemma_set_scroll_region_inv, lemma_write_and_feed_inv, same_frame,
};
use crate::grid_model::{min_nat, sub_nat, GridModel};
use crate::terminal_model::{
    bytes_view, count_param, cup_target, find_url, grid_csi, groups_view, param, param_or, sgr_from,
    sgr_step, url_text, TerminalModel,
};

verus! {

/// Whether `action` is the final byte of a sequence that takes a count:
/// the four cursor motions, and the insertion, deletion and erasure of
/// characters and lines.
pub open spec fn takes_count(action: char) -> bool {
    action == 'A' || action == 'B' || action == 'C' || action == 'D' || action == '@' || action
        == 'L' || action == 'M' || action == 'P' || action == 'X'
}

/// Whether the sequence is a private-mode sequence.
pub open spec fn is_private(intermediates: Seq<u8>) -> bool {
    intermediates.len() > 0 && intermediates[0] == 0x3F
}

/// An SGR sequence without parameters, or with the single parameter 0 that
/// stands for none, resets the rendition to the defaults, whatever the
/// rendition was.
pub proof fn law_sgr_reset(t: TerminalModel, intermediates: Seq<u8>)
    requires
        !is_private(intermediates),
    ensures
        t.csi(Seq::empty(), intermediates, 'm').attrs == t.defaults,
        t.csi(seq![seq![0u16]], intermediates, 'm').attrs == t.defaults,
{
    let zero = seq![seq![0u16]];
    assert(param(zero, 0) == Some(0u16));
    assert(sgr_step(t.attrs, t.defaults, zero, 0) == (t.defaults, 1int));
    assert(sgr_from(t.defaults, t.defaults, zero, 1) == t.defaults);
    assert(sgr_from(t.attrs, t.defaults, zero, 0) == t.defaults);
}

/// In a sequence that takes a count, a first parameter of zero, a first
/// parameter of one and no parameter at all have the same effect.
pub proof fn law_zero_parameter_is_one(
    g: GridModel,
    zero: Seq<Seq<u16>>,
    one: Seq<Seq<u16>>,
    action: char,
)
    requires
        takes_count(action),
        param(zero, 0) == Some(0u16),
        param(one, 0) == Some(1u16),
    ensures
        grid_csi(g, zero, action) == grid_csi(g, one, action),
        grid_csi(g, Seq::empty(), action) == grid_csi(g, one, action),
{
}

/// A cursor-position sequence with a row and a column parameter, both
/// counted from one, places the cursor on that row and column counted from
/// zero, clamped to the screen, and clears a deferred wrap.
pub proof fn law_cursor_position(g: GridModel, params: Seq<Seq<u16>>, action: char)
    requires
        g.inv(),
        action == 'H' || action == 'f',
        param(params, 0) is Some,
        param(params, 1) is Some,
    ensures
        ({
            let row = param(params, 0)->0 as nat;
            let col = param(params, 1)->0 as nat;
            let r = grid_csi(g, params, action);
            &&& r.cur_y == min_nat(sub_nat(row, 1), sub_nat(g.rows, 1))
            &&& r.cur_x == min_nat(sub_nat(col, 1), sub_nat(g.cols, 1))
            &&& r.cur_y < g.rows
            &&& r.cur_x < g.cols
            &&& !r.deferred_wrap
        }),
{
}

/// Whether `b` can have come from `a` by events: the screens have their
/// sizes, capacities and default colours, the default rendition and the
/// dirty flag are the same, and the registry of `a` is the beginning of the
/// registry of `b`.
pub open spec fn succeeds(b: TerminalModel, a: TerminalModel) -> bool {
    &&& same_frame(b.normal, a.normal)
    &&& same_frame(b.alternate, a.alternate)
    &&& b.defaults == a.defaults
    &&& b.is_dirty == a.is_dirty
    &&& a.links.len() <= b.links.len()
    &&& forall|i: int| 0 <= i < a.links.len() ==> #[trigger] b.links[i] == a.links[i]
}

/// A control sequence that acts on the grid keeps the grid invariant.
pub proof fn lemma_grid_csi_inv(g: GridModel, params: Seq<Seq<u16>>, action: char)
    requires
        g.inv(),
    ensures
        grid_csi(g, params, action).inv(),
        same_frame(grid_csi(g, params, action), g),
{
    let n = count_param(params);
    if action == 'A' || action == 'B' || action == 'C' || action == 'D' {
        lemma_cursor_moves_inv(g, n, 0);
    } else if action == 'H' || action == 'f' {
        lemma_cursor_moves_inv(g, cup_target(params).1, cup_target(params).0);
    } else if action == 'J' || action == 'K' {
        lemma_erase_inv(g, 0);
    } else if action == 'X' || action == '@' || action == 'P' {
        lemma_char_ops_inv(g, n);
    } else if action == 'L' || action == 'M' {
        lemma_scroll_and_lines_inv(g, n);
    } else if action == 'r' {
        lemma_set_scroll_region_inv(
            g,
            sub_nat(param_or(params, 0, 1), 1),
            sub_nat(param_or(params, 1, g.rows), 1),
        );
    }
}

/// Where a target is found in the registry, it stands at the position
/// found; where none is found, the registry does not hold it.
pub proof fn lemma_find_url(links: Seq<Seq<char>>, url: Seq<char>, from: int)
    requires
        0 <= from,
    ensures
        match find_url(links, url, from) {
            Some(i) => from <= i < links.len() && links[i] == url,
            None => forall|j: int| from <= j < links.len() ==> links[j] != url,
        },
    decreases links.len() - from,
{
    if from < links.len() && links[from] != url {
        lemma_find_url(links, url, from + 1);
    }
}

/// A hyperlink command keeps the terminal invariant.
pub proof fn lemma_link_to_inv(t: TerminalModel, url: Seq<char>)
    requires
        t.inv(),
    ensures
        t.link_to(url).inv(),
        succeeds(t.link_to(url), t),
{
    lemma_find_url(t.links, url, 0);
}

/// Replacing the active grid by one that satisfies the grid invariant and
/// has the same frame keeps the terminal invariant.
pub proof fn lemma_with_grid_inv(t: TerminalModel, g: GridModel)
    requires
        t.inv(),
        g.inv(),
        same_frame(g, t.grid()),
    ensures
        t.with_grid(g).inv(),
        succeeds(t.with_grid(g), t),
{
}

/// A printed character keeps the terminal invariant.
pub proof fn lemma_print_inv(t: TerminalModel, c: char)
    requires
        t.inv(),
    ensures
        t.print(c).inv(),
        succeeds(t.print(c), t),
{
    lemma_write_and_feed_inv(t.grid(), t.styled(c));
    lemma_with_grid_inv(t, t.grid().put_char(t.styled(c)));
}

/// A control keeps the terminal invariant.
pub proof fn lemma_execute_inv(t: TerminalModel, byte: u8)
    requires
        t.inv(),
    ensures
        t.execute(byte).inv(),
        succeeds(t.execute(byte), t),
{
    let g = t.grid();
    lemma_write_and_feed_inv(g, t.styled(' '));
    if byte == 0x0A || byte == 0x84 {
        lemma_with_grid_inv(t, g.line_feed());
    } else if byte == 0x85 {
        lemma_with_grid_inv(t, g.next_line());
    } else if byte == 0x0D {
        lemma_with_grid_inv(t, g.carriage_return());
    } else if byte == 0x08 {
        lemma_with_grid_inv(t, g.backspace());
    }
}

/// A private-mode sequence keeps the terminal invariant.
pub proof fn lemma_private_mode_inv(t: TerminalModel, params: Seq<Seq<u16>>, action: char)
    requires
        t.inv(),
    ensures
        t.private_mode(params, action).inv(),
        succeeds(t.private_mode(params, action), t),
{
    let mode = param(params, 0);
    if mode == Some(1049u16) {
        if action == 'h' {
            lemma_erase_inv(t.alternate, 0);
        }
    } else if mode == Some(25u16) && (action == 'h' || action == 'l') {
        lemma_flags_inv(t.grid());
        let shown = TerminalModel { cursor_visible: action == 'h', ..t };
        lemma_with_grid_inv(shown, t.grid().mark_dirty(t.grid().cur_y));
    }
}

/// A control sequence keeps the terminal invariant.
pub proof fn lemma_csi_inv(t: TerminalModel, params: Seq<Seq<u16>>, intermediates: Seq<u8>, action: char)
    requires
        t.inv(),
    ensures
        t.csi(params, intermediates, action).inv(),
        succeeds(t.csi(params, intermediates, action), t),
{
    if is_private(intermediates) {
        lemma_private_mode_inv(t, params, action);
    } else if action == 'm' {
    } else {
        lemma_grid_csi_inv(t.grid(), params, action);
        lemma_with_grid_inv(t, grid_csi(t.grid(), params, action));
    }
}

/// An operating system command keeps the terminal invariant.
pub proof fn lemma_osc_inv(t: TerminalModel, params: Seq<Seq<u8>>)
    requires
        t.inv(),
    ensures
        t.osc(params).inv(),
        succeeds(t.osc(params), t),
{
    if params.len() >= 3 {
        lemma_link_to_inv(t, url_text(params[2]));
    }
}

/// Each event keeps the terminal invariant, and leaves the sizes of the
/// screens, the default rendition and the targets already registered as
/// they are.
pub proof fn law_event_keeps_invariant(t: TerminalModel, event: VtEvent)
    requires
        t.inv(),
    ensures
        t.apply_event(event).inv(),
        succeeds(t.apply_event(event), t),
{
    match event {
        VtEvent::Print(c) => {
            lemma_print_inv(t, c);
        },
        VtEvent::Execute(byte) => {
            lemma_execute_inv(t, byte);
        },
        VtEvent::Csi { params, intermediates, ignore, action } => {
            lemma_csi_inv(t, groups_view(params@), intermediates@, action);
        },
        VtEvent::Osc { params, bell_terminated } => {
            lemma_osc_inv(t, bytes_view(params@));
        },
    }
}

/// Any sequence of events keeps the terminal invariant, and leaves the
/// sizes of the screens, the default rendition and the targets already
/// registered as they are.
pub proof fn law_events_keep_invariant(t: TerminalModel, events: Seq<VtEvent>)
    requires
        t.inv(),
    ensures
        t.apply_all(events).inv(),
        succeeds(t.apply_all(events), t),
    decreases events.len(),
{
    if events.len() > 0 {
        law_events_keep_invariant(t, events.drop_last());
        law_event_keeps_invariant(t.apply_all(events.drop_last()), events.last());
    }
}

/// Whatever arrives from the PTY, batch after batch, the terminal keeps its
/// invariant, the sizes of its screens and the targets already registered.
/// After the first batch it is dirty.
pub proof fn law_feeding_keeps_invariant(t: TerminalModel, batches: Seq<Seq<VtEvent>>)
    requires
        t.inv(),
    ensures
        t.fed_all(batches).inv(),
        same_frame(t.fed_all(batches).normal, t.normal),
        same_frame(t.fed_all(batches).alternate, t.alternate),
        t.fed_all(batches).defaults == t.defaults,
        t.links.len() <= t.fed_all(batches).links.len(),
        forall|i: int| 0 <= i < t.links.len() ==> #[trigger] t.fed_all(batches).links[i] == t.links[i],
        batches.len() > 0 ==> t.fed_all(batches).is_dirty,
    decreases batches.len(),
{
    if batches.len() > 0 {
        law_feeding_keeps_invariant(t, batches.drop_last());
        let before = t.fed_all(batches.drop_last()).input_arrived();
        law_events_keep_invariant(before, batches.last());
    }
}

/// Feeding bytes keeps the terminal invariant, the sizes of the screens and
/// the targets already registered, whatever the parser reports for them; and
/// any bytes at all leave the terminal dirty.
pub proof fn law_fed_keeps_invariant(t: TerminalModel, parser: vte::Parser, bytes: Seq<u8>)
    requires
        t.inv(),
    ensures
        t.fed(parser, bytes).inv(),
        same_frame(t.fed(parser, bytes).normal, t.normal),
        same_frame(t.fed(parser, bytes).alternate, t.alternate),
        t.fed(parser, bytes).defaults == t.defaults,
        t.links.len() <= t.fed(parser, bytes).links.len(),
        forall|i: int|
            0 <= i < t.links.len() ==> #[trigger] t.fed(parser, bytes).links[i] == t.links[i],
        bytes.len() > 0 ==> t.fed(parser, bytes).is_dirty,
        bytes.len() == 0 ==> t.fed(parser, bytes) == t,
{
    if bytes.len() > 0 {
        law_events_keep_invariant(
            t.input_arrived(),
            crate::event::parsed_events(parser, bytes),
        );
    }
}

} // verus!
