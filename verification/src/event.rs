//! The events of the VT parser, and the parser itself behind the two calls
//! that the terminal makes into it.

use vstd::prelude::*;

verus! {

/// What the parser reports while it reads a byte stream.
#[derive(Debug, Clone, PartialEq, Eq)]
#[allow(inconsistent_fields)]
pub enum VtEvent {
    /// A printable character.
    Print(char),
    /// A C0 or C1 control.
    Execute(u8),
    /// A complete control sequence. Each element of `params` is one
    /// parameter, followed by its sub-parameters.
    Csi { params: Vec<Vec<u16>>, intermediates: Vec<u8>, ignore: bool, action: char },
    /// A complete operating system command, split at its semicolons.
    Osc { params: Vec<Vec<u8>>, bell_terminated: bool },
}

/// The parser's state between two calls: a declared outside type.
#[verifier::external_type_specification]
#[verifier::external_body]
pub struct ExParser<const OSC_RAW_BUF_SIZE: usize>(vte::Parser<OSC_RAW_BUF_SIZE>);

/// The parameter list that the parser hands to a performer: a declared
/// outside type.
#[verifier::external_type_specification]
#[verifier::external_body]
pub struct ExParams(vte::Params);

/// Collects the events of one call of the parser in the order in which they
/// are reported. The events that the terminal does not act on (escape
/// sequences without parameters and device control strings) are dropped.
pub struct EventSink {
    pub events: Vec<VtEvent>,
}

/// The parameter groups of a control sequence as vectors.
///
/// Trusted: this walks the outside parameter list with `vte::Params::iter`,
/// which yields each parameter with its sub-parameters as one slice, and
/// copies the slices. Nothing is claimed of the numbers.
#[verifier::external_body]
fn param_groups(params: &vte::Params) -> (groups: Vec<Vec<u16>>) {
    params.iter().map(|group| group.to_vec()).collect()
}

/// A copy of a byte slice.
fn copy_bytes(bytes: &[u8]) -> (copy: Vec<u8>)
    ensures
        copy@ == bytes@,
{
    let mut copy: Vec<u8> = Vec::new();
    let mut i: usize = 0;
    while i < bytes.len()
        invariant
            i <= bytes@.len(),
            copy@ =~= bytes@.subrange(0, i as int),
        decreases bytes@.len() - i,
    {
        copy.push(bytes[i]);
        i += 1;
    }
    assert(bytes@.subrange(0, bytes@.len() as int) =~= bytes@);
    copy
}

impl vte::Perform for EventSink {
    fn print(&mut self, c: char)
        ensures
            final(self).events@ == old(self).events@.push(VtEvent::Print(c)),
    {
        self.events.push(VtEvent::Print(c));
    }

    fn execute(&mut self, byte: u8)
        ensures
            final(self).events@ == old(self).events@.push(VtEvent::Execute(byte)),
    {
        self.events.push(VtEvent::Execute(byte));
    }

    fn csi_dispatch(&mut self, params: &vte::Params, intermediates: &[u8], ignore: bool, action: char)
        ensures
            final(self).events@.len() == old(self).events@.len() + 1,
            final(self).events@.drop_last() == old(self).events@,
            final(self).events@.last() matches VtEvent::Csi {
                params: _,
                intermediates: copied,
                ignore: flag,
                action: byte,
            } && copied@ == intermediates@ && flag == ignore && byte == action,
    {
        let params = param_groups(params);
        let intermediates = copy_bytes(intermediates);
        self.events.push(VtEvent::Csi { params, intermediates, ignore, action });
        assert(self.events@.drop_last() =~= old(self).events@);
    }

    fn osc_dispatch(&mut self, params: &[&[u8]], bell_terminated: bool)
        ensures
            final(self).events@.len() == old(self).events@.len() + 1,
            final(self).events@.drop_last() == old(self).events@,
            final(self).events@.last() matches VtEvent::Osc { params: copied, bell_terminated: flag }
                && flag == bell_terminated && copied@.len() == params@.len() && forall|i: int|
                0 <= i < params@.len() ==> (#[trigger] copied@[i])@ == params@[i]@,
    {
        let mut copy: Vec<Vec<u8>> = Vec::new();
        let mut i: usize = 0;
        while i < params.len()
            invariant
                i <= params@.len(),
                copy@.len() == i,
                forall|j: int| 0 <= j < i ==> (#[trigger] copy@[j])@ == params@[j]@,
            decreases params@.len() - i,
        {
            copy.push(copy_bytes(params[i]));
            i += 1;
        }
        self.events.push(VtEvent::Osc { params: copy, bell_terminated });
        assert(self.events@.drop_last() =~= old(self).events@);
    }
}

/// A parser in its ground state.
///
/// Trusted: this is `vte::Parser::new`. Nothing is claimed of the value.
#[verifier::external_body]
pub(crate) fn new_parser() -> (parser: vte::Parser) {
    vte::Parser::new()
}

/// The events that a parser in state `parser` reports when it reads `bytes`:
/// the result of `vte::Parser::advance`, which the parser's state and the
/// bytes determine.
pub uninterp spec fn parsed_events(parser: vte::Parser, bytes: Seq<u8>) -> Seq<VtEvent>;

/// The state in which a parser in state `parser` is after it has read
/// `bytes`.
pub uninterp spec fn parser_after(parser: vte::Parser, bytes: Seq<u8>) -> vte::Parser;

/// Feeds `bytes` to the parser and returns the events that it reports, in
/// order.
///
/// Trusted: this is `vte::Parser::advance`, with an [`EventSink`] as the
/// performer. The parser reads nothing but its own state and the bytes, so
/// the events that come back and the state that it is left in are functions
/// of the two: they are the named results [`parsed_events`] and
/// [`parser_after`]. What the events are for given bytes is not stated.
#[verifier::external_body]
pub(crate) fn parse_events(parser: &mut vte::Parser, bytes: &[u8]) -> (events: Vec<VtEvent>)
    ensures
        events@ == parsed_events(*old(parser), bytes@),
        *final(parser) == parser_after(*old(parser), bytes@),
{
    let mut sink = EventSink { events: Vec::new() };
    parser.advance(&mut sink, bytes);
    sink.events
}

/// The text that `bytes` encode, where they are valid UTF-8.
///
/// Trusted: this is `std::str::from_utf8`, which succeeds exactly on valid
/// UTF-8 and then yields the characters that the bytes encode.
#[verifier::external_body]
pub(crate) fn utf8_text(bytes: &[u8]) -> (text: Option<&str>)
    ensures
        text is Some <==> vstd::utf8::valid_utf8(bytes@),
        text matches Some(s) ==> s@ == vstd::utf8::decode_utf8(bytes@),
{
    std::str::from_utf8(bytes).ok()
}

} // verus!
