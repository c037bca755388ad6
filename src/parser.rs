use vstd::prelude::*;
use crate::dispatch::{
    csi_events, csi_events_exec, esc_events, esc_events_exec, execute_events,
    execute_events_exec, osc_events, osc_events_exec, osc_params_view,
};
use crate::traits::{event_view, events_view, EventView, ParsedEvent, TerminalParser};
use crate::utf8::{
    char_of, idle, scalar_or_replacement_exec, utf8_cont, utf8_lead, valid_scalar, Utf8Decoder,
    string_from_chars,
};

verus! {

/// Most parameters a CSI sequence may have; more make it ignored.
pub const MAX_PARAMS: usize = 32;

/// Most intermediate bytes a sequence may have; more make it ignored.
pub const MAX_INTERMEDIATES: usize = 2;

/// Most `;`-separated parts an OSC string is split into; later `;` bytes
/// stay in the last part.
pub const MAX_OSC_PARAMS: usize = 16;

/// States of the VT500 byte automaton.
#[derive(Clone, Copy, Debug, PartialEq, Eq, Structural)]
pub enum ParserState {
    Ground,
    Escape,
    EscapeIntermediate,
    CsiEntry,
    CsiParam,
    CsiIntermediate,
    CsiIgnore,
    OscString,
    /// DCS, SOS, PM and APC strings, whose content is dropped.
    StringIgnore,
}

/// One unit of parser output: a printed character or a non-text event.
pub enum Atom {
    Ch(char),
    Ev(EventView),
}

/// The output units of one event: a text gives one unit per character.
pub open spec fn view_atoms(e: EventView) -> Seq<Atom> {
    match e {
        EventView::Text(s) => chars_atoms(s),
        _ => seq![Atom::Ev(e)],
    }
}

pub open spec fn ch_atom(c: char) -> Atom {
    Atom::Ch(c)
}

pub open spec fn chars_atoms(cs: Seq<char>) -> Seq<Atom> {
    Seq::new(cs.len(), |i: int| ch_atom(cs[i]))
}

pub open spec fn views_atoms(es: Seq<EventView>) -> Seq<Atom>
    decreases es.len(),
{
    if es.len() == 0 {
        Seq::empty()
    } else {
        views_atoms(es.drop_last()) + view_atoms(es.last())
    }
}

/// The output units of a sequence of parsed events.
pub open spec fn flatten(es: Seq<ParsedEvent>) -> Seq<Atom> {
    views_atoms(events_view(es))
}

pub open spec fn is_text(e: EventView) -> bool {
    match e {
        EventView::Text(_) => true,
        _ => false,
    }
}

pub open spec fn text_len(e: EventView) -> nat {
    match e {
        EventView::Text(s) => s.len(),
        _ => 0,
    }
}

/// Every text is non-empty and no two texts are adjacent: printable
/// characters between other events form one text.
pub open spec fn coalesced(es: Seq<EventView>) -> bool {
    &&& forall|i: int| 0 <= i < es.len() && is_text(#[trigger] es[i]) ==> text_len(es[i]) > 0
    &&& forall|i: int| 0 <= i < es.len() - 1 ==> !(is_text(#[trigger] es[i]) && is_text(es[i + 1]))
}

pub open spec fn opt_atoms(o: Option<char>) -> Seq<Atom> {
    match o {
        Some(c) => seq![Atom::Ch(c)],
        None => Seq::empty(),
    }
}

/// What the automaton holds between bytes.
pub struct ParserModel {
    pub state: ParserState,
    pub utf8: Utf8Decoder,
    pub params: Seq<u16>,
    pub param: u16,
    /// Inside a `:` sub-parameter, whose digits are skipped.
    pub sub: bool,
    pub inter: Seq<u8>,
    pub ignoring: bool,
    pub osc: Seq<Seq<u8>>,
}

pub open spec fn is_execute(b: u8) -> bool {
    b <= 0x17 || b == 0x19 || (0x1C <= b && b <= 0x1F)
}

pub open spec fn with_state(p: ParserModel, s: ParserState) -> ParserModel {
    ParserModel { state: s, ..p }
}

pub open spec fn escape_entry(p: ParserModel) -> ParserModel {
    ParserModel { state: ParserState::Escape, inter: Seq::empty(), ignoring: false, ..p }
}

pub open spec fn csi_entry(p: ParserModel) -> ParserModel {
    ParserModel {
        state: ParserState::CsiEntry,
        params: Seq::empty(),
        param: 0,
        sub: false,
        inter: Seq::empty(),
        ignoring: false,
        ..p
    }
}

pub open spec fn osc_entry(p: ParserModel) -> ParserModel {
    ParserModel { state: ParserState::OscString, osc: seq![Seq::empty()], ..p }
}

pub open spec fn collect(p: ParserModel, b: u8) -> ParserModel {
    if p.inter.len() < MAX_INTERMEDIATES {
        ParserModel { inter: p.inter.push(b), ..p }
    } else {
        ParserModel { ignoring: true, ..p }
    }
}

/// `v` with decimal digit `d` appended, saturating at `u16::MAX`.
pub open spec fn digit_step(v: u16, d: u8) -> u16 {
    if v * 10 + d > 0xFFFF {
        0xFFFF
    } else {
        (v * 10 + d) as u16
    }
}

/// A digit, `:` or `;` inside a CSI sequence.
pub open spec fn param_byte(p: ParserModel, b: u8) -> ParserModel {
    if b == 0x3B {
        if p.params.len() < MAX_PARAMS {
            ParserModel { params: p.params.push(p.param), param: 0, sub: false, ..p }
        } else {
            ParserModel { ignoring: true, param: 0, sub: false, ..p }
        }
    } else if b == 0x3A {
        ParserModel { sub: true, ..p }
    } else if p.sub {
        p
    } else {
        ParserModel { param: digit_step(p.param, (b - 0x30) as u8), ..p }
    }
}

/// A final byte ends a CSI sequence: the last parameter joins the others
/// and the sequence is translated, unless it is to be ignored.
pub open spec fn csi_dispatch_m(p: ParserModel, b: u8) -> (ParserModel, Seq<Atom>) {
    let full = p.params.len() >= MAX_PARAMS;
    (
        ParserModel {
            state: ParserState::Ground,
            params: if full { p.params } else { p.params.push(p.param) },
            ..p
        },
        if p.ignoring || full {
            Seq::empty()
        } else {
            views_atoms(csi_events(p.params.push(p.param), p.inter, b))
        },
    )
}

pub open spec fn osc_put(p: ParserModel, b: u8) -> ParserModel {
    if p.osc.len() == 0 {
        ParserModel { osc: seq![seq![b]], ..p }
    } else {
        ParserModel { osc: p.osc.update(p.osc.len() - 1, p.osc.last().push(b)), ..p }
    }
}

pub open spec fn osc_byte(p: ParserModel, b: u8) -> (ParserModel, Seq<Atom>) {
    if b == 0x07 {
        (with_state(p, ParserState::Ground), views_atoms(osc_events(p.osc)))
    } else if b == 0x3B && p.osc.len() < MAX_OSC_PARAMS {
        (ParserModel { osc: p.osc.push(Seq::empty()), ..p }, Seq::empty())
    } else if b >= 0x20 {
        (osc_put(p, b), Seq::empty())
    } else {
        (p, Seq::empty())
    }
}

pub open spec fn ground_byte(p: ParserModel, b: u8) -> (ParserModel, Seq<Atom>) {
    if is_execute(b) {
        (p, views_atoms(execute_events(b)))
    } else if b < 0x7F {
        (p, seq![Atom::Ch(char_of(b as u32))])
    } else if b == 0x7F {
        (p, Seq::empty())
    } else {
        (ParserModel { utf8: utf8_lead(b).0, ..p }, opt_atoms(utf8_lead(b).1))
    }
}

pub open spec fn escape_byte(p: ParserModel, b: u8) -> (ParserModel, Seq<Atom>) {
    if is_execute(b) {
        (p, views_atoms(execute_events(b)))
    } else if 0x20 <= b && b <= 0x2F {
        (with_state(collect(p, b), ParserState::EscapeIntermediate), Seq::empty())
    } else if b == 0x5B {
        (csi_entry(p), Seq::empty())
    } else if b == 0x5D {
        (osc_entry(p), Seq::empty())
    } else if b == 0x50 || b == 0x58 || b == 0x5E || b == 0x5F {
        (with_state(p, ParserState::StringIgnore), Seq::empty())
    } else if 0x30 <= b && b <= 0x7E {
        (with_state(p, ParserState::Ground), views_atoms(esc_events(p.inter, p.ignoring, b)))
    } else {
        (p, Seq::empty())
    }
}

pub open spec fn escape_intermediate_byte(p: ParserModel, b: u8) -> (ParserModel, Seq<Atom>) {
    if is_execute(b) {
        (p, views_atoms(execute_events(b)))
    } else if 0x20 <= b && b <= 0x2F {
        (collect(p, b), Seq::empty())
    } else if 0x30 <= b && b <= 0x7E {
        (with_state(p, ParserState::Ground), views_atoms(esc_events(p.inter, p.ignoring, b)))
    } else {
        (p, Seq::empty())
    }
}

pub open spec fn csi_entry_byte(p: ParserModel, b: u8) -> (ParserModel, Seq<Atom>) {
    if is_execute(b) {
        (p, views_atoms(execute_events(b)))
    } else if 0x30 <= b && b <= 0x3B {
        (with_state(param_byte(p, b), ParserState::CsiParam), Seq::empty())
    } else if 0x3C <= b && b <= 0x3F {
        (with_state(collect(p, b), ParserState::CsiParam), Seq::empty())
    } else if 0x20 <= b && b <= 0x2F {
        (with_state(collect(p, b), ParserState::CsiIntermediate), Seq::empty())
    } else if 0x40 <= b && b <= 0x7E {
        csi_dispatch_m(p, b)
    } else {
        (p, Seq::empty())
    }
}

pub open spec fn csi_param_byte(p: ParserModel, b: u8) -> (ParserModel, Seq<Atom>) {
    if is_execute(b) {
        (p, views_atoms(execute_events(b)))
    } else if 0x30 <= b && b <= 0x3B {
        (param_byte(p, b), Seq::empty())
    } else if 0x3C <= b && b <= 0x3F {
        (with_state(p, ParserState::CsiIgnore), Seq::empty())
    } else if 0x20 <= b && b <= 0x2F {
        (with_state(collect(p, b), ParserState::CsiIntermediate), Seq::empty())
    } else if 0x40 <= b && b <= 0x7E {
        csi_dispatch_m(p, b)
    } else {
        (p, Seq::empty())
    }
}

pub open spec fn csi_intermediate_byte(p: ParserModel, b: u8) -> (ParserModel, Seq<Atom>) {
    if is_execute(b) {
        (p, views_atoms(execute_events(b)))
    } else if 0x20 <= b && b <= 0x2F {
        (collect(p, b), Seq::empty())
    } else if 0x30 <= b && b <= 0x3F {
        (with_state(p, ParserState::CsiIgnore), Seq::empty())
    } else if 0x40 <= b && b <= 0x7E {
        csi_dispatch_m(p, b)
    } else {
        (p, Seq::empty())
    }
}

pub open spec fn csi_ignore_byte(p: ParserModel, b: u8) -> (ParserModel, Seq<Atom>) {
    if is_execute(b) {
        (p, views_atoms(execute_events(b)))
    } else if 0x40 <= b && b <= 0x7E {
        (with_state(p, ParserState::Ground), Seq::empty())
    } else {
        (p, Seq::empty())
    }
}

/// A byte read with no UTF-8 sequence under way. CAN and SUB cancel any
/// sequence; ESC starts a new one (and ends an OSC string).
pub open spec fn step_fresh(p: ParserModel, b: u8) -> (ParserModel, Seq<Atom>) {
    if b == 0x18 || b == 0x1A {
        (with_state(p, ParserState::Ground), Seq::empty())
    } else if b == 0x1B {
        (
            escape_entry(p),
            if p.state == ParserState::OscString {
                views_atoms(osc_events(p.osc))
            } else {
                Seq::empty()
            },
        )
    } else {
        match p.state {
            ParserState::Ground => ground_byte(p, b),
            ParserState::Escape => escape_byte(p, b),
            ParserState::EscapeIntermediate => escape_intermediate_byte(p, b),
            ParserState::CsiEntry => csi_entry_byte(p, b),
            ParserState::CsiParam => csi_param_byte(p, b),
            ParserState::CsiIntermediate => csi_intermediate_byte(p, b),
            ParserState::CsiIgnore => csi_ignore_byte(p, b),
            ParserState::OscString => osc_byte(p, b),
            ParserState::StringIgnore => (p, Seq::empty()),
        }
    }
}

/// One byte: the automaton's next state and the output it gives. Inside a
/// UTF-8 sequence a byte that does not continue it gives U+FFFD and is then
/// read afresh.
pub open spec fn step(p: ParserModel, b: u8) -> (ParserModel, Seq<Atom>) {
    if p.state == ParserState::Ground && p.utf8.left > 0 {
        if p.utf8.lo <= b && b <= p.utf8.hi {
            (ParserModel { utf8: utf8_cont(p.utf8, b).0, ..p }, opt_atoms(utf8_cont(p.utf8, b).1))
        } else {
            let r = step_fresh(ParserModel { utf8: idle(), ..p }, b);
            (r.0, seq![Atom::Ch('\u{FFFD}')] + r.1)
        }
    } else {
        step_fresh(p, b)
    }
}

/// Bytes read one after another: the final state and all the output.
pub open spec fn run(p: ParserModel, bs: Seq<u8>) -> (ParserModel, Seq<Atom>)
    decreases bs.len(),
{
    if bs.len() == 0 {
        (p, Seq::empty())
    } else {
        let r = run(p, bs.drop_last());
        let s = step(r.0, bs.last());
        (s.0, r.1 + s.1)
    }
}

/// The state of a new parser.
pub open spec fn initial() -> ParserModel {
    ParserModel {
        state: ParserState::Ground,
        utf8: idle(),
        params: Seq::empty(),
        param: 0,
        sub: false,
        inter: Seq::empty(),
        ignoring: false,
        osc: Seq::empty(),
    }
}

/// Collects parser output: the events so far and the text not yet closed.
struct TerminalPerformer {
    events: Vec<ParsedEvent>,
    current_text: Vec<char>,
}

impl TerminalPerformer {
    /// Everything handed in so far, as output units.
    closed spec fn pending(&self) -> Seq<Atom> {
        flatten(self.events@) + chars_atoms(self.current_text@)
    }

    closed spec fn wf(&self) -> bool {
        &&& coalesced(events_view(self.events@))
        &&& (self.events@.len() > 0 ==> !is_text(event_view(self.events@.last())))
    }

    closed spec fn is_empty(&self) -> bool {
        self.events@.len() == 0 && self.current_text@.len() == 0
    }

    fn new() -> (r: TerminalPerformer)
        ensures
            r.wf(),
            r.is_empty(),
            r.pending() == Seq::<Atom>::empty(),
    {
        let r = TerminalPerformer { events: Vec::new(), current_text: Vec::new() };
        assert(events_view(r.events@) =~= Seq::<EventView>::empty());
        assert(r.pending() =~= Seq::<Atom>::empty());
        r
    }

    /// Adds a printed character to the open text.
    fn print(&mut self, c: char)
        requires
            old(self).wf(),
        ensures
            final(self).wf(),
            final(self).pending() == old(self).pending().push(Atom::Ch(c)),
    {
        let ghost before = self.pending();
        self.current_text.push(c);
        assert(chars_atoms(self.current_text@) =~= chars_atoms(old(self).current_text@).push(Atom::Ch(c)));
        assert(self.pending() =~= before.push(Atom::Ch(c)));
    }

    /// Closes the open text, if any, as a text event.
    fn flush_text(&mut self)
        requires
            old(self).wf(),
        ensures
            coalesced(events_view(final(self).events@)),
            final(self).pending() == old(self).pending(),
            final(self).current_text@.len() == 0,
    {
        if self.current_text.len() > 0 {
            let ghost before = self.pending();
            let ghost ev = self.events@;
            let text = string_from_chars(&self.current_text);
            self.events.push(ParsedEvent::Text(text));
            self.current_text = Vec::new();
            assert(events_view(self.events@) =~= events_view(ev).push(EventView::Text(text@)));
            assert(events_view(self.events@).drop_last() =~= events_view(ev));
            assert(chars_atoms(self.current_text@) =~= Seq::<Atom>::empty());
            assert(self.pending() =~= before);
        }
    }

    /// Hands in one event. A text adds its characters to the open text.
    fn emit(&mut self, e: ParsedEvent)
        requires
            old(self).wf(),
        ensures
            final(self).wf(),
            final(self).pending() == old(self).pending() + view_atoms(event_view(e)),
    {
        let ghost before = self.pending();
        match e {
            ParsedEvent::Text(s) => {
                let n = s.unicode_len();
                let mut i: usize = 0;
                while i < n
                    invariant
                        n == s@.len(),
                        i <= n,
                        self.wf(),
                        self.pending() == before + chars_atoms(s@.subrange(0, i as int)),
                    decreases n - i,
                {
                    let c = s.get_char(i);
                    self.print(c);
                    assert(chars_atoms(s@.subrange(0, i + 1)) =~= chars_atoms(s@.subrange(0, i as int)).push(Atom::Ch(c)));
                    i = i + 1;
                }
                assert(s@.subrange(0, n as int) =~= s@);
            },
            _ => {
                self.flush_text();
                let ghost ev = self.events@;
                self.events.push(e);
                assert(events_view(self.events@) =~= events_view(ev).push(event_view(e)));
                assert(events_view(self.events@).drop_last() =~= events_view(ev));
                assert(chars_atoms(self.current_text@) =~= Seq::<Atom>::empty());
                assert(self.pending() =~= before + view_atoms(event_view(e)));
            },
        }
    }

    /// Hands in events in order.
    fn emit_all(&mut self, events: Vec<ParsedEvent>)
        requires
            old(self).wf(),
        ensures
            final(self).wf(),
            final(self).pending() == old(self).pending() + views_atoms(events_view(events@)),
    {
        let ghost before = self.pending();
        let ghost es = events_view(events@);
        let mut rest = events;
        let n = rest.len();
        let mut k: usize = 0;
        while rest.len() > 0
            invariant
                es.len() == n,
                k + rest@.len() == n,
                events_view(rest@) == es.subrange(k as int, n as int),
                self.wf(),
                self.pending() == before + views_atoms(es.subrange(0, k as int)),
            decreases rest@.len(),
        {
            let ghost rb = rest@;
            let e = rest.remove(0);
            assert(event_view(e) == es[k as int]) by {
                assert(events_view(rb)[0] == es.subrange(k as int, n as int)[0]);
            }
            assert(events_view(rest@) =~= es.subrange(k + 1, n as int)) by {
                assert forall|j: int| 0 <= j < rest@.len() implies events_view(rest@)[j]
                    == es.subrange(k + 1, n as int)[j] by {
                    assert(rest@[j] == rb[j + 1]);
                    assert(events_view(rb)[j + 1] == es.subrange(k as int, n as int)[j + 1]);
                }
            }
            self.emit(e);
            assert(es.subrange(0, k + 1).drop_last() =~= es.subrange(0, k as int));
            k = k + 1;
        }
        assert(es.subrange(0, n as int) =~= es);
    }

    /// Closes the open text and hands back all events, leaving none.
    fn take_events(&mut self) -> (r: Vec<ParsedEvent>)
        requires
            old(self).wf(),
        ensures
            final(self).wf(),
            final(self).is_empty(),
            flatten(r@) == old(self).pending(),
            coalesced(events_view(r@)),
    {
        self.flush_text();
        let mut out: Vec<ParsedEvent> = Vec::new();
        std::mem::swap(&mut out, &mut self.events);
        assert(events_view(self.events@) =~= Seq::<EventView>::empty());
        assert(chars_atoms(self.current_text@) =~= Seq::<Atom>::empty());
        assert(flatten(out@) =~= flatten(out@) + chars_atoms(Seq::<char>::empty()));
        out
    }
}

/// Resumable VT500-style parser: bytes in, parsed events out. The
/// automaton's state carries over from one `parse` call to the next, so a
/// sequence split across calls parses as a whole.
pub struct VteParser {
    state: ParserState,
    utf8: Utf8Decoder,
    params: Vec<u16>,
    param: u16,
    sub: bool,
    inter: Vec<u8>,
    ignoring: bool,
    osc: Vec<Vec<u8>>,
}

impl View for VteParser {
    type V = ParserModel;

    closed spec fn view(&self) -> ParserModel {
        ParserModel {
            state: self.state,
            utf8: self.utf8,
            params: self.params@,
            param: self.param,
            sub: self.sub,
            inter: self.inter@,
            ignoring: self.ignoring,
            osc: osc_params_view(self.osc@),
        }
    }
}

impl VteParser {
    pub fn new() -> (r: VteParser)
        ensures
            r@ == initial(),
    {
        let r = VteParser {
            state: ParserState::Ground,
            utf8: Utf8Decoder::new(),
            params: Vec::new(),
            param: 0,
            sub: false,
            inter: Vec::new(),
            ignoring: false,
            osc: Vec::new(),
        };
        assert(osc_params_view(r.osc@) =~= Seq::<Seq<u8>>::empty());
        assert(r@ =~= initial());
        r
    }

    /// Parses a chunk of bytes. The output, read as characters and events,
    /// is what the automaton gives for these bytes from its current state;
    /// printable characters between other events form one text.
    pub fn parse(&mut self, data: &[u8]) -> (r: Vec<ParsedEvent>)
        ensures
            final(self)@ == run(old(self)@, data@).0,
            flatten(r@) == run(old(self)@, data@).1,
            coalesced(events_view(r@)),
    {
        let mut perf = TerminalPerformer::new();
        let ghost p0 = self@;
        let n = data.len();
        let mut i: usize = 0;
        while i < n
            invariant
                n == data@.len(),
                i <= n,
                perf.wf(),
                self@ == run(p0, data@.subrange(0, i as int)).0,
                perf.pending() == run(p0, data@.subrange(0, i as int)).1,
            decreases n - i,
        {
            assert(data@.subrange(0, i + 1).drop_last() =~= data@.subrange(0, i as int));
            self.advance(data[i], &mut perf);
            i = i + 1;
        }
        assert(data@.subrange(0, n as int) =~= data@);
        perf.take_events()
    }

    /// Events held back from an earlier call: there are none, since each
    /// `parse` hands out all of its events.
    pub fn take_events(&mut self) -> (r: Vec<ParsedEvent>)
        ensures
            r@.len() == 0,
            final(self)@ == old(self)@,
    {
        Vec::new()
    }

    fn emit_views(perf: &mut TerminalPerformer, events: Vec<ParsedEvent>)
        requires
            old(perf).wf(),
        ensures
            final(perf).wf(),
            final(perf).pending() == old(perf).pending() + views_atoms(events_view(events@)),
    {
        perf.emit_all(events);
    }

    fn collect(&mut self, b: u8)
        ensures
            final(self)@ == collect(old(self)@, b),
    {
        if self.inter.len() < MAX_INTERMEDIATES {
            self.inter.push(b);
        } else {
            self.ignoring = true;
        }
    }

    fn param_byte(&mut self, b: u8)
        requires
            0x30 <= b <= 0x3B,
        ensures
            final(self)@ == param_byte(old(self)@, b),
    {
        if b == 0x3B {
            if self.params.len() < MAX_PARAMS {
                self.params.push(self.param);
            } else {
                self.ignoring = true;
            }
            self.param = 0;
            self.sub = false;
        } else if b == 0x3A {
            self.sub = true;
        } else if !self.sub {
            let v = self.param as u32 * 10 + (b - 0x30) as u32;
            self.param = if v > 0xFFFF { 0xFFFF } else { v as u16 };
        }
    }

    fn csi_dispatch(&mut self, b: u8, perf: &mut TerminalPerformer)
        requires
            old(perf).wf(),
        ensures
            final(perf).wf(),
            final(self)@ == csi_dispatch_m(old(self)@, b).0,
            final(perf).pending() == old(perf).pending() + csi_dispatch_m(old(self)@, b).1,
    {
        let full = self.params.len() >= MAX_PARAMS;
        if !full {
            self.params.push(self.param);
        }
        self.state = ParserState::Ground;
        if !self.ignoring && !full {
            let events = csi_events_exec(&self.params, &self.inter, b);
            Self::emit_views(perf, events);
        } else {
            assert(perf.pending() =~= perf.pending() + Seq::<Atom>::empty());
        }
    }

    fn osc_dispatch(&self, perf: &mut TerminalPerformer)
        requires
            old(perf).wf(),
        ensures
            final(perf).wf(),
            final(perf).pending() == old(perf).pending() + views_atoms(osc_events(self@.osc)),
    {
        let events = osc_events_exec(&self.osc);
        Self::emit_views(perf, events);
    }

    fn osc_put(&mut self, b: u8)
        ensures
            final(self)@ == osc_put(old(self)@, b),
    {
        let ghost o = self.osc@;
        match self.osc.pop() {
            Some(mut last) => {
                last.push(b);
                self.osc.push(last);
                assert(osc_params_view(self.osc@) =~= osc_params_view(o).update(
                    o.len() - 1,
                    osc_params_view(o).last().push(b),
                ));
            },
            None => {
                let mut v: Vec<u8> = Vec::new();
                v.push(b);
                self.osc.push(v);
                assert(osc_params_view(self.osc@) =~= seq![seq![b]]);
            },
        }
    }

    fn execute(&self, b: u8, perf: &mut TerminalPerformer)
        requires
            old(perf).wf(),
        ensures
            final(perf).wf(),
            final(perf).pending() == old(perf).pending() + views_atoms(execute_events(b)),
    {
        Self::emit_views(perf, execute_events_exec(b));
    }

    fn esc_dispatch(&mut self, b: u8, perf: &mut TerminalPerformer)
        requires
            old(perf).wf(),
        ensures
            final(perf).wf(),
            final(self)@ == with_state(old(self)@, ParserState::Ground),
            final(perf).pending() == old(perf).pending() + views_atoms(esc_events(old(self)@.inter, old(self)@.ignoring, b)),
    {
        Self::emit_views(perf, esc_events_exec(&self.inter, self.ignoring, b));
        self.state = ParserState::Ground;
    }

    /// One byte read with no UTF-8 sequence under way.
    fn advance_fresh(&mut self, b: u8, perf: &mut TerminalPerformer)
        requires
            old(perf).wf(),
        ensures
            final(perf).wf(),
            final(self)@ == step_fresh(old(self)@, b).0,
            final(perf).pending() == old(perf).pending() + step_fresh(old(self)@, b).1,
    {
        let ghost p = self@;
        let ghost pend = perf.pending();
        let nothing = b == 0x7F || b >= 0x80;
        if b == 0x18 || b == 0x1A {
            self.state = ParserState::Ground;
            assert(perf.pending() =~= pend + Seq::<Atom>::empty());
            return;
        }
        if b == 0x1B {
            if self.state == ParserState::OscString {
                self.osc_dispatch(perf);
            } else {
                assert(perf.pending() =~= pend + Seq::<Atom>::empty());
            }
            self.state = ParserState::Escape;
            self.inter.clear();
            self.ignoring = false;
            assert(self@ =~= escape_entry(p));
            return;
        }
        let execute = b <= 0x17 || b == 0x19 || (0x1C <= b && b <= 0x1F);
        match self.state {
            ParserState::Ground => {
                if execute {
                    self.execute(b, perf);
                } else if b < 0x7F {
                    let c = scalar_or_replacement_exec(b as u32);
                    assert(valid_scalar(b as u32));
                    perf.print(c);
                    assert(perf.pending() =~= pend + seq![Atom::Ch(char_of(b as u32))]);
                } else if b == 0x7F {
                    assert(perf.pending() =~= pend + Seq::<Atom>::empty());
                } else {
                    let r = self.utf8.lead(b);
                    match r {
                        Some(c) => {
                            perf.print(c);
                            assert(perf.pending() =~= pend + opt_atoms(r));
                        },
                        None => {
                            assert(perf.pending() =~= pend + opt_atoms(r));
                        },
                    }
                }
            },
            ParserState::Escape => {
                if execute {
                    self.execute(b, perf);
                } else if 0x20 <= b && b <= 0x2F {
                    self.collect(b);
                    self.state = ParserState::EscapeIntermediate;
                    assert(perf.pending() =~= pend + Seq::<Atom>::empty());
                } else if b == 0x5B {
                    self.state = ParserState::CsiEntry;
                    self.params.clear();
                    self.param = 0;
                    self.sub = false;
                    self.inter.clear();
                    self.ignoring = false;
                    assert(self@ =~= csi_entry(p));
                    assert(perf.pending() =~= pend + Seq::<Atom>::empty());
                } else if b == 0x5D {
                    self.state = ParserState::OscString;
                    let mut first: Vec<Vec<u8>> = Vec::new();
                    first.push(Vec::new());
                    self.osc = first;
                    assert(osc_params_view(self.osc@) =~= seq![Seq::<u8>::empty()]);
                    assert(self@ =~= osc_entry(p));
                    assert(perf.pending() =~= pend + Seq::<Atom>::empty());
                } else if b == 0x50 || b == 0x58 || b == 0x5E || b == 0x5F {
                    self.state = ParserState::StringIgnore;
                    assert(perf.pending() =~= pend + Seq::<Atom>::empty());
                } else if 0x30 <= b && b <= 0x7E {
                    self.esc_dispatch(b, perf);
                } else {
                    assert(perf.pending() =~= pend + Seq::<Atom>::empty());
                }
            },
            ParserState::EscapeIntermediate => {
                if execute {
                    self.execute(b, perf);
                } else if 0x20 <= b && b <= 0x2F {
                    self.collect(b);
                    assert(perf.pending() =~= pend + Seq::<Atom>::empty());
                } else if 0x30 <= b && b <= 0x7E {
                    self.esc_dispatch(b, perf);
                } else {
                    assert(perf.pending() =~= pend + Seq::<Atom>::empty());
                }
            },
            ParserState::CsiEntry => {
                if execute {
                    self.execute(b, perf);
                } else if 0x30 <= b && b <= 0x3B {
                    self.param_byte(b);
                    self.state = ParserState::CsiParam;
                    assert(perf.pending() =~= pend + Seq::<Atom>::empty());
                } else if 0x3C <= b && b <= 0x3F {
                    self.collect(b);
                    self.state = ParserState::CsiParam;
                    assert(perf.pending() =~= pend + Seq::<Atom>::empty());
                } else if 0x20 <= b && b <= 0x2F {
                    self.collect(b);
                    self.state = ParserState::CsiIntermediate;
                    assert(perf.pending() =~= pend + Seq::<Atom>::empty());
                } else if 0x40 <= b && b <= 0x7E {
                    self.csi_dispatch(b, perf);
                } else {
                    assert(perf.pending() =~= pend + Seq::<Atom>::empty());
                }
            },
            ParserState::CsiParam => {
                if execute {
                    self.execute(b, perf);
                } else if 0x30 <= b && b <= 0x3B {
                    self.param_byte(b);
                    assert(perf.pending() =~= pend + Seq::<Atom>::empty());
                } else if 0x3C <= b && b <= 0x3F {
                    self.state = ParserState::CsiIgnore;
                    assert(perf.pending() =~= pend + Seq::<Atom>::empty());
                } else if 0x20 <= b && b <= 0x2F {
                    self.collect(b);
                    self.state = ParserState::CsiIntermediate;
                    assert(perf.pending() =~= pend + Seq::<Atom>::empty());
                } else if 0x40 <= b && b <= 0x7E {
                    self.csi_dispatch(b, perf);
                } else {
                    assert(perf.pending() =~= pend + Seq::<Atom>::empty());
                }
            },
            ParserState::CsiIntermediate => {
                if execute {
                    self.execute(b, perf);
                } else if 0x20 <= b && b <= 0x2F {
                    self.collect(b);
                    assert(perf.pending() =~= pend + Seq::<Atom>::empty());
                } else if 0x30 <= b && b <= 0x3F {
                    self.state = ParserState::CsiIgnore;
                    assert(perf.pending() =~= pend + Seq::<Atom>::empty());
                } else if 0x40 <= b && b <= 0x7E {
                    self.csi_dispatch(b, perf);
                } else {
                    assert(perf.pending() =~= pend + Seq::<Atom>::empty());
                }
            },
            ParserState::CsiIgnore => {
                if execute {
                    self.execute(b, perf);
                } else if 0x40 <= b && b <= 0x7E {
                    self.state = ParserState::Ground;
                    assert(perf.pending() =~= pend + Seq::<Atom>::empty());
                } else {
                    assert(perf.pending() =~= pend + Seq::<Atom>::empty());
                }
            },
            ParserState::OscString => {
                if b == 0x07 {
                    self.osc_dispatch(perf);
                    self.state = ParserState::Ground;
                } else if b == 0x3B && self.osc.len() < MAX_OSC_PARAMS {
                    let ghost o = self.osc@;
                    self.osc.push(Vec::new());
                    assert(osc_params_view(self.osc@) =~= osc_params_view(o).push(Seq::<u8>::empty()));
                    assert(perf.pending() =~= pend + Seq::<Atom>::empty());
                } else if b >= 0x20 {
                    self.osc_put(b);
                    assert(perf.pending() =~= pend + Seq::<Atom>::empty());
                } else {
                    assert(perf.pending() =~= pend + Seq::<Atom>::empty());
                }
            },
            ParserState::StringIgnore => {
                assert(perf.pending() =~= pend + Seq::<Atom>::empty());
            },
        }
    }

    /// One byte through the automaton.
    fn advance(&mut self, b: u8, perf: &mut TerminalPerformer)
        requires
            old(perf).wf(),
        ensures
            final(perf).wf(),
            final(self)@ == step(old(self)@, b).0,
            final(perf).pending() == old(perf).pending() + step(old(self)@, b).1,
    {
        let ghost p = self@;
        let ghost pend = perf.pending();
        if self.state == ParserState::Ground && self.utf8.left > 0 {
            if self.utf8.lo <= b && b <= self.utf8.hi {
                let r = self.utf8.cont(b);
                match r {
                    Some(c) => {
                        perf.print(c);
                    },
                    None => {},
                }
                assert(perf.pending() =~= pend + opt_atoms(r));
            } else {
                self.utf8 = Utf8Decoder::new();
                perf.print('\u{FFFD}');
                let ghost mid = perf.pending();
                self.advance_fresh(b, perf);
                assert(perf.pending() =~= pend + (seq![Atom::Ch('\u{FFFD}')] + step_fresh(
                    ParserModel { utf8: idle(), ..p },
                    b,
                ).1));
            }
        } else {
            self.advance_fresh(b, perf);
        }
    }
}

impl Default for VteParser {
    fn default() -> (r: VteParser)
        ensures
            r@ == initial(),
    {
        VteParser::new()
    }
}

impl TerminalParser for VteParser {
    fn parse(&mut self, data: &[u8]) -> Vec<ParsedEvent> {
        VteParser::parse(self, data)
    }
}

} // verus!
