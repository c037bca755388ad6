use vstd::prelude::*;
use crate::ansi::AnsiProcessor;
use crate::model::{apply_all, resize_m, TermModel};
use crate::parser::{coalesced, flatten, run, VteParser};
use crate::state::TerminalState;
use crate::traits::{events_view, ParsedEvent};
use crate::types::Size;

verus! {

/// Commands sent to a terminal.
#[derive(Clone, Debug)]
pub enum Command {
    /// Bytes to write to the PTY.
    Write(Vec<u8>),
    Resize(Size),
    Close,
}

/// Events a terminal publishes.
#[derive(Clone, Debug)]
pub enum Event {
    /// Bytes the PTY produced.
    OutputReady(Vec<u8>),
    StateChanged,
    Resized(Size),
    /// Always the last event.
    Closed,
    Error(String),
}

/// Lifecycle of the I/O coordinator.
#[derive(Clone, Copy, Debug, PartialEq, Eq, Structural)]
pub enum Phase {
    Starting,
    Running,
    ShuttingDown,
    Closed,
}

/// What the I/O loop observed.
pub enum Input {
    /// The PTY is open and its child was alive at start.
    Started,
    /// A read from the PTY; no bytes means no data for now.
    PtyRead(Vec<u8>),
    ReadError(String),
    Command(Command),
    /// The periodic liveness check.
    Tick { alive: bool },
    /// The final events have been handed out.
    Drained,
}

/// What the I/O loop is to do, in order.
pub enum Action {
    WritePty(Vec<u8>),
    ResizePty(Size),
    Publish(Event),
}

/// The decisions of the I/O coordinator: it owns the parser and the
/// terminal state, and turns each observation into the actions to perform.
pub struct Coordinator {
    phase: Phase,
    parser: VteParser,
    state: TerminalState,
}

impl Coordinator {
    pub closed spec fn spec_phase(&self) -> Phase {
        self.phase
    }

    pub closed spec fn term(&self) -> TermModel {
        self.state@
    }

    pub closed spec fn parser_state(&self) -> crate::parser::ParserModel {
        self.parser@
    }

    pub closed spec fn wf(&self) -> bool {
        self.state.wf()
    }

    /// A coordinator for a terminal of the given size, not yet started.
    pub fn new(size: Size) -> (r: Coordinator)
        ensures
            r.wf(),
            r.spec_phase() == Phase::Starting,
            r.term() == crate::model::new_model(size),
            r.parser_state() == crate::parser::initial(),
    {
        Coordinator { phase: Phase::Starting, parser: VteParser::new(), state: TerminalState::new(size) }
    }

    pub fn phase(&self) -> (r: Phase)
        ensures
            r == self.spec_phase(),
    {
        self.phase
    }

    /// The loop stops once the coordinator shuts down.
    pub fn is_finished(&self) -> (r: bool)
        ensures
            r == (self.spec_phase() == Phase::ShuttingDown || self.spec_phase() == Phase::Closed),
    {
        self.phase == Phase::ShuttingDown || self.phase == Phase::Closed
    }

    pub fn state(&self) -> (r: &TerminalState)
        ensures
            r@ == self.term(),
            self.wf() ==> r.wf(),
    {
        &self.state
    }

    /// Moves to shutting down; `Closed` is the last event published.
    fn shut_down(&mut self, out: &mut Vec<Action>)
        ensures
            final(self).spec_phase() == Phase::ShuttingDown,
            final(self).term() == old(self).term(),
            final(self).parser_state() == old(self).parser_state(),
            final(self).wf() == old(self).wf(),
            final(out)@ == old(out)@.push(Action::Publish(Event::Closed)),
    {
        self.phase = Phase::ShuttingDown;
        out.push(Action::Publish(Event::Closed));
    }

    /// Decides what to do about one observation. While running: PTY bytes
    /// go through the parser into the state and are published as output,
    /// then as a state change; a read of no bytes does nothing; a read
    /// error, a `Close` command or a dead child shut the coordinator down
    /// with `Closed` as the last event; writes and resizes go to the PTY.
    /// Once shutting down, only `Drained` is heeded.
    pub fn handle(&mut self, input: Input) -> (r: Vec<Action>)
        requires
            old(self).wf(),
        ensures
            final(self).wf(),
            match input {
                Input::Started => if old(self).spec_phase() == Phase::Starting {
                    final(self).spec_phase() == Phase::Running && r@.len() == 0
                        && final(self).term() == old(self).term()
                } else {
                    *final(self) == *old(self) && r@.len() == 0
                },
                Input::PtyRead(bytes) => if old(self).spec_phase() == Phase::Running && bytes@.len() > 0 {
                    &&& final(self).spec_phase() == Phase::Running
                    &&& final(self).parser_state() == run(old(self).parser_state(), bytes@).0
                    &&& exists|es: Seq<ParsedEvent>|
                        flatten(es) == run(old(self).parser_state(), bytes@).1 && coalesced(events_view(es))
                            && final(self).term() == apply_all(old(self).term(), events_view(es))
                    &&& r@ == seq![Action::Publish(Event::OutputReady(bytes)), Action::Publish(Event::StateChanged)]
                } else {
                    *final(self) == *old(self) && r@.len() == 0
                },
                Input::ReadError(msg) => if old(self).spec_phase() == Phase::Running {
                    &&& final(self).spec_phase() == Phase::ShuttingDown
                    &&& final(self).term() == old(self).term()
                    &&& r@ == seq![Action::Publish(Event::Error(msg)), Action::Publish(Event::Closed)]
                } else {
                    *final(self) == *old(self) && r@.len() == 0
                },
                Input::Command(c) => if old(self).spec_phase() == Phase::Running || old(self).spec_phase()
                    == Phase::Starting {
                    match c {
                        Command::Write(bytes) => *final(self) == *old(self) && r@ == seq![Action::WritePty(bytes)],
                        Command::Resize(size) => {
                            &&& final(self).spec_phase() == old(self).spec_phase()
                            &&& final(self).term() == resize_m(old(self).term(), size)
                            &&& final(self).parser_state() == old(self).parser_state()
                            &&& r@ == seq![Action::ResizePty(size), Action::Publish(Event::Resized(size))]
                        },
                        Command::Close => {
                            &&& final(self).spec_phase() == Phase::ShuttingDown
                            &&& final(self).term() == old(self).term()
                            &&& r@ == seq![Action::Publish(Event::Closed)]
                        },
                    }
                } else {
                    *final(self) == *old(self) && r@.len() == 0
                },
                Input::Tick { alive } => if (old(self).spec_phase() == Phase::Running || old(self).spec_phase()
                    == Phase::Starting) && !alive {
                    &&& final(self).spec_phase() == Phase::ShuttingDown
                    &&& final(self).term() == old(self).term()
                    &&& r@ == seq![Action::Publish(Event::Closed)]
                } else {
                    *final(self) == *old(self) && r@.len() == 0
                },
                Input::Drained => if old(self).spec_phase() == Phase::ShuttingDown {
                    final(self).spec_phase() == Phase::Closed && final(self).term() == old(self).term()
                        && r@.len() == 0
                } else {
                    *final(self) == *old(self) && r@.len() == 0
                },
            },
    {
        let mut out: Vec<Action> = Vec::new();
        let phase = self.phase;
        let live = phase == Phase::Running || phase == Phase::Starting;
        match input {
            Input::Started => {
                if phase == Phase::Starting {
                    self.phase = Phase::Running;
                }
            },
            Input::PtyRead(bytes) => {
                if phase == Phase::Running && bytes.len() > 0 {
                    let events = self.parser.parse(bytes.as_slice());
                    let ghost es = events@;
                    AnsiProcessor::process_events(&mut self.state, events);
                    assert(flatten(es) == run(old(self).parser_state(), bytes@).1 && coalesced(events_view(es))
                        && self.term() == apply_all(old(self).term(), events_view(es)));
                    out.push(Action::Publish(Event::OutputReady(bytes)));
                    out.push(Action::Publish(Event::StateChanged));
                    assert(out@ =~= seq![Action::Publish(Event::OutputReady(bytes)), Action::Publish(Event::StateChanged)]);
                }
            },
            Input::ReadError(msg) => {
                if phase == Phase::Running {
                    out.push(Action::Publish(Event::Error(msg)));
                    self.shut_down(&mut out);
                    assert(out@ =~= seq![Action::Publish(Event::Error(msg)), Action::Publish(Event::Closed)]);
                }
            },
            Input::Command(c) => {
                if live {
                    match c {
                        Command::Write(bytes) => {
                            out.push(Action::WritePty(bytes));
                            assert(out@ =~= seq![Action::WritePty(bytes)]);
                        },
                        Command::Resize(size) => {
                            self.state.resize(size);
                            out.push(Action::ResizePty(size));
                            out.push(Action::Publish(Event::Resized(size)));
                            assert(out@ =~= seq![Action::ResizePty(size), Action::Publish(Event::Resized(size))]);
                        },
                        Command::Close => {
                            self.shut_down(&mut out);
                            assert(out@ =~= seq![Action::Publish(Event::Closed)]);
                        },
                    }
                }
            },
            Input::Tick { alive } => {
                if live && !alive {
                    self.shut_down(&mut out);
                    assert(out@ =~= seq![Action::Publish(Event::Closed)]);
                }
            },
            Input::Drained => {
                if phase == Phase::ShuttingDown {
                    self.phase = Phase::Closed;
                }
            },
        }
        out
    }
}

} // verus!
