//! The connection-handling state machine.
//!
//! The server serves one connection at a time. The program that owns the
//! socket performs what a `Directive` asks, reports what happened as an
//! `Event`, and gets back the commands to enqueue and the next directive. All
//! decisions are taken here: what a frame means, where a speed goes, what is
//! answered, and when both outputs are brought to rest.

use crate::channel::{neutral_commands, spec_neutral_commands, Channel, Command};
use crate::instruction::{decode, spec_decode, Instruction, MessageBytes};
use crate::status::{
    battery_reply, cpu_line, cpu_reply, invalid_line, invalid_reply, memory_figures_valid,
    memory_line, memory_reply, printable_text, query_reply, BATTERY_REPLY, QUERY_REPLY,
};
use vstd::prelude::*;

verus! {

/// A status request whose answer needs figures from the system.
#[derive(Clone, Copy, Debug, PartialEq, Eq, Structural)]
pub enum StatsRequest {
    /// Total and free memory.
    Memory,
    /// One-minute load average.
    Cpu,
}

/// Where the server stands.
#[derive(Clone, Copy, Debug, PartialEq, Eq, Structural)]
pub enum Phase {
    /// No connection is open; the next one may be accepted.
    Closed,
    /// A connection is open and its next frame is awaited.
    Reading,
    /// A status request has been decoded and the figures it needs are awaited.
    Decoded(StatsRequest),
    /// A reply has been handed out and the outcome of writing it is awaited.
    Dispatched,
}

/// What the owner of the socket reports.
#[derive(Debug, PartialEq, Eq)]
pub enum Event {
    /// A connection was accepted.
    Accepted,
    /// A whole frame was read.
    Frame(MessageBytes),
    /// The peer closed the connection cleanly: the stream ended.
    EndOfStream,
    /// A read or a write failed in any other way.
    IoFailed,
    /// The reply was written.
    Written,
    /// The system reported its memory figures.
    MemoryStats { total: u64, free: u64 },
    /// The system reported its one-minute load average, given as text.
    LoadAverage(Vec<u8>),
    /// The system could not report the figures asked for.
    StatsUnavailable,
}

/// What went wrong in a step, for the log.
#[derive(Clone, Copy, Debug, PartialEq, Eq, Structural)]
pub enum DispatchError {
    /// The frame denotes no instruction.
    MalformedFrame,
    /// A motor instruction names a channel that no output owns.
    UnknownChannel(u8),
    /// A read or a write on the connection failed.
    ConnectionIo,
    /// The figures for a status reply could not be had.
    StatsUnavailable,
    /// The event does not answer the directive that was given.
    OutOfTurn,
}

/// What the owner of the socket is to do next.
#[derive(Debug, PartialEq, Eq)]
pub enum Directive {
    /// Wait for the next connection, then report `Accepted`.
    Accept,
    /// Read the next frame, then report `Frame`, `EndOfStream` or `IoFailed`.
    Read,
    /// Write this line, then report `Written` or `IoFailed`.
    Reply(Vec<u8>),
    /// Ask the system for its memory figures, then report `MemoryStats` or
    /// `StatsUnavailable`.
    QueryMemory,
    /// Ask the system for its load average, then report `LoadAverage` or
    /// `StatsUnavailable`.
    QueryLoad,
}

/// A directive, with the line of a reply as a sequence of bytes.
pub enum DirectiveView {
    Accept,
    Read,
    Reply(Seq<u8>),
    QueryMemory,
    QueryLoad,
}

impl View for Directive {
    type V = DirectiveView;

    open spec fn view(&self) -> DirectiveView {
        match self {
            Directive::Accept => DirectiveView::Accept,
            Directive::Read => DirectiveView::Read,
            Directive::Reply(line) => DirectiveView::Reply(line@),
            Directive::QueryMemory => DirectiveView::QueryMemory,
            Directive::QueryLoad => DirectiveView::QueryLoad,
        }
    }
}

/// The answer to an event.
#[derive(Debug, PartialEq, Eq)]
pub struct Reaction {
    /// Speeds to enqueue, in this order, before anything else is done.
    pub commands: Vec<Command>,
    /// What went wrong, if anything did.
    pub error: Option<DispatchError>,
    /// What to do next.
    pub next: Directive,
}

/// A reaction, with its commands and reply as sequences.
pub struct ReactionView {
    pub commands: Seq<Command>,
    pub error: Option<DispatchError>,
    pub next: DirectiveView,
}

impl View for Reaction {
    type V = ReactionView;

    open spec fn view(&self) -> ReactionView {
        ReactionView { commands: self.commands@, error: self.error, next: self.next@ }
    }
}

/// A step that sends nothing: the new phase, what went wrong, what comes next.
pub open spec fn quiet(phase: Phase, error: Option<DispatchError>, next: DirectiveView) -> (
    Phase,
    ReactionView,
) {
    (phase, ReactionView { commands: Seq::empty(), error, next })
}

/// The end of a connection: both outputs are sent a neutral speed and the
/// server goes back to accepting.
pub open spec fn closing(error: Option<DispatchError>) -> (Phase, ReactionView) {
    (
        Phase::Closed,
        ReactionView { commands: spec_neutral_commands(), error, next: DirectiveView::Accept },
    )
}

/// What an instruction leads to on an open connection.
///
/// A motor instruction for an existing channel enqueues its speed there; one
/// for any other channel is reported and otherwise ignored. A query and a
/// battery request are answered at once. A memory or load request first asks
/// the system for figures.
pub open spec fn spec_dispatch(instruction: Instruction) -> (Phase, ReactionView) {
    match instruction {
        Instruction::Motor(motor) => match Channel::spec_from_index(motor.channel) {
            Some(channel) => (
                Phase::Reading,
                ReactionView {
                    commands: seq![Command { channel, speed: motor.speed }],
                    error: None,
                    next: DirectiveView::Read,
                },
            ),
            None => quiet(
                Phase::Reading,
                Some(DispatchError::UnknownChannel(motor.channel)),
                DirectiveView::Read,
            ),
        },
        Instruction::Query => quiet(Phase::Dispatched, None, DirectiveView::Reply(QUERY_REPLY@)),
        Instruction::Battery => quiet(
            Phase::Dispatched,
            None,
            DirectiveView::Reply(BATTERY_REPLY@),
        ),
        Instruction::Memory => quiet(
            Phase::Decoded(StatsRequest::Memory),
            None,
            DirectiveView::QueryMemory,
        ),
        Instruction::Cpu => quiet(
            Phase::Decoded(StatsRequest::Cpu),
            None,
            DirectiveView::QueryLoad,
        ),
    }
}

/// What a frame leads to on an open connection: the dispatch of the
/// instruction it denotes, or a diagnostic reply if it denotes none.
pub open spec fn spec_on_frame(frame: MessageBytes) -> (Phase, ReactionView) {
    match spec_decode(frame@) {
        Some(instruction) => spec_dispatch(instruction),
        None => quiet(
            Phase::Dispatched,
            Some(DispatchError::MalformedFrame),
            DirectiveView::Reply(invalid_line(frame@)),
        ),
    }
}

/// The transition function of the server.
///
/// While no connection is open only `Accepted` is in turn. On an open
/// connection a clean end of stream, an I/O failure, missing or inconsistent
/// figures and any event out of turn all end the connection, and each such
/// end sends the neutral pair. A written reply leads back to reading.
pub open spec fn spec_step(phase: Phase, event: Event) -> (Phase, ReactionView) {
    match phase {
        Phase::Closed => match event {
            Event::Accepted => quiet(Phase::Reading, None, DirectiveView::Read),
            _ => quiet(Phase::Closed, Some(DispatchError::OutOfTurn), DirectiveView::Accept),
        },
        Phase::Reading => match event {
            Event::Frame(frame) => spec_on_frame(frame),
            Event::EndOfStream => closing(None),
            Event::IoFailed => closing(Some(DispatchError::ConnectionIo)),
            _ => closing(Some(DispatchError::OutOfTurn)),
        },
        Phase::Decoded(StatsRequest::Memory) => match event {
            Event::MemoryStats { total, free } => if memory_figures_valid(
                total as nat,
                free as nat,
            ) {
                quiet(
                    Phase::Dispatched,
                    None,
                    DirectiveView::Reply(memory_line(total as nat, free as nat)),
                )
            } else {
                closing(Some(DispatchError::StatsUnavailable))
            },
            Event::StatsUnavailable => closing(Some(DispatchError::StatsUnavailable)),
            Event::IoFailed => closing(Some(DispatchError::ConnectionIo)),
            _ => closing(Some(DispatchError::OutOfTurn)),
        },
        Phase::Decoded(StatsRequest::Cpu) => match event {
            Event::LoadAverage(load) => if printable_text(load@) {
                quiet(Phase::Dispatched, None, DirectiveView::Reply(cpu_line(load@)))
            } else {
                closing(Some(DispatchError::StatsUnavailable))
            },
            Event::StatsUnavailable => closing(Some(DispatchError::StatsUnavailable)),
            Event::IoFailed => closing(Some(DispatchError::ConnectionIo)),
            _ => closing(Some(DispatchError::OutOfTurn)),
        },
        Phase::Dispatched => match event {
            Event::Written => quiet(Phase::Reading, None, DirectiveView::Read),
            Event::IoFailed => closing(Some(DispatchError::ConnectionIo)),
            _ => closing(Some(DispatchError::OutOfTurn)),
        },
    }
}

/// A step that sends nothing.
fn quietly(phase: Phase, error: Option<DispatchError>, next: Directive) -> (result: (
    Phase,
    Reaction,
))
    ensures
        (result.0, result.1@) == quiet(phase, error, next@),
{
    (phase, Reaction { commands: Vec::new(), error, next })
}

/// The end of a connection.
fn close(error: Option<DispatchError>) -> (result: (Phase, Reaction))
    ensures
        (result.0, result.1@) == closing(error),
{
    (Phase::Closed, Reaction { commands: neutral_commands(), error, next: Directive::Accept })
}

/// Routes a decoded instruction: returns the phase the connection is in
/// afterwards and what is to be done.
pub fn dispatch(instruction: Instruction) -> (result: (Phase, Reaction))
    ensures
        (result.0, result.1@) == spec_dispatch(instruction),
{
    match instruction {
        Instruction::Motor(motor) => match Channel::from_index(motor.channel()) {
            Some(channel) => {
                let mut commands = Vec::new();
                commands.push(Command { channel, speed: motor.speed() });
                (Phase::Reading, Reaction { commands, error: None, next: Directive::Read })
            },
            None => quietly(
                Phase::Reading,
                Some(DispatchError::UnknownChannel(motor.channel())),
                Directive::Read,
            ),
        },
        Instruction::Query => quietly(Phase::Dispatched, None, Directive::Reply(query_reply())),
        Instruction::Battery => quietly(
            Phase::Dispatched,
            None,
            Directive::Reply(battery_reply()),
        ),
        Instruction::Memory => quietly(
            Phase::Decoded(StatsRequest::Memory),
            None,
            Directive::QueryMemory,
        ),
        Instruction::Cpu => quietly(
            Phase::Decoded(StatsRequest::Cpu),
            None,
            Directive::QueryLoad,
        ),
    }
}

/// Decodes a frame read from an open connection and routes what it denotes.
pub fn on_frame(frame: MessageBytes) -> (result: (Phase, Reaction))
    ensures
        (result.0, result.1@) == spec_on_frame(frame),
{
    match decode(frame) {
        Some(instruction) => dispatch(instruction),
        None => quietly(
            Phase::Dispatched,
            Some(DispatchError::MalformedFrame),
            Directive::Reply(invalid_reply(frame)),
        ),
    }
}

/// The server's state: which phase it is in.
#[derive(Debug)]
pub struct Dispatcher {
    phase: Phase,
}

impl View for Dispatcher {
    type V = Phase;

    closed spec fn view(&self) -> Phase {
        self.phase
    }
}

impl Dispatcher {
    /// A server that has not accepted a connection yet.
    pub fn new() -> (dispatcher: Dispatcher)
        ensures
            dispatcher@ == Phase::Closed,
    {
        Dispatcher { phase: Phase::Closed }
    }

    /// The phase the server is in.
    pub fn phase(&self) -> (phase: Phase)
        ensures
            phase == self@,
    {
        self.phase
    }

    /// The directive a fresh server starts with.
    pub fn first_directive() -> (directive: Directive)
        ensures
            directive@ == DirectiveView::Accept,
    {
        Directive::Accept
    }

    /// Takes one event and answers with the commands to enqueue, what went
    /// wrong, and what to do next.
    pub fn step(&mut self, event: Event) -> (reaction: Reaction)
        ensures
            (final(self)@, reaction@) == spec_step(old(self)@, event),
    {
        let (phase, reaction) = match self.phase {
            Phase::Closed => match event {
                Event::Accepted => quietly(Phase::Reading, None, Directive::Read),
                _ => quietly(Phase::Closed, Some(DispatchError::OutOfTurn), Directive::Accept),
            },
            Phase::Reading => match event {
                Event::Frame(frame) => on_frame(frame),
                Event::EndOfStream => close(None),
                Event::IoFailed => close(Some(DispatchError::ConnectionIo)),
                _ => close(Some(DispatchError::OutOfTurn)),
            },
            Phase::Decoded(StatsRequest::Memory) => match event {
                Event::MemoryStats { total, free } => match memory_reply(total, free) {
                    Some(line) => quietly(Phase::Dispatched, None, Directive::Reply(line)),
                    None => close(Some(DispatchError::StatsUnavailable)),
                },
                Event::StatsUnavailable => close(Some(DispatchError::StatsUnavailable)),
                Event::IoFailed => close(Some(DispatchError::ConnectionIo)),
                _ => close(Some(DispatchError::OutOfTurn)),
            },
            Phase::Decoded(StatsRequest::Cpu) => match event {
                Event::LoadAverage(load) => match cpu_reply(load.as_slice()) {
                    Some(line) => quietly(Phase::Dispatched, None, Directive::Reply(line)),
                    None => close(Some(DispatchError::StatsUnavailable)),
                },
                Event::StatsUnavailable => close(Some(DispatchError::StatsUnavailable)),
                Event::IoFailed => close(Some(DispatchError::ConnectionIo)),
                _ => close(Some(DispatchError::OutOfTurn)),
            },
            Phase::Dispatched => match event {
                Event::Written => quietly(Phase::Reading, None, Directive::Read),
                Event::IoFailed => close(Some(DispatchError::ConnectionIo)),
                _ => close(Some(DispatchError::OutOfTurn)),
            },
        };
        self.phase = phase;
        reaction
    }
}

} // verus!
