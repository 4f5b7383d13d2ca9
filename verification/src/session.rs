//! Runs of the server, and what holds of every run.
//!
//! A run is the sequence of events that the owner of the socket reports. The
//! phase the server reaches and what it puts on the queues of the two outputs
//! are functions of the run alone; the laws below state the fail-safe
//! guarantees over those functions.

use crate::channel::{
    lemma_neutral_commands_queued, lemma_queued_concat, queued, spec_neutral_commands, Channel,
    Command,
};
use crate::control_channel::{after_writing, lemma_last_command_wins, ControlLoop, Stage};
use crate::dispatcher::{
    closing, quiet, spec_dispatch, spec_step, DirectiveView, DispatchError, Event, Phase,
};
use crate::instruction::{
    spec_decode, Instruction, MessageBytes, MotorInstruction, CHANNEL_COUNT, TAG_MOTOR,
};
use crate::pulse::{lemma_neutral_pulse, PulseWidth, PULSE_NEUTRAL_NS};
use crate::speed::{lemma_neutral_is_zero, Speed};
use crate::status::{invalid_line, is_line, lemma_replies_are_lines};
use vstd::prelude::*;

verus! {

/// The phase that one step leads to.
pub open spec fn phase_after(phase: Phase, event: Event) -> Phase {
    spec_step(phase, event).0
}

/// The commands that one step sends.
pub open spec fn sent_by(phase: Phase, event: Event) -> Seq<Command> {
    spec_step(phase, event).1.commands
}

/// The phase reached by a run that starts in `phase`.
pub open spec fn reached(phase: Phase, events: Seq<Event>) -> Phase
    decreases events.len(),
{
    if events.len() == 0 {
        phase
    } else {
        phase_after(reached(phase, events.drop_last()), events.last())
    }
}

/// Every command sent by a run that starts in `phase`, in order.
pub open spec fn sent(phase: Phase, events: Seq<Event>) -> Seq<Command>
    decreases events.len(),
{
    if events.len() == 0 {
        Seq::empty()
    } else {
        sent(phase, events.drop_last()) + sent_by(
            reached(phase, events.drop_last()),
            events.last(),
        )
    }
}

/// A run of one event is one step.
pub proof fn lemma_run_one(phase: Phase, event: Event)
    ensures
        reached(phase, seq![event]) == phase_after(phase, event),
        sent(phase, seq![event]) == sent_by(phase, event),
{
    reveal_with_fuel(reached, 2);
    reveal_with_fuel(sent, 2);
}

/// A run in two parts: the second part starts where the first ended, and the
/// commands of the whole are those of the parts, one after the other.
pub proof fn lemma_run_concat(phase: Phase, first: Seq<Event>, second: Seq<Event>)
    ensures
        reached(phase, first + second) == reached(reached(phase, first), second),
        sent(phase, first + second) == sent(phase, first) + sent(reached(phase, first), second),
    decreases second.len(),
{
    if second.len() > 0 {
        let middle = reached(phase, first);
        let last = sent_by(reached(middle, second.drop_last()), second.last());
        assert((first + second).drop_last() =~= first + second.drop_last());
        lemma_run_concat(phase, first, second.drop_last());
        assert((sent(phase, first) + sent(middle, second.drop_last())) + last =~= sent(
            phase,
            first,
        ) + (sent(middle, second.drop_last()) + last));
    }
}

/// What one step can send.
///
/// While no connection is open nothing is sent, and only an accepted
/// connection leaves that phase. A step that ends a connection sends the
/// neutral pair and nothing else. Any other step sends at most one command,
/// and sends one only for a frame.
pub proof fn lemma_step_sends(phase: Phase, event: Event)
    ensures
        phase == Phase::Closed ==> sent_by(phase, event) == Seq::<Command>::empty(),
        phase == Phase::Closed ==> (phase_after(phase, event) != Phase::Closed <==> event
            == Event::Accepted),
        phase != Phase::Closed && phase_after(phase, event) == Phase::Closed ==> sent_by(
            phase,
            event,
        ) == spec_neutral_commands(),
        phase != Phase::Closed && phase_after(phase, event) != Phase::Closed ==> sent_by(
            phase,
            event,
        ).len() <= 1,
        sent_by(phase, event).len() == 1 ==> phase == Phase::Reading && event is Frame,
        phase_after(phase, event) == Phase::Closed <==> spec_step(phase, event).1.next
            == DirectiveView::Accept,
{
}

/// One connection at a time: while a connection is open no other is taken
/// on, and a report of one ends the open connection like any event out of
/// turn.
pub proof fn lemma_one_connection_at_a_time(phase: Phase)
    requires
        phase != Phase::Closed,
    ensures
        spec_step(phase, Event::Accepted) == closing(Some(DispatchError::OutOfTurn)),
{
}

/// Whatever the server has written to a connection is exactly one line.
pub proof fn lemma_reply_is_a_line(phase: Phase, event: Event)
    ensures
        spec_step(phase, event).1.next matches DirectiveView::Reply(line) ==> is_line(line),
{
    match event {
        Event::Frame(frame) => {
            lemma_replies_are_lines(0, 0, Seq::empty(), frame@);
        },
        Event::MemoryStats { total, free } => {
            lemma_replies_are_lines(total as nat, free as nat, Seq::empty(), Seq::empty());
        },
        Event::LoadAverage(load) => {
            lemma_replies_are_lines(0, 0, load@, Seq::empty());
        },
        _ => {},
    }
}

/// A clean close in the reading phase is no error, puts exactly one neutral
/// speed on the queue of each output, and leaves the server accepting.
pub proof fn lemma_clean_close(channel: Channel)
    ensures
        spec_step(Phase::Reading, Event::EndOfStream) == closing(None),
        phase_after(Phase::Reading, Event::EndOfStream) == Phase::Closed,
        spec_step(Phase::Reading, Event::EndOfStream).1.next == DirectiveView::Accept,
        queued(sent_by(Phase::Reading, Event::EndOfStream), channel) == seq![
            Speed::spec_neutral(),
        ],
{
    lemma_neutral_commands_queued(channel);
}

/// Whenever no connection is open, the last speed sent to each output, if
/// any was ever sent, is the neutral one.
pub proof fn lemma_idle_is_neutral(events: Seq<Event>, channel: Channel)
    requires
        reached(Phase::Closed, events) == Phase::Closed,
    ensures
        queued(sent(Phase::Closed, events), channel).len() == 0 || queued(
            sent(Phase::Closed, events),
            channel,
        ).last() == Speed::spec_neutral(),
    decreases events.len(),
{
    if events.len() > 0 {
        let before = reached(Phase::Closed, events.drop_last());
        let earlier = sent(Phase::Closed, events.drop_last());
        let last = sent_by(before, events.last());
        lemma_step_sends(before, events.last());
        lemma_queued_concat(earlier, last, channel);
        if before == Phase::Closed {
            lemma_idle_is_neutral(events.drop_last(), channel);
        } else {
            lemma_neutral_commands_queued(channel);
        }
    }
}

/// Whenever no connection is open and an output has taken every pulse that
/// was queued for it, that output holds the neutral pulse of 1500
/// microseconds.
pub proof fn lemma_idle_outputs_rest(events: Seq<Event>, state: ControlLoop)
    requires
        reached(Phase::Closed, events) == Phase::Closed,
        queued(sent(Phase::Closed, events), state.channel).len() > 0,
        state.stage != Stage::Stopped,
    ensures
        after_writing(state, queued(sent(Phase::Closed, events), state.channel)).applied == Some(
            PulseWidth::for_speed(Speed::spec_neutral()),
        ),
        PulseWidth::for_speed(Speed::spec_neutral()).nanos() == PULSE_NEUTRAL_NS,
{
    let speeds = queued(sent(Phase::Closed, events), state.channel);
    lemma_idle_is_neutral(events, state.channel);
    lemma_last_command_wins(state, speeds);
    lemma_neutral_is_zero();
    lemma_neutral_pulse(Speed::spec_neutral());
}

/// A frame that denotes nothing is answered with the diagnostic line, sends
/// nothing and leaves the connection open; once the reply is written the rest
/// of the run goes on as if the frame had never come.
pub proof fn lemma_malformed_frame(frame: MessageBytes, rest: Seq<Event>)
    requires
        spec_decode(frame@) is None,
    ensures
        spec_step(Phase::Reading, Event::Frame(frame)) == quiet(
            Phase::Dispatched,
            Some(DispatchError::MalformedFrame),
            DirectiveView::Reply(invalid_line(frame@)),
        ),
        spec_step(Phase::Dispatched, Event::Written) == quiet(
            Phase::Reading,
            None,
            DirectiveView::Read,
        ),
        reached(Phase::Reading, seq![Event::Frame(frame), Event::Written] + rest) == reached(
            Phase::Reading,
            rest,
        ),
        sent(Phase::Reading, seq![Event::Frame(frame), Event::Written] + rest) == sent(
            Phase::Reading,
            rest,
        ),
{
    let head = seq![Event::Frame(frame), Event::Written];
    assert(head.drop_last() =~= seq![Event::Frame(frame)]);
    lemma_run_one(Phase::Reading, Event::Frame(frame));
    lemma_run_concat(Phase::Reading, head, rest);
}

/// A motor frame for a channel that does not exist denotes nothing: it sends
/// no command and does not end the connection.
pub proof fn lemma_unknown_channel_frame(frame: MessageBytes)
    requires
        frame@[0] == TAG_MOTOR,
        frame@[1] >= CHANNEL_COUNT,
    ensures
        spec_decode(frame@) is None,
        phase_after(Phase::Reading, Event::Frame(frame)) == Phase::Dispatched,
        sent_by(Phase::Reading, Event::Frame(frame)) == Seq::<Command>::empty(),
{
}

/// A motor instruction for a channel that no output owns is reported, sends
/// nothing and leaves the connection reading: what was queued stays as it
/// was.
pub proof fn lemma_unknown_channel(motor: MotorInstruction, earlier: Seq<Command>, channel: Channel)
    requires
        motor.channel >= CHANNEL_COUNT,
    ensures
        spec_dispatch(Instruction::Motor(motor)) == quiet(
            Phase::Reading,
            Some(DispatchError::UnknownChannel(motor.channel)),
            DirectiveView::Read,
        ),
        queued(earlier + spec_dispatch(Instruction::Motor(motor)).1.commands, channel) == queued(
            earlier,
            channel,
        ),
{
}

/// A motor instruction for an existing channel puts its speed at the end of
/// the queue of that channel and leaves the other queue as it was.
pub proof fn lemma_motor_is_routed(motor: MotorInstruction, earlier: Seq<Command>, channel: Channel)
    requires
        motor.channel < CHANNEL_COUNT,
    ensures
        spec_dispatch(Instruction::Motor(motor)).0 == Phase::Reading,
        spec_dispatch(Instruction::Motor(motor)).1.error.is_none(),
        queued(earlier + spec_dispatch(Instruction::Motor(motor)).1.commands, channel) == (if 
            channel.spec_index() == motor.channel {
            queued(earlier, channel).push(motor.speed)
        } else {
            queued(earlier, channel)
        }),
{
    let commands = spec_dispatch(Instruction::Motor(motor)).1.commands;
    assert((earlier + commands).drop_last() =~= earlier);
}

/// One connection from accept to clean close: the server ends where it
/// started, the last thing sent is the neutral pair, and the queue of each
/// output gets what the connection sent it and then one neutral speed.
pub proof fn lemma_one_connection(events: Seq<Event>, channel: Channel)
    requires
        reached(Phase::Reading, events) == Phase::Reading,
    ensures
        reached(
            Phase::Closed,
            seq![Event::Accepted] + events + seq![Event::EndOfStream],
        ) == Phase::Closed,
        sent(Phase::Closed, seq![Event::Accepted] + events + seq![Event::EndOfStream]) == sent(
            Phase::Reading,
            events,
        ) + spec_neutral_commands(),
        queued(
            sent(Phase::Closed, seq![Event::Accepted] + events + seq![Event::EndOfStream]),
            channel,
        ) == queued(sent(Phase::Reading, events), channel).push(Speed::spec_neutral()),
{
    let open = seq![Event::Accepted];
    let shut = seq![Event::EndOfStream];
    lemma_run_one(Phase::Closed, Event::Accepted);
    lemma_run_one(Phase::Reading, Event::EndOfStream);
    lemma_run_concat(Phase::Closed, open, events);
    lemma_run_concat(Phase::Closed, open + events, shut);
    assert(Seq::<Command>::empty() + sent(Phase::Reading, events) =~= sent(
        Phase::Reading,
        events,
    ));
    lemma_queued_concat(sent(Phase::Reading, events), spec_neutral_commands(), channel);
    lemma_neutral_commands_queued(channel);
    assert(queued(sent(Phase::Reading, events), channel) + seq![Speed::spec_neutral()] =~= queued(
        sent(Phase::Reading, events),
        channel,
    ).push(Speed::spec_neutral()));
}

/// Two connections served one after the other, each closed cleanly by its
/// peer: each close sends the neutral pair, after the commands of its own
/// connection and before anything of the next, so that the queue of each
/// output gets a neutral speed at the end of either connection.
pub proof fn lemma_two_connections(first: Seq<Event>, second: Seq<Event>, channel: Channel)
    requires
        reached(Phase::Reading, first) == Phase::Reading,
        reached(Phase::Reading, second) == Phase::Reading,
    ensures
        reached(
            Phase::Closed,
            seq![Event::Accepted] + first + seq![Event::EndOfStream] + seq![Event::Accepted]
                + second + seq![Event::EndOfStream],
        ) == Phase::Closed,
        sent(
            Phase::Closed,
            seq![Event::Accepted] + first + seq![Event::EndOfStream] + seq![Event::Accepted]
                + second + seq![Event::EndOfStream],
        ) == sent(Phase::Reading, first) + spec_neutral_commands() + sent(Phase::Reading, second)
            + spec_neutral_commands(),
        queued(
            sent(
                Phase::Closed,
                seq![Event::Accepted] + first + seq![Event::EndOfStream] + seq![Event::Accepted]
                    + second + seq![Event::EndOfStream],
            ),
            channel,
        ) == queued(sent(Phase::Reading, first), channel).push(Speed::spec_neutral()) + queued(
            sent(Phase::Reading, second),
            channel,
        ).push(Speed::spec_neutral()),
{
    lemma_one_connection(first, channel);
    lemma_one_connection(second, channel);
    let one = seq![Event::Accepted] + first + seq![Event::EndOfStream];
    let two = seq![Event::Accepted] + second + seq![Event::EndOfStream];
    lemma_run_concat(Phase::Closed, one, two);
    assert(one + two =~= seq![Event::Accepted] + first + seq![Event::EndOfStream] + seq![
        Event::Accepted,
    ] + second + seq![Event::EndOfStream]);
    assert((sent(Phase::Reading, first) + spec_neutral_commands()) + (sent(Phase::Reading, second)
        + spec_neutral_commands()) =~= sent(Phase::Reading, first) + spec_neutral_commands()
        + sent(Phase::Reading, second) + spec_neutral_commands());
    lemma_queued_concat(sent(Phase::Closed, one), sent(Phase::Closed, two), channel);
}

} // verus!
