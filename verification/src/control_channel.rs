//! The control loop of one output.
//!
//! Each output has one loop, which alone writes to it. The loop takes speeds
//! from its queue one at a time, turns each into a pulse and has it written. A
//! write that fails is reported and forgotten: the next speed that arrives is
//! written like any other. The loop ends only when its queue is closed for
//! good.

use crate::channel::Channel;
use crate::pulse::{pulse_width, PulseWidth};
use crate::speed::Speed;
use vstd::prelude::*;

verus! {

/// What the owner of the queue and the output reports.
#[derive(Clone, Copy, Debug, PartialEq, Eq, Structural)]
pub enum LoopEvent {
    /// A speed was taken from the queue.
    Command(Speed),
    /// The queue is closed for good: every sender is gone.
    QueueClosed,
    /// The output took the pulse.
    Written,
    /// The output refused the pulse.
    WriteFailed,
}

/// What the owner of the queue and the output is to do next.
#[derive(Clone, Copy, Debug, PartialEq, Eq, Structural)]
pub enum LoopAction {
    /// Block on the queue, then report `Command` or `QueueClosed`.
    Receive,
    /// Write this pulse to the output, then report `Written` or `WriteFailed`.
    Write(PulseWidth),
    /// Leave the loop.
    Stop,
}

/// A pulse that an output refused.
#[derive(Clone, Copy, Debug, PartialEq, Eq, Structural)]
pub struct HardwareWriteFailure {
    pub channel: Channel,
    pub pulse: PulseWidth,
}

/// The answer of a loop to an event.
#[derive(Clone, Copy, Debug, PartialEq, Eq, Structural)]
pub struct LoopReaction {
    /// The failure to log, if the event was one.
    pub failure: Option<HardwareWriteFailure>,
    /// What to do next.
    pub next: LoopAction,
}

/// What a loop is busy with.
#[derive(Clone, Copy, Debug, PartialEq, Eq, Structural)]
pub enum Stage {
    /// Waiting for the next speed.
    Waiting,
    /// A pulse has been handed out and the outcome of writing it is awaited.
    Writing(PulseWidth),
    /// The queue was closed; the loop is over.
    Stopped,
}

/// The state of the control loop of one output.
#[derive(Clone, Copy, Debug, PartialEq, Eq, Structural)]
pub struct ControlLoop {
    /// The output this loop owns.
    pub channel: Channel,
    /// What the loop is busy with.
    pub stage: Stage,
    /// The last pulse the output took, if it took any.
    pub applied: Option<PulseWidth>,
}

/// The transition function of a control loop.
pub open spec fn spec_control_step(state: ControlLoop, event: LoopEvent) -> (
    ControlLoop,
    LoopReaction,
) {
    if state.stage == Stage::Stopped {
        (state, LoopReaction { failure: None, next: LoopAction::Stop })
    } else {
        match event {
            LoopEvent::Command(speed) => {
                let pulse = PulseWidth::for_speed(speed);
                (
                    ControlLoop { stage: Stage::Writing(pulse), ..state },
                    LoopReaction { failure: None, next: LoopAction::Write(pulse) },
                )
            },
            LoopEvent::QueueClosed => (
                ControlLoop { stage: Stage::Stopped, ..state },
                LoopReaction { failure: None, next: LoopAction::Stop },
            ),
            LoopEvent::Written => match state.stage {
                Stage::Writing(pulse) => (
                    ControlLoop { stage: Stage::Waiting, applied: Some(pulse), ..state },
                    LoopReaction { failure: None, next: LoopAction::Receive },
                ),
                _ => (state, LoopReaction { failure: None, next: LoopAction::Receive }),
            },
            LoopEvent::WriteFailed => match state.stage {
                Stage::Writing(pulse) => (
                    ControlLoop { stage: Stage::Waiting, ..state },
                    LoopReaction {
                        failure: Some(HardwareWriteFailure { channel: state.channel, pulse }),
                        next: LoopAction::Receive,
                    },
                ),
                _ => (state, LoopReaction { failure: None, next: LoopAction::Receive }),
            },
        }
    }
}

impl ControlLoop {
    /// The loop of an output to which nothing has been written yet.
    pub fn new(channel: Channel) -> (state: ControlLoop)
        ensures
            state == (ControlLoop { channel, stage: Stage::Waiting, applied: None }),
    {
        ControlLoop { channel, stage: Stage::Waiting, applied: None }
    }

    /// What a fresh loop starts with: waiting on its queue.
    pub fn first_action() -> (action: LoopAction)
        ensures
            action == LoopAction::Receive,
    {
        LoopAction::Receive
    }

    /// Takes one event and answers with the failure to log, if any, and
    /// what to do next.
    pub fn step(&mut self, event: LoopEvent) -> (reaction: LoopReaction)
        ensures
            (*final(self), reaction) == spec_control_step(*old(self), event),
    {
        match self.stage {
            Stage::Stopped => LoopReaction { failure: None, next: LoopAction::Stop },
            Stage::Waiting => match event {
                LoopEvent::Command(speed) => {
                    let pulse = pulse_width(speed);
                    self.stage = Stage::Writing(pulse);
                    LoopReaction { failure: None, next: LoopAction::Write(pulse) }
                },
                LoopEvent::QueueClosed => {
                    self.stage = Stage::Stopped;
                    LoopReaction { failure: None, next: LoopAction::Stop }
                },
                _ => LoopReaction { failure: None, next: LoopAction::Receive },
            },
            Stage::Writing(pending) => match event {
                LoopEvent::Command(speed) => {
                    let pulse = pulse_width(speed);
                    self.stage = Stage::Writing(pulse);
                    LoopReaction { failure: None, next: LoopAction::Write(pulse) }
                },
                LoopEvent::QueueClosed => {
                    self.stage = Stage::Stopped;
                    LoopReaction { failure: None, next: LoopAction::Stop }
                },
                LoopEvent::Written => {
                    self.stage = Stage::Waiting;
                    self.applied = Some(pending);
                    LoopReaction { failure: None, next: LoopAction::Receive }
                },
                LoopEvent::WriteFailed => {
                    self.stage = Stage::Waiting;
                    LoopReaction {
                        failure: Some(
                            HardwareWriteFailure { channel: self.channel, pulse: pending },
                        ),
                        next: LoopAction::Receive,
                    }
                },
            },
        }
    }
}

/// A failed write strands nothing: whatever happened before, the next speed
/// that arrives is written, and once the output takes it, it is what the
/// output holds.
pub proof fn lemma_next_command_heals(state: ControlLoop, speed: Speed)
    requires
        state.stage != Stage::Stopped,
    ensures
        spec_control_step(state, LoopEvent::Command(speed)).1.next == LoopAction::Write(
            PulseWidth::for_speed(speed),
        ),
        spec_control_step(
            spec_control_step(state, LoopEvent::Command(speed)).0,
            LoopEvent::Written,
        ).0 == (ControlLoop {
            channel: state.channel,
            stage: Stage::Waiting,
            applied: Some(PulseWidth::for_speed(speed)),
        }),
{
}

/// The state of a loop after it has taken the given speeds from its queue,
/// one after the other, and the output has taken the pulse of each.
pub open spec fn after_writing(state: ControlLoop, speeds: Seq<Speed>) -> ControlLoop
    decreases speeds.len(),
{
    if speeds.len() == 0 {
        state
    } else {
        let before = after_writing(state, speeds.drop_last());
        let writing = spec_control_step(before, LoopEvent::Command(speeds.last())).0;
        spec_control_step(writing, LoopEvent::Written).0
    }
}

/// The speed taken from the queue last is the one the output holds.
pub proof fn lemma_last_command_wins(state: ControlLoop, speeds: Seq<Speed>)
    requires
        state.stage != Stage::Stopped,
        speeds.len() > 0,
    ensures
        after_writing(state, speeds) == (ControlLoop {
            channel: state.channel,
            stage: Stage::Waiting,
            applied: Some(PulseWidth::for_speed(speeds.last())),
        }),
    decreases speeds.len(),
{
    let before = after_writing(state, speeds.drop_last());
    if speeds.len() > 1 {
        lemma_last_command_wins(state, speeds.drop_last());
    }
    lemma_next_command_heals(before, speeds.last());
}

/// A refused pulse is reported with its output, keeps the loop running and
/// leaves what the output holds as it was.
pub proof fn lemma_failure_is_survivable(state: ControlLoop, pulse: PulseWidth)
    requires
        state.stage == Stage::Writing(pulse),
    ensures
        spec_control_step(state, LoopEvent::WriteFailed) == (
            ControlLoop { stage: Stage::Waiting, ..state },
            LoopReaction {
                failure: Some(HardwareWriteFailure { channel: state.channel, pulse }),
                next: LoopAction::Receive,
            },
        ),
{
}

/// The loop ends only when its queue is closed, and then stays ended.
pub proof fn lemma_stops_only_when_closed(state: ControlLoop, event: LoopEvent)
    ensures
        spec_control_step(state, event).0.stage == Stage::Stopped <==> (state.stage
            == Stage::Stopped || event == LoopEvent::QueueClosed),
        spec_control_step(state, event).1.next == LoopAction::Stop <==> spec_control_step(
            state,
            event,
        ).0.stage == Stage::Stopped,
        spec_control_step(state, event).0.channel == state.channel,
{
}

} // verus!
