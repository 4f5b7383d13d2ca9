//! Shutdown on a termination signal.
//!
//! When the process is told to end, both outputs are sent the neutral speed,
//! the control loops are given a short moment to apply it, and only then does
//! the process exit.

use crate::channel::{
    lemma_neutral_commands_queued, lemma_queued_concat, queued, spec_neutral_commands, Channel,
    Command,
};
use crate::control_channel::{after_writing, lemma_last_command_wins, ControlLoop, Stage};
use crate::pulse::{lemma_neutral_pulse, PulseWidth, PULSE_NEUTRAL_NS};
use crate::speed::{lemma_neutral_is_zero, Speed};
use vstd::prelude::*;

verus! {

/// Time, in milliseconds, left to the control loops to bring the outputs to
/// rest before the process exits.
pub const GRACE_PERIOD_MS: u64 = 10;

/// Exit status of a shutdown on a signal.
pub const EXIT_STATUS: i32 = 0;

/// One thing the signal handler does.
#[derive(Clone, Copy, Debug, PartialEq, Eq, Structural)]
pub enum ShutdownStep {
    /// Put a speed on the queue of an output.
    Send(Command),
    /// Block for this many milliseconds.
    Sleep(u64),
    /// End the process with this status.
    Exit(i32),
}

/// What the signal handler does, in order: the neutral pair, the grace
/// period, the exit.
pub open spec fn spec_shutdown_sequence() -> Seq<ShutdownStep> {
    seq![
        ShutdownStep::Send(spec_neutral_commands()[0]),
        ShutdownStep::Send(spec_neutral_commands()[1]),
        ShutdownStep::Sleep(GRACE_PERIOD_MS),
        ShutdownStep::Exit(EXIT_STATUS),
    ]
}

/// The steps of a shutdown, to be carried out in order.
pub fn shutdown_sequence() -> (steps: Vec<ShutdownStep>)
    ensures
        steps@ == spec_shutdown_sequence(),
{
    let mut steps = Vec::new();
    steps.push(
        ShutdownStep::Send(Command { channel: Channel::Pwm0, speed: Speed::neutral() }),
    );
    steps.push(
        ShutdownStep::Send(Command { channel: Channel::Pwm1, speed: Speed::neutral() }),
    );
    steps.push(ShutdownStep::Sleep(GRACE_PERIOD_MS));
    steps.push(ShutdownStep::Exit(EXIT_STATUS));
    steps
}

/// The process exits once, as the last step, and never before it has sent a
/// neutral speed to each output and then slept for the grace period.
pub proof fn lemma_exit_comes_last(index: int)
    requires
        0 <= index < spec_shutdown_sequence().len(),
    ensures
        spec_shutdown_sequence()[index] is Exit <==> index == spec_shutdown_sequence().len() - 1,
        spec_shutdown_sequence()[index] is Exit ==> {
            &&& index == 3
            &&& spec_shutdown_sequence()[index - 1] == ShutdownStep::Sleep(GRACE_PERIOD_MS)
            &&& GRACE_PERIOD_MS >= 10
            &&& spec_shutdown_sequence()[index - 2] == ShutdownStep::Send(
                Command { channel: Channel::Pwm1, speed: Speed::spec_neutral() },
            )
            &&& spec_shutdown_sequence()[index - 3] == ShutdownStep::Send(
                Command { channel: Channel::Pwm0, speed: Speed::spec_neutral() },
            )
        },
{
}

/// Whatever was sent before the signal, an output that has taken everything
/// queued for it up to and including the shutdown's neutral speed holds the
/// neutral pulse of 1500 microseconds.
pub proof fn lemma_shutdown_rests_outputs(sent: Seq<Command>, state: ControlLoop)
    requires
        state.stage != Stage::Stopped,
    ensures
        after_writing(
            state,
            queued(sent + spec_neutral_commands(), state.channel),
        ).applied == Some(PulseWidth::for_speed(Speed::spec_neutral())),
        PulseWidth::for_speed(Speed::spec_neutral()).nanos() == PULSE_NEUTRAL_NS,
{
    let speeds = queued(sent + spec_neutral_commands(), state.channel);
    lemma_queued_concat(sent, spec_neutral_commands(), state.channel);
    lemma_neutral_commands_queued(state.channel);
    lemma_last_command_wins(state, speeds);
    lemma_neutral_is_zero();
    lemma_neutral_pulse(Speed::spec_neutral());
}

} // verus!
