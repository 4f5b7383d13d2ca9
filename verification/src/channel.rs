//! The two motor outputs and the commands addressed to them.

use crate::speed::Speed;
use vstd::prelude::*;

verus! {

/// One of the two hardware outputs.
#[derive(Clone, Copy, Debug, PartialEq, Eq, Structural)]
pub enum Channel {
    /// The output with index 0.
    Pwm0,
    /// The output with index 1.
    Pwm1,
}

impl Channel {
    /// Index of the output, as it appears in a motor frame.
    pub open spec fn spec_index(self) -> u8 {
        match self {
            Channel::Pwm0 => 0,
            Channel::Pwm1 => 1,
        }
    }

    /// The output with the given index, if there is one.
    pub open spec fn spec_from_index(index: u8) -> Option<Channel> {
        if index == 0 {
            Some(Channel::Pwm0)
        } else if index == 1 {
            Some(Channel::Pwm1)
        } else {
            None
        }
    }

    /// Index of the output, as it appears in a motor frame.
    pub fn index(self) -> (index: u8)
        ensures
            index == self.spec_index(),
            Channel::spec_from_index(index) == Some(self),
    {
        match self {
            Channel::Pwm0 => 0,
            Channel::Pwm1 => 1,
        }
    }

    /// The output with the given index; `None` for every index but 0 and 1.
    pub fn from_index(index: u8) -> (channel: Option<Channel>)
        ensures
            channel == Channel::spec_from_index(index),
    {
        if index == 0 {
            Some(Channel::Pwm0)
        } else if index == 1 {
            Some(Channel::Pwm1)
        } else {
            None
        }
    }
}

/// A speed to be put on the queue of one output.
#[derive(Clone, Copy, Debug, PartialEq, Eq, Structural)]
pub struct Command {
    pub channel: Channel,
    pub speed: Speed,
}

/// The speeds that a run of commands puts on the queue of one output, in the
/// order in which they arrive there.
pub open spec fn queued(commands: Seq<Command>, channel: Channel) -> Seq<Speed>
    decreases commands.len(),
{
    if commands.len() == 0 {
        Seq::empty()
    } else if commands.last().channel == channel {
        queued(commands.drop_last(), channel).push(commands.last().speed)
    } else {
        queued(commands.drop_last(), channel)
    }
}

/// Queueing one run of commands after another appends what each puts on a
/// queue.
pub proof fn lemma_queued_concat(first: Seq<Command>, second: Seq<Command>, channel: Channel)
    ensures
        queued(first + second, channel) == queued(first, channel) + queued(second, channel),
    decreases second.len(),
{
    if second.len() > 0 {
        assert((first + second).drop_last() =~= first + second.drop_last());
        lemma_queued_concat(first, second.drop_last(), channel);
    }
}

/// The pair of commands that brings both outputs to rest.
pub open spec fn spec_neutral_commands() -> Seq<Command> {
    seq![
        Command { channel: Channel::Pwm0, speed: Speed::spec_neutral() },
        Command { channel: Channel::Pwm1, speed: Speed::spec_neutral() },
    ]
}

/// The pair of commands that brings both outputs to rest: one neutral speed
/// for each output, output 0 first.
pub fn neutral_commands() -> (commands: Vec<Command>)
    ensures
        commands@ == spec_neutral_commands(),
{
    let mut commands = Vec::new();
    commands.push(Command { channel: Channel::Pwm0, speed: Speed::neutral() });
    commands.push(Command { channel: Channel::Pwm1, speed: Speed::neutral() });
    commands
}

/// The neutral pair puts exactly one neutral speed on each queue.
pub proof fn lemma_neutral_commands_queued(channel: Channel)
    ensures
        queued(spec_neutral_commands(), channel) == seq![Speed::spec_neutral()],
{
    reveal_with_fuel(queued, 3);
}

} // verus!
