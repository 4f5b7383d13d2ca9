//! Wire format of operator commands.
//!
//! A frame is eight bytes. Byte 0 is the instruction tag. A motor frame carries
//! the channel index in byte 1 and the speed, as a big-endian binary32 pattern,
//! in bytes 4 to 7; bytes 2 and 3 are padding. The four status requests carry
//! no payload and their remaining bytes are ignored.

use crate::speed::{in_unit_range, Speed};
use vstd::prelude::*;

verus! {

/// One frame as it travels on the wire.
pub type MessageBytes = [u8; 8];

/// Number of bytes in a frame.
pub const FRAME_LEN: usize = 8;

/// Tag of a motor command.
pub const TAG_MOTOR: u8 = 0;

/// Tag of the liveness query.
pub const TAG_QUERY: u8 = 1;

/// Tag of the battery status request.
pub const TAG_BATTERY: u8 = 2;

/// Tag of the memory status request.
pub const TAG_MEMORY: u8 = 3;

/// Tag of the processor load request.
pub const TAG_CPU: u8 = 4;

/// Number of motor channels; valid channel indices lie below it.
pub const CHANNEL_COUNT: u8 = 2;

/// A command to run one motor channel at a speed.
#[derive(Clone, Copy, Debug, PartialEq, Eq, Structural)]
pub struct MotorInstruction {
    pub channel: u8,
    pub speed: Speed,
}

impl MotorInstruction {
    /// A command for the channel with the given index.
    pub fn new(channel: u8, speed: Speed) -> (instruction: MotorInstruction)
        ensures
            instruction == (MotorInstruction { channel, speed }),
    {
        MotorInstruction { channel, speed }
    }

    /// Index of the channel this command addresses.
    pub fn channel(&self) -> (channel: u8)
        ensures
            channel == self.channel,
    {
        self.channel
    }

    /// Speed this command asks for.
    pub fn speed(&self) -> (speed: Speed)
        ensures
            speed == self.speed,
    {
        self.speed
    }
}

/// What an operator can ask of the robot.
#[derive(Clone, Copy, Debug, PartialEq, Eq, Structural)]
pub enum Instruction {
    /// Run a motor channel at a speed.
    Motor(MotorInstruction),
    /// Are you there?
    Query,
    /// Report the battery charge.
    Battery,
    /// Report memory use.
    Memory,
    /// Report processor load.
    Cpu,
}

impl Instruction {
    /// Whether this instruction can be carried by a frame: a motor command
    /// must name an existing channel and hold a speed within bounds.
    pub open spec fn encodable(self) -> bool {
        self matches Instruction::Motor(motor) ==> motor.channel < CHANNEL_COUNT
            && motor.speed.well_formed()
    }
}

/// The 32-bit number that four bytes spell, most significant byte first.
pub open spec fn big_endian(b0: u8, b1: u8, b2: u8, b3: u8) -> u32 {
    (b0 * 0x100_0000 + b1 * 0x1_0000 + b2 * 0x100 + b3) as u32
}

/// The speed pattern held in bytes 4 to 7 of a frame.
pub open spec fn speed_pattern(frame: Seq<u8>) -> u32
    recommends
        frame.len() == FRAME_LEN,
{
    big_endian(frame[4], frame[5], frame[6], frame[7])
}

/// Whether the tag byte names one of the five instructions.
pub open spec fn known_tag(tag: u8) -> bool {
    tag <= TAG_CPU
}

/// The instruction a frame denotes, if any.
///
/// A frame denotes nothing when its tag is unknown, or when it is a motor
/// frame whose channel does not exist or whose speed is not a number within
/// the unit range.
pub open spec fn spec_decode(frame: Seq<u8>) -> Option<Instruction>
    recommends
        frame.len() == FRAME_LEN,
{
    let tag = frame[0];
    if tag == TAG_MOTOR {
        if frame[1] < CHANNEL_COUNT && in_unit_range(speed_pattern(frame)) {
            Some(
                Instruction::Motor(
                    MotorInstruction {
                        channel: frame[1],
                        speed: Speed::of_bits(speed_pattern(frame)),
                    },
                ),
            )
        } else {
            None
        }
    } else if tag == TAG_QUERY {
        Some(Instruction::Query)
    } else if tag == TAG_BATTERY {
        Some(Instruction::Battery)
    } else if tag == TAG_MEMORY {
        Some(Instruction::Memory)
    } else if tag == TAG_CPU {
        Some(Instruction::Cpu)
    } else {
        None
    }
}

/// The frame that carries an instruction: padding and unused payload zero.
pub open spec fn spec_encode(instruction: Instruction) -> Seq<u8> {
    match instruction {
        Instruction::Motor(motor) => {
            let bits = motor.speed.spec_bits();
            seq![
                TAG_MOTOR,
                motor.channel,
                0u8,
                0u8,
                (bits / 0x100_0000) as u8,
                (bits / 0x1_0000 % 0x100) as u8,
                (bits / 0x100 % 0x100) as u8,
                (bits % 0x100) as u8,
            ]
        },
        Instruction::Query => seq![TAG_QUERY, 0u8, 0u8, 0u8, 0u8, 0u8, 0u8, 0u8],
        Instruction::Battery => seq![TAG_BATTERY, 0u8, 0u8, 0u8, 0u8, 0u8, 0u8, 0u8],
        Instruction::Memory => seq![TAG_MEMORY, 0u8, 0u8, 0u8, 0u8, 0u8, 0u8, 0u8],
        Instruction::Cpu => seq![TAG_CPU, 0u8, 0u8, 0u8, 0u8, 0u8, 0u8, 0u8],
    }
}

/// Reads four bytes as a 32-bit number, most significant byte first.
fn read_big_endian(b0: u8, b1: u8, b2: u8, b3: u8) -> (value: u32)
    ensures
        value == big_endian(b0, b1, b2, b3),
{
    let value = ((b0 as u32) << 24) | ((b1 as u32) << 16) | ((b2 as u32) << 8) | (b3 as u32);
    assert(((b0 as u32) << 24) | ((b1 as u32) << 16) | ((b2 as u32) << 8) | (b3 as u32) == b0
        * 0x100_0000 + b1 * 0x1_0000 + b2 * 0x100 + b3) by (bit_vector);
    value
}

/// Decodes a frame.
///
/// Total over all frames: the result is the instruction the frame denotes, or
/// `None` for an unknown tag, a channel that does not exist, or a speed out of
/// bounds. Nothing is decoded in part.
pub fn decode(frame: MessageBytes) -> (instruction: Option<Instruction>)
    ensures
        instruction == spec_decode(frame@),
{
    let tag = frame[0];
    if tag == TAG_MOTOR {
        let channel = frame[1];
        if channel >= CHANNEL_COUNT {
            return None;
        }
        let bits = read_big_endian(frame[4], frame[5], frame[6], frame[7]);
        match Speed::from_bits(bits) {
            Some(speed) => Some(Instruction::Motor(MotorInstruction { channel, speed })),
            None => None,
        }
    } else if tag == TAG_QUERY {
        Some(Instruction::Query)
    } else if tag == TAG_BATTERY {
        Some(Instruction::Battery)
    } else if tag == TAG_MEMORY {
        Some(Instruction::Memory)
    } else if tag == TAG_CPU {
        Some(Instruction::Cpu)
    } else {
        None
    }
}

/// Encodes an instruction into the frame that carries it.
pub fn encode(instruction: Instruction) -> (frame: MessageBytes)
    ensures
        frame@ == spec_encode(instruction),
{
    match instruction {
        Instruction::Motor(motor) => {
            let bits = motor.speed.to_bits();
            assert((bits >> 24) == bits / 0x100_0000 && (bits >> 16) & 0xff == bits / 0x1_0000
                % 0x100 && (bits >> 8) & 0xff == bits / 0x100 % 0x100 && bits & 0xff == bits
                % 0x100 && (bits >> 24) <= 0xff) by (bit_vector);
            [
                TAG_MOTOR,
                motor.channel,
                0,
                0,
                (bits >> 24) as u8,
                ((bits >> 16) & 0xff) as u8,
                ((bits >> 8) & 0xff) as u8,
                (bits & 0xff) as u8,
            ]
        },
        Instruction::Query => [TAG_QUERY, 0, 0, 0, 0, 0, 0, 0],
        Instruction::Battery => [TAG_BATTERY, 0, 0, 0, 0, 0, 0, 0],
        Instruction::Memory => [TAG_MEMORY, 0, 0, 0, 0, 0, 0, 0],
        Instruction::Cpu => [TAG_CPU, 0, 0, 0, 0, 0, 0, 0],
    }
}

/// A motor frame with an existing channel and a speed within bounds decodes
/// to that channel and that speed, whatever its padding holds.
pub proof fn lemma_decode_motor(frame: Seq<u8>)
    requires
        frame.len() == FRAME_LEN,
        frame[0] == TAG_MOTOR,
        frame[1] < CHANNEL_COUNT,
        in_unit_range(speed_pattern(frame)),
    ensures
        spec_decode(frame) == Some(
            Instruction::Motor(
                MotorInstruction {
                    channel: frame[1],
                    speed: Speed::of_bits(speed_pattern(frame)),
                },
            ),
        ),
        Speed::of_bits(speed_pattern(frame)).spec_bits() == speed_pattern(frame),
{
    Speed::lemma_of_bits(speed_pattern(frame));
}

/// A frame denotes nothing exactly when its tag is unknown, or it is a motor
/// frame whose channel does not exist or whose speed is out of bounds.
pub proof fn lemma_decode_rejects(frame: Seq<u8>)
    requires
        frame.len() == FRAME_LEN,
    ensures
        spec_decode(frame) is None <==> !known_tag(frame[0]) || (frame[0] == TAG_MOTOR && (frame[1]
            >= CHANNEL_COUNT || !in_unit_range(speed_pattern(frame)))),
{
}

/// Whatever a frame denotes can be carried by a frame.
pub proof fn lemma_decoded_is_encodable(frame: Seq<u8>)
    requires
        frame.len() == FRAME_LEN,
    ensures
        spec_decode(frame) matches Some(instruction) ==> instruction.encodable(),
{
    Speed::lemma_of_bits(speed_pattern(frame));
}

/// Decoding undoes encoding: the frame that carries an instruction denotes
/// that instruction, bit for bit.
pub proof fn lemma_decode_encode(instruction: Instruction)
    requires
        instruction.encodable(),
    ensures
        spec_encode(instruction).len() == FRAME_LEN,
        spec_decode(spec_encode(instruction)) == Some(instruction),
{
    match instruction {
        Instruction::Motor(motor) => {
            let bits = motor.speed.spec_bits();
            let frame = spec_encode(instruction);
            assert(speed_pattern(frame) == bits) by {
                assert(((bits / 0x100_0000) as u8) * 0x100_0000 + ((bits / 0x1_0000 % 0x100) as u8)
                    * 0x1_0000 + ((bits / 0x100 % 0x100) as u8) * 0x100 + ((bits % 0x100) as u8)
                    == bits) by (bit_vector);
            }
            motor.speed.lemma_by_bits();
        },
        _ => {},
    }
}

} // verus!
