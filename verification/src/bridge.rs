//! Frames exchanged by the console bridge.
//!
//! The bridge stands between the operator's console and the robot's runtime.
//! The console asks it to enable or disable the linkage; the bridge passes the
//! request on to the runtime, reads the runtime's answer and acknowledges to
//! the console. All frames are eight bytes, told apart by their first byte.

use crate::instruction::{MessageBytes, FRAME_LEN};
use vstd::prelude::*;

verus! {

/// First byte of every frame that concerns enabling the linkage.
pub const ENABLE_LINKAGE: u8 = 0x00;

/// First byte of every frame that concerns disabling the linkage.
pub const DISABLE_LINKAGE: u8 = 0x01;

/// What the console can ask of the bridge.
#[derive(Clone, Copy, Debug, PartialEq, Eq, Structural)]
pub enum LinkageRequest {
    Enable,
    Disable,
}

/// What a binary message from the console turns out to be.
#[derive(Clone, Copy, Debug, PartialEq, Eq, Structural)]
pub enum ConsoleMessage {
    /// A request to pass on to the runtime.
    Request(LinkageRequest),
    /// Not a frame: the message has this many bytes instead of eight.
    WrongLength(usize),
    /// A frame whose first byte names no request.
    UnknownInstruction(u8),
}

impl LinkageRequest {
    /// First byte of the frames that carry, answer and acknowledge this
    /// request.
    pub open spec fn spec_tag(self) -> u8 {
        match self {
            LinkageRequest::Enable => ENABLE_LINKAGE,
            LinkageRequest::Disable => DISABLE_LINKAGE,
        }
    }

    /// The frame of this request: its tag, then zeros.
    pub open spec fn spec_frame(self) -> Seq<u8> {
        seq![self.spec_tag(), 0u8, 0u8, 0u8, 0u8, 0u8, 0u8, 0u8]
    }

    /// First byte of the frames that carry, answer and acknowledge this
    /// request.
    pub fn tag(self) -> (tag: u8)
        ensures
            tag == self.spec_tag(),
    {
        match self {
            LinkageRequest::Enable => ENABLE_LINKAGE,
            LinkageRequest::Disable => DISABLE_LINKAGE,
        }
    }

    /// The frame that passes this request on to the runtime.
    pub fn runtime_frame(self) -> (frame: MessageBytes)
        ensures
            frame@ == self.spec_frame(),
    {
        [self.tag(), 0, 0, 0, 0, 0, 0, 0]
    }

    /// The frame that tells the console that this request was carried out.
    pub fn console_frame(self) -> (frame: MessageBytes)
        ensures
            frame@ == self.spec_frame(),
    {
        [self.tag(), 0, 0, 0, 0, 0, 0, 0]
    }

    /// Whether the runtime's answer confirms this request: its first byte is
    /// the tag of the request.
    pub fn confirmed_by(self, answer: MessageBytes) -> (confirmed: bool)
        ensures
            confirmed <==> answer@[0] == self.spec_tag(),
    {
        answer[0] == self.tag()
    }
}

/// What a binary message of the given bytes is.
pub open spec fn spec_classify(message: Seq<u8>) -> ConsoleMessage {
    if message.len() != FRAME_LEN {
        ConsoleMessage::WrongLength(message.len() as usize)
    } else if message[0] == ENABLE_LINKAGE {
        ConsoleMessage::Request(LinkageRequest::Enable)
    } else if message[0] == DISABLE_LINKAGE {
        ConsoleMessage::Request(LinkageRequest::Disable)
    } else {
        ConsoleMessage::UnknownInstruction(message[0])
    }
}

/// Tells what a binary message from the console is: a request, if it has
/// eight bytes and its first byte names one.
pub fn classify(message: &[u8]) -> (class: ConsoleMessage)
    ensures
        class == spec_classify(message@),
{
    if message.len() != FRAME_LEN {
        ConsoleMessage::WrongLength(message.len())
    } else if message[0] == ENABLE_LINKAGE {
        ConsoleMessage::Request(LinkageRequest::Enable)
    } else if message[0] == DISABLE_LINKAGE {
        ConsoleMessage::Request(LinkageRequest::Disable)
    } else {
        ConsoleMessage::UnknownInstruction(message[0])
    }
}

} // verus!
