//! Motor-command layer of a teleoperated robot.
//!
//! An operator console sends fixed-size binary frames over a network
//! connection. This library decodes them into typed instructions and decides
//! what each one leads to: a speed on the queue of one of two motor outputs, a
//! line of status text, or a diagnostic. It maps speeds to pulse widths for
//! servo-style speed controllers, and it says when both outputs must be
//! brought back to rest: whenever a connection ends and when the process is
//! told to terminate.
//!
//! Every decision is a function with a proved contract. Sockets, queues,
//! threads, signals and the hardware binding belong to the program that links
//! the library; it performs what it is told and reports what happened.
//!
//! - [`speed`]: the normalised speed, a number between minus one and one.
//! - [`instruction`]: the wire format, `decode` and `encode`.
//! - [`pulse`]: the mapping from speed to pulse width.
//! - [`channel`]: the two outputs and the commands addressed to them.
//! - [`status`]: the lines of text sent back to the operator.
//! - [`dispatcher`]: the connection-handling state machine.
//! - [`session`]: what holds of every run of the server.
//! - [`control_channel`]: the control loop of one output.
//! - [`failsafe`]: the shutdown on a termination signal.
//! - [`bridge`]: the frames of the console bridge.

pub mod bridge;
pub mod channel;
pub mod control_channel;
pub mod dispatcher;
pub mod failsafe;
pub mod instruction;
pub mod pulse;
pub mod session;
pub mod speed;
pub mod status;
