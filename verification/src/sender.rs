//! The write side: framing one command and judging its single reply.
//!
//! The sender's connection, write and read stay with the caller; this module
//! fixes what is written and when the exchange counts as a success. The
//! protocol owes exactly one reply line per command, so a peer that closes
//! without replying is a failure, reported and never retried here.

use vstd::prelude::*;
use vstd::string::*;

verus! {

/// Why sending a command failed.
#[derive(Debug, Clone, Copy, PartialEq, Eq, Structural)]
pub enum SendError {
    /// The control socket could not be opened.
    ConnectFailed,
    /// Writing the command line failed.
    WriteFailed,
    /// The peer closed the connection without sending the reply line.
    NoReply,
    /// Reading the reply line failed.
    ReadFailed,
}

impl SendError {
    /// A diagnostic for the CLI caller.
    pub fn describe(&self) -> (r: &str)
        ensures
            r@ == match *self {
                SendError::ConnectFailed => "failed to connect to the control socket"@,
                SendError::WriteFailed => "failed to write the command"@,
                SendError::NoReply => "the player closed the connection without replying"@,
                SendError::ReadFailed => "failed to read the reply"@,
            },
    {
        match self {
            SendError::ConnectFailed => "failed to connect to the control socket",
            SendError::WriteFailed => "failed to write the command",
            SendError::NoReply => "the player closed the connection without replying",
            SendError::ReadFailed => "failed to read the reply",
        }
    }
}

/// The exact bytes written for a command: the keyword and a newline.
pub fn wire_line(command: &str) -> (r: String)
    ensures
        r@ == command@ + "\n"@,
{
    let mut r: String = command.to_owned();
    r.append("\n");
    r
}

/// What reading the single reply line produced.
#[derive(Debug, Clone, PartialEq)]
pub enum ReplyOutcome {
    /// One reply line arrived (contents unspecified and discarded).
    Line(String),
    /// The peer closed the stream before any reply.
    Closed,
    /// The read itself failed.
    Failed,
}

/// Success exactly when the one owed reply line was read; a silent close is
/// `NoReply`, a failed read `ReadFailed`.
pub fn interpret_reply(outcome: &ReplyOutcome) -> (r: Result<(), SendError>)
    ensures
        outcome is Line <==> r is Ok,
        outcome is Closed ==> (r matches Err(e) && e == SendError::NoReply),
        outcome is Failed ==> (r matches Err(e) && e == SendError::ReadFailed),
{
    match outcome {
        ReplyOutcome::Line(_) => Ok(()),
        ReplyOutcome::Closed => Err(SendError::NoReply),
        ReplyOutcome::Failed => Err(SendError::ReadFailed),
    }
}

} // verus!
