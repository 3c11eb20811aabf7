//! What the transport hands to the interpreter.

use vstd::prelude::*;
use crate::failure::{Failure, FailureModel};

verus! {

/// One frame read from the transport.
#[derive(Debug, PartialEq, Eq)]
pub enum Frame {
    Text(String),
    Binary(Vec<u8>),
    Ping,
    Pong,
    Close,
}

/// What became of the action that the interpreter asked for.
#[derive(Debug, PartialEq, Eq)]
pub enum Event {
    /// The text was sent.
    Sent,
    /// The text could not be sent.
    SendFailed,
    /// A frame was read.
    Received(Frame),
    /// Reading failed.
    ReadFailed,
}

/// What an event means to a line that awaits a text frame: `None` where the
/// wait goes on, the text where one has come, and the failure where the wait
/// is over without one.
///
/// Ping and pong frames are passed over, as is an event that is not the
/// outcome of a read. A close frame, a binary frame and a failed read end the
/// wait.
pub open spec fn text_read(event: Event) -> Option<Result<Seq<char>, FailureModel>> {
    match event {
        Event::Received(Frame::Text(text)) => Some(Ok(text@)),
        Event::Received(Frame::Binary(_)) => Some(Err(FailureModel::BinaryUnsupported)),
        Event::Received(Frame::Close) => Some(Err(FailureModel::ConnectionClosed)),
        Event::Received(Frame::Ping) => None,
        Event::Received(Frame::Pong) => None,
        Event::ReadFailed => Some(Err(FailureModel::ReadFailed)),
        Event::Sent => None,
        Event::SendFailed => None,
    }
}

/// Takes the awaited text out of an event, if the event carries one, and
/// says whether the wait is over: see [`text_read`].
pub fn read_text(event: Event) -> (read: Option<Result<String, Failure>>)
    ensures
        match read {
            None => text_read(event) is None,
            Some(Ok(text)) => text_read(event) == Some(Ok::<Seq<char>, FailureModel>(text@)),
            Some(Err(failure)) => text_read(event) == Some(
                Err::<Seq<char>, FailureModel>(failure@),
            ),
        },
{
    match event {
        Event::Received(frame) => match frame {
            Frame::Text(text) => Some(Ok(text)),
            Frame::Binary(_) => Some(Err(Failure::BinaryUnsupported)),
            Frame::Ping => None,
            Frame::Pong => None,
            Frame::Close => Some(Err(Failure::ConnectionClosed)),
        },
        Event::ReadFailed => Some(Err(Failure::ReadFailed)),
        Event::Sent => None,
        Event::SendFailed => None,
    }
}

} // verus!
