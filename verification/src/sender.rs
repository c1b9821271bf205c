//! The command sender: the task that takes messages off the outbound queue
//! and writes them to the socket of one connection. It decides here; the
//! caller polls the queue, writes, and sleeps as it is told.

use vstd::prelude::*;
use crate::frames::{Outbound, OutboundView};

verus! {

/// How long the sender rests when the queue is empty, in milliseconds.
pub const SENDER_IDLE_MS: u64 = 10;

/// The view of an event of the sender.
pub enum SenderEventView {
    Received(OutboundView),
    Empty,
    Disconnected,
    Written,
    WriteFailed,
}

/// What the caller reports to the sender.
#[derive(Clone, Debug, PartialEq, Eq)]
pub enum SenderEvent {
    /// The queue gave a message.
    Received(Outbound),
    /// The queue holds nothing at the moment.
    Empty,
    /// Nobody can put a message on the queue any more.
    Disconnected,
    /// The last message was written to the socket.
    Written,
    /// The last message could not be written.
    WriteFailed,
}

impl View for SenderEvent {
    type V = SenderEventView;

    open spec fn view(&self) -> SenderEventView {
        match self {
            SenderEvent::Received(message) => SenderEventView::Received(message@),
            SenderEvent::Empty => SenderEventView::Empty,
            SenderEvent::Disconnected => SenderEventView::Disconnected,
            SenderEvent::Written => SenderEventView::Written,
            SenderEvent::WriteFailed => SenderEventView::WriteFailed,
        }
    }
}

/// The view of a command of the sender.
pub enum SenderCommandView {
    Write(OutboundView),
    RestThenPoll { ms: u64 },
    YieldThenPoll,
    Stop,
}

/// What the sender tells the caller to do next.
#[derive(Clone, Debug, PartialEq, Eq)]
pub enum SenderCommand {
    /// Write the message to the socket and report how it went.
    Write(Outbound),
    /// Sleep for so many milliseconds, let other tasks run, and poll again.
    RestThenPoll { ms: u64 },
    /// Let other tasks run and poll again.
    YieldThenPoll,
    /// End the task.
    Stop,
}

impl View for SenderCommand {
    type V = SenderCommandView;

    open spec fn view(&self) -> SenderCommandView {
        match self {
            SenderCommand::Write(message) => SenderCommandView::Write(message@),
            SenderCommand::RestThenPoll { ms } => SenderCommandView::RestThenPoll { ms: *ms },
            SenderCommand::YieldThenPoll => SenderCommandView::YieldThenPoll,
            SenderCommand::Stop => SenderCommandView::Stop,
        }
    }
}

/// The command that answers an event: a message is written as it is; an
/// empty queue is polled again after a rest; the task ends when the queue
/// is disconnected or a write has failed.
pub open spec fn sender_command(event: SenderEventView) -> SenderCommandView {
    match event {
        SenderEventView::Received(message) => SenderCommandView::Write(message),
        SenderEventView::Empty => SenderCommandView::RestThenPoll { ms: SENDER_IDLE_MS },
        SenderEventView::Disconnected => SenderCommandView::Stop,
        SenderEventView::Written => SenderCommandView::YieldThenPoll,
        SenderEventView::WriteFailed => SenderCommandView::Stop,
    }
}

/// Decides what the sender does next.
pub fn sender_step(event: SenderEvent) -> (command: SenderCommand)
    ensures
        command@ == sender_command(event@),
{
    match event {
        SenderEvent::Received(message) => SenderCommand::Write(message),
        SenderEvent::Empty => SenderCommand::RestThenPoll { ms: SENDER_IDLE_MS },
        SenderEvent::Disconnected => SenderCommand::Stop,
        SenderEvent::Written => SenderCommand::YieldThenPoll,
        SenderEvent::WriteFailed => SenderCommand::Stop,
    }
}

} // verus!
