//! The frames of the socket as the connection sees them, and the messages
//! that it writes.

use vstd::prelude::*;

verus! {

/// The view of a frame.
pub enum FrameView {
    Text(Seq<char>),
    Binary(Seq<u8>),
    Ping(Seq<u8>),
    Pong(Seq<u8>),
    Close,
    Other,
}

/// A frame that was read from the socket.
#[derive(Clone, Debug, PartialEq, Eq)]
pub enum Frame {
    Text(String),
    Binary(Vec<u8>),
    Ping(Vec<u8>),
    Pong(Vec<u8>),
    Close,
    /// Any frame of a kind that the protocol does not use.
    Other,
}

impl View for Frame {
    type V = FrameView;

    open spec fn view(&self) -> FrameView {
        match self {
            Frame::Text(text) => FrameView::Text(text@),
            Frame::Binary(bytes) => FrameView::Binary(bytes@),
            Frame::Ping(bytes) => FrameView::Ping(bytes@),
            Frame::Pong(bytes) => FrameView::Pong(bytes@),
            Frame::Close => FrameView::Close,
            Frame::Other => FrameView::Other,
        }
    }
}

/// The view of an outbound message.
pub enum OutboundView {
    Binary(Seq<u8>),
    Pong(Seq<u8>),
}

/// A message on its way to the socket: a command, or the answer to a ping.
#[derive(Clone, Debug, PartialEq, Eq)]
pub enum Outbound {
    Binary(Vec<u8>),
    Pong(Vec<u8>),
}

impl View for Outbound {
    type V = OutboundView;

    open spec fn view(&self) -> OutboundView {
        match self {
            Outbound::Binary(bytes) => OutboundView::Binary(bytes@),
            Outbound::Pong(bytes) => OutboundView::Pong(bytes@),
        }
    }
}

} // verus!
