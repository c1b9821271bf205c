//! The connection manager: the state machine that keeps one connection to
//! the server alive. It decides; the caller connects, reads, sleeps and
//! sends as it is told, and reports what happened.

use vstd::prelude::*;
use crate::error::DecodeError;
use crate::events::{Connected, Notice, NoticeView, TerrainLayout};
use crate::frames::{Frame, FrameView, Outbound, OutboundView};
use crate::handler::{handle_message, handled};
use crate::model::AxialPos;
use crate::state::ConnectionState;

verus! {

/// How long to wait between attempts to connect: the first wait after a
/// success is `initial_ms`, each further one twice the one before, and none
/// is longer than `ceiling_ms`.
#[derive(Clone, Copy, Debug, PartialEq, Eq, Structural)]
pub struct BackoffPolicy {
    pub initial_ms: u64,
    pub ceiling_ms: u64,
}

impl BackoffPolicy {
    /// A policy is well formed if its first wait is positive and no longer than
    /// its longest.
    pub open spec fn wf(&self) -> bool {
        0 < self.initial_ms <= self.ceiling_ms
    }

    /// The wait that follows a wait of `delay_ms`.
    pub open spec fn spec_after(&self, delay_ms: u64) -> u64 {
        if 2 * delay_ms <= self.ceiling_ms {
            (2 * delay_ms) as u64
        } else {
            self.ceiling_ms
        }
    }

    /// The policy with the given limits, if the first wait is positive and
    /// no longer than the longest.
    pub fn new(initial_ms: u64, ceiling_ms: u64) -> (out: Option<BackoffPolicy>)
        ensures
            out is Some <==> 0 < initial_ms <= ceiling_ms,
            out is Some ==> out.unwrap() == (BackoffPolicy { initial_ms, ceiling_ms }),
    {
        if 0 < initial_ms && initial_ms <= ceiling_ms {
            Some(BackoffPolicy { initial_ms, ceiling_ms })
        } else {
            None
        }
    }

    /// The wait that follows a wait of `delay_ms`, worked out without overflow.
    pub fn after(&self, delay_ms: u64) -> (out: u64)
        ensures
            out == self.spec_after(delay_ms),
    {
        if delay_ms <= self.ceiling_ms / 2 {
            2 * delay_ms
        } else {
            self.ceiling_ms
        }
    }
}

impl Default for BackoffPolicy {
    /// One millisecond at first, 4096 at most.
    fn default() -> (out: Self)
        ensures
            out == (BackoffPolicy { initial_ms: 1, ceiling_ms: 4096 }),
            out.wf(),
    {
        BackoffPolicy { initial_ms: 1, ceiling_ms: 4096 }
    }
}

/// The view of an event.
pub enum EventView {
    HandshakeFailed,
    HandshakeSucceeded,
    RetryDue,
    Received(FrameView),
    ReadFailed,
    StreamEnded,
    BridgeClosed,
}

/// What the caller reports to the manager.
#[derive(Clone, Debug, PartialEq, Eq)]
pub enum Event {
    /// The attempt to connect has failed.
    HandshakeFailed,
    /// The attempt to connect has succeeded.
    HandshakeSucceeded,
    /// The wait before the next attempt is over.
    RetryDue,
    /// A frame was read.
    Received(Frame),
    /// Reading from the socket has failed.
    ReadFailed,
    /// The socket has no more frames.
    StreamEnded,
    /// A notice could not be handed over, because nobody takes notices any
    /// more. That happens when the program shuts down.
    BridgeClosed,
}

impl View for Event {
    type V = EventView;

    open spec fn view(&self) -> EventView {
        match self {
            Event::HandshakeFailed => EventView::HandshakeFailed,
            Event::HandshakeSucceeded => EventView::HandshakeSucceeded,
            Event::RetryDue => EventView::RetryDue,
            Event::Received(frame) => EventView::Received(frame@),
            Event::ReadFailed => EventView::ReadFailed,
            Event::StreamEnded => EventView::StreamEnded,
            Event::BridgeClosed => EventView::BridgeClosed,
        }
    }
}

/// The view of an effect.
pub enum EffectView {
    SetState(ConnectionState),
    Sleep { ms: u64 },
    SpawnSender,
    YieldOnce,
    AbortSender,
    Publish(NoticeView),
    Enqueue(OutboundView),
    Discard(DecodeError),
    Stop,
}

/// What the manager tells the caller to do. The caller carries out the
/// effects of a step in their order.
#[derive(Clone, Debug, PartialEq)]
pub enum Effect {
    /// Store the state in the shared cell.
    SetState(ConnectionState),
    /// Wait for so many milliseconds.
    Sleep { ms: u64 },
    /// Start the sender of this connection on the write half of the socket.
    SpawnSender,
    /// Let other tasks run once, so that the sender has started.
    YieldOnce,
    /// Stop the sender of this connection at once.
    AbortSender,
    /// Hand the notice to the rest of the program. Where nobody takes it any
    /// more, leave the rest of the step and report `BridgeClosed`.
    Publish(Notice),
    /// Put the message on the queue of the sender.
    Enqueue(Outbound),
    /// The message was turned away for the given reason. The connection stays.
    Discard(DecodeError),
    /// End the task that keeps the connection.
    Stop,
}

impl View for Effect {
    type V = EffectView;

    open spec fn view(&self) -> EffectView {
        match self {
            Effect::SetState(state) => EffectView::SetState(*state),
            Effect::Sleep { ms } => EffectView::Sleep { ms: *ms },
            Effect::SpawnSender => EffectView::SpawnSender,
            Effect::YieldOnce => EffectView::YieldOnce,
            Effect::AbortSender => EffectView::AbortSender,
            Effect::Publish(notice) => EffectView::Publish(notice@),
            Effect::Enqueue(message) => EffectView::Enqueue(message@),
            Effect::Discard(e) => EffectView::Discard(*e),
            Effect::Stop => EffectView::Stop,
        }
    }
}

/// The views of a list of effects, in their order.
pub open spec fn effect_views(effects: Seq<Effect>) -> Seq<EffectView> {
    Seq::new(effects.len(), |i: int| effects[i]@)
}

/// What a frame asks for. The text of a frame is read as a message and gives
/// a notice, nothing, or a reason for turning it away. A ping is answered
/// with an empty pong through the queue of the sender. Every other frame is
/// passed over.
pub open spec fn frame_effects(frame: FrameView, layout: Seq<AxialPos>) -> Seq<EffectView> {
    match frame {
        FrameView::Text(text) => match handled(text, layout) {
            Ok(Some(notice)) => seq![EffectView::Publish(notice)],
            Ok(None) => seq![],
            Err(e) => seq![EffectView::Discard(e)],
        },
        FrameView::Ping(_) => seq![EffectView::Enqueue(OutboundView::Pong(Seq::empty()))],
        _ => seq![],
    }
}

/// Decides what a frame that was read asks for.
pub fn on_frame(frame: Frame, layout: &[AxialPos]) -> (effects: Vec<Effect>)
    ensures
        effect_views(effects@) == frame_effects(frame@, layout@),
{
    let mut effects: Vec<Effect> = Vec::new();
    match frame {
        Frame::Text(text) => match handle_message(text.as_str(), layout) {
            Ok(Some(notice)) => {
                effects.push(Effect::Publish(notice));
            },
            Ok(None) => {},
            Err(e) => {
                effects.push(Effect::Discard(e));
            },
        },
        Frame::Ping(_) => {
            effects.push(Effect::Enqueue(Outbound::Pong(Vec::new())));
        },
        _ => {},
    }
    assert(effect_views(effects@) =~= frame_effects(frame@, layout@));
    effects
}

/// What the caller does between two steps, and so which event comes next.
#[derive(Clone, Copy, Debug, PartialEq, Eq, Structural)]
pub enum Awaited {
    /// Try to connect, and report how the handshake went.
    Handshake,
    /// Read from the socket, and report the frame, the failure, or the end.
    Frame,
    /// Nothing: report at once that the next attempt is due.
    Retry,
}

/// What the caller does while the connection is in a state.
pub open spec fn awaited_in(state: ConnectionState) -> Awaited {
    match state {
        ConnectionState::Connecting => Awaited::Handshake,
        ConnectionState::Online => Awaited::Frame,
        ConnectionState::Closed => Awaited::Retry,
        ConnectionState::Error => Awaited::Retry,
    }
}

/// The manager as a mathematical value.
pub struct ManagerView {
    pub state: ConnectionState,
    /// The wait that follows the next failure to connect.
    pub delay_ms: u64,
    pub policy: BackoffPolicy,
    pub layout: Seq<AxialPos>,
}

impl ManagerView {
    /// The policy is well formed, and the next wait lies within it.
    pub open spec fn wf(self) -> bool {
        &&& self.policy.wf()
        &&& self.policy.initial_ms <= self.delay_ms <= self.policy.ceiling_ms
    }

    /// The manager in another state and otherwise unchanged.
    pub open spec fn in_state(self, state: ConnectionState) -> ManagerView {
        ManagerView { state, ..self }
    }

    /// The manager after an event, and what the caller is to do.
    pub open spec fn next(self, event: EventView) -> (ManagerView, Seq<EffectView>) {
        match (self.state, event) {
            (ConnectionState::Connecting, EventView::HandshakeFailed) => (
                ManagerView {
                    state: ConnectionState::Error,
                    delay_ms: self.policy.spec_after(self.delay_ms),
                    ..self
                },
                seq![
                    EffectView::SetState(ConnectionState::Error),
                    EffectView::Sleep { ms: self.delay_ms },
                ],
            ),
            (ConnectionState::Connecting, EventView::HandshakeSucceeded) => (
                ManagerView {
                    state: ConnectionState::Online,
                    delay_ms: self.policy.initial_ms,
                    ..self
                },
                seq![
                    EffectView::SpawnSender,
                    EffectView::YieldOnce,
                    EffectView::SetState(ConnectionState::Online),
                    EffectView::Publish(NoticeView::Connected),
                ],
            ),
            (ConnectionState::Error, EventView::RetryDue) => (
                self.in_state(ConnectionState::Connecting),
                seq![EffectView::SetState(ConnectionState::Connecting)],
            ),
            (ConnectionState::Closed, EventView::RetryDue) => (
                self.in_state(ConnectionState::Connecting),
                seq![EffectView::SetState(ConnectionState::Connecting)],
            ),
            (ConnectionState::Online, EventView::Received(frame)) => (
                self,
                frame_effects(frame, self.layout),
            ),
            (ConnectionState::Online, EventView::ReadFailed) => (
                self.in_state(ConnectionState::Closed),
                seq![EffectView::SetState(ConnectionState::Closed), EffectView::AbortSender],
            ),
            (ConnectionState::Online, EventView::StreamEnded) => (
                self.in_state(ConnectionState::Closed),
                seq![EffectView::SetState(ConnectionState::Closed), EffectView::AbortSender],
            ),
            (ConnectionState::Online, EventView::BridgeClosed) => (
                self.in_state(ConnectionState::Closed),
                seq![
                    EffectView::SetState(ConnectionState::Closed),
                    EffectView::AbortSender,
                    EffectView::Stop,
                ],
            ),
            (_, EventView::BridgeClosed) => (self, seq![EffectView::Stop]),
            _ => (self, seq![]),
        }
    }
}

/// The manager of one connection. It starts out connecting, with the first
/// wait of its policy ahead.
pub struct ConnectionManager {
    state: ConnectionState,
    delay_ms: u64,
    policy: BackoffPolicy,
    layout: TerrainLayout,
}

impl View for ConnectionManager {
    type V = ManagerView;

    closed spec fn view(&self) -> ManagerView {
        ManagerView {
            state: self.state,
            delay_ms: self.delay_ms,
            policy: self.policy,
            layout: self.layout@,
        }
    }
}

impl ConnectionManager {
    /// The manager's view is well formed.
    pub open spec fn wf(&self) -> bool {
        self@.wf()
    }

    /// The manager of a connection that is yet to be made, with the layout over
    /// which terrain is reconstructed.
    pub fn new(policy: BackoffPolicy, layout: TerrainLayout) -> (out: Self)
        requires
            policy.wf(),
        ensures
            out.wf(),
            out@ == (ManagerView {
                state: ConnectionState::Connecting,
                delay_ms: policy.initial_ms,
                policy,
                layout: layout@,
            }),
    {
        ConnectionManager {
            state: ConnectionState::Connecting,
            delay_ms: policy.initial_ms,
            policy,
            layout,
        }
    }

    /// The state that the connection is in.
    pub fn state(&self) -> (out: ConnectionState)
        ensures
            out == self@.state,
    {
        self.state
    }

    /// What the caller is to do before the next step.
    pub fn awaited(&self) -> (out: Awaited)
        ensures
            out == awaited_in(self@.state),
    {
        match self.state {
            ConnectionState::Connecting => Awaited::Handshake,
            ConnectionState::Online => Awaited::Frame,
            ConnectionState::Closed => Awaited::Retry,
            ConnectionState::Error => Awaited::Retry,
        }
    }

    /// The wait that would follow a failure to connect now.
    pub fn delay_ms(&self) -> (out: u64)
        ensures
            out == self@.delay_ms,
    {
        self.delay_ms
    }

    /// The policy that the manager was made with.
    pub fn policy(&self) -> (out: BackoffPolicy)
        ensures
            out == self@.policy,
    {
        self.policy
    }

    /// The layout that the manager was made with.
    pub fn layout(&self) -> (out: &[AxialPos])
        ensures
            out@ == self@.layout,
    {
        self.layout.0.as_slice()
    }

    /// Takes an event and says what to do. An event that the state does not
    /// wait for changes nothing and asks for nothing. The one event that
    /// every state takes is the closing of the bridge, which ends the task:
    /// a connection that is online is closed and its sender stopped first.
    pub fn step(&mut self, event: Event) -> (effects: Vec<Effect>)
        requires
            old(self).wf(),
        ensures
            final(self).wf(),
            final(self)@ == old(self)@.next(event@).0,
            effect_views(effects@) == old(self)@.next(event@).1,
    {
        let ghost pre = self@;
        let mut effects: Vec<Effect> = Vec::new();
        match (self.state, event) {
            (ConnectionState::Connecting, Event::HandshakeFailed) => {
                effects.push(Effect::SetState(ConnectionState::Error));
                effects.push(Effect::Sleep { ms: self.delay_ms });
                self.state = ConnectionState::Error;
                self.delay_ms = self.policy.after(self.delay_ms);
            },
            (ConnectionState::Connecting, Event::HandshakeSucceeded) => {
                effects.push(Effect::SpawnSender);
                effects.push(Effect::YieldOnce);
                effects.push(Effect::SetState(ConnectionState::Online));
                effects.push(Effect::Publish(Notice::Connected(Connected)));
                self.state = ConnectionState::Online;
                self.delay_ms = self.policy.initial_ms;
            },
            (ConnectionState::Error, Event::RetryDue) => {
                effects.push(Effect::SetState(ConnectionState::Connecting));
                self.state = ConnectionState::Connecting;
            },
            (ConnectionState::Closed, Event::RetryDue) => {
                effects.push(Effect::SetState(ConnectionState::Connecting));
                self.state = ConnectionState::Connecting;
            },
            (ConnectionState::Online, Event::Received(frame)) => {
                effects = on_frame(frame, self.layout.0.as_slice());
            },
            (ConnectionState::Online, Event::ReadFailed) => {
                effects.push(Effect::SetState(ConnectionState::Closed));
                effects.push(Effect::AbortSender);
                self.state = ConnectionState::Closed;
            },
            (ConnectionState::Online, Event::StreamEnded) => {
                effects.push(Effect::SetState(ConnectionState::Closed));
                effects.push(Effect::AbortSender);
                self.state = ConnectionState::Closed;
            },
            (ConnectionState::Online, Event::BridgeClosed) => {
                effects.push(Effect::SetState(ConnectionState::Closed));
                effects.push(Effect::AbortSender);
                effects.push(Effect::Stop);
                self.state = ConnectionState::Closed;
            },
            (_, Event::BridgeClosed) => {
                effects.push(Effect::Stop);
            },
            _ => {},
        }
        assert(effect_views(effects@) =~= pre.next(event@).1);
        effects
    }
}

} // verus!
