use std::sync::atomic::Ordering;

use cao_sim_client::connection::{
    on_frame, Awaited, BackoffPolicy, ConnectionManager, Effect, Event,
};
use cao_sim_client::error::DecodeError;
use cao_sim_client::events::{Connected, Notice, TerrainLayout};
use cao_sim_client::frames::{Frame, Outbound};
use cao_sim_client::model::AxialPos;
use cao_sim_client::state::{ConnectionState, ConnectionStateRes};

fn manager() -> ConnectionManager {
    ConnectionManager::new(BackoffPolicy::default(), TerrainLayout(vec![AxialPos { q: 0, r: 0 }]))
}

fn online() -> ConnectionManager {
    let mut m = manager();
    m.step(Event::HandshakeSucceeded);
    m
}

const SNAPSHOT: &str = "{\"ty\":\"entities\",\"payload\":{\"time\":42,\"roomId\":{\"q\":1,\"r\":1},\"bots\":[],\"structures\":[],\"resources\":[]}}";

#[test]
fn manager_starts_out_connecting() {
    let m = manager();
    assert_eq!(m.state(), ConnectionState::Connecting);
    assert_eq!(m.delay_ms(), 1);
    assert_eq!(m.policy(), BackoffPolicy { initial_ms: 1, ceiling_ms: 4096 });
    assert_eq!(m.layout(), &[AxialPos { q: 0, r: 0 }]);
}

#[test]
fn failure_then_success_passes_through_error() {
    let mut m = manager();
    let cell = ConnectionStateRes::new(m.state());
    let mut seen = vec![cell.load(Ordering::Acquire)];
    let mut waits = vec![];
    for event in [Event::HandshakeFailed, Event::RetryDue, Event::HandshakeSucceeded] {
        for effect in m.step(event) {
            match effect {
                Effect::SetState(s) => {
                    cell.store(s, Ordering::Release);
                    seen.push(cell.load(Ordering::Acquire));
                },
                Effect::Sleep { ms } => waits.push(ms),
                _ => {},
            }
        }
    }
    assert_eq!(
        seen,
        vec![
            ConnectionState::Connecting,
            ConnectionState::Error,
            ConnectionState::Connecting,
            ConnectionState::Online,
        ]
    );
    assert_eq!(waits, vec![1]);
    assert!(waits[0] >= BackoffPolicy::default().initial_ms);
    assert!(waits[0] < BackoffPolicy::default().ceiling_ms);
    assert_eq!(m.state(), ConnectionState::Online);
}

#[test]
fn failed_handshake_asks_for_error_and_a_wait() {
    let mut m = manager();
    let effects = m.step(Event::HandshakeFailed);
    assert_eq!(effects, vec![Effect::SetState(ConnectionState::Error), Effect::Sleep { ms: 1 }]);
    assert_eq!(m.state(), ConnectionState::Error);
    assert_eq!(m.delay_ms(), 2);
}

#[test]
fn successful_handshake_starts_the_sender_before_it_tells_anyone() {
    let mut m = manager();
    let effects = m.step(Event::HandshakeSucceeded);
    assert_eq!(
        effects,
        vec![
            Effect::SpawnSender,
            Effect::YieldOnce,
            Effect::SetState(ConnectionState::Online),
            Effect::Publish(Notice::Connected(Connected)),
        ]
    );
    assert_eq!(m.state(), ConnectionState::Online);
}

#[test]
fn waits_double_up_to_the_ceiling() {
    let mut m = manager();
    let mut waits = vec![];
    for _ in 0..15 {
        for effect in m.step(Event::HandshakeFailed) {
            if let Effect::Sleep { ms } = effect {
                waits.push(ms);
            }
        }
        assert_eq!(m.step(Event::RetryDue), vec![Effect::SetState(ConnectionState::Connecting)]);
    }
    assert_eq!(
        waits,
        vec![1, 2, 4, 8, 16, 32, 64, 128, 256, 512, 1024, 2048, 4096, 4096, 4096]
    );
}

#[test]
fn waits_stop_at_a_ceiling_that_is_no_power_of_two() {
    let policy = BackoffPolicy::new(3, 20).unwrap();
    let mut m = ConnectionManager::new(policy, TerrainLayout(vec![]));
    let mut waits = vec![];
    for _ in 0..6 {
        for effect in m.step(Event::HandshakeFailed) {
            if let Effect::Sleep { ms } = effect {
                waits.push(ms);
            }
        }
        m.step(Event::RetryDue);
    }
    assert_eq!(waits, vec![3, 6, 12, 20, 20, 20]);
}

#[test]
fn waits_do_not_overflow() {
    let policy = BackoffPolicy::new(u64::MAX - 1, u64::MAX).unwrap();
    let mut m = ConnectionManager::new(policy, TerrainLayout(vec![]));
    assert_eq!(
        m.step(Event::HandshakeFailed),
        vec![Effect::SetState(ConnectionState::Error), Effect::Sleep { ms: u64::MAX - 1 }]
    );
    assert_eq!(m.delay_ms(), u64::MAX);
    assert_eq!(policy.after(u64::MAX), u64::MAX);
}

#[test]
fn success_resets_the_wait() {
    let mut m = manager();
    for _ in 0..5 {
        m.step(Event::HandshakeFailed);
        m.step(Event::RetryDue);
    }
    assert_eq!(m.delay_ms(), 32);
    m.step(Event::HandshakeSucceeded);
    assert_eq!(m.delay_ms(), 1);
    m.step(Event::StreamEnded);
    m.step(Event::RetryDue);
    assert_eq!(
        m.step(Event::HandshakeFailed),
        vec![Effect::SetState(ConnectionState::Error), Effect::Sleep { ms: 1 }]
    );
}

#[test]
fn policy_needs_a_positive_first_wait_below_the_ceiling() {
    assert_eq!(BackoffPolicy::new(0, 10), None);
    assert_eq!(BackoffPolicy::new(11, 10), None);
    assert_eq!(BackoffPolicy::new(10, 10), Some(BackoffPolicy { initial_ms: 10, ceiling_ms: 10 }));
    assert_eq!(BackoffPolicy::new(1, 4096), Some(BackoffPolicy::default()));
}

#[test]
fn ping_is_answered_with_one_pong_and_nothing_else() {
    let mut m = online();
    let effects = m.step(Event::Received(Frame::Ping(vec![1, 2, 3])));
    assert_eq!(effects, vec![Effect::Enqueue(Outbound::Pong(vec![]))]);
    assert_eq!(m.state(), ConnectionState::Online);
}

#[test]
fn snapshot_frame_publishes_one_notice() {
    let mut m = online();
    let effects = m.step(Event::Received(Frame::Text(SNAPSHOT.to_string())));
    assert_eq!(effects.len(), 1);
    match &effects[0] {
        Effect::Publish(Notice::NewEntities(e)) => assert_eq!(e.0.time, 42),
        other => panic!("unexpected: {:?}", other),
    }
    assert_eq!(m.state(), ConnectionState::Online);
}

#[test]
fn pong_binary_close_and_other_frames_are_passed_over() {
    let mut m = online();
    assert_eq!(m.step(Event::Received(Frame::Pong(vec![9]))), vec![]);
    assert_eq!(m.step(Event::Received(Frame::Binary(SNAPSHOT.as_bytes().to_vec()))), vec![]);
    assert_eq!(m.step(Event::Received(Frame::Close)), vec![]);
    assert_eq!(m.step(Event::Received(Frame::Other)), vec![]);
    assert_eq!(m.state(), ConnectionState::Online);
}

#[test]
fn bad_message_is_dropped_and_the_connection_stays() {
    let mut m = online();
    assert_eq!(
        m.step(Event::Received(Frame::Text("{".to_string()))),
        vec![Effect::Discard(DecodeError::Malformed)]
    );
    assert_eq!(m.state(), ConnectionState::Online);
    let effects = m.step(Event::Received(Frame::Text(SNAPSHOT.to_string())));
    assert_eq!(effects.len(), 1);
}

#[test]
fn terrain_that_does_not_fit_is_dropped_and_the_connection_stays() {
    let mut m = online();
    let text = "{\"ty\":\"terrain\",\"payload\":{\"roomId\":{},\"offset\":{},\"tiles\":[1,2]}}";
    assert_eq!(
        m.step(Event::Received(Frame::Text(text.to_string()))),
        vec![Effect::Discard(DecodeError::LayoutMismatch { tiles: 2, layout: 1 })]
    );
    assert_eq!(m.state(), ConnectionState::Online);
}

#[test]
fn terrain_without_payload_asks_for_nothing() {
    let mut m = online();
    assert_eq!(m.step(Event::Received(Frame::Text("{\"ty\":\"terrain\"}".to_string()))), vec![]);
}

#[test]
fn end_of_stream_closes_and_stops_the_sender() {
    let mut m = online();
    assert_eq!(
        m.step(Event::StreamEnded),
        vec![Effect::SetState(ConnectionState::Closed), Effect::AbortSender]
    );
    assert_eq!(m.state(), ConnectionState::Closed);
    assert_eq!(m.step(Event::RetryDue), vec![Effect::SetState(ConnectionState::Connecting)]);
    assert_eq!(m.state(), ConnectionState::Connecting);
}

#[test]
fn read_error_closes_and_stops_the_sender() {
    let mut m = online();
    assert_eq!(
        m.step(Event::ReadFailed),
        vec![Effect::SetState(ConnectionState::Closed), Effect::AbortSender]
    );
    assert_eq!(m.state(), ConnectionState::Closed);
}

#[test]
fn events_that_the_state_does_not_wait_for_change_nothing() {
    let mut m = manager();
    assert_eq!(m.step(Event::RetryDue), vec![]);
    assert_eq!(m.step(Event::StreamEnded), vec![]);
    assert_eq!(m.step(Event::ReadFailed), vec![]);
    assert_eq!(m.step(Event::Received(Frame::Ping(vec![]))), vec![]);
    assert_eq!(m.state(), ConnectionState::Connecting);
    let mut m = online();
    assert_eq!(m.step(Event::HandshakeFailed), vec![]);
    assert_eq!(m.step(Event::HandshakeSucceeded), vec![]);
    assert_eq!(m.step(Event::RetryDue), vec![]);
    assert_eq!(m.state(), ConnectionState::Online);
    assert_eq!(m.delay_ms(), 1);
    m.step(Event::StreamEnded);
    assert_eq!(m.step(Event::HandshakeFailed), vec![]);
    assert_eq!(m.step(Event::Received(Frame::Close)), vec![]);
    assert_eq!(m.state(), ConnectionState::Closed);
}

#[test]
fn frames_are_judged_without_a_manager_too() {
    assert_eq!(on_frame(Frame::Ping(vec![]), &[]), vec![Effect::Enqueue(Outbound::Pong(vec![]))]);
    assert_eq!(on_frame(Frame::Pong(vec![]), &[]), vec![]);
    assert_eq!(
        on_frame(Frame::Text("[]".to_string()), &[]),
        vec![Effect::Discard(DecodeError::Malformed)]
    );
}

#[test]
fn codes_and_states_correspond() {
    for (state, code) in [
        (ConnectionState::Connecting, 0),
        (ConnectionState::Online, 1),
        (ConnectionState::Closed, 2),
        (ConnectionState::Error, 3),
    ] {
        assert_eq!(state.code(), code);
        assert_eq!(ConnectionState::from_code(code), Some(state));
    }
    assert_eq!(ConnectionState::from_code(4), None);
    assert_eq!(ConnectionState::from_code(usize::MAX), None);
}

#[test]
fn cell_is_shared_between_its_handles() {
    let cell = ConnectionStateRes::new(ConnectionState::Connecting);
    let reader = cell.clone();
    assert_eq!(reader.load(Ordering::Relaxed), ConnectionState::Connecting);
    cell.store(ConnectionState::Online, Ordering::Release);
    assert_eq!(reader.load(Ordering::Acquire), ConnectionState::Online);
    cell.store(ConnectionState::Closed, Ordering::SeqCst);
    assert_eq!(reader.load(Ordering::SeqCst), ConnectionState::Closed);
    cell.store(ConnectionState::Error, Ordering::Relaxed);
    assert_eq!(reader.load(Ordering::Relaxed), ConnectionState::Error);
}

#[test]
fn next_wait_is_twice_the_last_or_the_ceiling() {
    let policy = BackoffPolicy::new(1, 4096).unwrap();
    assert_eq!(policy.after(1), 2);
    assert_eq!(policy.after(1024), 2048);
    assert_eq!(policy.after(2048), 4096);
    assert_eq!(policy.after(2049), 4096);
    assert_eq!(policy.after(4096), 4096);
    let odd = BackoffPolicy::new(1, 7).unwrap();
    assert_eq!(odd.after(3), 6);
    assert_eq!(odd.after(4), 7);
}

#[test]
fn each_state_says_what_to_do_next() {
    let mut m = manager();
    assert_eq!(m.awaited(), Awaited::Handshake);
    m.step(Event::HandshakeFailed);
    assert_eq!(m.awaited(), Awaited::Retry);
    m.step(Event::RetryDue);
    assert_eq!(m.awaited(), Awaited::Handshake);
    m.step(Event::HandshakeSucceeded);
    assert_eq!(m.awaited(), Awaited::Frame);
    m.step(Event::Received(Frame::Pong(vec![])));
    assert_eq!(m.awaited(), Awaited::Frame);
    m.step(Event::StreamEnded);
    assert_eq!(m.awaited(), Awaited::Retry);
}

#[test]
fn numbers_read_from_the_cell_stand_for_states() {
    assert_eq!(ConnectionState::from_cell(0), ConnectionState::Connecting);
    assert_eq!(ConnectionState::from_cell(1), ConnectionState::Online);
    assert_eq!(ConnectionState::from_cell(2), ConnectionState::Closed);
    assert_eq!(ConnectionState::from_cell(3), ConnectionState::Error);
    assert_eq!(ConnectionState::from_cell(4), ConnectionState::Error);
    assert_eq!(ConnectionState::from_cell(usize::MAX), ConnectionState::Error);
    for state in [
        ConnectionState::Connecting,
        ConnectionState::Online,
        ConnectionState::Closed,
        ConnectionState::Error,
    ] {
        assert_eq!(ConnectionState::from_cell(state.code()), state);
    }
}

#[test]
fn a_new_cell_holds_the_state_it_was_made_with() {
    for state in [
        ConnectionState::Connecting,
        ConnectionState::Online,
        ConnectionState::Closed,
        ConnectionState::Error,
    ] {
        let cell = ConnectionStateRes::new(state);
        assert_eq!(cell.load(Ordering::Acquire), state);
        assert_eq!(cell.load(Ordering::Relaxed), state);
        assert_eq!(cell.load(Ordering::SeqCst), state);
    }
}

#[test]
fn closed_bridge_ends_the_task_of_a_connection_that_is_online() {
    let mut m = online();
    assert_eq!(
        m.step(Event::BridgeClosed),
        vec![Effect::SetState(ConnectionState::Closed), Effect::AbortSender, Effect::Stop]
    );
    assert_eq!(m.state(), ConnectionState::Closed);
}

#[test]
fn closed_bridge_ends_the_task_in_every_other_state_too() {
    let mut m = manager();
    assert_eq!(m.step(Event::BridgeClosed), vec![Effect::Stop]);
    assert_eq!(m.state(), ConnectionState::Connecting);
    m.step(Event::HandshakeFailed);
    assert_eq!(m.step(Event::BridgeClosed), vec![Effect::Stop]);
    assert_eq!(m.state(), ConnectionState::Error);
    assert_eq!(m.delay_ms(), 2);
    let mut m = online();
    m.step(Event::StreamEnded);
    assert_eq!(m.step(Event::BridgeClosed), vec![Effect::Stop]);
    assert_eq!(m.state(), ConnectionState::Closed);
}

#[test]
fn nothing_but_a_closed_bridge_ends_the_task() {
    let mut m = manager();
    let events = [
        Event::HandshakeFailed,
        Event::RetryDue,
        Event::HandshakeSucceeded,
        Event::Received(Frame::Ping(vec![])),
        Event::Received(Frame::Text("{".to_string())),
        Event::Received(Frame::Text(SNAPSHOT.to_string())),
        Event::Received(Frame::Close),
        Event::ReadFailed,
        Event::RetryDue,
        Event::HandshakeSucceeded,
        Event::StreamEnded,
    ];
    for event in events {
        assert!(!m.step(event).contains(&Effect::Stop));
    }
}
