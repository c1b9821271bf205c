//! What holds of the library as a whole, stated over the functions that its
//! contracts speak of.

use vstd::prelude::*;
use crate::connection::{awaited_in, frame_effects, Awaited, EffectView, EventView, ManagerView};
use crate::decode::decoded;
use crate::events::{NewTerrainView, NoticeView};
use crate::encode::{axial_doc, subscribe_doc, unsubscribe_doc};
use crate::error::DecodeError;
use crate::frames::{FrameView, OutboundView};
use crate::handler::handled;
use crate::json::{object_of, Json};
use crate::model::{AxialPos, BotView, EntitiesView, MessageView, TerrainTy};
use crate::rooms::{
    followed, has_neighbours, lemma_followed_distinct, lemma_only_in,
    lemma_only_in_keeps_distinct, magnitude, only_in, within_range, CurrentRoom,
};
use crate::schema::{axial_of, bot_of, entities_of};
use crate::state::ConnectionState;
use crate::terrain_model::{
    first_unknown_code, lemma_known_prefix, reconstruction, terrain_of_code, tiles_of,
};

verus! {

/// A payload as long as the layout, of known codes only, gives one tile for
/// each position of the layout, in the layout's order, and each tile has the
/// terrain of its code: 0 empty, 1 plain, 2 wall, 3 bridge.
pub proof fn law_tiles_follow_layout(codes: Seq<i64>, layout: Seq<AxialPos>)
    requires
        codes.len() == layout.len(),
        forall|i: int| 0 <= i < codes.len() ==> 0 <= #[trigger] codes[i] <= 3,
    ensures
        reconstruction(codes, layout) is Ok,
        reconstruction(codes, layout).unwrap().len() == layout.len(),
        forall|i: int|
            0 <= i < layout.len() ==> {
                let tile = #[trigger] reconstruction(codes, layout).unwrap()[i];
                &&& tile.0 == layout[i]
                &&& codes[i] == 0 ==> tile.1 == TerrainTy::Empty
                &&& codes[i] == 1 ==> tile.1 == TerrainTy::Plain
                &&& codes[i] == 2 ==> tile.1 == TerrainTy::Wall
                &&& codes[i] == 3 ==> tile.1 == TerrainTy::Bridge
            },
{
    assert forall|j: int| 0 <= j < codes.len() implies (#[trigger] terrain_of_code(
        codes[j],
    )) is Some by {
        assert(0 <= codes[j] <= 3);
    }
    lemma_known_prefix(codes, codes.len() as int);
    assert(codes.take(codes.len() as int) =~= codes);
}

/// Whatever the codes are, tiles that do come out are as many as the layout
/// has positions and follow its order.
pub proof fn law_tiles_never_truncated(codes: Seq<i64>, layout: Seq<AxialPos>)
    requires
        reconstruction(codes, layout) is Ok,
    ensures
        codes.len() == layout.len(),
        reconstruction(codes, layout).unwrap().len() == layout.len(),
        forall|i: int|
            0 <= i < layout.len() ==> (#[trigger] reconstruction(codes, layout).unwrap()[i]).0
                == layout[i],
{
}

/// A payload that is not as long as the layout is turned away, whatever its
/// codes are.
pub proof fn law_length_mismatch_is_an_error(codes: Seq<i64>, layout: Seq<AxialPos>)
    requires
        codes.len() != layout.len(),
    ensures
        reconstruction(codes, layout) == Err::<Seq<(AxialPos, TerrainTy)>, _>(
            DecodeError::LayoutMismatch {
                tiles: codes.len() as usize,
                layout: layout.len() as usize,
            },
        ),
{
}

/// A payload as long as the layout that holds a code other than 0, 1, 2 and
/// 3 is turned away with the first such code.
pub proof fn law_unknown_code_is_an_error(codes: Seq<i64>, layout: Seq<AxialPos>, at: int)
    requires
        codes.len() == layout.len(),
        0 <= at < codes.len(),
        !(0 <= codes[at] <= 3),
        forall|i: int| 0 <= i < at ==> 0 <= #[trigger] codes[i] <= 3,
    ensures
        reconstruction(codes, layout) == Err::<Seq<(AxialPos, TerrainTy)>, _>(
            DecodeError::UnknownTerrainCode(codes[at]),
        ),
{
    assert forall|j: int| 0 <= j < at implies (#[trigger] terrain_of_code(codes[j])) is Some by {
        assert(0 <= codes[j] <= 3);
    }
    lemma_known_prefix(codes, at);
}

/// Some code is unknown exactly if reconstruction names an unknown code,
/// and the code it names is none of 0, 1, 2 and 3.
pub proof fn law_unknown_code_is_found(codes: Seq<i64>, layout: Seq<AxialPos>)
    requires
        codes.len() == layout.len(),
    ensures
        (exists|i: int| 0 <= i < codes.len() && !(0 <= #[trigger] codes[i] <= 3)) <==> (exists|
            code: i64,
        |
            reconstruction(codes, layout) == Err::<Seq<(AxialPos, TerrainTy)>, _>(
                DecodeError::UnknownTerrainCode(code),
            )),
        forall|code: i64|
            reconstruction(codes, layout) == Err::<Seq<(AxialPos, TerrainTy)>, _>(
                DecodeError::UnknownTerrainCode(code),
            ) ==> !(0 <= code <= 3) && codes.contains(code),
{
    lemma_first_unknown(codes);
    match first_unknown_code(codes) {
        Some(code) => {
            let i = choose|i: int| 0 <= i < codes.len() && codes[i] == code;
            assert(!(0 <= codes[i] <= 3));
        },
        None => {},
    }
}

/// The first unknown code is a code of the sequence that is none of 0, 1, 2
/// and 3, and there is one whenever the sequence has such a code.
proof fn lemma_first_unknown(codes: Seq<i64>)
    ensures
        match first_unknown_code(codes) {
            Some(code) => !(0 <= code <= 3) && exists|i: int|
                0 <= i < codes.len() && #[trigger] codes[i] == code,
            None => forall|i: int| 0 <= i < codes.len() ==> 0 <= #[trigger] codes[i] <= 3,
        },
    decreases codes.len(),
{
    if codes.len() == 0 {
    } else if terrain_of_code(codes[0]) is None {
        assert(codes[0] == codes[0]);
    } else {
        let rest = codes.drop_first();
        lemma_first_unknown(rest);
        match first_unknown_code(rest) {
            Some(code) => {
                let i = choose|i: int| 0 <= i < rest.len() && rest[i] == code;
                assert(codes[i + 1] == code);
            },
            None => {
                assert forall|i: int| 0 <= i < codes.len() implies 0 <= #[trigger] codes[i]
                    <= 3 by {
                    if i > 0 {
                        assert(rest[i - 1] == codes[i]);
                    }
                }
            },
        }
    }
}

/// The state of the connection changes only along the arrows of its
/// diagram: connecting to online or error, online to closed, closed and
/// error to connecting.
pub proof fn law_transitions_are_legal(pre: ManagerView, event: EventView)
    ensures
        pre.next(event).0.state == pre.state || pre.state.may_become(pre.next(event).0.state),
{
}

/// Every change of state is announced, once and in its place: a step that
/// changes the state asks to store the new state, and no step asks to store
/// any other state.
pub proof fn law_state_changes_are_announced(pre: ManagerView, event: EventView)
    ensures
        ({
            let (post, effects) = pre.next(event);
            &&& post.state != pre.state ==> exists|i: int|
                0 <= i < effects.len() && #[trigger] effects[i] == EffectView::SetState(post.state)
            &&& forall|i: int|
                0 <= i < effects.len() && (#[trigger] effects[i]) is SetState ==> effects[i]
                    == EffectView::SetState(post.state) && post.state != pre.state
        }),
{
    let (post, effects) = pre.next(event);
    if post.state != pre.state {
        match (pre.state, event) {
            (ConnectionState::Connecting, EventView::HandshakeSucceeded) => {
                assert(effects[2] == EffectView::SetState(post.state));
            },
            _ => {
                assert(effects[0] == EffectView::SetState(post.state));
            },
        }
    }
}

/// The manager stays well formed, and keeps its policy and its layout.
pub proof fn law_manager_stays_well_formed(pre: ManagerView, event: EventView)
    requires
        pre.wf(),
    ensures
        pre.next(event).0.wf(),
        pre.next(event).0.policy == pre.policy,
        pre.next(event).0.layout == pre.layout,
{
}

/// Every wait that the manager asks for lies between the first and the
/// longest wait of its policy, and it asks for one exactly when an attempt
/// to connect has failed.
pub proof fn law_waits_within_policy(pre: ManagerView, event: EventView)
    requires
        pre.wf(),
    ensures
        forall|i: int|
            0 <= i < pre.next(event).1.len() && (#[trigger] pre.next(event).1[i]) is Sleep ==> {
                &&& pre.policy.initial_ms <= pre.next(event).1[i]->ms <= pre.policy.ceiling_ms
                &&& pre.state == ConnectionState::Connecting
                &&& event == EventView::HandshakeFailed
            },
{
    assert forall|i: int|
        0 <= i < pre.next(event).1.len() && (#[trigger] pre.next(event).1[i]) is Sleep implies {
        &&& pre.policy.initial_ms <= pre.next(event).1[i]->ms <= pre.policy.ceiling_ms
        &&& pre.state == ConnectionState::Connecting
        &&& event == EventView::HandshakeFailed
    } by {
        lemma_only_failures_sleep(pre, event, i);
    }
}

/// A wait is asked for only after a failure to connect.
proof fn lemma_only_failures_sleep(pre: ManagerView, event: EventView, i: int)
    requires
        0 <= i < pre.next(event).1.len(),
        pre.next(event).1[i] is Sleep,
    ensures
        pre.state == ConnectionState::Connecting,
        event == EventView::HandshakeFailed,
{
}

/// A success resets the backoff: the first wait after a handshake that
/// succeeded is the first wait of the policy.
pub proof fn law_success_resets_backoff(pre: ManagerView)
    requires
        pre.state == ConnectionState::Connecting,
    ensures
        pre.next(EventView::HandshakeSucceeded).0.delay_ms == pre.policy.initial_ms,
{
}

/// Waits double until they reach the longest wait, and never grow shorter
/// from one failure to the next.
pub proof fn law_backoff_doubles_up_to_ceiling(pre: ManagerView)
    requires
        pre.wf(),
        pre.state == ConnectionState::Connecting,
    ensures
        ({
            let post = pre.next(EventView::HandshakeFailed).0;
            &&& 2 * pre.delay_ms <= pre.policy.ceiling_ms ==> post.delay_ms == 2 * pre.delay_ms
            &&& 2 * pre.delay_ms > pre.policy.ceiling_ms ==> post.delay_ms == pre.policy.ceiling_ms
            &&& post.delay_ms >= pre.delay_ms
        }),
{
}

/// A ping is answered with exactly one pong on the sender's queue, and with
/// nothing else: no notice goes out, and the connection stays online.
pub proof fn law_ping_is_answered_once(pre: ManagerView, payload: Seq<u8>)
    requires
        pre.state == ConnectionState::Online,
    ensures
        pre.next(EventView::Received(FrameView::Ping(payload))) == (
            pre,
            seq![EffectView::Enqueue(OutboundView::Pong(Seq::empty()))],
        ),
{
}

/// A message that cannot be read costs that message only: the connection
/// stays online, nothing goes out, and the reason is handed on.
pub proof fn law_bad_message_keeps_connection(pre: ManagerView, text: Seq<char>)
    requires
        pre.state == ConnectionState::Online,
        handled(text, pre.layout) is Err,
    ensures
        pre.next(EventView::Received(FrameView::Text(text))) == (
            pre,
            seq![EffectView::Discard(handled(text, pre.layout)->Err_0)],
        ),
{
}

/// A frame gives at most one effect, and that effect is a notice, a pong
/// or a reason for turning the frame away.
pub proof fn law_frames_give_at_most_one_effect(frame: FrameView, layout: Seq<AxialPos>)
    ensures
        frame_effects(frame, layout).len() <= 1,
        forall|i: int|
            0 <= i < frame_effects(frame, layout).len() ==> {
                let effect = #[trigger] frame_effects(frame, layout)[i];
                effect is Publish || effect is Enqueue || effect is Discard
            },
{
}

/// A coordinate that was written reads back as itself.
pub proof fn law_coordinate_round_trip(pos: AxialPos)
    ensures
        axial_of(axial_doc(pos)) == Some(pos),
{
    reveal_strlit("q");
    reveal_strlit("r");
    assert("q"@ != "r"@) by {
        assert("q"@[0] == 'q');
        assert("r"@[0] == 'r');
    }
    let entries = seq![("q"@, Json::Int(pos.q as int)), ("r"@, Json::Int(pos.r as int))];
    lemma_two_members(entries);
}

/// A subscribe command names its kind and carries the room: reading the
/// member `room_id` of its document gives the room back, whatever the room.
/// The same holds of an unsubscribe command.
pub proof fn law_subscribe_round_trip(room: AxialPos)
    ensures
        subscribe_doc(room).member("ty"@) == Some(Json::Text("room_id"@)),
        subscribe_doc(room).member("room_id"@) is Some,
        axial_of(subscribe_doc(room).member("room_id"@).unwrap()) == Some(room),
        unsubscribe_doc(room).member("ty"@) == Some(Json::Text("unsubscribe_room_id"@)),
        unsubscribe_doc(room).member("room_id"@) is Some,
        axial_of(unsubscribe_doc(room).member("room_id"@).unwrap()) == Some(room),
{
    reveal_strlit("ty");
    reveal_strlit("room_id");
    assert("ty"@.len() != "room_id"@.len());
    law_coordinate_round_trip(room);
    lemma_two_members(seq![("ty"@, Json::Text("room_id"@)), ("room_id"@, axial_doc(room))]);
    lemma_two_members(
        seq![("ty"@, Json::Text("unsubscribe_room_id"@)), ("room_id"@, axial_doc(room))],
    );
}

/// An object of two members with different keys holds each under its key.
proof fn lemma_two_members(entries: Seq<(Seq<char>, Json)>)
    requires
        entries.len() == 2,
        entries[0].0 != entries[1].0,
    ensures
        Json::Object(object_of(entries)).member(entries[0].0) == Some(entries[0].1),
        Json::Object(object_of(entries)).member(entries[1].0) == Some(entries[1].1),
{
    reveal_with_fuel(object_of, 3);
    assert(entries.drop_last().len() == 1);
    assert(entries.drop_last().drop_last().len() == 0);
    assert(entries.drop_last().last() == entries[0]);
    assert(entries.last() == entries[1]);
}

/// When the client turns to another room, a room is subscribed to exactly
/// if it is followed afterwards and was not before, and unsubscribed from
/// exactly if it was followed before and is not afterwards.
pub proof fn law_room_change_is_the_difference(current: AxialPos, next: AxialPos, room: AxialPos)
    ensures
        only_in(followed(next), followed(current)).contains(room) <==> followed(next).contains(room)
            && !followed(current).contains(room),
        only_in(followed(current), followed(next)).contains(room) <==> followed(current).contains(
            room,
        ) && !followed(next).contains(room),
{
    lemma_only_in(followed(next), followed(current), room);
    lemma_only_in(followed(current), followed(next), room);
}

/// Turning to the room that the client already looks at changes no
/// subscription.
pub proof fn law_same_room_changes_nothing(room: AxialPos)
    ensures
        only_in(followed(room), followed(room)).len() == 0,
{
    let kept = only_in(followed(room), followed(room));
    if kept.len() > 0 {
        lemma_only_in(followed(room), followed(room), kept[0]);
        assert(kept.contains(kept[0]));
    }
}

/// A failure to connect that is followed by a success: the states announced
/// are error, connecting and online, in this order; the one wait in between
/// is the first wait of the policy, and so shorter than the longest wherever
/// the policy knows two different waits; and the manager ends online with
/// the sender started before anyone was told.
pub proof fn law_failure_then_success(start: ManagerView)
    requires
        start.wf(),
        start.state == ConnectionState::Connecting,
        start.delay_ms == start.policy.initial_ms,
    ensures
        ({
            let (failed, first) = start.next(EventView::HandshakeFailed);
            let (retrying, second) = failed.next(EventView::RetryDue);
            let (online, third) = retrying.next(EventView::HandshakeSucceeded);
            &&& first == seq![
                EffectView::SetState(ConnectionState::Error),
                EffectView::Sleep { ms: start.policy.initial_ms },
            ]
            &&& second == seq![EffectView::SetState(ConnectionState::Connecting)]
            &&& third == seq![
                EffectView::SpawnSender,
                EffectView::YieldOnce,
                EffectView::SetState(ConnectionState::Online),
                EffectView::Publish(NoticeView::Connected),
            ]
            &&& online.state == ConnectionState::Online
            &&& online.delay_ms == start.policy.initial_ms
            &&& first[1]->ms >= start.policy.initial_ms
            &&& start.policy.initial_ms < start.policy.ceiling_ms ==> first[1]->ms
                < start.policy.ceiling_ms
        }),
{
}

/// A text frame that holds a snapshot gives exactly one notice, which
/// carries the snapshot as it was read, and nothing else.
pub proof fn law_snapshot_is_published_once(
    pre: ManagerView,
    text: Seq<char>,
    snapshot: EntitiesView,
)
    requires
        pre.state == ConnectionState::Online,
        decoded(text) == Ok::<_, DecodeError>(MessageView::Entities(snapshot)),
    ensures
        pre.next(EventView::Received(FrameView::Text(text))) == (
            pre,
            seq![EffectView::Publish(NoticeView::NewEntities(snapshot))],
        ),
{
}

/// A text frame that holds a terrain of known codes, as long as the layout,
/// gives exactly one notice, which pairs the layout with the terrain of the
/// codes. A terrain message without terrain gives nothing.
pub proof fn law_terrain_is_published_once(
    pre: ManagerView,
    text: Seq<char>,
    room_id: AxialPos,
    offset: AxialPos,
    tiles: Seq<i64>,
)
    requires
        pre.state == ConnectionState::Online,
        tiles.len() == pre.layout.len(),
        forall|i: int| 0 <= i < tiles.len() ==> 0 <= #[trigger] tiles[i] <= 3,
        decoded(text) == Ok::<_, DecodeError>(
            MessageView::Terrain(
                Some(crate::model::TerrainPayloadView { room_id, offset, tiles }),
            ),
        ),
    ensures
        pre.next(EventView::Received(FrameView::Text(text))) == (
            pre,
            seq![
                EffectView::Publish(
                    NoticeView::NewTerrain(
                        NewTerrainView { room_id, offset, terrain: tiles_of(tiles, pre.layout) },
                    ),
                ),
            ],
        ),
{
    law_tiles_follow_layout(tiles, pre.layout);
}

/// The server leaves out what is zero or empty: an object without members
/// reads as the snapshot of time zero without entities, and as the bot of
/// which nothing is known.
pub proof fn law_missing_members_read_as_defaults()
    ensures
        entities_of(Json::Object(Map::empty())) == Some(EntitiesView::blank()),
        bot_of(Json::Object(Map::empty())) == Some(BotView::blank()),
{
}

/// The notice of a handshake goes out once for each handshake that
/// succeeded, and at no other time.
pub proof fn law_connected_once_per_handshake(pre: ManagerView, event: EventView)
    ensures
        ({
            let effects = pre.next(event).1;
            let handshake = pre.state == ConnectionState::Connecting && event
                == EventView::HandshakeSucceeded;
            &&& handshake ==> effects[3] == EffectView::Publish(NoticeView::Connected)
            &&& forall|i: int|
                0 <= i < effects.len() && #[trigger] effects[i] == EffectView::Publish(
                    NoticeView::Connected,
                ) ==> handshake && i == 3
        }),
{
    let effects = pre.next(event).1;
    assert forall|i: int|
        0 <= i < effects.len() && #[trigger] effects[i] == EffectView::Publish(
            NoticeView::Connected,
        ) implies pre.state == ConnectionState::Connecting && event
        == EventView::HandshakeSucceeded && i == 3 by {
        match (pre.state, event) {
            (ConnectionState::Online, EventView::Received(frame)) => {
                lemma_frames_publish_what_arrived(frame, pre.layout, i);
            },
            _ => {},
        }
    }
}

/// What a frame makes known is a snapshot or a terrain, never a handshake.
proof fn lemma_frames_publish_what_arrived(frame: FrameView, layout: Seq<AxialPos>, i: int)
    requires
        0 <= i < frame_effects(frame, layout).len(),
    ensures
        frame_effects(frame, layout)[i] != EffectView::Publish(NoticeView::Connected),
{
}

/// A caller that does what is awaited never reports an event that the
/// manager passes over: every event that can follow what is awaited in a
/// state is one that the state waits for, and each of them but a frame
/// changes the state.
pub proof fn law_awaited_events_are_taken(pre: ManagerView, event: EventView)
    requires
        match awaited_in(pre.state) {
            Awaited::Handshake => event is HandshakeFailed || event is HandshakeSucceeded,
            Awaited::Frame => event is Received || event is ReadFailed || event is StreamEnded,
            Awaited::Retry => event is RetryDue,
        },
    ensures
        event is Received ==> pre.next(event).0 == pre,
        !(event is Received) ==> pre.state.may_become(pre.next(event).0.state),
{
}

/// The number under which a state is stored reads back as that state, so
/// that whoever reads the shared cell sees the state that was stored last.
pub proof fn law_stored_code_reads_back(state: ConnectionState)
    ensures
        ConnectionState::spec_from_cell(state.spec_code()) == state,
        ConnectionState::spec_from_code(state.spec_code()) == Some(state),
{
}

/// Whether a room is visible from another does not depend on which of the
/// two the client looks at: within a range, each is as far from the other.
pub proof fn law_visibility_is_symmetric(a: AxialPos, b: AxialPos, range: int)
    ensures
        within_range(a, b, range) == within_range(b, a, range),
{
}

/// Up to `i32::MAX` the range is read as it stands, and a room is visible
/// exactly if neither coordinate nor their sum differs by more. Above that
/// the range reads as a negative number, and no room is visible, not even
/// the one that the client looks at.
pub proof fn law_range_is_read_as_signed(current: CurrentRoom, room: AxialPos)
    ensures
        current.visible_range <= i32::MAX ==> within_range(current.room_id, room, current.range())
            == {
            let dq = current.room_id.q - room.q;
            let dr = current.room_id.r - room.r;
            magnitude(dq) <= current.visible_range && magnitude(dr) <= current.visible_range
                && magnitude(dq + dr) <= current.visible_range
        },
        current.visible_range > i32::MAX ==> current.range() < 0 && !within_range(
            current.room_id,
            room,
            current.range(),
        ),
        within_range(current.room_id, current.room_id, current.range()) == (current.visible_range
            <= i32::MAX),
{
}

/// The task ends exactly when the bridge is closed, whatever the state: the
/// last thing asked for is then to stop, and nothing else ever asks for it.
/// A connection that is online is closed and its sender stopped before.
pub proof fn law_closed_bridge_ends_the_task(pre: ManagerView, event: EventView)
    ensures
        ({
            let (post, effects) = pre.next(event);
            &&& event is BridgeClosed ==> effects.len() > 0 && effects.last() == EffectView::Stop
            &&& event is BridgeClosed && pre.state == ConnectionState::Online ==> effects == seq![
                EffectView::SetState(ConnectionState::Closed),
                EffectView::AbortSender,
                EffectView::Stop,
            ] && post.state == ConnectionState::Closed
            &&& event is BridgeClosed && pre.state != ConnectionState::Online ==> effects
                == seq![EffectView::Stop] && post == pre
            &&& forall|i: int|
                0 <= i < effects.len() && (#[trigger] effects[i]) is Stop ==> event is BridgeClosed
                    && i == effects.len() - 1
        }),
{
    let effects = pre.next(event).1;
    assert forall|i: int| 0 <= i < effects.len() && (#[trigger] effects[i]) is Stop implies event
        is BridgeClosed && i == effects.len() - 1 by {
        match (pre.state, event) {
            (ConnectionState::Online, EventView::Received(frame)) => {
                law_frames_give_at_most_one_effect(frame, pre.layout);
            },
            _ => {},
        }
    }
}

/// The two lists of a room change are sets: no room occurs twice in either,
/// and no room is in both.
pub proof fn law_room_change_lists_are_sets(current: AxialPos, next: AxialPos)
    requires
        has_neighbours(current),
        has_neighbours(next),
    ensures
        only_in(followed(next), followed(current)).no_duplicates(),
        only_in(followed(current), followed(next)).no_duplicates(),
        forall|room: AxialPos|
            !(#[trigger] only_in(followed(next), followed(current)).contains(room) && only_in(
                followed(current),
                followed(next),
            ).contains(room)),
{
    lemma_followed_distinct(current);
    lemma_followed_distinct(next);
    lemma_only_in_keeps_distinct(followed(next), followed(current));
    lemma_only_in_keeps_distinct(followed(current), followed(next));
    assert forall|room: AxialPos|
        !(#[trigger] only_in(followed(next), followed(current)).contains(room) && only_in(
            followed(current),
            followed(next),
        ).contains(room)) by {
        lemma_only_in(followed(next), followed(current), room);
        lemma_only_in(followed(current), followed(next), room);
    }
}

} // verus!
