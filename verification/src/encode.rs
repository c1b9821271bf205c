//! Writing the commands that the client sends: each is a small tagged JSON
//! object, written without regard to what was sent before.

use vstd::prelude::*;
use crate::json::{
    distinct_keys, entry_views, json_encoding, json_view, json_views, object_of, value_bytes,
    value_of_entries, value_of_int, value_of_list, value_of_text, Json,
};
use crate::model::AxialPos;

verus! {

/// A coordinate on the wire: `{"q": .., "r": ..}`.
pub open spec fn axial_doc(pos: AxialPos) -> Json {
    Json::Object(object_of(seq![("q"@, Json::Int(pos.q as int)), ("r"@, Json::Int(pos.r as int))]))
}

/// The coordinates of a sequence of rooms, in their order.
pub open spec fn axial_docs(rooms: Seq<AxialPos>) -> Seq<Json> {
    Seq::new(rooms.len(), |i: int| axial_doc(rooms[i]))
}

/// `{"ty": "room_id", "room_id": room}`: follow one more room.
pub open spec fn subscribe_doc(room: AxialPos) -> Json {
    Json::Object(
        object_of(seq![("ty"@, Json::Text("room_id"@)), ("room_id"@, axial_doc(room))]),
    )
}

/// `{"ty": "room_ids", "room_ids": [room, ..]}`: follow several more rooms.
pub open spec fn subscribe_many_doc(rooms: Seq<AxialPos>) -> Json {
    Json::Object(
        object_of(
            seq![("ty"@, Json::Text("room_ids"@)), ("room_ids"@, Json::List(axial_docs(rooms)))],
        ),
    )
}

/// `{"ty": "unsubscribe_room_id", "room_id": room}`: follow one room no longer.
pub open spec fn unsubscribe_doc(room: AxialPos) -> Json {
    Json::Object(
        object_of(
            seq![("ty"@, Json::Text("unsubscribe_room_id"@)), ("room_id"@, axial_doc(room))],
        ),
    )
}

/// `{"ty": "clear_room_ids"}`: follow no room any longer.
pub open spec fn unsubscribe_all_doc() -> Json {
    Json::Object(object_of(seq![("ty"@, Json::Text("clear_room_ids"@))]))
}

fn axial_value(pos: AxialPos) -> (v: serde_json::Value)
    ensures
        json_view(v) == axial_doc(pos),
{
    let mut entries: Vec<(&str, serde_json::Value)> = Vec::new();
    entries.push(("q", value_of_int(pos.q as i64)));
    entries.push(("r", value_of_int(pos.r as i64)));
    proof {
        reveal_strlit("q");
        reveal_strlit("r");
        assert("q"@ != "r"@) by {
            assert("q"@[0] == 'q');
            assert("r"@[0] == 'r');
        }
        assert(entry_views(entries@) =~= seq![
            ("q"@, Json::Int(pos.q as int)),
            ("r"@, Json::Int(pos.r as int)),
        ]);
    }
    value_of_entries(entries)
}

fn axial_values(rooms: &[AxialPos]) -> (items: Vec<serde_json::Value>)
    ensures
        json_views(items@) == axial_docs(rooms@),
{
    let mut items: Vec<serde_json::Value> = Vec::new();
    let mut i: usize = 0;
    while i < rooms.len()
        invariant
            0 <= i <= rooms.len(),
            items@.len() == i,
            forall|k: int| 0 <= k < i ==> json_view(#[trigger] items@[k]) == axial_doc(rooms@[k]),
        decreases rooms.len() - i,
    {
        items.push(axial_value(rooms[i]));
        i += 1;
    }
    assert(json_views(items@) =~= axial_docs(rooms@));
    items
}

/// The value of a command that names its kind and carries one member.
fn tagged_value(tag: &str, key: &str, body: serde_json::Value) -> (v: serde_json::Value)
    requires
        key@ != "ty"@,
    ensures
        json_view(v) == Json::Object(
            object_of(seq![("ty"@, Json::Text(tag@)), (key@, json_view(body))]),
        ),
{
    let ghost doc = json_view(body);
    let mut entries: Vec<(&str, serde_json::Value)> = Vec::new();
    entries.push(("ty", value_of_text(tag)));
    entries.push((key, body));
    proof {
        assert(entry_views(entries@) =~= seq![("ty"@, Json::Text(tag@)), (key@, doc)]);
    }
    value_of_entries(entries)
}

/// The command that subscribes to the updates of one room.
pub fn encode_subscribe(room: AxialPos) -> (bytes: Vec<u8>)
    ensures
        bytes@ == json_encoding(subscribe_doc(room)),
{
    proof {
        lemma_member_names();
    }
    let v = tagged_value("room_id", "room_id", axial_value(room));
    value_bytes(&v)
}

/// The command that subscribes to the updates of several rooms at once.
pub fn encode_subscribe_many(rooms: &[AxialPos]) -> (bytes: Vec<u8>)
    ensures
        bytes@ == json_encoding(subscribe_many_doc(rooms@)),
{
    proof {
        lemma_member_names();
    }
    let v = tagged_value("room_ids", "room_ids", value_of_list(axial_values(rooms)));
    value_bytes(&v)
}

/// The command that ends the subscription to one room.
pub fn encode_unsubscribe(room: AxialPos) -> (bytes: Vec<u8>)
    ensures
        bytes@ == json_encoding(unsubscribe_doc(room)),
{
    proof {
        lemma_member_names();
    }
    let v = tagged_value("unsubscribe_room_id", "room_id", axial_value(room));
    value_bytes(&v)
}

/// The command that ends every subscription. It names no room and takes no
/// argument, so it is the same bytes whenever it is sent.
pub fn encode_unsubscribe_all() -> (bytes: Vec<u8>)
    ensures
        bytes@ == json_encoding(unsubscribe_all_doc()),
{
    let mut entries: Vec<(&str, serde_json::Value)> = Vec::new();
    entries.push(("ty", value_of_text("clear_room_ids")));
    proof {
        assert(entry_views(entries@) =~= seq![("ty"@, Json::Text("clear_room_ids"@))]);
    }
    let v = value_of_entries(entries);
    value_bytes(&v)
}

/// The members that carry rooms are not called `ty`.
proof fn lemma_member_names()
    ensures
        "room_id"@ != "ty"@,
        "room_ids"@ != "ty"@,
{
    reveal_strlit("ty");
    reveal_strlit("room_id");
    reveal_strlit("room_ids");
    assert("ty"@.len() == 2);
    assert("room_id"@.len() == 7);
    assert("room_ids"@.len() == 8);
}

} // verus!
