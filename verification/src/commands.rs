//! The commands of the client as messages for the socket. Each is written
//! as JSON and framed as binary; the caller puts it on the sender's queue.

use vstd::prelude::*;
use crate::encode::{
    encode_subscribe, encode_subscribe_many, encode_unsubscribe, encode_unsubscribe_all,
    subscribe_doc, subscribe_many_doc, unsubscribe_all_doc, unsubscribe_doc,
};
use crate::frames::{Outbound, OutboundView};
use crate::json::{json_encoding, Json};
use crate::model::AxialPos;

verus! {

/// The binary message that carries a document.
pub open spec fn command_of(doc: Json) -> OutboundView {
    OutboundView::Binary(json_encoding(doc))
}

/// The message that subscribes to the updates of one room.
pub fn subscribe_room(room: AxialPos) -> (out: Outbound)
    ensures
        out@ == command_of(subscribe_doc(room)),
{
    Outbound::Binary(encode_subscribe(room))
}

/// The message that subscribes to the updates of several rooms at once.
pub fn subscribe_rooms(rooms: &[AxialPos]) -> (out: Outbound)
    ensures
        out@ == command_of(subscribe_many_doc(rooms@)),
{
    Outbound::Binary(encode_subscribe_many(rooms))
}

/// The message that ends the subscription to one room.
pub fn unsubscribe_room(room: AxialPos) -> (out: Outbound)
    ensures
        out@ == command_of(unsubscribe_doc(room)),
{
    Outbound::Binary(encode_unsubscribe(room))
}

/// The message that ends every subscription. It is the same message
/// whatever was subscribed to before.
pub fn unsubscribe_all() -> (out: Outbound)
    ensures
        out@ == command_of(unsubscribe_all_doc()),
{
    Outbound::Binary(encode_unsubscribe_all())
}

} // verus!
