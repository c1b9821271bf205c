use cao_sim_client::commands::{subscribe_room, subscribe_rooms, unsubscribe_all, unsubscribe_room};
use cao_sim_client::frames::Outbound;
use cao_sim_client::model::AxialPos;

fn binary(text: &str) -> Outbound {
    Outbound::Binary(text.as_bytes().to_vec())
}

#[test]
fn commands_are_framed_as_binary() {
    let room = AxialPos { q: 5, r: -3 };
    assert_eq!(subscribe_room(room), binary("{\"room_id\":{\"q\":5,\"r\":-3},\"ty\":\"room_id\"}"));
    assert_eq!(
        unsubscribe_room(room),
        binary("{\"room_id\":{\"q\":5,\"r\":-3},\"ty\":\"unsubscribe_room_id\"}")
    );
    assert_eq!(
        subscribe_rooms(&[room, AxialPos { q: 0, r: 1 }]),
        binary("{\"room_ids\":[{\"q\":5,\"r\":-3},{\"q\":0,\"r\":1}],\"ty\":\"room_ids\"}")
    );
    assert_eq!(unsubscribe_all(), binary("{\"ty\":\"clear_room_ids\"}"));
}

#[test]
fn unsubscribe_all_does_not_depend_on_what_was_subscribed() {
    let with_none = unsubscribe_all();
    let _ = subscribe_room(AxialPos { q: 1, r: 2 });
    let _ = subscribe_rooms(&[AxialPos { q: 3, r: 4 }, AxialPos { q: 5, r: 6 }]);
    let with_some = unsubscribe_all();
    assert_eq!(with_none, with_some);
}
