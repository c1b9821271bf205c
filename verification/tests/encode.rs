use cao_sim_client::encode::{
    encode_subscribe, encode_subscribe_many, encode_unsubscribe, encode_unsubscribe_all,
};
use cao_sim_client::model::AxialPos;

fn text(bytes: Vec<u8>) -> String {
    String::from_utf8(bytes).unwrap()
}

#[test]
fn subscribe_is_a_tagged_object() {
    let bytes = encode_subscribe(AxialPos { q: 5, r: -3 });
    assert_eq!(text(bytes), "{\"room_id\":{\"q\":5,\"r\":-3},\"ty\":\"room_id\"}");
}

#[test]
fn subscribe_round_trips_through_a_mirror_decoder() {
    let bytes = encode_subscribe(AxialPos { q: 5, r: -3 });
    let doc: serde_json::Value = serde_json::from_slice(&bytes).unwrap();
    assert_eq!(doc["ty"].as_str(), Some("room_id"));
    assert_eq!(doc["room_id"]["q"].as_i64(), Some(5));
    assert_eq!(doc["room_id"]["r"].as_i64(), Some(-3));
    assert_eq!(doc.as_object().unwrap().len(), 2);
    assert_eq!(doc["room_id"].as_object().unwrap().len(), 2);
}

#[test]
fn subscribe_round_trips_at_the_limits_of_the_coordinates() {
    let room = AxialPos { q: i32::MIN, r: i32::MAX };
    let doc: serde_json::Value = serde_json::from_slice(&encode_subscribe(room)).unwrap();
    assert_eq!(doc["room_id"]["q"].as_i64(), Some(i32::MIN as i64));
    assert_eq!(doc["room_id"]["r"].as_i64(), Some(i32::MAX as i64));
}

#[test]
fn unsubscribe_names_the_room() {
    let bytes = encode_unsubscribe(AxialPos { q: -1, r: 12 });
    assert_eq!(text(bytes), "{\"room_id\":{\"q\":-1,\"r\":12},\"ty\":\"unsubscribe_room_id\"}");
}

#[test]
fn subscribe_many_lists_the_rooms_in_order() {
    let rooms = [AxialPos { q: 1, r: 2 }, AxialPos { q: 0, r: 0 }, AxialPos { q: -4, r: 9 }];
    let bytes = encode_subscribe_many(&rooms);
    assert_eq!(
        text(bytes),
        "{\"room_ids\":[{\"q\":1,\"r\":2},{\"q\":0,\"r\":0},{\"q\":-4,\"r\":9}],\"ty\":\"room_ids\"}"
    );
}

#[test]
fn subscribe_many_of_no_room_is_an_empty_list() {
    assert_eq!(text(encode_subscribe_many(&[])), "{\"room_ids\":[],\"ty\":\"room_ids\"}");
}

#[test]
fn unsubscribe_all_is_always_the_same_message() {
    let before = encode_unsubscribe_all();
    let _ = encode_subscribe(AxialPos { q: 1, r: 1 });
    let _ = encode_subscribe_many(&[AxialPos { q: 2, r: 2 }]);
    let after = encode_unsubscribe_all();
    assert_eq!(before, after);
    assert_eq!(text(after), "{\"ty\":\"clear_room_ids\"}");
}

#[test]
fn commands_differ_by_their_tag() {
    let room = AxialPos { q: 3, r: 4 };
    assert_ne!(encode_subscribe(room), encode_unsubscribe(room));
    assert_ne!(encode_subscribe(room), encode_subscribe_many(&[room]));
}
