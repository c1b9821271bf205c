use cao_sim_client::config::{
    layout_query, object_stream_url, room_layout_url, ChannelCapacities, LAYOUT_RADIUS,
};
use cao_sim_client::model::GetLayoutQuery;

#[test]
fn live_feed_is_found_under_object_stream() {
    assert_eq!(object_stream_url("ws://localhost:8080"), "ws://localhost:8080/object-stream");
    assert_eq!(object_stream_url(""), "/object-stream");
}

#[test]
fn layout_is_found_under_world() {
    assert_eq!(
        room_layout_url("http://localhost:8000/v1"),
        "http://localhost:8000/v1/world/room-terrain-layout"
    );
}

#[test]
fn layout_is_asked_for_with_radius_thirty() {
    assert_eq!(LAYOUT_RADIUS, 30);
    assert_eq!(layout_query(), GetLayoutQuery { radius: 30 });
}

#[test]
fn queues_are_small() {
    assert_eq!(
        ChannelCapacities::default(),
        ChannelCapacities { new_entities: 4, new_terrain: 4, connected: 2, outbound: 64 }
    );
}
