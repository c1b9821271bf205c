use cao_sim_client::error::DecodeError;
use cao_sim_client::events::Notice;
use cao_sim_client::handler::{handle_decoded, handle_message};
use cao_sim_client::model::{AxialPos, EntitiesPayload, Message, TerrainPayload, TerrainTy};

fn pos(q: i32, r: i32) -> AxialPos {
    AxialPos { q, r }
}

#[test]
fn snapshot_becomes_a_notice() {
    let text = "{\"ty\":\"entities\",\"payload\":{\"time\":42,\"roomId\":{\"q\":1,\"r\":1},\"bots\":[],\"structures\":[],\"resources\":[]}}";
    match handle_message(text, &[]) {
        Ok(Some(Notice::NewEntities(e))) => {
            assert_eq!(e.0.time, 42);
            assert_eq!(e.0.room_id, pos(1, 1));
        },
        other => panic!("unexpected: {:?}", other),
    }
}

#[test]
fn terrain_is_reconstructed_over_the_layout() {
    let layout = [pos(0, 0), pos(1, 0), pos(0, 1)];
    let text = "{\"ty\":\"terrain\",\"payload\":{\"roomId\":{\"q\":3,\"r\":4},\"offset\":{\"q\":30,\"r\":40},\"tiles\":[2,1,3]}}";
    match handle_message(text, &layout) {
        Ok(Some(Notice::NewTerrain(t))) => {
            assert_eq!(t.room_id, pos(3, 4));
            assert_eq!(t.offset, pos(30, 40));
            assert_eq!(
                *t.terrain,
                vec![
                    (pos(0, 0), TerrainTy::Wall),
                    (pos(1, 0), TerrainTy::Plain),
                    (pos(0, 1), TerrainTy::Bridge),
                ]
            );
        },
        other => panic!("unexpected: {:?}", other),
    }
}

#[test]
fn terrain_without_payload_gives_no_notice() {
    assert_eq!(handle_message("{\"ty\":\"terrain\",\"payload\":null}", &[pos(0, 0)]), Ok(None));
}

#[test]
fn terrain_that_does_not_fit_the_layout_is_turned_away() {
    let layout = [pos(0, 0), pos(1, 0)];
    let text = "{\"ty\":\"terrain\",\"payload\":{\"roomId\":{},\"offset\":{},\"tiles\":[1,1,1]}}";
    assert_eq!(
        handle_message(text, &layout),
        Err(DecodeError::LayoutMismatch { tiles: 3, layout: 2 })
    );
}

#[test]
fn terrain_with_an_unknown_code_is_turned_away() {
    let layout = [pos(0, 0), pos(1, 0)];
    let text = "{\"ty\":\"terrain\",\"payload\":{\"roomId\":{},\"offset\":{},\"tiles\":[1,4]}}";
    assert_eq!(handle_message(text, &layout), Err(DecodeError::UnknownTerrainCode(4)));
}

#[test]
fn unreadable_text_is_turned_away() {
    assert_eq!(handle_message("not json", &[]), Err(DecodeError::Malformed));
}

#[test]
fn decoded_messages_are_handled_alike() {
    let layout = [pos(5, 5)];
    let terrain = TerrainPayload { room_id: pos(1, 2), offset: pos(3, 4), tiles: vec![0] };
    match handle_decoded(Message::Terrain(Some(terrain)), &layout) {
        Ok(Some(Notice::NewTerrain(t))) => {
            assert_eq!(*t.terrain, vec![(pos(5, 5), TerrainTy::Empty)]);
        },
        other => panic!("unexpected: {:?}", other),
    }
    assert_eq!(handle_decoded(Message::Terrain(None), &layout), Ok(None));
    let mut snapshot = EntitiesPayload::default();
    snapshot.time = 5;
    match handle_decoded(Message::Entities(snapshot.clone()), &layout) {
        Ok(Some(Notice::NewEntities(e))) => assert_eq!(*e.0, snapshot),
        other => panic!("unexpected: {:?}", other),
    }
}
