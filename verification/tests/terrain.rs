use cao_sim_client::error::DecodeError;
use cao_sim_client::model::{AxialPos, TerrainTy};
use cao_sim_client::terrain_model::terrain_payload_to_components;

fn pos(q: i32, r: i32) -> AxialPos {
    AxialPos { q, r }
}

#[test]
fn every_known_code_has_its_terrain() {
    assert_eq!(TerrainTy::try_from(0), Ok(TerrainTy::Empty));
    assert_eq!(TerrainTy::try_from(1), Ok(TerrainTy::Plain));
    assert_eq!(TerrainTy::try_from(2), Ok(TerrainTy::Wall));
    assert_eq!(TerrainTy::try_from(3), Ok(TerrainTy::Bridge));
}

#[test]
fn unknown_codes_come_back_as_the_error() {
    assert_eq!(TerrainTy::try_from(4), Err(4));
    assert_eq!(TerrainTy::try_from(-1), Err(-1));
    assert_eq!(TerrainTy::try_from(i64::MAX), Err(i64::MAX));
    assert_eq!(TerrainTy::try_from(i64::MIN), Err(i64::MIN));
}

#[test]
fn tiles_follow_the_layout_in_order() {
    let layout = vec![pos(0, 0), pos(1, 0), pos(0, 1), pos(-1, 1), pos(7, -7)];
    let codes = vec![3, 2, 1, 0, 2];
    let tiles = terrain_payload_to_components(&codes, &layout).unwrap();
    assert_eq!(
        tiles,
        vec![
            (pos(0, 0), TerrainTy::Bridge),
            (pos(1, 0), TerrainTy::Wall),
            (pos(0, 1), TerrainTy::Plain),
            (pos(-1, 1), TerrainTy::Empty),
            (pos(7, -7), TerrainTy::Wall),
        ]
    );
}

#[test]
fn empty_payload_over_empty_layout_is_empty() {
    assert_eq!(terrain_payload_to_components(&[], &[]), Ok(vec![]));
}

#[test]
fn too_few_codes_are_a_mismatch() {
    let layout = vec![pos(0, 0), pos(1, 0)];
    assert_eq!(
        terrain_payload_to_components(&[1], &layout),
        Err(DecodeError::LayoutMismatch { tiles: 1, layout: 2 })
    );
}

#[test]
fn too_many_codes_are_a_mismatch() {
    let layout = vec![pos(0, 0)];
    assert_eq!(
        terrain_payload_to_components(&[1, 2, 3], &layout),
        Err(DecodeError::LayoutMismatch { tiles: 3, layout: 1 })
    );
}

#[test]
fn mismatch_is_reported_before_unknown_codes() {
    let layout = vec![pos(0, 0)];
    assert_eq!(
        terrain_payload_to_components(&[9, 9], &layout),
        Err(DecodeError::LayoutMismatch { tiles: 2, layout: 1 })
    );
}

#[test]
fn unknown_code_is_reported_with_its_value() {
    let layout = vec![pos(0, 0), pos(1, 0), pos(2, 0)];
    assert_eq!(
        terrain_payload_to_components(&[0, 4, 1], &layout),
        Err(DecodeError::UnknownTerrainCode(4))
    );
    assert_eq!(
        terrain_payload_to_components(&[0, 1, -1], &layout),
        Err(DecodeError::UnknownTerrainCode(-1))
    );
}

#[test]
fn the_first_unknown_code_is_the_one_reported() {
    let layout = vec![pos(0, 0), pos(1, 0), pos(2, 0)];
    assert_eq!(
        terrain_payload_to_components(&[7, 8, 9], &layout),
        Err(DecodeError::UnknownTerrainCode(7))
    );
}

#[test]
fn codes_convert_into_terrain_too() {
    let wall: Result<TerrainTy, i64> = 2i64.try_into();
    assert_eq!(wall, Ok(TerrainTy::Wall));
    let unknown: Result<TerrainTy, i64> = 9i64.try_into();
    assert_eq!(unknown, Err(9));
}
