use cao_sim_client::model::{
    AxialPos, Bot, BoundedValue, Decay, EntitiesPayload, EntityPosition, Owner, Resource,
    ResourceType, Script, Spawn, TerrainPayload,
};

#[test]
fn absolute_position_is_tile_plus_offset() {
    let p = EntityPosition {
        room: AxialPos { q: 9, r: 9 },
        pos: AxialPos { q: 3, r: -4 },
        offset: AxialPos { q: 60, r: 120 },
    };
    assert_eq!(p.absolute_axial(), AxialPos { q: 63, r: 116 });
    assert_eq!(p.checked_absolute_axial(), Some(AxialPos { q: 63, r: 116 }));
}

#[test]
fn absolute_position_at_the_limits() {
    let p = EntityPosition {
        room: AxialPos { q: 0, r: 0 },
        pos: AxialPos { q: i32::MAX - 1, r: i32::MIN + 1 },
        offset: AxialPos { q: 1, r: -1 },
    };
    assert_eq!(p.absolute_axial(), AxialPos { q: i32::MAX, r: i32::MIN });
}

#[test]
fn absolute_position_that_does_not_fit_is_none() {
    let over = EntityPosition {
        room: AxialPos { q: 0, r: 0 },
        pos: AxialPos { q: i32::MAX, r: 0 },
        offset: AxialPos { q: 1, r: 0 },
    };
    assert_eq!(over.checked_absolute_axial(), None);
    let under = EntityPosition {
        room: AxialPos { q: 0, r: 0 },
        pos: AxialPos { q: 0, r: i32::MIN },
        offset: AxialPos { q: 0, r: -1 },
    };
    assert_eq!(under.checked_absolute_axial(), None);
}

#[test]
fn coordinate_is_written_in_brackets() {
    assert_eq!(AxialPos { q: 1, r: -2 }.to_text(), "[1, -2]");
    assert_eq!(AxialPos::default().to_text(), "[0, 0]");
    assert_eq!(AxialPos { q: 10, r: -907 }.to_text(), "[10, -907]");
}

#[test]
fn coordinate_at_the_limits_is_written_in_full() {
    assert_eq!(
        AxialPos { q: i32::MIN, r: i32::MAX }.to_text(),
        "[-2147483648, 2147483647]"
    );
}

#[test]
fn defaults_are_zero_and_empty() {
    assert_eq!(AxialPos::default(), AxialPos { q: 0, r: 0 });
    assert_eq!(BoundedValue::default(), BoundedValue { value: 0, value_max: 0 });
    assert_eq!(Decay::default(), Decay { hp_amount: 0, interval: 0, time_remaining: 0 });
    assert_eq!(Script::default().data, "");
    assert_eq!(Owner::default().data, "");
    assert_eq!(Spawn::default().spawn_queue, Vec::<u64>::new());
    assert_eq!(ResourceType::default().energy, BoundedValue::default());
    assert_eq!(Resource::default().id, 0);
    let bot = Bot::default();
    assert_eq!(bot.id, 0);
    assert_eq!(bot.pos, EntityPosition::default());
    assert_eq!(bot.say, None);
    let e = EntitiesPayload::default();
    assert_eq!(e.time, 0);
    assert!(e.bots.is_empty() && e.structures.is_empty() && e.resources.is_empty());
    assert!(TerrainPayload::default().tiles.is_empty());
}
