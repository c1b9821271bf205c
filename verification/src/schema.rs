//! The schema of the server's messages, as functions from JSON documents to
//! the views of the wire model. `None` stands for a document that breaks the
//! schema. Members that the schema does not name are ignored, but in the
//! object that names the kind of a structure.

use vstd::prelude::*;
use crate::json::Json;
use crate::model::{
    AxialPos, BotView, BoundedValue, Decay, DropoffIntent, EntitiesView, EntityPosition,
    MessageView, MineIntent, Resource, ResourceType, SpawnView, StructureTypeView, StructureView,
    TerrainPayloadView,
};

verus! {

/// A member that may be left out: a missing member reads as `default`, a
/// present one has to fit.
pub open spec fn or_default<T>(field: Option<Json>, read: spec_fn(Json) -> Option<T>, default: T) -> Option<
    T,
> {
    match field {
        None => Some(default),
        Some(j) => read(j),
    }
}

/// A member that has to be there and to fit.
pub open spec fn required<T>(field: Option<Json>, read: spec_fn(Json) -> Option<T>) -> Option<T> {
    match field {
        None => None,
        Some(j) => read(j),
    }
}

/// A member that may be missing or `null`, which both read as nothing; any
/// other document has to fit.
pub open spec fn optional<T>(field: Option<Json>, read: spec_fn(Json) -> Option<T>) -> Option<
    Option<T>,
> {
    match field {
        None => Some(None),
        Some(j) => if j is Null {
            Some(None)
        } else {
            match read(j) {
                Some(x) => Some(Some(x)),
                None => None,
            }
        },
    }
}

/// The items of a list, each read by `read`; nothing where one does not fit.
pub open spec fn each_of<T>(items: Seq<Json>, read: spec_fn(Json) -> Option<T>) -> Option<Seq<T>> {
    if forall|i: int| 0 <= i < items.len() ==> read(#[trigger] items[i]) is Some {
        Some(Seq::new(items.len(), |i: int| read(items[i]).unwrap()))
    } else {
        None
    }
}

/// A list whose items are read by `read`.
pub open spec fn list_of<T>(j: Json, read: spec_fn(Json) -> Option<T>) -> Option<Seq<T>> {
    match j {
        Json::List(items) => each_of(items, read),
        _ => None,
    }
}

/// An integer that fits `i32`.
pub open spec fn i32_of(j: Json) -> Option<i32> {
    match j.as_i64() {
        Some(n) => if i32::MIN <= n <= i32::MAX {
            Some(n as i32)
        } else {
            None
        },
        None => None,
    }
}

/// A coordinate: an object with the members `q` and `r`.
pub open spec fn axial_of(j: Json) -> Option<AxialPos> {
    let q = or_default(j.member("q"@), |x: Json| i32_of(x), 0i32);
    let r = or_default(j.member("r"@), |x: Json| i32_of(x), 0i32);
    if j is Object && q is Some && r is Some {
        Some(AxialPos { q: q.unwrap(), r: r.unwrap() })
    } else {
        None
    }
}

/// The position of an entity: an object with the members `room`, `pos` and
/// `offset`.
pub open spec fn position_of(j: Json) -> Option<EntityPosition> {
    let room = or_default(j.member("room"@), |x: Json| axial_of(x), AxialPos::origin());
    let pos = or_default(j.member("pos"@), |x: Json| axial_of(x), AxialPos::origin());
    let offset = or_default(j.member("offset"@), |x: Json| axial_of(x), AxialPos::origin());
    if j is Object && room is Some && pos is Some && offset is Some {
        Some(EntityPosition { room: room.unwrap(), pos: pos.unwrap(), offset: offset.unwrap() })
    } else {
        None
    }
}

/// A quantity with its limit: an object with the members `value` and
/// `valueMax`.
pub open spec fn bounded_of(j: Json) -> Option<BoundedValue> {
    let value = or_default(j.member("value"@), |x: Json| x.as_i64(), 0i64);
    let value_max = or_default(j.member("valueMax"@), |x: Json| x.as_i64(), 0i64);
    if j is Object && value is Some && value_max is Some {
        Some(BoundedValue { value: value.unwrap(), value_max: value_max.unwrap() })
    } else {
        None
    }
}

/// The decay of a bot: an object with the members `hpAmount`, `interval` and
/// `timeRemaining`.
pub open spec fn decay_of(j: Json) -> Option<Decay> {
    let hp_amount = or_default(j.member("hpAmount"@), |x: Json| x.as_i64(), 0i64);
    let interval = or_default(j.member("interval"@), |x: Json| x.as_i64(), 0i64);
    let time_remaining = or_default(j.member("timeRemaining"@), |x: Json| x.as_i64(), 0i64);
    if j is Object && hp_amount is Some && interval is Some && time_remaining is Some {
        Some(
            Decay {
                hp_amount: hp_amount.unwrap(),
                interval: interval.unwrap(),
                time_remaining: time_remaining.unwrap(),
            },
        )
    } else {
        None
    }
}

/// The target of a mining or drop-off intent, which the server always names.
pub open spec fn target_of(j: Json) -> Option<u64> {
    if j is Object {
        required(j.member("targetId"@), |x: Json| x.as_u64())
    } else {
        None
    }
}

/// The intent to mine.
pub open spec fn mine_intent_of(j: Json) -> Option<MineIntent> {
    match target_of(j) {
        Some(target_id) => Some(MineIntent { target_id }),
        None => None,
    }
}

/// The intent to drop off.
pub open spec fn dropoff_intent_of(j: Json) -> Option<DropoffIntent> {
    match target_of(j) {
        Some(target_id) => Some(DropoffIntent { target_id }),
        None => None,
    }
}

/// The text of a script or of an owner: the member `data` of an object.
pub open spec fn data_of(j: Json) -> Option<Seq<char>> {
    if j is Object {
        or_default(j.member("data"@), |x: Json| x.as_text(), Seq::<char>::empty())
    } else {
        None
    }
}

/// A bot: an object of which every member may be left out.
pub open spec fn bot_of(j: Json) -> Option<BotView> {
    let id = or_default(j.member("id"@), |x: Json| x.as_u64(), 0u64);
    let pos = or_default(j.member("pos"@), |x: Json| position_of(x), EntityPosition::origin());
    let carry = optional(j.member("carry"@), |x: Json| bounded_of(x));
    let hp = optional(j.member("hp"@), |x: Json| bounded_of(x));
    let script = optional(j.member("script"@), |x: Json| data_of(x));
    let owner = optional(j.member("owner"@), |x: Json| data_of(x));
    let decay = optional(j.member("decay"@), |x: Json| decay_of(x));
    let logs = optional(j.member("logs"@), |x: Json| x.as_text());
    let say = optional(j.member("say"@), |x: Json| x.as_text());
    let mine_intent = optional(j.member("mineIntent"@), |x: Json| mine_intent_of(x));
    let dropoff_intent = optional(j.member("dropoffIntent"@), |x: Json| dropoff_intent_of(x));
    if j is Object && id is Some && pos is Some && carry is Some && hp is Some && script is Some
        && owner is Some && decay is Some && logs is Some && say is Some && mine_intent is Some
        && dropoff_intent is Some {
        Some(
            BotView {
                id: id.unwrap(),
                pos: pos.unwrap(),
                carry: carry.unwrap(),
                hp: hp.unwrap(),
                script: script.unwrap(),
                owner: owner.unwrap(),
                decay: decay.unwrap(),
                logs: logs.unwrap(),
                say: say.unwrap(),
                mine_intent: mine_intent.unwrap(),
                dropoff_intent: dropoff_intent.unwrap(),
            },
        )
    } else {
        None
    }
}

/// What belongs to a spawn: an object of which every member may be left out.
pub open spec fn spawn_of(j: Json) -> Option<SpawnView> {
    let time_to_spawn = or_default(j.member("timeToSpawn"@), |x: Json| x.as_i64(), 0i64);
    let spawning = or_default(j.member("spawning"@), |x: Json| x.as_u64(), 0u64);
    let spawn_queue = or_default(
        j.member("spawnQueue"@),
        |x: Json| list_of(x, |y: Json| y.as_u64()),
        Seq::<u64>::empty(),
    );
    if j is Object && time_to_spawn is Some && spawning is Some && spawn_queue is Some {
        Some(
            SpawnView {
                time_to_spawn: time_to_spawn.unwrap(),
                spawning: spawning.unwrap(),
                spawn_queue: spawn_queue.unwrap(),
            },
        )
    } else {
        None
    }
}

/// The kind of a structure: an object of one member, which names the kind
/// and holds what belongs to it. An object with any other member beside
/// it does not fit.
pub open spec fn structure_type_of(j: Json) -> Option<StructureTypeView> {
    if j.has_members(1) {
        match required(j.member("Spawn"@), |x: Json| spawn_of(x)) {
            Some(spawn) => Some(StructureTypeView::Spawn(spawn)),
            None => None,
        }
    } else {
        None
    }
}

/// A structure. Its identifier, position, health and kind have to be there.
pub open spec fn structure_of(j: Json) -> Option<StructureView> {
    let id = required(j.member("id"@), |x: Json| x.as_u64());
    let pos = required(j.member("pos"@), |x: Json| position_of(x));
    let hp = required(j.member("hp"@), |x: Json| bounded_of(x));
    let energy = optional(j.member("energy"@), |x: Json| bounded_of(x));
    let energy_regen = optional(j.member("energyRegen"@), |x: Json| x.as_i64());
    let owner = optional(j.member("owner"@), |x: Json| data_of(x));
    let structure_type = required(j.member("StructureType"@), |x: Json| structure_type_of(x));
    if id is Some && pos is Some && hp is Some && energy is Some && energy_regen is Some
        && owner is Some && structure_type is Some {
        Some(
            StructureView {
                id: id.unwrap(),
                pos: pos.unwrap(),
                hp: hp.unwrap(),
                energy: energy.unwrap(),
                energy_regen: energy_regen.unwrap(),
                owner: owner.unwrap(),
                structure_type: structure_type.unwrap(),
            },
        )
    } else {
        None
    }
}

/// The kind of a resource: an object with the member `Energy`.
pub open spec fn resource_type_of(j: Json) -> Option<ResourceType> {
    let energy = or_default(j.member("Energy"@), |x: Json| bounded_of(x), BoundedValue::zero());
    if j is Object && energy is Some {
        Some(ResourceType { energy: energy.unwrap() })
    } else {
        None
    }
}

/// A resource: an object of which every member may be left out.
pub open spec fn resource_of(j: Json) -> Option<Resource> {
    let id = or_default(j.member("id"@), |x: Json| x.as_u64(), 0u64);
    let pos = or_default(j.member("pos"@), |x: Json| position_of(x), EntityPosition::origin());
    let resource_type = or_default(
        j.member("ResourceType"@),
        |x: Json| resource_type_of(x),
        ResourceType::empty(),
    );
    if j is Object && id is Some && pos is Some && resource_type is Some {
        Some(Resource { id: id.unwrap(), pos: pos.unwrap(), resource_type: resource_type.unwrap() })
    } else {
        None
    }
}

/// The snapshot of a room. The server leaves out what is zero or empty.
pub open spec fn entities_of(j: Json) -> Option<EntitiesView> {
    let time = or_default(j.member("time"@), |x: Json| x.as_i64(), 0i64);
    let room_id = or_default(j.member("roomId"@), |x: Json| axial_of(x), AxialPos::origin());
    let bots = or_default(
        j.member("bots"@),
        |x: Json| list_of(x, |y: Json| bot_of(y)),
        Seq::<BotView>::empty(),
    );
    let structures = or_default(
        j.member("structures"@),
        |x: Json| list_of(x, |y: Json| structure_of(y)),
        Seq::<StructureView>::empty(),
    );
    let resources = or_default(
        j.member("resources"@),
        |x: Json| list_of(x, |y: Json| resource_of(y)),
        Seq::<Resource>::empty(),
    );
    if j is Object && time is Some && room_id is Some && bots is Some && structures is Some
        && resources is Some {
        Some(
            EntitiesView {
                time: time.unwrap(),
                room_id: room_id.unwrap(),
                bots: bots.unwrap(),
                structures: structures.unwrap(),
                resources: resources.unwrap(),
            },
        )
    } else {
        None
    }
}

/// The terrain of a room. All three members have to be there.
pub open spec fn terrain_of(j: Json) -> Option<TerrainPayloadView> {
    let room_id = required(j.member("roomId"@), |x: Json| axial_of(x));
    let offset = required(j.member("offset"@), |x: Json| axial_of(x));
    let tiles = required(j.member("tiles"@), |x: Json| list_of(x, |y: Json| y.as_i64()));
    if room_id is Some && offset is Some && tiles is Some {
        Some(
            TerrainPayloadView {
                room_id: room_id.unwrap(),
                offset: offset.unwrap(),
                tiles: tiles.unwrap(),
            },
        )
    } else {
        None
    }
}

/// A message: an object whose member `ty` names the kind and whose member
/// `payload` holds the rest. A terrain message may come without payload,
/// or with `null` for one.
pub open spec fn message_of(j: Json) -> Option<MessageView> {
    match j.member("ty"@) {
        Some(Json::Text(tag)) => if tag == "entities"@ {
            match required(j.member("payload"@), |x: Json| entities_of(x)) {
                Some(entities) => Some(MessageView::Entities(entities)),
                None => None,
            }
        } else if tag == "terrain"@ {
            match optional(j.member("payload"@), |x: Json| terrain_of(x)) {
                Some(terrain) => Some(MessageView::Terrain(terrain)),
                None => None,
            }
        } else {
            None
        },
        _ => None,
    }
}

/// The layout of a room: a list of coordinates, in the order in which the
/// codes of a terrain payload will come.
pub open spec fn layout_of(j: Json) -> Option<Seq<AxialPos>> {
    list_of(j, |x: Json| axial_of(x))
}

} // verus!
