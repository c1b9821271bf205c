//! Reading the server's messages: from a JSON value to the wire model, as the
//! schema says.

use vstd::prelude::*;
use crate::error::DecodeError;
use crate::events::TerrainLayout;
use crate::json::{
    json_parsed, json_view, json_views, parse_value, value_member, value_member_count, Json,
};
use crate::model::{
    owner_view, script_view, text_view, AxialPos, Bot, BoundedValue, Decay, DropoffIntent,
    EntitiesPayload, EntityPosition, Message, MessageView, MineIntent, Owner, Resource,
    ResourceType, Script, Spawn, Structure, StructureType, TerrainPayload,
};
use crate::schema::{
    axial_of, bot_of, bounded_of, data_of, decay_of, dropoff_intent_of, each_of, entities_of,
    i32_of, layout_of, list_of, message_of, mine_intent_of, optional, or_default, position_of,
    resource_of, resource_type_of, spawn_of, structure_of, structure_type_of, target_of,
    terrain_of,
};

verus! {

/// Reads an integer that fits `i32`.
fn read_i32(v: &serde_json::Value) -> (out: Option<i32>)
    ensures
        out == i32_of(json_view(*v)),
{
    match v.as_i64() {
        Some(n) => if -2147483648 <= n && n <= 2147483647 {
            Some(n as i32)
        } else {
            None
        },
        None => None,
    }
}

/// The `i32` under `key`, zero where the member is left out.
fn member_i32(v: &serde_json::Value, key: &str) -> (out: Option<i32>)
    ensures
        out == or_default(json_view(*v).member(key@), |x: Json| i32_of(x), 0i32),
{
    match value_member(v, key) {
        None => Some(0),
        Some(x) => read_i32(x),
    }
}

/// The `i64` under `key`, zero where the member is left out.
fn member_i64(v: &serde_json::Value, key: &str) -> (out: Option<i64>)
    ensures
        out == or_default(json_view(*v).member(key@), |x: Json| x.as_i64(), 0i64),
{
    match value_member(v, key) {
        None => Some(0),
        Some(x) => x.as_i64(),
    }
}

/// The `u64` under `key`, zero where the member is left out.
fn member_u64(v: &serde_json::Value, key: &str) -> (out: Option<u64>)
    ensures
        out == or_default(json_view(*v).member(key@), |x: Json| x.as_u64(), 0u64),
{
    match value_member(v, key) {
        None => Some(0),
        Some(x) => x.as_u64(),
    }
}

/// Reads a coordinate.
pub fn read_axial(v: &serde_json::Value) -> (out: Option<AxialPos>)
    ensures
        out == axial_of(json_view(*v)),
{
    if !v.is_object() {
        return None;
    }
    match (member_i32(v, "q"), member_i32(v, "r")) {
        (Some(q), Some(r)) => Some(AxialPos { q, r }),
        _ => None,
    }
}

/// The coordinate under `key`, the origin where the member is left out.
fn member_axial(v: &serde_json::Value, key: &str) -> (out: Option<AxialPos>)
    ensures
        out == or_default(
            json_view(*v).member(key@),
            |x: Json| axial_of(x),
            AxialPos::origin(),
        ),
{
    match value_member(v, key) {
        None => Some(AxialPos { q: 0, r: 0 }),
        Some(x) => read_axial(x),
    }
}

/// Reads the position of an entity.
pub fn read_position(v: &serde_json::Value) -> (out: Option<EntityPosition>)
    ensures
        out == position_of(json_view(*v)),
{
    if !v.is_object() {
        return None;
    }
    match (member_axial(v, "room"), member_axial(v, "pos"), member_axial(v, "offset")) {
        (Some(room), Some(pos), Some(offset)) => Some(EntityPosition { room, pos, offset }),
        _ => None,
    }
}

/// Reads a quantity with its limit.
pub fn read_bounded(v: &serde_json::Value) -> (out: Option<BoundedValue>)
    ensures
        out == bounded_of(json_view(*v)),
{
    if !v.is_object() {
        return None;
    }
    match (member_i64(v, "value"), member_i64(v, "valueMax")) {
        (Some(value), Some(value_max)) => Some(BoundedValue { value, value_max }),
        _ => None,
    }
}

/// Reads the decay of a bot.
pub fn read_decay(v: &serde_json::Value) -> (out: Option<Decay>)
    ensures
        out == decay_of(json_view(*v)),
{
    if !v.is_object() {
        return None;
    }
    match (member_i64(v, "hpAmount"), member_i64(v, "interval"), member_i64(v, "timeRemaining")) {
        (Some(hp_amount), Some(interval), Some(time_remaining)) => Some(
            Decay { hp_amount, interval, time_remaining },
        ),
        _ => None,
    }
}

/// Reads the target of an intent.
fn read_target(v: &serde_json::Value) -> (out: Option<u64>)
    ensures
        out == target_of(json_view(*v)),
{
    if !v.is_object() {
        return None;
    }
    match value_member(v, "targetId") {
        None => None,
        Some(x) => x.as_u64(),
    }
}

/// Reads the intent to mine.
pub fn read_mine_intent(v: &serde_json::Value) -> (out: Option<MineIntent>)
    ensures
        out == mine_intent_of(json_view(*v)),
{
    match read_target(v) {
        Some(target_id) => Some(MineIntent { target_id }),
        None => None,
    }
}

/// Reads the intent to drop off.
pub fn read_dropoff_intent(v: &serde_json::Value) -> (out: Option<DropoffIntent>)
    ensures
        out == dropoff_intent_of(json_view(*v)),
{
    match read_target(v) {
        Some(target_id) => Some(DropoffIntent { target_id }),
        None => None,
    }
}

/// Reads a text.
fn read_text(v: &serde_json::Value) -> (out: Option<String>)
    ensures
        text_view(out) == json_view(*v).as_text(),
{
    match v.as_str() {
        Some(s) => Some(s.to_owned()),
        None => None,
    }
}

/// Reads the text under `data`, empty where the member is left out.
fn read_data(v: &serde_json::Value) -> (out: Option<String>)
    ensures
        text_view(out) == data_of(json_view(*v)),
{
    if !v.is_object() {
        return None;
    }
    match value_member(v, "data") {
        None => Some(String::new()),
        Some(x) => read_text(x),
    }
}

/// Reads the script of a bot.
pub fn read_script(v: &serde_json::Value) -> (out: Option<Script>)
    ensures
        script_view(out) == data_of(json_view(*v)),
{
    match read_data(v) {
        Some(data) => Some(Script { data }),
        None => None,
    }
}

/// Reads the owner of an entity.
pub fn read_owner(v: &serde_json::Value) -> (out: Option<Owner>)
    ensures
        owner_view(out) == data_of(json_view(*v)),
{
    match read_data(v) {
        Some(data) => Some(Owner { data }),
        None => None,
    }
}

/// Reads a bot.
pub fn read_bot(v: &serde_json::Value) -> (out: Option<Bot>)
    ensures
        match out {
            Some(bot) => bot_of(json_view(*v)) == Some(bot@),
            None => bot_of(json_view(*v)) is None,
        },
{
    if !v.is_object() {
        return None;
    }
    let id = match member_u64(v, "id") {
        Some(id) => id,
        None => return None,
    };
    let pos = match value_member(v, "pos") {
        None => EntityPosition::default(),
        Some(x) => match read_position(x) {
            Some(pos) => pos,
            None => return None,
        },
    };
    let carry = match member_bounded(v, "carry") {
        Some(carry) => carry,
        None => return None,
    };
    let hp = match member_bounded(v, "hp") {
        Some(hp) => hp,
        None => return None,
    };
    let script = match value_member(v, "script") {
        None => None,
        Some(x) => if x.is_null() {
            None
        } else {
            match read_script(x) {
                Some(s) => Some(s),
                None => return None,
            }
        },
    };
    let owner = match member_owner(v) {
        Some(owner) => owner,
        None => return None,
    };
    let decay = match value_member(v, "decay") {
        None => None,
        Some(x) => if x.is_null() {
            None
        } else {
            match read_decay(x) {
                Some(d) => Some(d),
                None => return None,
            }
        },
    };
    let logs = match member_text(v, "logs") {
        Some(logs) => logs,
        None => return None,
    };
    let say = match member_text(v, "say") {
        Some(say) => say,
        None => return None,
    };
    let mine_intent = match value_member(v, "mineIntent") {
        None => None,
        Some(x) => if x.is_null() {
            None
        } else {
            match read_mine_intent(x) {
                Some(m) => Some(m),
                None => return None,
            }
        },
    };
    let dropoff_intent = match value_member(v, "dropoffIntent") {
        None => None,
        Some(x) => if x.is_null() {
            None
        } else {
            match read_dropoff_intent(x) {
                Some(d) => Some(d),
                None => return None,
            }
        },
    };
    Some(Bot { id, pos, carry, hp, script, owner, decay, logs, say, mine_intent, dropoff_intent })
}

/// The optional text under `key`. The outer `None` says that the member is
/// there and is no text.
fn member_text(v: &serde_json::Value, key: &str) -> (out: Option<Option<String>>)
    ensures
        match out {
            Some(text) => optional(json_view(*v).member(key@), |x: Json| x.as_text()) == Some(
                text_view(text),
            ),
            None => optional(json_view(*v).member(key@), |x: Json| x.as_text()) is None,
        },
{
    match value_member(v, key) {
        None => Some(None),
        Some(x) => if x.is_null() {
            Some(None)
        } else {
            match read_text(x) {
                Some(t) => Some(Some(t)),
                None => None,
            }
        },
    }
}

/// The optional member `owner`.
fn member_owner(v: &serde_json::Value) -> (out: Option<Option<Owner>>)
    ensures
        match out {
            Some(owner) => optional(json_view(*v).member("owner"@), |x: Json| data_of(x)) == Some(
                owner_view(owner),
            ),
            None => optional(json_view(*v).member("owner"@), |x: Json| data_of(x)) is None,
        },
{
    match value_member(v, "owner") {
        None => Some(None),
        Some(x) => if x.is_null() {
            Some(None)
        } else {
            match read_owner(x) {
                Some(o) => Some(Some(o)),
                None => None,
            }
        },
    }
}

/// The optional quantity under `key`.
fn member_bounded(v: &serde_json::Value, key: &str) -> (out: Option<Option<BoundedValue>>)
    ensures
        out == optional(json_view(*v).member(key@), |x: Json| bounded_of(x)),
{
    match value_member(v, key) {
        None => Some(None),
        Some(x) => if x.is_null() {
            Some(None)
        } else {
            match read_bounded(x) {
                Some(b) => Some(Some(b)),
                None => None,
            }
        },
    }
}

/// Reads a list of `u64`.
fn read_u64_list(v: &serde_json::Value) -> (out: Option<Vec<u64>>)
    ensures
        match out {
            Some(list) => list_of(json_view(*v), |y: Json| y.as_u64()) == Some(list@),
            None => list_of(json_view(*v), |y: Json| y.as_u64()) is None,
        },
{
    let items = match v.as_array() {
        Some(items) => items,
        None => return None,
    };
    let ghost docs = json_views(items@);
    let mut list: Vec<u64> = Vec::new();
    let mut i: usize = 0;
    while i < items.len()
        invariant
            0 <= i <= items.len(),
            docs == json_views(items@),
            json_view(*v).as_list() == Some(docs),
            list@.len() == i,
            forall|k: int| 0 <= k < i ==> (#[trigger] docs[k]).as_u64() == Some(list@[k]),
        decreases items.len() - i,
    {
        match items[i].as_u64() {
            Some(n) => list.push(n),
            None => {
                assert(docs[i as int].as_u64() is None);
                return None;
            },
        }
        i += 1;
    }
    assert(list@ =~= each_of(docs, |y: Json| y.as_u64()).unwrap());
    Some(list)
}

/// Reads a list of `i64`.
fn read_i64_list(v: &serde_json::Value) -> (out: Option<Vec<i64>>)
    ensures
        match out {
            Some(list) => list_of(json_view(*v), |y: Json| y.as_i64()) == Some(list@),
            None => list_of(json_view(*v), |y: Json| y.as_i64()) is None,
        },
{
    let items = match v.as_array() {
        Some(items) => items,
        None => return None,
    };
    let ghost docs = json_views(items@);
    let mut list: Vec<i64> = Vec::new();
    let mut i: usize = 0;
    while i < items.len()
        invariant
            0 <= i <= items.len(),
            docs == json_views(items@),
            json_view(*v).as_list() == Some(docs),
            list@.len() == i,
            forall|k: int| 0 <= k < i ==> (#[trigger] docs[k]).as_i64() == Some(list@[k]),
        decreases items.len() - i,
    {
        match items[i].as_i64() {
            Some(n) => list.push(n),
            None => {
                assert(docs[i as int].as_i64() is None);
                return None;
            },
        }
        i += 1;
    }
    assert(list@ =~= each_of(docs, |y: Json| y.as_i64()).unwrap());
    Some(list)
}

/// Reads what belongs to a spawn.
pub fn read_spawn(v: &serde_json::Value) -> (out: Option<Spawn>)
    ensures
        match out {
            Some(spawn) => spawn_of(json_view(*v)) == Some(spawn@),
            None => spawn_of(json_view(*v)) is None,
        },
{
    if !v.is_object() {
        return None;
    }
    let time_to_spawn = match member_i64(v, "timeToSpawn") {
        Some(t) => t,
        None => return None,
    };
    let spawning = match member_u64(v, "spawning") {
        Some(s) => s,
        None => return None,
    };
    let spawn_queue = match value_member(v, "spawnQueue") {
        None => Vec::new(),
        Some(x) => match read_u64_list(x) {
            Some(queue) => queue,
            None => return None,
        },
    };
    Some(Spawn { time_to_spawn, spawning, spawn_queue })
}

/// Reads the kind of a structure.
pub fn read_structure_type(v: &serde_json::Value) -> (out: Option<StructureType>)
    ensures
        match out {
            Some(ty) => structure_type_of(json_view(*v)) == Some(ty@),
            None => structure_type_of(json_view(*v)) is None,
        },
{
    match value_member_count(v) {
        Some(1) => {},
        _ => return None,
    }
    match value_member(v, "Spawn") {
        None => None,
        Some(x) => match read_spawn(x) {
            Some(spawn) => Some(StructureType::Spawn(spawn)),
            None => None,
        },
    }
}

/// Reads a structure.
pub fn read_structure(v: &serde_json::Value) -> (out: Option<Structure>)
    ensures
        match out {
            Some(structure) => structure_of(json_view(*v)) == Some(structure@),
            None => structure_of(json_view(*v)) is None,
        },
{
    let id = match value_member(v, "id") {
        None => return None,
        Some(x) => match x.as_u64() {
            Some(id) => id,
            None => return None,
        },
    };
    let pos = match value_member(v, "pos") {
        None => return None,
        Some(x) => match read_position(x) {
            Some(pos) => pos,
            None => return None,
        },
    };
    let hp = match value_member(v, "hp") {
        None => return None,
        Some(x) => match read_bounded(x) {
            Some(hp) => hp,
            None => return None,
        },
    };
    let energy = match member_bounded(v, "energy") {
        Some(energy) => energy,
        None => return None,
    };
    let energy_regen = match value_member(v, "energyRegen") {
        None => None,
        Some(x) => if x.is_null() {
            None
        } else {
            match x.as_i64() {
                Some(n) => Some(n),
                None => return None,
            }
        },
    };
    let owner = match member_owner(v) {
        Some(owner) => owner,
        None => return None,
    };
    let structure_type = match value_member(v, "StructureType") {
        None => return None,
        Some(x) => match read_structure_type(x) {
            Some(ty) => ty,
            None => return None,
        },
    };
    Some(Structure { id, pos, hp, energy, energy_regen, owner, structure_type })
}

/// Reads the kind of a resource.
pub fn read_resource_type(v: &serde_json::Value) -> (out: Option<ResourceType>)
    ensures
        out == resource_type_of(json_view(*v)),
{
    if !v.is_object() {
        return None;
    }
    match value_member(v, "Energy") {
        None => Some(ResourceType::default()),
        Some(x) => match read_bounded(x) {
            Some(energy) => Some(ResourceType { energy }),
            None => None,
        },
    }
}

/// Reads a resource.
pub fn read_resource(v: &serde_json::Value) -> (out: Option<Resource>)
    ensures
        out == resource_of(json_view(*v)),
{
    if !v.is_object() {
        return None;
    }
    let id = match member_u64(v, "id") {
        Some(id) => id,
        None => return None,
    };
    let pos = match value_member(v, "pos") {
        None => EntityPosition::default(),
        Some(x) => match read_position(x) {
            Some(pos) => pos,
            None => return None,
        },
    };
    let resource_type = match value_member(v, "ResourceType") {
        None => ResourceType::default(),
        Some(x) => match read_resource_type(x) {
            Some(ty) => ty,
            None => return None,
        },
    };
    Some(Resource { id, pos, resource_type })
}

/// Reads a list of bots.
fn read_bots(v: &serde_json::Value) -> (out: Option<Vec<Bot>>)
    ensures
        match out {
            Some(bots) => list_of(json_view(*v), |y: Json| bot_of(y)) == Some(
                Seq::new(bots@.len(), |i: int| bots@[i]@),
            ),
            None => list_of(json_view(*v), |y: Json| bot_of(y)) is None,
        },
{
    let items = match v.as_array() {
        Some(items) => items,
        None => return None,
    };
    let ghost docs = json_views(items@);
    let mut bots: Vec<Bot> = Vec::new();
    let mut i: usize = 0;
    while i < items.len()
        invariant
            0 <= i <= items.len(),
            docs == json_views(items@),
            json_view(*v).as_list() == Some(docs),
            bots@.len() == i,
            forall|k: int| 0 <= k < i ==> bot_of(#[trigger] docs[k]) == Some(bots@[k]@),
        decreases items.len() - i,
    {
        match read_bot(&items[i]) {
            Some(bot) => bots.push(bot),
            None => {
                assert(bot_of(docs[i as int]) is None);
                return None;
            },
        }
        i += 1;
    }
    assert(Seq::new(bots@.len(), |i: int| bots@[i]@) =~= each_of(docs, |y: Json| bot_of(y)).unwrap());
    Some(bots)
}

/// Reads a list of structures.
fn read_structures(v: &serde_json::Value) -> (out: Option<Vec<Structure>>)
    ensures
        match out {
            Some(structures) => list_of(json_view(*v), |y: Json| structure_of(y)) == Some(
                Seq::new(structures@.len(), |i: int| structures@[i]@),
            ),
            None => list_of(json_view(*v), |y: Json| structure_of(y)) is None,
        },
{
    let items = match v.as_array() {
        Some(items) => items,
        None => return None,
    };
    let ghost docs = json_views(items@);
    let mut structures: Vec<Structure> = Vec::new();
    let mut i: usize = 0;
    while i < items.len()
        invariant
            0 <= i <= items.len(),
            docs == json_views(items@),
            json_view(*v).as_list() == Some(docs),
            structures@.len() == i,
            forall|k: int| 0 <= k < i ==> structure_of(#[trigger] docs[k]) == Some(structures@[k]@),
        decreases items.len() - i,
    {
        match read_structure(&items[i]) {
            Some(structure) => structures.push(structure),
            None => {
                assert(structure_of(docs[i as int]) is None);
                return None;
            },
        }
        i += 1;
    }
    assert(Seq::new(structures@.len(), |i: int| structures@[i]@) =~= each_of(
        docs,
        |y: Json| structure_of(y),
    ).unwrap());
    Some(structures)
}

/// Reads a list of resources.
fn read_resources(v: &serde_json::Value) -> (out: Option<Vec<Resource>>)
    ensures
        match out {
            Some(resources) => list_of(json_view(*v), |y: Json| resource_of(y)) == Some(resources@),
            None => list_of(json_view(*v), |y: Json| resource_of(y)) is None,
        },
{
    let items = match v.as_array() {
        Some(items) => items,
        None => return None,
    };
    let ghost docs = json_views(items@);
    let mut resources: Vec<Resource> = Vec::new();
    let mut i: usize = 0;
    while i < items.len()
        invariant
            0 <= i <= items.len(),
            docs == json_views(items@),
            json_view(*v).as_list() == Some(docs),
            resources@.len() == i,
            forall|k: int| 0 <= k < i ==> resource_of(#[trigger] docs[k]) == Some(resources@[k]),
        decreases items.len() - i,
    {
        match read_resource(&items[i]) {
            Some(resource) => resources.push(resource),
            None => {
                assert(resource_of(docs[i as int]) is None);
                return None;
            },
        }
        i += 1;
    }
    assert(resources@ =~= each_of(docs, |y: Json| resource_of(y)).unwrap());
    Some(resources)
}

/// Reads the snapshot of a room.
pub fn read_entities(v: &serde_json::Value) -> (out: Option<EntitiesPayload>)
    ensures
        match out {
            Some(entities) => entities_of(json_view(*v)) == Some(entities@),
            None => entities_of(json_view(*v)) is None,
        },
{
    if !v.is_object() {
        return None;
    }
    let time = match member_i64(v, "time") {
        Some(time) => time,
        None => return None,
    };
    let room_id = match member_axial(v, "roomId") {
        Some(room_id) => room_id,
        None => return None,
    };
    let bots = match value_member(v, "bots") {
        None => Vec::new(),
        Some(x) => match read_bots(x) {
            Some(bots) => bots,
            None => return None,
        },
    };
    let structures = match value_member(v, "structures") {
        None => Vec::new(),
        Some(x) => match read_structures(x) {
            Some(structures) => structures,
            None => return None,
        },
    };
    let resources = match value_member(v, "resources") {
        None => Vec::new(),
        Some(x) => match read_resources(x) {
            Some(resources) => resources,
            None => return None,
        },
    };
    let entities = EntitiesPayload { time, room_id, bots, structures, resources };
    proof {
        let found = entities_of(json_view(*v)).unwrap();
        assert(entities@.bots =~= found.bots);
        assert(entities@.structures =~= found.structures);
        assert(entities@.resources =~= found.resources);
    }
    Some(entities)
}

/// Reads the terrain of a room.
pub fn read_terrain(v: &serde_json::Value) -> (out: Option<TerrainPayload>)
    ensures
        match out {
            Some(terrain) => terrain_of(json_view(*v)) == Some(terrain@),
            None => terrain_of(json_view(*v)) is None,
        },
{
    let room_id = match value_member(v, "roomId") {
        None => return None,
        Some(x) => match read_axial(x) {
            Some(room_id) => room_id,
            None => return None,
        },
    };
    let offset = match value_member(v, "offset") {
        None => return None,
        Some(x) => match read_axial(x) {
            Some(offset) => offset,
            None => return None,
        },
    };
    let tiles = match value_member(v, "tiles") {
        None => return None,
        Some(x) => match read_i64_list(x) {
            Some(tiles) => tiles,
            None => return None,
        },
    };
    Some(TerrainPayload { room_id, offset, tiles })
}

/// What `decode` yields for a text: the message that the schema reads from
/// the document of the text.
pub open spec fn decoded(text: Seq<char>) -> Result<MessageView, DecodeError> {
    match json_parsed(text) {
        Some(doc) => decoded_document(doc),
        None => Err(DecodeError::Malformed),
    }
}

/// What `decode_value` yields for a document.
pub open spec fn decoded_document(doc: Json) -> Result<MessageView, DecodeError> {
    match message_of(doc) {
        Some(message) => Ok(message),
        None => Err(DecodeError::Malformed),
    }
}

/// Reads a message from a JSON value.
pub fn decode_value(v: &serde_json::Value) -> (out: Result<Message, DecodeError>)
    ensures
        match out {
            Ok(message) => decoded_document(json_view(*v)) == Ok::<_, DecodeError>(message@),
            Err(e) => decoded_document(json_view(*v)) == Err::<MessageView, _>(e),
        },
{
    let tag: String = match value_member(v, "ty") {
        None => return Err(DecodeError::Malformed),
        Some(x) => match x.as_str() {
            Some(tag) => tag.to_owned(),
            None => return Err(DecodeError::Malformed),
        },
    };
    let entities_tag: String = "entities".to_owned();
    let terrain_tag: String = "terrain".to_owned();
    if tag == entities_tag {
        match value_member(v, "payload") {
            None => Err(DecodeError::Malformed),
            Some(x) => match read_entities(x) {
                Some(entities) => Ok(Message::Entities(entities)),
                None => Err(DecodeError::Malformed),
            },
        }
    } else if tag == terrain_tag {
        match value_member(v, "payload") {
            None => Ok(Message::Terrain(None)),
            Some(x) => if x.is_null() {
                Ok(Message::Terrain(None))
            } else {
                match read_terrain(x) {
                    Some(terrain) => Ok(Message::Terrain(Some(terrain))),
                    None => Err(DecodeError::Malformed),
                }
            },
        }
    } else {
        Err(DecodeError::Malformed)
    }
}

/// Reads a message from the text of a frame.
pub fn decode(text: &str) -> (out: Result<Message, DecodeError>)
    ensures
        match out {
            Ok(message) => decoded(text@) == Ok::<_, DecodeError>(message@),
            Err(e) => decoded(text@) == Err::<MessageView, _>(e),
        },
{
    match parse_value(text) {
        Ok(v) => decode_value(&v),
        Err(_) => Err(DecodeError::Malformed),
    }
}

/// What `decode_layout` yields for a text.
pub open spec fn decoded_layout(text: Seq<char>) -> Result<Seq<AxialPos>, DecodeError> {
    match json_parsed(text) {
        Some(doc) => decoded_layout_document(doc),
        None => Err(DecodeError::Malformed),
    }
}

/// What `read_layout` yields for a document.
pub open spec fn decoded_layout_document(doc: Json) -> Result<Seq<AxialPos>, DecodeError> {
    match layout_of(doc) {
        Some(layout) => Ok(layout),
        None => Err(DecodeError::Malformed),
    }
}

/// Reads the layout of a room from a JSON value.
pub fn read_layout(v: &serde_json::Value) -> (out: Result<TerrainLayout, DecodeError>)
    ensures
        match out {
            Ok(layout) => decoded_layout_document(json_view(*v)) == Ok::<_, DecodeError>(layout@),
            Err(e) => decoded_layout_document(json_view(*v)) == Err::<Seq<AxialPos>, _>(e),
        },
{
    let items = match v.as_array() {
        Some(items) => items,
        None => return Err(DecodeError::Malformed),
    };
    let ghost docs = json_views(items@);
    let mut layout: Vec<AxialPos> = Vec::new();
    let mut i: usize = 0;
    while i < items.len()
        invariant
            0 <= i <= items.len(),
            docs == json_views(items@),
            json_view(*v).as_list() == Some(docs),
            layout@.len() == i,
            forall|k: int| 0 <= k < i ==> axial_of(#[trigger] docs[k]) == Some(layout@[k]),
        decreases items.len() - i,
    {
        match read_axial(&items[i]) {
            Some(pos) => layout.push(pos),
            None => {
                assert(axial_of(docs[i as int]) is None);
                return Err(DecodeError::Malformed);
            },
        }
        i += 1;
    }
    assert(layout@ =~= each_of(docs, |x: Json| axial_of(x)).unwrap());
    Ok(TerrainLayout(layout))
}

/// Reads the layout of a room from the body of the server's answer.
pub fn decode_layout(text: &str) -> (out: Result<TerrainLayout, DecodeError>)
    ensures
        match out {
            Ok(layout) => decoded_layout(text@) == Ok::<_, DecodeError>(layout@),
            Err(e) => decoded_layout(text@) == Err::<Seq<AxialPos>, _>(e),
        },
{
    match parse_value(text) {
        Ok(v) => read_layout(&v),
        Err(_) => Err(DecodeError::Malformed),
    }
}

} // verus!
