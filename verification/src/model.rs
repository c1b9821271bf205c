//! The wire model of the simulation protocol: hex coordinates, entity
//! snapshots and terrain payloads, each with its mathematical view.

use vstd::prelude::*;

verus! {

/// An axial hex coordinate. Rooms and the tiles inside a room are both
/// addressed by one.
#[derive(Clone, Copy, Debug, PartialEq, Eq, Hash, Structural)]
pub struct AxialPos {
    pub q: i32,
    pub r: i32,
}

impl AxialPos {
    /// The origin, which the server leaves out of its messages.
    pub open spec fn origin() -> AxialPos {
        AxialPos { q: 0, r: 0 }
    }

    /// The text `[q, r]` for logs and for the user interface.
    pub fn to_text(&self) -> (out: String)
        ensures
            out@ == axial_text(self.q, self.r),
    {
        format_axial(self.q, self.r)
    }
}

impl Default for AxialPos {
    fn default() -> (out: Self)
        ensures
            out == AxialPos::origin(),
    {
        AxialPos { q: 0, r: 0 }
    }
}

/// The character of a decimal digit.
pub open spec fn digit_char(d: int) -> char {
    seq!['0', '1', '2', '3', '4', '5', '6', '7', '8', '9'][d]
}

/// The decimal digits of a natural number, without leading zeros.
pub open spec fn decimal_digits(n: nat) -> Seq<char>
    decreases n,
{
    if n < 10 {
        seq![digit_char(n as int)]
    } else {
        decimal_digits(n / 10).push(digit_char((n % 10) as int))
    }
}

/// An integer in decimal, with a minus sign where it is negative.
pub open spec fn decimal(n: int) -> Seq<char> {
    if n < 0 {
        seq!['-'] + decimal_digits((-n) as nat)
    } else {
        decimal_digits(n as nat)
    }
}

/// The text `[q, r]`.
pub open spec fn axial_text(q: i32, r: i32) -> Seq<char> {
    seq!['['] + decimal(q as int) + seq![',', ' '] + decimal(r as int) + seq![']']
}

/// `format!` with the pattern `[{}, {}]` and two `i32`: each number is
/// written in decimal, as `Display` of `i32` does.
#[verifier::external_body]
fn format_axial(q: i32, r: i32) -> (out: String)
    ensures
        out@ == axial_text(q, r),
{
    format!("[{}, {}]", q, r)
}

/// Where an entity stands: its room, its tile inside the room, and the offset
/// of the room's origin in world coordinates.
#[derive(Clone, Debug, PartialEq, Eq, Hash, Structural)]
pub struct EntityPosition {
    pub room: AxialPos,
    pub pos: AxialPos,
    pub offset: AxialPos,
}

impl EntityPosition {
    /// The position with every coordinate zero.
    pub open spec fn origin() -> EntityPosition {
        EntityPosition { room: AxialPos::origin(), pos: AxialPos::origin(), offset: AxialPos::origin() }
    }

    /// Whether the world coordinate of this position fits the coordinate type.
    pub open spec fn in_world(&self) -> bool {
        &&& i32::MIN <= self.pos.q + self.offset.q <= i32::MAX
        &&& i32::MIN <= self.pos.r + self.offset.r <= i32::MAX
    }

    /// The world coordinate: tile position plus room offset, per axis.
    pub open spec fn spec_absolute_axial(&self) -> AxialPos
        recommends
            self.in_world(),
    {
        AxialPos { q: (self.pos.q + self.offset.q) as i32, r: (self.pos.r + self.offset.r) as i32 }
    }

    /// The world coordinate: tile position plus room offset, per axis.
    pub fn absolute_axial(&self) -> (out: AxialPos)
        requires
            self.in_world(),
        ensures
            out == self.spec_absolute_axial(),
            out.q == self.pos.q + self.offset.q,
            out.r == self.pos.r + self.offset.r,
    {
        AxialPos { q: self.pos.q + self.offset.q, r: self.pos.r + self.offset.r }
    }

    /// The world coordinate, or `None` where a sum leaves the coordinate type.
    pub fn checked_absolute_axial(&self) -> (out: Option<AxialPos>)
        ensures
            self.in_world() ==> out == Some(self.spec_absolute_axial()),
            !self.in_world() ==> out is None,
    {
        match (self.pos.q.checked_add(self.offset.q), self.pos.r.checked_add(self.offset.r)) {
            (Some(q), Some(r)) => Some(AxialPos { q, r }),
            _ => None,
        }
    }
}

impl Default for EntityPosition {
    fn default() -> (out: Self)
        ensures
            out == EntityPosition::origin(),
    {
        EntityPosition {
            room: AxialPos { q: 0, r: 0 },
            pos: AxialPos { q: 0, r: 0 },
            offset: AxialPos { q: 0, r: 0 },
        }
    }
}

/// The identifier that the server gives an entity. It is stable while the
/// entity lives, and may be handed out again after the entity has died.
#[derive(Clone, Copy, Debug, PartialEq, Eq, Hash, Structural)]
pub struct SimEntityId(pub u64);

/// The query of the room layout request.
#[derive(Clone, Copy, Debug, PartialEq, Eq, Structural)]
pub struct GetLayoutQuery {
    pub radius: i32,
}

/// A quantity together with its upper limit.
#[derive(Clone, Debug, PartialEq, Eq, Structural)]
pub struct BoundedValue {
    pub value: i64,
    pub value_max: i64,
}

impl BoundedValue {
    /// Nothing of nothing.
    pub open spec fn zero() -> BoundedValue {
        BoundedValue { value: 0, value_max: 0 }
    }
}

impl Default for BoundedValue {
    fn default() -> (out: Self)
        ensures
            out == BoundedValue::zero(),
    {
        BoundedValue { value: 0, value_max: 0 }
    }
}

/// How a bot loses health over time.
#[derive(Clone, Debug, PartialEq, Eq, Structural)]
pub struct Decay {
    pub hp_amount: i64,
    pub interval: i64,
    pub time_remaining: i64,
}

impl Decay {
    /// No decay.
    pub open spec fn zero() -> Decay {
        Decay { hp_amount: 0, interval: 0, time_remaining: 0 }
    }
}

impl Default for Decay {
    fn default() -> (out: Self)
        ensures
            out == Decay::zero(),
    {
        Decay { hp_amount: 0, interval: 0, time_remaining: 0 }
    }
}

/// The intent of a bot to mine the entity `target_id`.
#[derive(Clone, Debug, PartialEq, Eq, Structural)]
pub struct MineIntent {
    pub target_id: u64,
}

impl Default for MineIntent {
    fn default() -> (out: Self)
        ensures
            out == (MineIntent { target_id: 0 }),
    {
        MineIntent { target_id: 0 }
    }
}

/// The intent of a bot to drop off what it carries at the entity `target_id`.
#[derive(Clone, Debug, PartialEq, Eq, Structural)]
pub struct DropoffIntent {
    pub target_id: u64,
}

impl Default for DropoffIntent {
    fn default() -> (out: Self)
        ensures
            out == (DropoffIntent { target_id: 0 }),
    {
        DropoffIntent { target_id: 0 }
    }
}

/// The name of the script a bot runs. Its view is the text.
#[derive(Clone, Debug, PartialEq, Eq)]
pub struct Script {
    pub data: String,
}

impl View for Script {
    type V = Seq<char>;

    open spec fn view(&self) -> Seq<char> {
        self.data@
    }
}

impl Default for Script {
    fn default() -> (out: Self)
        ensures
            out@ == Seq::<char>::empty(),
    {
        Script { data: String::new() }
    }
}

/// The account an entity belongs to. Its view is the text.
#[derive(Clone, Debug, PartialEq, Eq)]
pub struct Owner {
    pub data: String,
}

impl View for Owner {
    type V = Seq<char>;

    open spec fn view(&self) -> Seq<char> {
        self.data@
    }
}

impl Default for Owner {
    fn default() -> (out: Self)
        ensures
            out@ == Seq::<char>::empty(),
    {
        Owner { data: String::new() }
    }
}

/// The view of an optional text.
pub open spec fn text_view(text: Option<String>) -> Option<Seq<char>> {
    match text {
        Some(t) => Some(t@),
        None => None,
    }
}

/// The view of an optional script.
pub open spec fn script_view(script: Option<Script>) -> Option<Seq<char>> {
    match script {
        Some(s) => Some(s@),
        None => None,
    }
}

/// The view of an optional owner.
pub open spec fn owner_view(owner: Option<Owner>) -> Option<Seq<char>> {
    match owner {
        Some(o) => Some(o@),
        None => None,
    }
}

/// The view of a bot.
pub struct BotView {
    pub id: u64,
    pub pos: EntityPosition,
    pub carry: Option<BoundedValue>,
    pub hp: Option<BoundedValue>,
    pub script: Option<Seq<char>>,
    pub owner: Option<Seq<char>>,
    pub decay: Option<Decay>,
    pub logs: Option<Seq<char>>,
    pub say: Option<Seq<char>>,
    pub mine_intent: Option<MineIntent>,
    pub dropoff_intent: Option<DropoffIntent>,
}

/// A bot of a snapshot.
#[derive(Clone, Debug, PartialEq)]
pub struct Bot {
    pub id: u64,
    pub pos: EntityPosition,
    pub carry: Option<BoundedValue>,
    pub hp: Option<BoundedValue>,
    pub script: Option<Script>,
    pub owner: Option<Owner>,
    pub decay: Option<Decay>,
    pub logs: Option<String>,
    pub say: Option<String>,
    pub mine_intent: Option<MineIntent>,
    pub dropoff_intent: Option<DropoffIntent>,
}

impl View for Bot {
    type V = BotView;

    open spec fn view(&self) -> BotView {
        BotView {
            id: self.id,
            pos: self.pos,
            carry: self.carry,
            hp: self.hp,
            script: script_view(self.script),
            owner: owner_view(self.owner),
            decay: self.decay,
            logs: text_view(self.logs),
            say: text_view(self.say),
            mine_intent: self.mine_intent,
            dropoff_intent: self.dropoff_intent,
        }
    }
}

impl BotView {
    /// The bot of which the server has said nothing.
    pub open spec fn blank() -> BotView {
        BotView {
            id: 0,
            pos: EntityPosition::origin(),
            carry: None,
            hp: None,
            script: None,
            owner: None,
            decay: None,
            logs: None,
            say: None,
            mine_intent: None,
            dropoff_intent: None,
        }
    }
}

impl Default for Bot {
    fn default() -> (out: Self)
        ensures
            out@ == BotView::blank(),
    {
        Bot {
            id: 0,
            pos: EntityPosition::default(),
            carry: None,
            hp: None,
            script: None,
            owner: None,
            decay: None,
            logs: None,
            say: None,
            mine_intent: None,
            dropoff_intent: None,
        }
    }
}

/// The view of a spawn.
pub struct SpawnView {
    pub time_to_spawn: i64,
    pub spawning: u64,
    pub spawn_queue: Seq<u64>,
}

/// What belongs to a structure that spawns bots.
#[derive(Clone, Debug, PartialEq)]
pub struct Spawn {
    pub time_to_spawn: i64,
    pub spawning: u64,
    pub spawn_queue: Vec<u64>,
}

impl View for Spawn {
    type V = SpawnView;

    open spec fn view(&self) -> SpawnView {
        SpawnView {
            time_to_spawn: self.time_to_spawn,
            spawning: self.spawning,
            spawn_queue: self.spawn_queue@,
        }
    }
}

impl SpawnView {
    /// The spawn that spawns nothing and has nothing queued.
    pub open spec fn idle() -> SpawnView {
        SpawnView { time_to_spawn: 0, spawning: 0, spawn_queue: Seq::empty() }
    }
}

impl Default for Spawn {
    fn default() -> (out: Self)
        ensures
            out@ == SpawnView::idle(),
    {
        Spawn { time_to_spawn: 0, spawning: 0, spawn_queue: Vec::new() }
    }
}

/// The view of the kind of a structure.
pub enum StructureTypeView {
    Spawn(SpawnView),
}

/// The kind of a structure, with what belongs to it.
#[derive(Clone, Debug, PartialEq)]
pub enum StructureType {
    Spawn(Spawn),
}

impl View for StructureType {
    type V = StructureTypeView;

    open spec fn view(&self) -> StructureTypeView {
        match self {
            StructureType::Spawn(s) => StructureTypeView::Spawn(s@),
        }
    }
}

/// The view of a structure.
pub struct StructureView {
    pub id: u64,
    pub pos: EntityPosition,
    pub hp: BoundedValue,
    pub energy: Option<BoundedValue>,
    pub energy_regen: Option<i64>,
    pub owner: Option<Seq<char>>,
    pub structure_type: StructureTypeView,
}

/// A structure of a snapshot.
#[derive(Clone, Debug, PartialEq)]
pub struct Structure {
    pub id: u64,
    pub pos: EntityPosition,
    pub hp: BoundedValue,
    pub energy: Option<BoundedValue>,
    pub energy_regen: Option<i64>,
    pub owner: Option<Owner>,
    pub structure_type: StructureType,
}

impl View for Structure {
    type V = StructureView;

    open spec fn view(&self) -> StructureView {
        StructureView {
            id: self.id,
            pos: self.pos,
            hp: self.hp,
            energy: self.energy,
            energy_regen: self.energy_regen,
            owner: owner_view(self.owner),
            structure_type: self.structure_type@,
        }
    }
}

/// The kind of a resource: energy, with its amount.
#[derive(Clone, Debug, PartialEq, Eq, Structural)]
pub struct ResourceType {
    pub energy: BoundedValue,
}

impl ResourceType {
    /// Energy of amount zero.
    pub open spec fn empty() -> ResourceType {
        ResourceType { energy: BoundedValue::zero() }
    }
}

impl Default for ResourceType {
    fn default() -> (out: Self)
        ensures
            out == ResourceType::empty(),
    {
        ResourceType { energy: BoundedValue { value: 0, value_max: 0 } }
    }
}

/// A resource of a snapshot.
#[derive(Clone, Debug, PartialEq, Eq, Structural)]
pub struct Resource {
    pub id: u64,
    pub pos: EntityPosition,
    pub resource_type: ResourceType,
}

impl Resource {
    /// The resource of which the server has said nothing.
    pub open spec fn blank() -> Resource {
        Resource { id: 0, pos: EntityPosition::origin(), resource_type: ResourceType::empty() }
    }
}

impl Default for Resource {
    fn default() -> (out: Self)
        ensures
            out == Resource::blank(),
    {
        Resource { id: 0, pos: EntityPosition::default(), resource_type: ResourceType::default() }
    }
}

/// The view of a snapshot.
pub struct EntitiesView {
    pub time: i64,
    pub room_id: AxialPos,
    pub bots: Seq<BotView>,
    pub structures: Seq<StructureView>,
    pub resources: Seq<Resource>,
}

/// The full snapshot of one room at one tick of the simulation.
#[derive(Clone, Debug, PartialEq)]
pub struct EntitiesPayload {
    pub time: i64,
    pub room_id: AxialPos,
    pub bots: Vec<Bot>,
    pub structures: Vec<Structure>,
    pub resources: Vec<Resource>,
}

impl View for EntitiesPayload {
    type V = EntitiesView;

    open spec fn view(&self) -> EntitiesView {
        EntitiesView {
            time: self.time,
            room_id: self.room_id,
            bots: Seq::new(self.bots@.len(), |i: int| self.bots@[i]@),
            structures: Seq::new(self.structures@.len(), |i: int| self.structures@[i]@),
            resources: self.resources@,
        }
    }
}

impl EntitiesView {
    /// The snapshot of time zero without entities.
    pub open spec fn blank() -> EntitiesView {
        EntitiesView {
            time: 0,
            room_id: AxialPos::origin(),
            bots: Seq::empty(),
            structures: Seq::empty(),
            resources: Seq::empty(),
        }
    }
}

impl Default for EntitiesPayload {
    fn default() -> (out: Self)
        ensures
            out@ == EntitiesView::blank(),
    {
        let out = EntitiesPayload {
            time: 0,
            room_id: AxialPos::default(),
            bots: Vec::new(),
            structures: Vec::new(),
            resources: Vec::new(),
        };
        proof {
            assert(out@.bots =~= Seq::empty());
            assert(out@.structures =~= Seq::empty());
        }
        out
    }
}

/// The kind of a terrain tile.
#[derive(Clone, Copy, Debug, PartialEq, Eq, Structural)]
pub enum TerrainTy {
    Empty,
    Plain,
    Wall,
    Bridge,
}

/// The view of a terrain payload.
pub struct TerrainPayloadView {
    pub room_id: AxialPos,
    pub offset: AxialPos,
    pub tiles: Seq<i64>,
}

/// The terrain of one room as the server sends it: one tile code for each
/// position of the room layout, in the layout's order.
#[derive(Clone, Debug, PartialEq)]
pub struct TerrainPayload {
    pub room_id: AxialPos,
    pub offset: AxialPos,
    pub tiles: Vec<i64>,
}

impl View for TerrainPayload {
    type V = TerrainPayloadView;

    open spec fn view(&self) -> TerrainPayloadView {
        TerrainPayloadView { room_id: self.room_id, offset: self.offset, tiles: self.tiles@ }
    }
}

impl Default for TerrainPayload {
    fn default() -> (out: Self)
        ensures
            out@ == (TerrainPayloadView {
                room_id: AxialPos::origin(),
                offset: AxialPos::origin(),
                tiles: Seq::empty(),
            }),
    {
        TerrainPayload { room_id: AxialPos::default(), offset: AxialPos::default(), tiles: Vec::new() }
    }
}

/// The view of a message.
pub enum MessageView {
    Entities(EntitiesView),
    Terrain(Option<TerrainPayloadView>),
}

/// A message of the server. `Terrain(None)` says that the server has no
/// terrain for the room that was asked for.
#[derive(Clone, Debug, PartialEq)]
pub enum Message {
    Entities(EntitiesPayload),
    Terrain(Option<TerrainPayload>),
}

impl View for Message {
    type V = MessageView;

    open spec fn view(&self) -> MessageView {
        match self {
            Message::Entities(e) => MessageView::Entities(e@),
            Message::Terrain(Some(t)) => MessageView::Terrain(Some(t@)),
            Message::Terrain(None) => MessageView::Terrain(None),
        }
    }
}

} // verus!
