//! The rules by which a consumer of snapshots tells entities apart and
//! decides when one is gone. The consumer keeps the entities; the rules
//! take what it found and say what to do.

use vstd::prelude::*;
use crate::model::{EntitiesPayload, EntitiesView, EntityPosition, SimEntityId};
use crate::rooms::{is_room_visible, within_range, CurrentRoom, Room};

verus! {

/// The kind of an entity. An identifier that comes back with another kind
/// belongs to another entity.
#[derive(Clone, Copy, Debug, PartialEq, Eq, Hash, Structural)]
pub enum EntityType {
    Bot,
    Structure,
    Resource,
}

/// What a consumer remembers of an entity: its kind, its own handle for it,
/// the server's identifier, and the time of the last snapshot that held it.
#[derive(Clone, Copy, Debug, PartialEq, Eq, Structural)]
pub struct EntityMetadata {
    pub ty: EntityType,
    pub id: u64,
    pub cao_id: SimEntityId,
    pub ts: i64,
}

/// The time of the latest snapshot that was seen.
#[derive(Clone, Copy, Debug, PartialEq, Eq, Structural)]
pub struct LatestTime(pub i64);

impl LatestTime {
    /// Takes note of a snapshot's time. The latest time never goes back.
    pub fn observe(&mut self, time: i64)
        ensures
            final(self).0 == if time > old(self).0 {
                time
            } else {
                old(self).0
            },
            final(self).0 >= old(self).0,
            final(self).0 >= time,
    {
        if time > self.0 {
            self.0 = time;
        }
    }
}

/// For how many ticks an entity is kept after the last snapshot that held it.
pub const ENTITY_KEEP_TICKS: i64 = 3;

/// Whether what is remembered is the entity that a snapshot names: both the
/// identifier and the kind have to agree.
pub open spec fn is_same_entity(known: EntityMetadata, cao_id: SimEntityId, ty: EntityType) -> bool {
    known.cao_id == cao_id && known.ty == ty
}

/// What to do with an entity of a snapshot.
#[derive(Clone, Copy, Debug, PartialEq, Eq, Structural)]
pub enum Reconciled {
    /// The entity is known. Its record is to be replaced by `metadata`, and
    /// those who watch positions are told where `moved` is set.
    Known { metadata: EntityMetadata, moved: bool },
    /// The entity is new: nothing is remembered under its identifier, or
    /// what is remembered is of another kind.
    New,
}

/// What `reconcile` yields.
pub open spec fn reconciled(
    known: Option<(EntityMetadata, EntityPosition)>,
    cao_id: SimEntityId,
    ty: EntityType,
    wp: EntityPosition,
    time: i64,
) -> Reconciled {
    match known {
        Some((metadata, pos)) => if is_same_entity(metadata, cao_id, ty) {
            Reconciled::Known {
                metadata: EntityMetadata { ts: time, ..metadata },
                moved: pos != wp,
            }
        } else {
            Reconciled::New
        },
        None => Reconciled::New,
    }
}

/// Decides whether an entity of a snapshot continues one that is
/// remembered. `known` is what the consumer found under the identifier.
pub fn reconcile(
    known: Option<(EntityMetadata, EntityPosition)>,
    cao_id: SimEntityId,
    ty: EntityType,
    wp: &EntityPosition,
    time: i64,
) -> (out: Reconciled)
    ensures
        out == reconciled(known, cao_id, ty, *wp, time),
{
    match known {
        Some((metadata, pos)) => {
            if metadata.cao_id == cao_id && metadata.ty == ty {
                Reconciled::Known {
                    metadata: EntityMetadata {
                        ty: metadata.ty,
                        id: metadata.id,
                        cao_id: metadata.cao_id,
                        ts: time,
                    },
                    moved: pos != *wp,
                }
            } else {
                Reconciled::New
            }
        },
        None => Reconciled::New,
    }
}

/// Why an entity is let go.
#[derive(Clone, Copy, Debug, PartialEq, Eq, Structural)]
pub enum Despawn {
    /// No snapshot has held it for more than `ENTITY_KEEP_TICKS` ticks.
    Expired,
    /// The server's identifier is no longer remembered.
    Dead,
    /// Its room is out of view.
    OutOfRange,
}

/// What `despawn_reason` yields: the first reason that holds, if any.
pub open spec fn despawn_reason_of(
    latest: LatestTime,
    metadata: EntityMetadata,
    remembered: bool,
    current: CurrentRoom,
    room: Room,
) -> Option<Despawn> {
    if latest.0 - metadata.ts > ENTITY_KEEP_TICKS {
        Some(Despawn::Expired)
    } else if !remembered {
        Some(Despawn::Dead)
    } else if !within_range(current.room_id, room.0, current.range()) {
        Some(Despawn::OutOfRange)
    } else {
        None
    }
}

/// Decides whether an entity is let go, and why. `remembered` says whether
/// the consumer still holds the server's identifier.
pub fn despawn_reason(
    latest: LatestTime,
    metadata: &EntityMetadata,
    remembered: bool,
    current: &CurrentRoom,
    room: &Room,
) -> (out: Option<Despawn>)
    ensures
        out == despawn_reason_of(latest, *metadata, remembered, *current, *room),
{
    let age: i128 = latest.0 as i128 - metadata.ts as i128;
    if age > ENTITY_KEEP_TICKS as i128 {
        Some(Despawn::Expired)
    } else if !remembered {
        Some(Despawn::Dead)
    } else if !is_room_visible(current, room) {
        Some(Despawn::OutOfRange)
    } else {
        None
    }
}

/// An entity as a snapshot shows it: who it is, of what kind, and where.
#[derive(Clone, Debug, PartialEq, Eq, Structural)]
pub struct Sighting {
    pub cao_id: SimEntityId,
    pub ty: EntityType,
    pub pos: EntityPosition,
}

/// The entities of a snapshot in the order in which a consumer takes them
/// up: the structures, then the resources, then the bots.
pub open spec fn sightings_of(snapshot: EntitiesView) -> Seq<Sighting> {
    Seq::new(
        snapshot.structures.len(),
        |i: int|
            Sighting {
                cao_id: SimEntityId(snapshot.structures[i].id),
                ty: EntityType::Structure,
                pos: snapshot.structures[i].pos,
            },
    ) + Seq::new(
        snapshot.resources.len(),
        |i: int|
            Sighting {
                cao_id: SimEntityId(snapshot.resources[i].id),
                ty: EntityType::Resource,
                pos: snapshot.resources[i].pos,
            },
    ) + Seq::new(
        snapshot.bots.len(),
        |i: int|
            Sighting {
                cao_id: SimEntityId(snapshot.bots[i].id),
                ty: EntityType::Bot,
                pos: snapshot.bots[i].pos,
            },
    )
}

/// A copy of a position.
fn same_position(pos: &EntityPosition) -> (out: EntityPosition)
    ensures
        out == *pos,
{
    EntityPosition { room: pos.room, pos: pos.pos, offset: pos.offset }
}

/// Lists the entities of a snapshot in the order in which they are taken up.
pub fn sightings(snapshot: &EntitiesPayload) -> (out: Vec<Sighting>)
    ensures
        out@ == sightings_of(snapshot@),
{
    let ghost view = snapshot@;
    let ghost structures = sightings_of(
        EntitiesView { resources: Seq::empty(), bots: Seq::empty(), ..view },
    );
    let ghost with_resources = sightings_of(EntitiesView { bots: Seq::empty(), ..view });
    let mut out: Vec<Sighting> = Vec::new();
    let mut i: usize = 0;
    while i < snapshot.structures.len()
        invariant
            0 <= i <= snapshot.structures.len(),
            view == snapshot@,
            out@.len() == i,
            forall|k: int|
                0 <= k < i ==> out@[k] == (Sighting {
                    cao_id: SimEntityId(view.structures[k].id),
                    ty: EntityType::Structure,
                    pos: view.structures[k].pos,
                }),
        decreases snapshot.structures.len() - i,
    {
        let structure = &snapshot.structures[i];
        out.push(
            Sighting {
                cao_id: SimEntityId(structure.id),
                ty: EntityType::Structure,
                pos: same_position(&structure.pos),
            },
        );
        i += 1;
    }
    assert(out@ =~= structures);
    let mut j: usize = 0;
    while j < snapshot.resources.len()
        invariant
            0 <= j <= snapshot.resources.len(),
            view == snapshot@,
            out@.len() == structures.len() + j,
            structures.len() == view.structures.len(),
            forall|k: int| 0 <= k < structures.len() ==> out@[k] == structures[k],
            forall|k: int|
                0 <= k < j ==> out@[structures.len() + k] == (Sighting {
                    cao_id: SimEntityId(view.resources[k].id),
                    ty: EntityType::Resource,
                    pos: view.resources[k].pos,
                }),
        decreases snapshot.resources.len() - j,
    {
        let resource = &snapshot.resources[j];
        out.push(
            Sighting {
                cao_id: SimEntityId(resource.id),
                ty: EntityType::Resource,
                pos: same_position(&resource.pos),
            },
        );
        j += 1;
    }
    assert(out@ =~= with_resources);
    let mut k: usize = 0;
    while k < snapshot.bots.len()
        invariant
            0 <= k <= snapshot.bots.len(),
            view == snapshot@,
            out@.len() == with_resources.len() + k,
            with_resources.len() == view.structures.len() + view.resources.len(),
            forall|n: int| 0 <= n < with_resources.len() ==> out@[n] == with_resources[n],
            forall|n: int|
                0 <= n < k ==> out@[with_resources.len() + n] == (Sighting {
                    cao_id: SimEntityId(view.bots[n].id),
                    ty: EntityType::Bot,
                    pos: view.bots[n].pos,
                }),
        decreases snapshot.bots.len() - k,
    {
        let bot = &snapshot.bots[k];
        out.push(
            Sighting {
                cao_id: SimEntityId(bot.id),
                ty: EntityType::Bot,
                pos: same_position(&bot.pos),
            },
        );
        k += 1;
    }
    assert(out@ =~= sightings_of(view));
    out
}

} // verus!
