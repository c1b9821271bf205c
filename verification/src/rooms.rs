//! The rooms that a client follows: the room it looks at and the six rooms
//! around it.

use vstd::prelude::*;
use crate::model::AxialPos;

verus! {

/// The room that the client looks at, and how far around it rooms are shown.
#[derive(Clone, Copy, Debug, PartialEq, Eq, Structural)]
pub struct CurrentRoom {
    pub room_id: AxialPos,
    pub visible_range: u32,
}

impl CurrentRoom {
    /// The range as it is read: as a signed number of 32 bits. Up to
    /// `i32::MAX` that is `visible_range` itself; a larger `visible_range`
    /// reads as `visible_range - 2^32`, which is negative, so that no room
    /// is within it.
    pub open spec fn range(&self) -> int {
        if self.visible_range <= i32::MAX {
            self.visible_range as int
        } else {
            self.visible_range - 0x1_0000_0000
        }
    }
}

/// The wish to look at another room.
#[derive(Clone, Copy, Debug, PartialEq, Eq, Structural)]
pub struct NewCurrentRoom(pub AxialPos);

/// A room, by its coordinate.
#[derive(Clone, Copy, Debug, PartialEq, Eq, Structural)]
pub struct Room(pub AxialPos);

/// Whether the rooms around a room can be named: each coordinate has a
/// number below it and one above.
pub open spec fn has_neighbours(axial: AxialPos) -> bool {
    &&& i32::MIN < axial.q < i32::MAX
    &&& i32::MIN < axial.r < i32::MAX
}

/// The six rooms around a room, clockwise from the one at `q + 1`.
pub open spec fn neighbours(axial: AxialPos) -> Seq<AxialPos> {
    seq![
        AxialPos { q: (axial.q + 1) as i32, r: axial.r },
        AxialPos { q: (axial.q + 1) as i32, r: (axial.r - 1) as i32 },
        AxialPos { q: axial.q, r: (axial.r - 1) as i32 },
        AxialPos { q: (axial.q - 1) as i32, r: axial.r },
        AxialPos { q: (axial.q - 1) as i32, r: (axial.r + 1) as i32 },
        AxialPos { q: axial.q, r: (axial.r + 1) as i32 },
    ]
}

/// Whether the rooms around a room can be named.
pub fn has_neighbours_at(axial: AxialPos) -> (out: bool)
    ensures
        out == has_neighbours(axial),
{
    i32::MIN < axial.q && axial.q < i32::MAX && i32::MIN < axial.r && axial.r < i32::MAX
}

/// The six rooms around a room, clockwise from the one at `q + 1`.
pub fn room_neighbours(axial: AxialPos) -> (out: [AxialPos; 6])
    requires
        has_neighbours(axial),
    ensures
        out@ == neighbours(axial),
{
    let q = axial.q;
    let r = axial.r;
    let out = [
        AxialPos { q: q + 1, r },
        AxialPos { q: q + 1, r: r - 1 },
        AxialPos { q, r: r - 1 },
        AxialPos { q: q - 1, r },
        AxialPos { q: q - 1, r: r + 1 },
        AxialPos { q, r: r + 1 },
    ];
    assert(out@ =~= neighbours(axial));
    out
}

/// The absolute value of an integer.
pub open spec fn magnitude(n: int) -> int {
    if n < 0 {
        -n
    } else {
        n
    }
}

/// Whether a room lies within `range` steps of another on the hex grid:
/// neither coordinate nor their sum differs by more. The differences are
/// those of the integers, whatever the coordinates are.
pub open spec fn within_range(from: AxialPos, to: AxialPos, range: int) -> bool {
    let dq = from.q - to.q;
    let dr = from.r - to.r;
    magnitude(dq) <= range && magnitude(dr) <= range && magnitude(dq + dr) <= range
}

/// Whether a room is shown while the client looks at `current`: whether it
/// lies within the range of the current room, the range read as a signed
/// number of 32 bits.
pub fn is_room_visible(current: &CurrentRoom, room_id: &Room) -> (out: bool)
    ensures
        out == within_range(current.room_id, room_id.0, current.range()),
{
    let dq: i64 = current.room_id.q as i64 - room_id.0.q as i64;
    let dr: i64 = current.room_id.r as i64 - room_id.0.r as i64;
    let range: i64 = if current.visible_range <= 2147483647 {
        current.visible_range as i64
    } else {
        current.visible_range as i64 - 4294967296
    };
    let sum: i64 = dq + dr;
    -range <= dq && dq <= range && -range <= dr && dr <= range && -range <= sum && sum <= range
}

/// The rooms that a client follows while it looks at `room`: the room
/// itself, then the six around it.
pub open spec fn followed(room: AxialPos) -> Seq<AxialPos> {
    seq![room] + neighbours(room)
}

/// The rooms of `rooms` that are not among `others`, in their order.
pub open spec fn only_in(rooms: Seq<AxialPos>, others: Seq<AxialPos>) -> Seq<AxialPos>
    decreases rooms.len(),
{
    if rooms.len() == 0 {
        rooms
    } else if others.contains(rooms.last()) {
        only_in(rooms.drop_last(), others)
    } else {
        only_in(rooms.drop_last(), others).push(rooms.last())
    }
}

/// A room is in `only_in(rooms, others)` exactly if it is in `rooms` and not
/// in `others`.
pub proof fn lemma_only_in(rooms: Seq<AxialPos>, others: Seq<AxialPos>, room: AxialPos)
    ensures
        only_in(rooms, others).contains(room) <==> rooms.contains(room) && !others.contains(room),
    decreases rooms.len(),
{
    if rooms.len() > 0 {
        let front = rooms.drop_last();
        lemma_only_in(front, others, room);
        let kept = only_in(front, others);
        if rooms.contains(room) {
            let i = choose|i: int| 0 <= i < rooms.len() && rooms[i] == room;
            if i < rooms.len() - 1 {
                assert(front[i] == room);
            }
        }
        if front.contains(room) {
            let i = choose|i: int| 0 <= i < front.len() && front[i] == room;
            assert(rooms[i] == room);
        }
        assert(rooms[rooms.len() - 1] == rooms.last());
        if !others.contains(rooms.last()) {
            let all = kept.push(rooms.last());
            assert(all[all.len() - 1] == rooms.last());
            if kept.contains(room) {
                let i = choose|i: int| 0 <= i < kept.len() && kept[i] == room;
                assert(all[i] == room);
            }
            if all.contains(room) {
                let i = choose|i: int| 0 <= i < all.len() && all[i] == room;
                if i < kept.len() {
                    assert(kept[i] == room);
                }
            }
        }
    }
}

/// What is kept of rooms that do not repeat does not repeat either.
pub proof fn lemma_only_in_keeps_distinct(rooms: Seq<AxialPos>, others: Seq<AxialPos>)
    requires
        rooms.no_duplicates(),
    ensures
        only_in(rooms, others).no_duplicates(),
    decreases rooms.len(),
{
    if rooms.len() > 0 {
        let front = rooms.drop_last();
        assert(front.no_duplicates()) by {
            assert forall|i: int, j: int| 0 <= i < front.len() && 0 <= j < front.len() && i != j
                implies front[i] != front[j] by {
                assert(rooms[i] != rooms[j]);
            }
        }
        lemma_only_in_keeps_distinct(front, others);
        if !others.contains(rooms.last()) {
            let kept = only_in(front, others);
            lemma_only_in(front, others, rooms.last());
            assert(!front.contains(rooms.last())) by {
                if front.contains(rooms.last()) {
                    let i = choose|i: int| 0 <= i < front.len() && front[i] == rooms.last();
                    assert(rooms[i] == rooms[rooms.len() - 1]);
                }
            }
            assert(!kept.contains(rooms.last()));
            let all = kept.push(rooms.last());
            assert forall|i: int, j: int| 0 <= i < all.len() && 0 <= j < all.len() && i != j
                implies all[i] != all[j] by {
                if i < kept.len() && j < kept.len() {
                    assert(kept[i] != kept[j]);
                } else if i < kept.len() {
                    assert(kept.contains(kept[i]));
                } else {
                    assert(kept.contains(kept[j]));
                }
            }
        }
    }
}

/// A room and the six rooms around it are seven different rooms.
pub proof fn lemma_followed_distinct(room: AxialPos)
    requires
        has_neighbours(room),
    ensures
        followed(room).no_duplicates(),
        followed(room).len() == 7,
{
    let rooms = followed(room);
    assert(rooms.len() == 7);
    assert(rooms[0] == room);
    assert(rooms[1] == neighbours(room)[0]);
    assert(rooms[2] == neighbours(room)[1]);
    assert(rooms[3] == neighbours(room)[2]);
    assert(rooms[4] == neighbours(room)[3]);
    assert(rooms[5] == neighbours(room)[4]);
    assert(rooms[6] == neighbours(room)[5]);
}

/// Whether `room` is one of `rooms`.
pub fn has_room(rooms: &[AxialPos], room: AxialPos) -> (out: bool)
    ensures
        out == rooms@.contains(room),
{
    let mut i: usize = 0;
    while i < rooms.len()
        invariant
            0 <= i <= rooms.len(),
            forall|k: int| 0 <= k < i ==> rooms@[k] != room,
        decreases rooms.len() - i,
    {
        if rooms[i] == room {
            return true;
        }
        i += 1;
    }
    false
}

/// The rooms to follow while the client looks at `room`.
pub fn followed_rooms(room: AxialPos) -> (out: Vec<AxialPos>)
    requires
        has_neighbours(room),
    ensures
        out@ == followed(room),
        out@.no_duplicates(),
{
    proof {
        lemma_followed_distinct(room);
    }
    let around = room_neighbours(room);
    let mut out: Vec<AxialPos> = Vec::new();
    out.push(room);
    let mut i: usize = 0;
    while i < 6
        invariant
            0 <= i <= 6,
            around@ == neighbours(room),
            out@ == seq![room] + neighbours(room).take(i as int),
        decreases 6 - i,
    {
        out.push(around[i]);
        assert(neighbours(room).take(i as int + 1) =~= neighbours(room).take(i as int).push(
            neighbours(room)[i as int],
        ));
        assert(out@ =~= seq![room] + neighbours(room).take(i as int + 1));
        i += 1;
    }
    assert(neighbours(room).take(6) =~= neighbours(room));
    out
}

/// The rooms of `rooms` that are not among `others`, in their order.
pub fn rooms_only_in(rooms: &[AxialPos], others: &[AxialPos]) -> (out: Vec<AxialPos>)
    ensures
        out@ == only_in(rooms@, others@),
        rooms@.no_duplicates() ==> out@.no_duplicates(),
{
    proof {
        if rooms@.no_duplicates() {
            lemma_only_in_keeps_distinct(rooms@, others@);
        }
    }
    let mut out: Vec<AxialPos> = Vec::new();
    let mut i: usize = 0;
    while i < rooms.len()
        invariant
            0 <= i <= rooms.len(),
            out@ == only_in(rooms@.take(i as int), others@),
        decreases rooms.len() - i,
    {
        let ghost upto = rooms@.take(i as int + 1);
        assert(upto.drop_last() =~= rooms@.take(i as int));
        assert(upto.last() == rooms@[i as int]);
        if !has_room(others, rooms[i]) {
            out.push(rooms[i]);
        }
        i += 1;
    }
    assert(rooms@.take(i as int) =~= rooms@);
    out
}

/// What changes when the client turns from one room to another. Each list
/// stands for a set: no room occurs twice in it.
#[derive(Clone, Debug, PartialEq, Eq)]
pub struct RoomChange {
    /// The rooms that come into view, to subscribe to.
    pub subscribe: Vec<AxialPos>,
    /// The rooms that go out of view, to unsubscribe from.
    pub unsubscribe: Vec<AxialPos>,
}

/// The subscriptions to make and to end when the client turns from
/// `current` to `next`: the rooms followed at `next` and not at `current`,
/// and the other way round.
pub fn room_change(current: AxialPos, next: AxialPos) -> (out: RoomChange)
    requires
        has_neighbours(current),
        has_neighbours(next),
    ensures
        out.subscribe@ == only_in(followed(next), followed(current)),
        out.unsubscribe@ == only_in(followed(current), followed(next)),
        out.subscribe@.no_duplicates(),
        out.unsubscribe@.no_duplicates(),
{
    let before = followed_rooms(current);
    let after = followed_rooms(next);
    RoomChange {
        subscribe: rooms_only_in(after.as_slice(), before.as_slice()),
        unsubscribe: rooms_only_in(before.as_slice(), after.as_slice()),
    }
}

} // verus!
