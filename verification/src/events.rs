//! What the connection hands to the rest of the program: a notice for each
//! successful handshake, each snapshot and each terrain that arrived.

use std::sync::Arc;
use vstd::prelude::*;
use crate::model::{AxialPos, EntitiesPayload, EntitiesView, TerrainTy};

verus! {

/// The snapshot of a room, shared by all who read it.
#[derive(Clone, Debug, PartialEq)]
pub struct NewEntities(pub Arc<EntitiesPayload>);

impl View for NewEntities {
    type V = EntitiesView;

    open spec fn view(&self) -> EntitiesView {
        self.0@
    }
}

/// The view of a terrain notice.
pub struct NewTerrainView {
    pub room_id: AxialPos,
    pub offset: AxialPos,
    pub terrain: Seq<(AxialPos, TerrainTy)>,
}

/// The terrain of a room, tile by tile, shared by all who read it.
#[derive(Clone, Debug, PartialEq)]
pub struct NewTerrain {
    pub room_id: AxialPos,
    pub offset: AxialPos,
    pub terrain: Arc<Vec<(AxialPos, TerrainTy)>>,
}

impl View for NewTerrain {
    type V = NewTerrainView;

    open spec fn view(&self) -> NewTerrainView {
        NewTerrainView { room_id: self.room_id, offset: self.offset, terrain: self.terrain@ }
    }
}

/// The notice that a handshake has succeeded. Those who follow rooms
/// subscribe to them again when they see it.
#[derive(Clone, Copy, Debug, PartialEq, Eq, Structural)]
pub struct Connected;

/// The positions of the tiles of a room, in the order in which the server
/// sends their codes.
#[derive(Clone, Debug, PartialEq)]
pub struct TerrainLayout(pub Vec<AxialPos>);

impl View for TerrainLayout {
    type V = Seq<AxialPos>;

    open spec fn view(&self) -> Seq<AxialPos> {
        self.0@
    }
}

/// The view of a notice.
pub enum NoticeView {
    Connected,
    NewEntities(EntitiesView),
    NewTerrain(NewTerrainView),
}

/// One notice for the rest of the program.
#[derive(Clone, Debug, PartialEq)]
pub enum Notice {
    Connected(Connected),
    NewEntities(NewEntities),
    NewTerrain(NewTerrain),
}

impl View for Notice {
    type V = NoticeView;

    open spec fn view(&self) -> NoticeView {
        match self {
            Notice::Connected(_) => NoticeView::Connected,
            Notice::NewEntities(entities) => NoticeView::NewEntities(entities@),
            Notice::NewTerrain(terrain) => NoticeView::NewTerrain(terrain@),
        }
    }
}

/// The view of a notice that may be none.
pub open spec fn notice_view(notice: Option<Notice>) -> Option<NoticeView> {
    match notice {
        Some(n) => Some(n@),
        None => None,
    }
}

} // verus!
