//! From the text of a frame to the notice that it gives rise to.

use std::sync::Arc;
use vstd::prelude::*;
use crate::decode::{decode, decoded};
use crate::error::DecodeError;
use crate::events::{notice_view, NewEntities, NewTerrain, NewTerrainView, Notice, NoticeView};
use crate::model::{AxialPos, Message, MessageView};
use crate::terrain_model::{reconstruction, terrain_payload_to_components};

verus! {

/// The notice that a message gives rise to. A snapshot is passed on as it
/// is. A terrain is reconstructed over the layout; where that fails, the
/// message is turned away. A terrain message without terrain gives no
/// notice.
pub open spec fn notice_of(message: MessageView, layout: Seq<AxialPos>) -> Result<
    Option<NoticeView>,
    DecodeError,
> {
    match message {
        MessageView::Entities(entities) => Ok(Some(NoticeView::NewEntities(entities))),
        MessageView::Terrain(None) => Ok(None),
        MessageView::Terrain(Some(terrain)) => match reconstruction(terrain.tiles, layout) {
            Ok(tiles) => Ok(
                Some(
                    NoticeView::NewTerrain(
                        NewTerrainView {
                            room_id: terrain.room_id,
                            offset: terrain.offset,
                            terrain: tiles,
                        },
                    ),
                ),
            ),
            Err(e) => Err(e),
        },
    }
}

/// The notice that the text of a frame gives rise to.
pub open spec fn handled(text: Seq<char>, layout: Seq<AxialPos>) -> Result<
    Option<NoticeView>,
    DecodeError,
> {
    match decoded(text) {
        Ok(message) => notice_of(message, layout),
        Err(e) => Err(e),
    }
}

/// Turns a message into the notice that the rest of the program gets.
pub fn handle_decoded(message: Message, layout: &[AxialPos]) -> (out: Result<
    Option<Notice>,
    DecodeError,
>)
    ensures
        match out {
            Ok(notice) => notice_of(message@, layout@) == Ok::<_, DecodeError>(notice_view(notice)),
            Err(e) => notice_of(message@, layout@) == Err::<Option<NoticeView>, _>(e),
        },
{
    match message {
        Message::Terrain(Some(terrain)) => {
            match terrain_payload_to_components(terrain.tiles.as_slice(), layout) {
                Ok(tiles) => Ok(
                    Some(
                        Notice::NewTerrain(
                            NewTerrain {
                                room_id: terrain.room_id,
                                offset: terrain.offset,
                                terrain: Arc::new(tiles),
                            },
                        ),
                    ),
                ),
                Err(e) => Err(e),
            }
        },
        Message::Terrain(None) => Ok(None),
        Message::Entities(entities) => Ok(Some(Notice::NewEntities(NewEntities(Arc::new(entities))))),
    }
}

/// Reads the text of a frame and turns it into a notice.
pub fn handle_message(txt: &str, layout: &[AxialPos]) -> (out: Result<Option<Notice>, DecodeError>)
    ensures
        match out {
            Ok(notice) => handled(txt@, layout@) == Ok::<_, DecodeError>(notice_view(notice)),
            Err(e) => handled(txt@, layout@) == Err::<Option<NoticeView>, _>(e),
        },
{
    match decode(txt) {
        Ok(message) => handle_decoded(message, layout),
        Err(e) => Err(e),
    }
}

} // verus!
