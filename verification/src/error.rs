//! Why an incoming message was turned away.

use vstd::prelude::*;

verus! {

/// The reason for which a message was turned away.
#[derive(Clone, Copy, Debug, PartialEq, Eq, Structural)]
pub enum DecodeError {
    /// The text is no JSON document, or the document breaks the schema.
    Malformed,
    /// A terrain payload holds a tile code that stands for no terrain.
    UnknownTerrainCode(i64),
    /// A terrain payload and the room layout differ in length.
    LayoutMismatch { tiles: usize, layout: usize },
}

} // verus!
