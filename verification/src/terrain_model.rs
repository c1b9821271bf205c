//! Reconstruction of a room's terrain from the tile codes of a payload and
//! the room layout.

use vstd::prelude::*;
use crate::error::DecodeError;
use crate::model::{AxialPos, TerrainTy};

verus! {

/// The terrain that a tile code stands for.
pub open spec fn terrain_of_code(code: i64) -> Option<TerrainTy> {
    if code == 0 {
        Some(TerrainTy::Empty)
    } else if code == 1 {
        Some(TerrainTy::Plain)
    } else if code == 2 {
        Some(TerrainTy::Wall)
    } else if code == 3 {
        Some(TerrainTy::Bridge)
    } else {
        None
    }
}

/// The first code of the sequence that stands for no terrain.
pub open spec fn first_unknown_code(codes: Seq<i64>) -> Option<i64>
    decreases codes.len(),
{
    if codes.len() == 0 {
        None
    } else if terrain_of_code(codes[0]) is None {
        Some(codes[0])
    } else {
        first_unknown_code(codes.drop_first())
    }
}

/// The tiles of a room: the layout's positions in the layout's order, each
/// with the terrain of the code at the same index.
pub open spec fn tiles_of(codes: Seq<i64>, layout: Seq<AxialPos>) -> Seq<(AxialPos, TerrainTy)> {
    Seq::new(layout.len(), |i: int| (layout[i], terrain_of_code(codes[i]).unwrap()))
}

/// What reconstruction yields. A difference in length is reported before any
/// code is looked at; after that the first unknown code is reported.
pub open spec fn reconstruction(codes: Seq<i64>, layout: Seq<AxialPos>) -> Result<
    Seq<(AxialPos, TerrainTy)>,
    DecodeError,
> {
    if codes.len() != layout.len() {
        Err(DecodeError::LayoutMismatch { tiles: codes.len() as usize, layout: layout.len() as usize })
    } else {
        match first_unknown_code(codes) {
            Some(code) => Err(DecodeError::UnknownTerrainCode(code)),
            None => Ok(tiles_of(codes, layout)),
        }
    }
}

/// Every code before `n` is known exactly if the first `n` codes hold no unknown one.
pub proof fn lemma_known_prefix(codes: Seq<i64>, n: int)
    requires
        0 <= n <= codes.len(),
        forall|j: int| 0 <= j < n ==> (#[trigger] terrain_of_code(codes[j])) is Some,
    ensures
        first_unknown_code(codes.take(n)) is None,
        n < codes.len() && terrain_of_code(codes[n]) is None ==> first_unknown_code(codes) == Some(
            codes[n],
        ),
    decreases n,
{
    if n == 0 {
        assert(codes.take(0).len() == 0);
    } else {
        let rest = codes.drop_first();
        assert forall|j: int| 0 <= j < n - 1 implies (#[trigger] terrain_of_code(rest[j])) is Some by {
            assert(rest[j] == codes[j + 1]);
        }
        lemma_known_prefix(rest, n - 1);
        assert(codes.take(n).drop_first() =~= rest.take(n - 1));
        assert(codes.take(n)[0] == codes[0]);
        if n < codes.len() {
            assert(rest[n - 1] == codes[n]);
        }
    }
}

impl TryFrom<i64> for TerrainTy {
    type Error = i64;

    /// The terrain of a tile code; an unknown code comes back as the error.
    fn try_from(val: i64) -> (out: Result<TerrainTy, i64>)
        ensures
            match out {
                Ok(ty) => terrain_of_code(val) == Some(ty),
                Err(code) => code == val && terrain_of_code(val) is None,
            },
    {
        match val {
            0 => Ok(TerrainTy::Empty),
            1 => Ok(TerrainTy::Plain),
            2 => Ok(TerrainTy::Wall),
            3 => Ok(TerrainTy::Bridge),
            _ => Err(val),
        }
    }
}

impl vstd::std_specs::convert::TryFromSpecImpl<i64> for TerrainTy {
    open spec fn obeys_try_from_spec() -> bool {
        true
    }

    open spec fn try_from_spec(v: i64) -> Result<TerrainTy, i64> {
        match terrain_of_code(v) {
            Some(ty) => Ok(ty),
            None => Err(v),
        }
    }
}

/// Pairs each position of the layout with the terrain of the code at the same
/// index.
pub fn terrain_payload_to_components(input: &[i64], layout: &[AxialPos]) -> (out: Result<
    Vec<(AxialPos, TerrainTy)>,
    DecodeError,
>)
    ensures
        match out {
            Ok(tiles) => reconstruction(input@, layout@) == Ok::<_, DecodeError>(tiles@),
            Err(e) => reconstruction(input@, layout@) == Err::<Seq<(AxialPos, TerrainTy)>, _>(e),
        },
{
    if input.len() != layout.len() {
        return Err(DecodeError::LayoutMismatch { tiles: input.len(), layout: layout.len() });
    }
    let mut tiles: Vec<(AxialPos, TerrainTy)> = Vec::new();
    let mut i: usize = 0;
    while i < layout.len()
        invariant
            0 <= i <= layout.len(),
            input@.len() == layout@.len(),
            tiles@.len() == i,
            forall|j: int| 0 <= j < i ==> (#[trigger] terrain_of_code(input@[j])) is Some,
            forall|j: int|
                0 <= j < i ==> tiles@[j] == (layout@[j], terrain_of_code(input@[j]).unwrap()),
        decreases layout.len() - i,
    {
        match TerrainTy::try_from(input[i]) {
            Ok(ty) => {
                tiles.push((layout[i], ty));
            },
            Err(code) => {
                proof {
                    lemma_known_prefix(input@, i as int);
                }
                return Err(DecodeError::UnknownTerrainCode(code));
            },
        }
        i += 1;
    }
    proof {
        lemma_known_prefix(input@, i as int);
        assert(input@.take(i as int) =~= input@);
        assert(tiles@ =~= tiles_of(input@, layout@));
    }
    Ok(tiles)
}

} // verus!
