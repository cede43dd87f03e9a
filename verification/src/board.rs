//! The 32 slots of a board seen as a sequence: who stands where, and what
//! makes a board valid.

use vstd::prelude::*;
use crate::piece::{is_live, on_board, Piece};

verus! {

/// Slot `i` holds a piece in play that stands on `square`.
pub open spec fn live_at(pieces: Seq<Piece>, square: (u8, u8), i: int) -> bool {
    0 <= i < pieces.len() && is_live(pieces[i]) && pieces[i].position == square
}

/// Some piece in play stands on `square`.
pub open spec fn occupied(pieces: Seq<Piece>, square: (u8, u8)) -> bool {
    exists|i: int| live_at(pieces, square, i)
}

/// The slot of the piece that stands on `square`. On a valid board there is at
/// most one; the value means nothing where the square is empty.
pub open spec fn live_index(pieces: Seq<Piece>, square: (u8, u8)) -> int {
    choose|i: int| live_at(pieces, square, i)
}

/// The piece that stands on `square`, if any.
pub open spec fn occupant(pieces: Seq<Piece>, square: (u8, u8)) -> Option<Piece> {
    if occupied(pieces, square) {
        Some(pieces[live_index(pieces, square)])
    } else {
        None
    }
}

/// A board has 32 slots, every slot's square lies on the board, and no two
/// pieces in play share a square.
pub open spec fn valid_board(pieces: Seq<Piece>) -> bool {
    &&& pieces.len() == 32
    &&& forall|i: int| 0 <= i < 32 ==> on_board(#[trigger] pieces[i].position)
    &&& forall|i: int, j: int|
        #![trigger pieces[i], pieces[j]]
        0 <= i < j < 32 && is_live(pieces[i]) && is_live(pieces[j]) ==> pieces[i].position
            != pieces[j].position
}

/// On a valid board the piece found on a square is the only one there.
pub proof fn lemma_sole_occupant(pieces: Seq<Piece>, square: (u8, u8), i: int)
    requires
        valid_board(pieces),
        live_at(pieces, square, i),
    ensures
        occupied(pieces, square),
        live_index(pieces, square) == i,
        occupant(pieces, square) == Some(pieces[i]),
{
    let j = live_index(pieces, square);
    assert(live_at(pieces, square, j));
    if j < i {
        assert(pieces[j].position != pieces[i].position);
    } else if i < j {
        assert(pieces[i].position != pieces[j].position);
    }
}

/// Looks for the piece in play that stands on `square` and gives its slot:
/// the lowest one, should the board hold several.
pub fn find_live(pieces: &[Piece; 32], square: (u8, u8)) -> (found: Option<usize>)
    ensures
        match found {
            Some(i) => live_at(pieces@, square, i as int) && forall|j: int|
                0 <= j < i ==> !live_at(pieces@, square, j),
            None => !occupied(pieces@, square),
        },
{
    let mut i: usize = 0;
    while i < 32
        invariant
            i <= 32,
            forall|j: int| 0 <= j < i ==> !live_at(pieces@, square, j),
        decreases 32 - i,
    {
        if pieces[i].stands_on(square) {
            return Some(i);
        }
        i += 1;
    }
    None
}

/// Whether the slots form a valid board.
pub fn is_valid_board(pieces: &[Piece; 32]) -> (valid: bool)
    ensures
        valid == valid_board(pieces@),
{
    let mut i: usize = 0;
    while i < 32
        invariant
            i <= 32,
            forall|k: int| 0 <= k < i ==> on_board(#[trigger] pieces@[k].position),
            forall|k: int, j: int|
                #![trigger pieces@[k], pieces@[j]]
                0 <= k < j < 32 && k < i && is_live(pieces@[k]) && is_live(pieces@[j])
                    ==> pieces@[k].position != pieces@[j].position,
        decreases 32 - i,
    {
        let here: (u8, u8) = pieces[i].position;
        if here.0 >= 8 || here.1 >= 8 {
            return false;
        }
        if pieces[i].alive() {
            let mut j: usize = i + 1;
            while j < 32
                invariant
                    i < j <= 32,
                    i < 32,
                    here == pieces@[i as int].position,
                    is_live(pieces@[i as int]),
                    forall|m: int|
                        i < m < j && is_live(#[trigger] pieces@[m]) ==> pieces@[m].position
                            != here,
                decreases 32 - j,
            {
                if pieces[j].stands_on(here) {
                    return false;
                }
                j += 1;
            }
        }
        i += 1;
    }
    true
}

/// Whether two boards agree slot by slot.
pub fn same_pieces(left: &[Piece; 32], right: &[Piece; 32]) -> (same: bool)
    ensures
        same == (left@ == right@),
{
    let mut i: usize = 0;
    while i < 32
        invariant
            i <= 32,
            forall|k: int| 0 <= k < i ==> left@[k] == right@[k],
        decreases 32 - i,
    {
        if !left[i].same_as(&right[i]) {
            return false;
        }
        i += 1;
    }
    assert(left@ =~= right@);
    true
}

} // verus!
