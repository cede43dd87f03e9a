//! Which squares each kind of piece may move to, and how a square that is
//! already taken changes the answer.

use vstd::prelude::*;
use crate::board::{live_index, occupant};
use crate::numbers::{spec_distance, MyNumTrait};
use crate::piece::{is_live, is_on_board, on_board, Piece, PieceColor, PieceType};

verus! {

/// The answer to one proposed move: whether the piece may go there, and
/// whether it captures. `can_kill` counts only together with `can_move`: it
/// then says that the piece on the target square is captured.
#[derive(Clone, Copy, Debug, PartialEq, Eq, Structural)]
pub struct Move {
    pub can_move: bool,
    pub can_kill: bool,
}

/// `m` lies strictly between `a` and `b`, whichever of the two is larger.
pub open spec fn inside(a: u8, b: u8, m: u8) -> bool {
    (a < m && m < b) || (b < m && m < a)
}

/// The move runs along a column or along a row, and is not a move to the
/// square the piece already stands on.
pub open spec fn straight(from: (u8, u8), to: (u8, u8)) -> bool {
    (from.0 == to.0) != (from.1 == to.1)
}

/// The move covers as many columns as rows, and at least one of each: it is
/// not a move to the square the piece already stands on.
pub open spec fn diagonal(from: (u8, u8), to: (u8, u8)) -> bool {
    from.0 != to.0 && spec_distance(from.0, to.0) == spec_distance(from.1, to.1)
}

/// `square` is one of the squares that a piece sliding from `from` to `to`
/// passes over. Neither end counts: a piece on `to` is a candidate for
/// capture, not an obstacle. Meant for moves along a column, a row or a
/// diagonal.
pub open spec fn between(from: (u8, u8), to: (u8, u8), square: (u8, u8)) -> bool {
    if from.0 == to.0 {
        square.0 == from.0 && inside(from.1, to.1, square.1)
    } else if from.1 == to.1 {
        square.1 == from.1 && inside(from.0, to.0, square.0)
    } else {
        &&& inside(from.0, to.0, square.0)
        &&& inside(from.1, to.1, square.1)
        &&& spec_distance(from.0, square.0) == spec_distance(from.1, square.1)
    }
}

/// No piece in play stands on a square between `from` and `to`.
pub open spec fn path_clear(pieces: Seq<Piece>, from: (u8, u8), to: (u8, u8)) -> bool {
    forall|i: int|
        #![trigger pieces[i]]
        0 <= i < pieces.len() ==> !(is_live(pieces[i]) && between(from, to, pieces[i].position))
}

/// `to` lies exactly `rows` rows ahead of the pawn. White advances towards
/// row 0, Black towards row 7.
pub open spec fn rows_ahead(mover: Piece, to: (u8, u8), rows: int) -> bool {
    match mover.color {
        PieceColor::White => to.1 + rows == mover.position.1,
        PieceColor::Black => mover.position.1 + rows == to.1,
    }
}

/// An enemy of `mover` stands on the target square.
pub open spec fn enemy_on(mover: Piece, target: Option<Piece>) -> bool {
    match target {
        Some(other) => other.color != mover.color,
        None => false,
    }
}

/// A pawn steps one row straight ahead, or two on its first move (the square
/// it jumps over is not looked at), and neither step captures. It steps one
/// row ahead into a neighbouring column only to capture an enemy there.
pub open spec fn pawn_rule(mover: Piece, to: (u8, u8), target: Option<Piece>) -> Move {
    if mover.position.0 == to.0 && (rows_ahead(mover, to, 1) || (mover.num_of_moves == 0
        && rows_ahead(mover, to, 2))) {
        Move { can_move: true, can_kill: false }
    } else if spec_distance(mover.position.0, to.0) == 1 && rows_ahead(mover, to, 1) && enemy_on(
        mover,
        target,
    ) {
        Move { can_move: true, can_kill: true }
    } else {
        Move { can_move: false, can_kill: false }
    }
}

/// A rook slides along its column or its row over empty squares.
pub open spec fn rook_rule(pieces: Seq<Piece>, from: (u8, u8), to: (u8, u8)) -> Move {
    Move { can_move: straight(from, to) && path_clear(pieces, from, to), can_kill: true }
}

/// A bishop slides along a diagonal over empty squares.
pub open spec fn bishop_rule(pieces: Seq<Piece>, from: (u8, u8), to: (u8, u8)) -> Move {
    Move { can_move: diagonal(from, to) && path_clear(pieces, from, to), can_kill: true }
}

/// A queen moves like a bishop along a diagonal and like a rook otherwise.
pub open spec fn queen_rule(pieces: Seq<Piece>, from: (u8, u8), to: (u8, u8)) -> Move {
    if diagonal(from, to) {
        bishop_rule(pieces, from, to)
    } else {
        rook_rule(pieces, from, to)
    }
}

/// A king moves at most one column and at most one row. The rule does not
/// rule out the square the king stands on; the answer to such a move is still
/// no, because the king would land on a piece of its own side.
pub open spec fn king_rule(from: (u8, u8), to: (u8, u8)) -> Move {
    Move {
        can_move: spec_distance(from.0, to.0) <= 1 && spec_distance(from.1, to.1) <= 1,
        can_kill: true,
    }
}

/// A knight moves one column and two rows, or two columns and one row.
pub open spec fn knight_rule(from: (u8, u8), to: (u8, u8)) -> Move {
    let columns = spec_distance(from.0, to.0);
    let rows = spec_distance(from.1, to.1);
    Move { can_move: (columns == 1 && rows == 2) || (columns == 2 && rows == 1), can_kill: true }
}

/// What the mover's kind allows, before the colour of a piece on the target
/// square is looked at. A captured piece moves nowhere.
pub open spec fn kind_rule(pieces: Seq<Piece>, mover: Piece, to: (u8, u8), target: Option<Piece>)
    -> Move {
    match mover.piece_type {
        PieceType::Pawn => pawn_rule(mover, to, target),
        PieceType::Rook => rook_rule(pieces, mover.position, to),
        PieceType::Bishop => bishop_rule(pieces, mover.position, to),
        PieceType::Queen => queen_rule(pieces, mover.position, to),
        PieceType::King => king_rule(mover.position, to),
        PieceType::Knight => knight_rule(mover.position, to),
        PieceType::Dead => Move { can_move: false, can_kill: false },
    }
}

/// Settles a move that the mover's kind allows against the piece on the
/// target square: onto an empty square the piece moves without capturing;
/// onto a taken one it moves only by capturing an enemy.
pub open spec fn settle(rule: Move, mover: Piece, target: Option<Piece>) -> Move {
    if !rule.can_move {
        Move { can_move: false, can_kill: false }
    } else {
        match target {
            Some(_) => Move {
                can_move: enemy_on(mover, target) && rule.can_kill,
                can_kill: rule.can_kill,
            },
            None => Move { can_move: true, can_kill: false },
        }
    }
}

/// The answer for `mover` asked to go to `to`, on which `target` stands. A
/// square off the board is no target for any piece.
pub open spec fn judged(pieces: Seq<Piece>, mover: Piece, to: (u8, u8), target: Option<Piece>)
    -> Move {
    if on_board(to) {
        settle(kind_rule(pieces, mover, to, target), mover, target)
    } else {
        Move { can_move: false, can_kill: false }
    }
}

/// The answer for the piece that stands on `from` asked to go to `to`.
pub open spec fn verdict(pieces: Seq<Piece>, from: (u8, u8), to: (u8, u8)) -> Move {
    judged(pieces, pieces[live_index(pieces, from)], to, occupant(pieces, to))
}

fn lies_inside(a: u8, b: u8, m: u8) -> (yes: bool)
    ensures
        yes == inside(a, b, m),
{
    (a < m && m < b) || (b < m && m < a)
}

/// Whether the move covers as many columns as rows, and at least one.
pub fn is_diagonal(from: (u8, u8), to: (u8, u8)) -> (yes: bool)
    ensures
        yes == diagonal(from, to),
{
    from.0 != to.0 && to.0.distance(from.0) == to.1.distance(from.1)
}

/// Whether a piece sliding from `from` to `to` passes over `square`.
pub fn is_between(from: (u8, u8), to: (u8, u8), square: (u8, u8)) -> (yes: bool)
    ensures
        yes == between(from, to, square),
{
    if from.0 == to.0 {
        square.0 == from.0 && lies_inside(from.1, to.1, square.1)
    } else if from.1 == to.1 {
        square.1 == from.1 && lies_inside(from.0, to.0, square.0)
    } else {
        lies_inside(from.0, to.0, square.0) && lies_inside(from.1, to.1, square.1)
            && from.0.distance(square.0) == from.1.distance(square.1)
    }
}

/// Whether every square between `from` and `to` is empty.
pub fn no_piece_between(pieces: &[Piece; 32], from: (u8, u8), to: (u8, u8)) -> (clear: bool)
    ensures
        clear == path_clear(pieces@, from, to),
{
    let mut i: usize = 0;
    while i < 32
        invariant
            i <= 32,
            forall|j: int|
                #![trigger pieces@[j]]
                0 <= j < i ==> !(is_live(pieces@[j]) && between(from, to, pieces@[j].position)),
        decreases 32 - i,
    {
        if pieces[i].alive() && is_between(from, to, pieces[i].position) {
            return false;
        }
        i += 1;
    }
    true
}

/// What the pawn's rule says of the pawn `mover` going to `to`, on which
/// `piece_under_mouse` stands.
pub fn pawn_move(mover: &Piece, to: (u8, u8), piece_under_mouse: Option<Piece>) -> (m: Move)
    ensures
        m == pawn_rule(*mover, to, piece_under_mouse),
{
    let forward: bool = match mover.color {
        PieceColor::White => to.1 < mover.position.1,
        PieceColor::Black => to.1 > mover.position.1,
    };
    let rows: u8 = to.1.distance(mover.position.1);
    let columns: u8 = to.0.distance(mover.position.0);
    if !forward {
        Move { can_move: false, can_kill: false }
    } else if columns == 0 {
        let legal: bool = rows == 1 || (rows == 2 && mover.num_of_moves == 0);
        Move { can_move: legal, can_kill: false }
    } else {
        let enemy: bool = match piece_under_mouse {
            Some(other) => !mover.same_side(&other),
            None => false,
        };
        let legal: bool = columns == 1 && rows == 1 && enemy;
        Move { can_move: legal, can_kill: legal }
    }
}

/// What the rook's rule says of a rook going from `from` to `to`.
pub fn rook_move(pieces: &[Piece; 32], from: (u8, u8), to: (u8, u8)) -> (m: Move)
    ensures
        m == rook_rule(pieces@, from, to),
{
    let along_column: bool = from.0 == to.0;
    let along_row: bool = from.1 == to.1;
    Move { can_move: (along_column ^ along_row) && no_piece_between(pieces, from, to), can_kill: true }
}

/// What the bishop's rule says of a bishop going from `from` to `to`.
pub fn bishop_move(pieces: &[Piece; 32], from: (u8, u8), to: (u8, u8)) -> (m: Move)
    ensures
        m == bishop_rule(pieces@, from, to),
{
    Move { can_move: is_diagonal(from, to) && no_piece_between(pieces, from, to), can_kill: true }
}

/// What the queen's rule says of a queen going from `from` to `to`.
pub fn queen_move(pieces: &[Piece; 32], from: (u8, u8), to: (u8, u8)) -> (m: Move)
    ensures
        m == queen_rule(pieces@, from, to),
{
    if is_diagonal(from, to) {
        bishop_move(pieces, from, to)
    } else {
        rook_move(pieces, from, to)
    }
}

/// What the king's rule says of a king going from `from` to `to`.
pub fn king_move(from: (u8, u8), to: (u8, u8)) -> (m: Move)
    ensures
        m == king_rule(from, to),
{
    Move { can_move: to.0.distance(from.0) <= 1 && to.1.distance(from.1) <= 1, can_kill: true }
}

/// What the knight's rule says of a knight going from `from` to `to`. Each
/// distance is the larger coordinate minus the smaller, so nothing underflows
/// at the edge of the board, and a jump that would leave the board matches no
/// square.
pub fn knight_move(from: (u8, u8), to: (u8, u8)) -> (m: Move)
    ensures
        m == knight_rule(from, to),
{
    let columns: u8 = to.0.distance(from.0);
    let rows: u8 = to.1.distance(from.1);
    Move { can_move: (columns == 1 && rows == 2) || (columns == 2 && rows == 1), can_kill: true }
}

/// Answers one proposed move of `mover`, a piece of this board, to `to`, on
/// which `piece_under_mouse` stands: what the mover's kind allows, settled
/// against the piece on the target.
pub fn judge(pieces: &[Piece; 32], mover: &Piece, to: (u8, u8), piece_under_mouse: Option<Piece>)
    -> (m: Move)
    ensures
        m == judged(pieces@, *mover, to, piece_under_mouse),
{
    if !is_on_board(to) {
        return Move { can_move: false, can_kill: false };
    }
    let piece_move: Move = match mover.piece_type {
        PieceType::Pawn => pawn_move(mover, to, piece_under_mouse),
        PieceType::Rook => rook_move(pieces, mover.position, to),
        PieceType::Bishop => bishop_move(pieces, mover.position, to),
        PieceType::Queen => queen_move(pieces, mover.position, to),
        PieceType::King => king_move(mover.position, to),
        PieceType::Knight => knight_move(mover.position, to),
        PieceType::Dead => Move { can_move: false, can_kill: false },
    };
    if piece_move.can_move {
        match piece_under_mouse {
            Some(other) => Move {
                can_move: !mover.same_side(&other) && piece_move.can_kill,
                can_kill: piece_move.can_kill,
            },
            None => Move { can_move: true, can_kill: false },
        }
    } else {
        Move { can_move: false, can_kill: false }
    }
}

} // verus!
