//! What holds of the rules on every valid board.

use vstd::prelude::*;
use crate::board::{lemma_sole_occupant, live_at, live_index, occupant, occupied, valid_board};
use crate::game::{after_move, commits, lemma_move_keeps_board_valid, moved, on_turn};
use crate::numbers::spec_distance;
use crate::piece::{is_live, on_board, Piece, PieceType};
use crate::rules::{
    between, diagonal, enemy_on, judged, kind_rule, knight_rule, path_clear, straight, verdict,
};

verus! {

/// The kinds that slide over the squares between start and target.
pub open spec fn slides(kind: PieceType) -> bool {
    kind == PieceType::Rook || kind == PieceType::Bishop || kind == PieceType::Queen
}

/// No piece in play but the one in slot `only`.
pub open spec fn alone(pieces: Seq<Piece>, only: int) -> bool {
    forall|i: int| 0 <= i < pieces.len() && i != only ==> !is_live(#[trigger] pieces[i])
}

/// No piece may move to the square it stands on: of whatever kind it is, it
/// would land on a piece of its own side.
pub proof fn lemma_no_move_in_place(pieces: Seq<Piece>, square: (u8, u8))
    requires
        valid_board(pieces),
        occupied(pieces, square),
    ensures
        !verdict(pieces, square, square).can_move,
{
}

/// A rook, a bishop or a queen is never allowed to move to the square it
/// stands on, whatever is said to stand there.
pub proof fn lemma_slider_does_not_stay(pieces: Seq<Piece>, mover: Piece, target: Option<Piece>)
    requires
        slides(mover.piece_type),
    ensures
        !kind_rule(pieces, mover, mover.position, target).can_move,
        !judged(pieces, mover, mover.position, target).can_move,
{
}

/// Neither end of a move lies between its ends.
pub proof fn lemma_ends_not_between(from: (u8, u8), to: (u8, u8))
    ensures
        !between(from, to, from),
        !between(from, to, to),
{
}

/// The coordinate reached after `k` steps from `a` towards `b`.
pub open spec fn stepped(a: u8, b: u8, k: int) -> int {
    if a < b {
        a + k
    } else if b < a {
        a - k
    } else {
        a as int
    }
}

/// How many steps a move along a column, a row or a diagonal takes.
pub open spec fn span(from: (u8, u8), to: (u8, u8)) -> int {
    if from.0 == to.0 {
        spec_distance(from.1, to.1)
    } else {
        spec_distance(from.0, to.0)
    }
}

/// `square` is where a walk from `from` towards `to` stands after `k` steps,
/// and the walk has not arrived yet.
pub open spec fn on_the_way(from: (u8, u8), to: (u8, u8), square: (u8, u8), k: int) -> bool {
    &&& 0 < k < span(from, to)
    &&& square.0 == stepped(from.0, to.0, k)
    &&& square.1 == stepped(from.1, to.1, k)
}

/// Along a column, a row or a diagonal, the squares between start and target
/// are those that a walk from the one to the other steps on before it
/// arrives: one column, one row, or one of each at a time, towards the target.
pub proof fn lemma_between_is_a_step(from: (u8, u8), to: (u8, u8), square: (u8, u8))
    requires
        straight(from, to) || diagonal(from, to),
    ensures
        between(from, to, square) <==> exists|k: int| on_the_way(from, to, square, k),
{
    if between(from, to, square) {
        let k = if from.0 == to.0 {
            spec_distance(from.1, square.1)
        } else {
            spec_distance(from.0, square.0)
        };
        assert(on_the_way(from, to, square, k));
    }
}

/// A rook, a bishop or a queen does not pass over a piece: with a piece in
/// play on a square between start and target the move is refused.
pub proof fn lemma_slider_blocked(pieces: Seq<Piece>, from: (u8, u8), to: (u8, u8), blocker: int)
    requires
        valid_board(pieces),
        occupied(pieces, from),
        slides(pieces[live_index(pieces, from)].piece_type),
        0 <= blocker < 32,
        is_live(pieces[blocker]),
        between(from, to, pieces[blocker].position),
    ensures
        !verdict(pieces, from, to).can_move,
{
    assert(!path_clear(pieces, from, to));
}

/// The piece on the target square is no obstacle. Where a rook moves along
/// its column or row and every other piece in play stands clear of the squares
/// between, the colour of the piece on the target decides alone: an enemy is
/// captured, a piece of the rook's own side refuses the move.
pub proof fn lemma_rook_captures_on_target(pieces: Seq<Piece>, from: (u8, u8), to: (u8, u8))
    requires
        valid_board(pieces),
        occupied(pieces, from),
        pieces[live_index(pieces, from)].piece_type == PieceType::Rook,
        straight(from, to),
        occupied(pieces, to),
        forall|i: int|
            #![trigger pieces[i]]
            0 <= i < 32 && is_live(pieces[i]) && pieces[i].position != to ==> !between(
                from,
                to,
                pieces[i].position,
            ),
    ensures
        verdict(pieces, from, to).can_move == enemy_on(
            pieces[live_index(pieces, from)],
            occupant(pieces, to),
        ),
        verdict(pieces, from, to).can_kill,
{
    lemma_ends_not_between(from, to);
    assert(live_at(pieces, from, live_index(pieces, from)));
    assert(pieces[live_index(pieces, from)].position == from);
    assert(path_clear(pieces, from, to));
}

/// A rook with no other piece in play reaches every other square of its
/// column and of its row, and no square besides.
pub proof fn lemma_rook_alone(pieces: Seq<Piece>, from: (u8, u8), to: (u8, u8))
    requires
        valid_board(pieces),
        occupied(pieces, from),
        pieces[live_index(pieces, from)].piece_type == PieceType::Rook,
        alone(pieces, live_index(pieces, from)),
    ensures
        verdict(pieces, from, to).can_move == (on_board(to) && straight(from, to)),
        !verdict(pieces, from, to).can_kill,
{
    let m = live_index(pieces, from);
    assert(live_at(pieces, from, m));
    lemma_ends_not_between(from, to);
    assert(path_clear(pieces, from, to));
    if to != from {
        assert forall|i: int| !live_at(pieces, to, i) by {
            if 0 <= i < 32 && i != m {
                assert(!is_live(pieces[i]));
            }
        }
    } else {
        lemma_sole_occupant(pieces, from, m);
    }
}

/// A bishop with no other piece in play reaches every other square of its two
/// diagonals, and no square besides.
pub proof fn lemma_bishop_alone(pieces: Seq<Piece>, from: (u8, u8), to: (u8, u8))
    requires
        valid_board(pieces),
        occupied(pieces, from),
        pieces[live_index(pieces, from)].piece_type == PieceType::Bishop,
        alone(pieces, live_index(pieces, from)),
    ensures
        verdict(pieces, from, to).can_move == (on_board(to) && diagonal(from, to)),
{
    let m = live_index(pieces, from);
    assert(live_at(pieces, from, m));
    lemma_ends_not_between(from, to);
    assert(path_clear(pieces, from, to));
    if to != from {
        assert forall|i: int| !live_at(pieces, to, i) by {
            if 0 <= i < 32 && i != m {
                assert(!is_live(pieces[i]));
            }
        }
    } else {
        lemma_sole_occupant(pieces, from, m);
    }
}

/// A knight with no other piece in play reaches the squares one column and
/// two rows away and those two columns and one row away: eight of them where
/// the board is wide enough.
pub proof fn lemma_knight_alone(pieces: Seq<Piece>, from: (u8, u8), to: (u8, u8))
    requires
        valid_board(pieces),
        occupied(pieces, from),
        pieces[live_index(pieces, from)].piece_type == PieceType::Knight,
        alone(pieces, live_index(pieces, from)),
    ensures
        verdict(pieces, from, to).can_move == (on_board(to) && knight_rule(from, to).can_move),
{
    let m = live_index(pieces, from);
    assert(live_at(pieces, from, m));
    if to != from {
        assert forall|i: int| !live_at(pieces, to, i) by {
            if 0 <= i < 32 && i != m {
                assert(!is_live(pieces[i]));
            }
        }
    } else {
        lemma_sole_occupant(pieces, from, m);
    }
}

/// A move is carried out only for the side whose turn it is, whatever the
/// rules say of the move itself.
pub proof fn lemma_out_of_turn_never_commits(
    pieces: Seq<Piece>,
    white_turn: bool,
    from: (u8, u8),
    to: (u8, u8),
)
    requires
        !on_turn(white_turn, pieces[live_index(pieces, from)].color),
    ensures
        !commits(pieces, white_turn, from, to),
{
}

/// After a move the mover stands on the target square, is still in play and
/// of the same kind and colour, and the piece it captured, if any, is out of
/// play; every other slot is as it was. So a piece that was out of play stays
/// out of play.
pub proof fn lemma_after_move(pieces: Seq<Piece>, from: (u8, u8), to: (u8, u8))
    requires
        valid_board(pieces),
        occupied(pieces, from),
        verdict(pieces, from, to).can_move,
    ensures
        ({
            let after = after_move(pieces, from, to, verdict(pieces, from, to).can_kill);
            let mover = live_index(pieces, from);
            &&& after.len() == 32
            &&& after[mover] == moved(pieces[mover], to)
            &&& occupant(after, to) == Some(after[mover])
            &&& !occupied(after, from)
            &&& forall|i: int|
                0 <= i < 32 && i != mover && !(verdict(pieces, from, to).can_kill && i
                    == live_index(pieces, to)) ==> after[i] == pieces[i]
            &&& verdict(pieces, from, to).can_kill ==> !is_live(after[live_index(pieces, to)])
            &&& forall|i: int| 0 <= i < 32 && !is_live(#[trigger] pieces[i]) ==> after[i] == pieces[i]
        }),
{
    let v = verdict(pieces, from, to);
    let after = after_move(pieces, from, to, v.can_kill);
    let m = live_index(pieces, from);
    assert(live_at(pieces, from, m));
    lemma_no_move_in_place(pieces, from);
    assert(to != from);
    lemma_move_keeps_board_valid(pieces, from, to);
    if occupied(pieces, to) {
        let d = live_index(pieces, to);
        assert(live_at(pieces, to, d));
        assert(v.can_kill);
        assert(d != m);
    }
    assert(live_at(after, to, m));
    lemma_sole_occupant(after, to, m);
    assert forall|i: int| !live_at(after, from, i) by {
        if 0 <= i < 32 && i != m && is_live(after[i]) && after[i].position == from {
            assert(after[i] == pieces[i]);
            lemma_sole_occupant(pieces, from, i);
        }
    }
}

} // verus!
