//! A game in progress: the board, whose turn it is, and the square that the
//! player has picked up.

use vstd::prelude::*;
use crate::board::{
    find_live, is_valid_board, lemma_sole_occupant, live_at, live_index, occupant, occupied,
    valid_board,
};
use crate::numbers::MyNumTrait;
use crate::piece::{is_live, on_board, Piece, PieceColor, PieceType};
use crate::rules::{enemy_on, judge, verdict, Move};

verus! {

/// The 32 slots of the board, the selection, and the side to move. The slots
/// keep their order for the whole game: a captured piece stays in its slot as
/// `Dead`.
#[derive(Clone, Copy, Debug, PartialEq, Eq)]
pub struct ChessGame {
    pub pieces: [Piece; 32],
    /// The square of the piece that the next click will try to move.
    pub selected_piece: Option<(u8, u8)>,
    pub white_turn: bool,
}

/// What a click on a square did.
#[derive(Clone, Copy, Debug, PartialEq, Eq, Structural)]
pub enum Click {
    /// Nothing was selected and the square holds no piece: nothing changed.
    Ignored,
    /// The piece on the square is now selected.
    Selected,
    /// The selected piece moved to the square, and the turn passed on.
    Moved,
    /// The selected piece may not go there, or it is not its side's turn. The
    /// selection is dropped all the same.
    Refused,
}

/// How a square is to be painted.
#[derive(Clone, Copy, Debug, PartialEq, Eq, Structural)]
pub enum Shade {
    Selected,
    Hovered,
    Dark,
    Light,
}

/// The kind that stands in column `column` of either back rank.
pub open spec fn back_rank(column: int) -> PieceType {
    if column == 0 || column == 7 {
        PieceType::Rook
    } else if column == 1 || column == 6 {
        PieceType::Knight
    } else if column == 2 || column == 5 {
        PieceType::Bishop
    } else if column == 3 {
        PieceType::King
    } else {
        PieceType::Queen
    }
}

/// Slot `i` of a new game: Black's pawns, White's pawns, White's back rank,
/// Black's back rank, each from column 0 to column 7, except that White's
/// queen, on column 4, is listed before White's king, on column 3.
pub open spec fn opening_piece(i: int) -> Piece {
    if i < 8 {
        Piece {
            piece_type: PieceType::Pawn,
            position: (i as u8, 1),
            color: PieceColor::Black,
            num_of_moves: 0,
        }
    } else if i < 16 {
        Piece {
            piece_type: PieceType::Pawn,
            position: ((i - 8) as u8, 6),
            color: PieceColor::White,
            num_of_moves: 0,
        }
    } else if i < 24 {
        let column = if i == 19 {
            4
        } else if i == 20 {
            3
        } else {
            i - 16
        };
        Piece {
            piece_type: back_rank(column),
            position: (column as u8, 7),
            color: PieceColor::White,
            num_of_moves: 0,
        }
    } else {
        Piece {
            piece_type: back_rank(i - 24),
            position: ((i - 24) as u8, 0),
            color: PieceColor::Black,
            num_of_moves: 0,
        }
    }
}

/// The piece after it has been captured: it keeps its record and leaves play.
pub open spec fn captured(piece: Piece) -> Piece {
    Piece { piece_type: PieceType::Dead, ..piece }
}

/// The piece after it has moved to `to`. The count of its moves stops at the
/// largest value it can hold.
pub open spec fn moved(piece: Piece, to: (u8, u8)) -> Piece {
    Piece {
        position: to,
        num_of_moves: if piece.num_of_moves == u32::MAX {
            piece.num_of_moves
        } else {
            (piece.num_of_moves + 1) as u32
        },
        ..piece
    }
}

/// The board after the piece on `from` has gone to `to`; with `capture`, the
/// piece that stood on `to` has left play first.
pub open spec fn after_move(pieces: Seq<Piece>, from: (u8, u8), to: (u8, u8), capture: bool)
    -> Seq<Piece> {
    let mover = live_index(pieces, from);
    let target = live_index(pieces, to);
    let cleared = if capture {
        pieces.update(target, captured(pieces[target]))
    } else {
        pieces
    };
    cleared.update(mover, moved(pieces[mover], to))
}

/// It is the turn of the side that `color` names.
pub open spec fn on_turn(white_turn: bool, color: PieceColor) -> bool {
    white_turn == (color == PieceColor::White)
}

/// A click on `to` with `from` selected moves the piece: the rules allow the
/// move, and it is the mover's turn.
pub open spec fn commits(pieces: Seq<Piece>, white_turn: bool, from: (u8, u8), to: (u8, u8))
    -> bool {
    verdict(pieces, from, to).can_move && on_turn(
        white_turn,
        pieces[live_index(pieces, from)].color,
    )
}

/// A move that the rules allow leaves the board valid: the mover lands on a
/// square that is empty, or that its capture has just emptied.
pub proof fn lemma_move_keeps_board_valid(pieces: Seq<Piece>, from: (u8, u8), to: (u8, u8))
    requires
        valid_board(pieces),
        occupied(pieces, from),
        verdict(pieces, from, to).can_move,
    ensures
        valid_board(after_move(pieces, from, to, verdict(pieces, from, to).can_kill)),
{
    let m = live_index(pieces, from);
    let v = verdict(pieces, from, to);
    let after = after_move(pieces, from, to, v.can_kill);
    assert(live_at(pieces, from, m));
    if occupied(pieces, to) {
        let d = live_index(pieces, to);
        assert(live_at(pieces, to, d));
        assert(enemy_on(pieces[m], occupant(pieces, to)));
        assert(v.can_kill);
        assert(d != m);
        assert forall|i: int, j: int|
            #![trigger after[i], after[j]]
            0 <= i < j < 32 && is_live(after[i]) && is_live(after[j]) implies after[i].position
            != after[j].position by {
            if i == m {
                assert(j != d);
                if pieces[j].position == to {
                    lemma_sole_occupant(pieces, to, j);
                }
            } else if j == m {
                assert(i != d);
                if pieces[i].position == to {
                    lemma_sole_occupant(pieces, to, i);
                }
            } else {
                assert(pieces[i].position != pieces[j].position);
            }
        }
    } else {
        assert(!v.can_kill);
        assert forall|i: int, j: int|
            #![trigger after[i], after[j]]
            0 <= i < j < 32 && is_live(after[i]) && is_live(after[j]) implies after[i].position
            != after[j].position by {
            if i == m {
                assert(!live_at(pieces, to, j));
            } else if j == m {
                assert(!live_at(pieces, to, i));
            } else {
                assert(pieces[i].position != pieces[j].position);
            }
        }
    }
    assert forall|i: int| 0 <= i < 32 implies on_board(#[trigger] after[i].position) by {
        assert(on_board(pieces[i].position));
    }
}

impl ChessGame {
    /// The board is valid, and a selected square holds a piece.
    pub open spec fn well_formed(&self) -> bool {
        &&& valid_board(self.pieces@)
        &&& self.selected_piece matches Some(square) ==> occupied(self.pieces@, square)
    }

    /// A new game: every piece on its opening square, nothing selected, White
    /// to move.
    pub fn new() -> (game: ChessGame)
        ensures
            forall|i: int| 0 <= i < 32 ==> game.pieces@[i] == opening_piece(i),
            game.selected_piece is None,
            game.white_turn,
            game.well_formed(),
    {
        let pieces: [Piece; 32] = [
            Piece {
                piece_type: PieceType::Pawn,
                position: (0, 1),
                color: PieceColor::Black,
                num_of_moves: 0,
            },
            Piece {
                piece_type: PieceType::Pawn,
                position: (1, 1),
                color: PieceColor::Black,
                num_of_moves: 0,
            },
            Piece {
                piece_type: PieceType::Pawn,
                position: (2, 1),
                color: PieceColor::Black,
                num_of_moves: 0,
            },
            Piece {
                piece_type: PieceType::Pawn,
                position: (3, 1),
                color: PieceColor::Black,
                num_of_moves: 0,
            },
            Piece {
                piece_type: PieceType::Pawn,
                position: (4, 1),
                color: PieceColor::Black,
                num_of_moves: 0,
            },
            Piece {
                piece_type: PieceType::Pawn,
                position: (5, 1),
                color: PieceColor::Black,
                num_of_moves: 0,
            },
            Piece {
                piece_type: PieceType::Pawn,
                position: (6, 1),
                color: PieceColor::Black,
                num_of_moves: 0,
            },
            Piece {
                piece_type: PieceType::Pawn,
                position: (7, 1),
                color: PieceColor::Black,
                num_of_moves: 0,
            },
            Piece {
                piece_type: PieceType::Pawn,
                position: (0, 6),
                color: PieceColor::White,
                num_of_moves: 0,
            },
            Piece {
                piece_type: PieceType::Pawn,
                position: (1, 6),
                color: PieceColor::White,
                num_of_moves: 0,
            },
            Piece {
                piece_type: PieceType::Pawn,
                position: (2, 6),
                color: PieceColor::White,
                num_of_moves: 0,
            },
            Piece {
                piece_type: PieceType::Pawn,
                position: (3, 6),
                color: PieceColor::White,
                num_of_moves: 0,
            },
            Piece {
                piece_type: PieceType::Pawn,
                position: (4, 6),
                color: PieceColor::White,
                num_of_moves: 0,
            },
            Piece {
                piece_type: PieceType::Pawn,
                position: (5, 6),
                color: PieceColor::White,
                num_of_moves: 0,
            },
            Piece {
                piece_type: PieceType::Pawn,
                position: (6, 6),
                color: PieceColor::White,
                num_of_moves: 0,
            },
            Piece {
                piece_type: PieceType::Pawn,
                position: (7, 6),
                color: PieceColor::White,
                num_of_moves: 0,
            },
            Piece {
                piece_type: PieceType::Rook,
                position: (0, 7),
                color: PieceColor::White,
                num_of_moves: 0,
            },
            Piece {
                piece_type: PieceType::Knight,
                position: (1, 7),
                color: PieceColor::White,
                num_of_moves: 0,
            },
            Piece {
                piece_type: PieceType::Bishop,
                position: (2, 7),
                color: PieceColor::White,
                num_of_moves: 0,
            },
            Piece {
                piece_type: PieceType::Queen,
                position: (4, 7),
                color: PieceColor::White,
                num_of_moves: 0,
            },
            Piece {
                piece_type: PieceType::King,
                position: (3, 7),
                color: PieceColor::White,
                num_of_moves: 0,
            },
            Piece {
                piece_type: PieceType::Bishop,
                position: (5, 7),
                color: PieceColor::White,
                num_of_moves: 0,
            },
            Piece {
                piece_type: PieceType::Knight,
                position: (6, 7),
                color: PieceColor::White,
                num_of_moves: 0,
            },
            Piece {
                piece_type: PieceType::Rook,
                position: (7, 7),
                color: PieceColor::White,
                num_of_moves: 0,
            },
            Piece {
                piece_type: PieceType::Rook,
                position: (0, 0),
                color: PieceColor::Black,
                num_of_moves: 0,
            },
            Piece {
                piece_type: PieceType::Knight,
                position: (1, 0),
                color: PieceColor::Black,
                num_of_moves: 0,
            },
            Piece {
                piece_type: PieceType::Bishop,
                position: (2, 0),
                color: PieceColor::Black,
                num_of_moves: 0,
            },
            Piece {
                piece_type: PieceType::King,
                position: (3, 0),
                color: PieceColor::Black,
                num_of_moves: 0,
            },
            Piece {
                piece_type: PieceType::Queen,
                position: (4, 0),
                color: PieceColor::Black,
                num_of_moves: 0,
            },
            Piece {
                piece_type: PieceType::Bishop,
                position: (5, 0),
                color: PieceColor::Black,
                num_of_moves: 0,
            },
            Piece {
                piece_type: PieceType::Knight,
                position: (6, 0),
                color: PieceColor::Black,
                num_of_moves: 0,
            },
            Piece {
                piece_type: PieceType::Rook,
                position: (7, 0),
                color: PieceColor::Black,
                num_of_moves: 0,
            },
        ];
        ChessGame { pieces, selected_piece: None, white_turn: true }
    }

    /// Whether the game is well formed.
    pub fn is_well_formed(&self) -> (ok: bool)
        ensures
            ok == self.well_formed(),
    {
        if !is_valid_board(&self.pieces) {
            return false;
        }
        match self.selected_piece {
            Some(square) => find_live(&self.pieces, square).is_some(),
            None => true,
        }
    }

    /// The piece that stands on `square`, if any.
    pub fn piece_at(&self, square: (u8, u8)) -> (found: Option<Piece>)
        requires
            valid_board(self.pieces@),
        ensures
            found == occupant(self.pieces@, square),
    {
        match find_live(&self.pieces, square) {
            Some(i) => {
                proof {
                    lemma_sole_occupant(self.pieces@, square, i as int);
                }
                Some(self.pieces[i])
            },
            None => None,
        }
    }

    /// Answers whether the piece on `selected` may go to `hovered_piece_pos`,
    /// on which `piece_under_mouse` stands. The caller sees to it that a piece
    /// stands on `selected` and that `piece_under_mouse` is what `piece_at`
    /// finds on the target. Whose turn it is plays no part in the answer.
    pub fn check_movement(
        &self,
        selected: (u8, u8),
        hovered_piece_pos: (u8, u8),
        piece_under_mouse: Option<Piece>,
    ) -> (m: Move)
        requires
            valid_board(self.pieces@),
            occupied(self.pieces@, selected),
            piece_under_mouse == occupant(self.pieces@, hovered_piece_pos),
        ensures
            m == verdict(self.pieces@, selected, hovered_piece_pos),
    {
        match find_live(&self.pieces, selected) {
            Some(i) => {
                proof {
                    lemma_sole_occupant(self.pieces@, selected, i as int);
                }
                let piece: Piece = self.pieces[i];
                judge(&self.pieces, &piece, hovered_piece_pos, piece_under_mouse)
            },
            None => Move { can_move: false, can_kill: false },
        }
    }

    /// Carries out a move that `check_movement` has answered with
    /// `piece_move`, unless the answer was no or it is the other side's turn:
    /// then nothing changes. Otherwise a captured piece leaves play, the
    /// mover takes the target square and counts one more move, and the turn
    /// passes to the other side.
    pub fn apply_move(
        &mut self,
        selected: (u8, u8),
        hovered_piece_pos: (u8, u8),
        piece_move: &Move,
    ) -> (committed: bool)
        requires
            valid_board(old(self).pieces@),
            occupied(old(self).pieces@, selected),
            *piece_move == verdict(old(self).pieces@, selected, hovered_piece_pos),
        ensures
            committed == (piece_move.can_move && on_turn(
                old(self).white_turn,
                old(self).pieces@[live_index(old(self).pieces@, selected)].color,
            )),
            committed ==> final(self).pieces@ == after_move(
                old(self).pieces@,
                selected,
                hovered_piece_pos,
                piece_move.can_kill,
            ),
            committed ==> final(self).white_turn != old(self).white_turn,
            !committed ==> final(self).pieces@ == old(self).pieces@,
            !committed ==> final(self).white_turn == old(self).white_turn,
            final(self).selected_piece == old(self).selected_piece,
            valid_board(final(self).pieces@),
    {
        let mover: usize = match find_live(&self.pieces, selected) {
            Some(i) => i,
            None => {
                return false;
            },
        };
        proof {
            lemma_sole_occupant(self.pieces@, selected, mover as int);
        }
        let white: bool = match self.pieces[mover].color {
            PieceColor::White => true,
            PieceColor::Black => false,
        };
        if !piece_move.can_move || white != self.white_turn {
            return false;
        }
        proof {
            lemma_move_keeps_board_valid(self.pieces@, selected, hovered_piece_pos);
        }
        if piece_move.can_kill {
            match find_live(&self.pieces, hovered_piece_pos) {
                Some(target) => {
                    proof {
                        lemma_sole_occupant(self.pieces@, hovered_piece_pos, target as int);
                    }
                    let mut defender: Piece = self.pieces[target];
                    defender.piece_type = PieceType::Dead;
                    self.pieces[target] = defender;
                },
                None => {},
            }
        }
        let mut piece: Piece = self.pieces[mover];
        piece.position = hovered_piece_pos;
        piece.num_of_moves = piece.num_of_moves.saturating_add(1);
        self.pieces[mover] = piece;
        self.white_turn = !self.white_turn;
        true
    }

    /// One click on a square of the board. With nothing selected, it selects
    /// the piece that stands there, if one does. With a piece selected, it
    /// asks whether that piece may go to the square, carries the move out if
    /// so and if it is that side's turn, and drops the selection whatever the
    /// answer was.
    pub fn click(&mut self, square: (u8, u8)) -> (outcome: Click)
        requires
            old(self).well_formed(),
        ensures
            final(self).well_formed(),
            match old(self).selected_piece {
                None => {
                    &&& final(self).pieces@ == old(self).pieces@
                    &&& final(self).white_turn == old(self).white_turn
                    &&& if occupied(old(self).pieces@, square) {
                        outcome == Click::Selected && final(self).selected_piece == Some(square)
                    } else {
                        outcome == Click::Ignored && final(self).selected_piece is None
                    }
                },
                Some(selected) => {
                    &&& final(self).selected_piece is None
                    &&& if commits(old(self).pieces@, old(self).white_turn, selected, square) {
                        &&& outcome == Click::Moved
                        &&& final(self).pieces@ == after_move(
                            old(self).pieces@,
                            selected,
                            square,
                            verdict(old(self).pieces@, selected, square).can_kill,
                        )
                        &&& final(self).white_turn != old(self).white_turn
                    } else {
                        &&& outcome == Click::Refused
                        &&& final(self).pieces@ == old(self).pieces@
                        &&& final(self).white_turn == old(self).white_turn
                    }
                },
            },
    {
        match self.selected_piece {
            Some(selected) => {
                let piece_under_mouse: Option<Piece> = self.piece_at(square);
                let piece_move: Move = self.check_movement(selected, square, piece_under_mouse);
                let committed: bool = self.apply_move(selected, square, &piece_move);
                self.selected_piece = None;
                if committed {
                    Click::Moved
                } else {
                    Click::Refused
                }
            },
            None => {
                match find_live(&self.pieces, square) {
                    Some(_) => {
                        self.selected_piece = Some(square);
                        Click::Selected
                    },
                    None => Click::Ignored,
                }
            },
        }
    }

    /// How to paint `square`: the selected square first, then the one under
    /// the pointer, then the chequered pattern, whose dark squares are those
    /// with an odd sum of column and row.
    pub fn square_shade(&self, square: (u8, u8), hovered: Option<(u8, u8)>) -> (shade: Shade)
        ensures
            shade == if self.selected_piece == Some(square) {
                Shade::Selected
            } else if hovered == Some(square) {
                Shade::Hovered
            } else if (square.0 + square.1) % 2 == 1 {
                Shade::Dark
            } else {
                Shade::Light
            },
    {
        let selected: bool = match self.selected_piece {
            Some(s) => s.0 == square.0 && s.1 == square.1,
            None => false,
        };
        let under_pointer: bool = match hovered {
            Some(h) => h.0 == square.0 && h.1 == square.1,
            None => false,
        };
        if selected {
            Shade::Selected
        } else if under_pointer {
            Shade::Hovered
        } else {
            let dark: bool = if square.1.is_even() {
                square.0.is_odd()
            } else {
                square.0.is_even()
            };
            if dark {
                Shade::Dark
            } else {
                Shade::Light
            }
        }
    }
}

} // verus!
