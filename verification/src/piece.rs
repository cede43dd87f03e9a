//! Pieces, their colours and kinds, and the byte that stands for each.

use vstd::prelude::*;

verus! {

/// What a slot of the board holds. `Dead` marks a slot whose piece was
/// captured: the slot stays, so the board never changes size, but it no longer
/// stands on any square.
#[derive(Clone, Copy, Debug, PartialEq, Eq, Structural)]
pub enum PieceType {
    Pawn,
    Rook,
    Knight,
    Bishop,
    Queen,
    King,
    Dead,
}

#[derive(Clone, Copy, Debug, PartialEq, Eq, Structural)]
pub enum PieceColor {
    Black,
    White,
}

/// One slot of the board. `position` is column then row, each from 0 to 7;
/// row 0 is Black's back rank and row 7 is White's.
#[derive(Clone, Copy, Debug, PartialEq, Eq)]
pub struct Piece {
    pub piece_type: PieceType,
    pub position: (u8, u8),
    pub color: PieceColor,
    /// How often the piece has moved. Only pawns read it: their first move
    /// may be a double step.
    pub num_of_moves: u32,
}

/// The square lies on the 8 by 8 board.
pub open spec fn on_board(square: (u8, u8)) -> bool {
    square.0 < 8 && square.1 < 8
}

/// The slot holds a piece that is still in play.
pub open spec fn is_live(piece: Piece) -> bool {
    piece.piece_type != PieceType::Dead
}

/// The byte that stands for a kind.
pub open spec fn kind_byte(kind: PieceType) -> u8 {
    match kind {
        PieceType::Dead => 0,
        PieceType::Pawn => 1,
        PieceType::Rook => 2,
        PieceType::Knight => 3,
        PieceType::Bishop => 4,
        PieceType::King => 5,
        PieceType::Queen => 6,
    }
}

/// The kind that a byte stands for, if any.
pub open spec fn kind_of_byte(bin: u8) -> Option<PieceType> {
    if bin == 0 {
        Some(PieceType::Dead)
    } else if bin == 1 {
        Some(PieceType::Pawn)
    } else if bin == 2 {
        Some(PieceType::Rook)
    } else if bin == 3 {
        Some(PieceType::Knight)
    } else if bin == 4 {
        Some(PieceType::Bishop)
    } else if bin == 5 {
        Some(PieceType::King)
    } else if bin == 6 {
        Some(PieceType::Queen)
    } else {
        None
    }
}

/// The letters drawn on the board for a kind.
pub open spec fn kind_label(kind: PieceType) -> Seq<char> {
    match kind {
        PieceType::Pawn => "P"@,
        PieceType::Rook => "R"@,
        PieceType::Knight => "Kn"@,
        PieceType::Bishop => "B"@,
        PieceType::King => "Ki"@,
        PieceType::Queen => "Q"@,
        PieceType::Dead => ""@,
    }
}

impl PieceType {
    pub fn to_str(&self) -> (label: &'static str)
        ensures
            label@ == kind_label(*self),
    {
        match self {
            PieceType::Pawn => "P",
            PieceType::Rook => "R",
            PieceType::Knight => "Kn",
            PieceType::Bishop => "B",
            PieceType::King => "Ki",
            PieceType::Queen => "Q",
            PieceType::Dead => "",
        }
    }

    pub fn to_bin(&self) -> (bin: u8)
        ensures
            bin == kind_byte(*self),
    {
        match self {
            PieceType::Pawn => 1,
            PieceType::Rook => 2,
            PieceType::Knight => 3,
            PieceType::Bishop => 4,
            PieceType::King => 5,
            PieceType::Queen => 6,
            PieceType::Dead => 0,
        }
    }

    /// Reads a kind back from its byte; a byte above 6 stands for none.
    pub fn from_bin(bin: u8) -> (kind: Option<PieceType>)
        ensures
            kind == kind_of_byte(bin),
    {
        match bin {
            1 => Some(PieceType::Pawn),
            2 => Some(PieceType::Rook),
            3 => Some(PieceType::Knight),
            4 => Some(PieceType::Bishop),
            5 => Some(PieceType::King),
            6 => Some(PieceType::Queen),
            0 => Some(PieceType::Dead),
            _ => None,
        }
    }
}

/// The byte that stands for a colour.
pub open spec fn color_byte(color: PieceColor) -> u8 {
    match color {
        PieceColor::Black => 0,
        PieceColor::White => 1,
    }
}

/// The colour that a byte stands for, if any.
pub open spec fn color_of_byte(bin: u8) -> Option<PieceColor> {
    if bin == 0 {
        Some(PieceColor::Black)
    } else if bin == 1 {
        Some(PieceColor::White)
    } else {
        None
    }
}

impl PieceColor {
    pub fn to_bin(&self) -> (bin: u8)
        ensures
            bin == color_byte(*self),
    {
        match self {
            PieceColor::Black => 0,
            PieceColor::White => 1,
        }
    }

    /// Reads a colour back from its byte; a byte above 1 stands for none.
    pub fn from_bin(bin: u8) -> (color: Option<PieceColor>)
        ensures
            color == color_of_byte(bin),
    {
        match bin {
            0 => Some(PieceColor::Black),
            1 => Some(PieceColor::White),
            _ => None,
        }
    }
}

/// Whether the square lies on the board.
pub fn is_on_board(square: (u8, u8)) -> (yes: bool)
    ensures
        yes == on_board(square),
{
    square.0 < 8 && square.1 < 8
}

impl Piece {
    /// Whether the slot holds a piece that is still in play.
    pub fn alive(&self) -> (live: bool)
        ensures
            live == is_live(*self),
    {
        match self.piece_type {
            PieceType::Dead => false,
            _ => true,
        }
    }

    /// Whether a piece in play stands on `square`. A captured piece keeps its
    /// last square in the record but stands nowhere.
    pub fn stands_on(&self, square: (u8, u8)) -> (there: bool)
        ensures
            there == (is_live(*self) && self.position == square),
    {
        self.alive() && self.position.0 == square.0 && self.position.1 == square.1
    }

    /// Whether the two records agree in every field.
    pub fn same_as(&self, other: &Piece) -> (same: bool)
        ensures
            same == (*self == *other),
    {
        self.piece_type == other.piece_type && self.position.0 == other.position.0
            && self.position.1 == other.position.1 && self.color == other.color
            && self.num_of_moves == other.num_of_moves
    }

    /// Whether the two pieces belong to the same player.
    pub fn same_side(&self, other: &Piece) -> (same: bool)
        ensures
            same == (self.color == other.color),
    {
        self.color == other.color
    }
}

} // verus!
