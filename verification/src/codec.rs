//! The byte form of a board: 32 records of 8 bytes, one for each slot in
//! order. A record holds the kind, the column, the row, the colour, and the
//! count of moves as four bytes with the most significant first.

use vstd::prelude::*;
use vstd::slice::slice_subrange;
use crate::piece::{
    color_byte, color_of_byte, kind_byte, kind_of_byte, on_board, Piece, PieceColor, PieceType,
};

verus! {

/// The four bytes of a number, the most significant first.
pub open spec fn be_bytes(n: u32) -> Seq<u8> {
    seq![
        (n / 0x100_0000) as u8,
        ((n / 0x1_0000) % 0x100) as u8,
        ((n / 0x100) % 0x100) as u8,
        (n % 0x100) as u8,
    ]
}

/// The number whose four bytes, the most significant first, are these.
pub open spec fn be_value(b0: u8, b1: u8, b2: u8, b3: u8) -> u32 {
    (b0 * 0x100_0000 + b1 * 0x1_0000 + b2 * 0x100 + b3) as u32
}

/// The record of one slot.
pub open spec fn piece_bytes(piece: Piece) -> Seq<u8> {
    seq![
        kind_byte(piece.piece_type),
        piece.position.0,
        piece.position.1,
        color_byte(piece.color),
    ] + be_bytes(piece.num_of_moves)
}

/// The slot that a record stands for. There is none unless the record has 8
/// bytes, its kind and colour bytes are known, and its square lies on the
/// board.
pub open spec fn piece_of_bytes(bin: Seq<u8>) -> Option<Piece> {
    if bin.len() == 8 && kind_of_byte(bin[0]) is Some && on_board((bin[1], bin[2]))
        && color_of_byte(bin[3]) is Some {
        Some(
            Piece {
                piece_type: kind_of_byte(bin[0])->0,
                position: (bin[1], bin[2]),
                color: color_of_byte(bin[3])->0,
                num_of_moves: be_value(bin[4], bin[5], bin[6], bin[7]),
            },
        )
    } else {
        None
    }
}

/// The bytes of a board: the records of its slots, one after the other.
pub open spec fn board_bytes(pieces: Seq<Piece>) -> Seq<u8> {
    Seq::new(8 * pieces.len(), |k: int| piece_bytes(pieces[k / 8])[k % 8])
}

/// The `i`-th record of a buffer.
pub open spec fn record(bin: Seq<u8>, i: int) -> Seq<u8> {
    bin.subrange(8 * i, 8 * i + 8)
}

/// The board that a buffer stands for. There is none unless the buffer has
/// 256 bytes and each of its 32 records stands for a slot.
pub open spec fn board_of_bytes(bin: Seq<u8>) -> Option<Seq<Piece>> {
    if bin.len() == 256 && forall|i: int|
        0 <= i < 32 ==> piece_of_bytes(#[trigger] record(bin, i)) is Some {
        Some(Seq::new(32, |i: int| piece_of_bytes(record(bin, i))->0))
    } else {
        None
    }
}

/// Splitting a number into its four bytes and joining them gives it back.
pub proof fn lemma_be_round_trip(n: u32)
    ensures
        be_bytes(n).len() == 4,
        be_value(be_bytes(n)[0], be_bytes(n)[1], be_bytes(n)[2], be_bytes(n)[3]) == n,
{
}

/// Joining four bytes and splitting the number gives the bytes back.
pub proof fn lemma_be_bytes_unique(b0: u8, b1: u8, b2: u8, b3: u8)
    ensures
        be_bytes(be_value(b0, b1, b2, b3)) == seq![b0, b1, b2, b3],
{
    let n = be_value(b0, b1, b2, b3);
    assert(n == b0 * 0x100_0000 + b1 * 0x1_0000 + b2 * 0x100 + b3);
    assert(n / 0x100_0000 == b0 && (n / 0x1_0000) % 0x100 == b1 && (n / 0x100) % 0x100 == b2 && n
        % 0x100 == b3) by (bit_vector)
        requires
            n == b0 * 0x100_0000 + b1 * 0x1_0000 + b2 * 0x100 + b3,
    ;
    assert(be_bytes(n) =~= seq![b0, b1, b2, b3]);
}

/// Reading back the record of a slot whose square lies on the board gives the
/// slot, field by field.
pub proof fn lemma_piece_round_trip(piece: Piece)
    requires
        on_board(piece.position),
    ensures
        piece_bytes(piece).len() == 8,
        piece_of_bytes(piece_bytes(piece)) == Some(piece),
{
    lemma_be_round_trip(piece.num_of_moves);
}

/// A record that stands for a slot is the record of that slot, byte by byte.
pub proof fn lemma_piece_bytes_unique(bin: Seq<u8>, piece: Piece)
    requires
        piece_of_bytes(bin) == Some(piece),
    ensures
        piece_bytes(piece) == bin,
{
    lemma_be_bytes_unique(bin[4], bin[5], bin[6], bin[7]);
    assert(piece_bytes(piece) =~= bin);
}

/// Reading back the bytes of a board gives the board, slot by slot and field
/// by field, whenever the board has 32 slots whose squares lie on the board:
/// so for every valid board.
pub proof fn lemma_board_round_trip(pieces: Seq<Piece>)
    requires
        pieces.len() == 32,
        forall|i: int| 0 <= i < 32 ==> on_board(#[trigger] pieces[i].position),
    ensures
        board_bytes(pieces).len() == 256,
        board_of_bytes(board_bytes(pieces)) == Some(pieces),
{
    let bin = board_bytes(pieces);
    assert forall|i: int| 0 <= i < 32 implies piece_of_bytes(#[trigger] record(bin, i)) == Some(
        pieces[i],
    ) by {
        lemma_piece_round_trip(pieces[i]);
        assert(record(bin, i) =~= piece_bytes(pieces[i]));
    }
    assert(board_of_bytes(bin)->0 =~= pieces);
}

/// A buffer that stands for a board holds the bytes of that board.
pub proof fn lemma_board_bytes_unique(bin: Seq<u8>, pieces: Seq<Piece>)
    requires
        board_of_bytes(bin) == Some(pieces),
    ensures
        board_bytes(pieces) == bin,
{
    assert forall|k: int| 0 <= k < 256 implies board_bytes(pieces)[k] == bin[k] by {
        let i = k / 8;
        assert(piece_of_bytes(record(bin, i)) is Some);
        lemma_piece_bytes_unique(record(bin, i), pieces[i]);
        assert(record(bin, i)[k % 8] == bin[k]);
    }
    assert(board_bytes(pieces) =~= bin);
}

impl Piece {
    pub fn to_bin(&self) -> (bin: [u8; 8])
        ensures
            bin@ == piece_bytes(*self),
    {
        let n: u32 = self.num_of_moves;
        let bin: [u8; 8] = [
            self.piece_type.to_bin(),
            self.position.0,
            self.position.1,
            self.color.to_bin(),
            (n / 0x100_0000) as u8,
            ((n / 0x1_0000) % 0x100) as u8,
            ((n / 0x100) % 0x100) as u8,
            (n % 0x100) as u8,
        ];
        assert(bin@ =~= piece_bytes(*self));
        bin
    }

    /// Reads a slot back from its record, or gives `None` where the bytes are
    /// no record of a slot.
    pub fn from_bin(bin: &[u8]) -> (piece: Option<Piece>)
        ensures
            piece == piece_of_bytes(bin@),
    {
        if bin.len() != 8 {
            return None;
        }
        let piece_type: PieceType = match PieceType::from_bin(bin[0]) {
            Some(kind) => kind,
            None => {
                return None;
            },
        };
        if bin[1] >= 8 || bin[2] >= 8 {
            return None;
        }
        let color: PieceColor = match PieceColor::from_bin(bin[3]) {
            Some(color) => color,
            None => {
                return None;
            },
        };
        let num_of_moves: u32 = (bin[4] as u32) * 0x100_0000 + (bin[5] as u32) * 0x1_0000 + (
        bin[6] as u32) * 0x100 + (bin[7] as u32);
        Some(Piece { piece_type, position: (bin[1], bin[2]), color, num_of_moves })
    }
}

/// A board that can be written out as bytes.
pub trait ChessBoard {
    fn to_bin(&self) -> [u8; 256];
}

impl ChessBoard for [Piece; 32] {
    fn to_bin(&self) -> (bin: [u8; 256])
        ensures
            bin@ == board_bytes(self@),
    {
        let mut bin: [u8; 256] = [0u8; 256];
        let mut i: usize = 0;
        while i < 32
            invariant
                i <= 32,
                forall|k: int| 0 <= k < 8 * i ==> bin@[k] == board_bytes(self@)[k],
            decreases 32 - i,
        {
            let piece_bytes: [u8; 8] = self[i].to_bin();
            let mut j: usize = 0;
            while j < 8
                invariant
                    i < 32,
                    j <= 8,
                    piece_bytes@ == crate::codec::piece_bytes(self@[i as int]),
                    forall|k: int| 0 <= k < 8 * i + j ==> bin@[k] == board_bytes(self@)[k],
                decreases 8 - j,
            {
                bin[8 * i + j] = piece_bytes[j];
                j += 1;
            }
            i += 1;
        }
        assert(bin@ =~= board_bytes(self@));
        bin
    }
}

/// Reads a board back from its bytes, or gives `None` where the buffer is not
/// 256 bytes long or one of its records is no record of a slot.
pub fn chess_board_from_bin(bin: &[u8]) -> (board: Option<[Piece; 32]>)
    ensures
        match board {
            Some(pieces) => board_of_bytes(bin@) == Some(pieces@),
            None => board_of_bytes(bin@) is None,
        },
{
    if bin.len() != 256 {
        return None;
    }
    let blank: Piece = Piece {
        piece_type: PieceType::Dead,
        position: (0, 0),
        color: PieceColor::Black,
        num_of_moves: 0,
    };
    let mut pieces: [Piece; 32] = [blank; 32];
    let mut i: usize = 0;
    while i < 32
        invariant
            i <= 32,
            bin@.len() == 256,
            forall|k: int| 0 <= k < i ==> piece_of_bytes(#[trigger] record(bin@, k)) == Some(pieces@[k]),
        decreases 32 - i,
    {
        let chunk: &[u8] = slice_subrange(bin, 8 * i, 8 * i + 8);
        match Piece::from_bin(chunk) {
            Some(piece) => {
                pieces[i] = piece;
            },
            None => {
                assert(piece_of_bytes(record(bin@, i as int)) is None);
                return None;
            },
        }
        i += 1;
    }
    assert(board_of_bytes(bin@)->0 =~= pieces@);
    Some(pieces)
}

} // verus!
