//! A board as a line of text, fit to be handed to a web page: its bytes,
//! compressed with Brotli, written in the URL-safe base64 alphabet without
//! padding.

use vstd::prelude::*;
use crate::board::same_pieces;
use crate::codec::{board_of_bytes, chess_board_from_bin, ChessBoard};
use crate::piece::Piece;

verus! {

/// The bytes that a Brotli stream expands to, or `None` where the bytes are
/// no complete Brotli stream.
pub uninterp spec fn brotli_decoded(stream: Seq<u8>) -> Option<Seq<u8>>;

/// The text that stands for the bytes in the URL-safe base64 alphabet, without
/// padding.
pub uninterp spec fn base64_text(data: Seq<u8>) -> Seq<char>;

/// The bytes that a text in the URL-safe base64 alphabet, without padding,
/// stands for, or `None` where the text is no such text.
pub uninterp spec fn base64_data(text: Seq<char>) -> Option<Seq<u8>>;

/// Why a text is not a board.
#[derive(Clone, Copy, Debug, PartialEq, Eq, Structural)]
pub enum ImportError {
    /// The text is not base64.
    Text,
    /// The bytes behind the text are no Brotli stream.
    Stream,
    /// The expanded bytes are no board.
    Board,
}

/// The board that a text stands for, or the first step at which reading it
/// fails.
pub open spec fn imported(text: Seq<char>) -> Result<Seq<Piece>, ImportError> {
    match base64_data(text) {
        None => Err(ImportError::Text),
        Some(stream) => match brotli_decoded(stream) {
            None => Err(ImportError::Stream),
            Some(bin) => match board_of_bytes(bin) {
                None => Err(ImportError::Board),
                Some(pieces) => Ok(pieces),
            },
        },
    }
}

/// Calls `brotli::BrotliCompress` with the default parameters, from memory to
/// memory. Nothing is claimed of the stream: the encoder weighs its choices
/// with floating-point logarithms, so this library does not rely on two
/// machines writing the same one. `None` stands for the error that the call
/// may return.
#[verifier::external_body]
fn compress(data: &[u8]) -> (stream: Option<Vec<u8>>) {
    let mut input = std::io::Cursor::new(data);
    let mut output = std::io::Cursor::new(Vec::with_capacity(100));
    let params = brotli::enc::BrotliEncoderParams::default();
    match brotli::BrotliCompress(&mut input, &mut output, &params) {
        Ok(_) => Some(output.into_inner()),
        Err(_) => None,
    }
}

/// Calls `brotli::BrotliDecompress` from memory to memory. The claim is that
/// what comes out depends on the stream alone; `None` stands for the error
/// that the call returns on bytes that are no complete stream.
#[verifier::external_body]
fn decompress(stream: &[u8]) -> (data: Option<Vec<u8>>)
    ensures
        match data {
            Some(bytes) => brotli_decoded(stream@) == Some(bytes@),
            None => brotli_decoded(stream@) is None,
        },
{
    let mut input = std::io::Cursor::new(stream);
    let mut output = std::io::Cursor::new(Vec::with_capacity(256));
    match brotli::BrotliDecompress(&mut input, &mut output) {
        Ok(_) => Some(output.into_inner()),
        Err(_) => None,
    }
}

/// Calls `base64::encode_config` with `URL_SAFE_NO_PAD`. The claim is that
/// the text depends on the bytes alone. The call panics only where the length
/// of the text overflows `usize`, which no slice in memory is long enough for.
#[verifier::external_body]
fn to_base64(data: &[u8]) -> (text: String)
    ensures
        text@ == base64_text(data@),
{
    base64::encode_config(data, base64::URL_SAFE_NO_PAD)
}

/// Calls `base64::decode_config` with `URL_SAFE_NO_PAD`. The claim is that
/// what comes out depends on the text alone; `None` stands for the error that
/// the call returns on a text that is not base64.
#[verifier::external_body]
fn from_base64(text: &str) -> (data: Option<Vec<u8>>)
    ensures
        match data {
            Some(bytes) => base64_data(text@) == Some(bytes@),
            None => base64_data(text@) is None,
        },
{
    match base64::decode_config(text, base64::URL_SAFE_NO_PAD) {
        Ok(bytes) => Some(bytes),
        Err(_) => None,
    }
}

/// Reads a board back from its text.
pub fn import_board(text: &str) -> (board: Result<[Piece; 32], ImportError>)
    ensures
        match board {
            Ok(pieces) => imported(text@) == Ok::<Seq<Piece>, ImportError>(pieces@),
            Err(why) => imported(text@) == Err::<Seq<Piece>, ImportError>(why),
        },
{
    let stream: Vec<u8> = match from_base64(text) {
        Some(stream) => stream,
        None => {
            return Err(ImportError::Text);
        },
    };
    let bin: Vec<u8> = match decompress(stream.as_slice()) {
        Some(bin) => bin,
        None => {
            return Err(ImportError::Stream);
        },
    };
    match chess_board_from_bin(bin.as_slice()) {
        Some(pieces) => Ok(pieces),
        None => Err(ImportError::Board),
    }
}

/// Writes a board as text: compresses its bytes and hands the stream to
/// `seal_board`. Whether a text comes out is for the compressor to decide;
/// one that does come out stands for the board that went in.
pub fn export_board(pieces: &[Piece; 32]) -> (text: Option<String>)
    ensures
        text matches Some(line) ==> imported(line@) == Ok::<Seq<Piece>, ImportError>(pieces@),
{
    let bin: [u8; 256] = pieces.to_bin();
    let stream: Vec<u8> = match compress(bin.as_slice()) {
        Some(stream) => stream,
        None => {
            return None;
        },
    };
    seal_board(pieces, stream.as_slice())
}

/// The text for `stream`, if that text reads back to `pieces`; else nothing.
pub open spec fn sealed(pieces: Seq<Piece>, stream: Seq<u8>) -> Option<Seq<char>> {
    if imported(base64_text(stream)) == Ok::<Seq<Piece>, ImportError>(pieces) {
        Some(base64_text(stream))
    } else {
        None
    }
}

/// Writes a compressed stream as text and reads the text back. The text is
/// handed out if and only if it gives `pieces` again, slot by slot: so a
/// stream that is damaged, or that holds another board, yields nothing.
pub fn seal_board(pieces: &[Piece; 32], stream: &[u8]) -> (text: Option<String>)
    ensures
        match text {
            Some(line) => sealed(pieces@, stream@) == Some(line@),
            None => sealed(pieces@, stream@) is None,
        },
{
    let line: String = to_base64(stream);
    match import_board(line.as_str()) {
        Ok(back) => {
            if same_pieces(&back, pieces) {
                Some(line)
            } else {
                None
            }
        },
        Err(_) => None,
    }
}

} // verus!
