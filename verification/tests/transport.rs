use chess_rules::codec::ChessBoard;
use chess_rules::game::{ChessGame, Click};
use chess_rules::transport::{export_board, import_board, seal_board, ImportError};

fn squeeze(data: &[u8]) -> Vec<u8> {
    let mut input = std::io::Cursor::new(data);
    let mut output = std::io::Cursor::new(Vec::new());
    let params = brotli::enc::BrotliEncoderParams::default();
    brotli::BrotliCompress(&mut input, &mut output, &params).expect("memory to memory");
    output.into_inner()
}

#[test]
fn exported_board_reads_back() {
    let game = ChessGame::new();
    let line = export_board(&game.pieces).expect("the opening board can be written");
    assert_eq!(import_board(&line), Ok(game.pieces));
}

#[test]
fn exported_board_reads_back_after_moves() {
    let mut game = ChessGame::new();
    for (from, to) in [((4, 6), (4, 4)), ((3, 1), (3, 3)), ((4, 4), (3, 3))] {
        assert_eq!(game.click(from), Click::Selected);
        assert_eq!(game.click(to), Click::Moved);
        let line = export_board(&game.pieces).expect("a board can be written");
        assert_eq!(import_board(&line), Ok(game.pieces));
    }
}

#[test]
fn exported_text_is_url_safe_and_unpadded() {
    let line = export_board(&ChessGame::new().pieces).expect("the opening board can be written");
    assert!(!line.is_empty());
    assert!(line.len() < 256);
    assert!(line.chars().all(|c| c.is_ascii_alphanumeric() || c == '-' || c == '_'));
}

#[test]
fn exported_text_is_the_compressed_bytes_in_base64() {
    let game = ChessGame::new();
    let line = export_board(&game.pieces).expect("the opening board can be written");
    let stream = base64::decode_config(&line, base64::URL_SAFE_NO_PAD).expect("base64");
    let mut input = std::io::Cursor::new(stream);
    let mut output = std::io::Cursor::new(Vec::new());
    brotli::BrotliDecompress(&mut input, &mut output).expect("a brotli stream");
    assert_eq!(output.into_inner(), game.pieces.to_bin().to_vec());
}

#[test]
fn import_reads_a_text_made_with_the_two_crates() {
    let mut game = ChessGame::new();
    game.pieces[7].num_of_moves = 1234;
    let line = base64::encode_config(squeeze(&game.pieces.to_bin()), base64::URL_SAFE_NO_PAD);
    assert_eq!(import_board(&line), Ok(game.pieces));
}

#[test]
fn import_refuses_a_text_that_is_not_base64() {
    assert_eq!(import_board("!!!"), Err(ImportError::Text));
    assert_eq!(import_board("ab cd"), Err(ImportError::Text));
    assert_eq!(import_board("a"), Err(ImportError::Text));
}

#[test]
fn import_refuses_the_padded_and_the_standard_alphabet() {
    let line = base64::encode_config(squeeze(&ChessGame::new().pieces.to_bin()), base64::STANDARD);
    assert!(line.contains('=') || line.contains('+') || line.contains('/'));
    assert_eq!(import_board(&line), Err(ImportError::Text));
}

#[test]
fn import_refuses_bytes_that_are_no_stream() {
    let line = base64::encode_config([0xffu8; 40], base64::URL_SAFE_NO_PAD);
    assert_eq!(import_board(&line), Err(ImportError::Stream));
    assert_eq!(import_board(""), Err(ImportError::Stream));
}

#[test]
fn import_refuses_a_stream_that_is_cut_short() {
    let stream = squeeze(&ChessGame::new().pieces.to_bin());
    let line = base64::encode_config(&stream[..stream.len() / 2], base64::URL_SAFE_NO_PAD);
    assert_eq!(import_board(&line), Err(ImportError::Stream));
}

#[test]
fn import_refuses_a_stream_that_holds_no_board() {
    let line = base64::encode_config(squeeze(b"not a board"), base64::URL_SAFE_NO_PAD);
    assert_eq!(import_board(&line), Err(ImportError::Board));
    let mut bin = ChessGame::new().pieces.to_bin();
    bin[0] = 200;
    let line = base64::encode_config(squeeze(&bin), base64::URL_SAFE_NO_PAD);
    assert_eq!(import_board(&line), Err(ImportError::Board));
    let line = base64::encode_config(squeeze(&bin[..248]), base64::URL_SAFE_NO_PAD);
    assert_eq!(import_board(&line), Err(ImportError::Board));
}

#[test]
fn sealing_a_stream_of_the_board_gives_its_text() {
    let game = ChessGame::new();
    let stream = squeeze(&game.pieces.to_bin());
    let line = seal_board(&game.pieces, &stream).expect("the stream holds this board");
    assert_eq!(line, base64::encode_config(&stream, base64::URL_SAFE_NO_PAD));
    assert_eq!(import_board(&line), Ok(game.pieces));
}

#[test]
fn sealing_a_stream_of_another_board_gives_nothing() {
    let game = ChessGame::new();
    let mut other = game;
    other.pieces[12].position = (4, 4);
    let stream = squeeze(&other.pieces.to_bin());
    assert_eq!(seal_board(&game.pieces, &stream), None);
    assert!(seal_board(&other.pieces, &stream).is_some());
    let mut counted = game;
    counted.pieces[0].num_of_moves = 1;
    assert_eq!(seal_board(&counted.pieces, &squeeze(&game.pieces.to_bin())), None);
}

#[test]
fn sealing_a_damaged_stream_gives_nothing() {
    let game = ChessGame::new();
    let stream = squeeze(&game.pieces.to_bin());
    assert_eq!(seal_board(&game.pieces, &stream[..stream.len() - 1]), None);
    assert_eq!(seal_board(&game.pieces, &[]), None);
    assert_eq!(seal_board(&game.pieces, &[0xff; 16]), None);
    assert_eq!(seal_board(&game.pieces, &game.pieces.to_bin()), None);
    assert_eq!(seal_board(&game.pieces, &squeeze(&game.pieces.to_bin()[..255])), None);
}

#[test]
fn export_is_the_sealed_stream_of_the_board() {
    let mut game = ChessGame::new();
    assert_eq!(game.click((6, 7)), Click::Selected);
    assert_eq!(game.click((5, 5)), Click::Moved);
    let line = export_board(&game.pieces).expect("a board can be written");
    let stream = base64::decode_config(&line, base64::URL_SAFE_NO_PAD).expect("base64");
    assert_eq!(seal_board(&game.pieces, &stream), Some(line));
}
