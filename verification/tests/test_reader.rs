use chess_polyglot_reader::{PolyglotKey, PolyglotReader};
use std::str::FromStr;

const TESTS: &[&str] = &["rnbqkbnr/pppppppp/8/8/8/8/PPPPPPPP/RNBQKBNR w KQkq - 0 1"];

/// A small sorted book that holds three openings for the starting position,
/// between records for other positions.
fn test_book() -> Vec<u8> {
    let records: [(u64, u16, u16); 6] = [
        (0x0000000000000001, 0x031C, 1),
        (0x463b96181691fc9b, 0x02DB, 2),
        (0x463b96181691fc9c, 0x031C, 50), // e2e4
        (0x463b96181691fc9c, 0x02DB, 30), // d2d4
        (0x463b96181691fc9c, 0x0195, 20), // g1f3
        (0x823c9b50fd114196, 0x0E24, 7),
    ];
    let mut book = Vec::new();
    for (key, packed, weight) in records {
        book.extend_from_slice(&key.to_be_bytes());
        book.extend_from_slice(&packed.to_be_bytes());
        book.extend_from_slice(&weight.to_be_bytes());
        book.extend_from_slice(&[0; 4]);
    }
    book
}

#[test]
fn test_reader() {
    let reader = PolyglotReader::new(test_book());

    for (i, &fen) in TESTS.iter().enumerate() {
        let board = chess::Board::from_str(fen).unwrap();
        let k = PolyglotKey::from_board(&board);
        let moves = reader.get(&k).unwrap();
        assert!(!moves.is_empty(), "Testing reading openings for '{}' (Test {})", fen, i + 1);
        let weights: Vec<u16> = moves.iter().map(|entry| entry.weight).collect();
        let moves: Vec<_> = moves
            .into_iter()
            .map(|mv| format!("{}", chess::ChessMove::from(mv.mv)))
            .collect();
        println!("Got [{}]", moves.join(", "));
        assert_eq!(moves, vec!["e2e4", "d2d4", "g1f3"]);
        assert_eq!(weights, vec![50, 30, 20]);
    }
}
