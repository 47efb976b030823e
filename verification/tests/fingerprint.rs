use chess_polyglot_reader::keys::{RANDOM_CASTLE, RANDOM_EN_PASSANT, RANDOM_PIECE, RANDOM_TURN};
use chess_polyglot_reader::position::en_passant_file;
use chess_polyglot_reader::{CastleRights, Piece, PieceType, PolyglotKey, Side, Square};

fn rights(king_side: bool, queen_side: bool) -> CastleRights {
    CastleRights { queen_side, king_side }
}

/// The pieces of the placement field of a FEN string, in the order in which
/// the field lists them: from the eighth rank down.
fn placement(field: &str) -> Vec<Piece> {
    let mut pieces = Vec::new();
    for (row, line) in field.split('/').enumerate() {
        let mut file = 0;
        for symbol in line.chars() {
            if let Some(gap) = symbol.to_digit(10) {
                file += gap as usize;
                continue;
            }
            let piece_type = match symbol.to_ascii_lowercase() {
                'p' => PieceType::Pawn,
                'n' => PieceType::Knight,
                'b' => PieceType::Bishop,
                'r' => PieceType::Rook,
                'q' => PieceType::Queen,
                _ => PieceType::King,
            };
            let side = if symbol.is_ascii_uppercase() { Side::White } else { Side::Black };
            pieces.push(Piece { piece_type, side, square: Square { rank: 7 - row, file } });
            file += 1;
        }
    }
    pieces
}

fn start_key() -> PolyglotKey {
    PolyglotKey::from_position(
        placement("rnbqkbnr/pppppppp/8/8/8/8/PPPPPPPP/RNBQKBNR"),
        rights(true, true),
        rights(true, true),
        None,
        Side::White,
    )
}

#[test]
fn piece_type_ordinals() {
    assert_eq!(PieceType::Pawn.index(), 0);
    assert_eq!(PieceType::Knight.index(), 1);
    assert_eq!(PieceType::Bishop.index(), 2);
    assert_eq!(PieceType::Rook.index(), 3);
    assert_eq!(PieceType::Queen.index(), 4);
    assert_eq!(PieceType::King.index(), 5);
}

#[test]
fn tables_have_their_known_ends() {
    assert_eq!(RANDOM_PIECE.len(), 768);
    assert_eq!(RANDOM_PIECE[0], 0x9D39247E33776D41);
    assert_eq!(RANDOM_PIECE[767], 0xD20D8C88C8FFE65F);
    assert_eq!(RANDOM_CASTLE, [0x31D71DCE64B2C310, 0xF165B587DF898190, 0xA57E6339DD2CF3A0, 0x1EF6E6DBB1961EC9]);
    assert_eq!(RANDOM_EN_PASSANT[0], 0x70CC73D90BC26E24);
    assert_eq!(RANDOM_EN_PASSANT[7], 0x67A34DAC4356550B);
    assert_eq!(RANDOM_TURN, 0xF8D626AAAF278509);
}

#[test]
fn table_constants_are_distinct() {
    let mut all: Vec<u64> = RANDOM_PIECE.to_vec();
    all.extend_from_slice(&RANDOM_CASTLE);
    all.extend_from_slice(&RANDOM_EN_PASSANT);
    all.push(RANDOM_TURN);
    assert_eq!(all.len(), 781);
    all.sort();
    all.dedup();
    assert_eq!(all.len(), 781);
}

#[test]
fn piece_hash_reads_the_table_by_kind_and_square() {
    let black_pawn_a1 = Piece {
        piece_type: PieceType::Pawn,
        side: Side::Black,
        square: Square { rank: 0, file: 0 },
    };
    assert_eq!(black_pawn_a1.polyglot_hash(), 0x9D39247E33776D41);
    let white_pawn_e2 = Piece {
        piece_type: PieceType::Pawn,
        side: Side::White,
        square: Square { rank: 1, file: 4 },
    };
    assert_eq!(white_pawn_e2.polyglot_hash(), RANDOM_PIECE[64 + 8 + 4]);
    let white_king_h8 = Piece {
        piece_type: PieceType::King,
        side: Side::White,
        square: Square { rank: 7, file: 7 },
    };
    assert_eq!(white_king_h8.polyglot_hash(), 0xD20D8C88C8FFE65F);
    let black_queen_c5 = Piece {
        piece_type: PieceType::Queen,
        side: Side::Black,
        square: Square { rank: 4, file: 2 },
    };
    assert_eq!(black_queen_c5.polyglot_hash(), RANDOM_PIECE[64 * 8 + 8 * 4 + 2]);
}

#[test]
fn every_piece_kind_and_square_reads_its_own_constant() {
    let types = [
        PieceType::Pawn,
        PieceType::Knight,
        PieceType::Bishop,
        PieceType::Rook,
        PieceType::Queen,
        PieceType::King,
    ];
    for (ordinal, &piece_type) in types.iter().enumerate() {
        for (white, &side) in [Side::Black, Side::White].iter().enumerate() {
            for rank in 0..8 {
                for file in 0..8 {
                    let piece = Piece { piece_type, side, square: Square { rank, file } };
                    let index = 64 * (2 * ordinal + white) + 8 * rank + file;
                    assert_eq!(piece.polyglot_hash(), RANDOM_PIECE[index]);
                }
            }
        }
    }
}

#[test]
fn castle_rights_hash() {
    assert_eq!(rights(false, false).polyglot_hash(Side::White), 0);
    assert_eq!(rights(false, false).polyglot_hash(Side::Black), 0);
    assert_eq!(rights(true, false).polyglot_hash(Side::White), 0x31D71DCE64B2C310);
    assert_eq!(rights(false, true).polyglot_hash(Side::White), 0xF165B587DF898190);
    assert_eq!(rights(true, false).polyglot_hash(Side::Black), 0xA57E6339DD2CF3A0);
    assert_eq!(rights(false, true).polyglot_hash(Side::Black), 0x1EF6E6DBB1961EC9);
    assert_eq!(
        rights(true, true).polyglot_hash(Side::White),
        0x31D71DCE64B2C310 ^ 0xF165B587DF898190
    );
    assert_eq!(
        rights(true, true).polyglot_hash(Side::Black),
        0xA57E6339DD2CF3A0 ^ 0x1EF6E6DBB1961EC9
    );
}

#[test]
fn empty_snapshot_hashes_to_the_turn_constant_only() {
    let mut key = PolyglotKey {
        pieces: Vec::new(),
        white_castle: rights(false, false),
        black_castle: rights(false, false),
        en_passant_file: None,
        turn: Side::Black,
    };
    assert_eq!(key.polyglot_hash(), 0);
    key.turn = Side::White;
    assert_eq!(key.polyglot_hash(), 0xF8D626AAAF278509);
    key.en_passant_file = Some(3);
    assert_eq!(key.polyglot_hash(), 0xF8D626AAAF278509 ^ 0x1C99DED33CB890A1);
}

#[test]
fn starting_position_has_the_reference_fingerprint() {
    assert_eq!(start_key().polyglot_hash(), 0x463b96181691fc9c);
}

#[test]
fn fingerprint_ignores_the_order_of_the_pieces() {
    let key = start_key();
    let expected = key.polyglot_hash();
    let mut reversed = key.clone();
    reversed.pieces.reverse();
    assert_eq!(reversed.polyglot_hash(), expected);
    let mut rotated = key.clone();
    for _ in 0..key.pieces.len() {
        rotated.pieces.rotate_left(1);
        assert_eq!(rotated.polyglot_hash(), expected);
    }
    let mut swapped = key.clone();
    for i in 0..swapped.pieces.len() {
        let j = (i * 7 + 3) % swapped.pieces.len();
        swapped.pieces.swap(i, j);
        assert_eq!(swapped.polyglot_hash(), expected);
    }
}

#[test]
fn a_piece_listed_twice_cancels_itself() {
    let mut key = start_key();
    let expected = key.polyglot_hash();
    let extra = Piece {
        piece_type: PieceType::Rook,
        side: Side::Black,
        square: Square { rank: 4, file: 4 },
    };
    key.pieces.push(extra);
    assert_ne!(key.polyglot_hash(), expected);
    key.pieces.push(extra);
    assert_eq!(key.polyglot_hash(), expected);
}

#[test]
fn pawn_push_without_a_capturer_leaves_the_file_out() {
    // After 1. e4 no black pawn stands beside the pawn on e4.
    let pieces = placement("rnbqkbnr/pppppppp/8/8/4P3/8/PPPP1PPP/RNBQKBNR");
    let pushed = Some(Square { rank: 3, file: 4 });
    assert_eq!(en_passant_file(&pieces, pushed, Side::Black), None);
    let key =
        PolyglotKey::from_position(pieces, rights(true, true), rights(true, true), pushed, Side::Black);
    assert_eq!(key.en_passant_file, None);
    assert_eq!(key.polyglot_hash(), 0x823c9b50fd114196);
}

#[test]
fn pawn_push_beside_a_capturer_puts_the_file_in() {
    // After 1. e4 d5 2. e5 f5 the white pawn on e5 stands beside the pawn on f5.
    let pieces = placement("rnbqkbnr/ppp1p1pp/8/3pPp2/8/8/PPPP1PPP/RNBQKBNR");
    let pushed = Some(Square { rank: 4, file: 5 });
    assert_eq!(en_passant_file(&pieces, pushed, Side::White), Some(5));
    let key = PolyglotKey::from_position(
        pieces.clone(),
        rights(true, true),
        rights(true, true),
        pushed,
        Side::White,
    );
    assert_eq!(key.en_passant_file, Some(5));
    assert_eq!(key.polyglot_hash(), 0x22a48b5a8e47ff78);
    // The same pieces with no pawn just pushed.
    let quiet =
        PolyglotKey::from_position(pieces, rights(true, true), rights(true, true), None, Side::White);
    assert_eq!(quiet.en_passant_file, None);
    assert_eq!(quiet.polyglot_hash(), 0x22a48b5a8e47ff78 ^ RANDOM_EN_PASSANT[5]);
}

#[test]
fn capturer_must_be_a_pawn_of_the_side_to_move_on_the_same_rank() {
    let pushed = Some(Square { rank: 3, file: 2 });
    let beside = |piece_type, side, rank, file| {
        vec![Piece { piece_type, side, square: Square { rank, file } }]
    };
    assert_eq!(en_passant_file(&beside(PieceType::Pawn, Side::Black, 3, 1), pushed, Side::Black), Some(2));
    assert_eq!(en_passant_file(&beside(PieceType::Pawn, Side::Black, 3, 3), pushed, Side::Black), Some(2));
    assert_eq!(en_passant_file(&beside(PieceType::Pawn, Side::White, 3, 1), pushed, Side::Black), None);
    assert_eq!(en_passant_file(&beside(PieceType::Knight, Side::Black, 3, 1), pushed, Side::Black), None);
    assert_eq!(en_passant_file(&beside(PieceType::Pawn, Side::Black, 2, 1), pushed, Side::Black), None);
    assert_eq!(en_passant_file(&beside(PieceType::Pawn, Side::Black, 3, 0), pushed, Side::Black), None);
    assert_eq!(en_passant_file(&beside(PieceType::Pawn, Side::Black, 3, 2), pushed, Side::Black), None);
    assert_eq!(en_passant_file(&beside(PieceType::Pawn, Side::Black, 3, 1), None, Side::Black), None);
    assert_eq!(en_passant_file(&Vec::new(), pushed, Side::Black), None);
}

#[test]
fn reference_fingerprints_without_a_chess_engine() {
    // Field by field: placement, side to move, white rights (king, queen),
    // black rights, pushed pawn, expected fingerprint.
    let cases = [
        ("rnbqkbnr/ppp1pppp/8/3p4/4P3/8/PPPP1PPP/RNBQKBNR", Side::White, (true, true), (true, true), Some((4, 3)), 0x0756b94461c50fb0u64),
        ("rnbqkbnr/ppp1pppp/8/3pP3/8/8/PPPP1PPP/RNBQKBNR", Side::Black, (true, true), (true, true), None, 0x662fafb965db29d4),
        ("rnbqkbnr/ppp1p1pp/8/3pPp2/8/8/PPPPKPPP/RNBQ1BNR", Side::Black, (false, false), (true, true), None, 0x652a607ca3f242c1),
        ("rnbq1bnr/ppp1pkpp/8/3pPp2/8/8/PPPPKPPP/RNBQ1BNR", Side::White, (false, false), (false, false), None, 0x00fdd303c946bdd9),
        ("rnbqkbnr/p1pppppp/8/8/PpP4P/8/1P1PPPP1/RNBQKBNR", Side::Black, (true, true), (true, true), Some((3, 2)), 0x3c8123ea7b067637),
        ("rnbqkbnr/p1pppppp/8/8/P6P/R1p5/1P1PPPP1/1NBQKBNR", Side::Black, (true, false), (true, true), None, 0x5c3f9b829b279560),
    ];
    for (field, turn, white, black, pushed, expected) in cases {
        let key = PolyglotKey::from_position(
            placement(field),
            rights(white.0, white.1),
            rights(black.0, black.1),
            pushed.map(|(rank, file)| Square { rank, file }),
            turn,
        );
        assert_eq!(key.polyglot_hash(), expected, "{}", field);
    }
}

#[test]
fn squares_on_and_off_the_board() {
    assert!(Square { rank: 0, file: 0 }.is_on_board());
    assert!(Square { rank: 7, file: 7 }.is_on_board());
    assert!(!Square { rank: 8, file: 0 }.is_on_board());
    assert!(!Square { rank: 0, file: 8 }.is_on_board());
    assert!(!Square { rank: usize::MAX, file: usize::MAX }.is_on_board());
}

#[test]
fn well_formed_snapshots() {
    let mut key = start_key();
    assert!(key.is_well_formed());
    key.en_passant_file = Some(7);
    assert!(key.is_well_formed());
    key.en_passant_file = Some(8);
    assert!(!key.is_well_formed());
    key.en_passant_file = None;
    key.pieces[31].square.file = 8;
    assert!(!key.is_well_formed());
    key.pieces[31].square.file = 7;
    key.pieces[0].square.rank = 9;
    assert!(!key.is_well_formed());
    key.pieces.remove(0);
    assert!(key.is_well_formed());
    key.pieces.clear();
    assert!(key.is_well_formed());
}
