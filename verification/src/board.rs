//! Snapshots of positions that the `chess` crate holds, and conversions
//! between that crate's types and the types of this library.
//!
//! What the `chess` crate computes is not verified here. Each call into it
//! stands in a small function of its own, whose contract is taken on trust
//! from the crate's source; where the contract gives the result a name, the
//! name stands for what the crate returns on those arguments.

use crate::entry::Move;
use crate::position::{CastleRights, Piece, PieceType, PolyglotKey, Side, Square};
use vstd::prelude::*;
use vstd::std_specs::convert::FromSpecImpl;

verus! {

/// `chess::Color`, an enum without fields: White, Black.
#[verifier::external_type_specification]
pub struct ExColor(chess::Color);

/// `chess::ChessMove`, carried through as it is.
#[verifier::external_type_specification]
#[verifier::external_body]
pub struct ExChessMove(chess::ChessMove);

/// `chess::Board`, carried through as it is.
#[verifier::external_type_specification]
#[verifier::external_body]
pub struct ExBoard(chess::Board);

impl From<chess::Color> for Side {
    fn from(color: chess::Color) -> (side: Side) {
        match color {
            chess::Color::White => Side::White,
            chess::Color::Black => Side::Black,
        }
    }
}

impl FromSpecImpl<chess::Color> for Side {
    open spec fn obeys_from_spec() -> bool {
        true
    }

    open spec fn from_spec(color: chess::Color) -> Side {
        match color {
            chess::Color::White => Side::White,
            chess::Color::Black => Side::Black,
        }
    }
}

impl From<Side> for chess::Color {
    fn from(side: Side) -> (color: chess::Color) {
        match side {
            Side::White => chess::Color::White,
            Side::Black => chess::Color::Black,
        }
    }
}

impl FromSpecImpl<Side> for chess::Color {
    open spec fn obeys_from_spec() -> bool {
        true
    }

    open spec fn from_spec(side: Side) -> chess::Color {
        match side {
            Side::White => chess::Color::White,
            Side::Black => chess::Color::Black,
        }
    }
}

/// The source, destination and promotion of a move of the `chess` crate:
/// what `ChessMove::get_source`, `get_dest` and `get_promotion` return, the
/// squares by the indices of their rank and file.
pub uninterp spec fn move_parts(mv: chess::ChessMove) -> Move;

/// The kind of the piece on a square of a board: what `Board::piece_on`
/// returns.
pub uninterp spec fn board_piece(board: chess::Board, square: Square) -> Option<PieceType>;

/// The side of the piece on a square of a board: what `Board::color_on`
/// returns.
pub uninterp spec fn board_color(board: chess::Board, square: Square) -> Option<Side>;

/// The castling rights of a side on a board: what `Board::castle_rights`
/// returns.
pub uninterp spec fn board_castle_rights(board: chess::Board, side: Side) -> CastleRights;

/// The square of the pawn that can be captured en passant on a board: what
/// `Board::en_passant` returns.
pub uninterp spec fn board_en_passant(board: chess::Board) -> Option<Square>;

/// The side to move on a board: what `Board::side_to_move` returns.
pub uninterp spec fn board_side_to_move(board: chess::Board) -> Side;

/// Reads a move of the `chess` crate with `ChessMove::get_source`,
/// `get_dest` and `get_promotion`. Ranks and files are enums of eight
/// variants, numbered from zero, so both squares lie on the board.
#[verifier::external_body]
fn move_from_chess(mv: chess::ChessMove) -> (own: Move)
    ensures
        own == move_parts(mv),
        own.source.on_board(),
        own.dest.on_board(),
{
    let (source, dest) = (mv.get_source(), mv.get_dest());
    Move {
        source: Square { rank: source.get_rank().to_index(), file: source.get_file().to_index() },
        dest: Square { rank: dest.get_rank().to_index(), file: dest.get_file().to_index() },
        promotion: match mv.get_promotion() {
            None => None,
            Some(chess::Piece::Pawn) => Some(PieceType::Pawn),
            Some(chess::Piece::Knight) => Some(PieceType::Knight),
            Some(chess::Piece::Bishop) => Some(PieceType::Bishop),
            Some(chess::Piece::Rook) => Some(PieceType::Rook),
            Some(chess::Piece::Queen) => Some(PieceType::Queen),
            Some(chess::Piece::King) => Some(PieceType::King),
        },
    }
}

/// Calls `ChessMove::new` of the `chess` crate, which stores its three
/// arguments, on squares made by `Square::make_square`. For squares on the
/// board, the move that it makes reads back as the move that was given.
#[verifier::external_body]
fn move_to_chess(mv: Move) -> (theirs: chess::ChessMove)
    ensures
        mv.source.on_board() && mv.dest.on_board() ==> move_parts(theirs) == mv,
{
    let (source, dest) = (mv.source, mv.dest);
    chess::ChessMove::new(
        chess::Square::make_square(chess::Rank::from_index(source.rank), chess::File::from_index(source.file)),
        chess::Square::make_square(chess::Rank::from_index(dest.rank), chess::File::from_index(dest.file)),
        match mv.promotion {
            None => None,
            Some(PieceType::Pawn) => Some(chess::Piece::Pawn),
            Some(PieceType::Knight) => Some(chess::Piece::Knight),
            Some(PieceType::Bishop) => Some(chess::Piece::Bishop),
            Some(PieceType::Rook) => Some(chess::Piece::Rook),
            Some(PieceType::Queen) => Some(chess::Piece::Queen),
            Some(PieceType::King) => Some(chess::Piece::King),
        },
    )
}

/// Calls `Board::piece_on` of the `chess` crate for a square on the board.
#[verifier::external_body]
fn piece_on(board: &chess::Board, square: Square) -> (piece: Option<PieceType>)
    requires
        square.on_board(),
    ensures
        piece == board_piece(*board, square),
{
    let (rank, file) = (chess::Rank::from_index(square.rank), chess::File::from_index(square.file));
    match board.piece_on(chess::Square::make_square(rank, file)) {
        None => None,
        Some(chess::Piece::Pawn) => Some(PieceType::Pawn),
        Some(chess::Piece::Knight) => Some(PieceType::Knight),
        Some(chess::Piece::Bishop) => Some(PieceType::Bishop),
        Some(chess::Piece::Rook) => Some(PieceType::Rook),
        Some(chess::Piece::Queen) => Some(PieceType::Queen),
        Some(chess::Piece::King) => Some(PieceType::King),
    }
}

/// Calls `Board::color_on` of the `chess` crate for a square on the board.
#[verifier::external_body]
fn color_on(board: &chess::Board, square: Square) -> (side: Option<Side>)
    requires
        square.on_board(),
    ensures
        side == board_color(*board, square),
{
    let (rank, file) = (chess::Rank::from_index(square.rank), chess::File::from_index(square.file));
    match board.color_on(chess::Square::make_square(rank, file)) {
        None => None,
        Some(chess::Color::White) => Some(Side::White),
        Some(chess::Color::Black) => Some(Side::Black),
    }
}

/// Calls `Board::castle_rights` of the `chess` crate, and reads what it
/// gives with `has_queenside` and `has_kingside`.
#[verifier::external_body]
fn castle_rights(board: &chess::Board, side: Side) -> (rights: CastleRights)
    ensures
        rights == board_castle_rights(*board, side),
{
    let rights = board.castle_rights(match side {
        Side::White => chess::Color::White,
        Side::Black => chess::Color::Black,
    });
    CastleRights { queen_side: rights.has_queenside(), king_side: rights.has_kingside() }
}

/// Calls `Board::en_passant` of the `chess` crate. Ranks and files are enums
/// of eight variants, numbered from zero, so the square lies on the board.
#[verifier::external_body]
fn en_passant(board: &chess::Board) -> (pushed: Option<Square>)
    ensures
        pushed == board_en_passant(*board),
        pushed matches Some(square) ==> square.on_board(),
{
    match board.en_passant() {
        None => None,
        Some(square) => Some(
            Square { rank: square.get_rank().to_index(), file: square.get_file().to_index() },
        ),
    }
}

/// Calls `Board::side_to_move` of the `chess` crate.
#[verifier::external_body]
fn side_to_move(board: &chess::Board) -> (side: Side)
    ensures
        side == board_side_to_move(*board),
{
    match board.side_to_move() {
        chess::Color::White => Side::White,
        chess::Color::Black => Side::Black,
    }
}

impl From<chess::ChessMove> for Move {
    fn from(mv: chess::ChessMove) -> (own: Move)
        ensures
            own.source.on_board(),
            own.dest.on_board(),
    {
        move_from_chess(mv)
    }
}

impl FromSpecImpl<chess::ChessMove> for Move {
    open spec fn obeys_from_spec() -> bool {
        true
    }

    open spec fn from_spec(mv: chess::ChessMove) -> Move {
        move_parts(mv)
    }
}

impl From<Move> for chess::ChessMove {
    fn from(mv: Move) -> (theirs: chess::ChessMove)
        ensures
            mv.source.on_board() && mv.dest.on_board() ==> move_parts(theirs) == mv,
    {
        move_to_chess(mv)
    }
}

impl FromSpecImpl<Move> for chess::ChessMove {
    open spec fn obeys_from_spec() -> bool {
        false
    }

    open spec fn from_spec(mv: Move) -> chess::ChessMove {
        arbitrary()
    }
}

/// The square with the given index, counting along the ranks from the first.
pub open spec fn square_at(index: int) -> Square {
    Square { rank: (index / 8) as usize, file: (index % 8) as usize }
}

/// The piece that stands on the square with the given index of a board, if
/// the board holds both a piece and a side there.
pub open spec fn board_piece_at(board: chess::Board, index: int) -> Option<Piece> {
    match (board_piece(board, square_at(index)), board_color(board, square_at(index))) {
        (Some(piece_type), Some(side)) => Some(Piece { piece_type, side, square: square_at(index) }),
        _ => None,
    }
}

/// The pieces on the first `count` squares of a board, in the order of the
/// squares.
pub open spec fn board_pieces_up_to(board: chess::Board, count: int) -> Seq<Piece>
    decreases count,
{
    if count <= 0 {
        Seq::empty()
    } else {
        match board_piece_at(board, count - 1) {
            Some(piece) => board_pieces_up_to(board, count - 1).push(piece),
            None => board_pieces_up_to(board, count - 1),
        }
    }
}

/// All pieces of a board, in the order of their squares.
pub open spec fn board_pieces(board: chess::Board) -> Seq<Piece> {
    board_pieces_up_to(board, 64)
}

impl PolyglotKey {
    /// The snapshot of a board of the `chess` crate: its pieces in the order
    /// of their squares, the castling rights of both sides, the side to move,
    /// and the file of the pawn that the board gives as open to an
    /// en-passant capture, if a pawn of the side to move stands beside it.
    pub fn from_board(board: &chess::Board) -> (key: PolyglotKey)
        ensures
            key.wf(),
            key.pieces@ == board_pieces(*board),
            key.white_castle == board_castle_rights(*board, Side::White),
            key.black_castle == board_castle_rights(*board, Side::Black),
            key.en_passant_file == crate::position::spec_en_passant_file(
                board_pieces(*board),
                board_en_passant(*board),
                board_side_to_move(*board),
            ),
            key.turn == board_side_to_move(*board),
    {
        let mut pieces: Vec<Piece> = Vec::new();
        let mut index: usize = 0;
        while index < 64
            invariant
                index <= 64,
                pieces@ == board_pieces_up_to(*board, index as int),
                forall|i: int| 0 <= i < pieces@.len() ==> (#[trigger] pieces@[i]).square.on_board(),
            decreases 64 - index,
        {
            let square = Square { rank: index / 8, file: index % 8 };
            assert(square == square_at(index as int));
            let piece_type = piece_on(board, square);
            let side = color_on(board, square);
            match (piece_type, side) {
                (Some(piece_type), Some(side)) => {
                    pieces.push(Piece { piece_type, side, square });
                },
                _ => {},
            }
            index = index + 1;
        }
        PolyglotKey::from_position(
            pieces,
            castle_rights(board, Side::White),
            castle_rights(board, Side::Black),
            en_passant(board),
            side_to_move(board),
        )
    }
}

} // verus!
