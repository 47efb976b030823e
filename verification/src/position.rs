//! Position snapshots and their 64-bit fingerprints.
//!
//! A fingerprint is the XOR of one table constant per feature of the
//! position: every piece on its square, every castling right that is held,
//! the en-passant file if a capture is possible, and the side to move if it
//! is White.

use crate::keys::{
    castle_key, castle_key_at, en_passant_key, en_passant_key_at, piece_key, piece_key_at, RANDOM_TURN,
};
use vstd::prelude::*;

verus! {

/// The side that owns a piece or is to move.
#[derive(Debug, Copy, Clone, Eq, PartialEq, Hash, Structural)]
pub enum Side {
    White,
    Black,
}

/// The six kinds of chess piece.
#[derive(Debug, Copy, Clone, Eq, PartialEq, Hash, Structural)]
pub enum PieceType {
    Pawn,
    Knight,
    Bishop,
    Rook,
    Queen,
    King,
}

impl PieceType {
    /// The ordinal of the piece type in the key table: pawn 0 up to king 5.
    pub open spec fn spec_index(self) -> int {
        match self {
            PieceType::Pawn => 0,
            PieceType::Knight => 1,
            PieceType::Bishop => 2,
            PieceType::Rook => 3,
            PieceType::Queen => 4,
            PieceType::King => 5,
        }
    }

    /// The ordinal of the piece type in the key table.
    pub fn index(self) -> (i: usize)
        ensures
            i == self.spec_index(),
    {
        match self {
            PieceType::Pawn => 0,
            PieceType::Knight => 1,
            PieceType::Bishop => 2,
            PieceType::Rook => 3,
            PieceType::Queen => 4,
            PieceType::King => 5,
        }
    }
}

/// A square of the board, by zero-based rank and file.
#[derive(Debug, Copy, Clone, Eq, PartialEq, Hash, Structural)]
pub struct Square {
    pub rank: usize,
    pub file: usize,
}

impl Square {
    /// Both coordinates lie on the board.
    pub open spec fn on_board(self) -> bool {
        self.rank < 8 && self.file < 8
    }

    /// Tests whether both coordinates lie on the board.
    pub fn is_on_board(&self) -> (yes: bool)
        ensures
            yes == self.on_board(),
    {
        self.rank < 8 && self.file < 8
    }
}

/// A piece standing on a square.
#[derive(Debug, Copy, Clone, Eq, PartialEq, Hash, Structural)]
pub struct Piece {
    pub piece_type: PieceType,
    pub side: Side,
    pub square: Square,
}

impl Piece {
    /// Where the piece's constant stands in the piece table.
    pub open spec fn table_index(self) -> int {
        64 * (2 * self.piece_type.spec_index() + if self.side == Side::White {
            1int
        } else {
            0int
        }) + 8 * self.square.rank + self.square.file
    }

    /// The constant that the piece contributes to a fingerprint.
    pub open spec fn spec_hash(self) -> u64 {
        piece_key(self.table_index())
    }

    /// The constant that the piece contributes to a fingerprint.
    pub fn polyglot_hash(&self) -> (hash: u64)
        requires
            self.square.on_board(),
        ensures
            hash == self.spec_hash(),
    {
        let colour: usize = if self.side == Side::White {
            1
        } else {
            0
        };
        let kind: usize = self.piece_type.index() * 2 + colour;
        piece_key_at(64 * kind + 8 * self.square.rank + self.square.file)
    }
}

/// The castling rights of one side.
#[derive(Debug, Copy, Clone, Eq, PartialEq, Hash, Structural)]
pub struct CastleRights {
    pub queen_side: bool,
    pub king_side: bool,
}

impl CastleRights {
    /// The first of the two castling constants of `side`.
    pub open spec fn table_base(side: Side) -> int {
        if side == Side::White {
            0
        } else {
            2
        }
    }

    /// What the rights contribute to a fingerprint when `side` holds them:
    /// the king-side constant if that right is held, XOR the queen-side
    /// constant if that one is.
    pub open spec fn spec_hash(self, side: Side) -> u64 {
        let king: u64 = if self.king_side {
            castle_key(Self::table_base(side))
        } else {
            0
        };
        let queen: u64 = if self.queen_side {
            castle_key(Self::table_base(side) + 1)
        } else {
            0
        };
        king ^ queen
    }

    /// What the rights contribute to a fingerprint when `side` holds them.
    pub fn polyglot_hash(&self, side: Side) -> (hash: u64)
        ensures
            hash == self.spec_hash(side),
    {
        let base: usize = if side == Side::White {
            0
        } else {
            2
        };
        let king: u64 = if self.king_side {
            castle_key_at(base)
        } else {
            0
        };
        let queen: u64 = if self.queen_side {
            castle_key_at(base + 1)
        } else {
            0
        };
        king ^ queen
    }
}

/// The XOR of the constants of all pieces of a sequence.
pub open spec fn pieces_hash(pieces: Seq<Piece>) -> u64
    decreases pieces.len(),
{
    if pieces.len() == 0 {
        0
    } else {
        pieces_hash(pieces.drop_last()) ^ pieces.last().spec_hash()
    }
}

/// The constant of an en-passant file, or zero where there is none.
pub open spec fn en_passant_hash(file: Option<usize>) -> u64 {
    match file {
        Some(f) => en_passant_key(f as int),
        None => 0,
    }
}

/// The constant of the side to move: Black contributes nothing.
pub open spec fn turn_hash(turn: Side) -> u64 {
    if turn == Side::White {
        RANDOM_TURN
    } else {
        0
    }
}

/// The piece is a pawn of the side to move that stands beside a pawn that has
/// just advanced two squares to `pushed`, and so can capture it en passant.
pub open spec fn is_en_passant_capturer(piece: Piece, pushed: Square, turn: Side) -> bool {
    &&& piece.piece_type == PieceType::Pawn
    &&& piece.side == turn
    &&& piece.square.rank == pushed.rank
    &&& (piece.square.file + 1 == pushed.file || piece.square.file == pushed.file + 1)
}

/// The en-passant file of a snapshot: the file of the pawn that has just
/// advanced two squares, if there is one and a pawn of the side to move
/// stands beside it; none otherwise, even though a pawn has advanced.
pub open spec fn spec_en_passant_file(pieces: Seq<Piece>, pushed: Option<Square>, turn: Side) -> Option<
    usize,
> {
    match pushed {
        Some(square) => if exists|i: int|
            0 <= i < pieces.len() && is_en_passant_capturer(#[trigger] pieces[i], square, turn) {
            Some(square.file)
        } else {
            None
        },
        None => None,
    }
}

/// Decides the en-passant file of a snapshot from the pieces on the board,
/// the square of a pawn that has just advanced two squares, if any, and the
/// side to move.
pub fn en_passant_file(pieces: &Vec<Piece>, pushed: Option<Square>, turn: Side) -> (file: Option<
    usize,
>)
    ensures
        file == spec_en_passant_file(pieces@, pushed, turn),
{
    match pushed {
        None => None,
        Some(square) => {
            let mut i: usize = 0;
            while i < pieces.len()
                invariant
                    i <= pieces@.len(),
                    pushed == Some(square),
                    forall|j: int|
                        0 <= j < i ==> !is_en_passant_capturer(#[trigger] pieces@[j], square, turn),
                decreases pieces@.len() - i,
            {
                let piece = &pieces[i];
                let beside = (piece.square.file < square.file && square.file - piece.square.file
                    == 1) || (square.file < piece.square.file && piece.square.file - square.file
                    == 1);
                if piece.piece_type == PieceType::Pawn && piece.side == turn && piece.square.rank
                    == square.rank && beside {
                    assert(is_en_passant_capturer(pieces@[i as int], square, turn));
                    return Some(square.file);
                }
                i = i + 1;
            }
            None
        },
    }
}

/// A normalized snapshot of a position: all that a fingerprint depends on.
///
/// `en_passant_file` is present only when a pawn of the side to move can
/// capture en passant right now, not whenever a pawn has just advanced two
/// squares.
#[derive(Debug, Clone, Eq, PartialEq, Hash)]
pub struct PolyglotKey {
    pub pieces: Vec<Piece>,
    pub white_castle: CastleRights,
    pub black_castle: CastleRights,
    pub en_passant_file: Option<usize>,
    pub turn: Side,
}

impl PolyglotKey {
    /// Every piece stands on the board, and so does the en-passant file.
    pub open spec fn wf(&self) -> bool {
        &&& forall|i: int| 0 <= i < self.pieces@.len() ==> (#[trigger] self.pieces@[i]).square.on_board()
        &&& self.en_passant_file matches Some(f) ==> f < 8
    }

    /// Tests whether every piece stands on the board, and the en-passant
    /// file too: what the fingerprint asks of a snapshot.
    pub fn is_well_formed(&self) -> (yes: bool)
        ensures
            yes == self.wf(),
    {
        let mut i: usize = 0;
        while i < self.pieces.len()
            invariant
                i <= self.pieces@.len(),
                forall|j: int| 0 <= j < i ==> (#[trigger] self.pieces@[j]).square.on_board(),
            decreases self.pieces@.len() - i,
        {
            if !self.pieces[i].square.is_on_board() {
                return false;
            }
            i = i + 1;
        }
        match self.en_passant_file {
            Some(file) => file < 8,
            None => true,
        }
    }

    /// The snapshot of a position, from what a chess engine knows of it: the
    /// pieces on the board, the castling rights, the square of a pawn that
    /// has just advanced two squares, if any, and the side to move. The
    /// snapshot has an en-passant file only if the capture is possible. It
    /// is well formed if the squares that are given lie on the board.
    pub fn from_position(
        pieces: Vec<Piece>,
        white_castle: CastleRights,
        black_castle: CastleRights,
        pushed: Option<Square>,
        turn: Side,
    ) -> (key: PolyglotKey)
        ensures
            key.pieces@ == pieces@,
            key.white_castle == white_castle,
            key.black_castle == black_castle,
            key.en_passant_file == spec_en_passant_file(pieces@, pushed, turn),
            key.turn == turn,
            (forall|i: int| 0 <= i < pieces@.len() ==> (#[trigger] pieces@[i]).square.on_board())
                && (pushed matches Some(square) ==> square.on_board()) ==> key.wf(),
    {
        let en_passant_file = en_passant_file(&pieces, pushed, turn);
        PolyglotKey { pieces, white_castle, black_castle, en_passant_file, turn }
    }

    /// The fingerprint of the snapshot.
    pub open spec fn spec_hash(&self) -> u64 {
        pieces_hash(self.pieces@) ^ self.white_castle.spec_hash(Side::White)
            ^ self.black_castle.spec_hash(Side::Black) ^ en_passant_hash(self.en_passant_file)
            ^ turn_hash(self.turn)
    }

    /// The fingerprint of the snapshot.
    pub fn polyglot_hash(&self) -> (hash: u64)
        requires
            self.wf(),
        ensures
            hash == self.spec_hash(),
    {
        let mut hash: u64 = 0;
        let mut i: usize = 0;
        while i < self.pieces.len()
            invariant
                i <= self.pieces@.len(),
                self.wf(),
                hash == pieces_hash(self.pieces@.take(i as int)),
            decreases self.pieces@.len() - i,
        {
            proof {
                let next = self.pieces@.take(i + 1);
                assert(next.drop_last() =~= self.pieces@.take(i as int));
                assert(next.last() == self.pieces@[i as int]);
            }
            hash = hash ^ self.pieces[i].polyglot_hash();
            i = i + 1;
        }
        assert(self.pieces@.take(i as int) =~= self.pieces@);
        hash = hash ^ self.white_castle.polyglot_hash(Side::White);
        hash = hash ^ self.black_castle.polyglot_hash(Side::Black);
        let en_passant: u64 = match self.en_passant_file {
            Some(file) => en_passant_key_at(file),
            None => 0,
        };
        hash = hash ^ en_passant;
        let turn: u64 = if self.turn == Side::White {
            RANDOM_TURN
        } else {
            0
        };
        hash ^ turn
    }
}

/// XOR may be regrouped and reordered: moving one operand to the end of a
/// chain of three leaves the result unchanged.
proof fn lemma_xor_swap_last(a: u64, b: u64, c: u64)
    ensures
        (a ^ b) ^ c == (a ^ c) ^ b,
{
    assert((a ^ b) ^ c == (a ^ c) ^ b) by (bit_vector);
}

/// Taking one piece out of a sequence takes exactly its constant out of the
/// XOR of the sequence.
pub proof fn lemma_pieces_hash_remove(pieces: Seq<Piece>, i: int)
    requires
        0 <= i < pieces.len(),
    ensures
        pieces_hash(pieces) == pieces_hash(pieces.remove(i)) ^ pieces[i].spec_hash(),
    decreases pieces.len(),
{
    if i == pieces.len() - 1 {
        assert(pieces.remove(i) =~= pieces.drop_last());
    } else {
        let rest = pieces.drop_last();
        lemma_pieces_hash_remove(rest, i);
        assert(pieces.remove(i).drop_last() =~= rest.remove(i));
        assert(pieces.remove(i).last() == pieces.last());
        lemma_xor_swap_last(
            pieces_hash(rest.remove(i)),
            pieces[i].spec_hash(),
            pieces.last().spec_hash(),
        );
    }
}

/// Two sequences that hold the same pieces, each as often as the other, have
/// the same XOR, whatever the order of the pieces.
pub proof fn lemma_pieces_hash_permutation(a: Seq<Piece>, b: Seq<Piece>)
    requires
        a.to_multiset() == b.to_multiset(),
    ensures
        pieces_hash(a) == pieces_hash(b),
    decreases a.len(),
{
    a.to_multiset_ensures();
    b.to_multiset_ensures();
    if a.len() == 0 {
        assert(b.len() == 0);
    } else {
        let x = a.last();
        assert(a.contains(x));
        assert(b.to_multiset().count(x) > 0);
        assert(b.contains(x));
        let j = choose|j: int| 0 <= j < b.len() && b[j] == x;
        let a_rest = a.drop_last();
        let b_rest = b.remove(j);
        assert(a_rest =~= a.remove(a.len() - 1));
        assert(a_rest.to_multiset() == a.to_multiset().remove(x));
        assert(b_rest.to_multiset() == b.to_multiset().remove(x));
        lemma_pieces_hash_permutation(a_rest, b_rest);
        lemma_pieces_hash_remove(b, j);
    }
}

/// The fingerprint does not depend on the order in which the pieces of a
/// snapshot are listed: two snapshots whose piece lists are permutations of
/// one another, and which agree on castling rights, en-passant file and side
/// to move, have the same fingerprint.
pub proof fn lemma_hash_ignores_piece_order(a: PolyglotKey, b: PolyglotKey)
    requires
        a.pieces@.to_multiset() == b.pieces@.to_multiset(),
        a.white_castle == b.white_castle,
        a.black_castle == b.black_castle,
        a.en_passant_file == b.en_passant_file,
        a.turn == b.turn,
    ensures
        a.spec_hash() == b.spec_hash(),
{
    lemma_pieces_hash_permutation(a.pieces@, b.pieces@);
}

} // verus!
