//! The sixteen-byte book record and the move that is packed inside it.
//!
//! A record is an eight-byte big-endian key, a two-byte big-endian packed
//! move, a two-byte big-endian weight and four bytes that are not used. The
//! packed move holds five fields of three bits, the lowest first: file and
//! rank of the destination, file and rank of the source, and a promotion
//! code.

use crate::position::{CastleRights, PieceType, Square};
use vstd::prelude::*;
use vstd::slice::slice_subrange;

verus! {

/// Why a book could not be decoded.
#[derive(Debug, Copy, Clone, Eq, PartialEq, Hash, Structural)]
pub enum PolyglotError {
    /// A record whose promotion code is none of 0 to 4.
    InvalidRecord,
}

/// The big-endian 16-bit number with the given high and low byte.
pub open spec fn be_u16(high: u8, low: u8) -> u16 {
    (high * 256 + low) as u16
}

/// The big-endian number that a sequence of at most eight bytes spells.
pub open spec fn be_u64(bytes: Seq<u8>) -> int
    decreases bytes.len(),
{
    if bytes.len() == 0 {
        0
    } else {
        be_u64(bytes.drop_last()) * 256 + bytes.last()
    }
}

/// A sequence of `n` bytes spells a number below `256^n`; for eight bytes
/// that is a `u64`.
pub proof fn lemma_be_u64_bound(bytes: Seq<u8>)
    requires
        bytes.len() <= 8,
    ensures
        0 <= be_u64(bytes),
        bytes.len() == 0 ==> be_u64(bytes) == 0,
        bytes.len() == 1 ==> be_u64(bytes) < 0x100,
        bytes.len() == 2 ==> be_u64(bytes) < 0x1_0000,
        bytes.len() == 3 ==> be_u64(bytes) < 0x100_0000,
        bytes.len() == 4 ==> be_u64(bytes) < 0x1_0000_0000,
        bytes.len() == 5 ==> be_u64(bytes) < 0x100_0000_0000,
        bytes.len() == 6 ==> be_u64(bytes) < 0x1_0000_0000_0000,
        bytes.len() == 7 ==> be_u64(bytes) < 0x100_0000_0000_0000,
        bytes.len() == 8 ==> be_u64(bytes) <= u64::MAX,
    decreases bytes.len(),
{
    if bytes.len() > 0 {
        lemma_be_u64_bound(bytes.drop_last());
    }
}

/// The promotion that a promotion code stands for: `Some(None)` for no
/// promotion, `None` for a code that the format does not define.
pub open spec fn promotion_of_code(code: int) -> Option<Option<PieceType>> {
    if code == 0 {
        Some(None)
    } else if code == 1 {
        Some(Some(PieceType::Knight))
    } else if code == 2 {
        Some(Some(PieceType::Bishop))
    } else if code == 3 {
        Some(Some(PieceType::Rook))
    } else if code == 4 {
        Some(Some(PieceType::Queen))
    } else {
        None
    }
}

/// A move from one square to another, with the piece a pawn promotes to.
#[derive(Debug, Copy, Clone, Eq, PartialEq, Hash, Structural)]
pub struct Move {
    pub source: Square,
    pub dest: Square,
    pub promotion: Option<PieceType>,
}

impl Move {
    /// The move that a packed move stands for. The bit above the five
    /// fields is ignored.
    pub open spec fn spec_from_u16(mv: u16) -> Result<Move, PolyglotError> {
        match promotion_of_code(((mv / 4096) % 8) as int) {
            Some(promotion) => Ok(
                Move {
                    source: Square { rank: ((mv / 512) % 8) as usize, file: ((mv / 64) % 8) as usize },
                    dest: Square { rank: ((mv / 8) % 8) as usize, file: (mv % 8) as usize },
                    promotion,
                },
            ),
            None => Err(PolyglotError::InvalidRecord),
        }
    }

    /// Unpacks a move. Fails exactly when the promotion code is 5, 6 or 7.
    pub fn from_u16(mv: u16) -> (r: Result<Move, PolyglotError>)
        ensures
            r == Self::spec_from_u16(mv),
            r is Err <==> (mv / 4096) % 8 >= 5,
            r matches Ok(m) ==> m.source.on_board() && m.dest.on_board(),
    {
        let dest_file: u16 = mv & 7;
        let dest_rank: u16 = (mv >> 3) & 7;
        let source_file: u16 = (mv >> 6) & 7;
        let source_rank: u16 = (mv >> 9) & 7;
        let code: u16 = (mv >> 12) & 7;
        assert(mv & 7 == mv % 8) by (bit_vector);
        assert((mv >> 3) & 7 == (mv / 8) % 8) by (bit_vector);
        assert((mv >> 6) & 7 == (mv / 64) % 8) by (bit_vector);
        assert((mv >> 9) & 7 == (mv / 512) % 8) by (bit_vector);
        assert((mv >> 12) & 7 == (mv / 4096) % 8) by (bit_vector);
        let promotion: Option<PieceType> = if code == 0 {
            None
        } else if code == 1 {
            Some(PieceType::Knight)
        } else if code == 2 {
            Some(PieceType::Bishop)
        } else if code == 3 {
            Some(PieceType::Rook)
        } else if code == 4 {
            Some(PieceType::Queen)
        } else {
            return Err(PolyglotError::InvalidRecord);
        };
        Ok(
            Move {
                source: Square { rank: source_rank as usize, file: source_file as usize },
                dest: Square { rank: dest_rank as usize, file: dest_file as usize },
                promotion,
            },
        )
    }

    /// The move is the book's way of writing a castling move, and the
    /// position still holds the right to it: the king leaves its home file
    /// for the corner where the rook of that right stands.
    pub open spec fn is_held_castling(self, white: CastleRights, black: CastleRights) -> bool {
        &&& self.source.file == 4
        &&& self.source.rank == self.dest.rank
        &&& if self.dest.file == 7 && self.dest.rank == 0 {
            white.king_side
        } else if self.dest.file == 0 && self.dest.rank == 0 {
            white.queen_side
        } else if self.dest.file == 7 && self.dest.rank == 7 {
            black.king_side
        } else if self.dest.file == 0 && self.dest.rank == 7 {
            black.queen_side
        } else {
            false
        }
    }

    /// The move with the castling rule applied: where the move is a held
    /// castling, its destination is one file nearer to the king's home file;
    /// every other move is unchanged.
    pub open spec fn spec_resolve_castling(self, white: CastleRights, black: CastleRights) -> Move {
        if self.is_held_castling(white, black) {
            Move {
                source: self.source,
                dest: Square {
                    rank: self.dest.rank,
                    file: if self.dest.file < self.source.file {
                        (self.dest.file + 1) as usize
                    } else {
                        (self.dest.file - 1) as usize
                    },
                },
                promotion: self.promotion,
            }
        } else {
            self
        }
    }

    /// Applies the castling rule of the book format to a decoded move, given
    /// the castling rights of the position that is looked up.
    pub fn resolve_castling(self, white_castle: &CastleRights, black_castle: &CastleRights) -> (m:
        Move)
        ensures
            m == self.spec_resolve_castling(*white_castle, *black_castle),
    {
        if self.source.file == 4 && self.source.rank == self.dest.rank {
            let held = if self.dest.file == 7 && self.dest.rank == 0 {
                white_castle.king_side
            } else if self.dest.file == 0 && self.dest.rank == 0 {
                white_castle.queen_side
            } else if self.dest.file == 7 && self.dest.rank == 7 {
                black_castle.king_side
            } else if self.dest.file == 0 && self.dest.rank == 7 {
                black_castle.queen_side
            } else {
                false
            };
            if held {
                let file: usize = if self.dest.file < self.source.file {
                    self.dest.file + 1
                } else {
                    self.dest.file - 1
                };
                return Move {
                    source: self.source,
                    dest: Square { rank: self.dest.rank, file },
                    promotion: self.promotion,
                };
            }
        }
        self
    }
}

/// What one record of a book says: a move and its weight.
#[derive(Debug, Copy, Clone, Eq, PartialEq, Hash, Structural)]
pub struct PolyglotEntry {
    pub mv: Move,
    pub weight: u16,
}

impl PolyglotEntry {
    /// The number of bytes of a record.
    pub const SIZE: usize = 16;

    /// The entry that the bytes after a record's key stand for: the packed
    /// move in the first two bytes, the weight in the next two.
    pub open spec fn spec_from_bytes(bytes: Seq<u8>) -> Result<PolyglotEntry, PolyglotError> {
        match Move::spec_from_u16(be_u16(bytes[0], bytes[1])) {
            Ok(mv) => Ok(PolyglotEntry { mv, weight: be_u16(bytes[2], bytes[3]) }),
            Err(e) => Err(e),
        }
    }

    /// Decodes the bytes that follow a record's key. Bytes after the fourth
    /// are ignored. Fails exactly when the packed move does.
    pub fn from_bytes(bytes: &[u8]) -> (r: Result<PolyglotEntry, PolyglotError>)
        requires
            bytes@.len() >= 4,
        ensures
            r == Self::spec_from_bytes(bytes@),
    {
        let packed: u16 = (bytes[0] as u16) * 256 + (bytes[1] as u16);
        let weight: u16 = (bytes[2] as u16) * 256 + (bytes[3] as u16);
        match Move::from_u16(packed) {
            Ok(mv) => Ok(PolyglotEntry { mv, weight }),
            Err(e) => Err(e),
        }
    }

    /// The entry that a whole record stands for in a position with the given
    /// castling rights: the entry of the bytes after the key, with the
    /// castling rule applied to its move.
    pub open spec fn spec_decode(record: Seq<u8>, white: CastleRights, black: CastleRights) -> Result<
        PolyglotEntry,
        PolyglotError,
    > {
        match Self::spec_from_bytes(record.skip(8)) {
            Ok(entry) => Ok(
                PolyglotEntry { mv: entry.mv.spec_resolve_castling(white, black), weight: entry.weight },
            ),
            Err(e) => Err(e),
        }
    }

    /// Decodes one record for a position with the given castling rights.
    pub fn decode(record: &[u8], white_castle: &CastleRights, black_castle: &CastleRights) -> (r:
        Result<PolyglotEntry, PolyglotError>)
        requires
            record@.len() == 16,
        ensures
            r == Self::spec_decode(record@, *white_castle, *black_castle),
    {
        let payload = slice_subrange(record, 8, 16);
        assert(payload@.len() == 8);
        assert(payload@[0] == record@.skip(8)[0]);
        assert(payload@[1] == record@.skip(8)[1]);
        assert(payload@[2] == record@.skip(8)[2]);
        assert(payload@[3] == record@.skip(8)[3]);
        match Self::from_bytes(payload) {
            Ok(entry) => Ok(
                PolyglotEntry {
                    mv: entry.mv.resolve_castling(white_castle, black_castle),
                    weight: entry.weight,
                },
            ),
            Err(e) => Err(e),
        }
    }
}

/// The key of a record: the big-endian number in its first eight bytes.
pub open spec fn spec_record_key(record: Seq<u8>) -> u64 {
    be_u64(record.take(8)) as u64
}

/// Reads the key of a record.
pub fn record_key(record: &[u8]) -> (key: u64)
    requires
        record@.len() >= 8,
    ensures
        key == spec_record_key(record@),
{
    let mut key: u64 = 0;
    let mut i: usize = 0;
    while i < 8
        invariant
            i <= 8,
            record@.len() >= 8,
            key == be_u64(record@.take(i as int)),
        decreases 8 - i,
    {
        proof {
            let next = record@.take(i + 1);
            assert(next.drop_last() =~= record@.take(i as int));
            assert(next.last() == record@[i as int]);
            lemma_be_u64_bound(record@.take(i as int));
            lemma_be_u64_bound(next);
        }
        key = key * 256 + (record[i] as u64);
        i = i + 1;
    }
    key
}

/// The `i`-th record of a run of records.
pub open spec fn record_at(bytes: Seq<u8>, i: int) -> Seq<u8> {
    bytes.subrange(16 * i, 16 * i + 16)
}

/// The whole records that a run of bytes holds, in their order. Bytes after
/// the last whole record belong to none.
pub open spec fn records_of(bytes: Seq<u8>) -> Seq<Seq<u8>> {
    Seq::new((bytes.len() / 16) as nat, |i: int| record_at(bytes, i))
}

/// The entries that a sequence of records stands for, in the order of the
/// records; a failure if any of the records fails to decode.
pub open spec fn spec_decode_all(
    records: Seq<Seq<u8>>,
    white: CastleRights,
    black: CastleRights,
) -> Result<Seq<PolyglotEntry>, PolyglotError> {
    if forall|i: int|
        0 <= i < records.len() ==> (#[trigger] PolyglotEntry::spec_decode(records[i], white, black)) is Ok {
        Ok(
            Seq::new(
                records.len(),
                |i: int| PolyglotEntry::spec_decode(records[i], white, black)->Ok_0,
            ),
        )
    } else {
        Err(PolyglotError::InvalidRecord)
    }
}

/// The outcome of a lookup as a mathematical value: the entries as a
/// sequence, or the failure.
pub open spec fn outcome_view(outcome: Result<Vec<PolyglotEntry>, PolyglotError>) -> Result<
    Seq<PolyglotEntry>,
    PolyglotError,
> {
    match outcome {
        Ok(entries) => Ok(entries@),
        Err(e) => Err(e),
    }
}

/// Decodes a run of whole records for a position with the given castling
/// rights. Fails, with no entries, exactly when one of the records does.
pub fn decode_run(bytes: &[u8], white_castle: &CastleRights, black_castle: &CastleRights) -> (r:
    Result<Vec<PolyglotEntry>, PolyglotError>)
    requires
        bytes@.len() % 16 == 0,
    ensures
        outcome_view(r) == spec_decode_all(records_of(bytes@), *white_castle, *black_castle),
{
    let count: usize = bytes.len() / 16;
    let ghost records = records_of(bytes@);
    let mut entries: Vec<PolyglotEntry> = Vec::new();
    let mut i: usize = 0;
    while i < count
        invariant
            i <= count,
            bytes@.len() == 16 * count,
            bytes@.len() <= usize::MAX,
            records == records_of(bytes@),
            entries@.len() == i,
            forall|j: int|
                0 <= j < i ==> (#[trigger] PolyglotEntry::spec_decode(
                    records[j],
                    *white_castle,
                    *black_castle,
                )) == Ok::<PolyglotEntry, PolyglotError>(entries@[j]),
        decreases count - i,
    {
        let record = slice_subrange(bytes, 16 * i, 16 * i + 16);
        assert(record@ == records[i as int]);
        match PolyglotEntry::decode(record, white_castle, black_castle) {
            Ok(entry) => {
                entries.push(entry);
            },
            Err(e) => {
                assert(!(PolyglotEntry::spec_decode(records[i as int], *white_castle, *black_castle)
                    is Ok));
                return Err(e);
            },
        }
        i = i + 1;
    }
    proof {
        let expected = Seq::new(
            records.len(),
            |i: int| PolyglotEntry::spec_decode(records[i], *white_castle, *black_castle)->Ok_0,
        );
        assert(entries@ =~= expected);
    }
    Ok(entries)
}

} // verus!
