//! A reader for Polyglot opening books.
//!
//! A book is a file of sixteen-byte records, sorted by their key. The key of
//! a record is the fingerprint of a position; the record names a move for
//! that position and gives it a weight.
//!
//! - [`position`] holds the snapshot of a position and computes its
//!   fingerprint from the constants in [`keys`].
//! - [`entry`] decodes records and the moves packed inside them.
//! - [`search`] finds the run of records with a given key, without reading
//!   the book itself.
//! - [`reader`] looks positions up in a book that is held in memory.
//! - [`board`] takes snapshots of boards of the `chess` crate.

pub mod board;
pub mod entry;
pub mod keys;
pub mod position;
pub mod reader;
pub mod search;

pub use crate::entry::{Move, PolyglotEntry, PolyglotError};
pub use crate::position::{CastleRights, Piece, PieceType, PolyglotKey, Side, Square};
pub use crate::reader::PolyglotReader;
pub use crate::search::RangeSearch;
