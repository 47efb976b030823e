//! A reader for a book that is held in memory.

use crate::entry::{
    decode_run, outcome_view, record_at, record_key, records_of, spec_decode_all, spec_record_key,
    PolyglotEntry, PolyglotError,
};
use crate::position::PolyglotKey;
use crate::search::{is_run, lemma_start_consistent, lemma_step_consistent, sorted, RangeSearch};
use vstd::prelude::*;
use vstd::slice::slice_subrange;

verus! {

/// The keys of the whole records of a book, in the order of the records.
pub open spec fn book_keys(book: Seq<u8>) -> Seq<u64> {
    Seq::new((book.len() / 16) as nat, |i: int| spec_record_key(record_at(book, i)))
}

/// The records of a book whose key is `hash`, in their order in the book.
pub open spec fn matching_records(book: Seq<u8>, hash: u64) -> Seq<Seq<u8>> {
    records_of(book).filter(|record: Seq<u8>| spec_record_key(record) == hash)
}

/// Where the items that meet a condition are exactly those from `first` up
/// to, not including, `end`, filtering by the condition gives that stretch.
pub proof fn lemma_filter_of_run<A>(items: Seq<A>, keep: spec_fn(A) -> bool, first: int, end: int)
    requires
        0 <= first <= end <= items.len(),
        forall|i: int| 0 <= i < items.len() ==> (keep(#[trigger] items[i]) <==> first <= i < end),
    ensures
        items.filter(keep) == items.subrange(first, end),
    decreases items.len(),
{
    reveal(Seq::filter);
    if items.len() == 0 {
        assert(items.filter(keep) =~= items.subrange(first, end));
    } else {
        let rest = items.drop_last();
        let last = items.len() - 1;
        let rest_first = if first <= last {
            first
        } else {
            last
        };
        let rest_end = if end <= last {
            end
        } else {
            last
        };
        assert forall|i: int| 0 <= i < rest.len() implies (keep(#[trigger] rest[i]) <==> rest_first
            <= i < rest_end) by {
            assert(rest[i] == items[i]);
        }
        lemma_filter_of_run(rest, keep, rest_first, rest_end);
        assert(keep(items[last]) <==> first <= last < end);
        if keep(items.last()) {
            assert(rest.subrange(rest_first, rest_end).push(items.last()) =~= items.subrange(
                first,
                end,
            ));
        } else {
            assert(rest.subrange(rest_first, rest_end) =~= items.subrange(first, end));
        }
    }
}

/// The bytes of the records from `first` up to `end` of a book hold exactly
/// those records.
pub proof fn lemma_records_of_stretch(book: Seq<u8>, first: int, end: int)
    requires
        0 <= first <= end <= book.len() / 16,
    ensures
        records_of(book.subrange(16 * first, 16 * end)) == records_of(book).subrange(first, end),
{
    let records = records_of(book);
    let run = book.subrange(16 * first, 16 * end);
    assert(run.len() == 16 * (end - first));
    assert(records_of(run).len() == end - first);
    assert forall|i: int| 0 <= i < end - first implies records_of(run)[i] == records.subrange(
        first,
        end,
    )[i] by {
        assert(record_at(run, i) =~= record_at(book, first + i));
    }
    assert(records_of(run) =~= records.subrange(first, end));
}

/// In a book whose records with the key `hash` are those from `first` up to
/// `end`, that stretch of the records is exactly the records with that key.
pub proof fn lemma_run_is_matching_records(book: Seq<u8>, hash: u64, first: int, end: int)
    requires
        is_run(book_keys(book), hash, first, end),
    ensures
        records_of(book).subrange(first, end) == matching_records(book, hash),
{
    let records = records_of(book);
    let keys = book_keys(book);
    let keep = |record: Seq<u8>| spec_record_key(record) == hash;
    assert forall|i: int| 0 <= i < records.len() implies (keep(#[trigger] records[i]) <==> first
        <= i < end) by {
        assert(keys[i] == spec_record_key(records[i]));
    }
    lemma_filter_of_run(records, keep, first, end);
}

/// Reads the key of the record at `index` of a book.
fn key_at(book: &[u8], index: usize) -> (key: u64)
    requires
        index < book@.len() / 16,
    ensures
        key == book_keys(book@)[index as int],
{
    let size = book.len();
    assert(16 * index + 16 <= size);
    let bytes = slice_subrange(book, 16 * index, 16 * index + 8);
    assert(bytes@.take(8) =~= record_at(book@, index as int).take(8));
    record_key(bytes)
}

/// Searches a book of `len` records for the records with the key `hash`.
/// Gives the index of the first of them and the index after the last, or
/// `None` where the search found none.
fn find_run(book: &[u8], len: usize, hash: u64) -> (run: Option<(usize, usize)>)
    requires
        len == book@.len() / 16,
    ensures
        run matches Some((first, end)) ==> first < end <= len,
        sorted(book_keys(book@)) ==> match run {
            Some((first, end)) => is_run(book_keys(book@), hash, first as int, end as int),
            None => is_run(book_keys(book@), hash, 0, 0),
        },
{
    let ghost keys = book_keys(book@);
    let mut search = RangeSearch::new(len as u64, hash);
    proof {
        lemma_start_consistent(keys, hash);
    }
    loop
        invariant
            len == book@.len() / 16,
            keys == book_keys(book@),
            search@.len == len,
            search@.hash == hash,
            sorted(keys) ==> search@.consistent(keys),
        ensures
            search@.probe() is None,
        decreases search@.remaining(),
    {
        match search.probe() {
            None => {
                break ;
            },
            Some(index) => {
                let found = key_at(book, index as usize);
                proof {
                    if sorted(keys) {
                        lemma_step_consistent(search@, keys);
                    }
                }
                search = search.step(found);
            },
        }
    }
    match search.range() {
        None => None,
        Some((first, count)) => Some((first as usize, (first + count) as usize)),
    }
}

/// A book in memory, with the number of its records.
#[derive(Debug)]
pub struct PolyglotReader {
    book: Vec<u8>,
    len: usize,
}

impl View for PolyglotReader {
    type V = Seq<u8>;

    /// The bytes of the book.
    closed spec fn view(&self) -> Seq<u8> {
        self.book@
    }
}

impl PolyglotReader {
    #[verifier::type_invariant]
    spec fn counted(&self) -> bool {
        self.len == self.book@.len() / 16
    }

    /// A reader for the given book. The book should be sorted by key; the
    /// reader does not check that it is.
    pub fn new(book: Vec<u8>) -> (reader: PolyglotReader)
        ensures
            reader@ == book@,
    {
        let len = book.len() / 16;
        PolyglotReader { book, len }
    }

    /// The number of whole records in the book.
    pub fn len(&self) -> (count: usize)
        ensures
            count == self@.len() / 16,
    {
        proof {
            use_type_invariant(self);
        }
        self.len
    }

    /// Looks up a position. In a book that is sorted by key, the result is
    /// the entries of exactly the records whose key is the fingerprint of the
    /// position, in their order in the book, decoded for the castling rights
    /// of the position; it is empty where the book has no such record, and a
    /// failure where one of those records cannot be decoded. In any book,
    /// sorted or not, the result is what some stretch of the book's records
    /// decodes to.
    pub fn get(&self, key: &PolyglotKey) -> (outcome: Result<Vec<PolyglotEntry>, PolyglotError>)
        requires
            key.wf(),
        ensures
            sorted(book_keys(self@)) ==> outcome_view(outcome) == spec_decode_all(
                matching_records(self@, key.spec_hash()),
                key.white_castle,
                key.black_castle,
            ),
            exists|first: int, end: int|
                0 <= first <= end <= self@.len() / 16 && outcome_view(outcome) == spec_decode_all(
                    #[trigger] records_of(self@).subrange(first, end),
                    key.white_castle,
                    key.black_castle,
                ),
    {
        proof {
            use_type_invariant(self);
        }
        let hash = key.polyglot_hash();
        let book = self.book.as_slice();
        let (first, end) = match find_run(book, self.len, hash) {
            Some(run) => run,
            None => (0, 0),
        };
        let size = book.len();
        assert(16 * end <= size);
        let run = slice_subrange(book, 16 * first, 16 * end);
        proof {
            lemma_records_of_stretch(book@, first as int, end as int);
            if sorted(book_keys(book@)) {
                lemma_run_is_matching_records(book@, hash, first as int, end as int);
            }
        }
        decode_run(run, &key.white_castle, &key.black_castle)
    }
}

} // verus!
