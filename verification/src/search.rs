//! The range search over the sorted keys of a book.
//!
//! A book may hold several records with one key, next to each other. The
//! search finds the whole run of them with two binary searches: one for the
//! first record whose key is not below the wanted one, and, only if a record
//! with the wanted key was met on the way, one for the first record whose
//! key is above it.
//!
//! The search does not read the book itself. It says which record's key it
//! needs next ([`RangeSearch::probe`]) and is told that key
//! ([`RangeSearch::step`]), so that the same decisions serve a book in
//! memory and one behind a file handle.

use vstd::prelude::*;

verus! {

/// The keys are in ascending order.
pub open spec fn sorted(keys: Seq<u64>) -> bool {
    forall|i: int, j: int| 0 <= i <= j < keys.len() ==> keys[i] <= keys[j]
}

/// The records from `first` up to, not including, `end` are exactly those
/// whose key is `hash`.
pub open spec fn is_run(keys: Seq<u64>, hash: u64, first: int, end: int) -> bool {
    &&& 0 <= first <= end <= keys.len()
    &&& forall|i: int| 0 <= i < keys.len() ==> (keys[i] == hash <==> first <= i < end)
}

/// How far a search has come.
pub enum Progress {
    /// Looking for the first record whose key is not below the wanted one,
    /// among the records from `left` up to `right`; `seen` says whether a
    /// record with the wanted key has been met.
    Lower { left: int, right: int, seen: bool },
    /// The run starts at `first`. Looking for the first record whose key is
    /// above the wanted one, among the records from `left` up to `right`.
    Upper { first: int, left: int, right: int },
    /// The run is the records from `first` up to, not including, `end`.
    Found { first: int, end: int },
    /// No record has the wanted key.
    Absent,
}

/// The mathematical state of a search: the wanted key, the number of
/// records, and the progress made.
pub struct SearchModel {
    pub hash: u64,
    pub len: int,
    pub progress: Progress,
}

impl SearchModel {
    /// The bounds that every state of a search keeps, whatever the keys.
    pub open spec fn wf(self) -> bool {
        match self.progress {
            Progress::Lower { left, right, seen } => {
                &&& 0 <= left < right <= self.len
                &&& seen ==> right < self.len
            },
            Progress::Upper { first, left, right } => {
                &&& 0 <= first < self.len
                &&& 0 <= left < right <= self.len
            },
            Progress::Found { first, end } => 0 <= first < end <= self.len,
            Progress::Absent => 0 <= self.len,
        }
    }

    /// The state in which a search for `hash` among `len` records starts. A
    /// book without records is not searched at all.
    pub open spec fn start(len: int, hash: u64) -> SearchModel {
        SearchModel {
            hash,
            len,
            progress: if len <= 0 {
                Progress::Absent
            } else {
                Progress::Lower { left: 0, right: len, seen: false }
            },
        }
    }

    /// The index of the record whose key the search needs next, or `None`
    /// when the search is over.
    pub open spec fn probe(self) -> Option<int> {
        match self.progress {
            Progress::Lower { left, right, .. } => Some(left + (right - left) / 2),
            Progress::Upper { left, right, .. } => Some(left + (right - left) / 2),
            _ => None,
        }
    }

    /// The state after the search has learnt that the probed record has the
    /// key `key`. A search that is over stays as it is.
    pub open spec fn step(self, key: u64) -> SearchModel {
        match self.progress {
            Progress::Lower { left, right, seen } => {
                let middle = left + (right - left) / 2;
                let new_left = if key < self.hash {
                    middle + 1
                } else {
                    left
                };
                let new_right = if key < self.hash {
                    right
                } else {
                    middle
                };
                let new_seen = seen || key == self.hash;
                SearchModel {
                    hash: self.hash,
                    len: self.len,
                    progress: if new_left < new_right {
                        Progress::Lower { left: new_left, right: new_right, seen: new_seen }
                    } else if new_seen {
                        Progress::Upper { first: new_left, left: 0, right: self.len }
                    } else {
                        Progress::Absent
                    },
                }
            },
            Progress::Upper { first, left, right } => {
                let middle = left + (right - left) / 2;
                let new_left = if key <= self.hash {
                    middle + 1
                } else {
                    left
                };
                let new_right = if key <= self.hash {
                    right
                } else {
                    middle
                };
                SearchModel {
                    hash: self.hash,
                    len: self.len,
                    progress: if new_left < new_right {
                        Progress::Upper { first, left: new_left, right: new_right }
                    } else if first < new_left {
                        Progress::Found { first, end: new_left }
                    } else {
                        Progress::Absent
                    },
                }
            },
            _ => self,
        }
    }

    /// An upper bound on the number of keys that the search still needs.
    pub open spec fn remaining(self) -> nat {
        match self.progress {
            Progress::Lower { left, right, .. } => (self.len + 1 + (right - left)) as nat,
            Progress::Upper { left, right, .. } => (right - left) as nat,
            _ => 0,
        }
    }

    /// The number of records among which the binary search that is under way
    /// still looks; zero when the search is over.
    pub open spec fn window(self) -> nat {
        match self.progress {
            Progress::Lower { left, right, .. } => (right - left) as nat,
            Progress::Upper { left, right, .. } => (right - left) as nat,
            _ => 0,
        }
    }

    /// The run that the search has found: its first record and the number of
    /// its records. `None` while the search goes on, and when no record has
    /// the wanted key.
    pub open spec fn range(self) -> Option<(int, int)> {
        match self.progress {
            Progress::Found { first, end } => Some((first, end - first)),
            _ => None,
        }
    }

    /// What the state of a search claims of the keys that it is made on. It
    /// holds of every state that a search on sorted keys reaches.
    pub open spec fn consistent(self, keys: Seq<u64>) -> bool {
        &&& keys.len() == self.len
        &&& match self.progress {
            Progress::Lower { left, right, seen } => {
                &&& forall|i: int| 0 <= i < left ==> keys[i] < self.hash
                &&& forall|i: int| right <= i < keys.len() ==> keys[i] >= self.hash
                &&& seen <==> right < keys.len() && keys[right] == self.hash
            },
            Progress::Upper { first, left, right } => {
                &&& 0 <= first < keys.len()
                &&& keys[first] == self.hash
                &&& forall|i: int| 0 <= i < first ==> keys[i] < self.hash
                &&& forall|i: int| 0 <= i < left ==> keys[i] <= self.hash
                &&& forall|i: int| right <= i < keys.len() ==> keys[i] > self.hash
            },
            Progress::Found { first, end } => first < end && is_run(keys, self.hash, first, end),
            Progress::Absent => forall|i: int| 0 <= i < keys.len() ==> keys[i] != self.hash,
        }
    }

    /// The state in which the search ends when every probe is answered with
    /// the key that `keys` holds at the probed index.
    pub open spec fn run(self, keys: Seq<u64>) -> SearchModel
        decreases self.remaining(),
        when self.wf() && keys.len() == self.len
    {
        match self.probe() {
            Some(i) => self.step(keys[i]).run(keys),
            None => self,
        }
    }
}

/// A search starts within its bounds, and what it claims of the keys is
/// true.
pub proof fn lemma_start_consistent(keys: Seq<u64>, hash: u64)
    ensures
        SearchModel::start(keys.len() as int, hash).wf(),
        SearchModel::start(keys.len() as int, hash).consistent(keys),
{
}

/// Whatever key a search is told, it stays within its bounds, probes inside
/// the book, and comes nearer to its end.
pub proof fn lemma_step_wf(state: SearchModel, key: u64)
    requires
        state.wf(),
    ensures
        state.step(key).wf(),
        state.probe() matches Some(i) ==> 0 <= i < state.len && state.step(key).remaining()
            < state.remaining(),
        state.probe() is None ==> state.step(key) == state,
{
}

/// Each key that a binary search is told at least halves the number of
/// records among which it still looks, so that a search among `n` records asks
/// for about twice the logarithm of `n` keys at most, however many records
/// share the wanted key.
pub proof fn lemma_step_halves_window(state: SearchModel, key: u64)
    requires
        state.wf(),
    ensures
        state.progress is Lower && state.step(key).progress is Lower ==> state.step(key).window()
            <= state.window() / 2,
        state.progress is Upper && state.step(key).progress is Upper ==> state.step(key).window()
            <= state.window() / 2,
        state.progress is Lower && state.step(key).progress is Upper ==> state.step(key).window()
            == state.len,
{
}

/// On sorted keys a search that is told the probed record's key goes on
/// claiming only what is true of the keys.
pub proof fn lemma_step_consistent(state: SearchModel, keys: Seq<u64>)
    requires
        sorted(keys),
        state.wf(),
        state.consistent(keys),
        state.probe() is Some,
    ensures
        0 <= state.probe()->0 < keys.len(),
        state.step(keys[state.probe()->0]).consistent(keys),
{
    let i = state.probe()->0;
    let key = keys[i];
    let next = state.step(key);
    match state.progress {
        Progress::Lower { left, right, seen } => {
            if key < state.hash {
                assert forall|j: int| 0 <= j < i + 1 implies keys[j] < state.hash by {
                    assert(keys[j] <= keys[i]);
                }
            } else {
                assert forall|j: int| i <= j < keys.len() implies keys[j] >= state.hash by {
                    assert(keys[i] <= keys[j]);
                }
                if seen {
                    assert(keys[i] <= keys[right]);
                }
            }
            match next.progress {
                Progress::Absent => {
                    assert forall|j: int| 0 <= j < keys.len() implies keys[j] != state.hash by {
                        if j >= i + 1 && key < state.hash {
                            assert(keys[right] <= keys[j]);
                        }
                        if j >= i && key >= state.hash {
                            assert(keys[i] <= keys[j]);
                        }
                    }
                },
                _ => {},
            }
        },
        Progress::Upper { first, left, right } => {
            if key <= state.hash {
                assert forall|j: int| 0 <= j < i + 1 implies keys[j] <= state.hash by {
                    assert(keys[j] <= keys[i]);
                }
            } else {
                assert forall|j: int| i <= j < keys.len() implies keys[j] > state.hash by {
                    assert(keys[i] <= keys[j]);
                }
            }
            match next.progress {
                Progress::Found { first, end } => {
                    assert forall|j: int| 0 <= j < keys.len() implies (keys[j] == state.hash
                        <==> first <= j < end) by {
                        if first <= j < end {
                            assert(keys[first] <= keys[j]);
                        }
                    }
                },
                Progress::Absent => {
                    assert(false);
                },
                _ => {},
            }
        },
        _ => {},
    }
}

/// Where no record has the wanted key, a search on sorted keys never gets
/// past its first binary search: it asks for no key on behalf of the second
/// one and finds no run to read.
pub proof fn lemma_absent_key_ends_first_search(state: SearchModel, keys: Seq<u64>)
    requires
        state.consistent(keys),
        forall|i: int| 0 <= i < keys.len() ==> keys[i] != state.hash,
    ensures
        state.progress is Lower || state.progress is Absent,
        state.range() is None,
{
    match state.progress {
        Progress::Upper { first, .. } => {
            assert(keys[first] == state.hash);
        },
        Progress::Found { first, .. } => {
            assert(keys[first] == state.hash);
        },
        _ => {},
    }
}

/// A search on sorted keys whose probes are answered from those keys ends,
/// and what it claims at its end is true.
pub proof fn lemma_run_consistent(state: SearchModel, keys: Seq<u64>)
    requires
        sorted(keys),
        state.wf(),
        state.consistent(keys),
    ensures
        state.run(keys).probe() is None,
        state.run(keys).hash == state.hash,
        state.run(keys).wf(),
        state.run(keys).consistent(keys),
    decreases state.remaining(),
{
    if state.probe() is Some {
        let key = keys[state.probe()->0];
        lemma_step_wf(state, key);
        lemma_step_consistent(state, keys);
        lemma_run_consistent(state.step(key), keys);
    }
}

/// The range search is correct: on sorted keys it ends with the run of the
/// records whose key is the wanted one, wherever in the book that run lies
/// and however long it is, and it ends without a run exactly when no record
/// has the wanted key.
pub proof fn lemma_search_finds_run(keys: Seq<u64>, hash: u64)
    requires
        sorted(keys),
    ensures
        match SearchModel::start(keys.len() as int, hash).run(keys).progress {
            Progress::Found { first, end } => first < end && is_run(keys, hash, first, end),
            Progress::Absent => forall|i: int| 0 <= i < keys.len() ==> keys[i] != hash,
            _ => false,
        },
{
    lemma_start_consistent(keys, hash);
    lemma_run_consistent(SearchModel::start(keys.len() as int, hash), keys);
}

/// Where a search is in its work.
#[derive(Debug, Copy, Clone)]
enum Stage {
    Lower { left: u64, right: u64, seen: bool },
    Upper { first: u64, left: u64, right: u64 },
    Found { first: u64, end: u64 },
    Absent,
}

/// A range search in progress.
#[derive(Debug, Copy, Clone)]
pub struct RangeSearch {
    hash: u64,
    len: u64,
    stage: Stage,
}

impl View for RangeSearch {
    type V = SearchModel;

    closed spec fn view(&self) -> SearchModel {
        SearchModel {
            hash: self.hash,
            len: self.len as int,
            progress: match self.stage {
                Stage::Lower { left, right, seen } => Progress::Lower {
                    left: left as int,
                    right: right as int,
                    seen,
                },
                Stage::Upper { first, left, right } => Progress::Upper {
                    first: first as int,
                    left: left as int,
                    right: right as int,
                },
                Stage::Found { first, end } => Progress::Found {
                    first: first as int,
                    end: end as int,
                },
                Stage::Absent => Progress::Absent,
            },
        }
    }
}

impl RangeSearch {
    #[verifier::type_invariant]
    spec fn within_bounds(&self) -> bool {
        self@.wf()
    }

    /// Starts a search for the records with the key `hash` in a book of
    /// `len` records.
    pub fn new(len: u64, hash: u64) -> (search: RangeSearch)
        ensures
            search@ == SearchModel::start(len as int, hash),
    {
        let stage = if len == 0 {
            Stage::Absent
        } else {
            Stage::Lower { left: 0, right: len, seen: false }
        };
        RangeSearch { hash, len, stage }
    }

    /// The index of the record whose key the search needs next, or `None`
    /// when the search is over. The index lies inside the book.
    pub fn probe(&self) -> (index: Option<u64>)
        ensures
            self@.wf(),
            match index {
                Some(i) => self@.probe() == Some(i as int) && i < self@.len,
                None => self@.probe() is None,
            },
    {
        proof {
            use_type_invariant(self);
        }
        match self.stage {
            Stage::Lower { left, right, .. } => Some(left + (right - left) / 2),
            Stage::Upper { left, right, .. } => Some(left + (right - left) / 2),
            _ => None,
        }
    }

    /// Tells the search the key of the record that it asked for.
    pub fn step(self, key: u64) -> (next: RangeSearch)
        ensures
            next@ == self@.step(key),
            next@.wf(),
            self@.probe() is Some ==> next@.remaining() < self@.remaining(),
    {
        proof {
            use_type_invariant(&self);
            lemma_step_wf(self@, key);
        }
        let stage = match self.stage {
            Stage::Lower { left, right, seen } => {
                let middle = left + (right - left) / 2;
                let (new_left, new_right) = if key < self.hash {
                    (middle + 1, right)
                } else {
                    (left, middle)
                };
                let new_seen = seen || key == self.hash;
                if new_left < new_right {
                    Stage::Lower { left: new_left, right: new_right, seen: new_seen }
                } else if new_seen {
                    Stage::Upper { first: new_left, left: 0, right: self.len }
                } else {
                    Stage::Absent
                }
            },
            Stage::Upper { first, left, right } => {
                let middle = left + (right - left) / 2;
                let (new_left, new_right) = if key <= self.hash {
                    (middle + 1, right)
                } else {
                    (left, middle)
                };
                if new_left < new_right {
                    Stage::Upper { first, left: new_left, right: new_right }
                } else if first < new_left {
                    Stage::Found { first, end: new_left }
                } else {
                    Stage::Absent
                }
            },
            Stage::Found { first, end } => Stage::Found { first, end },
            Stage::Absent => Stage::Absent,
        };
        RangeSearch { hash: self.hash, len: self.len, stage }
    }

    /// The run that the search has found, as the index of its first record
    /// and the number of its records, which is not zero. `None` while the
    /// search goes on, and when no record has the wanted key.
    pub fn range(&self) -> (run: Option<(u64, u64)>)
        ensures
            match run {
                Some((first, count)) => self@.range() == Some((first as int, count as int))
                    && count > 0 && first + count <= self@.len,
                None => self@.range() is None,
            },
    {
        proof {
            use_type_invariant(self);
        }
        match self.stage {
            Stage::Found { first, end } => Some((first, end - first)),
            _ => None,
        }
    }
}

} // verus!
