use chess_polyglot_reader::RangeSearch;

/// Runs a search on the given keys; gives the run it found and the indices
/// whose keys it asked for.
fn run(keys: &[u64], hash: u64) -> (Option<(u64, u64)>, Vec<u64>) {
    let mut search = RangeSearch::new(keys.len() as u64, hash);
    let mut probes = Vec::new();
    while let Some(index) = search.probe() {
        assert!((index as usize) < keys.len());
        probes.push(index);
        search = search.step(keys[index as usize]);
        assert!(probes.len() <= 200);
    }
    (search.range(), probes)
}

fn log2_ceil(n: usize) -> usize {
    let mut bits = 0;
    while (1usize << bits) < n {
        bits += 1;
    }
    bits
}

#[test]
fn empty_book_is_not_searched() {
    let search = RangeSearch::new(0, 42);
    assert_eq!(search.probe(), None);
    assert_eq!(search.range(), None);
    assert_eq!(run(&[], 42), (None, Vec::new()));
}

#[test]
fn single_record_resolves_to_index_zero() {
    assert_eq!(run(&[42], 42).0, Some((0, 1)));
    assert_eq!(run(&[41], 42).0, None);
    assert_eq!(run(&[43], 42).0, None);
    assert_eq!(run(&[0], 0).0, Some((0, 1)));
    assert_eq!(run(&[u64::MAX], u64::MAX).0, Some((0, 1)));
}

#[test]
fn first_probe_is_the_middle() {
    assert_eq!(RangeSearch::new(1, 0).probe(), Some(0));
    assert_eq!(RangeSearch::new(2, 0).probe(), Some(1));
    assert_eq!(RangeSearch::new(7, 0).probe(), Some(3));
    assert_eq!(RangeSearch::new(8, 0).probe(), Some(4));
    assert_eq!(RangeSearch::new(u64::MAX, 0).probe(), Some(u64::MAX / 2));
}

#[test]
fn steps_of_a_search_on_three_records() {
    // Keys 10, 20, 20; wanted 20.
    let search = RangeSearch::new(3, 20);
    assert_eq!(search.probe(), Some(1));
    let search = search.step(20);
    assert_eq!(search.range(), None);
    assert_eq!(search.probe(), Some(0));
    let search = search.step(10);
    // The lower bound is 1 and a match was seen: the second search starts.
    assert_eq!(search.probe(), Some(1));
    let search = search.step(20);
    assert_eq!(search.probe(), Some(2));
    let search = search.step(20);
    assert_eq!(search.probe(), None);
    assert_eq!(search.range(), Some((1, 2)));
    // A search that is over stays as it is.
    let search = search.step(5);
    assert_eq!(search.probe(), None);
    assert_eq!(search.range(), Some((1, 2)));
}

#[test]
fn finds_the_block_wherever_it_lies() {
    for len in 1..=20usize {
        for first in 0..len {
            for count in 1..=(len - first) {
                let keys: Vec<u64> = (0..len)
                    .map(|i| {
                        if i < first {
                            100 + i as u64
                        } else if i < first + count {
                            500
                        } else {
                            900 + i as u64
                        }
                    })
                    .collect();
                let (found, probes) = run(&keys, 500);
                assert_eq!(found, Some((first as u64, count as u64)), "{:?}", keys);
                assert!(probes.len() <= 2 * (log2_ceil(len) + 1), "{:?}", keys);
            }
        }
    }
}

#[test]
fn absent_key_ends_after_the_first_search() {
    for len in 0..=20usize {
        let keys: Vec<u64> = (0..len).map(|i| 10 * (i as u64 + 1)).collect();
        for gap in 0..=len {
            let hash = 10 * gap as u64 + 5;
            let (found, probes) = run(&keys, hash);
            assert_eq!(found, None);
            assert!(probes.len() <= log2_ceil(len) + 1, "{} probes on {} records", probes.len(), len);
        }
    }
}

#[test]
fn duplicates_of_other_keys_do_not_confuse_the_search() {
    let keys = [1, 1, 1, 3, 3, 5, 5, 5, 5, 7, 9, 9];
    assert_eq!(run(&keys, 1).0, Some((0, 3)));
    assert_eq!(run(&keys, 3).0, Some((3, 2)));
    assert_eq!(run(&keys, 5).0, Some((5, 4)));
    assert_eq!(run(&keys, 7).0, Some((9, 1)));
    assert_eq!(run(&keys, 9).0, Some((10, 2)));
    for absent in [0, 2, 4, 6, 8, 10] {
        assert_eq!(run(&keys, absent).0, None);
    }
}

#[test]
fn all_records_with_one_key() {
    for len in 1..=17usize {
        let keys = vec![77u64; len];
        assert_eq!(run(&keys, 77).0, Some((0, len as u64)));
        assert_eq!(run(&keys, 76).0, None);
        assert_eq!(run(&keys, 78).0, None);
    }
}

#[test]
fn unsorted_keys_stay_within_the_book() {
    let keys = [9, 1, 8, 2, 7, 3, 6, 4, 5, 5, 0, 9];
    for hash in 0..=10 {
        let (found, probes) = run(&keys, hash);
        if let Some((first, count)) = found {
            assert!(count > 0);
            assert!(first + count <= keys.len() as u64);
        }
        assert!(probes.iter().all(|&index| (index as usize) < keys.len()));
    }
}
