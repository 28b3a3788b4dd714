use glyfi::store::Store;
use glyfi::types::Challenge;
use glyfi::votes::{toggle_vote, votes_for};

const T0: i64 = 1_000_000;

#[test]
fn toggle_twice_restores_the_original_bitmask() {
    let mask = 0b1010_0110u64;
    for slot in 0..64 {
        assert_eq!(toggle_vote(toggle_vote(mask, slot), slot), mask);
    }
}

#[test]
fn register_vote_twice_restores_the_ledger() {
    let mut s = Store::new(T0);
    assert!(s.register_vote(Challenge::Glyph, 0, 42, 3));
    assert_eq!(s.get_votes(Challenge::Glyph, 0, 42, 10), vec![3]);
    assert!(s.register_vote(Challenge::Glyph, 0, 42, 3));
    assert!(s.get_votes(Challenge::Glyph, 0, 42, 10).is_empty());
}

#[test]
fn votes_accumulate_per_slot() {
    let mut s = Store::new(T0);
    s.register_vote(Challenge::Ambigram, 2, 7, 0);
    s.register_vote(Challenge::Ambigram, 2, 7, 3);
    s.register_vote(Challenge::Ambigram, 2, 7, 5);
    assert_eq!(s.get_votes(Challenge::Ambigram, 2, 7, 6), vec![0, 3, 5]);
    // Slots at or beyond the votable count are not reported.
    assert_eq!(s.get_votes(Challenge::Ambigram, 2, 7, 4), vec![0, 3]);
}

#[test]
fn ledgers_are_keyed_by_track_sequence_and_voter() {
    let mut s = Store::new(T0);
    s.register_vote(Challenge::Glyph, 0, 1, 2);
    assert!(s.get_votes(Challenge::Ambigram, 0, 1, 10).is_empty());
    assert!(s.get_votes(Challenge::Glyph, 1, 1, 10).is_empty());
    assert!(s.get_votes(Challenge::Glyph, 0, 2, 10).is_empty());
    assert_eq!(s.get_votes(Challenge::Glyph, 0, 1, 10), vec![2]);
}

#[test]
fn highest_ledger_slot_is_usable() {
    let mut s = Store::new(T0);
    s.register_vote(Challenge::Glyph, 0, 9, 63);
    assert_eq!(s.get_votes(Challenge::Glyph, 0, 9, 64), vec![63]);
}

#[test]
fn votes_for_decodes_exactly_the_set_bits() {
    let mask = (1u64 << 0) | (1u64 << 24) | (1u64 << 39);
    assert_eq!(votes_for(mask, 40), vec![0, 24, 39]);
    assert_eq!(votes_for(mask, 25), vec![0, 24]);
    assert_eq!(votes_for(0, 40), Vec::<i64>::new());
    assert_eq!(votes_for(mask, 0), Vec::<i64>::new());
}
