//! The vote ledger: one bitmask per (track, sequence, voter), toggled one
//! slot at a time and decoded into slot indices bounded by the panel count.

use vstd::prelude::*;

use crate::store::{Store, VoteRow};
use crate::types::{Challenge, VOTE_MASK_BITS};

verus! {

/// Whether a ledger row belongs to the given (track, sequence, voter).
pub open spec fn vote_key(r: VoteRow, c: Challenge, w: i64, u: u64) -> bool {
    r.challenge == c && r.week == w && r.user == u
}

/// The bitmask stored for a (track, sequence, voter); zero when no row
/// exists.
pub open spec fn mask_in(rows: Seq<VoteRow>, c: Challenge, w: i64, u: u64) -> u64
    decreases rows.len(),
{
    if rows.len() == 0 {
        0u64
    } else if vote_key(rows.last(), c, w, u) {
        rows.last().votes
    } else {
        mask_in(rows.drop_last(), c, w, u)
    }
}

/// A voter's mask after one slot toggle.
pub open spec fn spec_toggle(mask: u64, slot: i64) -> u64 {
    mask ^ (1u64 << (slot as u64))
}

/// The slot indices below `n` whose bit is set, in ascending order.
pub open spec fn vote_indices(mask: u64, n: int) -> Seq<i64>
    decreases n,
{
    if n <= 0 {
        Seq::empty()
    } else {
        vote_indices(mask, n - 1) + if mask & (1u64 << ((n - 1) as u64)) != 0 {
            seq![(n - 1) as i64]
        } else {
            Seq::empty()
        }
    }
}

/// When exactly one row carries the key, the ledger's mask is that row's.
proof fn lemma_mask_at(rows: Seq<VoteRow>, c: Challenge, w: i64, u: u64, i: int)
    requires
        0 <= i < rows.len(),
        vote_key(rows[i], c, w, u),
        forall|j: int| 0 <= j < rows.len() && j != i ==> !vote_key(#[trigger] rows[j], c, w, u),
    ensures
        mask_in(rows, c, w, u) == rows[i].votes,
    decreases rows.len(),
{
    if i == rows.len() - 1 {
    } else {
        assert(rows.drop_last()[i] == rows[i]);
        lemma_mask_at(rows.drop_last(), c, w, u, i);
    }
}

/// With no row under the key, the ledger's mask is zero.
proof fn lemma_mask_none(rows: Seq<VoteRow>, c: Challenge, w: i64, u: u64)
    requires
        forall|j: int| 0 <= j < rows.len() ==> !vote_key(#[trigger] rows[j], c, w, u),
    ensures
        mask_in(rows, c, w, u) == 0,
    decreases rows.len(),
{
    if rows.len() > 0 {
        lemma_mask_none(rows.drop_last(), c, w, u);
    }
}

/// Replacing a row's mask leaves every other key's mask untouched.
proof fn lemma_mask_update_other(
    rows: Seq<VoteRow>,
    i: int,
    nr: VoteRow,
    c: Challenge,
    w: i64,
    u: u64,
)
    requires
        0 <= i < rows.len(),
        nr.challenge == rows[i].challenge,
        nr.week == rows[i].week,
        nr.user == rows[i].user,
        !vote_key(rows[i], c, w, u),
    ensures
        mask_in(rows.update(i, nr), c, w, u) == mask_in(rows, c, w, u),
    decreases rows.len(),
{
    let updated = rows.update(i, nr);
    if i == rows.len() - 1 {
        assert(updated.drop_last() =~= rows.drop_last());
    } else {
        assert(updated.last() == rows.last());
        assert(updated.drop_last() =~= rows.drop_last().update(i, nr));
        assert(rows.drop_last()[i] == rows[i]);
        lemma_mask_update_other(rows.drop_last(), i, nr, c, w, u);
    }
}

/// Appending a row leaves every other key's mask untouched.
proof fn lemma_mask_push_other(rows: Seq<VoteRow>, nr: VoteRow, c: Challenge, w: i64, u: u64)
    requires
        !vote_key(nr, c, w, u),
    ensures
        mask_in(rows.push(nr), c, w, u) == mask_in(rows, c, w, u),
{
    assert(rows.push(nr).drop_last() =~= rows);
}

/// Flips the bit of one slot in a voter's bitmask.
pub fn toggle_vote(mask: u64, slot: i64) -> (r: u64)
    requires
        0 <= slot < VOTE_MASK_BITS,
    ensures
        r == spec_toggle(mask, slot),
{
    mask ^ (1u64 << (slot as u64))
}

/// Toggling the same slot twice restores the original bitmask: together
/// with `register_vote`'s contract, two identical vote toggles for one
/// (track, sequence, voter, slot) leave the ledger as it was.
pub proof fn lemma_toggle_vote_twice(mask: u64, slot: i64)
    requires
        0 <= slot < VOTE_MASK_BITS,
    ensures
        spec_toggle(spec_toggle(mask, slot), slot) == mask,
{
    let s = slot as u64;
    assert((mask ^ (1u64 << s)) ^ (1u64 << s) == mask) by (bit_vector);
}

/// Decodes a bitmask into the ascending list of set slots below
/// `slot_count`.
pub fn votes_for(mask: u64, slot_count: i64) -> (r: Vec<i64>)
    requires
        0 <= slot_count <= VOTE_MASK_BITS,
    ensures
        r@ == vote_indices(mask, slot_count as int),
{
    let mut r: Vec<i64> = Vec::new();
    let mut k: i64 = 0;
    while k < slot_count
        invariant
            0 <= k <= slot_count <= VOTE_MASK_BITS,
            r@ == vote_indices(mask, k as int),
        decreases slot_count - k,
    {
        if mask & (1u64 << (k as u64)) != 0 {
            r.push(k);
            proof {
                assert(r@ =~= vote_indices(mask, k as int) + seq![k as i64]);
            }
        } else {
            proof {
                assert(r@ =~= vote_indices(mask, k as int) + Seq::<i64>::empty());
            }
        }
        k += 1;
    }
    r
}

impl Store {
    /// The bitmask the ledger holds for a (track, sequence, voter).
    pub open spec fn spec_votes_mask(self, c: Challenge, w: i64, u: u64) -> u64 {
        mask_in(self.votes@, c, w, u)
    }

    /// Index of the ledger row under the key, if any.
    fn find_vote_idx(&self, c: Challenge, w: i64, u: u64) -> (r: Option<usize>)
        ensures
            match r {
                Some(i) => i < self.votes@.len() && vote_key(self.votes@[i as int], c, w, u),
                None => forall|j: int|
                    0 <= j < self.votes@.len() ==> !vote_key(#[trigger] self.votes@[j], c, w, u),
            },
    {
        let mut i: usize = 0;
        while i < self.votes.len()
            invariant
                i <= self.votes@.len(),
                forall|j: int| 0 <= j < i ==> !vote_key(#[trigger] self.votes@[j], c, w, u),
            decreases self.votes@.len() - i,
        {
            let row = &self.votes[i];
            if row.challenge == c && row.week == w && row.user == u {
                return Some(i);
            }
            i += 1;
        }
        None
    }

    /// Toggles one voter's bit for one submission slot and stores the new
    /// bitmask; reports success.  Every other (track, sequence, voter)
    /// keeps its mask.
    pub fn register_vote(
        &mut self,
        challenge: Challenge,
        week_num: i64,
        user_id: u64,
        sub_num: i64,
    ) -> (r: bool)
        requires
            old(self).wf(),
            0 <= sub_num < VOTE_MASK_BITS,
        ensures
            final(self).wf(),
            r,
            final(self).spec_votes_mask(challenge, week_num, user_id) == spec_toggle(
                old(self).spec_votes_mask(challenge, week_num, user_id),
                sub_num,
            ),
            forall|c2: Challenge, w2: i64, u2: u64|
                !(c2 == challenge && w2 == week_num && u2 == user_id)
                    ==> #[trigger] final(self).spec_votes_mask(c2, w2, u2) == old(
                    self,
                ).spec_votes_mask(c2, w2, u2),
            final(self).glyph == old(self).glyph,
            final(self).ambigram == old(self).ambigram,
            final(self).next_prompt_id == old(self).next_prompt_id,
            final(self).submissions == old(self).submissions,
            final(self).users == old(self).users,
    {
        let ghost pre = self.votes@;
        match self.find_vote_idx(challenge, week_num, user_id) {
            Some(i) => {
                let row = self.votes[i];
                let new_mask = toggle_vote(row.votes, sub_num);
                let nr = VoteRow {
                    challenge: row.challenge,
                    week: row.week,
                    user: row.user,
                    votes: new_mask,
                };
                self.votes.set(i, nr);
                proof {
                    assert forall|j: int|
                        0 <= j < pre.len() && j != i implies !vote_key(
                        #[trigger] pre[j],
                        challenge,
                        week_num,
                        user_id,
                    ) by {}
                    lemma_mask_at(pre, challenge, week_num, user_id, i as int);
                    lemma_mask_at(self.votes@, challenge, week_num, user_id, i as int);
                    assert forall|c2: Challenge, w2: i64, u2: u64|
                        !(c2 == challenge && w2 == week_num && u2
                            == user_id) implies #[trigger] self.spec_votes_mask(c2, w2, u2)
                        == mask_in(pre, c2, w2, u2) by {
                        lemma_mask_update_other(pre, i as int, nr, c2, w2, u2);
                    }
                }
                true
            },
            None => {
                let new_mask = toggle_vote(0, sub_num);
                let nr = VoteRow {
                    challenge,
                    week: week_num,
                    user: user_id,
                    votes: new_mask,
                };
                self.votes.push(nr);
                proof {
                    lemma_mask_none(pre, challenge, week_num, user_id);
                    lemma_mask_at(
                        self.votes@,
                        challenge,
                        week_num,
                        user_id,
                        self.votes@.len() - 1,
                    );
                    assert forall|c2: Challenge, w2: i64, u2: u64|
                        !(c2 == challenge && w2 == week_num && u2
                            == user_id) implies #[trigger] self.spec_votes_mask(c2, w2, u2)
                        == mask_in(pre, c2, w2, u2) by {
                        lemma_mask_push_other(pre, nr, c2, w2, u2);
                    }
                }
                true
            },
        }
    }

    /// One voter's chosen slots for a period, bounded by the number of
    /// votable submissions.
    pub fn get_votes(
        &self,
        challenge: Challenge,
        week_num: i64,
        user_id: u64,
        num_subs: i64,
    ) -> (r: Vec<i64>)
        requires
            self.wf(),
            0 <= num_subs <= VOTE_MASK_BITS,
        ensures
            r@ == vote_indices(
                self.spec_votes_mask(challenge, week_num, user_id),
                num_subs as int,
            ),
    {
        let mask: u64 = match self.find_vote_idx(challenge, week_num, user_id) {
            Some(i) => {
                let row = self.votes[i];
                proof {
                    lemma_mask_at(self.votes@, challenge, week_num, user_id, i as int);
                }
                row.votes
            },
            None => {
                proof {
                    lemma_mask_none(self.votes@, challenge, week_num, user_id);
                }
                0
            },
        };
        votes_for(mask, num_subs)
    }
}

} // verus!
