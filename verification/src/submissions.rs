//! The submission and user tables: registering and removing submissions,
//! the audience sweep that drops submissions of absent users when a period
//! closes, and cached user profiles.

use vstd::prelude::*;

use crate::store::{same_sub_key, sorted_by_message, Store};
use crate::types::{Challenge, GlyfiError, Submission, UserProfileData, UserRow, MAX_SUBMISSIONS};

verus! {

/// Whether a submission belongs to the given (track, sequence).
pub open spec fn is_sub_of(s: Submission, c: Challenge, w: i64) -> bool {
    s.challenge == c && s.week == w
}

/// The (author, message) pairs of a period's submissions, in table order;
/// the store keeps its table ascending by message reference, so the view is
/// too.
pub open spec fn subs_view(s: Seq<Submission>, c: Challenge, w: i64) -> Seq<(u64, u64)>
    decreases s.len(),
{
    if s.len() == 0 {
        Seq::empty()
    } else {
        let rest = subs_view(s.drop_last(), c, w);
        if is_sub_of(s.last(), c, w) {
            rest.push((s.last().author, s.last().message))
        } else {
            rest
        }
    }
}

/// How many stored submissions belong to the given (track, sequence).
pub open spec fn count_subs(s: Seq<Submission>, c: Challenge, w: i64) -> int
    decreases s.len(),
{
    if s.len() == 0 {
        0
    } else {
        count_subs(s.drop_last(), c, w) + if is_sub_of(s.last(), c, w) {
            1int
        } else {
            0int
        }
    }
}

/// How many stored submissions a user made to one track.
pub open spec fn count_by_author(s: Seq<Submission>, author: u64, c: Challenge) -> int
    decreases s.len(),
{
    if s.len() == 0 {
        0
    } else {
        count_by_author(s.drop_last(), author, c) + if s.last().author == author && s.last().challenge == c {
            1int
        } else {
            0int
        }
    }
}

/// The submission table after the audience sweep of one (track, sequence):
/// the period's k-th submission is kept exactly when `present[k]`; every
/// other period's submissions stay untouched, in order.
pub open spec fn sweep_subs(s: Seq<Submission>, c: Challenge, w: i64, present: Seq<bool>) -> Seq<
    Submission,
>
    decreases s.len(),
{
    if s.len() == 0 {
        Seq::empty()
    } else {
        let rest = sweep_subs(s.drop_last(), c, w, present);
        if is_sub_of(s.last(), c, w) {
            if present[count_subs(s.drop_last(), c, w)] {
                rest.push(s.last())
            } else {
                rest
            }
        } else {
            rest.push(s.last())
        }
    }
}

/// The per-period counters never shrink as the table grows.
pub proof fn lemma_count_take_mono(s: Seq<Submission>, c: Challenge, w: i64, i: int, j: int)
    requires
        0 <= i <= j <= s.len(),
    ensures
        count_subs(s.take(i), c, w) <= count_subs(s.take(j), c, w),
    decreases j,
{
    if i < j {
        lemma_count_take_mono(s, c, w, i, j - 1);
        assert(s.take(j).drop_last() =~= s.take(j - 1));
    }
}

/// The per-period view is never longer than the table, and its length is
/// the per-period count.
pub proof fn lemma_subs_view_len(s: Seq<Submission>, c: Challenge, w: i64)
    ensures
        subs_view(s, c, w).len() == count_subs(s, c, w),
        0 <= count_subs(s, c, w) <= s.len(),
    decreases s.len(),
{
    if s.len() > 0 {
        lemma_subs_view_len(s.drop_last(), c, w);
    }
}

/// When every stored submission of the period has a message reference
/// below `m`, so does every pair of the period's view.
proof fn lemma_subs_view_upper(s: Seq<Submission>, c: Challenge, w: i64, m: u64)
    requires
        forall|i: int| 0 <= i < s.len() && is_sub_of(#[trigger] s[i], c, w) ==> s[i].message < m,
    ensures
        forall|a: int|
            0 <= a < subs_view(s, c, w).len() ==> (#[trigger] subs_view(s, c, w)[a]).1 < m,
    decreases s.len(),
{
    if s.len() > 0 {
        let shorter = s.drop_last();
        assert forall|i: int|
            0 <= i < shorter.len() && is_sub_of(
                #[trigger] shorter[i],
                c,
                w,
            ) implies shorter[i].message < m by {
            assert(shorter[i] == s[i]);
        }
        lemma_subs_view_upper(shorter, c, w, m);
        if is_sub_of(s.last(), c, w) {
            assert(s[s.len() - 1] == s.last());
        }
        let rest = subs_view(shorter, c, w);
        assert forall|a: int|
            0 <= a < subs_view(s, c, w).len() implies (#[trigger] subs_view(s, c, w)[a]).1
            < m by {
            if is_sub_of(s.last(), c, w) && a == rest.len() {
                assert(subs_view(s, c, w)[a] == (s.last().author, s.last().message));
            } else {
                assert(subs_view(s, c, w)[a] == rest[a]);
            }
        }
    }
}

/// On a table ordered by message with unique keys, a period's view is
/// strictly ascending by message reference, which is what numbers its
/// voting slots.
pub proof fn lemma_subs_view_ascending(s: Seq<Submission>, c: Challenge, w: i64)
    requires
        sorted_by_message(s),
        forall|i: int, j: int|
            0 <= i < j < s.len() ==> !same_sub_key(#[trigger] s[i], #[trigger] s[j]),
    ensures
        forall|a: int, b: int|
            0 <= a < b < subs_view(s, c, w).len() ==> (#[trigger] subs_view(s, c, w)[a]).1 < (
            #[trigger] subs_view(s, c, w)[b]).1,
    decreases s.len(),
{
    if s.len() > 0 {
        let shorter = s.drop_last();
        assert forall|i: int, j: int|
            0 <= i < j < shorter.len() implies (#[trigger] shorter[i]).message <= (
        #[trigger] shorter[j]).message && !same_sub_key(shorter[i], shorter[j]) by {
            assert(shorter[i] == s[i]);
            assert(shorter[j] == s[j]);
        }
        lemma_subs_view_ascending(shorter, c, w);
        if is_sub_of(s.last(), c, w) {
            assert(s[s.len() - 1] == s.last());
            assert forall|i: int|
                0 <= i < shorter.len() && is_sub_of(
                    #[trigger] shorter[i],
                    c,
                    w,
                ) implies shorter[i].message < s.last().message by {
                assert(shorter[i] == s[i]);
                assert(s[i].message <= s.last().message);
                assert(!same_sub_key(s[i], s.last()));
            }
            lemma_subs_view_upper(shorter, c, w, s.last().message);
        }
        let rest = subs_view(shorter, c, w);
        assert forall|a: int, b: int|
            0 <= a < b < subs_view(s, c, w).len() implies (#[trigger] subs_view(s, c, w)[a]).1 < (
        #[trigger] subs_view(s, c, w)[b]).1 by {
            assert(subs_view(s, c, w)[a] == rest[a]);
            if is_sub_of(s.last(), c, w) && b == rest.len() {
                assert(subs_view(s, c, w)[b] == (s.last().author, s.last().message));
            } else {
                assert(subs_view(s, c, w)[b] == rest[b]);
            }
        }
    }
}

impl Store {
    /// Whether some period holds a submission under this message reference.
    pub open spec fn spec_has_submission_message(self, message: u64) -> bool {
        exists|i: int|
            0 <= i < self.submissions@.len() && (#[trigger] self.submissions@[i]).message
                == message
    }

    /// Whether the given (track, sequence) holds a submission under this
    /// message reference.
    pub open spec fn spec_has_submission(self, message: u64, c: Challenge, w: i64) -> bool {
        exists|i: int|
            0 <= i < self.submissions@.len() && (#[trigger] self.submissions@[i]).message
                == message && is_sub_of(self.submissions@[i], c, w)
    }

    /// Registers a submission for an open period, keeping the table ordered
    /// by ascending message reference.  A second registration under the same
    /// (message, track, sequence) key is rejected unchanged.
    pub fn register_submission(
        &mut self,
        message: u64,
        challenge: Challenge,
        author: u64,
        link: String,
        week_num: i64,
        time: i64,
    ) -> (r: Result<(), GlyfiError>)
        requires
            old(self).wf(),
        ensures
            final(self).wf(),
            match r {
                Ok(()) => {
                    &&& !old(self).spec_has_submission(message, challenge, week_num)
                    &&& old(self).submissions@.len() < MAX_SUBMISSIONS
                    &&& exists|i: int|
                        {
                            &&& 0 <= i <= old(self).submissions@.len()
                            &&& (forall|j: int|
                                0 <= j < i ==> (#[trigger] old(self).submissions@[j]).message
                                    <= message)
                            &&& (i < old(self).submissions@.len() ==> old(
                                self,
                            ).submissions@[i].message > message)
                            &&& final(self).submissions@ == old(self).submissions@.insert(
                                i,
                                (Submission {
                                    message,
                                    week: week_num,
                                    challenge,
                                    author,
                                    link,
                                    time,
                                }),
                            )
                        }
                },
                Err(e) => {
                    &&& *final(self) == *old(self)
                    &&& (e == GlyfiError::Validation || e == GlyfiError::Persistence)
                    &&& (e == GlyfiError::Validation <==> old(self).spec_has_submission(
                        message,
                        challenge,
                        week_num,
                    ))
                    &&& (e == GlyfiError::Persistence ==> old(self).submissions@.len()
                        == MAX_SUBMISSIONS)
                },
            },
            final(self).glyph == old(self).glyph,
            final(self).ambigram == old(self).ambigram,
            final(self).next_prompt_id == old(self).next_prompt_id,
            final(self).users == old(self).users,
            final(self).votes == old(self).votes,
    {
        let key = Submission { message, week: week_num, challenge, author, link, time };
        let mut i: usize = 0;
        while i < self.submissions.len()
            invariant
                *self == *old(self),
                self.wf(),
                i <= self.submissions@.len(),
                forall|j: int|
                    0 <= j < i ==> !((#[trigger] self.submissions@[j]).message == message
                        && is_sub_of(self.submissions@[j], challenge, week_num)),
            decreases self.submissions@.len() - i,
        {
            let s = &self.submissions[i];
            if s.message == message && s.challenge == challenge && s.week == week_num {
                return Err(GlyfiError::Validation);
            }
            i += 1;
        }
        if self.submissions.len() >= MAX_SUBMISSIONS {
            return Err(GlyfiError::Persistence);
        }
        let mut idx: usize = 0;
        while idx < self.submissions.len() && self.submissions[idx].message <= message
            invariant
                *self == *old(self),
                self.wf(),
                idx <= self.submissions@.len(),
                forall|j: int|
                    0 <= j < idx ==> (#[trigger] self.submissions@[j]).message <= message,
            decreases self.submissions@.len() - idx,
        {
            idx += 1;
        }
        let ghost pre = self.submissions@;
        let ghost at = idx as int;
        self.submissions.insert(idx, key);
        proof {
            assert forall|a: int, b: int|
                0 <= a < b < self.submissions@.len() implies !same_sub_key(
                #[trigger] self.submissions@[a],
                #[trigger] self.submissions@[b],
            ) && self.submissions@[a].message <= self.submissions@[b].message by {
                assert(self.submissions@[a] == if a < at {
                    pre[a]
                } else if a == at {
                    key
                } else {
                    pre[a - 1]
                });
                assert(self.submissions@[b] == if b < at {
                    pre[b]
                } else if b == at {
                    key
                } else {
                    pre[b - 1]
                });
            }
        }
        Ok(())
    }

    /// Whether any period holds a submission under this message reference.
    pub fn check_submission(&self, message: u64) -> (r: bool)
        ensures
            r == self.spec_has_submission_message(message),
    {
        let mut i: usize = 0;
        while i < self.submissions.len()
            invariant
                i <= self.submissions@.len(),
                forall|j: int|
                    0 <= j < i ==> (#[trigger] self.submissions@[j]).message != message,
            decreases self.submissions@.len() - i,
        {
            if self.submissions[i].message == message {
                return true;
            }
            i += 1;
        }
        false
    }

    /// Removes the submission under the given key, if present.
    pub fn deregister_submission(&mut self, message: u64, challenge: Challenge, week_num: i64) -> (r:
        bool)
        requires
            old(self).wf(),
        ensures
            final(self).wf(),
            r == old(self).spec_has_submission(message, challenge, week_num),
            r ==> exists|i: int|
                {
                    &&& 0 <= i < old(self).submissions@.len()
                    &&& (#[trigger] old(self).submissions@[i]).message == message
                    &&& is_sub_of(old(self).submissions@[i], challenge, week_num)
                    &&& final(self).submissions@ == old(self).submissions@.remove(i)
                },
            !r ==> *final(self) == *old(self),
            final(self).glyph == old(self).glyph,
            final(self).ambigram == old(self).ambigram,
            final(self).next_prompt_id == old(self).next_prompt_id,
            final(self).users == old(self).users,
            final(self).votes == old(self).votes,
    {
        let mut i: usize = 0;
        while i < self.submissions.len()
            invariant
                *self == *old(self),
                self.wf(),
                i <= self.submissions@.len(),
                forall|j: int|
                    0 <= j < i ==> !((#[trigger] self.submissions@[j]).message == message
                        && is_sub_of(self.submissions@[j], challenge, week_num)),
            decreases self.submissions@.len() - i,
        {
            let s = &self.submissions[i];
            if s.message == message && s.challenge == challenge && s.week == week_num {
                let ghost pre = self.submissions@;
                self.submissions.remove(i);
                proof {
                    assert(self.submissions@ =~= pre.remove(i as int));
                    assert forall|a: int, b: int|
                        0 <= a < b < self.submissions@.len() implies !same_sub_key(
                        #[trigger] self.submissions@[a],
                        #[trigger] self.submissions@[b],
                    ) by {
                        assert(self.submissions@[a] == if a < i {
                            pre[a]
                        } else {
                            pre[a + 1]
                        });
                        assert(self.submissions@[b] == if b < i {
                            pre[b]
                        } else {
                            pre[b + 1]
                        });
                    }
                }
                return true;
            }
            i += 1;
        }
        false
    }

    /// The (author, message) pairs of a period's submissions, ascending by
    /// message reference: the stable order that numbers the voting slots.
    pub fn get_submissions(&self, challenge: Challenge, week_num: i64) -> (r: Vec<(u64, u64)>)
        requires
            self.wf(),
        ensures
            r@ == subs_view(self.submissions@, challenge, week_num),
            r@.len() == count_subs(self.submissions@, challenge, week_num),
            forall|a: int, b: int|
                0 <= a < b < r@.len() ==> (#[trigger] r@[a]).1 < (#[trigger] r@[b]).1,
    {
        proof {
            lemma_subs_view_len(self.submissions@, challenge, week_num);
            lemma_subs_view_ascending(self.submissions@, challenge, week_num);
        }
        let mut r: Vec<(u64, u64)> = Vec::new();
        let mut i: usize = 0;
        while i < self.submissions.len()
            invariant
                i <= self.submissions@.len(),
                r@ == subs_view(self.submissions@.take(i as int), challenge, week_num),
            decreases self.submissions@.len() - i,
        {
            let s = &self.submissions[i];
            proof {
                assert(self.submissions@.take(i + 1).drop_last() =~= self.submissions@.take(
                    i as int,
                ));
                assert(self.submissions@.take(i + 1).last() == self.submissions@[i as int]);
            }
            if s.challenge == challenge && s.week == week_num {
                r.push((s.author, s.message));
            }
            i += 1;
        }
        proof {
            assert(self.submissions@.take(self.submissions@.len() as int) =~= self.submissions@);
        }
        r
    }

    /// How many submissions a period holds.
    pub fn count_submissions(&self, challenge: Challenge, week_num: i64) -> (r: i64)
        requires
            self.wf(),
        ensures
            r as int == count_subs(self.submissions@, challenge, week_num),
            0 <= r <= MAX_SUBMISSIONS as i64,
    {
        let mut count: i64 = 0;
        let mut i: usize = 0;
        while i < self.submissions.len()
            invariant
                self.wf(),
                i <= self.submissions@.len(),
                count as int == count_subs(
                    self.submissions@.take(i as int),
                    challenge,
                    week_num,
                ),
                0 <= count <= i,
            decreases self.submissions@.len() - i,
        {
            let s = &self.submissions[i];
            proof {
                assert(self.submissions@.take(i + 1).drop_last() =~= self.submissions@.take(
                    i as int,
                ));
                assert(self.submissions@.take(i + 1).last() == self.submissions@[i as int]);
            }
            if s.challenge == challenge && s.week == week_num {
                count += 1;
            }
            i += 1;
        }
        proof {
            assert(self.submissions@.take(self.submissions@.len() as int) =~= self.submissions@);
        }
        count
    }

    /// The audience sweep, run once when a period closes: the period's k-th
    /// stored submission survives exactly when `present[k]` says its author
    /// is still in the audience.  Submissions of other periods stay
    /// untouched, in order.  The membership answers are supplied by the
    /// collaborator that knows the audience, aligned with
    /// `get_submissions`'s order.
    pub fn remove_absent_user_submissions(
        &mut self,
        challenge: Challenge,
        week_num: i64,
        present: &Vec<bool>,
    )
        requires
            old(self).wf(),
            present@.len() == count_subs(old(self).submissions@, challenge, week_num),
        ensures
            final(self).wf(),
            final(self).submissions@ == sweep_subs(
                old(self).submissions@,
                challenge,
                week_num,
                present@,
            ),
            final(self).glyph == old(self).glyph,
            final(self).ambigram == old(self).ambigram,
            final(self).next_prompt_id == old(self).next_prompt_id,
            final(self).users == old(self).users,
            final(self).votes == old(self).votes,
    {
        let ghost s0 = self.submissions@;
        let mut kept: Vec<Submission> = Vec::new();
        let mut mc: usize = 0;
        let mut i: usize = 0;
        while i < self.submissions.len()
            invariant
                self.wf(),
                self.submissions@ == s0,
                i <= s0.len(),
                mc as int == count_subs(s0.take(i as int), challenge, week_num),
                0 <= mc <= i,
                present@.len() == count_subs(s0, challenge, week_num),
                kept@ == sweep_subs(s0.take(i as int), challenge, week_num, present@),
                kept@.len() <= i,
                forall|k: int|
                    0 <= k < kept@.len() ==> exists|j: int|
                        0 <= j < i && #[trigger] kept@[k] == s0[j],
                forall|a: int, b: int|
                    0 <= a < b < kept@.len() ==> !same_sub_key(
                        #[trigger] kept@[a],
                        #[trigger] kept@[b],
                    ) && kept@[a].message <= kept@[b].message,
            decreases s0.len() - i,
        {
            let s = &self.submissions[i];
            proof {
                assert(s0.take(i + 1).drop_last() =~= s0.take(i as int));
                assert(s0.take(i + 1).last() == s0[i as int]);
                lemma_count_take_mono(s0, challenge, week_num, i + 1 as int, s0.len() as int);
                assert(s0.take(s0.len() as int) =~= s0);
                assert forall|a: int| 0 <= a < kept@.len() implies !same_sub_key(
                    #[trigger] kept@[a],
                    s0[i as int],
                ) && kept@[a].message <= s0[i as int].message by {
                    let ja = choose|j: int| 0 <= j < i && kept@[a] == s0[j];
                    assert(!same_sub_key(s0[ja], s0[i as int]));
                    assert(s0[ja].message <= s0[i as int].message);
                }
            }
            if s.challenge == challenge && s.week == week_num {
                if present[mc] {
                    kept.push(s.clone());
                }
                mc += 1;
            } else {
                kept.push(s.clone());
            }
            i += 1;
        }
        proof {
            assert(s0.take(s0.len() as int) =~= s0);
        }
        self.submissions = kept;
    }

    /// Whether the user is in the table.
    pub open spec fn spec_has_user(self, id: u64) -> bool {
        exists|i: int| 0 <= i < self.users@.len() && (#[trigger] self.users@[i]).id == id
    }

    /// Index of the user's row.
    fn find_user_idx(&self, id: u64) -> (r: Option<usize>)
        ensures
            match r {
                Some(i) => i < self.users@.len() && self.users@[i as int].id == id,
                None => !self.spec_has_user(id),
            },
    {
        let mut i: usize = 0;
        while i < self.users.len()
            invariant
                i <= self.users@.len(),
                forall|j: int| 0 <= j < i ==> (#[trigger] self.users@[j]).id != id,
            decreases self.users@.len() - i,
        {
            if self.users[i].id == id {
                return Some(i);
            }
            i += 1;
        }
        None
    }

    /// Adds a user with a fresh profile row; rejected when the id is
    /// already registered.
    pub fn register_user(&mut self, id: u64, nickname: String) -> (r: Result<(), GlyfiError>)
        requires
            old(self).wf(),
        ensures
            final(self).wf(),
            match r {
                Ok(()) => {
                    &&& !old(self).spec_has_user(id)
                    &&& final(self).users@ == old(self).users@.push(
                        (UserRow {
                            id,
                            nickname: Some(nickname),
                            glyphs_first: 0,
                            glyphs_second: 0,
                            glyphs_third: 0,
                            ambigrams_first: 0,
                            ambigrams_second: 0,
                            ambigrams_third: 0,
                            highest_ranking_glyphs: 0,
                            highest_ranking_ambigrams: 0,
                        }),
                    )
                },
                Err(e) => {
                    &&& e == GlyfiError::Validation
                    &&& old(self).spec_has_user(id)
                    &&& *final(self) == *old(self)
                },
            },
            final(self).glyph == old(self).glyph,
            final(self).ambigram == old(self).ambigram,
            final(self).next_prompt_id == old(self).next_prompt_id,
            final(self).submissions == old(self).submissions,
            final(self).votes == old(self).votes,
    {
        match self.find_user_idx(id) {
            Some(_) => Err(GlyfiError::Validation),
            None => {
                self.users.push(
                    UserRow {
                        id,
                        nickname: Some(nickname),
                        glyphs_first: 0,
                        glyphs_second: 0,
                        glyphs_third: 0,
                        ambigrams_first: 0,
                        ambigrams_second: 0,
                        ambigrams_third: 0,
                        highest_ranking_glyphs: 0,
                        highest_ranking_ambigrams: 0,
                    },
                );
                Ok(())
            },
        }
    }

    /// Whether the user is registered.
    pub fn check_user(&self, id: u64) -> (r: bool)
        ensures
            r == self.spec_has_user(id),
    {
        match self.find_user_idx(id) {
            Some(_) => true,
            None => false,
        }
    }

    /// Sets a user's nickname, creating the row when none exists.
    pub fn set_nickname(&mut self, user: u64, name: String)
        requires
            old(self).wf(),
        ensures
            final(self).wf(),
            old(self).spec_has_user(user) ==> exists|i: int|
                {
                    &&& 0 <= i < old(self).users@.len()
                    &&& (#[trigger] old(self).users@[i]).id == user
                    &&& final(self).users@ == old(self).users@.update(
                        i,
                        (UserRow { nickname: Some(name), ..old(self).users@[i] }),
                    )
                },
            !old(self).spec_has_user(user) ==> final(self).users@ == old(self).users@.push(
                (UserRow {
                    id: user,
                    nickname: Some(name),
                    glyphs_first: 0,
                    glyphs_second: 0,
                    glyphs_third: 0,
                    ambigrams_first: 0,
                    ambigrams_second: 0,
                    ambigrams_third: 0,
                    highest_ranking_glyphs: 0,
                    highest_ranking_ambigrams: 0,
                }),
            ),
            final(self).glyph == old(self).glyph,
            final(self).ambigram == old(self).ambigram,
            final(self).next_prompt_id == old(self).next_prompt_id,
            final(self).submissions == old(self).submissions,
            final(self).votes == old(self).votes,
    {
        match self.find_user_idx(user) {
            Some(i) => {
                let row = self.users[i].clone();
                self.users.set(i, UserRow { nickname: Some(name), ..row });
            },
            None => {
                self.users.push(
                    UserRow {
                        id: user,
                        nickname: Some(name),
                        glyphs_first: 0,
                        glyphs_second: 0,
                        glyphs_third: 0,
                        ambigrams_first: 0,
                        ambigrams_second: 0,
                        ambigrams_third: 0,
                        highest_ranking_glyphs: 0,
                        highest_ranking_ambigrams: 0,
                    },
                );
            },
        }
    }

    /// Profile data for a user: the cached row (or its defaults when the
    /// user is unknown) plus live per-track submission counts.
    pub fn get_user_profile(&self, user: u64) -> (r: UserProfileData)
        requires
            self.wf(),
        ensures
            r.glyphs_submissions as int == count_by_author(
                self.submissions@,
                user,
                Challenge::Glyph,
            ),
            r.ambigrams_submissions as int == count_by_author(
                self.submissions@,
                user,
                Challenge::Ambigram,
            ),
            self.spec_has_user(user) ==> exists|i: int|
                {
                    &&& 0 <= i < self.users@.len()
                    &&& (#[trigger] self.users@[i]).id == user
                    &&& profile_matches_row(r, self.users@[i])
                },
            !self.spec_has_user(user) ==> {
                &&& r.nickname is None
                &&& r.glyphs_first == 0
                &&& r.glyphs_second == 0
                &&& r.glyphs_third == 0
                &&& r.ambigrams_first == 0
                &&& r.ambigrams_second == 0
                &&& r.ambigrams_third == 0
                &&& r.highest_ranking_glyphs == 0
                &&& r.highest_ranking_ambigrams == 0
            },
    {
        let glyphs_submissions = self.count_by_author_exec(user, Challenge::Glyph);
        let ambigrams_submissions = self.count_by_author_exec(user, Challenge::Ambigram);
        match self.find_user_idx(user) {
            Some(i) => {
                let row = self.users[i].clone();
                UserProfileData {
                    nickname: row.nickname,
                    glyphs_first: row.glyphs_first,
                    glyphs_second: row.glyphs_second,
                    glyphs_third: row.glyphs_third,
                    ambigrams_first: row.ambigrams_first,
                    ambigrams_second: row.ambigrams_second,
                    ambigrams_third: row.ambigrams_third,
                    highest_ranking_glyphs: row.highest_ranking_glyphs,
                    highest_ranking_ambigrams: row.highest_ranking_ambigrams,
                    glyphs_submissions,
                    ambigrams_submissions,
                }
            },
            None => UserProfileData {
                nickname: None,
                glyphs_first: 0,
                glyphs_second: 0,
                glyphs_third: 0,
                ambigrams_first: 0,
                ambigrams_second: 0,
                ambigrams_third: 0,
                highest_ranking_glyphs: 0,
                highest_ranking_ambigrams: 0,
                glyphs_submissions,
                ambigrams_submissions,
            },
        }
    }

    /// How many submissions a user made to one track.
    fn count_by_author_exec(&self, author: u64, challenge: Challenge) -> (r: i64)
        requires
            self.wf(),
        ensures
            r as int == count_by_author(self.submissions@, author, challenge),
    {
        let mut count: i64 = 0;
        let mut i: usize = 0;
        while i < self.submissions.len()
            invariant
                self.wf(),
                i <= self.submissions@.len(),
                count as int == count_by_author(
                    self.submissions@.take(i as int),
                    author,
                    challenge,
                ),
                0 <= count <= i,
            decreases self.submissions@.len() - i,
        {
            let s = &self.submissions[i];
            proof {
                assert(self.submissions@.take(i + 1).drop_last() =~= self.submissions@.take(
                    i as int,
                ));
                assert(self.submissions@.take(i + 1).last() == self.submissions@[i as int]);
            }
            if s.author == author && s.challenge == challenge {
                count += 1;
            }
            i += 1;
        }
        proof {
            assert(self.submissions@.take(self.submissions@.len() as int) =~= self.submissions@);
        }
        count
    }
}

/// Whether a profile reports exactly the cached row's fields.
pub open spec fn profile_matches_row(r: UserProfileData, row: UserRow) -> bool {
    &&& r.nickname == row.nickname
    &&& r.glyphs_first == row.glyphs_first
    &&& r.glyphs_second == row.glyphs_second
    &&& r.glyphs_third == row.glyphs_third
    &&& r.ambigrams_first == row.ambigrams_first
    &&& r.ambigrams_second == row.ambigrams_second
    &&& r.ambigrams_third == row.ambigrams_third
    &&& r.highest_ranking_glyphs == row.highest_ranking_glyphs
    &&& r.highest_ranking_ambigrams == row.highest_ranking_ambigrams
}

} // verus!
