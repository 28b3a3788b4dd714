//! The in-memory store: per-track period records and prompt queues, plus the
//! shared submission, user and vote tables.  The scheduler and the queue
//! tooling work against this handle; a persistence layer outside the library
//! mirrors it to durable storage.

use vstd::prelude::*;

use crate::types::{
    Challenge, GlyfiError, MsgId, PromptData, Submission, Timestamp, UserRow, WeekInfo,
    AMBI_INTERVAL, GLYPH_INTERVAL, MAX_PROMPT_ID, MAX_QUEUE_LEN, MAX_SUBMISSIONS, MAX_TIME,
    MAX_WEEKS,
};

verus! {

/// One queue entry: a stable id distinct from the entry's position.
///
/// Positions are always derived live from the current order and never
/// stored; the id is pinned at insertion.
#[derive(Debug, PartialEq)]
pub struct QueueEntry {
    pub id: i64,
    pub data: PromptData,
}

impl Clone for QueueEntry {
    fn clone(&self) -> (r: Self)
        ensures
            r == *self,
    {
        QueueEntry { id: self.id, data: self.data.clone() }
    }
}

/// One voter's bitmask for one (track, sequence).
#[derive(Copy, Clone, Debug, PartialEq, Eq, Structural)]
pub struct VoteRow {
    pub challenge: Challenge,
    pub week: i64,
    pub user: u64,
    pub votes: u64,
}

/// Everything one track keeps: its period records, indexed by sequence
/// number, the current-period pointer, and the pending prompt queue in
/// insertion order.
#[derive(Debug)]
pub struct TrackState {
    pub weeks: Vec<WeekInfo>,
    pub current_week: i64,
    pub prompts: Vec<QueueEntry>,
}

impl TrackState {
    /// Structural well-formedness of one track's tables: period records sit
    /// at the index of their sequence number with bounded times, and the
    /// queue holds valid entries of this track with strictly increasing ids.
    pub open spec fn wf(self, c: Challenge) -> bool {
        &&& self.weeks@.len() <= MAX_WEEKS as int
        &&& forall|i: int|
            0 <= i < self.weeks@.len() ==> {
                &&& (#[trigger] self.weeks@[i]).week == i
                &&& self.weeks@[i].challenge == c
                &&& self.weeks@[i].times_valid()
            }
        &&& self.prompts@.len() <= MAX_QUEUE_LEN as int
        &&& forall|i: int|
            0 <= i < self.prompts@.len() ==> {
                &&& (#[trigger] self.prompts@[i]).data.challenge == c
                &&& self.prompts@[i].data.valid()
                &&& 0 <= self.prompts@[i].id
            }
        &&& forall|i: int, j: int|
            0 <= i < j < self.prompts@.len() ==> (#[trigger] self.prompts@[i]).id < (
            #[trigger] self.prompts@[j]).id
    }

    /// Looks a period record up by sequence number.
    fn get_week(&self, week_num: i64) -> (r: Result<WeekInfo, GlyfiError>)
        ensures
            r == if 0 <= week_num < self.weeks@.len() {
                Ok::<WeekInfo, GlyfiError>(self.weeks@[week_num as int])
            } else {
                Err::<WeekInfo, GlyfiError>(GlyfiError::NotFound)
            },
    {
        if 0 <= week_num && (week_num as u64) < (self.weeks.len() as u64) {
            Ok(self.weeks[week_num as usize].clone())
        } else {
            Err(GlyfiError::NotFound)
        }
    }

    /// Points the track at the given sequence number when it references an
    /// existing record.
    fn set_current(&mut self, week_num: i64) -> (r: bool)
        ensures
            r == (0 <= week_num < old(self).weeks@.len()),
            r ==> *final(self) == (TrackState { current_week: week_num, ..*old(self) }),
            !r ==> *final(self) == *old(self),
    {
        if 0 <= week_num && (week_num as u64) < (self.weeks.len() as u64) {
            self.current_week = week_num;
            true
        } else {
            false
        }
    }

    /// Whether an upsert of the given record is accepted: it must not leave
    /// a gap, must not grow the table beyond its bound, and must carry
    /// bounded times.
    pub open spec fn upsert_ok(self, week_info: WeekInfo) -> bool {
        &&& 0 <= week_info.week <= self.weeks@.len()
        &&& (week_info.week < self.weeks@.len() || self.weeks@.len() < MAX_WEEKS as int)
        &&& week_info.times_valid()
    }

    /// Inserts a record at its sequence number or replaces the one there.
    fn upsert_week(&mut self, week_info: WeekInfo) -> (r: Result<(), GlyfiError>)
        ensures
            match r {
                Ok(()) => {
                    &&& old(self).upsert_ok(week_info)
                    &&& final(self).weeks@ == if week_info.week < old(self).weeks@.len() {
                        old(self).weeks@.update(week_info.week as int, week_info)
                    } else {
                        old(self).weeks@.push(week_info)
                    }
                    &&& final(self).current_week == old(self).current_week
                    &&& final(self).prompts == old(self).prompts
                },
                Err(e) => {
                    &&& e == GlyfiError::Validation
                    &&& *final(self) == *old(self)
                    &&& !old(self).upsert_ok(week_info)
                },
            },
    {
        if !times_within_bounds(&week_info) {
            return Err(GlyfiError::Validation);
        }
        if week_info.week < 0 || (week_info.week as u64) > (self.weeks.len() as u64) {
            return Err(GlyfiError::Validation);
        }
        let idx = week_info.week as usize;
        if idx < self.weeks.len() {
            self.weeks.set(idx, week_info);
            Ok(())
        } else if self.weeks.len() < MAX_WEEKS {
            self.weeks.push(week_info);
            Ok(())
        } else {
            Err(GlyfiError::Validation)
        }
    }
}

/// The whole store handle.
#[derive(Debug)]
pub struct Store {
    pub glyph: TrackState,
    pub ambigram: TrackState,
    /// Next stable id a queue insertion receives.
    pub next_prompt_id: i64,
    pub submissions: Vec<Submission>,
    pub users: Vec<UserRow>,
    pub votes: Vec<VoteRow>,
}

/// True when two submissions carry the same (message, track, sequence) key.
pub open spec fn same_sub_key(a: Submission, b: Submission) -> bool {
    a.message == b.message && a.challenge == b.challenge && a.week == b.week
}

/// The submission table is kept ordered by ascending message reference, as
/// the persisted rows are read back; within one period that order is what
/// numbers the voting slots.
pub open spec fn sorted_by_message(s: Seq<Submission>) -> bool {
    forall|i: int, j: int|
        0 <= i < j < s.len() ==> (#[trigger] s[i]).message <= (#[trigger] s[j]).message
}

/// The other of the two tracks.
pub open spec fn other_track(c: Challenge) -> Challenge {
    match c {
        Challenge::Glyph => Challenge::Ambigram,
        Challenge::Ambigram => Challenge::Glyph,
    }
}

impl Store {
    /// The state of the given track.
    pub open spec fn tr(self, c: Challenge) -> TrackState {
        match c {
            Challenge::Glyph => self.glyph,
            Challenge::Ambigram => self.ambigram,
        }
    }

    /// The period records of the track, indexed by sequence number.
    pub open spec fn weeks(self, c: Challenge) -> Seq<WeekInfo> {
        self.tr(c).weeks@
    }

    /// The current-period pointer of the track.
    pub open spec fn cur_idx(self, c: Challenge) -> int {
        self.tr(c).current_week as int
    }

    /// The record the current-period pointer references.
    pub open spec fn cur_week(self, c: Challenge) -> WeekInfo {
        self.weeks(c)[self.cur_idx(c)]
    }

    /// Whether a successor record already exists beyond the current one.
    pub open spec fn has_successor(self, c: Challenge) -> bool {
        self.cur_idx(c) + 1 < self.weeks(c).len()
    }

    /// The successor record.
    pub open spec fn successor(self, c: Challenge) -> WeekInfo {
        self.weeks(c)[self.cur_idx(c) + 1]
    }

    /// The track's queue entries, in order.
    pub open spec fn queue_entries(self, c: Challenge) -> Seq<QueueEntry> {
        self.tr(c).prompts@
    }

    /// The track's queued prompt data, in order: the plain ordered list the
    /// queue operations are specified against.
    pub open spec fn queue(self, c: Challenge) -> Seq<PromptData> {
        self.queue_entries(c).map_values(|e: QueueEntry| e.data)
    }

    /// The store with the given track's state replaced.
    pub open spec fn with_track(self, c: Challenge, ts: TrackState) -> Store {
        match c {
            Challenge::Glyph => Store { glyph: ts, ..self },
            Challenge::Ambigram => Store { ambigram: ts, ..self },
        }
    }

    /// Structural well-formedness of the whole store.
    pub open spec fn wf(self) -> bool {
        &&& self.glyph.wf(Challenge::Glyph)
        &&& self.ambigram.wf(Challenge::Ambigram)
        &&& 0 <= self.next_prompt_id <= MAX_PROMPT_ID
        &&& forall|i: int|
            0 <= i < self.glyph.prompts@.len() ==> (#[trigger] self.glyph.prompts@[i]).id
                < self.next_prompt_id
        &&& forall|i: int|
            0 <= i < self.ambigram.prompts@.len() ==> (#[trigger] self.ambigram.prompts@[i]).id
                < self.next_prompt_id
        &&& self.submissions@.len() <= MAX_SUBMISSIONS as int
        &&& forall|i: int, j: int|
            0 <= i < j < self.submissions@.len() ==> !same_sub_key(
                #[trigger] self.submissions@[i],
                #[trigger] self.submissions@[j],
            )
        &&& sorted_by_message(self.submissions@)
        &&& forall|i: int, j: int|
            0 <= i < j < self.users@.len() ==> (#[trigger] self.users@[i]).id != (
            #[trigger] self.users@[j]).id
        &&& forall|i: int, j: int|
            0 <= i < j < self.votes@.len() ==> !((#[trigger] self.votes@[i]).challenge
                == (#[trigger] self.votes@[j]).challenge && self.votes@[i].week
                == self.votes@[j].week && self.votes@[i].user == self.votes@[j].user)
    }

    /// The scheduler's per-track invariant, the store-level reading of the
    /// data-model rules: the pointer references an existing record, at most
    /// one record is ahead of it, every record behind it is closed, and an
    /// existing successor is the still-open continuation of a closed current
    /// period, scheduled to start exactly when the current period's target
    /// window ends.
    pub open spec fn sched_inv(self, c: Challenge) -> bool {
        &&& 1 <= self.weeks(c).len()
        &&& 0 <= self.cur_idx(c) < self.weeks(c).len()
        &&& self.weeks(c).len() <= self.cur_idx(c) + 2
        &&& forall|i: int|
            0 <= i < self.cur_idx(c) ==> (#[trigger] self.weeks(c)[i]).actual_end_time is Some
        &&& (self.has_successor(c) ==> {
            &&& self.cur_week(c).actual_end_time is Some
            &&& self.successor(c).actual_end_time is None
            &&& self.successor(c).target_start_time == self.cur_week(c).target_end_time
        })
    }

    /// A fresh store: for each track one open period with sequence number 0
    /// starting at `now`, empty queues and tables.
    pub fn new(now: i64) -> (r: Store)
        requires
            0 <= now,
            now + GLYPH_INTERVAL <= MAX_TIME,
            now + AMBI_INTERVAL <= MAX_TIME,
        ensures
            r.wf(),
            r.sched_inv(Challenge::Glyph),
            r.sched_inv(Challenge::Ambigram),
            forall|c: Challenge|
                {
                    &&& (#[trigger] r.weeks(c)).len() == 1
                    &&& r.cur_idx(c) == 0
                    &&& r.cur_week(c).target_start_time == Timestamp(now)
                    &&& r.cur_week(c).target_end_time.0 == now + c.spec_default_duration()
                    &&& r.cur_week(c).actual_end_time is None
                    &&& r.queue(c).len() == 0
                },
            r.submissions@.len() == 0,
            r.users@.len() == 0,
            r.votes@.len() == 0,
            r.next_prompt_id == 1,
    {
        let glyph_week0 = WeekInfo {
            challenge: Challenge::Glyph,
            week: 0,
            prompt: String::new(),
            size_percentage: 100,
            target_start_time: Timestamp(now),
            target_end_time: Timestamp(now + GLYPH_INTERVAL),
            actual_start_time: Timestamp(now),
            actual_end_time: None,
            is_special: false,
            num_subs: 0,
            poll_message_id: MsgId(None),
            second_poll_message_id: MsgId(None),
        };
        let ambi_week0 = WeekInfo {
            challenge: Challenge::Ambigram,
            week: 0,
            prompt: String::new(),
            size_percentage: 100,
            target_start_time: Timestamp(now),
            target_end_time: Timestamp(now + AMBI_INTERVAL),
            actual_start_time: Timestamp(now),
            actual_end_time: None,
            is_special: false,
            num_subs: 0,
            poll_message_id: MsgId(None),
            second_poll_message_id: MsgId(None),
        };
        let mut glyph_weeks: Vec<WeekInfo> = Vec::new();
        glyph_weeks.push(glyph_week0);
        let mut ambi_weeks: Vec<WeekInfo> = Vec::new();
        ambi_weeks.push(ambi_week0);
        let r = Store {
            glyph: TrackState { weeks: glyph_weeks, current_week: 0, prompts: Vec::new() },
            ambigram: TrackState { weeks: ambi_weeks, current_week: 0, prompts: Vec::new() },
            next_prompt_id: 1,
            submissions: Vec::new(),
            users: Vec::new(),
            votes: Vec::new(),
        };
        assert forall|c: Challenge| (#[trigger] r.weeks(c)).len() == 1 by {
            match c {
                Challenge::Glyph => {},
                Challenge::Ambigram => {},
            }
        }
        assert forall|c: Challenge| (#[trigger] r.queue(c)).len() == 0 by {
            match c {
                Challenge::Glyph => {},
                Challenge::Ambigram => {},
            }
        }
        r
    }

    /// Stats for a period, by sequence number; NotFound when no such record
    /// exists.
    pub fn get_week_info(&self, week_num: i64, challenge: Challenge) -> (r: Result<
        WeekInfo,
        GlyfiError,
    >)
        ensures
            r == if 0 <= week_num < self.weeks(challenge).len() {
                Ok::<WeekInfo, GlyfiError>(self.weeks(challenge)[week_num as int])
            } else {
                Err::<WeekInfo, GlyfiError>(GlyfiError::NotFound)
            },
    {
        match challenge {
            Challenge::Glyph => self.glyph.get_week(week_num),
            Challenge::Ambigram => self.ambigram.get_week(week_num),
        }
    }

    /// The current sequence number of the track.
    pub fn get_current_week(&self, challenge: Challenge) -> (r: i64)
        ensures
            r as int == self.cur_idx(challenge),
    {
        match challenge {
            Challenge::Glyph => self.glyph.current_week,
            Challenge::Ambigram => self.ambigram.current_week,
        }
    }

    /// Points the track at the given sequence number.  Returns whether the
    /// number references an existing record; nothing changes when it does
    /// not.
    pub fn set_current_week(&mut self, challenge: Challenge, week_num: i64) -> (r: bool)
        ensures
            r == (0 <= week_num < old(self).weeks(challenge).len()),
            r ==> *final(self) == old(self).with_track(
                challenge,
                (TrackState { current_week: week_num, ..old(self).tr(challenge) }),
            ),
            !r ==> *final(self) == *old(self),
    {
        match challenge {
            Challenge::Glyph => self.glyph.set_current(week_num),
            Challenge::Ambigram => self.ambigram.set_current(week_num),
        }
    }

    /// Inserts a period record at its sequence number, or replaces the one
    /// already there.  Rejected when the sequence number would leave a gap
    /// (a track's records stay contiguous from 0), when the table is full,
    /// or when one of the record's times lies outside the store's bounds.
    pub fn insert_or_modify_week(&mut self, week_info: WeekInfo) -> (r: Result<(), GlyfiError>)
        requires
            old(self).wf(),
        ensures
            final(self).wf(),
            match r {
                Ok(()) => {
                    &&& old(self).tr(week_info.challenge).upsert_ok(week_info)
                    &&& final(self).weeks(week_info.challenge) == if week_info.week < old(
                        self,
                    ).weeks(week_info.challenge).len() {
                        old(self).weeks(week_info.challenge).update(
                            week_info.week as int,
                            week_info,
                        )
                    } else {
                        old(self).weeks(week_info.challenge).push(week_info)
                    }
                    &&& final(self).tr(week_info.challenge).current_week == old(self).tr(
                        week_info.challenge,
                    ).current_week
                    &&& final(self).tr(week_info.challenge).prompts == old(self).tr(
                        week_info.challenge,
                    ).prompts
                    &&& final(self).tr(other_track(week_info.challenge)) == old(self).tr(
                        other_track(week_info.challenge),
                    )
                    &&& final(self).next_prompt_id == old(self).next_prompt_id
                    &&& final(self).submissions == old(self).submissions
                    &&& final(self).users == old(self).users
                    &&& final(self).votes == old(self).votes
                },
                Err(e) => {
                    &&& e == GlyfiError::Validation
                    &&& *final(self) == *old(self)
                    &&& !old(self).tr(week_info.challenge).upsert_ok(week_info)
                },
            },
    {
        let challenge = week_info.challenge;
        match challenge {
            Challenge::Glyph => self.glyph.upsert_week(week_info),
            Challenge::Ambigram => self.ambigram.upsert_week(week_info),
        }
    }
}

/// Runtime check that a record's times lie within the store's bounds.
fn times_within_bounds(w: &WeekInfo) -> (b: bool)
    ensures
        b == w.times_valid(),
{
    let start_ok = 0 <= w.target_start_time.0 && w.target_start_time.0 <= MAX_TIME;
    let end_ok = 0 <= w.target_end_time.0 && w.target_end_time.0 <= MAX_TIME;
    let actual_ok = 0 <= w.actual_start_time.0 && w.actual_start_time.0 <= MAX_TIME;
    let close_ok = match w.actual_end_time {
        Some(t) => 0 <= t.0 && t.0 <= MAX_TIME,
        None => true,
    };
    start_ok && end_ok && actual_ok && close_ok
}

} // verus!
