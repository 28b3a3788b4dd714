//! The period state machine and the rollover orchestrator.
//!
//! Each tick for a track is decided by `tick_decide`, a pure function of the
//! store and the clock: it reports whether the track's period is still open,
//! must close, can initialise its successor from the queue, or is ready to
//! hand over.  The mutating steps (`end_week`, `initialise_week`,
//! `rollover_week`) commit exactly the transition the decision announced;
//! the collaborator calls in between (render, post, audience membership)
//! happen outside the library, which only sees the message references they
//! produced.

use vstd::prelude::*;

use crate::store::{other_track, Store, TrackState};
use crate::submissions::count_subs;
use crate::types::{
    Challenge, GlyfiError, MsgId, Timestamp, WeekInfo, MAX_DISPLAY_SLOTS, MAX_TIME, MAX_WEEKS,
    PANEL_CAPACITY,
};

verus! {

/// Where a track's lifecycle stands at a given instant.
#[derive(Copy, Clone, Debug, PartialEq, Eq, Structural)]
pub enum PeriodState {
    /// The current period's actual end is unset.
    Open,
    /// The current period is closed; no successor is due to start yet.
    Closing,
    /// A successor record exists and its target start has arrived.
    PendingHandoff,
}

/// Everything the collaborators need to perform one rollover: the render
/// parameters of the successor's announcement and the closing period's
/// voting panel, and the panel split for the closing period's submissions.
#[derive(Debug, PartialEq)]
pub struct RolloverPlan {
    pub challenge: Challenge,
    /// Sequence number of the period being closed.
    pub closing_week: i64,
    /// Sequence number of the period being handed over to.
    pub next_week: i64,
    pub announcement_prompt: String,
    pub announcement_size: u16,
    pub announcement_start: Timestamp,
    pub announcement_end: Timestamp,
    pub poll_prompt: String,
    pub poll_size: u16,
    pub poll_start: Timestamp,
    pub poll_end: Timestamp,
    /// Submission-count snapshot of the closing period.
    pub num_subs: i64,
    /// Interactive slots on the primary voting panel.
    pub first_slots: i64,
    /// Interactive slots on the overflow panel; zero when none is posted.
    pub second_slots: i64,
}

impl Clone for RolloverPlan {
    fn clone(&self) -> (r: Self)
        ensures
            r == *self,
    {
        RolloverPlan {
            challenge: self.challenge,
            closing_week: self.closing_week,
            next_week: self.next_week,
            announcement_prompt: self.announcement_prompt.clone(),
            announcement_size: self.announcement_size,
            announcement_start: self.announcement_start,
            announcement_end: self.announcement_end,
            poll_prompt: self.poll_prompt.clone(),
            poll_size: self.poll_size,
            poll_start: self.poll_start,
            poll_end: self.poll_end,
            num_subs: self.num_subs,
            first_slots: self.first_slots,
            second_slots: self.second_slots,
        }
    }
}

impl RolloverPlan {
    /// How many voting panels the orchestrator posts for this plan.
    pub fn panel_count(&self) -> (r: i64)
        ensures
            r == (if self.first_slots > 0 {
                1int
            } else {
                0int
            }) + (if self.second_slots > 0 {
                1int
            } else {
                0int
            }),
    {
        let mut r: i64 = 0;
        if self.first_slots > 0 {
            r += 1;
        }
        if self.second_slots > 0 {
            r += 1;
        }
        r
    }
}

/// What one tick asks of the caller.
#[derive(Debug, PartialEq)]
pub enum TickDue {
    /// Nothing is due; the tick is a no-op.
    NoAction,
    /// The open period's target end has arrived: close it, then sweep its
    /// submissions against the audience.
    CloseWeek,
    /// The period is closed and a prompt is queued: persist this successor
    /// record.  The announcement stays deferred until the successor's own
    /// start time arrives.
    InitialiseWeek(WeekInfo),
    /// The successor's start has arrived: render and post per the plan,
    /// then commit with `rollover_week`.
    Rollover(RolloverPlan),
}

/// Slots of the primary voting panel for a closing period with `n`
/// submissions.
pub open spec fn spec_first_slots(n: int) -> int {
    if n > PANEL_CAPACITY as int {
        PANEL_CAPACITY as int
    } else {
        n
    }
}

/// Slots of the overflow panel: the remainder beyond one panel's capacity,
/// capped by the display ceiling under the vote bitmask.
pub open spec fn spec_second_slots(n: int) -> int {
    if n > PANEL_CAPACITY as int {
        (if n > MAX_DISPLAY_SLOTS as int {
            MAX_DISPLAY_SLOTS as int
        } else {
            n
        }) - PANEL_CAPACITY as int
    } else {
        0
    }
}

/// Splits a closing period's submission count into panel slots: one panel
/// up to its capacity, an overflow panel exactly when the count exceeds it,
/// no panel at all for an empty period, and at most the display ceiling
/// over both panels together.
pub fn poll_panel_split(num_subs: i64) -> (r: (i64, i64))
    requires
        num_subs >= 0,
    ensures
        r.0 == spec_first_slots(num_subs as int),
        r.1 == spec_second_slots(num_subs as int),
        (r.0 > 0 <==> num_subs > 0),
        (r.1 > 0 <==> num_subs > PANEL_CAPACITY),
        r.0 + r.1 <= MAX_DISPLAY_SLOTS,
{
    if num_subs > PANEL_CAPACITY {
        let shown = if num_subs > MAX_DISPLAY_SLOTS {
            MAX_DISPLAY_SLOTS
        } else {
            num_subs
        };
        (PANEL_CAPACITY, shown - PANEL_CAPACITY)
    } else {
        (num_subs, 0)
    }
}

/// A period record closed at `now`.
pub open spec fn close_record(w: WeekInfo, now: i64) -> WeekInfo {
    WeekInfo { actual_end_time: Some(Timestamp(now)), ..w }
}

/// A period record closed by the rollover commit: actual end, submission
/// snapshot and voting-message references set at once.
pub open spec fn rolled_record(
    w: WeekInfo,
    now: i64,
    num_subs: i64,
    pm: Option<u64>,
    spm: Option<u64>,
) -> WeekInfo {
    WeekInfo {
        actual_end_time: Some(Timestamp(now)),
        num_subs,
        poll_message_id: MsgId(pm),
        second_poll_message_id: MsgId(spm),
        ..w
    }
}

impl TrackState {
    /// The successor record the scheduler initialises from the queue head:
    /// it starts when the current period's target window ends and spans the
    /// head entry's own duration.
    pub open spec fn next_record(self, c: Challenge) -> WeekInfo {
        let cur = self.weeks@[self.current_week as int];
        let p = self.prompts@[0].data;
        WeekInfo {
            challenge: c,
            week: (cur.week + 1) as i64,
            prompt: p.prompt,
            size_percentage: p.spec_size(),
            target_start_time: cur.target_end_time,
            target_end_time: Timestamp((cur.target_end_time.0 + p.spec_span(c)) as i64),
            actual_start_time: cur.target_end_time,
            actual_end_time: None,
            is_special: p.spec_special(),
            num_subs: 0,
            poll_message_id: MsgId(None),
            second_poll_message_id: MsgId(None),
        }
    }

    /// Closes the current period at `now`.
    fn t_close(&mut self, now: i64)
        requires
            0 <= old(self).current_week < old(self).weeks@.len(),
        ensures
            final(self).weeks@ == old(self).weeks@.update(
                old(self).current_week as int,
                close_record(old(self).weeks@[old(self).current_week as int], now),
            ),
            final(self).current_week == old(self).current_week,
            final(self).prompts == old(self).prompts,
    {
        let track_len = self.weeks.len();
        assert((self.current_week as int) < (track_len as int));
        let i = self.current_week as usize;
        let mut w = self.weeks[i].clone();
        w.actual_end_time = Some(Timestamp(now));
        self.weeks.set(i, w);
    }

    /// Appends a period record.
    fn t_push_week(&mut self, w: WeekInfo)
        ensures
            final(self).weeks@ == old(self).weeks@.push(w),
            final(self).current_week == old(self).current_week,
            final(self).prompts == old(self).prompts,
    {
        self.weeks.push(w);
    }

    /// The rollover commit on one track's tables: close the current record
    /// with its snapshot and message references, advance the pointer, and
    /// consume the queue head.
    fn t_rollover(&mut self, now: i64, num_subs: i64, pm: Option<u64>, spm: Option<u64>)
        requires
            0 <= old(self).current_week,
            old(self).current_week + 1 < old(self).weeks@.len(),
            old(self).weeks@.len() <= MAX_WEEKS,
        ensures
            final(self).weeks@ == old(self).weeks@.update(
                old(self).current_week as int,
                rolled_record(
                    old(self).weeks@[old(self).current_week as int],
                    now,
                    num_subs,
                    pm,
                    spm,
                ),
            ),
            final(self).current_week == old(self).current_week + 1,
            final(self).prompts@ == if old(self).prompts@.len() > 0 {
                old(self).prompts@.drop_first()
            } else {
                old(self).prompts@
            },
    {
        let track_len = self.weeks.len();
        assert((self.current_week as int) < (track_len as int));
        let i = self.current_week as usize;
        let mut w = self.weeks[i].clone();
        w.actual_end_time = Some(Timestamp(now));
        w.num_subs = num_subs;
        w.poll_message_id = MsgId(pm);
        w.second_poll_message_id = MsgId(spm);
        self.weeks.set(i, w);
        self.current_week = self.current_week + 1;
        if self.prompts.len() > 0 {
            self.prompts.remove(0);
            proof {
                assert(self.prompts@ =~= old(self).prompts@.drop_first());
            }
        }
    }
}

impl Store {
    /// Where the track's lifecycle stands at `now`.
    pub open spec fn period_state(self, c: Challenge, now: i64) -> PeriodState {
        if self.cur_week(c).actual_end_time is None {
            PeriodState::Open
        } else if self.has_successor(c) && now >= self.successor(c).target_start_time.0 {
            PeriodState::PendingHandoff
        } else {
            PeriodState::Closing
        }
    }

    /// The successor record the scheduler would initialise now.
    pub open spec fn next_week_record(self, c: Challenge) -> WeekInfo {
        self.tr(c).next_record(c)
    }

    /// The plan of the rollover that is due: render parameters for the
    /// successor's announcement and the closing period's voting panel, and
    /// the panel split of the closing period's submission count.
    pub open spec fn spec_rollover_plan(self, c: Challenge) -> RolloverPlan {
        let cur = self.cur_week(c);
        let succ = self.successor(c);
        let n = count_subs(self.submissions@, c, cur.week);
        RolloverPlan {
            challenge: c,
            closing_week: cur.week,
            next_week: succ.week,
            announcement_prompt: succ.prompt,
            announcement_size: succ.size_percentage,
            announcement_start: succ.target_start_time,
            announcement_end: succ.target_end_time,
            poll_prompt: cur.prompt,
            poll_size: cur.size_percentage,
            poll_start: cur.target_start_time,
            poll_end: cur.target_end_time,
            num_subs: n as i64,
            first_slots: spec_first_slots(n) as i64,
            second_slots: spec_second_slots(n) as i64,
        }
    }

    /// What a tick at `now` decides, as a pure function of the store: close
    /// an overdue open period; in a closed period, initialise the successor
    /// from the queue head once, and otherwise wait; hand over once the
    /// successor's start has arrived.  Ticks before the next qualifying
    /// instant decide NoAction and are no-ops.
    pub open spec fn spec_tick_decide(self, c: Challenge, now: i64) -> TickDue {
        match self.period_state(c, now) {
            PeriodState::Open => if now >= self.cur_week(c).target_end_time.0 {
                TickDue::CloseWeek
            } else {
                TickDue::NoAction
            },
            PeriodState::Closing => if !self.has_successor(c) && self.queue(c).len() > 0 {
                TickDue::InitialiseWeek(self.next_week_record(c))
            } else {
                TickDue::NoAction
            },
            PeriodState::PendingHandoff => TickDue::Rollover(self.spec_rollover_plan(c)),
        }
    }

    /// Room to schedule the queue head's window without leaving the store's
    /// time bounds.
    pub open spec fn init_headroom(self, c: Challenge) -> bool {
        self.queue(c).len() > 0 ==> self.cur_week(c).target_end_time.0 + self.queue(
            c,
        )[0].spec_span(c) <= MAX_TIME
    }

    /// Decides what this tick must do for the track, without mutating
    /// anything.
    pub fn tick_decide(&self, challenge: Challenge, now: i64) -> (r: TickDue)
        requires
            self.wf(),
            self.sched_inv(challenge),
            0 <= now <= MAX_TIME,
            self.init_headroom(challenge),
        ensures
            r == self.spec_tick_decide(challenge, now),
    {
        let ts: &TrackState = match challenge {
            Challenge::Glyph => &self.glyph,
            Challenge::Ambigram => &self.ambigram,
        };
        proof {
            assert(*ts == self.tr(challenge)) by {
                match challenge {
                    Challenge::Glyph => {},
                    Challenge::Ambigram => {},
                }
            }
        }
        let cur_i = ts.current_week as usize;
        let closed = ts.weeks[cur_i].actual_end_time.is_some();
        if !closed {
            if now >= ts.weeks[cur_i].target_end_time.0 {
                TickDue::CloseWeek
            } else {
                TickDue::NoAction
            }
        } else if cur_i + 1 < ts.weeks.len() {
            if now >= ts.weeks[cur_i + 1].target_start_time.0 {
                let num_subs = self.count_submissions(challenge, ts.weeks[cur_i].week);
                let (first_slots, second_slots) = poll_panel_split(num_subs);
                let cur = &ts.weeks[cur_i];
                let succ = &ts.weeks[cur_i + 1];
                TickDue::Rollover(
                    RolloverPlan {
                        challenge,
                        closing_week: cur.week,
                        next_week: succ.week,
                        announcement_prompt: succ.prompt.clone(),
                        announcement_size: succ.size_percentage,
                        announcement_start: succ.target_start_time,
                        announcement_end: succ.target_end_time,
                        poll_prompt: cur.prompt.clone(),
                        poll_size: cur.size_percentage,
                        poll_start: cur.target_start_time,
                        poll_end: cur.target_end_time,
                        num_subs,
                        first_slots,
                        second_slots,
                    },
                )
            } else {
                TickDue::NoAction
            }
        } else if ts.prompts.len() > 0 {
            let cur = &ts.weeks[cur_i];
            let p = &ts.prompts[0].data;
            let d: i64 = challenge.default_duration();
            proof {
                assert(d == 604800) by {
                    match challenge {
                        Challenge::Glyph => {},
                        Challenge::Ambigram => {},
                    }
                }
            }
            let w16: u16 = p.duration_weeks();
            let span: i64 = d * (w16 as i64);
            proof {
                assert(self.queue(challenge)[0] == *p);
                assert(span as int == p.spec_span(challenge));
            }
            TickDue::InitialiseWeek(
                WeekInfo {
                    challenge,
                    week: cur.week + 1,
                    prompt: p.prompt.clone(),
                    size_percentage: p.size(),
                    target_start_time: cur.target_end_time,
                    target_end_time: Timestamp(cur.target_end_time.0 + span),
                    actual_start_time: cur.target_end_time,
                    actual_end_time: None,
                    is_special: p.special(),
                    num_subs: 0,
                    poll_message_id: MsgId(None),
                    second_poll_message_id: MsgId(None),
                },
            )
        } else {
            TickDue::NoAction
        }
    }

    /// Closes the overdue open period at `now`: its actual end is set and
    /// nothing else changes.  The caller then sweeps the period's
    /// submissions against the audience.
    pub fn end_week(&mut self, challenge: Challenge, now: i64)
        requires
            old(self).wf(),
            old(self).sched_inv(challenge),
            0 <= now <= MAX_TIME,
            old(self).spec_tick_decide(challenge, now) == TickDue::CloseWeek,
        ensures
            final(self).wf(),
            final(self).sched_inv(challenge),
            final(self).weeks(challenge) == old(self).weeks(challenge).update(
                old(self).cur_idx(challenge),
                close_record(old(self).cur_week(challenge), now),
            ),
            final(self).cur_idx(challenge) == old(self).cur_idx(challenge),
            final(self).tr(challenge).prompts == old(self).tr(challenge).prompts,
            final(self).tr(other_track(challenge)) == old(self).tr(other_track(challenge)),
            final(self).next_prompt_id == old(self).next_prompt_id,
            final(self).submissions == old(self).submissions,
            final(self).users == old(self).users,
            final(self).votes == old(self).votes,
            final(self).period_state(challenge, now) != PeriodState::Open,
    {
        match challenge {
            Challenge::Glyph => self.glyph.t_close(now),
            Challenge::Ambigram => self.ambigram.t_close(now),
        }
    }

    /// Initialises the successor period from the queue head: a new record
    /// whose window starts at the closed period's target end.  The queue
    /// entry stays where it is; the rollover commit consumes it.
    pub fn initialise_week(&mut self, challenge: Challenge)
        requires
            old(self).wf(),
            old(self).sched_inv(challenge),
            old(self).cur_week(challenge).actual_end_time is Some,
            !old(self).has_successor(challenge),
            old(self).queue(challenge).len() > 0,
            old(self).init_headroom(challenge),
            old(self).weeks(challenge).len() < MAX_WEEKS,
        ensures
            final(self).wf(),
            final(self).sched_inv(challenge),
            final(self).weeks(challenge) == old(self).weeks(challenge).push(
                old(self).next_week_record(challenge),
            ),
            final(self).has_successor(challenge),
            final(self).successor(challenge) == old(self).next_week_record(challenge),
            final(self).cur_idx(challenge) == old(self).cur_idx(challenge),
            final(self).cur_week(challenge) == old(self).cur_week(challenge),
            final(self).tr(challenge).prompts == old(self).tr(challenge).prompts,
            final(self).tr(other_track(challenge)) == old(self).tr(other_track(challenge)),
            final(self).next_prompt_id == old(self).next_prompt_id,
            final(self).submissions == old(self).submissions,
            final(self).users == old(self).users,
            final(self).votes == old(self).votes,
    {
        let ts: &TrackState = match challenge {
            Challenge::Glyph => &self.glyph,
            Challenge::Ambigram => &self.ambigram,
        };
        proof {
            assert(*ts == self.tr(challenge)) by {
                match challenge {
                    Challenge::Glyph => {},
                    Challenge::Ambigram => {},
                }
            }
        }
        let cur_i = ts.current_week as usize;
        let cur = &ts.weeks[cur_i];
        let p = &ts.prompts[0].data;
        let d: i64 = challenge.default_duration();
        proof {
            assert(d == 604800) by {
                match challenge {
                    Challenge::Glyph => {},
                    Challenge::Ambigram => {},
                }
            }
            assert(self.queue(challenge)[0] == self.tr(challenge).prompts@[0].data);
        }
        let w16: u16 = p.duration_weeks();
        let span: i64 = d * (w16 as i64);
        proof {
            assert(span as int == p.spec_span(challenge));
        }
        let record = WeekInfo {
            challenge,
            week: cur.week + 1,
            prompt: p.prompt.clone(),
            size_percentage: p.size(),
            target_start_time: cur.target_end_time,
            target_end_time: Timestamp(cur.target_end_time.0 + span),
            actual_start_time: cur.target_end_time,
            actual_end_time: None,
            is_special: p.special(),
            num_subs: 0,
            poll_message_id: MsgId(None),
            second_poll_message_id: MsgId(None),
        };
        proof {
            assert(record == old(self).next_week_record(challenge));
        }
        match challenge {
            Challenge::Glyph => self.glyph.t_push_week(record),
            Challenge::Ambigram => self.ambigram.t_push_week(record),
        }
    }

    /// The rollover commit, run once the successor's start has arrived and
    /// the announcement and voting panels were posted: closes the old
    /// record with its submission snapshot and the voting-message
    /// references, advances the pointer, and consumes the queue head.
    ///
    /// Afterwards the handoff is no longer pending at the same instant: an
    /// immediate second tick performs no further rollover, and is a
    /// complete no-op while the new period's target end lies ahead.
    pub fn rollover_week(
        &mut self,
        challenge: Challenge,
        now: i64,
        poll_message_id: Option<u64>,
        second_poll_message_id: Option<u64>,
    )
        requires
            old(self).wf(),
            old(self).sched_inv(challenge),
            0 <= now <= MAX_TIME,
            old(self).period_state(challenge, now) == PeriodState::PendingHandoff,
        ensures
            final(self).wf(),
            final(self).sched_inv(challenge),
            final(self).weeks(challenge) == old(self).weeks(challenge).update(
                old(self).cur_idx(challenge),
                rolled_record(
                    old(self).cur_week(challenge),
                    now,
                    count_subs(
                        old(self).submissions@,
                        challenge,
                        old(self).cur_week(challenge).week,
                    ) as i64,
                    poll_message_id,
                    second_poll_message_id,
                ),
            ),
            final(self).cur_idx(challenge) == old(self).cur_idx(challenge) + 1,
            final(self).cur_week(challenge) == old(self).successor(challenge),
            final(self).queue_entries(challenge) == if old(self).queue_entries(challenge).len()
                > 0 {
                old(self).queue_entries(challenge).drop_first()
            } else {
                old(self).queue_entries(challenge)
            },
            final(self).tr(other_track(challenge)) == old(self).tr(other_track(challenge)),
            final(self).next_prompt_id == old(self).next_prompt_id,
            final(self).submissions == old(self).submissions,
            final(self).users == old(self).users,
            final(self).votes == old(self).votes,
            final(self).period_state(challenge, now) != PeriodState::PendingHandoff,
            now < final(self).cur_week(challenge).target_end_time.0
                ==> final(self).spec_tick_decide(challenge, now) == TickDue::NoAction,
    {
        let ts_ro: &TrackState = match challenge {
            Challenge::Glyph => &self.glyph,
            Challenge::Ambigram => &self.ambigram,
        };
        proof {
            assert(*ts_ro == self.tr(challenge)) by {
                match challenge {
                    Challenge::Glyph => {},
                    Challenge::Ambigram => {},
                }
            }
        }
        let closing_week = ts_ro.weeks[ts_ro.current_week as usize].week;
        let num_subs = self.count_submissions(challenge, closing_week);
        let ghost pre = *self;
        match challenge {
            Challenge::Glyph => self.glyph.t_rollover(
                now,
                num_subs,
                poll_message_id,
                second_poll_message_id,
            ),
            Challenge::Ambigram => self.ambigram.t_rollover(
                now,
                num_subs,
                poll_message_id,
                second_poll_message_id,
            ),
        }
        proof {
            let c = challenge;
            assert(self.queue_entries(c) == if pre.queue_entries(c).len() > 0 {
                pre.queue_entries(c).drop_first()
            } else {
                pre.queue_entries(c)
            });
            if pre.queue_entries(c).len() > 0 {
                assert forall|i: int, j: int|
                    0 <= i < j < self.tr(c).prompts@.len() implies (#[trigger] self.tr(
                    c,
                ).prompts@[i]).id < (#[trigger] self.tr(c).prompts@[j]).id by {
                    assert(self.tr(c).prompts@[i] == pre.tr(c).prompts@[i + 1]);
                    assert(self.tr(c).prompts@[j] == pre.tr(c).prompts@[j + 1]);
                }
                assert forall|i: int|
                    0 <= i < self.tr(c).prompts@.len() implies {
                    &&& (#[trigger] self.tr(c).prompts@[i]).data.challenge == c
                    &&& self.tr(c).prompts@[i].data.valid()
                    &&& 0 <= self.tr(c).prompts@[i].id
                    &&& self.tr(c).prompts@[i].id < self.next_prompt_id
                } by {
                    assert(self.tr(c).prompts@[i] == pre.tr(c).prompts@[i + 1]);
                }
            }
        }
    }
}

/// The forecast engine and the scheduler agree: for a track with a queued
/// prompt and no successor yet, the window and sequence number forecast at
/// position 1 are exactly those of the record the scheduler initialises
/// from the queue head, so previews never show numbers that diverge from
/// what is later persisted.
pub proof fn lemma_forecast_matches_initialised_record(s: Store, c: Challenge)
    requires
        s.wf(),
        s.sched_inv(c),
        s.queue(c).len() > 0,
    ensures
        ({
            let r = s.next_week_record(c);
            s.spec_forecast(c, 1) == Ok::<(i64, Timestamp, Timestamp), GlyfiError>(
                (r.week, r.target_start_time, r.target_end_time),
            )
        }),
{
    let q = s.queue(c);
    assert(crate::forecast::cum_span(c, q, 0) == 0);
    assert(q[0] == s.tr(c).prompts@[0].data);
    assert(s.cur_week(c).week == s.cur_idx(c));
    assert(s.cur_week(c).target_end_time.valid());
}

} // verus!
