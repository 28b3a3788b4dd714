//! The forecast engine: computes, without side effects, the absolute window
//! and resulting sequence number any queued entry will receive once
//! activated.  The scheduler initialises successor periods from the same
//! arithmetic, so previews never diverge from what is later persisted.

use vstd::prelude::*;

use crate::store::{Store, TrackState};
use crate::types::{Challenge, GlyfiError, PromptData, Timestamp, MAX_TIME, MAX_WEEK_SPAN};

verus! {

/// Cumulative span, in seconds, of the first `k` queued entries of a track.
pub open spec fn cum_span(c: Challenge, q: Seq<PromptData>, k: int) -> int
    decreases k,
{
    if k <= 0 {
        0
    } else {
        cum_span(c, q, k - 1) + q[k - 1].spec_span(c)
    }
}

/// Every valid entry spans at least one default period and less than
/// `MAX_WEEK_SPAN`, so the cumulative span grows linearly bounded.
pub proof fn lemma_cum_span_bounds(c: Challenge, q: Seq<PromptData>, k: int)
    requires
        0 <= k <= q.len(),
        forall|i: int| 0 <= i < q.len() ==> (#[trigger] q[i]).valid(),
    ensures
        0 <= cum_span(c, q, k) <= k * MAX_WEEK_SPAN,
    decreases k,
{
    if k > 0 {
        lemma_cum_span_bounds(c, q, k - 1);
        let e = q[k - 1];
        assert(1 <= e.spec_duration_weeks() <= 0xffff);
        assert(c.spec_default_duration() == 604800) by {
            match c {
                Challenge::Glyph => {},
                Challenge::Ambigram => {},
            }
        }
        assert(e.spec_span(c) <= 604800 * 0xffff);
        assert((k - 1) * MAX_WEEK_SPAN + MAX_WEEK_SPAN == k * MAX_WEEK_SPAN) by (nonlinear_arith);
        assert(0 <= e.spec_span(c)) by (nonlinear_arith)
            requires
                e.spec_span(c) == c.spec_default_duration() as int * e.spec_duration_weeks()
                    && c.spec_default_duration() == 604800 && e.spec_duration_weeks() >= 1,
        ;
    }
}

/// How a 1-based queue position is resolved: a negative position counts
/// from the queue's end.
pub open spec fn resolved_position(position: i64, len: int) -> int {
    if position < 0 {
        position + len + 1
    } else {
        position as int
    }
}

impl Store {
    /// What `forecast_prompt_details` returns: the resulting sequence
    /// number, target start and target end of the entry at the resolved
    /// position, or NotFound when the position resolves outside the queue.
    ///
    /// The start is the active period's target end plus the cumulative span
    /// of every entry strictly before the requested one; the end adds the
    /// entry's own span; the sequence number is the active one plus the
    /// resolved position.
    pub open spec fn spec_forecast(self, c: Challenge, position: i64) -> Result<
        (i64, Timestamp, Timestamp),
        GlyfiError,
    > {
        let q = self.queue(c);
        let len = q.len() as int;
        let p = resolved_position(position, len);
        if p < 1 || p > len {
            Err(GlyfiError::NotFound)
        } else {
            let start = self.cur_week(c).target_end_time.0 + cum_span(c, q, p - 1);
            let end = start + q[p - 1].spec_span(c);
            Ok(((self.cur_idx(c) + p) as i64, Timestamp(start as i64), Timestamp(end as i64)))
        }
    }

    /// Forecasts when the prompt at the given queue position will run and
    /// which sequence number it will receive, without mutating anything.
    /// A negative position counts from the queue's end.
    pub fn forecast_prompt_details(&self, challenge: Challenge, position: i64) -> (r: Result<
        (i64, Timestamp, Timestamp),
        GlyfiError,
    >)
        requires
            self.wf(),
            self.sched_inv(challenge),
        ensures
            r == self.spec_forecast(challenge, position),
    {
        let ts: &TrackState = match challenge {
            Challenge::Glyph => &self.glyph,
            Challenge::Ambigram => &self.ambigram,
        };
        proof {
            assert(*ts == self.tr(challenge)) by {
                match challenge {
                    Challenge::Glyph => {},
                    Challenge::Ambigram => {},
                }
            }
        }
        let ghost q = self.queue(challenge);
        let q_len = ts.prompts.len();
        let len_i = q_len as i64;
        let resolved: i64 = if position < 0 {
            position + len_i + 1
        } else {
            position
        };
        if resolved < 1 || resolved > len_i {
            return Err(GlyfiError::NotFound);
        }
        let p = resolved as usize;
        let base: i64 = ts.weeks[ts.current_week as usize].target_end_time.0;
        let d: i64 = challenge.default_duration();
        proof {
            assert(d == 604800) by {
                match challenge {
                    Challenge::Glyph => {},
                    Challenge::Ambigram => {},
                }
            }
        }
        let mut start: i64 = base;
        let mut i: usize = 0;
        while i < p - 1
            invariant
                i <= p - 1,
                1 <= p <= q.len(),
                q == self.queue(challenge),
                *ts == self.tr(challenge),
                self.wf(),
                self.sched_inv(challenge),
                d == 604800,
                base == self.cur_week(challenge).target_end_time.0,
                0 <= base <= MAX_TIME,
                start as int == base + cum_span(challenge, q, i as int),
            decreases p - 1 - i,
        {
            let w: u16 = ts.prompts[i].data.duration_weeks();
            let span: i64 = d * (w as i64);
            proof {
                lemma_cum_span_bounds(challenge, q, i as int);
                lemma_cum_span_bounds(challenge, q, i + 1 as int);
                assert(q[i as int].spec_span(challenge) == span as int);
            }
            start = start + span;
            i += 1;
        }
        let w_last: u16 = ts.prompts[p - 1].data.duration_weeks();
        let span_last: i64 = d * (w_last as i64);
        proof {
            lemma_cum_span_bounds(challenge, q, p - 1 as int);
            lemma_cum_span_bounds(challenge, q, p as int);
            assert(q[p - 1].spec_span(challenge) == span_last as int);
        }
        let end: i64 = start + span_last;
        let week: i64 = ts.current_week + resolved;
        Ok((week, Timestamp(start), Timestamp(end)))
    }
}

/// Forecasting position 1 immediately after an entry was added to an empty
/// queue yields a window that opens at the active period's target end and
/// spans exactly the new entry's own duration, under the next sequence
/// number.  The hypotheses are what the queue insertion guarantees.
pub proof fn lemma_forecast_after_first_add(pre: Store, post: Store, c: Challenge, data: PromptData)
    requires
        pre.wf(),
        pre.sched_inv(c),
        data.valid(),
        pre.queue(c).len() == 0,
        post.queue(c) == pre.queue(c).push(data),
        post.tr(c).weeks == pre.tr(c).weeks,
        post.tr(c).current_week == pre.tr(c).current_week,
    ensures
        post.spec_forecast(c, 1) == Ok::<(i64, Timestamp, Timestamp), GlyfiError>(
            (
                (pre.cur_idx(c) + 1) as i64,
                pre.cur_week(c).target_end_time,
                Timestamp((pre.cur_week(c).target_end_time.0 + data.spec_span(c)) as i64),
            ),
        ),
{
    let q = post.queue(c);
    assert(q.len() == 1);
    assert(q[0] == data);
    assert(cum_span(c, q, 0) == 0);
    assert(post.cur_week(c) == pre.cur_week(c));
    assert(pre.cur_week(c).target_end_time.valid());
    assert(pre.cur_week(c).target_end_time.0 as int + 0 == pre.cur_week(c).target_end_time.0 as int);
}

/// A negative position counts from the queue's end: position -1 forecasts
/// the last queued entry, and on an empty queue it fails NotFound.
pub proof fn lemma_forecast_last(s: Store, c: Challenge)
    requires
        s.wf(),
        s.sched_inv(c),
    ensures
        s.queue(c).len() > 0 ==> s.spec_forecast(c, -1i64) == s.spec_forecast(
            c,
            s.queue(c).len() as i64,
        ),
        s.queue(c).len() > 0 ==> s.spec_forecast(c, -1i64) is Ok,
        s.queue(c).len() == 0 ==> s.spec_forecast(c, -1i64) == Err::<
            (i64, Timestamp, Timestamp),
            GlyfiError,
        >(GlyfiError::NotFound),
{
    let len = s.queue(c).len() as int;
    assert(resolved_position(-1i64, len) == len);
}

} // verus!
