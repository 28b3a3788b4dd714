use glyfi::scheduling::{poll_panel_split, RolloverPlan, TickDue};
use glyfi::store::Store;
use glyfi::types::{Challenge, PromptData, Timestamp, GLYPH_INTERVAL};

const T0: i64 = 1_000_000;
const WEEK: i64 = GLYPH_INTERVAL;

fn prompt(c: Challenge, text: &str) -> PromptData {
    PromptData {
        challenge: c,
        prompt: text.to_owned(),
        size_percentage: None,
        custom_duration: None,
        is_special: None,
        extra_announcement_text: None,
    }
}

/// Drives one full rollover of the given track at instant `now`, posting
/// fake message references, the way the scheduler loop would.
fn run_ticks(s: &mut Store, c: Challenge, now: i64) -> (usize, Option<RolloverPlan>) {
    let mut rollovers = 0;
    let mut last_plan = None;
    loop {
        match s.tick_decide(c, now) {
            TickDue::NoAction => break,
            TickDue::CloseWeek => {
                s.end_week(c, now);
                // The sweep runs here; with every author present it keeps all.
                let subs = s.get_submissions(c, s.get_current_week(c));
                let present = vec![true; subs.len()];
                s.remove_absent_user_submissions(c, s.get_current_week(c), &present);
            }
            TickDue::InitialiseWeek(_) => s.initialise_week(c),
            TickDue::Rollover(plan) => {
                let poll_msg = if plan.first_slots > 0 { Some(900) } else { None };
                let second_msg = if plan.second_slots > 0 { Some(901) } else { None };
                s.rollover_week(c, now, poll_msg, second_msg);
                rollovers += 1;
                last_plan = Some(plan);
            }
        }
    }
    (rollovers, last_plan)
}

#[test]
fn tick_before_target_end_is_a_no_op() {
    let mut s = Store::new(T0);
    s.add_prompt(&prompt(Challenge::Glyph, "queued")).unwrap();
    assert_eq!(s.tick_decide(Challenge::Glyph, T0 + WEEK - 1), TickDue::NoAction);
    let (rollovers, _) = run_ticks(&mut s, Challenge::Glyph, T0 + WEEK - 1);
    assert_eq!(rollovers, 0);
    assert_eq!(s.get_current_week(Challenge::Glyph), 0);
}

#[test]
fn rollover_scenario_with_queued_entry() {
    // Track default length 7 days; one queued entry, no overrides; the
    // active period's target end is T.
    let mut s = Store::new(T0);
    let t = T0 + WEEK;
    s.add_prompt(&prompt(Challenge::Glyph, "next prompt")).unwrap();

    let (rollovers, plan) = run_ticks(&mut s, Challenge::Glyph, t);
    assert_eq!(rollovers, 1);

    // A new PeriodRecord with sequence+1, start=T, end=T+7d.
    let next = s.get_week_info(1, Challenge::Glyph).unwrap();
    assert_eq!(next.week, 1);
    assert_eq!(next.prompt, "next prompt");
    assert_eq!(next.target_start_time, Timestamp(t));
    assert_eq!(next.target_end_time, Timestamp(t + WEEK));
    assert_eq!(next.actual_end_time, None);

    // CurrentPointer advances and the queue is now empty.
    assert_eq!(s.get_current_week(Challenge::Glyph), 1);
    assert!(s.get_prompts(Challenge::Glyph).is_empty());

    // The closed record carries the commit's bookkeeping.
    let closed = s.get_week_info(0, Challenge::Glyph).unwrap();
    assert_eq!(closed.actual_end_time, Some(Timestamp(t)));
    assert_eq!(closed.num_subs, 0);

    // The plan rendered the successor's announcement window.
    let plan = plan.unwrap();
    assert_eq!(plan.next_week, 1);
    assert_eq!(plan.announcement_start, Timestamp(t));
    assert_eq!(plan.announcement_end, Timestamp(t + WEEK));
    assert_eq!(plan.closing_week, 0);

    // The other track was untouched.
    assert_eq!(s.get_current_week(Challenge::Ambigram), 0);
}

#[test]
fn tick_with_empty_queue_does_not_advance() {
    // Identical setup but the queue is empty at tick time.
    let mut s = Store::new(T0);
    let t = T0 + WEEK;

    let (rollovers, plan) = run_ticks(&mut s, Challenge::Glyph, t);
    assert_eq!(rollovers, 0);
    assert!(plan.is_none());

    // No new PeriodRecord, CurrentPointer stays.
    assert_eq!(s.get_current_week(Challenge::Glyph), 0);
    assert!(s.get_week_info(1, Challenge::Glyph).is_err());

    // The period still closed, waiting for an operator.
    let cur = s.get_week_info(0, Challenge::Glyph).unwrap();
    assert_eq!(cur.actual_end_time, Some(Timestamp(t)));
}

#[test]
fn second_tick_without_clock_advance_is_a_no_op() {
    let mut s = Store::new(T0);
    let t = T0 + WEEK;
    s.add_prompt(&prompt(Challenge::Glyph, "next")).unwrap();

    let (first_run, _) = run_ticks(&mut s, Challenge::Glyph, t);
    assert_eq!(first_run, 1);

    // Back-to-back tick at the same instant: no second rollover, no change.
    assert_eq!(s.tick_decide(Challenge::Glyph, t), TickDue::NoAction);
    let (second_run, _) = run_ticks(&mut s, Challenge::Glyph, t);
    assert_eq!(second_run, 0);
    assert_eq!(s.get_current_week(Challenge::Glyph), 1);
}

#[test]
fn panel_split_matches_submission_counts() {
    // counts {0, 1, 25, 26, 50} post {0, 1, 1, 2, 2} panels.
    let cases = [(0, 0, 0, 0), (1, 1, 0, 1), (25, 25, 0, 1), (26, 25, 1, 2), (50, 25, 15, 2)];
    for (count, first, second, panels) in cases {
        let (f, sec) = poll_panel_split(count);
        assert_eq!(f, first, "count={count}");
        assert_eq!(sec, second, "count={count}");
        let plan = RolloverPlan {
            challenge: Challenge::Glyph,
            closing_week: 0,
            next_week: 1,
            announcement_prompt: String::new(),
            announcement_size: 100,
            announcement_start: Timestamp(0),
            announcement_end: Timestamp(0),
            poll_prompt: String::new(),
            poll_size: 100,
            poll_start: Timestamp(0),
            poll_end: Timestamp(0),
            num_subs: count,
            first_slots: f,
            second_slots: sec,
        };
        assert_eq!(plan.panel_count(), panels, "count={count}");
        assert_eq!(sec > 0, count > 25, "overflow panel exists iff count > 25");
    }
}

#[test]
fn rollover_plan_counts_submissions_and_splits_panels() {
    let mut s = Store::new(T0);
    let t = T0 + WEEK;
    s.add_prompt(&prompt(Challenge::Glyph, "next")).unwrap();
    // 26 submissions to the closing glyph period.
    for k in 0..26u64 {
        s.register_submission(1000 + k, Challenge::Glyph, 2000 + k, "link".to_owned(), 0, T0 + 1)
            .unwrap();
    }
    let (rollovers, plan) = run_ticks(&mut s, Challenge::Glyph, t);
    assert_eq!(rollovers, 1);
    let plan = plan.unwrap();
    assert_eq!(plan.num_subs, 26);
    assert_eq!(plan.first_slots, 25);
    assert_eq!(plan.second_slots, 1);
    assert_eq!(plan.panel_count(), 2);
    let closed = s.get_week_info(0, Challenge::Glyph).unwrap();
    assert_eq!(closed.num_subs, 26);
    assert_eq!(closed.poll_message_id.0, Some(900));
    assert_eq!(closed.second_poll_message_id.0, Some(901));
}

#[test]
fn closing_waits_for_successor_start_before_handoff() {
    // A queued entry is initialised as soon as the period closes, but the
    // handoff itself waits for the successor's own start time.
    let mut s = Store::new(T0);
    let mut early = prompt(Challenge::Glyph, "later");
    early.custom_duration = Some(2);
    s.add_prompt(&early).unwrap();

    // Close exactly at the target end; the successor starts at that same
    // instant, so the handoff happens in the same run.
    let t = T0 + WEEK;
    let (rollovers, _) = run_ticks(&mut s, Challenge::Glyph, t);
    assert_eq!(rollovers, 1);
    let cur = s.get_week_info(1, Challenge::Glyph).unwrap();
    assert_eq!(cur.target_end_time, Timestamp(t + 2 * WEEK));
}
