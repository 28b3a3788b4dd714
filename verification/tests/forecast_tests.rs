use glyfi::store::Store;
use glyfi::types::{Challenge, GlyfiError, PromptData, Timestamp, GLYPH_INTERVAL};

const T0: i64 = 1_000_000;
const WEEK: i64 = GLYPH_INTERVAL;

fn prompt(c: Challenge, text: &str) -> PromptData {
    PromptData {
        challenge: c,
        prompt: text.to_owned(),
        size_percentage: None,
        custom_duration: None,
        is_special: None,
        extra_announcement_text: None,
    }
}

#[test]
fn forecast_first_after_fresh_add_opens_at_active_end() {
    let mut s = Store::new(T0);
    s.add_prompt(&prompt(Challenge::Glyph, "next")).unwrap();
    let (week, start, end) = s.forecast_prompt_details(Challenge::Glyph, 1).unwrap();
    assert_eq!(week, 1);
    assert_eq!(start, Timestamp(T0 + WEEK));
    assert_eq!(end, Timestamp(T0 + 2 * WEEK));
}

#[test]
fn forecast_respects_duration_overrides_cumulatively() {
    let mut s = Store::new(T0);
    let mut first = prompt(Challenge::Glyph, "double");
    first.custom_duration = Some(2);
    s.add_prompt(&first).unwrap();
    s.add_prompt(&prompt(Challenge::Glyph, "single")).unwrap();
    let (w1, s1, e1) = s.forecast_prompt_details(Challenge::Glyph, 1).unwrap();
    assert_eq!((w1, s1, e1), (1, Timestamp(T0 + WEEK), Timestamp(T0 + 3 * WEEK)));
    let (w2, s2, e2) = s.forecast_prompt_details(Challenge::Glyph, 2).unwrap();
    assert_eq!((w2, s2, e2), (2, Timestamp(T0 + 3 * WEEK), Timestamp(T0 + 4 * WEEK)));
}

#[test]
fn forecast_negative_one_resolves_to_last_for_length_one() {
    let mut s = Store::new(T0);
    s.add_prompt(&prompt(Challenge::Ambigram, "only")).unwrap();
    let from_end = s.forecast_prompt_details(Challenge::Ambigram, -1).unwrap();
    let direct = s.forecast_prompt_details(Challenge::Ambigram, 1).unwrap();
    assert_eq!(from_end, direct);
}

#[test]
fn forecast_negative_one_resolves_to_last_for_length_two() {
    let mut s = Store::new(T0);
    s.add_prompt(&prompt(Challenge::Ambigram, "one")).unwrap();
    s.add_prompt(&prompt(Challenge::Ambigram, "two")).unwrap();
    let from_end = s.forecast_prompt_details(Challenge::Ambigram, -1).unwrap();
    let direct = s.forecast_prompt_details(Challenge::Ambigram, 2).unwrap();
    assert_eq!(from_end, direct);
    assert_eq!(from_end.0, 2);
}

#[test]
fn forecast_on_empty_queue_fails_not_found() {
    let s = Store::new(T0);
    assert_eq!(
        s.forecast_prompt_details(Challenge::Glyph, -1),
        Err(GlyfiError::NotFound)
    );
}

#[test]
fn forecast_rejects_position_zero_and_out_of_range() {
    let mut s = Store::new(T0);
    s.add_prompt(&prompt(Challenge::Glyph, "a")).unwrap();
    assert_eq!(s.forecast_prompt_details(Challenge::Glyph, 0), Err(GlyfiError::NotFound));
    assert_eq!(s.forecast_prompt_details(Challenge::Glyph, 2), Err(GlyfiError::NotFound));
    assert_eq!(s.forecast_prompt_details(Challenge::Glyph, -2), Err(GlyfiError::NotFound));
}

#[test]
fn forecast_tracks_are_independent() {
    let mut s = Store::new(T0);
    s.add_prompt(&prompt(Challenge::Glyph, "g")).unwrap();
    assert!(s.forecast_prompt_details(Challenge::Glyph, 1).is_ok());
    assert_eq!(
        s.forecast_prompt_details(Challenge::Ambigram, 1),
        Err(GlyfiError::NotFound)
    );
}
