use glyfi::store::Store;
use glyfi::types::{
    Challenge, ChallengeImageOptions, GlyfiError, MsgId, Timestamp, WeekInfo, WinnerPosition,
    AMBI_INTERVAL, GLYPH_INTERVAL,
};

const T0: i64 = 1_000_000;

#[test]
fn fresh_store_opens_week_zero_on_both_tracks() {
    let s = Store::new(T0);
    for c in [Challenge::Glyph, Challenge::Ambigram] {
        assert_eq!(s.get_current_week(c), 0);
        let w = s.get_week_info(0, c).unwrap();
        assert_eq!(w.week, 0);
        assert_eq!(w.target_start_time, Timestamp(T0));
        assert_eq!(w.target_end_time, Timestamp(T0 + c.default_duration()));
        assert_eq!(w.actual_end_time, None);
        assert!(s.get_prompts(c).is_empty());
    }
    assert_eq!(s.get_week_info(1, Challenge::Glyph), Err(GlyfiError::NotFound));
    assert_eq!(s.get_week_info(-1, Challenge::Glyph), Err(GlyfiError::NotFound));
}

#[test]
fn insert_or_modify_week_upserts_without_gaps() {
    let mut s = Store::new(T0);
    let mut w = s.get_week_info(0, Challenge::Glyph).unwrap();
    w.prompt = "replaced".to_owned();
    assert_eq!(s.insert_or_modify_week(w), Ok(()));
    assert_eq!(s.get_week_info(0, Challenge::Glyph).unwrap().prompt, "replaced");

    let next = WeekInfo {
        challenge: Challenge::Glyph,
        week: 1,
        prompt: "appended".to_owned(),
        size_percentage: 100,
        target_start_time: Timestamp(T0 + GLYPH_INTERVAL),
        target_end_time: Timestamp(T0 + 2 * GLYPH_INTERVAL),
        actual_start_time: Timestamp(T0 + GLYPH_INTERVAL),
        actual_end_time: None,
        is_special: false,
        num_subs: 0,
        poll_message_id: MsgId(None),
        second_poll_message_id: MsgId(None),
    };
    assert_eq!(s.insert_or_modify_week(next), Ok(()));
    assert_eq!(s.get_week_info(1, Challenge::Glyph).unwrap().prompt, "appended");

    // A gap is rejected: sequence numbers stay contiguous.
    let gap = WeekInfo {
        week: 5,
        prompt: "gap".to_owned(),
        ..s.get_week_info(1, Challenge::Glyph).unwrap()
    };
    assert_eq!(s.insert_or_modify_week(gap), Err(GlyfiError::Validation));
}

#[test]
fn insert_or_modify_week_rejects_out_of_range_times() {
    let mut s = Store::new(T0);
    let mut w = s.get_week_info(0, Challenge::Glyph).unwrap();
    w.target_end_time = Timestamp(-5);
    assert_eq!(s.insert_or_modify_week(w), Err(GlyfiError::Validation));
    // The stored record is untouched.
    assert_eq!(
        s.get_week_info(0, Challenge::Glyph).unwrap().target_end_time,
        Timestamp(T0 + GLYPH_INTERVAL)
    );
}

#[test]
fn set_current_week_requires_an_existing_record() {
    let mut s = Store::new(T0);
    assert!(!s.set_current_week(Challenge::Glyph, 1));
    assert!(!s.set_current_week(Challenge::Glyph, -1));
    assert!(s.set_current_week(Challenge::Glyph, 0));
    assert_eq!(s.get_current_week(Challenge::Glyph), 0);
}

#[test]
fn submissions_register_once_per_key() {
    let mut s = Store::new(T0);
    assert_eq!(
        s.register_submission(11, Challenge::Glyph, 7, "a".to_owned(), 0, T0),
        Ok(())
    );
    assert_eq!(
        s.register_submission(11, Challenge::Glyph, 7, "again".to_owned(), 0, T0),
        Err(GlyfiError::Validation)
    );
    // Same message under the other track is a different key.
    assert_eq!(
        s.register_submission(11, Challenge::Ambigram, 7, "b".to_owned(), 0, T0),
        Ok(())
    );
    assert!(s.check_submission(11));
    assert!(!s.check_submission(12));
}

#[test]
fn deregister_removes_exactly_the_key() {
    let mut s = Store::new(T0);
    s.register_submission(1, Challenge::Glyph, 7, "a".to_owned(), 0, T0).unwrap();
    s.register_submission(2, Challenge::Glyph, 8, "b".to_owned(), 0, T0).unwrap();
    assert!(!s.deregister_submission(1, Challenge::Ambigram, 0));
    assert!(s.deregister_submission(1, Challenge::Glyph, 0));
    assert!(!s.deregister_submission(1, Challenge::Glyph, 0));
    assert_eq!(s.get_submissions(Challenge::Glyph, 0), vec![(8, 2)]);
}

#[test]
fn get_submissions_filters_by_period_in_order() {
    let mut s = Store::new(T0);
    s.register_submission(5, Challenge::Glyph, 70, "x".to_owned(), 0, T0).unwrap();
    s.register_submission(3, Challenge::Ambigram, 71, "y".to_owned(), 0, T0).unwrap();
    s.register_submission(9, Challenge::Glyph, 72, "z".to_owned(), 0, T0).unwrap();
    s.register_submission(4, Challenge::Glyph, 73, "w".to_owned(), 1, T0).unwrap();
    assert_eq!(s.get_submissions(Challenge::Glyph, 0), vec![(70, 5), (72, 9)]);
    assert_eq!(s.get_submissions(Challenge::Ambigram, 0), vec![(71, 3)]);
    assert_eq!(s.get_submissions(Challenge::Glyph, 1), vec![(73, 4)]);
}

#[test]
fn submissions_are_listed_ascending_by_message() {
    let mut s = Store::new(T0);
    s.register_submission(9, Challenge::Glyph, 70, "a".to_owned(), 0, T0).unwrap();
    s.register_submission(5, Challenge::Glyph, 71, "b".to_owned(), 0, T0).unwrap();
    s.register_submission(7, Challenge::Glyph, 72, "c".to_owned(), 0, T0).unwrap();
    // Voting slots rest on this order: ascending message reference,
    // whatever order the submissions arrived in.
    assert_eq!(s.get_submissions(Challenge::Glyph, 0), vec![(71, 5), (72, 7), (70, 9)]);
}

#[test]
fn sweep_drops_only_absent_authors_of_the_closed_period() {
    let mut s = Store::new(T0);
    s.register_submission(1, Challenge::Glyph, 70, "a".to_owned(), 0, T0).unwrap();
    s.register_submission(2, Challenge::Glyph, 71, "b".to_owned(), 0, T0).unwrap();
    s.register_submission(3, Challenge::Glyph, 72, "c".to_owned(), 0, T0).unwrap();
    s.register_submission(4, Challenge::Ambigram, 71, "d".to_owned(), 0, T0).unwrap();
    // Authors 70 and 72 left the audience.
    let present = vec![false, true, false];
    s.remove_absent_user_submissions(Challenge::Glyph, 0, &present);
    assert_eq!(s.get_submissions(Challenge::Glyph, 0), vec![(71, 2)]);
    // The other track's submission survived.
    assert_eq!(s.get_submissions(Challenge::Ambigram, 0), vec![(71, 4)]);
}

#[test]
fn user_profiles_count_submissions_live() {
    let mut s = Store::new(T0);
    assert_eq!(s.register_user(42, "ada".to_owned()), Ok(()));
    assert_eq!(s.register_user(42, "ada".to_owned()), Err(GlyfiError::Validation));
    assert!(s.check_user(42));
    assert!(!s.check_user(43));

    s.register_submission(1, Challenge::Glyph, 42, "a".to_owned(), 0, T0).unwrap();
    s.register_submission(2, Challenge::Glyph, 42, "b".to_owned(), 0, T0).unwrap();
    s.register_submission(3, Challenge::Ambigram, 42, "c".to_owned(), 0, T0).unwrap();

    let p = s.get_user_profile(42);
    assert_eq!(p.nickname, Some("ada".to_owned()));
    assert_eq!(p.glyphs_submissions, 2);
    assert_eq!(p.ambigrams_submissions, 1);
    assert_eq!(p.glyphs_first, 0);

    // Unknown users get default stats, with live counts.
    let q = s.get_user_profile(43);
    assert_eq!(q.nickname, None);
    assert_eq!(q.glyphs_submissions, 0);
}

#[test]
fn set_nickname_upserts() {
    let mut s = Store::new(T0);
    s.set_nickname(7, "first".to_owned());
    assert_eq!(s.get_user_profile(7).nickname, Some("first".to_owned()));
    s.set_nickname(7, "second".to_owned());
    assert_eq!(s.get_user_profile(7).nickname, Some("second".to_owned()));
    assert!(s.check_user(7));
}

#[test]
fn track_names_and_defaults() {
    assert_eq!(Challenge::Glyph.raw(), 0);
    assert_eq!(Challenge::Ambigram.raw(), 1);
    assert_eq!(Challenge::Glyph.short_name(), "glyph");
    assert_eq!(Challenge::Ambigram.short_name(), "ambi");
    assert_eq!(Challenge::Glyph.long_name(), "glyph");
    assert_eq!(Challenge::Ambigram.long_name(), "ambigram");
    assert_eq!(Challenge::Glyph.one_char_name(), 'g');
    assert_eq!(Challenge::Ambigram.one_char_name(), 'a');
    assert_eq!(Challenge::name_to_path("glyph_poll"), "./generation/glyph_poll.png");
    assert_eq!(Challenge::Glyph.default_duration(), GLYPH_INTERVAL);
    assert_eq!(Challenge::Ambigram.default_duration(), AMBI_INTERVAL);
    assert_eq!(GLYPH_INTERVAL, 7 * 24 * 60 * 60);
}

#[test]
fn artifact_names() {
    assert_eq!(WinnerPosition::First.name(), "first");
    assert_eq!(WinnerPosition::Second.name(), "second");
    assert_eq!(WinnerPosition::Third.name(), "third");
    let ann = ChallengeImageOptions::Announcement { prompt: "p".to_owned(), size_percentage: 100 };
    assert_eq!(ann.suffix(), "announcement");
    let poll = ChallengeImageOptions::Poll { prompt: "p".to_owned(), size_percentage: 100 };
    assert_eq!(poll.suffix(), "poll");
    let win = ChallengeImageOptions::Winner {
        position: WinnerPosition::Second,
        winner_nick: "n".to_owned(),
        winner_id: 1,
        submission_id: 2,
    };
    assert_eq!(win.suffix(), "second");
}

#[test]
fn error_descriptions_are_stable() {
    assert_eq!(GlyfiError::Validation.describe(), "invalid request");
    assert_eq!(GlyfiError::NotFound.describe(), "no such entry");
    assert_eq!(GlyfiError::Collaborator.describe(), "a collaborator call failed");
    assert_eq!(GlyfiError::Persistence.describe(), "durable storage failed");
}
