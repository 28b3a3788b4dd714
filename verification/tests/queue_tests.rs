use glyfi::store::Store;
use glyfi::types::{Challenge, GlyfiError, PromptData};

fn store() -> Store {
    Store::new(1_000_000)
}

fn prompt(c: Challenge, text: &str) -> PromptData {
    PromptData {
        challenge: c,
        prompt: text.to_owned(),
        size_percentage: None,
        custom_duration: None,
        is_special: None,
        extra_announcement_text: None,
    }
}

#[test]
fn add_assigns_increasing_ids_and_appends() {
    let mut s = store();
    let a = s.add_prompt(&prompt(Challenge::Glyph, "a")).unwrap();
    let b = s.add_prompt(&prompt(Challenge::Glyph, "b")).unwrap();
    let c = s.add_prompt(&prompt(Challenge::Ambigram, "c")).unwrap();
    assert!(a < b && b < c);
    let glyphs = s.get_prompts(Challenge::Glyph);
    assert_eq!(glyphs.len(), 2);
    assert_eq!(glyphs[0].prompt, "a");
    assert_eq!(glyphs[1].prompt, "b");
    let ambis = s.get_prompts(Challenge::Ambigram);
    assert_eq!(ambis.len(), 1);
    assert_eq!(ambis[0].prompt, "c");
}

#[test]
fn add_rejects_zero_duration_and_size() {
    let mut s = store();
    let mut p = prompt(Challenge::Glyph, "bad");
    p.custom_duration = Some(0);
    assert_eq!(s.add_prompt(&p), Err(GlyfiError::Validation));
    let mut q = prompt(Challenge::Glyph, "bad");
    q.size_percentage = Some(0);
    assert_eq!(s.add_prompt(&q), Err(GlyfiError::Validation));
    assert!(s.get_prompts(Challenge::Glyph).is_empty());
}

#[test]
fn get_is_one_based_and_fails_not_found() {
    let mut s = store();
    s.add_prompt(&prompt(Challenge::Glyph, "a")).unwrap();
    s.add_prompt(&prompt(Challenge::Glyph, "b")).unwrap();
    assert_eq!(s.get_prompt_data(Challenge::Glyph, 1).unwrap().prompt, "a");
    assert_eq!(s.get_prompt_data(Challenge::Glyph, 2).unwrap().prompt, "b");
    assert_eq!(s.get_prompt_data(Challenge::Glyph, 0), Err(GlyfiError::NotFound));
    assert_eq!(s.get_prompt_data(Challenge::Glyph, 3), Err(GlyfiError::NotFound));
    assert_eq!(s.get_prompt_data(Challenge::Ambigram, 1), Err(GlyfiError::NotFound));
}

#[test]
fn edit_replaces_by_stable_id() {
    let mut s = store();
    let id = s.add_prompt(&prompt(Challenge::Glyph, "before")).unwrap();
    let mut newer = prompt(Challenge::Glyph, "after");
    newer.size_percentage = Some(80);
    assert_eq!(s.edit_prompt(id, &newer), Ok(true));
    let got = s.get_prompt_data(Challenge::Glyph, 1).unwrap();
    assert_eq!(got.prompt, "after");
    assert_eq!(got.size_percentage, Some(80));
    // A vanished id reports failure without touching the queue.
    assert_eq!(s.edit_prompt(id + 100, &prompt(Challenge::Glyph, "x")), Ok(false));
    assert_eq!(s.get_prompts(Challenge::Glyph).len(), 1);
}

#[test]
fn edit_rejects_invalid_data() {
    let mut s = store();
    let id = s.add_prompt(&prompt(Challenge::Glyph, "keep")).unwrap();
    let mut bad = prompt(Challenge::Glyph, "zero");
    bad.custom_duration = Some(0);
    assert_eq!(s.edit_prompt(id, &bad), Err(GlyfiError::Validation));
    assert_eq!(s.get_prompt_data(Challenge::Glyph, 1).unwrap().prompt, "keep");
}

#[test]
fn delete_removes_at_position() {
    let mut s = store();
    for t in ["a", "b", "c"] {
        s.add_prompt(&prompt(Challenge::Glyph, t)).unwrap();
    }
    assert_eq!(s.delete_prompt(Challenge::Glyph, 2), Ok(true));
    let left = s.get_prompts(Challenge::Glyph);
    assert_eq!(left.len(), 2);
    assert_eq!(left[0].prompt, "a");
    assert_eq!(left[1].prompt, "c");
    assert_eq!(s.delete_prompt(Challenge::Glyph, 3), Err(GlyfiError::NotFound));
    assert_eq!(s.delete_prompt(Challenge::Glyph, 0), Err(GlyfiError::NotFound));
}

#[test]
fn swap_exchanges_positions_and_rejects_degenerate() {
    let mut s = store();
    for t in ["a", "b", "c"] {
        s.add_prompt(&prompt(Challenge::Glyph, t)).unwrap();
    }
    assert_eq!(s.swap_prompts(Challenge::Glyph, 1, 3), Ok(true));
    let order: Vec<String> = s.get_prompts(Challenge::Glyph).into_iter().map(|p| p.prompt).collect();
    assert_eq!(order, vec!["c", "b", "a"]);
    assert_eq!(s.swap_prompts(Challenge::Glyph, 2, 2), Err(GlyfiError::Validation));
    assert_eq!(s.swap_prompts(Challenge::Glyph, 1, 4), Err(GlyfiError::NotFound));
}

/// Reference model for a move: remove at `from` and reinsert at `to`,
/// 1-based, in a plain list.
fn model_move(mut v: Vec<String>, from: usize, to: usize) -> Vec<String> {
    let x = v.remove(from - 1);
    v.insert(to - 1, x);
    v
}

#[test]
fn move_matches_remove_and_reinsert_for_all_pairs() {
    let names = ["a", "b", "c", "d", "e"];
    for from in 1..=names.len() {
        for to in 1..=names.len() {
            let mut s = store();
            for t in names {
                s.add_prompt(&prompt(Challenge::Glyph, t)).unwrap();
            }
            let model: Vec<String> = names.iter().map(|t| t.to_string()).collect();
            assert_eq!(s.move_prompt(Challenge::Glyph, from, to), Ok(true));
            let got: Vec<String> =
                s.get_prompts(Challenge::Glyph).into_iter().map(|p| p.prompt).collect();
            assert_eq!(got, model_move(model, from, to), "from={from} to={to}");
        }
    }
}

#[test]
fn move_rejects_out_of_range() {
    let mut s = store();
    s.add_prompt(&prompt(Challenge::Glyph, "a")).unwrap();
    assert_eq!(s.move_prompt(Challenge::Glyph, 1, 2), Err(GlyfiError::NotFound));
    assert_eq!(s.move_prompt(Challenge::Glyph, 0, 1), Err(GlyfiError::NotFound));
}

/// Replays a mixed operation sequence against a plain in-memory list and
/// checks that `get` agrees at every valid position after every step.
#[test]
fn queue_agrees_with_reference_model_under_replay() {
    let mut s = store();
    let mut model: Vec<String> = Vec::new();
    let mut ids: Vec<i64> = Vec::new();

    let check = |s: &Store, model: &Vec<String>| {
        assert_eq!(s.get_prompts(Challenge::Glyph).len(), model.len());
        for p in 1..=model.len() {
            let got = s.get_prompt_data(Challenge::Glyph, p).unwrap();
            assert_eq!(got.prompt, model[p - 1]);
        }
        assert_eq!(
            s.get_prompt_data(Challenge::Glyph, model.len() + 1),
            Err(GlyfiError::NotFound)
        );
    };

    for t in ["a", "b", "c", "d"] {
        ids.push(s.add_prompt(&prompt(Challenge::Glyph, t)).unwrap());
        model.push(t.to_string());
        check(&s, &model);
    }

    s.swap_prompts(Challenge::Glyph, 1, 4).unwrap();
    model.swap(0, 3);
    check(&s, &model);

    s.move_prompt(Challenge::Glyph, 3, 1).unwrap();
    let x = model.remove(2);
    model.insert(0, x);
    check(&s, &model);

    s.delete_prompt(Challenge::Glyph, 2).unwrap();
    model.remove(1);
    check(&s, &model);

    // Edit by id: the entry now at position 1 keeps its position.
    let (id, _) = s.get_prompt_id_data(Challenge::Glyph, 1).unwrap();
    s.edit_prompt(id, &prompt(Challenge::Glyph, "edited")).unwrap();
    model[0] = "edited".to_string();
    check(&s, &model);
}

#[test]
fn validated_normalises_defaults_and_rejects_zero() {
    let p = PromptData::validated(
        Challenge::Glyph,
        "x".to_owned(),
        Some(100),
        Some(2),
        Some(false),
        None,
    )
    .unwrap();
    assert_eq!(p.size_percentage, None);
    assert_eq!(p.custom_duration, Some(2));
    assert_eq!(p.is_special, None);
    assert_eq!(
        PromptData::validated(Challenge::Glyph, "x".to_owned(), Some(0), None, None, None),
        Err(GlyfiError::Validation)
    );
    assert_eq!(
        PromptData::validated(Challenge::Glyph, "x".to_owned(), None, Some(0), None, None),
        Err(GlyfiError::Validation)
    );
}

#[test]
fn apply_edit_merges_fields_and_reports_change() {
    let base = PromptData {
        challenge: Challenge::Ambigram,
        prompt: "base".to_owned(),
        size_percentage: Some(90),
        custom_duration: None,
        is_special: Some(true),
        extra_announcement_text: None,
    };
    let (merged, changed) = base.apply_edit(None, Some(3), None, Some("note".to_owned())).unwrap();
    assert!(changed);
    assert_eq!(merged.size_percentage, Some(90));
    assert_eq!(merged.custom_duration, Some(3));
    assert_eq!(merged.is_special, Some(true));
    assert_eq!(merged.extra_announcement_text, Some("note".to_owned()));

    let (same, changed2) = base.apply_edit(None, None, Some(false), None).unwrap();
    assert!(!changed2);
    assert_eq!(same.is_special, None);

    assert_eq!(base.apply_edit(Some(0), None, None, None), Err(GlyfiError::Validation));
}
