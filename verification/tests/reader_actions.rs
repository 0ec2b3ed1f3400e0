use linux_lit::reader_actions::{
    active_media_index, attribution_pick, chunk_lines, line_mapping_clip, work_division_label, work_info_clip,
    AttributionPick, VocabPopupFlags, VocabPopupKey, VocabToggle,
};

#[test]
fn rr_opens_then_closes() {
    let mut f = VocabPopupFlags { auto: false, highlight_visible: false };
    assert_eq!(f.chord_toggle(false), VocabToggle::Open { enable_highlight: true });
    assert_eq!(f, VocabPopupFlags { auto: true, highlight_visible: true });
    assert_eq!(f.chord_toggle(true), VocabToggle::Close);
    assert_eq!(f, VocabPopupFlags { auto: false, highlight_visible: true });
    assert_eq!(f.chord_toggle(false), VocabToggle::Open { enable_highlight: false });
}

#[test]
fn popup_keys_and_fade() {
    let mut f = VocabPopupFlags { auto: false, highlight_visible: true };
    assert_eq!(f.popup_key(false, true), VocabPopupKey::Open);
    assert!(f.auto);
    assert_eq!(f.popup_key(true, true), VocabPopupKey::Next);
    assert_eq!(f.popup_key(true, false), VocabPopupKey::Prev);
    assert!(f.fade_out(true));
    assert!(!f.auto);
    assert!(!f.fade_out(false));
}

#[test]
fn division_labels() {
    assert_eq!(work_division_label("Ham", 0, 0), "Ham");
    assert_eq!(work_division_label("Ham", 0, 4), "Ham");
    assert_eq!(work_division_label("BH", 12, 0), "BH 12");
    assert_eq!(work_division_label("Ham", 3, 1), "Ham 3.1");
    assert_eq!(work_division_label("Ham", -1, 10), "Ham -1.10");
}

#[test]
fn chunk_bounds() {
    // (act, scene, line in scene)
    let rows = [(1, 1, 1), (1, 1, 2), (1, 2, 1), (1, 2, 2), (1, 2, 2), (2, 1, 1)];
    assert_eq!(chunk_lines(&rows, None, 1, Some(2), 1, 2), (Some(2), Some(4)));
    let map = [10usize, 11, 12, 13, 14, 15];
    assert_eq!(chunk_lines(&rows, Some(&map), 1, Some(2), 1, 2), (Some(12), Some(14)));
    assert_eq!(chunk_lines(&rows, None, 1, None, 1, 2), (None, None));
    assert_eq!(chunk_lines(&rows, None, 3, Some(1), 1, 1), (None, None));
    assert_eq!(chunk_lines(&rows, None, 2, Some(1), 1, 5), (Some(5), None));
}

#[test]
fn mapping_id_clips() {
    assert_eq!(line_mapping_clip(Some(1234), Some(7)).as_deref(), Some("1234 7"));
    assert_eq!(line_mapping_clip(Some(1234), None).as_deref(), Some("1234"));
    assert_eq!(line_mapping_clip(None, Some(7)).as_deref(), Some("- 7"));
    assert_eq!(line_mapping_clip(None, None), None);
    assert_eq!(line_mapping_clip(Some(-5), Some(0)).as_deref(), Some("-5 0"));
}

#[test]
fn active_media_choice() {
    let ids = [40i64, 41, 42];
    assert_eq!(active_media_index(&ids, 3, Some(41)), Some(1));
    assert_eq!(active_media_index(&ids, 3, Some(99)), Some(0));
    assert_eq!(active_media_index(&ids, 3, None), Some(0));
    // The playing media's path is missing: the first path.
    assert_eq!(active_media_index(&ids, 2, Some(42)), Some(0));
    assert_eq!(active_media_index(&ids, 0, Some(41)), None);
    // The first matching id counts.
    assert_eq!(active_media_index(&[5, 5], 2, Some(5)), Some(0));
}

#[test]
fn work_info_text() {
    assert_eq!(work_info_clip("Ham", Some("/m/ham.mp3"), Some("/m/x.json")), "Ham\n/m/ham.mp3\n/m/x.json");
    assert_eq!(work_info_clip("Ham", Some("/m/ham.mp3"), None), "Ham\n/m/ham.mp3");
    assert_eq!(work_info_clip("Ham", None, None), "Ham");
}

#[test]
fn attribution_picks() {
    assert_eq!(attribution_pick(0), AttributionPick::NoData);
    assert_eq!(attribution_pick(1), AttributionPick::OnlyOne);
    assert_eq!(attribution_pick(3), AttributionPick::Open);
}
