use linux_lit::navigation::{
    act_dialogue_lines, adjacent_paragraph, after_page_change_plan, buffer_line_for_line_id,
    chapter_break_at_or_before, current_block_first_line, current_line_id, header_page_top,
    jump_to_start_target, last_dialogue_target, next_bookmark_target, next_dialogue_from,
    prev_bookmark_target, prev_dialogue_line, prose_chapter_label, prose_chapter_numbering,
    redirect_to_final_spread, scene_starts_in_right_column, skip_gap_rows, speaker_turn_target,
    table_jump_to_end, table_page_backward, table_page_forward, BookmarkJump, Direction,
    PageChangeReason, TableTurn,
};
use linux_lit::page_table::Spread;

#[test]
fn real_chapter_reads_div1_directly() {
    assert_eq!(prose_chapter_numbering(7, 67), Some((7, 67)));
    assert_eq!(prose_chapter_numbering(1, 67), Some((1, 67)));
    assert_eq!(prose_chapter_numbering(67, 67), Some((67, 67)));
}

#[test]
fn front_matter_is_not_a_chapter() {
    assert_eq!(prose_chapter_numbering(0, 67), None);
}

#[test]
fn degenerate_metadata_yields_no_numbering() {
    assert_eq!(prose_chapter_numbering(5, 0), None);
    assert_eq!(prose_chapter_numbering(-1, 67), None);
}

#[test]
fn reason_drives_seek_for_user_navigation() {
    assert!(PageChangeReason::Forward.should_seek());
    assert!(PageChangeReason::Backward.should_seek());
    assert!(PageChangeReason::JumpToLine.should_seek());
    assert!(PageChangeReason::JumpToBookmark.should_seek());
    assert!(PageChangeReason::Chapter.should_seek());
    assert!(PageChangeReason::Scene.should_seek());
}

#[test]
fn reason_skips_seek_for_system_driven_changes() {
    assert!(!PageChangeReason::MpvSync.should_seek(),
        "MPV-driven page change must not re-seek MPV");
    assert!(!PageChangeReason::Resnap.should_seek(),
        "resnap is a layout refresh, not a navigation");
    assert!(!PageChangeReason::WorkLoad.should_seek(),
        "work load drives its own seek separately");
}

#[test]
fn reason_drives_vocab_popup_for_user_navigation() {
    assert!(PageChangeReason::Forward.should_show_vocab());
    assert!(PageChangeReason::JumpToBookmark.should_show_vocab());
}

#[test]
fn reason_skips_vocab_for_system_changes() {
    assert!(!PageChangeReason::MpvSync.should_show_vocab());
    assert!(!PageChangeReason::Resnap.should_show_vocab());
    assert!(!PageChangeReason::WorkLoad.should_show_vocab());
}

#[test]
fn reason_skips_seek_for_cursor_only_navigation() {
    assert!(!PageChangeReason::Cursor.should_seek(),
        "cursor-only navigation must not drag audio");
    assert!(PageChangeReason::Cursor.should_show_vocab(),
        "cursor navigation still shows vocab");
}

/// Build a fixture from compact tuples: (speaker, is_dialogue); `""` speaker
/// means an unmapped line.
fn fixture(rows: &[(&str, bool)]) -> (Vec<Option<String>>, Vec<bool>) {
    let speakers = rows
        .iter()
        .map(|(sp, _)| if sp.is_empty() { None } else { Some(sp.to_string()) })
        .collect();
    let dlg = rows.iter().map(|(_, d)| *d).collect();
    (speakers, dlg)
}

fn target(rows: &(Vec<Option<String>>, Vec<bool>), from: usize, dir: Direction) -> Option<usize> {
    speaker_turn_target(from, dir, &rows.0, &rows.1)
}

// A A [stage] B B A C C
fn sample() -> (Vec<Option<String>>, Vec<bool>) {
    fixture(&[
        ("A", true),
        ("A", true),
        ("", false),
        ("B", true),
        ("B", true),
        ("A", true),
        ("C", true),
        ("C", true),
    ])
}

#[test]
fn next_lands_on_first_line_of_next_turn() {
    let v = sample();
    assert_eq!(target(&v, 0, Direction::Next), Some(3));
    assert_eq!(target(&v, 4, Direction::Next), Some(5));
    assert_eq!(target(&v, 5, Direction::Next), Some(6));
}

#[test]
fn next_returns_none_at_last_turn() {
    let v = sample();
    assert_eq!(target(&v, 6, Direction::Next), None);
    assert_eq!(target(&v, 7, Direction::Next), None);
}

#[test]
fn prev_lands_on_first_line_of_previous_turn() {
    let v = sample();
    assert_eq!(target(&v, 7, Direction::Prev), Some(5));
    assert_eq!(target(&v, 5, Direction::Prev), Some(3));
    assert_eq!(target(&v, 4, Direction::Prev), Some(0));
    assert_eq!(target(&v, 3, Direction::Prev), Some(0));
}

#[test]
fn prev_returns_none_at_first_turn() {
    let v = sample();
    assert_eq!(target(&v, 0, Direction::Prev), None);
    assert_eq!(target(&v, 1, Direction::Prev), None);
}

#[test]
fn none_speaker_origin_treats_any_some_as_different() {
    let v = fixture(&[("", false), ("", true), ("A", true), ("A", true), ("B", true)]);
    assert_eq!(target(&v, 0, Direction::Next), Some(2));
}

#[test]
fn prose_with_no_speakers_is_noop_both_directions() {
    let v = fixture(&[("", true), ("", true), ("", true)]);
    assert_eq!(target(&v, 1, Direction::Next), None);
    assert_eq!(target(&v, 1, Direction::Prev), None);
}

#[test]
fn adjacent_paragraph_steps_and_skips_blanks() {
    let blank = [false, true, false, false, true, false];
    assert_eq!(adjacent_paragraph(6, 0, Direction::Next, &blank), Some(2));
    assert_eq!(adjacent_paragraph(6, 2, Direction::Next, &blank), Some(3));
    assert_eq!(adjacent_paragraph(6, 3, Direction::Next, &blank), Some(5));
    assert_eq!(adjacent_paragraph(6, 5, Direction::Prev, &blank), Some(3));
    assert_eq!(adjacent_paragraph(6, 5, Direction::Next, &blank), None);
    assert_eq!(adjacent_paragraph(6, 0, Direction::Prev, &blank), None);
}

#[test]
fn skip_gap_rows_advances_past_the_gap() {
    let gap = [false, true, false];
    assert_eq!(skip_gap_rows(3, 1, 1, &gap), 2);
    assert_eq!(skip_gap_rows(3, 1, -1, &gap), 0);
    assert_eq!(skip_gap_rows(3, 0, 1, &gap), 0);
    assert_eq!(skip_gap_rows(3, 2, -1, &gap), 2);
}

#[test]
fn skip_gap_rows_skips_a_run_of_multiple_gaps() {
    let gap = [false, true, true, true, false];
    assert_eq!(skip_gap_rows(5, 1, 1, &gap), 4);
    assert_eq!(skip_gap_rows(5, 3, -1, &gap), 0);
}

#[test]
fn skip_gap_rows_clamped_at_buffer_edge() {
    let gap = [false, true, true];
    assert_eq!(skip_gap_rows(3, 1, 1, &gap), 2);
    let all_gap = [true, true, true];
    assert_eq!(skip_gap_rows(3, 0, 1, &all_gap), 2);
    assert_eq!(skip_gap_rows(3, 2, -1, &all_gap), 0);
}

#[test]
fn skip_gap_rows_no_gaps_is_identity() {
    let no_gap = [false, false, false, false];
    for bl in 0..no_gap.len() {
        assert_eq!(skip_gap_rows(no_gap.len(), bl, 1, &no_gap), bl);
        assert_eq!(skip_gap_rows(no_gap.len(), bl, -1, &no_gap), bl);
    }
}

#[test]
fn non_dialogue_lines_are_never_a_target() {
    let v = fixture(&[("A", true), ("", false), ("B", true)]);
    assert_eq!(target(&v, 0, Direction::Next), Some(2));
    assert_eq!(target(&v, 2, Direction::Prev), Some(0));
}

fn block_first(rows: &(Vec<Option<String>>, Vec<bool>), from: usize) -> Option<usize> {
    current_block_first_line(from, &rows.0, &rows.1)
}

#[test]
fn block_first_returns_top_of_current_speech() {
    let v = sample();
    assert_eq!(block_first(&v, 4), Some(3));
    assert_eq!(block_first(&v, 7), Some(6));
    assert_eq!(block_first(&v, 0), Some(0));
    assert_eq!(block_first(&v, 3), Some(3));
    assert_eq!(block_first(&v, 5), Some(5));
}

#[test]
fn block_first_crosses_embedded_stage_direction() {
    let v = fixture(&[
        ("B", true),
        ("H", true),
        ("H", true),
        ("", false),
        ("H", true),
        ("H", true),
        ("C", true),
    ]);
    assert_eq!(block_first(&v, 5), Some(1));
    assert_eq!(block_first(&v, 4), Some(1));
    assert_ne!(block_first(&v, 5), Some(4));
}

#[test]
fn block_first_stops_at_unmapped_chrome_line() {
    let v = sample();
    assert_eq!(block_first(&v, 1), Some(0));
}

#[test]
fn block_first_none_for_non_dialogue_cursor() {
    let v = sample();
    assert_eq!(block_first(&v, 2), None);
    let p = fixture(&[("", true), ("", true)]);
    assert_eq!(block_first(&p, 1), None);
}

// ---------------------------------------------------------------------------

#[test]
fn after_page_change_plan_follows_the_reason() {
    let p = after_page_change_plan(PageChangeReason::Forward, false);
    assert!(p.seek);
    let p = after_page_change_plan(PageChangeReason::MpvSync, false);
    assert!(!p.seek);
}

#[test]
fn dialogue_scans() {
    let dlg = [false, true, false, true, true];
    let tr = [false, false, false, false, true];
    assert_eq!(next_dialogue_from(&dlg, 0, 5), 1);
    assert_eq!(next_dialogue_from(&dlg, 2, 5), 3);
    assert_eq!(next_dialogue_from(&[false, false], 0, 2), 2);
    // Translation lines are not landing lines going back.
    assert_eq!(prev_dialogue_line(&dlg, &tr, 5), Some(3));
    assert_eq!(prev_dialogue_line(&dlg, &tr, 1), None);
    assert_eq!(last_dialogue_target(&dlg, &tr, 5), 3);
}

#[test]
fn gg_prefers_a_timestamped_dialogue_line() {
    let dlg = [false, true, true, true];
    let ts = [false, false, true, true];
    assert_eq!(jump_to_start_target(&dlg, &ts, 4), 2);
    assert_eq!(jump_to_start_target(&dlg, &[false; 4], 4), 1);
    assert_eq!(jump_to_start_target(&[false; 4], &ts, 4), 0);
}

#[test]
fn final_spread_redirect() {
    // Two columns, empty right column: go to the anchor.
    assert_eq!(redirect_to_final_spread(2, 40, 30, true, 35), Some(40));
    // Overlapping the anchor's tail.
    assert_eq!(redirect_to_final_spread(2, 40, 30, false, 45), Some(40));
    // Tiles cleanly up to the anchor: keep.
    assert_eq!(redirect_to_final_spread(2, 40, 30, false, 40), None);
    // One column or already the anchor: keep.
    assert_eq!(redirect_to_final_spread(1, 40, 30, true, 45), None);
    assert_eq!(redirect_to_final_spread(2, 40, 40, true, 45), None);
}

fn table() -> Vec<Spread> {
    vec![
        Spread { left_start: 0, split: Some(3), end: 5 },
        Spread { left_start: 6, split: Some(9), end: 9 },
        Spread { left_start: 10, split: Some(12), end: 13 },
    ]
}

#[test]
fn table_page_turns() {
    let t = table();
    let dlg = vec![true; 14];
    let tr = vec![false; 14];
    // From page 0: turn to page 1, landing on its first dialogue line.
    assert_eq!(table_page_forward(&t, 0, 2, &dlg, &tr, 14), TableTurn::Turn { top: 6, cursor: 6 });
    // From page 1 onto the final page: land on its last on-page dialogue line.
    assert_eq!(table_page_forward(&t, 6, 7, &dlg, &tr, 14), TableTurn::Turn { top: 10, cursor: 13 });
    // On the final page: only the cursor moves, to the last line.
    assert_eq!(table_page_forward(&t, 10, 11, &dlg, &tr, 14), TableTurn::MoveCursor(13));
    assert_eq!(table_page_forward(&t, 10, 13, &dlg, &tr, 14), TableTurn::Stay);
    // Back from page 2 to page 1, landing on its last dialogue line.
    assert_eq!(table_page_backward(&t, 10, 11, 0, &dlg, &tr), TableTurn::Turn { top: 6, cursor: 9 });
    // At the first page: the cursor goes to the first dialogue line.
    assert_eq!(table_page_backward(&t, 0, 3, 1, &dlg, &tr), TableTurn::MoveCursor(1));
    assert_eq!(table_page_backward(&t, 0, 1, 1, &dlg, &tr), TableTurn::Stay);
    assert_eq!(table_jump_to_end(&t, &dlg, &tr), (10, 13));
}

#[test]
fn forward_then_backward_returns_to_the_page() {
    let t = table();
    let dlg = vec![true; 14];
    let tr = vec![false; 14];
    if let TableTurn::Turn { top, cursor } = table_page_forward(&t, 0, 0, &dlg, &tr, 14) {
        assert!(top > 0);
        match table_page_backward(&t, top, cursor, 0, &dlg, &tr) {
            TableTurn::Turn { top: back, .. } => assert_eq!(back, 0),
            other => panic!("expected a turn, got {other:?}"),
        }
    } else {
        panic!("expected a turn");
    }
}

#[test]
fn bookmark_targets_do_not_wrap() {
    let bm = [false, true, false, false, true, false];
    assert_eq!(next_bookmark_target(&bm, 1), BookmarkJump::Jump(4));
    assert_eq!(next_bookmark_target(&bm, 4), BookmarkJump::Stay);
    assert_eq!(prev_bookmark_target(&bm, 4), BookmarkJump::Jump(1));
    assert_eq!(prev_bookmark_target(&bm, 1), BookmarkJump::Stay);
    assert_eq!(prev_bookmark_target(&bm, 0), BookmarkJump::Stay);
    assert_eq!(prev_bookmark_target(&bm, 99), BookmarkJump::Jump(4));
    assert_eq!(next_bookmark_target(&[false, false], 0), BookmarkJump::NoBookmarks);
    assert_eq!(prev_bookmark_target(&[false, false], 1), BookmarkJump::NoBookmarks);
}

#[test]
fn line_ids_map_through_the_buffer_map() {
    let ids = [10, 20, 30];
    assert_eq!(buffer_line_for_line_id(&ids, None, 20), Some(1));
    assert_eq!(buffer_line_for_line_id(&ids, Some(&[0, 2, 5]), 30), Some(5));
    assert_eq!(buffer_line_for_line_id(&ids, None, 99), None);
    assert_eq!(current_line_id(&ids, None, 2), Some(30));
    assert_eq!(current_line_id(&ids, Some(&[Some(1), None]), 0), Some(20));
    assert_eq!(current_line_id(&ids, Some(&[Some(1), None]), 1), None);
    assert_eq!(current_line_id(&ids, None, 3), None);
}

#[test]
fn act_starts_land_on_first_dialogue_of_each_act() {
    // Acts: lines 0..4 act 1 (dialogue from 2), 4..7 act 2 (dialogue from 5),
    // line 7 unmapped, 8..10 act 3 with no dialogue of its own.
    let div1 = [Some(1), Some(1), Some(1), Some(1), Some(2), Some(2), Some(2), None, Some(3), Some(3)];
    let dlg = [false, false, true, true, false, true, true, false, false, false];
    assert_eq!(act_dialogue_lines(&div1, &dlg, 10), vec![2, 5]);
    // An act without dialogue that resolves to the next act's first line is
    // kept once.
    let div1 = [Some(1), Some(2), Some(2)];
    let dlg = [false, false, true];
    assert_eq!(act_dialogue_lines(&div1, &dlg, 3), vec![2]);
}

#[test]
fn scene_header_backs_up_to_its_act_line() {
    // 0: ACT 2, 1: rule, 2: blank, 3: Scene 1
    let is_act = [true, false, false, false];
    let is_gap = [false, true, true, false];
    assert_eq!(header_page_top(3, &is_act, &is_gap), 0);
    // Content between stops the search.
    let is_gap = [false, false, true, false];
    assert_eq!(header_page_top(3, &is_act, &is_gap), 3);
    // The marker itself an Act line.
    assert_eq!(header_page_top(0, &is_act, &is_gap), 0);
}

#[test]
fn scene_in_the_right_column() {
    assert!(scene_starts_in_right_column(true, 30, 10, 25, 40));
    assert!(!scene_starts_in_right_column(false, 30, 10, 25, 40));
    assert!(!scene_starts_in_right_column(true, 20, 10, 25, 40));
    assert!(!scene_starts_in_right_column(true, 10, 10, 5, 40));
}

#[test]
fn chapter_toast_label() {
    assert_eq!(
        prose_chapter_label("BH", 7, 67, "CHAPTER VII", "Bleak House"),
        "BH \u{2014} Chapter 7 of 67 \u{2014} CHAPTER VII"
    );
    assert_eq!(
        prose_chapter_label("BH", 0, 67, "PREFACE", "Bleak House"),
        "BH \u{2014} Front matter \u{2014} Bleak House"
    );
    assert_eq!(chapter_break_at_or_before(&[3, 10, 20], 15), Some(1));
    assert_eq!(chapter_break_at_or_before(&[3, 10, 20], 2), None);
}

use linux_lit::navigation::{
    back_stack_step, back_turn_cursor, end_jump_cursor, final_spread_guard, first_spread_guard,
    natural_candidate, natural_turn, scene_snap_turn, BackStep, LiveTurn,
};

#[test]
fn live_forward_turns() {
    let dlg = vec![true; 100];
    let tr = vec![false; 100];
    // Final spread: the cursor goes to the last visible dialogue line.
    assert_eq!(final_spread_guard(true, 100, 99, 95, 60, 70, 100, &dlg, &tr), Some(LiveTurn::MoveCursor(95)));
    assert_eq!(final_spread_guard(true, 100, 99, 95, 60, 95, 100, &dlg, &tr), Some(LiveTurn::Stay));
    assert_eq!(final_spread_guard(true, 90, 89, 89, 60, 70, 100, &dlg, &tr), None);
    assert_eq!(final_spread_guard(false, 100, 99, 95, 60, 70, 100, &dlg, &tr), None);
    // Scene snap only with forward progress.
    assert_eq!(scene_snap_turn(40, 20, &dlg, 100), Some(LiveTurn::Turn { top: 40, cursor: 40 }));
    assert_eq!(scene_snap_turn(20, 20, &dlg, 100), None);
    // The natural turn.
    assert_eq!(natural_candidate(50, 52, 20, 100), Some(50));
    assert_eq!(natural_candidate(20, 52, 20, 100), Some(52));
    assert_eq!(natural_candidate(50, 100, 20, 100), None);
    assert_eq!(natural_turn(50, 20, false, 79, 52, 100, &dlg, &tr), LiveTurn::Turn { top: 50, cursor: 52 });
    assert_eq!(natural_turn(50, 20, true, 79, 52, 100, &dlg, &tr), LiveTurn::Turn { top: 50, cursor: 79 });
    assert_eq!(natural_turn(20, 20, false, 79, 52, 100, &dlg, &tr), LiveTurn::JumpToEnd);
}

#[test]
fn back_stack_never_moves_forward() {
    // Stale entries (at or ahead of the current position) are dropped.
    let mut stack = vec![(10usize, 0i32), (50, 0), (60, 0), (40, 20)];
    assert_eq!(back_stack_step(&mut stack, 40, 20), BackStep::Turn { top: 10 });
    assert!(stack.is_empty());
    // A smaller offset on the same line restores the offset.
    let mut stack = vec![(10usize, 0i32), (40, 5)];
    assert_eq!(back_stack_step(&mut stack, 40, 20), BackStep::Restore { line: 40, offset: 5 });
    assert_eq!(stack, vec![(10, 0)]);
    let mut stack: Vec<(usize, i32)> = vec![(70, 0)];
    assert_eq!(back_stack_step(&mut stack, 40, 0), BackStep::Live);
    assert!(stack.is_empty());
}

#[test]
fn live_backward_landings() {
    let dlg = vec![true; 100];
    let tr = vec![false; 100];
    assert_eq!(first_spread_guard(0, 3, 10), Some(LiveTurn::MoveCursor(3)));
    assert_eq!(first_spread_guard(0, 3, 3), Some(LiveTurn::Stay));
    assert_eq!(first_spread_guard(5, 3, 10), None);
    assert_eq!(back_turn_cursor(false, 20, 49, 21, 100, &dlg, &tr), 49);
    assert_eq!(back_turn_cursor(true, 20, 49, 21, 100, &dlg, &tr), 20);
    let none = vec![false; 100];
    assert_eq!(back_turn_cursor(false, 20, 49, 21, 100, &none, &tr), 21);
    assert_eq!(end_jump_cursor(false, 80, 99, 97, 100, &dlg, &tr), 99);
    assert_eq!(end_jump_cursor(false, 80, 99, 97, 100, &none, &tr), 97);
    assert_eq!(end_jump_cursor(true, 80, 99, 97, 100, &dlg, &tr), 80);
}

use linux_lit::navigation::{keep_jump_if_on_page, toggled_column_count};

#[test]
fn backward_jumps_stay_on_the_page() {
    let mut cur = 40usize;
    assert!(keep_jump_if_on_page(&mut cur, 10, Direction::Next, false));
    assert_eq!(cur, 40);
    let mut cur = 4usize;
    assert!(keep_jump_if_on_page(&mut cur, 10, Direction::Prev, true));
    assert_eq!(cur, 4);
    assert!(!keep_jump_if_on_page(&mut cur, 10, Direction::Prev, false));
    assert_eq!(cur, 10);
}

#[test]
fn column_toggle() {
    assert_eq!(toggled_column_count(true, true, 1), Some(2));
    assert_eq!(toggled_column_count(true, true, 2), Some(1));
    assert_eq!(toggled_column_count(true, true, 3), Some(1));
    assert_eq!(toggled_column_count(true, true, 0), Some(2));
    assert_eq!(toggled_column_count(false, true, 1), None);
    assert_eq!(toggled_column_count(true, false, 1), None);
}

use linux_lit::navigation::{next_scene_marker, prev_scene_target, prev_speaker_jump};

#[test]
fn prev_speaker_goes_to_the_block_top_first() {
    // A A [stage] B B A C C
    let v = sample();
    // Mid-block: the top of the current speech.
    assert_eq!(prev_speaker_jump(4, &v.0, &v.1), Some(3));
    assert_eq!(prev_speaker_jump(7, &v.0, &v.1), Some(6));
    // At the block top: the previous speaker's turn.
    assert_eq!(prev_speaker_jump(3, &v.0, &v.1), Some(0));
    assert_eq!(prev_speaker_jump(6, &v.0, &v.1), Some(5));
    assert_eq!(prev_speaker_jump(5, &v.0, &v.1), Some(3));
    // On the stage line: the previous turn.
    assert_eq!(prev_speaker_jump(2, &v.0, &v.1), Some(0));
    // The first speech's top has nowhere to go.
    assert_eq!(prev_speaker_jump(0, &v.0, &v.1), None);
    assert_eq!(prev_speaker_jump(1, &v.0, &v.1), Some(0));
}

#[test]
fn scene_markers_forward_and_back() {
    // 0 Act 1 | 1 Scene 1 | 2 dlg | 3 dlg | 4 Scene 2 | 5 dlg | 6 Act 2 | 7 Scene 1 | 8 dlg
    let markers = [true, true, false, false, true, false, true, true, false];
    let first: Vec<Option<usize>> = vec![Some(2), Some(2), Some(2), Some(3), Some(5), Some(5), Some(8), Some(8), Some(8)];
    assert_eq!(next_scene_marker(&markers, 2, 9), Some(4));
    assert_eq!(next_scene_marker(&markers, 4, 9), Some(6));
    assert_eq!(next_scene_marker(&markers, 7, 9), None);
    assert_eq!(next_scene_marker(&markers, 12, 9), None);
    // From Act 2 Scene 1's dialogue, the previous scene is Scene 2 (the Act 2
    // header shares its first dialogue with Scene 1 and is passed over).
    assert_eq!(prev_scene_target(&markers, &first, 8, 2), Some((4, 5)));
    // From Scene 2's dialogue: Scene 1 (not the Act 1 header: nearest first).
    assert_eq!(prev_scene_target(&markers, &first, 5, 2), Some((1, 2)));
    // From the first scene's dialogue there is none.
    assert_eq!(prev_scene_target(&markers, &first, 2, 2), None);
    // A landing before the work's first dialogue is refused.
    assert_eq!(prev_scene_target(&markers, &first, 5, 3), None);
}

use linux_lit::navigation::{next_chapter_target, prev_chapter_target};

#[test]
fn prose_chapter_jumps() {
    // Front matter 0..3, chapter headings at 3 and 10 (subtitle lines 4 and 11).
    let mut ch = vec![false; 20];
    ch[3] = true;
    ch[10] = true;
    // Inside chapter 2: its heading.
    assert_eq!(prev_chapter_target(&ch, 15), Some(10));
    // On chapter 2's subtitle line or heading: the previous chapter.
    assert_eq!(prev_chapter_target(&ch, 11), Some(3));
    assert_eq!(prev_chapter_target(&ch, 10), Some(3));
    // From chapter 1's heading, or in the front matter: the work's start.
    assert_eq!(prev_chapter_target(&ch, 3), Some(0));
    assert_eq!(prev_chapter_target(&ch, 2), Some(0));
    assert_eq!(prev_chapter_target(&ch, 0), None);
    // Past the end of the flags.
    assert_eq!(prev_chapter_target(&ch, 50), Some(10));
    // A work without chapters: nothing.
    let none = vec![false; 20];
    assert_eq!(prev_chapter_target(&none, 15), None);
    // Forward.
    assert_eq!(next_chapter_target(&ch, 0, 20), Some(3));
    assert_eq!(next_chapter_target(&ch, 3, 20), Some(10));
    assert_eq!(next_chapter_target(&ch, 10, 20), None);
}

use linux_lit::navigation::sync_hold_after_landing;

#[test]
fn sync_holds_after_a_landing() {
    let now = 1_000_000u64;
    // No timestamp: hold until further notice.
    assert_eq!(sync_hold_after_landing(now, true, false, None), Some(now + 86_400_000));
    // Playing: a brief hold, which never shortens a longer live hold...
    assert_eq!(sync_hold_after_landing(now, true, true, None), Some(now + 500));
    assert_eq!(sync_hold_after_landing(now, true, true, Some(now + 5_000)), Some(now + 5_000));
    assert_eq!(sync_hold_after_landing(now, true, true, Some(now + 100)), Some(now + 500));
    // ...but a stale indefinite hold is replaced.
    assert_eq!(sync_hold_after_landing(now, true, true, Some(now + 86_400_000)), Some(now + 500));
    // Paused: until further notice, never shortened.
    assert_eq!(sync_hold_after_landing(now, false, true, None), Some(now + 86_400_000));
    assert_eq!(sync_hold_after_landing(now, false, true, Some(now + 90_000_000)), Some(now + 90_000_000));
}

use linux_lit::navigation::prose_cursor_step;

#[test]
fn prose_cursor_steps_over_stanza_gaps() {
    // 0 text | 1 gap | 2 gap | 3 text | 4 text
    let gap = [false, true, true, false, false];
    assert_eq!(prose_cursor_step(5, 0, true, &gap), Some(3));
    assert_eq!(prose_cursor_step(5, 3, false, &gap), Some(0));
    assert_eq!(prose_cursor_step(5, 3, true, &gap), Some(4));
    assert_eq!(prose_cursor_step(5, 4, true, &gap), None);
    assert_eq!(prose_cursor_step(5, 0, false, &gap), None);
    // A gap run at the end stops at the last line.
    let tail = [false, true, true];
    assert_eq!(prose_cursor_step(3, 0, true, &tail), Some(2));
}

use linux_lit::navigation::prose_page_landing;

#[test]
fn prose_page_landings() {
    // 0 heading | 1 para | 2 blank | 3 para | 4 para
    let dlg = [false, true, false, true, true];
    // A page that starts at a line's top lands on that line.
    assert_eq!(prose_page_landing(1, 0, None, &dlg, 5), 1);
    // A page that starts inside line 1 lands on the first full paragraph.
    assert_eq!(prose_page_landing(1, 40, None, &dlg, 5), 3);
    assert_eq!(prose_page_landing(1, 40, Some(3), &dlg, 5), 3);
    // An over-tall straddler filling the page keeps the cursor on it.
    assert_eq!(prose_page_landing(1, 40, Some(2), &dlg, 5), 1);
    // Past the last dialogue line: clamped to the buffer.
    assert_eq!(prose_page_landing(4, 40, None, &dlg, 5), 4);
    assert_eq!(prose_page_landing(9, 0, None, &dlg, 5), 4);
}

use linux_lit::navigation::{next_act_target, prev_act_target};

#[test]
fn act_jumps() {
    let acts = [5usize, 120, 300];
    assert_eq!(prev_act_target(&acts, 200), Some(120));
    assert_eq!(prev_act_target(&acts, 120), Some(5));
    assert_eq!(prev_act_target(&acts, 5), None);
    assert_eq!(next_act_target(&acts, 120), Some(300));
    assert_eq!(next_act_target(&acts, 0), Some(5));
    assert_eq!(next_act_target(&acts, 300), None);
}

use linux_lit::navigation::chapter_title;

fn lines(v: &[&str]) -> Vec<String> {
    v.iter().map(|s| s.to_string()).collect()
}

#[test]
fn chapter_titles() {
    let texts = lines(&[
        "BLEAK HOUSE",
        "  PREFACE  ",
        "",
        "CHAPTER I",
        "In Chancery",
        "London.",
        "CHAPTER II",
        "In Fashion",
    ]);
    let breaks = [3usize, 6];
    // After a break: that break's trimmed text.
    assert_eq!(chapter_title(&breaks, &texts, 5, "Bleak House"), "CHAPTER I");
    assert_eq!(chapter_title(&breaks, &texts, 6, "Bleak House"), "CHAPTER II");
    assert_eq!(chapter_title(&breaks, &texts, 40, "Bleak House"), "CHAPTER II");
    // Before the first break with no heading-like line above: the title.
    assert_eq!(chapter_title(&breaks, &texts, 2, "Bleak House"), "Bleak House");
    // An unmarked opening chapter: the nearest heading-like line, any case.
    let texts2 = lines(&["Front", "Chapter the First", "text", "Part Two", "more", "CHAPTER III"]);
    assert_eq!(chapter_title(&[5], &texts2, 2, "W"), "Chapter the First");
    assert_eq!(chapter_title(&[5], &texts2, 4, "W"), "Part Two");
    assert_eq!(chapter_title(&[], &lines(&["x", "A PART OF IT"]), 1, "W"), "A PART OF IT");
    assert_eq!(chapter_title(&[], &lines(&["x", "Apart"]), 1, "W"), "W");
}

use linux_lit::navigation::first_dialogue_line;

#[test]
fn first_dialogue_lines() {
    assert_eq!(first_dialogue_line(&[false, false, true, true]), 2);
    assert_eq!(first_dialogue_line(&[true]), 0);
    assert_eq!(first_dialogue_line(&[false, false]), 0);
    assert_eq!(first_dialogue_line(&[]), 0);
}
