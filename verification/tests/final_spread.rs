use linux_lit::final_spread::{
    fallback_last_top, last_section_top, scene_snap_top, single_column_last_top, CanonicalAsk,
    CanonicalWalk, FinalSpreadWalk, WalkAsk,
};

fn dialogue_until(n: usize, total: usize) -> Vec<bool> {
    (0..total).map(|i| i < n).collect()
}

#[test]
fn final_walk_pulls_forward_at_a_lone_tail() {
    let dlg = dialogue_until(95, 100);
    let mut w = FinalSpreadWalk::new(100, false);
    assert_eq!(w.ask(), WalkAsk::NextPageTop(0));
    assert_eq!(w.feed_next(40), WalkAsk::EmptyRight(40));
    assert_eq!(w.feed_empty(false), WalkAsk::NextPageTop(40));
    assert_eq!(w.feed_next(80), WalkAsk::EmptyRight(80));
    // The page at 80 would empty its right column and the chain ends there.
    assert_eq!(w.feed_empty(true), WalkAsk::ChainEndAt(80));
    assert_eq!(w.feed_next_of_next(100, &dlg), WalkAsk::SplitAt(41));
    for t in 41..45 {
        // Dialogue remains below these candidates' spreads.
        assert_eq!(w.feed_split(90, false, &dlg), WalkAsk::SplitAt(t + 1));
    }
    assert_eq!(w.feed_split(100, false, &dlg), WalkAsk::Done(45));
}

#[test]
fn final_walk_passes_a_mid_work_scene_opening() {
    let dlg = dialogue_until(100, 100);
    let mut w = FinalSpreadWalk::new(100, false);
    w.feed_next(40);
    // The page at 40 empties its right column, but dialogue remains and the
    // chain goes on: walk past it.
    w.feed_empty(true);
    assert_eq!(w.feed_next_of_next(70, &dlg), WalkAsk::NextPageTop(40));
    assert_eq!(w.last_full, Some(0));
    assert_eq!(w.feed_next(70), WalkAsk::EmptyRight(70));
    assert_eq!(w.feed_empty(false), WalkAsk::NextPageTop(70));
    // End of the chain: the last full top.
    assert_eq!(w.feed_next(100), WalkAsk::Done(70));
}

#[test]
fn final_walk_without_a_pull_keeps_the_last_full_top() {
    let dlg = dialogue_until(100, 100);
    let mut w = FinalSpreadWalk::new(100, false);
    w.feed_next(50);
    w.feed_empty(true);
    assert_eq!(w.feed_next_of_next(50, &dlg), WalkAsk::SplitAt(1));
    for _ in 1..49 {
        w.feed_split(100, true, &dlg);
    }
    assert_eq!(w.feed_split(100, true, &dlg), WalkAsk::Done(0));
}

#[test]
fn single_column_final_top() {
    assert_eq!(single_column_last_top(&[10, 10, 10, 10], 25, 4), 2);
    assert_eq!(single_column_last_top(&[10, 10, 10, 10], 100, 4), 0);
    // The last line is always shown, however tall.
    assert_eq!(single_column_last_top(&[10, 10, 10, 50], 25, 4), 3);
    // No height for the last line: stop there.
    assert_eq!(single_column_last_top(&[10], 25, 4), 3);
}

#[test]
fn other_final_tops() {
    assert_eq!(last_section_top(&[true, false, false, true, false], 5), 3);
    assert_eq!(last_section_top(&[false, false], 2), 0);
    assert_eq!(fallback_last_top(100, 30, 2), 40);
    assert_eq!(fallback_last_top(10, 30, 2), 0);
}

#[test]
fn canonical_walk_finds_the_containing_page() {
    let mut w = CanonicalWalk::new(55, 40, 100);
    assert_eq!(w.feed(50, 60), CanonicalAsk::PageAt(60));
    assert_eq!(w.feed(90, 100), CanonicalAsk::Done(60));
    // A start past the target is clamped to it.
    let w = CanonicalWalk::new(10, 40, 100);
    assert_eq!(w.top, 10);
    // A chain that stops advancing keeps its top.
    let mut w = CanonicalWalk::new(80, 0, 100);
    assert_eq!(w.feed(30, 0), CanonicalAsk::Done(0));
}

#[test]
fn scene_snap_moves_a_right_column_scene_to_the_top() {
    let mut dlg = vec![false; 100];
    for d in dlg.iter_mut().skip(33) {
        *d = true;
    }
    dlg[10] = true;
    let mut section = vec![false; 100];
    section[31] = true;
    assert_eq!(scene_snap_top(true, false, 0, 30, 60, 100, false, &dlg, &section), Some(30));
    // Not on anthologies, in one column, or when the right column would empty.
    assert_eq!(scene_snap_top(true, true, 0, 30, 60, 100, false, &dlg, &section), None);
    assert_eq!(scene_snap_top(false, false, 0, 30, 60, 100, false, &dlg, &section), None);
    assert_eq!(scene_snap_top(true, false, 0, 30, 60, 100, true, &dlg, &section), None);
    // A boundary past the spread's end: no snap.
    assert_eq!(scene_snap_top(true, false, 0, 30, 30, 100, false, &dlg, &section), None);
    // No section start before the right column's first dialogue: no snap.
    section[31] = false;
    assert_eq!(scene_snap_top(true, false, 0, 30, 60, 100, false, &dlg, &section), None);
    // The right column opening on the marker line itself.
    section[30] = true;
    let dlg2: Vec<bool> = (0..100).map(|i| i >= 30).collect();
    assert_eq!(scene_snap_top(true, false, 0, 30, 60, 100, false, &dlg2, &section), Some(30));
}
