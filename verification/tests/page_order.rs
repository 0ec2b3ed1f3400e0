use linux_lit::navigation::{
    apply_forward_move, back_stack_step, commit_forward_turn, page_backward_plan,
    page_forward_plan, prune_back_stack, BackStep, LiveTurn, PageMove, ReadingView, TableTurn,
};

#[test]
fn forward_does_nothing_when_not_ready() {
    let m = page_forward_plan(
        false,
        Some(TableTurn::Turn { top: 10, cursor: 11 }),
        100,
        None,
        None,
        None,
        None,
        None,
        Some(LiveTurn::Turn { top: 20, cursor: 21 }),
    );
    assert_eq!(m, PageMove::Stay);
}

#[test]
fn forward_stored_table_decides_alone() {
    let m = page_forward_plan(
        true,
        Some(TableTurn::Turn { top: 10, cursor: 11 }),
        100,
        Some(LiveTurn::MoveCursor(5)),
        Some(LiveTurn::Turn { top: 30, cursor: 31 }),
        None,
        None,
        None,
        Some(LiveTurn::Turn { top: 20, cursor: 21 }),
    );
    assert_eq!(m, PageMove::Turn { top: 10, offset: 0, cursor: 11 });
}

#[test]
fn forward_empty_buffer_stays() {
    let m = page_forward_plan(
        true,
        None,
        0,
        Some(LiveTurn::MoveCursor(5)),
        None,
        None,
        None,
        None,
        Some(LiveTurn::JumpToEnd),
    );
    assert_eq!(m, PageMove::Stay);
}

#[test]
fn forward_rules_apply_in_order() {
    let natural = Some(LiveTurn::Turn { top: 20, cursor: 21 });
    let overtall = Some(PageMove::Turn { top: 4, offset: 300, cursor: 4 });
    let row_fill = Some(PageMove::Turn { top: 8, offset: 0, cursor: 9 });
    let prose = Some(PageMove::Turn { top: 12, offset: 0, cursor: 12 });
    let snap = Some(LiveTurn::Turn { top: 15, cursor: 16 });
    let guard = Some(LiveTurn::MoveCursor(7));
    assert_eq!(
        page_forward_plan(true, None, 50, guard, snap, prose, row_fill, overtall, natural),
        PageMove::MoveCursor(7)
    );
    assert_eq!(
        page_forward_plan(true, None, 50, None, snap, prose, row_fill, overtall, natural),
        PageMove::Turn { top: 15, offset: 0, cursor: 16 }
    );
    assert_eq!(
        page_forward_plan(true, None, 50, None, None, prose, row_fill, overtall, natural),
        PageMove::Turn { top: 12, offset: 0, cursor: 12 }
    );
    assert_eq!(
        page_forward_plan(true, None, 50, None, None, None, row_fill, overtall, natural),
        PageMove::Turn { top: 8, offset: 0, cursor: 9 }
    );
    assert_eq!(
        page_forward_plan(true, None, 50, None, None, None, None, overtall, natural),
        PageMove::Turn { top: 4, offset: 300, cursor: 4 }
    );
    assert_eq!(
        page_forward_plan(true, None, 50, None, None, None, None, None, natural),
        PageMove::Turn { top: 20, offset: 0, cursor: 21 }
    );
    assert_eq!(
        page_forward_plan(true, None, 50, None, None, None, None, None, Some(LiveTurn::JumpToEnd)),
        PageMove::JumpToEnd
    );
    assert_eq!(
        page_forward_plan(true, None, 50, None, None, None, None, None, None),
        PageMove::Stay
    );
}

#[test]
fn backward_rules_apply_in_order() {
    let table = Some(TableTurn::MoveCursor(3));
    let prose = Some(PageMove::Turn { top: 2, offset: 0, cursor: 2 });
    let guard = Some(LiveTurn::MoveCursor(1));
    assert_eq!(page_backward_plan(false, table, prose, guard), Some(PageMove::Stay));
    assert_eq!(page_backward_plan(true, table, prose, guard), Some(PageMove::MoveCursor(3)));
    assert_eq!(
        page_backward_plan(true, None, prose, guard),
        Some(PageMove::Turn { top: 2, offset: 0, cursor: 2 })
    );
    assert_eq!(page_backward_plan(true, None, None, guard), Some(PageMove::MoveCursor(1)));
    assert_eq!(page_backward_plan(true, None, None, None), None);
}

#[test]
fn commit_pushes_the_left_position() {
    let mut stack = vec![(3usize, 0i32)];
    commit_forward_turn(&mut stack, 10, 40);
    assert_eq!(stack, vec![(3, 0), (10, 40)]);
}

#[test]
fn forward_turn_then_back_returns_to_the_same_page() {
    let mut view = ReadingView { top: 10, offset: 0, cursor: 12 };
    let mut stack = vec![(2usize, 0i32)];
    let end = apply_forward_move(&mut view, &mut stack, PageMove::Turn { top: 30, offset: 0, cursor: 31 });
    assert!(!end);
    assert_eq!(view, ReadingView { top: 30, offset: 0, cursor: 31 });
    assert_eq!(stack, vec![(2, 0), (10, 0)]);
    assert_eq!(back_stack_step(&mut stack, view.top, view.offset), BackStep::Turn { top: 10 });
    assert_eq!(stack, vec![(2, 0)]);
}

#[test]
fn over_tall_step_then_back_restores_the_offset() {
    let mut view = ReadingView { top: 7, offset: 100, cursor: 7 };
    let mut stack: Vec<(usize, i32)> = Vec::new();
    apply_forward_move(&mut view, &mut stack, PageMove::Turn { top: 7, offset: 700, cursor: 7 });
    assert_eq!(stack, vec![(7, 100)]);
    assert_eq!(
        back_stack_step(&mut stack, view.top, view.offset),
        BackStep::Restore { line: 7, offset: 100 }
    );
    assert!(stack.is_empty());
}

#[test]
fn cursor_moves_and_end_jumps_leave_the_stack_alone() {
    let mut view = ReadingView { top: 10, offset: 0, cursor: 12 };
    let mut stack = vec![(2usize, 0i32)];
    assert!(!apply_forward_move(&mut view, &mut stack, PageMove::MoveCursor(15)));
    assert_eq!(view, ReadingView { top: 10, offset: 0, cursor: 15 });
    assert!(apply_forward_move(&mut view, &mut stack, PageMove::JumpToEnd));
    assert!(!apply_forward_move(&mut view, &mut stack, PageMove::Stay));
    assert_eq!(view, ReadingView { top: 10, offset: 0, cursor: 15 });
    assert_eq!(stack, vec![(2, 0)]);
}

#[test]
fn prune_drops_entries_at_or_after_the_target() {
    let mut stack = vec![(1usize, 0i32), (5, 0), (9, 10), (9, 30), (12, 0)];
    prune_back_stack(&mut stack, 9, 10);
    assert_eq!(stack, vec![(1, 0), (5, 0)]);
    let mut keep = vec![(1usize, 0i32), (5, 0)];
    prune_back_stack(&mut keep, 9, 0);
    assert_eq!(keep, vec![(1, 0), (5, 0)]);
    let mut all = vec![(20usize, 0i32)];
    prune_back_stack(&mut all, 3, 0);
    assert!(all.is_empty());
}
