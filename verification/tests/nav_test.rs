use linux_lit::nav_test::{
    all_coverage_steps, build_coverage_prelude, build_fuzz_script, build_script, count_failures,
    current_script, every_step, extend_random, judge_step, resolve_seed, Lcg, NavTestRun, Step,
    StepObservation, TickOutcome, Tiling, ToggleOutcome, DEFAULT_NAV_SEED, MAX_STEPS,
};

#[test]
fn jumps_only_script_shape() {
    let s = build_script();
    assert_eq!(s.len(), 28);
    assert!(s[..5].iter().all(|&st| st == Step::PageForward));
    assert_eq!(s[13], Step::NextScene);
    assert_eq!(s[27], Step::PageBackward);
}

#[test]
fn coverage_steps_are_ten() {
    let c = all_coverage_steps();
    assert_eq!(c.len(), 10);
    assert!(!c.contains(&Step::SyncAdvance));
    assert!(!c.contains(&Step::SearchJump));
    assert_eq!(every_step().len(), 12);
}

#[test]
fn coverage_prelude_layout() {
    let p = build_coverage_prelude();
    assert_eq!(p.len(), 4149);
    assert_eq!(&p[..4], &[Step::JumpTop, Step::PageForward, Step::JumpTop, Step::PageBackward]);
    assert_eq!(&p[20..22], &[Step::JumpEnd, Step::PageForward]);
    // Scene anchor 1: gg, one scene jump, then each action with a return.
    assert_eq!(&p[40..44], &[Step::JumpTop, Step::NextScene, Step::PageForward, Step::JumpTop]);
}

#[test]
fn fuzz_script_plays_the_whole_prelude_then_a_seeded_body() {
    let prelude = build_coverage_prelude();
    let a = build_fuzz_script(1);
    let b = build_fuzz_script(DEFAULT_NAV_SEED);
    assert_eq!(a.len(), MAX_STEPS);
    assert_eq!(b.len(), MAX_STEPS);
    assert!(prelude.len() < MAX_STEPS);
    assert_eq!(&a[..prelude.len()], &prelude[..]);
    assert_eq!(&b[..prelude.len()], &prelude[..]);
    // The bodies come from the seed: two seeds, two bodies; one seed, one body.
    assert_ne!(&a[prelude.len()..], &b[prelude.len()..]);
    assert_eq!(build_fuzz_script(1), a);
    assert!(a[prelude.len()..].iter().all(|&st| st != Step::SyncAdvance));
    assert_eq!(current_script(true, 1), a);
    assert_eq!(current_script(false, 7), build_script());
}

#[test]
fn random_body_fills_a_short_script() {
    let mut s = vec![Step::JumpTop];
    let mut rng = Lcg::new(42);
    extend_random(&mut s, &mut rng);
    assert!(s.len() >= MAX_STEPS);
    assert_eq!(s[0], Step::JumpTop);
    // Same seed, same body.
    let mut t = vec![Step::JumpTop];
    let mut rng2 = Lcg::new(42);
    extend_random(&mut t, &mut rng2);
    assert_eq!(s, t);
}

#[test]
fn lcg_matches_the_numerical_recipes_step() {
    let mut r = Lcg::new(0);
    let x = r.next_u32();
    assert_eq!(r.state, 1442695040888963407);
    assert_eq!(x, (1442695040888963407u64 >> 33) as u32);
    let mut r = Lcg::new(5);
    assert_eq!(r.below(0), 0);
    assert_eq!(r.state, 5);
    assert!(r.below(7) < 7);
}

#[test]
fn seed_parsing() {
    assert_eq!(resolve_seed(None), DEFAULT_NAV_SEED);
    assert_eq!(resolve_seed(Some("42")), 42);
    assert_eq!(resolve_seed(Some("  0xff \n")), 255);
    assert_eq!(resolve_seed(Some("0XFF")), 255);
    assert_eq!(resolve_seed(Some("+7")), 7);
    assert_eq!(resolve_seed(Some("0x")), DEFAULT_NAV_SEED);
    assert_eq!(resolve_seed(Some("-1")), DEFAULT_NAV_SEED);
    assert_eq!(resolve_seed(Some("12a")), DEFAULT_NAV_SEED);
    assert_eq!(resolve_seed(Some("18446744073709551615")), u64::MAX);
    assert_eq!(resolve_seed(Some("18446744073709551616")), DEFAULT_NAV_SEED);
    assert_eq!(resolve_seed(Some("\u{3000}9\u{a0}")), 9);
}

fn obs(step: Step) -> StepObservation {
    StepObservation {
        step,
        pre_top: 100,
        post_top: 100,
        pre_line: 105,
        post_line: 105,
        line_count: 1000,
        two_columns: true,
        has_work: true,
        is_play: true,
        loading: false,
        post_line_is_dialogue: true,
        split: 130,
        page_end: 160,
        next_page_top: 161,
        pre_next_page_top: 161,
        dialogue_after_page: true,
        last_visible: 160,
        canonical_end_top: 100,
        widget_height: 1000,
        content_height: 900,
    }
}

#[test]
fn verdicts_of_page_turns() {
    // A good forward turn.
    let o = StepObservation { post_top: 161, post_line: 162, pre_next_page_top: 161, ..obs(Step::PageForward) };
    let v = judge_step(&o, None);
    assert_eq!(count_failures(&v, o.step), 0);
    // A forward turn that did not advance.
    let o = StepObservation { post_line: 110, ..obs(Step::PageForward) };
    let v = judge_step(&o, None);
    assert!(v.forward_stalled);
    // Landing short of the old page's end.
    let o = StepObservation { post_top: 150, post_line: 150, pre_next_page_top: 161, ..obs(Step::PageForward) };
    assert_eq!(judge_step(&o, None).forward_overlap, Some(11));
    // A back turn that overlaps and one that leaves a gap.
    let o = StepObservation { post_top: 40, post_line: 41, next_page_top: 110, ..obs(Step::PageBackward) };
    assert_eq!(judge_step(&o, None).back_tiling, Tiling::Overlap(10));
    let o = StepObservation { post_top: 40, post_line: 41, next_page_top: 95, ..obs(Step::PageBackward) };
    assert_eq!(judge_step(&o, None).back_tiling, Tiling::Gap(5));
    // A back turn that moved forward.
    let o = StepObservation { post_top: 120, ..obs(Step::PageBackward) };
    assert!(judge_step(&o, None).went_forward);
    // The return check.
    let o = StepObservation { post_top: 40, next_page_top: 100, ..obs(Step::PageBackward) };
    assert_eq!(judge_step(&o, Some(50)).return_mismatch, Some((50, 40)));
}

#[test]
fn verdicts_of_layout_and_jumps() {
    let o = StepObservation { split: 150, page_end: 152, ..obs(Step::NextDialogue) };
    assert!(judge_step(&o, None).unbalanced);
    let o = StepObservation { content_height: 99, ..obs(Step::NextDialogue) };
    assert!(judge_step(&o, None).viewport_underfilled);
    let o = StepObservation { page_end: 129, ..obs(Step::NextDialogue) };
    assert!(judge_step(&o, None).right_empty);
    let o = StepObservation { split: 103, page_end: 105, ..obs(Step::NextDialogue) };
    assert!(judge_step(&o, None).left_underfilled);
    let o = StepObservation { post_line_is_dialogue: false, ..obs(Step::SearchJump) };
    let v = judge_step(&o, None);
    assert!(v.not_dialogue);
    assert_eq!(count_failures(&v, Step::SearchJump), 0);
    let o = StepObservation { post_top: 200, post_line: 300, last_visible: 260, ..obs(Step::NextScene) };
    assert!(judge_step(&o, None).landing_off_page);
    let o = StepObservation { post_top: 200, post_line: 210, last_visible: 260, canonical_end_top: 190, ..obs(Step::JumpEnd) };
    let v = judge_step(&o, None);
    assert!(v.end_not_at_end);
    assert!(v.end_not_idempotent);
    assert_eq!(count_failures(&v, Step::JumpEnd), 2);
}

#[test]
fn a_run_toggles_and_ticks() {
    let mut run = NavTestRun::new();
    assert_eq!(run.tick(), TickOutcome::Inactive);
    assert_eq!(run.toggle(12, false), ToggleOutcome::Started);
    let script = build_script();
    assert_eq!(run.next_delay(&script), Some(400));
    assert_eq!(run.tick(), TickOutcome::RunStep);
    let st = run.begin_step(&script, 12);
    assert_eq!(st, Step::PageForward);
    assert_eq!(run.expect_return, None);
    let o = StepObservation { post_top: 100, ..obs(Step::PageForward) };
    let _ = run.finish_step(&o);
    assert_eq!(run.step, 1);
    run.note_failure();
    assert_eq!(run.failures, 1);
    assert_eq!(run.toggle(0, false), ToggleOutcome::Stopped { steps: 1, failures: 1 });
    assert_eq!(run.tick(), TickOutcome::Inactive);
}

#[test]
fn return_expectation_is_recorded_before_a_back_turn() {
    // PageForward followed by PageBackward records the origin.
    let script = vec![Step::PageForward, Step::PageBackward];
    let mut run = NavTestRun::new();
    run.toggle(0, false);
    assert_eq!(run.begin_step(&script, 50), Step::PageForward);
    assert_eq!(run.expect_return, Some(50));
    // ...but the back turn's own begin clears it, so it is never checked.
    let o = StepObservation { pre_top: 50, post_top: 80, post_line: 81, pre_next_page_top: 80, ..obs(Step::PageForward) };
    run.finish_step(&o);
    assert_eq!(run.begin_step(&script, 80), Step::PageBackward);
    assert_eq!(run.expect_return, None);
}

#[test]
fn a_finished_run_completes() {
    let mut run = NavTestRun::new();
    run.toggle(0, true);
    run.step = MAX_STEPS;
    assert_eq!(run.next_delay(&build_script()), None);
    assert_eq!(run.tick(), TickOutcome::Completed { steps: MAX_STEPS, failures: 0 });
    assert!(!run.active);
}

#[test]
fn sync_advance_waits_a_second() {
    assert_eq!(Step::SyncAdvance.delay_ms(), 1000);
    assert_eq!(Step::JumpEnd.delay_ms(), 400);
    assert!(Step::JumpEnd.in_coverage());
    assert!(!Step::SearchJump.in_coverage());
}

#[test]
fn one_random_block_follows_the_draws() {
    // One step short of a full run: exactly one block is appended.
    let mut s = vec![Step::JumpTop; MAX_STEPS - 1];
    let mut rng = Lcg::new(7);
    extend_random(&mut s, &mut rng);
    let block = &s[MAX_STEPS - 1..];
    // Replay the draws by hand.
    let mut r = Lcg::new(7);
    let motifs: [&[Step]; 8] = [
        &[Step::JumpEnd, Step::PageForward, Step::PageForward, Step::PageForward],
        &[Step::JumpEnd, Step::PageBackward, Step::PageBackward, Step::PageBackward],
        &[Step::JumpTop, Step::PageForward, Step::PageForward, Step::PageForward],
        &[Step::JumpTop, Step::PageBackward, Step::PageBackward],
        &[Step::JumpEnd, Step::JumpEnd, Step::JumpTop, Step::JumpTop],
        &[Step::JumpEnd, Step::PrevDialogue, Step::PrevDialogue, Step::NextDialogue, Step::NextDialogue],
        &[Step::JumpEnd, Step::PageBackward, Step::PageForward],
        &[Step::NextScene, Step::NextScene, Step::JumpEnd, Step::PageBackward, Step::PageForward],
    ];
    let setups = [
        Step::PageForward, Step::PageForward, Step::NextScene, Step::PrevScene,
        Step::NextChapter, Step::PrevChapter, Step::JumpEnd, Step::JumpTop,
        Step::NextDialogue, Step::NextDialogue, Step::NextDialogue,
        Step::PrevDialogue, Step::PrevDialogue, Step::SearchJump,
    ];
    let mut expected: Vec<Step> = Vec::new();
    if r.below(4) == 0 {
        expected.extend_from_slice(motifs[r.below(8) as usize]);
    } else {
        let n = 1 + r.below(4);
        for _ in 0..n {
            expected.push(setups[r.below(14) as usize]);
        }
        expected.push(Step::PageBackward);
        if r.below(3) == 0 {
            expected.push(Step::PageBackward);
        }
    }
    assert_eq!(block, &expected[..]);
    assert_eq!(rng, r);
}
