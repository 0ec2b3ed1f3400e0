use linux_lit::page_table::{
    active_page_table, check_spreads, fingerprint_string, generation_step, load_allowed,
    page_for_line, page_rows, resnap_to_table, resolve_rows, revalidate_on_resize, spends_attempt, TableSlot,
    spread_for_top, table_end_for_top, table_top_for, unsnap_top, validate_spreads, violation_message,
    ColumnSplit, FingerprintParts, GenerationStep, PageRow, RecordStep, Spread, SpreadRecorder,
    SpreadViolation, TableGate, ValidateCtx,
};

fn ctx<'a>(heights: &'a [i32], dlg: &'a [bool]) -> ValidateCtx<'a> {
    ValidateCtx {
        line_count: heights.len(),
        is_dialogue: dlg,
        section_starts: None,
        heights,
        usable_height: 30,
    }
}

fn ok_spreads() -> Vec<Spread> {
    vec![
        Spread { left_start: 0, split: Some(3), end: 5 },
        Spread { left_start: 6, split: Some(9), end: 9 },
    ]
}

#[test]
fn a_top_inside_a_spread_resolves_to_that_spread() {
    let s = ok_spreads();
    assert_eq!(spread_for_top(&s, 0).map(|x| x.end), Some(5));
    assert_eq!(spread_for_top(&s, 6).map(|x| x.end), Some(9));
    assert!(spread_for_top(&s, 3).is_none());
    let contained = page_for_line(&s, 3).and_then(|i| s.get(i)).copied();
    assert_eq!(contained.map(|x| (x.left_start, x.end)), Some((0, 5)));
}

#[test]
fn valid_table_passes() {
    let h = vec![10; 10];
    let d = vec![true; 10];
    assert!(validate_spreads(&ok_spreads(), &ctx(&h, &d)).is_ok());
}

#[test]
fn gap_between_pages_fails_coverage() {
    let h = vec![10; 15];
    let d = vec![true; 15];
    let s = vec![
        Spread { left_start: 0, split: Some(3), end: 5 },
        Spread { left_start: 7, split: Some(9), end: 9 },
        Spread { left_start: 10, split: Some(13), end: 14 },
    ];
    let c = ValidateCtx {
        line_count: h.len(),
        is_dialogue: &d,
        section_starts: None,
        heights: &h,
        usable_height: 30,
    };
    let err = validate_spreads(&s, &c).unwrap_err();
    assert!(err.contains("coverage"), "got: {err}");
}

#[test]
fn non_dialogue_gap_between_pages_passes() {
    let h = vec![10; 10];
    let mut d = vec![true; 10];
    d[6] = false;
    let s = vec![
        Spread { left_start: 0, split: Some(3), end: 5 },
        Spread { left_start: 7, split: Some(9), end: 9 },
    ];
    assert!(validate_spreads(&s, &ctx(&h, &d)).is_ok());
}

#[test]
fn tail_not_reached_fails() {
    let h = vec![10; 10];
    let d = vec![true; 10];
    let s = vec![Spread { left_start: 0, split: Some(3), end: 5 }];
    let err = validate_spreads(&s, &ctx(&h, &d)).unwrap_err();
    assert!(err.contains("tail"), "got: {err}");
}

#[test]
fn overfull_column_fails_fit() {
    let mut h = vec![10; 10];
    h[1] = 25;
    let d = vec![true; 10];
    let err = validate_spreads(&ok_spreads(), &ctx(&h, &d)).unwrap_err();
    assert!(err.contains("fit"), "got: {err}");
}

#[test]
fn disordered_split_fails_sanity() {
    let h = vec![10; 10];
    let d = vec![true; 10];
    let s = vec![
        Spread { left_start: 0, split: Some(7), end: 5 },
        Spread { left_start: 6, split: Some(9), end: 9 },
    ];
    let err = validate_spreads(&s, &ctx(&h, &d)).unwrap_err();
    assert!(err.contains("sanity"), "got: {err}");
}

#[test]
fn empty_right_requires_section_start_next() {
    let h = vec![10; 10];
    let d = vec![true; 10];
    let mut ss = vec![false; 10];
    let s = vec![
        Spread { left_start: 0, split: None, end: 2 },
        Spread { left_start: 3, split: Some(5), end: 6 },
        Spread { left_start: 7, split: Some(9), end: 9 },
    ];
    let c1 = ValidateCtx {
        line_count: h.len(),
        is_dialogue: &d,
        section_starts: Some(&ss),
        heights: &h,
        usable_height: 30,
    };
    assert!(validate_spreads(&s, &c1).unwrap_err().contains("watermark"));
    ss[3] = true;
    let c2 = ValidateCtx {
        line_count: h.len(),
        is_dialogue: &d,
        section_starts: Some(&ss),
        heights: &h,
        usable_height: 30,
    };
    assert!(validate_spreads(&s, &c2).is_ok());
}

#[test]
fn page_for_line_finds_containing_page() {
    let s = ok_spreads();
    assert_eq!(page_for_line(&s, 0), Some(0));
    assert_eq!(page_for_line(&s, 5), Some(0));
    assert_eq!(page_for_line(&s, 6), Some(1));
    assert_eq!(page_for_line(&s, 9), Some(1));
    assert_eq!(page_for_line(&s, 10), None);
}

#[test]
fn final_page_may_overlap_predecessor() {
    let h = vec![10; 10];
    let mut d = vec![true; 10];
    d[9] = false;
    let s = vec![
        Spread { left_start: 0, split: Some(2), end: 4 },
        Spread { left_start: 3, split: Some(6), end: 8 },
    ];
    assert!(validate_spreads(&s, &ctx(&h, &d)).is_ok(), "final-pair overlap must be exempt");

    let s_interior = vec![
        Spread { left_start: 0, split: Some(2), end: 4 },
        Spread { left_start: 3, split: Some(4), end: 4 },
        Spread { left_start: 5, split: Some(8), end: 9 },
    ];
    let c = ValidateCtx {
        line_count: h.len(),
        is_dialogue: &d,
        section_starts: None,
        heights: &h,
        usable_height: 30,
    };
    let err = validate_spreads(&s_interior, &c).unwrap_err();
    assert!(err.contains("coverage"), "got: {err}");
}

#[test]
fn overlap_lines_resolve_to_earlier_page() {
    let s = vec![
        Spread { left_start: 0, split: Some(3), end: 7 },
        Spread { left_start: 6, split: Some(9), end: 9 },
    ];
    assert_eq!(page_for_line(&s, 5), Some(0), "before overlap: page 0");
    assert_eq!(page_for_line(&s, 6), Some(1), "page 1's own top resolves to page 1");
    assert_eq!(page_for_line(&s, 7), Some(0), "in overlap, not a page top: prefer earlier page");
    assert_eq!(page_for_line(&s, 8), Some(1), "past overlap: page 1");
    assert_eq!(page_for_line(&s, 9), Some(1));
}

#[test]
fn fingerprint_is_stable_and_input_sensitive() {
    let p = FingerprintParts {
        font_family: "Charter".into(), font_size: 17,
        ascent: 16, descent: 5, char_width: 9,
        width: 1920, height: 1200, line_spacing: 6, text_margins: 24,
        columns: 2, top_spacer_height: 64, view_height: 1098,
    };
    let a = fingerprint_string(&p);
    assert_eq!(a, fingerprint_string(&p), "must be deterministic");
    assert!(a.starts_with("v5|"), "schema-versioned: {a}");
    let mut q = FingerprintParts { font_size: 18, ..p.clone() };
    assert_ne!(a, fingerprint_string(&q));
    q = FingerprintParts { descent: 6, font_size: 17, ..q };
    assert_ne!(a, fingerprint_string(&q));
    let taller = FingerprintParts { top_spacer_height: 80, ..p.clone() };
    assert_ne!(a, fingerprint_string(&taller), "spacer height must affect fp");
}

#[test]
fn view_height_change_invalidates_the_fingerprint() {
    let p = FingerprintParts {
        font_family: "Charter".into(), font_size: 16,
        ascent: 20, descent: 5, char_width: 9,
        width: 1920, height: 1200, line_spacing: 6, text_margins: 40,
        columns: 2, top_spacer_height: 74, view_height: 1098,
    };
    let shorter = FingerprintParts { view_height: 1071, ..p.clone() };
    assert_ne!(
        fingerprint_string(&p),
        fingerprint_string(&shorter),
        "a different view height must invalidate the stored table"
    );
}

// ---------------------------------------------------------------------------

#[test]
fn empty_table_is_a_coverage_violation() {
    let h = vec![10; 10];
    let d = vec![true; 10];
    assert_eq!(check_spreads(&[], &ctx(&h, &d)), Err(SpreadViolation::NoSpreads));
    let err = validate_spreads(&[], &ctx(&h, &d)).unwrap_err();
    assert!(err.starts_with("coverage"), "got: {err}");
}

#[test]
fn each_violation_kind_is_reported() {
    let h = vec![10; 10];
    let d = vec![true; 10];
    // A dialogue line stranded after the last page.
    let s = vec![Spread { left_start: 0, split: Some(3), end: 5 }];
    assert_eq!(check_spreads(&s, &ctx(&h, &d)), Err(SpreadViolation::Tail { line: 6, last_end: 5 }));
    // An end past the buffer.
    let s = vec![Spread { left_start: 0, split: Some(3), end: 12 }];
    assert!(matches!(check_spreads(&s, &ctx(&h, &d)), Err(SpreadViolation::EndOutside { page: 0, .. })));
    // A right column taller than the usable height.
    let s = vec![
        Spread { left_start: 0, split: Some(1), end: 5 },
        Spread { left_start: 6, split: Some(9), end: 9 },
    ];
    assert!(matches!(check_spreads(&s, &ctx(&h, &d)), Err(SpreadViolation::RightOverfull { page: 0, .. })));
    let err = validate_spreads(&s, &ctx(&h, &d)).unwrap_err();
    assert!(err.starts_with("fit"), "got: {err}");
    // The final page must start strictly after its predecessor.
    let s = vec![
        Spread { left_start: 0, split: Some(3), end: 5 },
        Spread { left_start: 0, split: Some(3), end: 9 },
    ];
    assert!(matches!(check_spreads(&s, &ctx(&h, &d)), Err(SpreadViolation::FinalNotAfter { page: 1, .. })));
}

#[test]
fn violation_message_names_its_family() {
    let h = vec![10; 10];
    let d = vec![true; 10];
    let c = ctx(&h, &d);
    let m = violation_message(&SpreadViolation::Tail { line: 6, last_end: 5 }, &c);
    assert!(m.starts_with("tail"), "got: {m}");
    let m = violation_message(&SpreadViolation::NoSpreads, &c);
    assert_eq!(m, "coverage: no spreads");
}

#[test]
fn gate_and_table_lookups() {
    let s = ok_spreads();
    let open = TableGate { disabled: false, translations_visible: false, column_count: 2, ereader: true };
    assert!(active_page_table(&open, Some(&s)).is_some());
    let one_col = TableGate { column_count: 1, ..open };
    assert!(active_page_table(&one_col, Some(&s)).is_none());
    let translated = TableGate { translations_visible: true, ..open };
    assert!(active_page_table(&translated, Some(&s)).is_none());
    assert_eq!(table_top_for(Some(&s), 4), Some(0));
    assert_eq!(table_top_for(Some(&s), 8), Some(6));
    assert_eq!(table_top_for(None, 8), None);
    assert_eq!(table_end_for_top(Some(&s), 6), Some(9));
    assert_eq!(table_end_for_top(Some(&s), 7), None);
}

#[test]
fn resnap_moves_an_off_grid_top_onto_the_grid() {
    let s = ok_spreads();
    // Off-grid top 2, cursor on line 7: the grid top is 6.
    assert_eq!(resnap_to_table(Some(&s), 2, 7), Some(6));
    // Already a stored top: nothing to do.
    assert_eq!(resnap_to_table(Some(&s), 6, 7), None);
    // Cursor past every page: nothing to do.
    assert_eq!(resnap_to_table(Some(&s), 2, 12), None);
    assert_eq!(resnap_to_table(None, 2, 7), None);
}

#[test]
fn resize_revalidates_only_on_a_changed_fingerprint() {
    let a = String::from("v5|x");
    let b = String::from("v5|y");
    let table = vec![Spread { left_start: 0, split: Some(3), end: 5 }];
    // A table loaded for layout `b`, resized to layout `a`: dropped, reload asked.
    let mut slot = TableSlot { table: Some(table.clone()), fp: b.clone() };
    assert!(revalidate_on_resize(&mut slot, &a));
    assert!(slot.table.is_none());
    assert_eq!(slot.fp, "");
    // The loader then installs the stored table for the new layout.
    slot.install(table.clone(), a.clone());
    assert_eq!(slot.fp, a);
    // Same layout: nothing changes.
    assert!(!revalidate_on_resize(&mut slot, &a));
    assert_eq!(slot.table.as_deref(), Some(&table[..]));
    // Nothing loaded: nothing to do.
    let mut empty = TableSlot { table: None, fp: b.clone() };
    assert!(!revalidate_on_resize(&mut empty, &a));
    assert_eq!(empty.fp, b);
}

#[test]
fn recorder_walks_the_chain_and_appends_the_anchor() {
    let mut rec = SpreadRecorder::new(10).unwrap();
    assert_eq!(rec.top(), 0);
    let step = rec.feed(ColumnSplit { split: 3, page_end: 5, next_page_top: 6 });
    assert_eq!(step, RecordStep::Next(6));
    assert_eq!(rec.top(), 6);
    let step = rec.feed(ColumnSplit { split: 8, page_end: 8, next_page_top: 9 });
    assert_eq!(step, RecordStep::Next(9));
    let step = rec.feed(ColumnSplit { split: 9, page_end: 9, next_page_top: 10 });
    assert_eq!(step, RecordStep::Finished);
    // The canonical final spread starts at 7: the trailing spread at 9 is
    // dropped, and the anchor spread may overlap the one at 6.
    let spreads = rec.finish(7, ColumnSplit { split: 9, page_end: 9, next_page_top: 10 });
    assert_eq!(
        spreads,
        vec![
            Spread { left_start: 0, split: Some(3), end: 5 },
            Spread { left_start: 6, split: Some(8), end: 8 },
            Spread { left_start: 7, split: Some(9), end: 9 },
        ]
    );
    assert!(SpreadRecorder::new(0).is_none());
}

#[test]
fn recorder_keeps_a_chain_that_ends_on_the_anchor() {
    let mut rec = SpreadRecorder::new(10).unwrap();
    assert_eq!(rec.feed(ColumnSplit { split: 3, page_end: 5, next_page_top: 6 }), RecordStep::Next(6));
    assert_eq!(rec.feed(ColumnSplit { split: 8, page_end: 9, next_page_top: 10 }), RecordStep::Finished);
    let spreads = rec.finish(6, ColumnSplit { split: 0, page_end: 0, next_page_top: 0 });
    assert_eq!(
        spreads,
        vec![
            Spread { left_start: 0, split: Some(3), end: 5 },
            Spread { left_start: 6, split: Some(8), end: 9 },
        ]
    );
}

#[test]
fn stored_rows_round_trip_through_ids() {
    let s = ok_spreads();
    let ids: Vec<Option<i64>> = (0..10).map(|i| Some(100 + i as i64)).collect();
    let blank = vec![false; 10];
    let (folded, rows) = page_rows(&s, &ids).unwrap();
    assert_eq!(folded, s);
    assert_eq!(
        rows[0],
        PageRow { page_no: 1, left_start_id: 100, split_id: Some(103), end_id: 105 }
    );
    assert_eq!(rows[1].page_no, 2);
    assert_eq!(resolve_rows(&rows, &ids, &blank), Some(s));
}

#[test]
fn page_without_mapped_lines_cannot_be_stored() {
    let s = ok_spreads();
    let mut ids: Vec<Option<i64>> = (0..10).map(|i| Some(i as i64)).collect();
    for k in 6..10 {
        ids[k] = None;
    }
    assert_eq!(page_rows(&s, &ids), Err(1));
}

#[test]
fn a_vanished_id_drops_the_stored_table() {
    let rows = vec![PageRow { page_no: 1, left_start_id: 1, split_id: None, end_id: 99 }];
    let ids: Vec<Option<i64>> = vec![Some(1), Some(2)];
    assert_eq!(resolve_rows(&rows, &ids, &[false, false]), None);
}

#[test]
fn unsnap_walks_back_over_the_unmapped_heading() {
    // Line 3 is the stored (snapped) top; lines 1..3 are an unmapped heading
    // block whose first line is blank.
    let ids = vec![Some(0), None, None, Some(3)];
    let blank = vec![false, true, false, false];
    assert_eq!(unsnap_top(&ids, &blank, 3), 2);
    let ids = vec![Some(0), Some(1), Some(2), Some(3)];
    assert_eq!(unsnap_top(&ids, &blank, 3), 3);
}

#[test]
fn generation_gate_order() {
    assert_eq!(generation_step(true, false, false, true, 2, false, false), GenerationStep::Disabled);
    assert_eq!(generation_step(false, false, true, true, 2, false, false), GenerationStep::AlreadyAttempted);
    assert_eq!(generation_step(false, false, false, false, 2, false, false), GenerationStep::NoWork);
    assert_eq!(generation_step(false, false, false, true, 1, false, false), GenerationStep::NotReady);
    assert_eq!(generation_step(false, false, false, true, 2, false, true), GenerationStep::AlreadyLoaded);
    assert_eq!(generation_step(false, true, false, true, 2, false, true), GenerationStep::Generate);
    assert!(!spends_attempt(GenerationStep::NotReady));
    assert!(spends_attempt(GenerationStep::Generate));
    assert!(load_allowed(false, true, 2));
    assert!(!load_allowed(false, true, 1));
}
