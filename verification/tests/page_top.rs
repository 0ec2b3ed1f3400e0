use linux_lit::page_top::PageTop;

#[test]
fn at_line_start_carries_no_offset() {
    let t = PageTop::at_line_start(42);
    assert_eq!(t.line(), 42);
    assert_eq!(t.offset(), 0);
    assert!(t.is_line_aligned());
}

#[test]
fn new_round_trips_a_pinned_boundary() {
    let t = PageTop::new(42, 603);
    assert_eq!((t.line(), t.offset()), (42, 603));
    assert!(!t.is_line_aligned(), "a mid-paragraph page is not line-aligned");
    assert_ne!(t, PageTop::at_line_start(42));
}

#[test]
fn default_is_the_document_start() {
    assert_eq!(PageTop::default(), PageTop::at_line_start(0));
}

#[test]
fn equality_uses_both_halves() {
    assert_eq!(PageTop::new(42, 603), PageTop::new(42, 603));
    assert_ne!(PageTop::new(42, 603), PageTop::new(42, 0));
    assert_ne!(PageTop::new(42, 603), PageTop::new(43, 603));
}

#[test]
fn negative_offset_is_not_line_aligned() {
    let t = PageTop::new(7, -3);
    assert_eq!(t.offset(), -3);
    assert!(!t.is_line_aligned());
}
