use linux_lit::overlay_search::{collect, step, OverlaySearch};

#[test]
fn collect_char_offsets_regex_and_literal() {
    let spans = collect("a fee and a fee simple", "fee");
    assert_eq!(spans, vec![(2, 5), (12, 15)]);
}

#[test]
fn collect_char_offsets_are_char_not_byte() {
    let spans = collect("\u{00e9} fee", "fee");
    assert_eq!(spans, vec![(2, 5)]);
}

#[test]
fn collect_smart_case_and_bad_regex_literal_fallback() {
    assert_eq!(collect("Fee fee", "fee").len(), 2);
    assert_eq!(collect("a ( b", "(").len(), 1);
}

#[test]
fn collect_empty_pattern_is_empty() {
    assert!(collect("anything", "").is_empty());
}

#[test]
fn step_clamps_no_wrap() {
    assert_eq!(step(0, 3, true), Some(1));
    assert_eq!(step(2, 3, true), None);
    assert_eq!(step(0, 3, false), None);
    assert_eq!(step(0, 0, true), None);
}

/// Char (start, len) span of each page in the whole-entry basis: paragraphs
/// joined by "\n\n". `page_ranges` are [start_para, end_para).
fn page_spans(paras: &[&str], page_ranges: &[(usize, usize)]) -> Vec<(usize, usize)> {
    let clen = |s: &str| s.chars().count();
    page_ranges
        .iter()
        .map(|&(ps, pe)| {
            let start: usize = paras[..ps].iter().map(|p| clen(p) + 2).sum();
            let mut len = 0usize;
            for (i, p) in paras[ps..pe].iter().enumerate() {
                if i > 0 {
                    len += 2;
                }
                len += clen(p);
            }
            (start, len)
        })
        .collect()
}

fn page_for_offset(spans: &[(usize, usize)], off: usize) -> usize {
    for (i, &(s, l)) in spans.iter().enumerate() {
        if off >= s && off < s + l {
            return i;
        }
    }
    spans.len().saturating_sub(1)
}

#[test]
fn whole_entry_len_equals_sum_of_page_spans_plus_joins() {
    let paras = ["Q: alpha beta", "gamma delta", "epsilon zeta", "eta theta"];
    let whole = paras.join("\n\n");
    let ranges = [(0usize, 2usize), (2usize, 4usize)];
    let spans = page_spans(&paras, &ranges);
    let sum_len: usize = spans.iter().map(|&(_, l)| l).sum();
    assert_eq!(whole.chars().count(), sum_len + 2 * (ranges.len() - 1));
}

#[test]
fn match_offset_maps_to_correct_page_and_local_substring() {
    let paras = ["Q: find the needle", "hay hay hay", "here is a needle again"];
    let whole = paras.join("\n\n");
    let ranges = [(0usize, 1usize), (1usize, 3usize)];
    let spans = page_spans(&paras, &ranges);

    let matches = collect(&whole, "needle");
    assert_eq!(matches.len(), 2);

    let page_body = |pi: usize| -> String {
        let (ps, pe) = ranges[pi];
        paras[ps..pe].join("\n\n")
    };
    for (mi, expect_page) in [(0usize, 0usize), (1usize, 1usize)] {
        let (a, _b) = matches[mi];
        let pi = page_for_offset(&spans, a as usize);
        assert_eq!(pi, expect_page, "match {mi} should be on page {expect_page}");
        let (pstart, _) = spans[pi];
        let local = a as usize - pstart;
        let body = page_body(pi);
        let slice: String = body.chars().skip(local).take(6).collect();
        assert_eq!(slice, "needle");
    }
}

#[test]
fn uppercase_pattern_is_case_sensitive() {
    // A pattern with an uppercase letter matches case-sensitively.
    assert_eq!(collect("Fee fee", "Fee"), vec![(0, 3)]);
}

#[test]
fn regex_pattern_is_a_regex() {
    // A valid pattern is a regular expression, not a literal.
    assert_eq!(collect("cat cot cut", "c.t"), vec![(0, 3), (4, 7), (8, 11)]);
}

#[test]
fn collect_offsets_after_multibyte_text() {
    // Offsets count chars: the wrapper's byte offsets are converted.
    assert_eq!(collect("\u{4e2d}\u{6587} ab ab", "ab"), vec![(3, 5), (6, 8)]);
}

#[test]
fn default_search_is_empty() {
    let s = OverlaySearch::default();
    assert!(s.pattern.is_empty());
    assert!(s.matches.is_empty());
    assert_eq!(s.current, 0);
}

#[test]
fn step_stays_within_the_matches() {
    // A stale index past the end never steps to another index outside the range.
    assert_eq!(step(5, 3, false), None);
    assert_eq!(step(3, 3, false), Some(2));
    assert_eq!(step(5, 3, true), None);
    assert_eq!(step(2, 3, false), Some(1));
}

#[test]
fn spans_come_in_document_order_without_overlap() {
    let spans = collect("aaaa b aa", "aa");
    assert_eq!(spans, vec![(0, 2), (2, 4), (7, 9)]);
    for w in spans.windows(2) {
        assert!(w[0].1 <= w[1].0);
    }
}
