//! Stored page tables: the spread type, the invariant suite that a table must
//! pass before it is stored, the line -> page lookup the navigation reads, the
//! layout fingerprint that keys a stored table, and the pure decisions around
//! recording, storing, loading and consuming a table. Buffer-line space; a
//! spread's `end` is inclusive.

use vstd::prelude::*;
use crate::text::{
    decimal_int, decimal_nat, is_digit, lemma_decimal_int_chars, lemma_decimal_int_injective,
    lemma_decimal_nat_digits, lemma_decimal_nat_injective, list_text, push_decimal_i128,
    push_decimal_u128, push_list, str_eq,
};

verus! {

/// One two-column spread of the page table.
#[derive(Debug, Clone, Copy, PartialEq, Eq, Structural)]
pub struct Spread {
    pub left_start: usize,
    /// First line of the right column; `None` = empty right (watermark spread).
    pub split: Option<usize>,
    pub end: usize,
}

/// What the invariant suite reads about the buffer the table was built for.
pub struct ValidateCtx<'a> {
    pub line_count: usize,
    pub is_dialogue: &'a [bool],
    pub section_starts: Option<&'a [bool]>,
    /// Per-buffer-line pixel heights, measured at the layout the table is for.
    pub heights: &'a [i32],
    /// The usable column height at that layout.
    pub usable_height: i32,
}

/// The first violated invariant of a page table. `page` is the 0-based index
/// of the offending spread.
#[derive(Debug, Clone, Copy, PartialEq, Eq, Structural)]
pub enum SpreadViolation {
    /// coverage: the table is empty.
    NoSpreads,
    /// coverage: the final page does not start strictly after its predecessor.
    FinalNotAfter { page: usize, start: usize, prev_start: usize },
    /// coverage: the final page ends before its predecessor's end.
    FinalRegresses { page: usize, end: usize, prev_end: usize },
    /// coverage: a page starts before the previous page ended.
    StartsBeforePrevious { page: usize, start: usize, expect_start: usize },
    /// coverage: a dialogue line falls between two pages.
    DialogueInGap { page: usize, line: usize },
    /// sanity: the split lies outside `[left_start, end + 1]`.
    SplitOutside { page: usize, split: usize, left_start: usize, end: usize },
    /// sanity: the end lies outside `[left_start, line_count)`.
    EndOutside { page: usize, end: usize, left_start: usize, line_count: usize },
    /// watermark: an empty right column whose next page does not open a section.
    Watermark { page: usize, top: usize, end: usize, next_top: usize },
    /// fit: the left column is taller than the usable height.
    LeftOverfull { page: usize, from: usize, to: usize, sum: i128, usable: i32 },
    /// fit: the right column is taller than the usable height.
    RightOverfull { page: usize, from: usize, to: usize, sum: i128, usable: i32 },
    /// tail: a dialogue line lies past the last page.
    Tail { line: usize, last_end: usize },
}

// ---------------------------------------------------------------------------
// Specification of the invariant suite
// ---------------------------------------------------------------------------

/// `flags[j]`, reading out-of-range indices as `false`.
pub open spec fn flag_at(flags: Seq<bool>, j: int) -> bool {
    0 <= j < flags.len() && flags[j]
}

/// Whether line `j` opens a section; no bitmap means no section starts.
pub open spec fn section_at(ss: Option<Seq<bool>>, j: int) -> bool {
    match ss {
        Some(s) => flag_at(s, j),
        None => false,
    }
}

/// The section bitmap of a context, as a sequence.
pub open spec fn ctx_sections<'a>(ctx: ValidateCtx<'a>) -> Option<Seq<bool>> {
    match ctx.section_starts {
        Some(s) => Some(s@),
        None => None,
    }
}

/// The first index in `[lo, hi)` whose flag is set.
pub open spec fn first_flag(flags: Seq<bool>, lo: int, hi: int) -> Option<int>
    decreases hi - lo,
{
    if lo >= hi {
        None
    } else if flag_at(flags, lo) {
        Some(lo)
    } else {
        first_flag(flags, lo + 1, hi)
    }
}

/// Sum of `h[a..e)`.
pub open spec fn sum_heights(h: Seq<i32>, a: int, e: int) -> int
    decreases e - a,
{
    if e <= a {
        0
    } else {
        sum_heights(h, a, e - 1) + h[e - 1] as int
    }
}

/// One past the previous page's end (0 for the first page).
pub open spec fn expect_start(spreads: Seq<Spread>, i: int) -> int {
    if i == 0 {
        0
    } else {
        spreads[i - 1].end + 1
    }
}

/// The coverage check of page `i`.
pub open spec fn coverage_violation<'a>(spreads: Seq<Spread>, ctx: ValidateCtx<'a>, i: int) -> Option<SpreadViolation> {
    let s = spreads[i];
    if i == spreads.len() - 1 && i > 0 {
        let prev = spreads[i - 1];
        if !(s.left_start > prev.left_start) {
            Some(SpreadViolation::FinalNotAfter { page: i as usize, start: s.left_start, prev_start: prev.left_start })
        } else if !(s.end >= prev.end) {
            Some(SpreadViolation::FinalRegresses { page: i as usize, end: s.end, prev_end: prev.end })
        } else {
            None
        }
    } else {
        let e = expect_start(spreads, i);
        if s.left_start < e {
            Some(SpreadViolation::StartsBeforePrevious { page: i as usize, start: s.left_start, expect_start: e as usize })
        } else {
            match first_flag(ctx.is_dialogue@, e, s.left_start as int) {
                Some(j) => Some(SpreadViolation::DialogueInGap { page: i as usize, line: j as usize }),
                None => None,
            }
        }
    }
}

/// The sanity, watermark and fit checks of page `i`, in that order.
pub open spec fn shape_violation<'a>(spreads: Seq<Spread>, ctx: ValidateCtx<'a>, i: int) -> Option<SpreadViolation> {
    let s = spreads[i];
    if s.split is Some && !(s.left_start <= s.split->0 && s.split->0 <= s.end + 1) {
        Some(SpreadViolation::SplitOutside { page: i as usize, split: s.split->0, left_start: s.left_start, end: s.end })
    } else if s.end < s.left_start || s.end >= ctx.line_count {
        Some(SpreadViolation::EndOutside { page: i as usize, end: s.end, left_start: s.left_start, line_count: ctx.line_count })
    } else if s.split is None && i + 1 < spreads.len()
        && !section_at(ctx_sections(ctx), spreads[i + 1].left_start as int) {
        Some(SpreadViolation::Watermark { page: i as usize, top: s.left_start, end: s.end, next_top: spreads[i + 1].left_start })
    } else {
        fit_violation(spreads, ctx, i)
    }
}

/// The last line of the left column (for a sane spread).
pub open spec fn left_end(s: Spread) -> int {
    match s.split {
        Some(sp) => if sp > s.left_start { sp - 1 } else { s.left_start as int },
        None => s.end as int,
    }
}

/// Whether the left column holds lines to be measured.
pub open spec fn left_measured(s: Spread) -> bool {
    left_end(s) >= s.left_start && s.split != Some(s.left_start)
}

/// Whether the right column holds lines (`split <= end`).
pub open spec fn right_measured(s: Spread) -> bool {
    s.split is Some && s.split->0 <= s.end
}

/// The fit check of page `i`.
pub open spec fn fit_violation<'a>(spreads: Seq<Spread>, ctx: ValidateCtx<'a>, i: int) -> Option<SpreadViolation> {
    let s = spreads[i];
    let h = ctx.heights@;
    let lsum = sum_heights(h, s.left_start as int, left_end(s) + 1);
    if left_measured(s) && lsum > ctx.usable_height {
        Some(SpreadViolation::LeftOverfull { page: i as usize, from: s.left_start, to: left_end(s) as usize, sum: lsum as i128, usable: ctx.usable_height })
    } else if right_measured(s) && sum_heights(h, s.split->0 as int, s.end + 1) > ctx.usable_height {
        Some(SpreadViolation::RightOverfull { page: i as usize, from: s.split->0, to: s.end, sum: sum_heights(h, s.split->0 as int, s.end + 1) as i128, usable: ctx.usable_height })
    } else {
        None
    }
}

/// The first violated invariant of page `i`: coverage, sanity, watermark, fit.
pub open spec fn page_violation<'a>(spreads: Seq<Spread>, ctx: ValidateCtx<'a>, i: int) -> Option<SpreadViolation> {
    match coverage_violation(spreads, ctx, i) {
        Some(v) => Some(v),
        None => shape_violation(spreads, ctx, i),
    }
}

/// The first violation among pages `i..`.
pub open spec fn first_page_violation<'a>(spreads: Seq<Spread>, ctx: ValidateCtx<'a>, i: int) -> Option<SpreadViolation>
    decreases spreads.len() - i,
{
    if i >= spreads.len() || i < 0 {
        None
    } else {
        match page_violation(spreads, ctx, i) {
            Some(v) => Some(v),
            None => first_page_violation(spreads, ctx, i + 1),
        }
    }
}

/// The verdict of the invariant suite: the FIRST violated invariant, in page
/// order (and, within a page, coverage, sanity, watermark, fit), then the tail.
pub open spec fn table_verdict<'a>(spreads: Seq<Spread>, ctx: ValidateCtx<'a>) -> Result<(), SpreadViolation> {
    if spreads.len() == 0 {
        Err(SpreadViolation::NoSpreads)
    } else {
        match first_page_violation(spreads, ctx, 0) {
            Some(v) => Err(v),
            None => {
                let last_end = spreads.last().end;
                match first_flag(ctx.is_dialogue@, last_end + 1, ctx.line_count as int) {
                    Some(j) => Err(SpreadViolation::Tail { line: j as usize, last_end }),
                    None => Ok(()),
                }
            }
        }
    }
}

// ---------------------------------------------------------------------------
// Executable invariant suite
// ---------------------------------------------------------------------------

/// `flags[j]`, out-of-range read as `false`.
fn flag(flags: &[bool], j: usize) -> (r: bool)
    ensures
        r == flag_at(flags@, j as int),
{
    j < flags.len() && flags[j]
}

/// The first index in `[lo, hi)` whose flag is set.
fn first_flag_in(flags: &[bool], lo: usize, hi: usize) -> (r: Option<usize>)
    ensures
        r == (match first_flag(flags@, lo as int, hi as int) {
            Some(j) => Some(j as usize),
            None => None::<usize>,
        }),
        r matches Some(j) ==> lo <= j < hi,
{
    let mut j = lo;
    while j < hi
        invariant
            lo <= j,
            j <= hi || j == lo,
            first_flag(flags@, lo as int, hi as int) == first_flag(flags@, j as int, hi as int),
        decreases hi - j,
    {
        if flag(flags, j) {
            return Some(j);
        }
        j += 1;
    }
    None
}

proof fn lemma_sum_bound(h: Seq<i32>, a: int, e: int)
    requires
        a <= e,
    ensures
        -(e - a) * 0x8000_0000 <= sum_heights(h, a, e) <= (e - a) * 0x8000_0000,
    decreases e - a,
{
    if e > a {
        lemma_sum_bound(h, a, e - 1);
    }
}

/// Sum of `heights[a..=b]`, exactly.
fn column_sum(heights: &[i32], a: usize, b: usize) -> (r: i128)
    requires
        a <= b,
        b < heights@.len(),
    ensures
        r == sum_heights(heights@, a as int, b + 1),
{
    let mut sum: i128 = 0;
    let mut j = a;
    while j <= b
        invariant
            a <= j <= b + 1,
            b < heights@.len(),
            sum == sum_heights(heights@, a as int, j as int),
        decreases b + 1 - j,
    {
        proof {
            lemma_sum_bound(heights@, a as int, j as int);
            assert((j - a) * 0x8000_0000 <= 0x1_0000_0000_0000_0000 * 0x8000_0000) by (nonlinear_arith)
                requires
                    j - a <= 0x1_0000_0000_0000_0000,
            ;
        }
        sum = sum + heights[j] as i128;
        j += 1;
    }
    sum
}

/// The coverage check of page `i`.
fn check_coverage(spreads: &[Spread], ctx: &ValidateCtx, i: usize, expect: usize) -> (r: Option<SpreadViolation>)
    requires
        i < spreads@.len(),
        expect == expect_start(spreads@, i as int),
    ensures
        r == coverage_violation(spreads@, *ctx, i as int),
{
    let s = spreads[i];
    if i == spreads.len() - 1 && i > 0 {
        let prev = spreads[i - 1];
        if !(s.left_start > prev.left_start) {
            return Some(SpreadViolation::FinalNotAfter { page: i, start: s.left_start, prev_start: prev.left_start });
        }
        if !(s.end >= prev.end) {
            return Some(SpreadViolation::FinalRegresses { page: i, end: s.end, prev_end: prev.end });
        }
        None
    } else {
        if s.left_start < expect {
            return Some(SpreadViolation::StartsBeforePrevious { page: i, start: s.left_start, expect_start: expect });
        }
        match first_flag_in(ctx.is_dialogue, expect, s.left_start) {
            Some(j) => Some(SpreadViolation::DialogueInGap { page: i, line: j }),
            None => None,
        }
    }
}

/// The fit check of page `i` (sanity already passed).
fn check_fit(spreads: &[Spread], ctx: &ValidateCtx, i: usize) -> (r: Option<SpreadViolation>)
    requires
        i < spreads@.len(),
        spreads@[i as int].end < ctx.heights@.len(),
        spreads@[i as int].left_start <= spreads@[i as int].end < ctx.line_count,
        spreads@[i as int].split matches Some(sp) ==> spreads@[i as int].left_start <= sp <= spreads@[i as int].end + 1,
    ensures
        r == fit_violation(spreads@, *ctx, i as int),
{
    let s = spreads[i];
    let (le, right): (usize, Option<(usize, usize)>) = match s.split {
        Some(sp) => {
            let le = if sp > s.left_start { sp - 1 } else { s.left_start };
            if sp <= s.end { (le, Some((sp, s.end))) } else { (le, None) }
        },
        None => (s.end, None),
    };
    let left_on = le >= s.left_start && s.split != Some(s.left_start);
    if left_on {
        let sum = column_sum(ctx.heights, s.left_start, le);
        if sum > ctx.usable_height as i128 {
            return Some(SpreadViolation::LeftOverfull { page: i, from: s.left_start, to: le, sum, usable: ctx.usable_height });
        }
    }
    match right {
        Some((a, b)) => {
            let sum = column_sum(ctx.heights, a, b);
            if sum > ctx.usable_height as i128 {
                return Some(SpreadViolation::RightOverfull { page: i, from: a, to: b, sum, usable: ctx.usable_height });
            }
            None
        },
        None => None,
    }
}

/// Sanity, watermark and fit checks of page `i`.
fn check_shape(spreads: &[Spread], ctx: &ValidateCtx, i: usize) -> (r: Option<SpreadViolation>)
    requires
        i < spreads@.len(),
        heights_cover(spreads@, *ctx),
    ensures
        r == shape_violation(spreads@, *ctx, i as int),
{
    let s = spreads[i];
    if let Some(sp) = s.split {
        if !(s.left_start <= sp && (sp as u128) <= (s.end as u128) + 1) {
            return Some(SpreadViolation::SplitOutside { page: i, split: sp, left_start: s.left_start, end: s.end });
        }
    }
    if s.end < s.left_start || s.end >= ctx.line_count {
        return Some(SpreadViolation::EndOutside { page: i, end: s.end, left_start: s.left_start, line_count: ctx.line_count });
    }
    if s.split.is_none() && i + 1 < spreads.len() {
        let next_top = spreads[i + 1].left_start;
        let opens = match ctx.section_starts {
            Some(ss) => flag(ss, next_top),
            None => false,
        };
        if !opens {
            return Some(SpreadViolation::Watermark { page: i, top: s.left_start, end: s.end, next_top });
        }
    }
    assert(spreads@[i as int].end < ctx.heights@.len());
    check_fit(spreads, ctx, i)
}

/// Every check of page `i`, in order.
fn check_page(spreads: &[Spread], ctx: &ValidateCtx, i: usize, expect: usize) -> (r: Option<SpreadViolation>)
    requires
        i < spreads@.len(),
        expect == expect_start(spreads@, i as int),
        heights_cover(spreads@, *ctx),
    ensures
        r == page_violation(spreads@, *ctx, i as int),
{
    match check_coverage(spreads, ctx, i, expect) {
        Some(v) => Some(v),
        None => check_shape(spreads, ctx, i),
    }
}

/// The per-line heights cover the lines of every spread that lies within
/// the buffer: the lines whose heights the fit check sums. (An empty table
/// needs none.)
pub open spec fn heights_cover<'a>(spreads: Seq<Spread>, ctx: ValidateCtx<'a>) -> bool {
    forall|i: int| 0 <= i < spreads.len() && (#[trigger] spreads[i]).end < ctx.line_count
        ==> spreads[i].end < ctx.heights@.len()
}

/// The invariant suite. Returns the FIRST violated invariant.
///
/// Requires the per-line heights to cover the lines the fit check sums.
pub fn check_spreads(spreads: &[Spread], ctx: &ValidateCtx) -> (r: Result<(), SpreadViolation>)
    requires
        heights_cover(spreads@, *ctx),
    ensures
        r == table_verdict(spreads@, *ctx),
{
    let n = spreads.len();
    if n == 0 {
        return Err(SpreadViolation::NoSpreads);
    }
    let mut expect: usize = 0;
    let mut i: usize = 0;
    while i < n
        invariant
            n == spreads@.len(),
            n > 0,
            i <= n,
            heights_cover(spreads@, *ctx),
            expect == expect_start(spreads@, i as int),
            first_page_violation(spreads@, *ctx, 0) == first_page_violation(spreads@, *ctx, i as int),
            i > 0 ==> spreads@[i - 1].end < ctx.line_count,
        decreases n - i,
    {
        match check_page(spreads, ctx, i, expect) {
            Some(v) => {
                return Err(v);
            },
            None => {},
        }
        expect = spreads[i].end + 1;
        i += 1;
    }
    let last_end = spreads[n - 1].end;
    match first_flag_in(ctx.is_dialogue, last_end + 1, ctx.line_count) {
        Some(j) => Err(SpreadViolation::Tail { line: j, last_end }),
        None => Ok(()),
    }
}

// ---------------------------------------------------------------------------
// Violation messages
// ---------------------------------------------------------------------------

/// Decimal text of a natural number given as an integer.
pub open spec fn dn(n: int) -> Seq<char> {
    decimal_nat(n as nat)
}

/// The lines in `[lo, hi)` whose flag is set, in order.
pub open spec fn flagged_in(flags: Seq<bool>, lo: int, hi: int) -> Seq<usize>
    decreases hi - lo,
{
    if hi <= lo {
        Seq::empty()
    } else if flag_at(flags, hi - 1) {
        flagged_in(flags, lo, hi - 1).push((hi - 1) as usize)
    } else {
        flagged_in(flags, lo, hi - 1)
    }
}

/// Section-start lines near a watermark failure: from two lines above the
/// page end to six lines past the next top (clamped to the buffer).
pub open spec fn nearby_sections<'a>(ctx: ValidateCtx<'a>, end: int, next_top: int) -> Seq<usize> {
    let lo = if end >= 2 { end - 2 } else { 0 };
    let hi = if next_top + 6 < ctx.line_count { next_top + 6 } else { ctx.line_count as int };
    match ctx_sections(ctx) {
        Some(ss) => flagged_in(ss, lo, hi),
        None => Seq::empty(),
    }
}

/// The diagnostic text of a violation: `"<invariant>: <details>"`.
pub open spec fn violation_text<'a>(v: SpreadViolation, ctx: ValidateCtx<'a>) -> Seq<char> {
    match v {
        SpreadViolation::NoSpreads => "coverage: no spreads"@,
        SpreadViolation::FinalNotAfter { page, start, prev_start } =>
            "coverage: final page "@ + dn(page + 1) + " starts at "@ + dn(start as int)
                + " but must be strictly after page "@ + dn(page as int) + "'s start "@ + dn(prev_start as int),
        SpreadViolation::FinalRegresses { page, end, prev_end } =>
            "coverage: final page "@ + dn(page + 1) + " ends at "@ + dn(end as int)
                + " which regresses page "@ + dn(page as int) + "'s end "@ + dn(prev_end as int),
        SpreadViolation::StartsBeforePrevious { page, start, expect_start } =>
            "coverage: page "@ + dn(page + 1) + " starts at "@ + dn(start as int)
                + " but previous page ended at "@ + dn(if expect_start > 0 { expect_start - 1 } else { 0 }),
        SpreadViolation::DialogueInGap { page, line } =>
            "coverage: dialogue line "@ + dn(line as int) + " falls between page "@ + dn(page as int)
                + " and page "@ + dn(page + 1),
        SpreadViolation::SplitOutside { page, split, left_start, end } =>
            "sanity: page "@ + dn(page + 1) + " split "@ + dn(split as int) + " outside ["@
                + dn(left_start as int) + ", "@ + dn(end + 1) + "]"@,
        SpreadViolation::EndOutside { page, end, left_start, line_count } =>
            "sanity: page "@ + dn(page + 1) + " end "@ + dn(end as int) + " outside ["@
                + dn(left_start as int) + ", "@ + dn(line_count as int) + ")"@,
        SpreadViolation::Watermark { page, top, end, next_top } =>
            "watermark: page "@ + dn(page + 1) + " has an empty right column but page "@ + dn(page + 2)
                + " does not open a section (top="@ + dn(top as int) + " end="@ + dn(end as int)
                + " next_top="@ + dn(next_top as int) + " section_starts_nearby="@
                + list_text(nearby_sections(ctx, end as int, next_top as int)) + ")"@,
        SpreadViolation::LeftOverfull { page, from, to, sum, usable } =>
            "fit: page "@ + dn(page + 1) + " left column "@ + dn(from as int) + "..="@ + dn(to as int)
                + " sums to "@ + decimal_int(sum as int) + " > usable "@ + decimal_int(usable as int),
        SpreadViolation::RightOverfull { page, from, to, sum, usable } =>
            "fit: page "@ + dn(page + 1) + " right column "@ + dn(from as int) + "..="@ + dn(to as int)
                + " sums to "@ + decimal_int(sum as int) + " > usable "@ + decimal_int(usable as int),
        SpreadViolation::Tail { line, last_end } =>
            "tail: dialogue line "@ + dn(line as int) + " lies past the last page (end "@
                + dn(last_end as int) + ")"@,
    }
}

/// Append `lit` to `s`.
fn put(s: &mut String, lit: &str)
    ensures
        final(s)@ == old(s)@ + lit@,
{
    s.append(lit);
}

/// Append the decimal text of `n`.
fn put_n(s: &mut String, n: u128)
    ensures
        final(s)@ == old(s)@ + dn(n as int),
{
    push_decimal_u128(s, n);
}

/// The lines in `[lo, hi)` whose flag is set.
fn flagged_lines(flags: &[bool], lo: usize, hi: usize) -> (r: Vec<usize>)
    ensures
        r@ == flagged_in(flags@, lo as int, hi as int),
{
    let mut v: Vec<usize> = Vec::new();
    let mut j = lo;
    if hi <= lo {
        return v;
    }
    while j < hi
        invariant
            lo <= j <= hi,
            v@ == flagged_in(flags@, lo as int, j as int),
        decreases hi - j,
    {
        if flag(flags, j) {
            v.push(j);
        }
        j += 1;
    }
    v
}

/// The diagnostic text of a violation.
pub fn violation_message(v: &SpreadViolation, ctx: &ValidateCtx) -> (r: String)
    ensures
        r@ == violation_text(*v, *ctx),
{
    let mut s = String::new();
    let ghost s0 = s@;
    match *v {
        SpreadViolation::NoSpreads => {
            put(&mut s, "coverage: no spreads");
        },
        SpreadViolation::FinalNotAfter { page, start, prev_start } => {
            put(&mut s, "coverage: final page ");
            put_n(&mut s, page as u128 + 1);
            put(&mut s, " starts at ");
            put_n(&mut s, start as u128);
            put(&mut s, " but must be strictly after page ");
            put_n(&mut s, page as u128);
            put(&mut s, "'s start ");
            put_n(&mut s, prev_start as u128);
        },
        SpreadViolation::FinalRegresses { page, end, prev_end } => {
            put(&mut s, "coverage: final page ");
            put_n(&mut s, page as u128 + 1);
            put(&mut s, " ends at ");
            put_n(&mut s, end as u128);
            put(&mut s, " which regresses page ");
            put_n(&mut s, page as u128);
            put(&mut s, "'s end ");
            put_n(&mut s, prev_end as u128);
        },
        SpreadViolation::StartsBeforePrevious { page, start, expect_start } => {
            put(&mut s, "coverage: page ");
            put_n(&mut s, page as u128 + 1);
            put(&mut s, " starts at ");
            put_n(&mut s, start as u128);
            put(&mut s, " but previous page ended at ");
            put_n(&mut s, if expect_start > 0 { expect_start as u128 - 1 } else { 0 });
        },
        SpreadViolation::DialogueInGap { page, line } => {
            put(&mut s, "coverage: dialogue line ");
            put_n(&mut s, line as u128);
            put(&mut s, " falls between page ");
            put_n(&mut s, page as u128);
            put(&mut s, " and page ");
            put_n(&mut s, page as u128 + 1);
        },
        SpreadViolation::SplitOutside { page, split, left_start, end } => {
            put(&mut s, "sanity: page ");
            put_n(&mut s, page as u128 + 1);
            put(&mut s, " split ");
            put_n(&mut s, split as u128);
            put(&mut s, " outside [");
            put_n(&mut s, left_start as u128);
            put(&mut s, ", ");
            put_n(&mut s, end as u128 + 1);
            put(&mut s, "]");
        },
        SpreadViolation::EndOutside { page, end, left_start, line_count } => {
            put(&mut s, "sanity: page ");
            put_n(&mut s, page as u128 + 1);
            put(&mut s, " end ");
            put_n(&mut s, end as u128);
            put(&mut s, " outside [");
            put_n(&mut s, left_start as u128);
            put(&mut s, ", ");
            put_n(&mut s, line_count as u128);
            put(&mut s, ")");
        },
        SpreadViolation::Watermark { page, top, end, next_top } => {
            put(&mut s, "watermark: page ");
            put_n(&mut s, page as u128 + 1);
            put(&mut s, " has an empty right column but page ");
            put_n(&mut s, page as u128 + 2);
            put(&mut s, " does not open a section (top=");
            put_n(&mut s, top as u128);
            put(&mut s, " end=");
            put_n(&mut s, end as u128);
            put(&mut s, " next_top=");
            put_n(&mut s, next_top as u128);
            put(&mut s, " section_starts_nearby=");
            let lo = if end >= 2 { end - 2 } else { 0 };
            let hi = if next_top < ctx.line_count && ctx.line_count - next_top > 6 { next_top + 6 } else { ctx.line_count };
            let near: Vec<usize> = match ctx.section_starts {
                Some(ss) => flagged_lines(ss, lo, hi),
                None => Vec::new(),
            };
            push_list(&mut s, &near);
            put(&mut s, ")");
        },
        SpreadViolation::LeftOverfull { page, from, to, sum, usable } => {
            put(&mut s, "fit: page ");
            put_n(&mut s, page as u128 + 1);
            put(&mut s, " left column ");
            put_n(&mut s, from as u128);
            put(&mut s, "..=");
            put_n(&mut s, to as u128);
            put(&mut s, " sums to ");
            push_decimal_i128(&mut s, sum);
            put(&mut s, " > usable ");
            push_decimal_i128(&mut s, usable as i128);
        },
        SpreadViolation::RightOverfull { page, from, to, sum, usable } => {
            put(&mut s, "fit: page ");
            put_n(&mut s, page as u128 + 1);
            put(&mut s, " right column ");
            put_n(&mut s, from as u128);
            put(&mut s, "..=");
            put_n(&mut s, to as u128);
            put(&mut s, " sums to ");
            push_decimal_i128(&mut s, sum);
            put(&mut s, " > usable ");
            push_decimal_i128(&mut s, usable as i128);
        },
        SpreadViolation::Tail { line, last_end } => {
            put(&mut s, "tail: dialogue line ");
            put_n(&mut s, line as u128);
            put(&mut s, " lies past the last page (end ");
            put_n(&mut s, last_end as u128);
            put(&mut s, ")");
        },
    }
    proof {
        assert(s0 =~= Seq::<char>::empty());
        assert(s@ =~= violation_text(*v, *ctx));
    }
    s
}

/// The invariant suite with its diagnostic: `Err("<invariant>: <details>")`
/// for the FIRST violated invariant (coverage, sanity, watermark, fit per
/// page, then tail), `Ok(())` when the table passes.
///
/// Requires the per-line heights to cover the lines the fit check sums (an
/// empty table needs none).
pub fn validate_spreads(spreads: &[Spread], ctx: &ValidateCtx) -> (r: Result<(), String>)
    requires
        heights_cover(spreads@, *ctx),
    ensures
        r is Ok <==> table_verdict(spreads@, *ctx) is Ok,
        r matches Err(m) ==> (table_verdict(spreads@, *ctx) matches Err(v) && m@ == violation_text(v, *ctx)),
{
    match check_spreads(spreads, ctx) {
        Ok(()) => Ok(()),
        Err(v) => Err(violation_message(&v, ctx)),
    }
}

// ---------------------------------------------------------------------------
// Line -> page lookup
// ---------------------------------------------------------------------------

/// Page tops never decrease along the table.
pub open spec fn tops_sorted(spreads: Seq<Spread>) -> bool {
    forall|a: int, b: int| 0 <= a <= b < spreads.len() ==> spreads[a].left_start <= spreads[b].left_start
}

/// The first page from `k` on whose top lies past `line` (or the table length).
pub open spec fn first_top_after(spreads: Seq<Spread>, line: int, k: int) -> int
    decreases spreads.len() - k,
{
    if k >= spreads.len() || k < 0 {
        spreads.len() as int
    } else if spreads[k].left_start > line {
        k
    } else {
        first_top_after(spreads, line, k + 1)
    }
}

/// The page `line` resolves to: the last page whose top is at or before
/// `line`, when `line` lies within it. A page's own top resolves to that page;
/// any other line in the overlap of two pages resolves to the EARLIER page.
pub open spec fn page_for_line_spec(spreads: Seq<Spread>, line: int) -> Option<int> {
    let idx = first_top_after(spreads, line, 0);
    if idx == 0 {
        None
    } else {
        let i = idx - 1;
        if !(line <= spreads[i].end) {
            None
        } else if spreads[i].left_start == line {
            Some(i)
        } else if i > 0 && line <= spreads[i - 1].end {
            Some(i - 1)
        } else {
            Some(i)
        }
    }
}

proof fn lemma_first_top_after(spreads: Seq<Spread>, line: int, p: int, k: int)
    requires
        0 <= k <= p <= spreads.len(),
        forall|j: int| 0 <= j < p ==> spreads[j].left_start <= line,
        p < spreads.len() ==> spreads[p].left_start > line,
    ensures
        first_top_after(spreads, line, k) == p,
    decreases p - k,
{
    if k < p {
        lemma_first_top_after(spreads, line, p, k + 1);
    }
}

/// The page whose `[left_start, end]` interval contains `line`; see
/// `page_for_line_spec` for which page wins inside an overlap. A table is
/// stored with its page tops in order; on a table out of order the page
/// found is some page whose end is at or after `line` (the binary search's
/// answer is then unspecified, as it is for `partition_point`).
pub fn page_for_line(spreads: &[Spread], line: usize) -> (r: Option<usize>)
    ensures
        tops_sorted(spreads@) ==> r == (match page_for_line_spec(spreads@, line as int) {
            Some(k) => Some(k as usize),
            None => None::<usize>,
        }),
        r matches Some(k) ==> k < spreads@.len() && line <= spreads@[k as int].end,
        tops_sorted(spreads@) ==> (r matches Some(k) ==> spreads@[k as int].left_start <= line),
        tops_sorted(spreads@) ==> (page_for_line_spec(spreads@, line as int) matches Some(k) ==> 0 <= k < spreads@.len()),
{
    let ghost sorted = tops_sorted(spreads@);
    let mut lo: usize = 0;
    let mut hi: usize = spreads.len();
    while lo < hi
        invariant
            0 <= lo <= hi <= spreads@.len(),
            sorted == tops_sorted(spreads@),
            sorted ==> forall|j: int| 0 <= j < lo ==> spreads@[j].left_start <= line,
            sorted ==> forall|j: int| hi <= j < spreads@.len() ==> spreads@[j].left_start > line,
        decreases hi - lo,
    {
        let mid = lo + (hi - lo) / 2;
        if spreads[mid].left_start <= line {
            lo = mid + 1;
        } else {
            hi = mid;
        }
    }
    proof {
        if sorted {
            lemma_first_top_after(spreads@, line as int, lo as int, 0);
        }
    }
    let idx = lo;
    if idx == 0 {
        return None;
    }
    let i = idx - 1;
    if !(line <= spreads[i].end) {
        return None;
    }
    if spreads[i].left_start == line {
        return Some(i);
    }
    if i > 0 && line <= spreads[i - 1].end {
        return Some(i - 1);
    }
    Some(i)
}

/// The first page whose top is exactly `top`.
pub open spec fn first_with_top(spreads: Seq<Spread>, top: int, k: int) -> Option<int>
    decreases spreads.len() - k,
{
    if k >= spreads.len() || k < 0 {
        None
    } else if spreads[k].left_start == top {
        Some(k)
    } else {
        first_with_top(spreads, top, k + 1)
    }
}

/// The spread whose top is exactly `top` (page tops are canonical).
pub fn spread_for_top(spreads: &[Spread], top: usize) -> (r: Option<&Spread>)
    ensures
        r == (match first_with_top(spreads@, top as int, 0) {
            Some(k) => Some(&spreads@[k]),
            None => None::<&Spread>,
        }),
{
    let mut k: usize = 0;
    while k < spreads.len()
        invariant
            k <= spreads@.len(),
            first_with_top(spreads@, top as int, 0) == first_with_top(spreads@, top as int, k as int),
        decreases spreads@.len() - k,
    {
        if spreads[k].left_start == top {
            return Some(&spreads[k]);
        }
        k += 1;
    }
    None
}

// ---------------------------------------------------------------------------
// Laws of a validated table
// ---------------------------------------------------------------------------

proof fn lemma_first_flag_none(flags: Seq<bool>, lo: int, hi: int)
    requires
        first_flag(flags, lo, hi) is None,
    ensures
        forall|j: int| lo <= j < hi ==> !flag_at(flags, j),
    decreases hi - lo,
{
    if lo < hi {
        lemma_first_flag_none(flags, lo + 1, hi);
    }
}

proof fn lemma_no_page_violation(spreads: Seq<Spread>, ctx: ValidateCtx, k: int)
    requires
        0 <= k,
        first_page_violation(spreads, ctx, k) is None,
    ensures
        forall|i: int| k <= i < spreads.len() ==> (#[trigger] page_violation(spreads, ctx, i)) is None,
    decreases spreads.len() - k,
{
    if k < spreads.len() {
        lemma_no_page_violation(spreads, ctx, k + 1);
    }
}

/// What a page that passes every check guarantees.
proof fn lemma_page_ok(spreads: Seq<Spread>, ctx: ValidateCtx, i: int)
    requires
        0 <= i < spreads.len(),
        page_violation(spreads, ctx, i) is None,
    ensures
        spreads[i].left_start <= spreads[i].end < ctx.line_count,
        i == spreads.len() - 1 && i > 0 ==> spreads[i].left_start > spreads[i - 1].left_start
            && spreads[i].end >= spreads[i - 1].end,
        !(i == spreads.len() - 1 && i > 0) ==> spreads[i].left_start >= expect_start(spreads, i)
            && forall|j: int| expect_start(spreads, i) <= j < spreads[i].left_start ==> !flag_at(ctx.is_dialogue@, j),
{
    if !(i == spreads.len() - 1 && i > 0) {
        lemma_first_flag_none(ctx.is_dialogue@, expect_start(spreads, i), spreads[i].left_start as int);
    }
}

/// In a table that passes the invariant suite, page tops strictly increase.
pub proof fn law_valid_table_tops_increase(spreads: Seq<Spread>, ctx: ValidateCtx)
    requires
        table_verdict(spreads, ctx) is Ok,
    ensures
        forall|a: int, b: int| 0 <= a < b < spreads.len() ==> spreads[a].left_start < spreads[b].left_start,
        tops_sorted(spreads),
{
    lemma_no_page_violation(spreads, ctx, 0);
    assert forall|i: int| 1 <= i < spreads.len() implies #[trigger] steps_up(spreads, i) by {
        assert(page_violation(spreads, ctx, i) is None);
        assert(page_violation(spreads, ctx, i - 1) is None);
        lemma_page_ok(spreads, ctx, i);
        lemma_page_ok(spreads, ctx, i - 1);
    }
    assert forall|a: int, b: int| 0 <= a < b < spreads.len() implies spreads[a].left_start < spreads[b].left_start by {
        lemma_chain_increases(spreads, a, b);
    }
}

proof fn lemma_chain_increases(spreads: Seq<Spread>, a: int, b: int)
    requires
        0 <= a < b < spreads.len(),
        forall|i: int| 1 <= i < spreads.len() ==> #[trigger] steps_up(spreads, i),
    ensures
        spreads[a].left_start < spreads[b].left_start,
    decreases b - a,
{
    if b - a > 1 {
        lemma_chain_increases(spreads, a, b - 1);
        assert(steps_up(spreads, b));
    } else {
        assert(steps_up(spreads, b));
    }
}

spec fn steps_up(spreads: Seq<Spread>, i: int) -> bool {
    spreads[i - 1].left_start < spreads[i].left_start
}

/// In a table that passes the invariant suite, a page's own top resolves to
/// that page — never to an earlier page that merely overlaps it.
pub proof fn law_page_top_resolves_to_its_page(spreads: Seq<Spread>, ctx: ValidateCtx, k: int)
    requires
        table_verdict(spreads, ctx) is Ok,
        0 <= k < spreads.len(),
    ensures
        page_for_line_spec(spreads, spreads[k].left_start as int) == Some(k),
{
    law_valid_table_tops_increase(spreads, ctx);
    lemma_no_page_violation(spreads, ctx, 0);
    assert(page_violation(spreads, ctx, k) is None);
    lemma_page_ok(spreads, ctx, k);
    let line = spreads[k].left_start as int;
    assert forall|j: int| 0 <= j < k + 1 implies spreads[j].left_start <= line by {
        if j < k {
            assert(spreads[j].left_start < spreads[k].left_start);
        }
    }
    if k + 1 < spreads.len() {
        assert(spreads[k].left_start < spreads[k + 1].left_start);
    }
    lemma_first_top_after(spreads, line, k + 1, 0);
}

/// In a table that passes the invariant suite, every dialogue line of the
/// buffer lies on a page, and `page_for_line` finds a page containing it —
/// provided no dialogue line sits between the last two pages (the suite does
/// not scan that gap, because the final page normally overlaps its
/// predecessor).
pub proof fn law_valid_table_covers_dialogue(spreads: Seq<Spread>, ctx: ValidateCtx, line: int)
    requires
        table_verdict(spreads, ctx) is Ok,
        0 <= line < ctx.line_count,
        flag_at(ctx.is_dialogue@, line),
        spreads.len() >= 2 ==> forall|j: int|
            spreads[spreads.len() - 2].end < j < spreads[spreads.len() - 1].left_start
                ==> !flag_at(ctx.is_dialogue@, j),
    ensures
        page_for_line_spec(spreads, line) matches Some(k) && 0 <= k < spreads.len()
            && spreads[k].left_start <= line <= spreads[k].end,
{
    let n = spreads.len() as int;
    law_valid_table_tops_increase(spreads, ctx);
    lemma_no_page_violation(spreads, ctx, 0);
    // The first page starts at or before any dialogue line.
    assert(page_violation(spreads, ctx, 0) is None);
    lemma_page_ok(spreads, ctx, 0);
    assert(spreads[0].left_start <= line);
    // The partition point p: pages [0, p) start at or before `line`.
    let p = choose_partition(spreads, line);
    lemma_first_top_after(spreads, line, p, 0);
    assert(p >= 1);
    let i = p - 1;
    assert(page_violation(spreads, ctx, i) is None);
    lemma_page_ok(spreads, ctx, i);
    if i == n - 1 {
        // Past the last page only the tail remains, and the tail holds no dialogue.
        let last_end = spreads.last().end;
        if line > spreads[i].end {
            assert(first_flag(ctx.is_dialogue@, last_end + 1, ctx.line_count as int) is None);
            lemma_first_flag_none(ctx.is_dialogue@, last_end + 1, ctx.line_count as int);
        }
    } else {
        assert(spreads[i + 1].left_start > line);
        assert(page_violation(spreads, ctx, i + 1) is None);
        lemma_page_ok(spreads, ctx, i + 1);
        if i + 1 == n - 1 {
            // The final pair: the gap between them holds no dialogue.
        } else {
            assert(expect_start(spreads, i + 1) == spreads[i].end + 1);
        }
    }
    assert(line <= spreads[i].end);
    if i > 0 {
        assert(spreads[i - 1].left_start < spreads[i].left_start);
    }
}

/// The number of pages whose top lies at or before `line` (tops sorted).
proof fn choose_partition(spreads: Seq<Spread>, line: int) -> (p: int)
    requires
        tops_sorted(spreads),
    ensures
        0 <= p <= spreads.len(),
        forall|j: int| 0 <= j < p ==> spreads[j].left_start <= line,
        p < spreads.len() ==> spreads[p].left_start > line,
    decreases spreads.len(),
{
    if spreads.len() == 0 {
        0
    } else if spreads.last().left_start <= line {
        spreads.len() as int
    } else {
        let q = choose_partition(spreads.drop_last(), line);
        assert forall|j: int| 0 <= j < q implies spreads[j].left_start <= line by {
            assert(spreads.drop_last()[j] == spreads[j]);
        }
        if q < spreads.len() - 1 {
            assert(spreads.drop_last()[q] == spreads[q]);
        }
        q
    }
}

// ---------------------------------------------------------------------------
// Layout fingerprint
// ---------------------------------------------------------------------------

/// Everything the page geometry depends on. A stored table is only reused
/// when the fingerprint of the current layout equals the stored one.
#[derive(Debug, Clone)]
pub struct FingerprintParts {
    pub font_family: String,
    pub font_size: u32,
    pub ascent: i32,
    pub descent: i32,
    pub char_width: i32,
    pub width: i32,
    pub height: i32,
    pub line_spacing: u32,
    pub text_margins: u32,
    pub columns: u8,
    /// The running-head strip height reserved above the first text line.
    pub top_spacer_height: i32,
    /// The text view's height: the value the fit check validates against.
    pub view_height: i32,
}

/// `sep` followed by `rest`.
pub open spec fn after(sep: char, rest: Seq<char>) -> Seq<char> {
    seq![sep] + rest
}

/// The fingerprint text after the `k`-th separator (field `k` onward).
#[verifier::opaque]
pub open spec fn fp_tail_11(p: FingerprintParts) -> Seq<char> {
    decimal_int(p.view_height as int)
}

#[verifier::opaque]
pub open spec fn fp_tail_10(p: FingerprintParts) -> Seq<char> {
    decimal_int(p.top_spacer_height as int) + after('|', fp_tail_11(p))
}

#[verifier::opaque]
pub open spec fn fp_tail_9(p: FingerprintParts) -> Seq<char> {
    decimal_nat(p.columns as nat) + after('|', fp_tail_10(p))
}

#[verifier::opaque]
pub open spec fn fp_tail_8(p: FingerprintParts) -> Seq<char> {
    decimal_nat(p.text_margins as nat) + after('|', fp_tail_9(p))
}

#[verifier::opaque]
pub open spec fn fp_tail_7(p: FingerprintParts) -> Seq<char> {
    decimal_nat(p.line_spacing as nat) + after('|', fp_tail_8(p))
}

#[verifier::opaque]
pub open spec fn fp_tail_6(p: FingerprintParts) -> Seq<char> {
    decimal_int(p.height as int) + after('|', fp_tail_7(p))
}

#[verifier::opaque]
pub open spec fn fp_tail_5(p: FingerprintParts) -> Seq<char> {
    decimal_int(p.width as int) + after('x', fp_tail_6(p))
}

#[verifier::opaque]
pub open spec fn fp_tail_4(p: FingerprintParts) -> Seq<char> {
    decimal_int(p.char_width as int) + after('|', fp_tail_5(p))
}

#[verifier::opaque]
pub open spec fn fp_tail_3(p: FingerprintParts) -> Seq<char> {
    decimal_int(p.descent as int) + after('|', fp_tail_4(p))
}

#[verifier::opaque]
pub open spec fn fp_tail_2(p: FingerprintParts) -> Seq<char> {
    decimal_int(p.ascent as int) + after('|', fp_tail_3(p))
}

#[verifier::opaque]
pub open spec fn fp_tail_1(p: FingerprintParts) -> Seq<char> {
    decimal_nat(p.font_size as nat) + after('|', fp_tail_2(p))
}

/// The fingerprint text: `"v5|"`, then the parts joined by `|` (with `x`
/// between width and height): family, size, ascent, descent, char width,
/// width x height, line spacing, margins, columns, spacer height, view height.
pub open spec fn fingerprint_text(p: FingerprintParts) -> Seq<char> {
    seq!['v', '5', '|'] + (p.font_family@ + after('|', fp_tail_1(p)))
}

/// The human-readable fingerprint of a layout (schema `v5`).
pub fn fingerprint_string(p: &FingerprintParts) -> (r: String)
    ensures
        r@ == fingerprint_text(*p),
{
    proof {
        reveal_strlit("v5|");
    }
    let mut s = String::new();
    s.append("v5|");
    s.append(p.font_family.as_str());
    let ghost s0 = s@;
    proof {
        assert(s0 =~= seq!['v', '5', '|'] + p.font_family@);
    }
    push_bar_then(&mut s, p.font_size as i128);
    let ghost s1 = s@;
    push_bar_then(&mut s, p.ascent as i128);
    let ghost s2 = s@;
    push_bar_then(&mut s, p.descent as i128);
    let ghost s3 = s@;
    push_bar_then(&mut s, p.char_width as i128);
    let ghost s4 = s@;
    push_bar_then(&mut s, p.width as i128);
    let ghost s5 = s@;
    push_x_then(&mut s, p.height as i128);
    let ghost s6 = s@;
    push_bar_then(&mut s, p.line_spacing as i128);
    let ghost s7 = s@;
    push_bar_then(&mut s, p.text_margins as i128);
    let ghost s8 = s@;
    push_bar_then(&mut s, p.columns as i128);
    let ghost s9 = s@;
    push_bar_then(&mut s, p.top_spacer_height as i128);
    let ghost s10 = s@;
    push_bar_then(&mut s, p.view_height as i128);
    let ghost s11 = s@;
    proof {
        lemma_fp_assembled(*p, s0, s1, s2, s3, s4, s5, s6, s7, s8, s9, s10, s11);
    }
    s
}

/// Append `|` and the decimal text of `n`.
fn push_bar_then(s: &mut String, n: i128)
    ensures
        final(s)@ == old(s)@ + after('|', decimal_int(n as int)),
{
    proof {
        reveal_strlit("|");
    }
    s.append("|");
    push_decimal_i128(s, n);
    proof {
        assert(final(s)@ =~= old(s)@ + after('|', decimal_int(n as int)));
    }
}

/// Append `x` and the decimal text of `n`.
fn push_x_then(s: &mut String, n: i128)
    ensures
        final(s)@ == old(s)@ + after('x', decimal_int(n as int)),
{
    proof {
        reveal_strlit("x");
    }
    s.append("x");
    push_decimal_i128(s, n);
    proof {
        assert(final(s)@ =~= old(s)@ + after('x', decimal_int(n as int)));
    }
}

proof fn lemma_nat_text_is_int_text(n: nat)
    ensures
        decimal_int(n as int) == decimal_nat(n),
{
}

proof fn lemma_fp_assembled(p: FingerprintParts, s0: Seq<char>, s1: Seq<char>, s2: Seq<char>, s3: Seq<char>, s4: Seq<char>, s5: Seq<char>, s6: Seq<char>, s7: Seq<char>, s8: Seq<char>, s9: Seq<char>, s10: Seq<char>, s11: Seq<char>)
    requires
        s0 == seq!['v', '5', '|'] + p.font_family@,
        s1 == s0 + after('|', decimal_int(p.font_size as int)),
        s2 == s1 + after('|', decimal_int(p.ascent as int)),
        s3 == s2 + after('|', decimal_int(p.descent as int)),
        s4 == s3 + after('|', decimal_int(p.char_width as int)),
        s5 == s4 + after('|', decimal_int(p.width as int)),
        s6 == s5 + after('x', decimal_int(p.height as int)),
        s7 == s6 + after('|', decimal_int(p.line_spacing as int)),
        s8 == s7 + after('|', decimal_int(p.text_margins as int)),
        s9 == s8 + after('|', decimal_int(p.columns as int)),
        s10 == s9 + after('|', decimal_int(p.top_spacer_height as int)),
        s11 == s10 + after('|', decimal_int(p.view_height as int)),
    ensures
        s11 == fingerprint_text(p),
{
    lemma_nat_text_is_int_text(p.font_size as nat);
    lemma_nat_text_is_int_text(p.line_spacing as nat);
    lemma_nat_text_is_int_text(p.text_margins as nat);
    lemma_nat_text_is_int_text(p.columns as nat);
    reveal(fp_tail_11);
    lemma_fp_link(s10, s9, decimal_int(p.top_spacer_height as int), '|', '|', fp_tail_11(p));
    reveal(fp_tail_10);
    lemma_fp_link(s9, s8, decimal_int(p.columns as int), '|', '|', fp_tail_10(p));
    reveal(fp_tail_9);
    lemma_fp_link(s8, s7, decimal_int(p.text_margins as int), '|', '|', fp_tail_9(p));
    reveal(fp_tail_8);
    lemma_fp_link(s7, s6, decimal_int(p.line_spacing as int), '|', '|', fp_tail_8(p));
    reveal(fp_tail_7);
    lemma_fp_link(s6, s5, decimal_int(p.height as int), 'x', '|', fp_tail_7(p));
    reveal(fp_tail_6);
    lemma_fp_link(s5, s4, decimal_int(p.width as int), '|', 'x', fp_tail_6(p));
    reveal(fp_tail_5);
    lemma_fp_link(s4, s3, decimal_int(p.char_width as int), '|', '|', fp_tail_5(p));
    reveal(fp_tail_4);
    lemma_fp_link(s3, s2, decimal_int(p.descent as int), '|', '|', fp_tail_4(p));
    reveal(fp_tail_3);
    lemma_fp_link(s2, s1, decimal_int(p.ascent as int), '|', '|', fp_tail_3(p));
    reveal(fp_tail_2);
    lemma_fp_link(s1, s0, decimal_int(p.font_size as int), '|', '|', fp_tail_2(p));
    reveal(fp_tail_1);
    assert(s0 + after('|', fp_tail_1(p)) =~= fingerprint_text(p));
}

proof fn lemma_fp_link(s: Seq<char>, sprev: Seq<char>, txt: Seq<char>, sep_prev: char, sep_next: char, tail: Seq<char>)
    requires
        s == sprev + after(sep_prev, txt),
    ensures
        s + after(sep_next, tail) == sprev + after(sep_prev, txt + after(sep_next, tail)),
{
    assert(s + after(sep_next, tail) =~= sprev + after(sep_prev, txt + after(sep_next, tail)));
}

/// Splitting at the first separator is unique when the heads hold no separator.
proof fn lemma_split_at_sep(a: Seq<char>, b: Seq<char>, c: Seq<char>, d: Seq<char>, sep: char)
    requires
        !a.contains(sep),
        !c.contains(sep),
        a + after(sep, b) == c + after(sep, d),
    ensures
        a == c,
        b == d,
{
    let x = a + after(sep, b);
    let y = c + after(sep, d);
    if a.len() < c.len() {
        assert(x[a.len() as int] == sep);
        assert(y[a.len() as int] == c[a.len() as int]);
        assert(c.contains(sep));
    } else if c.len() < a.len() {
        assert(y[c.len() as int] == sep);
        assert(x[c.len() as int] == a[c.len() as int]);
        assert(a.contains(sep));
    }
    assert(a =~= x.subrange(0, a.len() as int));
    assert(c =~= y.subrange(0, c.len() as int));
    assert(b =~= x.subrange(a.len() as int + 1, x.len() as int));
    assert(d =~= y.subrange(c.len() as int + 1, y.len() as int));
}

proof fn lemma_int_text_has_no(n: int, sep: char)
    requires
        sep == '|' || sep == 'x',
    ensures
        !decimal_int(n).contains(sep),
{
    lemma_decimal_int_chars(n);
    if decimal_int(n).contains(sep) {
        let i = choose|i: int| 0 <= i < decimal_int(n).len() && decimal_int(n)[i] == sep;
        assert(is_digit(decimal_int(n)[i]) || decimal_int(n)[i] == '-');
    }
}

proof fn lemma_nat_text_has_no(n: nat, sep: char)
    requires
        sep == '|' || sep == 'x',
    ensures
        !decimal_nat(n).contains(sep),
{
    lemma_decimal_nat_digits(n);
    if decimal_nat(n).contains(sep) {
        let i = choose|i: int| 0 <= i < decimal_nat(n).len() && decimal_nat(n)[i] == sep;
        assert(is_digit(decimal_nat(n)[i]));
    }
}

proof fn lemma_fp_step_1(p: FingerprintParts, q: FingerprintParts)
    requires
        fp_tail_1(p) == fp_tail_1(q),
    ensures
        p.font_size == q.font_size,
        fp_tail_2(p) == fp_tail_2(q),
{
    reveal(fp_tail_1);
    lemma_nat_text_has_no(p.font_size as nat, '|');
    lemma_nat_text_has_no(q.font_size as nat, '|');
    lemma_split_at_sep(decimal_nat(p.font_size as nat), fp_tail_2(p), decimal_nat(q.font_size as nat), fp_tail_2(q), '|');
    lemma_decimal_nat_injective(p.font_size as nat, q.font_size as nat);
}

proof fn lemma_fp_step_2(p: FingerprintParts, q: FingerprintParts)
    requires
        fp_tail_2(p) == fp_tail_2(q),
    ensures
        p.ascent == q.ascent,
        fp_tail_3(p) == fp_tail_3(q),
{
    reveal(fp_tail_2);
    lemma_int_text_has_no(p.ascent as int, '|');
    lemma_int_text_has_no(q.ascent as int, '|');
    lemma_split_at_sep(decimal_int(p.ascent as int), fp_tail_3(p), decimal_int(q.ascent as int), fp_tail_3(q), '|');
    lemma_decimal_int_injective(p.ascent as int, q.ascent as int);
}

proof fn lemma_fp_step_3(p: FingerprintParts, q: FingerprintParts)
    requires
        fp_tail_3(p) == fp_tail_3(q),
    ensures
        p.descent == q.descent,
        fp_tail_4(p) == fp_tail_4(q),
{
    reveal(fp_tail_3);
    lemma_int_text_has_no(p.descent as int, '|');
    lemma_int_text_has_no(q.descent as int, '|');
    lemma_split_at_sep(decimal_int(p.descent as int), fp_tail_4(p), decimal_int(q.descent as int), fp_tail_4(q), '|');
    lemma_decimal_int_injective(p.descent as int, q.descent as int);
}

proof fn lemma_fp_step_4(p: FingerprintParts, q: FingerprintParts)
    requires
        fp_tail_4(p) == fp_tail_4(q),
    ensures
        p.char_width == q.char_width,
        fp_tail_5(p) == fp_tail_5(q),
{
    reveal(fp_tail_4);
    lemma_int_text_has_no(p.char_width as int, '|');
    lemma_int_text_has_no(q.char_width as int, '|');
    lemma_split_at_sep(decimal_int(p.char_width as int), fp_tail_5(p), decimal_int(q.char_width as int), fp_tail_5(q), '|');
    lemma_decimal_int_injective(p.char_width as int, q.char_width as int);
}

proof fn lemma_fp_step_5(p: FingerprintParts, q: FingerprintParts)
    requires
        fp_tail_5(p) == fp_tail_5(q),
    ensures
        p.width == q.width,
        fp_tail_6(p) == fp_tail_6(q),
{
    reveal(fp_tail_5);
    lemma_int_text_has_no(p.width as int, 'x');
    lemma_int_text_has_no(q.width as int, 'x');
    lemma_split_at_sep(decimal_int(p.width as int), fp_tail_6(p), decimal_int(q.width as int), fp_tail_6(q), 'x');
    lemma_decimal_int_injective(p.width as int, q.width as int);
}

proof fn lemma_fp_step_6(p: FingerprintParts, q: FingerprintParts)
    requires
        fp_tail_6(p) == fp_tail_6(q),
    ensures
        p.height == q.height,
        fp_tail_7(p) == fp_tail_7(q),
{
    reveal(fp_tail_6);
    lemma_int_text_has_no(p.height as int, '|');
    lemma_int_text_has_no(q.height as int, '|');
    lemma_split_at_sep(decimal_int(p.height as int), fp_tail_7(p), decimal_int(q.height as int), fp_tail_7(q), '|');
    lemma_decimal_int_injective(p.height as int, q.height as int);
}

proof fn lemma_fp_step_7(p: FingerprintParts, q: FingerprintParts)
    requires
        fp_tail_7(p) == fp_tail_7(q),
    ensures
        p.line_spacing == q.line_spacing,
        fp_tail_8(p) == fp_tail_8(q),
{
    reveal(fp_tail_7);
    lemma_nat_text_has_no(p.line_spacing as nat, '|');
    lemma_nat_text_has_no(q.line_spacing as nat, '|');
    lemma_split_at_sep(decimal_nat(p.line_spacing as nat), fp_tail_8(p), decimal_nat(q.line_spacing as nat), fp_tail_8(q), '|');
    lemma_decimal_nat_injective(p.line_spacing as nat, q.line_spacing as nat);
}

proof fn lemma_fp_step_8(p: FingerprintParts, q: FingerprintParts)
    requires
        fp_tail_8(p) == fp_tail_8(q),
    ensures
        p.text_margins == q.text_margins,
        fp_tail_9(p) == fp_tail_9(q),
{
    reveal(fp_tail_8);
    lemma_nat_text_has_no(p.text_margins as nat, '|');
    lemma_nat_text_has_no(q.text_margins as nat, '|');
    lemma_split_at_sep(decimal_nat(p.text_margins as nat), fp_tail_9(p), decimal_nat(q.text_margins as nat), fp_tail_9(q), '|');
    lemma_decimal_nat_injective(p.text_margins as nat, q.text_margins as nat);
}

proof fn lemma_fp_step_9(p: FingerprintParts, q: FingerprintParts)
    requires
        fp_tail_9(p) == fp_tail_9(q),
    ensures
        p.columns == q.columns,
        fp_tail_10(p) == fp_tail_10(q),
{
    reveal(fp_tail_9);
    lemma_nat_text_has_no(p.columns as nat, '|');
    lemma_nat_text_has_no(q.columns as nat, '|');
    lemma_split_at_sep(decimal_nat(p.columns as nat), fp_tail_10(p), decimal_nat(q.columns as nat), fp_tail_10(q), '|');
    lemma_decimal_nat_injective(p.columns as nat, q.columns as nat);
}

proof fn lemma_fp_step_10(p: FingerprintParts, q: FingerprintParts)
    requires
        fp_tail_10(p) == fp_tail_10(q),
    ensures
        p.top_spacer_height == q.top_spacer_height,
        fp_tail_11(p) == fp_tail_11(q),
{
    reveal(fp_tail_10);
    lemma_int_text_has_no(p.top_spacer_height as int, '|');
    lemma_int_text_has_no(q.top_spacer_height as int, '|');
    lemma_split_at_sep(decimal_int(p.top_spacer_height as int), fp_tail_11(p), decimal_int(q.top_spacer_height as int), fp_tail_11(q), '|');
    lemma_decimal_int_injective(p.top_spacer_height as int, q.top_spacer_height as int);
}

/// Different layouts never share a fingerprint: when neither font family
/// contains `|`, equal fingerprints mean every part is equal — so any change
/// of font, metrics, window, spacing, margins, columns, spacer height or view
/// height invalidates a stored table.
pub proof fn law_fingerprint_identifies_layout(p: FingerprintParts, q: FingerprintParts)
    requires
        !p.font_family@.contains('|'),
        !q.font_family@.contains('|'),
        fingerprint_text(p) == fingerprint_text(q),
    ensures
        p.font_family@ == q.font_family@,
        p.font_size == q.font_size,
        p.ascent == q.ascent,
        p.descent == q.descent,
        p.char_width == q.char_width,
        p.width == q.width,
        p.height == q.height,
        p.line_spacing == q.line_spacing,
        p.text_margins == q.text_margins,
        p.columns == q.columns,
        p.top_spacer_height == q.top_spacer_height,
        p.view_height == q.view_height,
{
    let x = fingerprint_text(p);
    let y = fingerprint_text(q);
    assert(x.subrange(3, x.len() as int) =~= p.font_family@ + after('|', fp_tail_1(p)));
    assert(y.subrange(3, y.len() as int) =~= q.font_family@ + after('|', fp_tail_1(q)));
    lemma_split_at_sep(p.font_family@, fp_tail_1(p), q.font_family@, fp_tail_1(q), '|');
    lemma_fp_step_1(p, q);
    lemma_fp_step_2(p, q);
    lemma_fp_step_3(p, q);
    lemma_fp_step_4(p, q);
    lemma_fp_step_5(p, q);
    lemma_fp_step_6(p, q);
    lemma_fp_step_7(p, q);
    lemma_fp_step_8(p, q);
    lemma_fp_step_9(p, q);
    lemma_fp_step_10(p, q);
    reveal(fp_tail_11);
    lemma_decimal_int_injective(p.view_height as int, q.view_height as int);
}

// ---------------------------------------------------------------------------
// Consuming the active table
// ---------------------------------------------------------------------------

/// What decides whether a stored table drives navigation and rendering.
#[derive(Debug, Clone, Copy, PartialEq, Eq, Structural)]
pub struct TableGate {
    /// Page tables switched off for this run.
    pub disabled: bool,
    pub translations_visible: bool,
    pub column_count: u8,
    /// The e-reader navigation mode (tables are e-reader only).
    pub ereader: bool,
}

/// Whether a loaded table is consulted at all: two columns, e-reader mode, no
/// translations shown, not switched off.
pub open spec fn gate_open(g: TableGate) -> bool {
    !g.disabled && !g.translations_visible && g.column_count == 2 && g.ereader
}

/// The loaded table, when the reader state admits table mode (see `gate_open`).
pub fn active_page_table<'a>(gate: &TableGate, table: Option<&'a [Spread]>) -> (r: Option<&'a [Spread]>)
    ensures
        r == (if gate_open(*gate) { table } else { None }),
{
    if gate.disabled || gate.translations_visible || gate.column_count != 2 || !gate.ereader {
        return None;
    }
    table
}

/// The stored page top whose spread contains `line`, when a table is active
/// (stored in page order). `None` = no table, or `line` falls in a trimmed
/// non-dialogue gap.
pub fn table_top_for(table: Option<&[Spread]>, line: usize) -> (r: Option<usize>)
    ensures
        table is None ==> r is None,
        (table matches Some(t) ==> tops_sorted(t@)) ==> r == (match table {
            None => None::<usize>,
            Some(t) => match page_for_line_spec(t@, line as int) {
                Some(i) => Some(t@[i].left_start),
                None => None::<usize>,
            },
        }),
{
    let t = match table {
        Some(t) => t,
        None => {
            return None;
        },
    };
    match page_for_line(t, line) {
        Some(i) => Some(t[i].left_start),
        None => None,
    }
}

/// End of the stored spread whose top is exactly `top`, when a table is active.
pub fn table_end_for_top(table: Option<&[Spread]>, top: usize) -> (r: Option<usize>)
    ensures
        r == (match table {
            None => None::<usize>,
            Some(t) => match first_with_top(t@, top as int, 0) {
                Some(k) => Some(t@[k].end),
                None => None::<usize>,
            },
        }),
{
    match table {
        Some(t) => match spread_for_top(t, top) {
            Some(s) => Some(s.end),
            None => None,
        },
        None => None,
    }
}

/// Re-anchor an off-grid page top onto the active table's grid: the new top
/// to set, or `None` when there is no table, the top is already a stored page
/// top, the cursor's line is not on a page, or the grid top equals the top.
pub fn resnap_to_table(table: Option<&[Spread]>, page_top: usize, current_line: usize) -> (r: Option<usize>)
    ensures
        table is None ==> r is None,
        (table matches Some(t) ==> tops_sorted(t@)) ==> r == (match table {
            None => None::<usize>,
            Some(t) => if first_with_top(t@, page_top as int, 0) is Some {
                None::<usize>
            } else {
                match page_for_line_spec(t@, current_line as int) {
                    Some(i) => if t@[i].left_start != page_top { Some(t@[i].left_start) } else { None::<usize> },
                    None => None::<usize>,
                }
            },
        }),
        r matches Some(n) ==> n != page_top,
{
    let t = match table {
        Some(t) => t,
        None => {
            return None;
        },
    };
    if spread_for_top(t, page_top).is_some() {
        return None;
    }
    match page_for_line(t, current_line) {
        Some(i) => {
            let top = t[i].left_start;
            if top != page_top { Some(top) } else { None }
        },
        None => None,
    }
}

/// The loaded page table and the layout fingerprint it was loaded for.
pub struct TableSlot {
    pub table: Option<Vec<Spread>>,
    pub fp: String,
}

impl TableSlot {
    /// Installs a table that the loader found stored for fingerprint `fp`.
    pub fn install(&mut self, table: Vec<Spread>, fp: String)
        ensures
            final(self).table matches Some(t) && t@ == table@,
            final(self).fp@ == fp@,
    {
        self.table = Some(table);
        self.fp = fp;
    }
}

/// After a settled resize, at the layout whose fingerprint is `current_fp`:
/// a loaded table whose fingerprint no longer matches is dropped (with its
/// fingerprint), and the result asks the caller to look up a stored table
/// for the new layout (never to generate one); otherwise nothing changes.
/// Afterwards no table is loaded under another layout's fingerprint.
pub fn revalidate_on_resize(slot: &mut TableSlot, current_fp: &String) -> (reload: bool)
    ensures
        reload == (old(slot).table is Some && old(slot).fp@ != current_fp@),
        !reload ==> final(slot).table == old(slot).table && final(slot).fp@ == old(slot).fp@,
        reload ==> final(slot).table is None && final(slot).fp@ == Seq::<char>::empty(),
        final(slot).table is None || final(slot).fp@ == current_fp@,
{
    if slot.table.is_none() {
        return false;
    }
    if str_eq(slot.fp.as_str(), current_fp.as_str()) {
        return false;
    }
    slot.table = None;
    slot.fp = String::new();
    true
}

// ---------------------------------------------------------------------------
// Recording the forward chain
// ---------------------------------------------------------------------------

/// The live engine's column split of the spread at some top.
#[derive(Debug, Clone, Copy, PartialEq, Eq, Structural)]
pub struct ColumnSplit {
    /// First line of the right column.
    pub split: usize,
    /// Last line rendered on the spread.
    pub page_end: usize,
    /// Where the next spread starts.
    pub next_page_top: usize,
}

/// The last buffer line (0 for an empty buffer).
pub open spec fn last_line(line_count: usize) -> int {
    if line_count > 0 { line_count - 1 } else { 0 }
}

/// The spread recorded at `top` from the engine's split: an empty left column
/// when the split is the top, an empty right column (watermark) when the split
/// is outside `(top, page_end]`, the end clamped to the buffer.
pub open spec fn chain_spread(top: usize, cs: ColumnSplit, line_count: usize) -> Spread {
    Spread {
        left_start: top,
        split: if cs.split == top {
            Some(top)
        } else if cs.split <= top || cs.split > cs.page_end {
            None
        } else {
            Some(cs.split)
        },
        end: if cs.page_end <= last_line(line_count) { cs.page_end } else { last_line(line_count) as usize },
    }
}

/// The canonical final spread at `anchor` (no empty-left form).
pub open spec fn anchor_spread(anchor: usize, cs: ColumnSplit, line_count: usize) -> Spread {
    Spread {
        left_start: anchor,
        split: if cs.split > anchor && cs.split <= cs.page_end { Some(cs.split) } else { None },
        end: if cs.page_end <= last_line(line_count) { cs.page_end } else { last_line(line_count) as usize },
    }
}

/// Tops strictly increase along the sequence.
pub open spec fn tops_strictly_increase(s: Seq<Spread>) -> bool {
    forall|a: int, b: int| 0 <= a < b < s.len() ==> s[a].left_start < s[b].left_start
}

/// Drop whole trailing spreads whose top is at or past `anchor`.
pub open spec fn drop_from_anchor(s: Seq<Spread>, anchor: usize) -> Seq<Spread>
    decreases s.len(),
{
    if s.len() > 0 && s.last().left_start >= anchor {
        drop_from_anchor(s.drop_last(), anchor)
    } else {
        s
    }
}

/// The outcome of feeding one column split to the recorder.
#[derive(Debug, Clone, Copy, PartialEq, Eq, Structural)]
pub enum RecordStep {
    /// Ask for the split at this next top.
    Next(usize),
    /// The chain reached the buffer end (or stopped advancing).
    Finished,
    /// The chain did not terminate within `line_count` steps.
    NotTerminating,
}

/// Where the recorder stands.
#[derive(Debug, Clone, Copy, PartialEq, Eq, Structural)]
pub enum RecorderPhase {
    Walking,
    Finished,
    Failed,
}

/// Walks the live engine's forward chain once, recording every spread. The
/// chain advances on the split's `next_page_top`; it must strictly advance and
/// terminate within `line_count` steps. While walking, the steps taken never
/// exceed the next top, which lies below `line_count`: a strictly advancing
/// chain always ends within the bound, so the non-termination guard never
/// fires.
pub struct SpreadRecorder {
    line_count: usize,
    spreads: Vec<Spread>,
    top: usize,
    guard: usize,
    phase: RecorderPhase,
}

impl SpreadRecorder {
    /// The spreads recorded so far.
    pub closed spec fn recorded(&self) -> Seq<Spread> {
        self.spreads@
    }

    /// The top whose split is asked for next.
    pub closed spec fn next_top(&self) -> usize {
        self.top
    }

    /// The phase of the walk.
    pub closed spec fn phase_of(&self) -> RecorderPhase {
        self.phase
    }

    /// The buffer length the chain is recorded for.
    pub closed spec fn lines(&self) -> usize {
        self.line_count
    }

    /// Steps taken so far.
    pub closed spec fn steps(&self) -> usize {
        self.guard
    }

    /// Internal consistency: tops strictly increase and lie below the next top.
    pub closed spec fn wf(&self) -> bool {
        &&& tops_strictly_increase(self.spreads@)
        &&& (self.phase == RecorderPhase::Walking ==> forall|k: int|
            0 <= k < self.spreads@.len() ==> self.spreads@[k].left_start < self.top)
        &&& (self.phase == RecorderPhase::Walking ==> self.top < self.line_count)
        &&& (self.phase == RecorderPhase::Walking ==> self.guard <= self.top)
        &&& (self.phase == RecorderPhase::Finished ==> self.spreads@.len() > 0)
        &&& self.guard <= self.line_count + 1
    }

    /// Start a walk at line 0. `None` for an empty buffer ("no lines").
    pub fn new(line_count: usize) -> (r: Option<Self>)
        ensures
            r is None <==> line_count == 0,
            r matches Some(rec) ==> rec.wf() && rec.recorded() == Seq::<Spread>::empty() && rec.next_top()
                == 0 && rec.phase_of() == RecorderPhase::Walking && rec.lines() == line_count
                && rec.steps() == 0 && rec.steps() <= rec.next_top() < rec.lines(),
    {
        if line_count == 0 {
            return None;
        }
        Some(SpreadRecorder { line_count, spreads: Vec::new(), top: 0, guard: 0, phase: RecorderPhase::Walking })
    }

    /// The top whose split must be fed next.
    pub fn top(&self) -> (r: usize)
        ensures
            r == self.next_top(),
    {
        self.top
    }

    /// Record the spread at the current top from its split and advance.
    pub fn feed(&mut self, cs: ColumnSplit) -> (r: RecordStep)
        requires
            old(self).wf(),
            old(self).phase_of() == RecorderPhase::Walking,
        ensures
            final(self).wf(),
            final(self).lines() == old(self).lines(),
            final(self).recorded() == old(self).recorded().push(
                chain_spread(old(self).next_top(), cs, old(self).lines()),
            ),
            cs.next_page_top >= old(self).lines() || cs.next_page_top <= old(self).next_top() ==> r
                == RecordStep::Finished && final(self).phase_of() == RecorderPhase::Finished,
            !(cs.next_page_top >= old(self).lines() || cs.next_page_top <= old(self).next_top()) ==> {
                &&& final(self).next_top() == cs.next_page_top
                &&& final(self).steps() == old(self).steps() + 1
                &&& (old(self).steps() + 1 > old(self).lines() ==> r == RecordStep::NotTerminating
                    && final(self).phase_of() == RecorderPhase::Failed)
                &&& (old(self).steps() + 1 <= old(self).lines() ==> r == RecordStep::Next(cs.next_page_top)
                    && final(self).phase_of() == RecorderPhase::Walking)
            },
            final(self).phase_of() == RecorderPhase::Walking ==> final(self).steps() <= final(self).next_top()
                < final(self).lines(),
            r != RecordStep::NotTerminating,
    {
        let top = self.top;
        let lc = self.line_count;
        let split = if cs.split == top {
            Some(top)
        } else if cs.split <= top || cs.split > cs.page_end {
            None
        } else {
            Some(cs.split)
        };
        let last = lc - 1;
        let end = if cs.page_end <= last { cs.page_end } else { last };
        self.spreads.push(Spread { left_start: top, split, end });
        let next = cs.next_page_top;
        if next >= lc || next <= top {
            self.phase = RecorderPhase::Finished;
            return RecordStep::Finished;
        }
        self.top = next;
        self.guard = self.guard + 1;
        if self.guard > lc {
            self.phase = RecorderPhase::Failed;
            return RecordStep::NotTerminating;
        }
        RecordStep::Next(next)
    }

    /// The recorded table with its final page replaced by the canonical anchor
    /// spread: trailing spreads at or past `anchor` are dropped whole and the
    /// anchor spread is appended — unless the chain already ends on `anchor`.
    pub fn finish(self, anchor: usize, anchor_split: ColumnSplit) -> (r: Vec<Spread>)
        requires
            self.wf(),
            self.phase_of() == RecorderPhase::Finished,
        ensures
            r@ == (if self.recorded().last().left_start == anchor {
                self.recorded()
            } else {
                drop_from_anchor(self.recorded(), anchor).push(anchor_spread(anchor, anchor_split, self.lines()))
            }),
            tops_strictly_increase(r@),
    {
        let mut spreads = self.spreads;
        let n = spreads.len();
        if spreads[n - 1].left_start == anchor {
            return spreads;
        }
        let ghost full = spreads@;
        while spreads.len() > 0 && spreads[spreads.len() - 1].left_start >= anchor
            invariant
                drop_from_anchor(spreads@, anchor) == drop_from_anchor(full, anchor),
                tops_strictly_increase(spreads@),
            decreases spreads@.len(),
        {
            spreads.pop();
        }
        proof {
            assert forall|k: int| 0 <= k < spreads@.len() implies spreads@[k].left_start < anchor by {
                if k < spreads@.len() - 1 {
                    assert(spreads@[k].left_start < spreads@.last().left_start);
                }
            }
        }
        let lc = self.line_count;
        let last = if lc > 0 { lc - 1 } else { 0 };
        let split = if anchor_split.split > anchor && anchor_split.split <= anchor_split.page_end {
            Some(anchor_split.split)
        } else {
            None
        };
        let end = if anchor_split.page_end <= last { anchor_split.page_end } else { last };
        spreads.push(Spread { left_start: anchor, split, end });
        spreads
    }
}

// ---------------------------------------------------------------------------
// Storing and loading a table
// ---------------------------------------------------------------------------

/// One stored page: its boundaries as line-mapping ids (storage keys that
/// survive a rebuilt buffer).
#[derive(Debug, Clone, Copy, PartialEq, Eq, Structural)]
pub struct PageRow {
    pub page_no: i64,
    pub left_start_id: i64,
    pub split_id: Option<i64>,
    pub end_id: i64,
}

/// The line-mapping id of buffer line `j` (`None` for unmapped or
/// out-of-range lines).
pub open spec fn id_at(ids: Seq<Option<i64>>, j: int) -> Option<i64> {
    if 0 <= j < ids.len() { ids[j] } else { None }
}

/// The first mapped id in `[lo, hi]`, scanning forward.
pub open spec fn first_id(ids: Seq<Option<i64>>, lo: int, hi: int) -> Option<i64>
    decreases hi - lo + 1,
{
    if lo > hi {
        None
    } else if id_at(ids, lo) is Some {
        id_at(ids, lo)
    } else {
        first_id(ids, lo + 1, hi)
    }
}

/// The last mapped id in `[lo, hi]`, scanning backward from `hi`.
pub open spec fn last_id(ids: Seq<Option<i64>>, lo: int, hi: int) -> Option<i64>
    decreases hi - lo + 1,
{
    if lo > hi {
        None
    } else if id_at(ids, hi) is Some {
        id_at(ids, hi)
    } else {
        last_id(ids, lo, hi - 1)
    }
}

/// The stored row of page `i` (0-based) and its in-memory spread, or `None`
/// when the page has no mapped line at all. The top snaps forward and the end
/// backward to the nearest mapped line within the page; a split with no mapped
/// line in `[split, end]` folds into an empty right column.
pub open spec fn page_row(s: Spread, i: int, ids: Seq<Option<i64>>) -> Option<(Spread, PageRow)> {
    let ls = first_id(ids, s.left_start as int, s.end as int);
    let end = last_id(ids, s.left_start as int, s.end as int);
    let split_id = match s.split {
        Some(sp) => first_id(ids, sp as int, s.end as int),
        None => None,
    };
    if ls is None || end is None {
        None
    } else {
        Some((
            Spread { left_start: s.left_start, split: if split_id is Some { s.split } else { None }, end: s.end },
            PageRow { page_no: (i + 1) as i64, left_start_id: ls->0, split_id, end_id: end->0 },
        ))
    }
}

/// The first mapped id in `[lo, hi]`.
fn first_id_in(ids: &[Option<i64>], lo: usize, hi: usize) -> (r: Option<i64>)
    ensures
        r == first_id(ids@, lo as int, hi as int),
{
    if ids.len() == 0 {
        proof {
            lemma_first_id_none(ids@, lo as int, hi as int);
        }
        return None;
    }
    let top = if hi < ids.len() { hi } else { ids.len() - 1 };
    proof {
        lemma_first_id_clamp(ids@, lo as int, hi as int, top as int);
    }
    let mut j = lo;
    while j <= top
        invariant
            lo <= j,
            j <= top + 1 || j == lo,
            top < ids@.len(),
            first_id(ids@, lo as int, hi as int) == first_id(ids@, lo as int, top as int),
            first_id(ids@, lo as int, top as int) == first_id(ids@, j as int, top as int),
        decreases top + 1 - j,
    {
        if ids[j].is_some() {
            return ids[j];
        }
        j += 1;
    }
    None
}

proof fn lemma_first_id_none(ids: Seq<Option<i64>>, lo: int, hi: int)
    requires
        ids.len() == 0,
    ensures
        first_id(ids, lo, hi) is None,
        last_id(ids, lo, hi) is None,
    decreases hi - lo + 1,
{
    if lo <= hi {
        lemma_first_id_none(ids, lo + 1, hi);
        lemma_first_id_none(ids, lo, hi - 1);
    }
}

proof fn lemma_first_id_clamp(ids: Seq<Option<i64>>, lo: int, hi: int, top: int)
    requires
        top == (if hi < ids.len() { hi } else { ids.len() - 1 }),
        0 <= top < ids.len(),
    ensures
        first_id(ids, lo, hi) == first_id(ids, lo, top),
    decreases hi - lo + 1,
{
    if lo <= hi && lo <= top {
        if id_at(ids, lo) is None {
            lemma_first_id_clamp(ids, lo + 1, hi, top);
        }
    } else if lo <= hi {
        lemma_first_id_beyond(ids, lo, hi);
    }
}

proof fn lemma_first_id_beyond(ids: Seq<Option<i64>>, lo: int, hi: int)
    requires
        lo >= ids.len(),
    ensures
        first_id(ids, lo, hi) is None,
    decreases hi - lo + 1,
{
    if lo <= hi {
        lemma_first_id_beyond(ids, lo + 1, hi);
    }
}

proof fn lemma_last_id_clamp(ids: Seq<Option<i64>>, lo: int, hi: int)
    requires
        hi >= ids.len(),
    ensures
        last_id(ids, lo, hi) == last_id(ids, lo, ids.len() - 1),
    decreases hi - ids.len(),
{
    if lo > hi {
        assert(last_id(ids, lo, ids.len() - 1) is None);
    } else {
        assert(id_at(ids, hi) is None);
        assert(last_id(ids, lo, hi) == last_id(ids, lo, hi - 1));
        if hi > ids.len() {
            lemma_last_id_clamp(ids, lo, hi - 1);
        }
    }
}

/// The last mapped id in `[lo, hi]`.
fn last_id_in(ids: &[Option<i64>], lo: usize, hi: usize) -> (r: Option<i64>)
    ensures
        r == last_id(ids@, lo as int, hi as int),
{
    if ids.len() == 0 {
        proof {
            lemma_first_id_none(ids@, lo as int, hi as int);
        }
        return None;
    }
    let top = if hi < ids.len() { hi } else { ids.len() - 1 };
    proof {
        if hi >= ids@.len() {
            lemma_last_id_clamp(ids@, lo as int, hi as int);
        }
    }
    if lo > top {
        return None;
    }
    let mut j = top;
    loop
        invariant
            lo <= j <= top < ids@.len(),
            last_id(ids@, lo as int, hi as int) == last_id(ids@, lo as int, j as int),
        decreases j,
    {
        if ids[j].is_some() {
            return ids[j];
        }
        if j == lo {
            assert(last_id(ids@, lo as int, lo as int - 1) is None);
            return None;
        }
        j -= 1;
    }
}

/// The stored rows of a validated table: each page's boundaries as mapped ids.
/// `Err(i)` when page `i` (0-based) has no mapped line at all; on success also
/// the spreads with unmapped right columns folded into empty ones, so the
/// in-memory table matches what is stored.
pub fn page_rows(spreads: &[Spread], ids: &[Option<i64>]) -> (r: Result<(Vec<Spread>, Vec<PageRow>), usize>)
    requires
        spreads@.len() < i64::MAX,
    ensures
        r matches Ok((sp, rows)) ==> sp@.len() == spreads@.len() && rows@.len() == spreads@.len()
            && forall|i: int| 0 <= i < spreads@.len() ==> page_row(spreads@[i], i, ids@) == Some((#[trigger] sp@[i], rows@[i])),
        r matches Err(i) ==> i < spreads@.len() && page_row(spreads@[i as int], i as int, ids@) is None
            && forall|k: int| 0 <= k < i ==> (#[trigger] page_row(spreads@[k], k, ids@)) is Some,
{
    let mut out_spreads: Vec<Spread> = Vec::new();
    let mut rows: Vec<PageRow> = Vec::new();
    let mut i: usize = 0;
    while i < spreads.len()
        invariant
            i <= spreads@.len() < i64::MAX,
            out_spreads@.len() == i,
            rows@.len() == i,
            forall|k: int| 0 <= k < i ==> page_row(spreads@[k], k, ids@) == Some((#[trigger] out_spreads@[k], rows@[k])),
        decreases spreads@.len() - i,
    {
        let s = spreads[i];
        let ls = first_id_in(ids, s.left_start, s.end);
        let end = last_id_in(ids, s.left_start, s.end);
        if ls.is_none() || end.is_none() {
            assert(page_row(spreads@[i as int], i as int, ids@) is None);
            assert forall|k: int| 0 <= k < i implies (#[trigger] page_row(spreads@[k], k, ids@)) is Some by {
                assert(page_row(spreads@[k], k, ids@) == Some((out_spreads@[k], rows@[k])));
            }
            return Err(i);
        }
        let split_id = match s.split {
            Some(sp) => first_id_in(ids, sp, s.end),
            None => None,
        };
        let split = if split_id.is_some() { s.split } else { None };
        out_spreads.push(Spread { left_start: s.left_start, split, end: s.end });
        rows.push(PageRow { page_no: i as i64 + 1, left_start_id: ls.unwrap(), split_id, end_id: end.unwrap() });
        i += 1;
    }
    Ok((out_spreads, rows))
}

/// The first buffer line carrying `id`.
pub open spec fn buffer_line_of(ids: Seq<Option<i64>>, id: i64, k: int) -> Option<int>
    decreases ids.len() - k,
{
    if k >= ids.len() || k < 0 {
        None
    } else if ids[k] == Some(id) {
        Some(k)
    } else {
        buffer_line_of(ids, id, k + 1)
    }
}

proof fn lemma_buffer_line_of_range(ids: Seq<Option<i64>>, id: i64, k: int)
    requires
        k >= 0,
    ensures
        buffer_line_of(ids, id, k) matches Some(j) ==> k <= j < ids.len(),
    decreases ids.len() - k,
{
    if k < ids.len() && ids[k] != Some(id) {
        lemma_buffer_line_of_range(ids, id, k + 1);
    }
}

/// Walk a stored top back over the contiguous unmapped lines above it.
pub open spec fn walk_back_unmapped(ids: Seq<Option<i64>>, bl: int) -> int
    decreases bl,
{
    if bl > 0 && id_at(ids, bl - 1) is None {
        walk_back_unmapped(ids, bl - 1)
    } else {
        bl
    }
}

/// Skip unmapped blank lines forward, never past `stored`.
pub open spec fn skip_unmapped_blanks(ids: Seq<Option<i64>>, blank: Seq<bool>, bl: int, stored: int) -> int
    decreases stored - bl,
{
    if bl < stored && id_at(ids, bl) is None && flag_at(blank, bl) {
        skip_unmapped_blanks(ids, blank, bl + 1, stored)
    } else {
        bl
    }
}

/// Reverse the storage-side forward snap of a page or column top: back to
/// the start of the unmapped heading block above it, then past its leading
/// blank lines (the previous page's trimmed tail).
pub open spec fn unsnap_top_spec(ids: Seq<Option<i64>>, blank: Seq<bool>, bl: int) -> int {
    skip_unmapped_blanks(ids, blank, walk_back_unmapped(ids, bl), bl)
}

proof fn lemma_walk_back_le(ids: Seq<Option<i64>>, bl: int)
    requires
        bl >= 0,
    ensures
        0 <= walk_back_unmapped(ids, bl) <= bl,
    decreases bl,
{
    if bl > 0 && id_at(ids, bl - 1) is None {
        lemma_walk_back_le(ids, bl - 1);
    }
}

proof fn lemma_skip_le(ids: Seq<Option<i64>>, blank: Seq<bool>, bl: int, stored: int)
    requires
        bl <= stored,
    ensures
        bl <= skip_unmapped_blanks(ids, blank, bl, stored) <= stored,
    decreases stored - bl,
{
    if bl < stored && id_at(ids, bl) is None && flag_at(blank, bl) {
        lemma_skip_le(ids, blank, bl + 1, stored);
    }
}

/// Undo the forward snap of a stored top (see `unsnap_top_spec`).
pub fn unsnap_top(ids: &[Option<i64>], blank: &[bool], bl: usize) -> (r: usize)
    ensures
        r == unsnap_top_spec(ids@, blank@, bl as int),
        r <= bl,
{
    let stored = bl;
    let mut b = bl;
    while b > 0 && (b - 1 >= ids.len() || ids[b - 1].is_none())
        invariant
            b <= stored,
            walk_back_unmapped(ids@, b as int) == walk_back_unmapped(ids@, stored as int),
        decreases b,
    {
        b -= 1;
    }
    proof {
        lemma_skip_le(ids@, blank@, b as int, stored as int);
    }
    while b < stored && (b >= ids.len() || ids[b].is_none()) && flag(blank, b)
        invariant
            b <= stored,
            skip_unmapped_blanks(ids@, blank@, b as int, stored as int) == unsnap_top_spec(ids@, blank@, stored as int),
        decreases stored - b,
    {
        b += 1;
    }
    b
}

/// The first buffer line carrying `id`.
fn buffer_line_for_id(ids: &[Option<i64>], id: i64) -> (r: Option<usize>)
    ensures
        r == (match buffer_line_of(ids@, id, 0) {
            Some(k) => Some(k as usize),
            None => None::<usize>,
        }),
        r matches Some(k) ==> k < ids@.len() && buffer_line_of(ids@, id, 0) == Some(k as int),
        r is None ==> buffer_line_of(ids@, id, 0) is None,
        buffer_line_of(ids@, id, 0) matches Some(k) ==> 0 <= k < ids@.len(),
{
    proof {
        lemma_buffer_line_of_range(ids@, id, 0);
    }
    let mut k: usize = 0;
    while k < ids.len()
        invariant
            k <= ids@.len(),
            buffer_line_of(ids@, id, 0) == buffer_line_of(ids@, id, k as int),
        decreases ids@.len() - k,
    {
        if ids[k] == Some(id) {
            return Some(k);
        }
        k += 1;
    }
    None
}

/// The spread a stored row resolves to, or `None` when one of its ids is no
/// longer in the buffer.
pub open spec fn row_spread(row: PageRow, ids: Seq<Option<i64>>, blank: Seq<bool>) -> Option<Spread> {
    let ls = buffer_line_of(ids, row.left_start_id, 0);
    let end = buffer_line_of(ids, row.end_id, 0);
    let split = match row.split_id {
        Some(id) => match buffer_line_of(ids, id, 0) {
            Some(b) => Some(Some(unsnap_top_spec(ids, blank, b) as usize)),
            None => None,
        },
        None => Some(None),
    };
    if ls is None || end is None || split is None {
        None
    } else {
        Some(Spread { left_start: unsnap_top_spec(ids, blank, ls->0) as usize, split: split->0, end: end->0 as usize })
    }
}

/// The table a stored set of rows resolves to against the current buffer
/// (`ids[b]` = line-mapping id of buffer line `b`; `blank[b]` = the line is
/// blank). Any id that no longer resolves drops the whole table (`None`).
pub fn resolve_rows(rows: &[PageRow], ids: &[Option<i64>], blank: &[bool]) -> (r: Option<Vec<Spread>>)
    ensures
        r matches Some(v) ==> v@.len() == rows@.len() && forall|i: int|
            0 <= i < rows@.len() ==> row_spread(rows@[i], ids@, blank@) == Some(#[trigger] v@[i]),
        r is None ==> exists|i: int| 0 <= i < rows@.len() && (#[trigger] row_spread(rows@[i], ids@, blank@)) is None,
{
    let mut out: Vec<Spread> = Vec::new();
    let mut i: usize = 0;
    while i < rows.len()
        invariant
            i <= rows@.len(),
            out@.len() == i,
            forall|k: int| 0 <= k < i ==> row_spread(rows@[k], ids@, blank@) == Some(#[trigger] out@[k]),
        decreases rows@.len() - i,
    {
        let row = rows[i];
        let ls = buffer_line_for_id(ids, row.left_start_id);
        let end = buffer_line_for_id(ids, row.end_id);
        if ls.is_none() || end.is_none() {
            assert(row_spread(rows@[i as int], ids@, blank@) is None);
            return None;
        }
        let split = match row.split_id {
            Some(id) => match buffer_line_for_id(ids, id) {
                Some(b) => Some(unsnap_top(ids, blank, b)),
                None => {
                    assert(row_spread(rows@[i as int], ids@, blank@) is None);
                    return None;
                },
            },
            None => None,
        };
        let left = unsnap_top(ids, blank, ls.unwrap());
        let sp = Spread { left_start: left, split, end: end.unwrap() };
        proof {
            let r = rows@[i as int];
            assert(buffer_line_of(ids@, r.left_start_id, 0) == Some(ls.unwrap() as int));
            assert(buffer_line_of(ids@, r.end_id, 0) == Some(end.unwrap() as int));
            assert(left == unsnap_top_spec(ids@, blank@, ls.unwrap() as int));
        }
        assert(row_spread(rows@[i as int], ids@, blank@) == Some(sp));
        out.push(sp);
        i += 1;
    }
    Some(out)
}

/// Every buffer line has a line-mapping id, and no two share one.
pub open spec fn ids_complete_and_distinct(ids: Seq<Option<i64>>) -> bool {
    &&& forall|j: int| 0 <= j < ids.len() ==> (#[trigger] ids[j]) is Some
    &&& forall|a: int, b: int| 0 <= a < b < ids.len() ==> ids[a] != ids[b]
}

proof fn lemma_buffer_line_of_finds(ids: Seq<Option<i64>>, b: int, k: int)
    requires
        ids_complete_and_distinct(ids),
        0 <= k <= b < ids.len(),
    ensures
        buffer_line_of(ids, ids[b]->0, k) == Some(b),
    decreases b - k,
{
    if k < b {
        assert(ids[k] != ids[b]);
        lemma_buffer_line_of_finds(ids, b, k + 1);
    }
}

/// With every line mapped to its own id, storing a table and loading it back
/// against the same buffer gives the same table: each page's stored row
/// resolves to exactly that page (a right column holding content keeps its
/// split).
pub proof fn law_stored_table_round_trips(spreads: Seq<Spread>, ids: Seq<Option<i64>>, blank: Seq<bool>)
    requires
        ids_complete_and_distinct(ids),
        spreads.len() < i64::MAX,
        forall|k: int| 0 <= k < spreads.len() ==> (#[trigger] spreads[k]).left_start <= spreads[k].end < ids.len(),
        forall|k: int| 0 <= k < spreads.len() ==> ((#[trigger] spreads[k]).split matches Some(sp)
            ==> spreads[k].left_start <= sp <= spreads[k].end),
    ensures
        forall|k: int| 0 <= k < spreads.len() ==> (#[trigger] page_row(spreads[k], k, ids) matches Some((sp, row))
            && sp == spreads[k] && row_spread(row, ids, blank) == Some(spreads[k])),
{
    assert forall|k: int| 0 <= k < spreads.len() implies (#[trigger] page_row(spreads[k], k, ids) matches Some((sp, row))
        && sp == spreads[k] && row_spread(row, ids, blank) == Some(spreads[k])) by {
        let s = spreads[k];
        let ls = s.left_start as int;
        let e = s.end as int;
        assert(ids[ls] is Some);
        assert(ids[e] is Some);
        assert(first_id(ids, ls, e) == ids[ls]);
        assert(last_id(ids, ls, e) == ids[e]);
        lemma_buffer_line_of_finds(ids, ls, 0);
        lemma_buffer_line_of_finds(ids, e, 0);
        if ls > 0 {
            assert(ids[ls - 1] is Some);
        }
        assert(walk_back_unmapped(ids, ls) == ls);
        assert(skip_unmapped_blanks(ids, blank, ls, ls) == ls);
        match s.split {
            Some(sp) => {
                let spi = sp as int;
                assert(ids[spi] is Some);
                assert(first_id(ids, spi, e) == ids[spi]);
                lemma_buffer_line_of_finds(ids, spi, 0);
                if spi > 0 {
                    assert(ids[spi - 1] is Some);
                }
                assert(walk_back_unmapped(ids, spi) == spi);
                assert(skip_unmapped_blanks(ids, blank, spi, spi) == spi);
            },
            None => {},
        }
    }
}

/// Why a page-table generation pass stops, or that it proceeds.
#[derive(Debug, Clone, Copy, PartialEq, Eq, Structural)]
pub enum GenerationStep {
    /// Page tables are switched off.
    Disabled,
    /// Generation already ran this session.
    AlreadyAttempted,
    /// No work is loaded.
    NoWork,
    /// The reader is not in the two-column, no-translations state yet (the
    /// one-shot attempt is NOT spent).
    NotReady,
    /// A stored table is already loaded and generation is not forced.
    AlreadyLoaded,
    /// Record, validate and store a table.
    Generate,
}

/// Whether to build a page table now, checked in order. The one-shot attempt
/// latch is spent only once the reader-state check has passed (`AlreadyLoaded`
/// or `Generate`).
pub fn generation_step(
    disabled: bool,
    force: bool,
    attempted: bool,
    has_work: bool,
    column_count: u8,
    translations_visible: bool,
    table_loaded: bool,
) -> (r: GenerationStep)
    ensures
        r == (if disabled {
            GenerationStep::Disabled
        } else if attempted {
            GenerationStep::AlreadyAttempted
        } else if !has_work {
            GenerationStep::NoWork
        } else if column_count != 2 || translations_visible {
            GenerationStep::NotReady
        } else if table_loaded && !force {
            GenerationStep::AlreadyLoaded
        } else {
            GenerationStep::Generate
        }),
{
    if disabled {
        return GenerationStep::Disabled;
    }
    if attempted {
        return GenerationStep::AlreadyAttempted;
    }
    if !has_work {
        return GenerationStep::NoWork;
    }
    if column_count != 2 || translations_visible {
        return GenerationStep::NotReady;
    }
    if table_loaded && !force {
        return GenerationStep::AlreadyLoaded;
    }
    GenerationStep::Generate
}

/// Whether a generation step spends the one-shot attempt.
pub fn spends_attempt(step: GenerationStep) -> (r: bool)
    ensures
        r == (step == GenerationStep::AlreadyLoaded || step == GenerationStep::Generate),
{
    match step {
        GenerationStep::AlreadyLoaded | GenerationStep::Generate => true,
        _ => false,
    }
}

/// Whether a stored table may be looked up for the current work: tables on,
/// a work loaded, two columns.
pub fn load_allowed(disabled: bool, has_work: bool, column_count: u8) -> (r: bool)
    ensures
        r == (!disabled && has_work && column_count == 2),
{
    !disabled && has_work && column_count == 2
}

} // verus!
