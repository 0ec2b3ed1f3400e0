//! The live layout's canonical pages: the final spread `G` lands on (walked
//! forward from the work's start, pulled forward at the true end so the tail
//! fills both columns), the canonical spread holding a target line, the
//! single-column and one-section-per-page final tops, and the scene snap of
//! `x`. The layout queries (a page's forward boundary, whether a top would
//! leave the right column empty, a column split) are answered by the caller;
//! these walks decide what to ask next and what the answers mean.

use vstd::prelude::*;
use crate::page_table::flag_at;
use crate::navigation::{next_dialogue_from, next_dialogue_from_spec};

verus! {

/// Some dialogue line lies in `from..line_count`.
pub open spec fn dialogue_at_or_below(dialogue: Seq<bool>, from: int, line_count: int) -> bool {
    next_dialogue_from_spec(dialogue, from, line_count) < line_count
}

fn dialogue_below(dialogue: &[bool], from: usize, line_count: usize) -> (r: bool)
    ensures
        r == dialogue_at_or_below(dialogue@, from as int, line_count as int),
{
    next_dialogue_from(dialogue, from, line_count) < line_count
}

/// Where the final-spread walk stands.
#[derive(Clone, Copy, Debug, PartialEq, Eq, Structural)]
pub enum WalkPhase {
    /// Waiting for the forward boundary of `top`.
    NeedNext,
    /// Waiting for whether the page at `next` would leave its right column
    /// empty.
    NeedEmptyAtNext { next: usize },
    /// Waiting for the forward boundary of `next` (the chain-end test).
    NeedNextOfNext { next: usize },
    /// Searching `t..min(next, line_count)` for the pulled-forward final top;
    /// waiting for the split of `t`.
    Pulling { next: usize, t: usize },
    /// The walk is over: `chosen` (before the scroll-ceiling clamp).
    Done { chosen: usize },
}

/// What the walk asks the layout for next.
#[derive(Clone, Copy, Debug, PartialEq, Eq, Structural)]
pub enum WalkAsk {
    /// The forward page boundary (`next_page_top`) of this top.
    NextPageTop(usize),
    /// Whether a page at this top would leave its right column empty.
    EmptyRight(usize),
    /// The forward boundary of the page at this top (it would empty its
    /// right column): does the chain end there?
    ChainEndAt(usize),
    /// The column split's `next_page_top` at this top, and whether a page
    /// there would leave its right column empty.
    SplitAt(usize),
    /// The walk is over: this is the final spread's top (before the clamp).
    Done(usize),
}

/// The two-column walk behind the final spread: forward along the page chain
/// from line 0, remembering the last top whose right column is full; at the
/// work's true end (the next page would empty its right column and either no
/// dialogue remains below it or the chain ends there) it searches between the
/// current top and the next one for the smallest top that leaves no dialogue
/// below its spread and keeps a full right column, and stops. A page that
/// empties its right column mid-work (a scene opening) is walked past.
#[derive(Clone, Copy, Debug, PartialEq, Eq, Structural)]
pub struct FinalSpreadWalk {
    pub line_count: usize,
    pub top: usize,
    pub last_full: Option<usize>,
    pub guard: usize,
    pub phase: WalkPhase,
}

/// The answer of a walk that stops with top `top` and last full top
/// `last_full`.
pub open spec fn chosen_of(top: usize, last_full: Option<usize>) -> usize {
    match last_full {
        Some(t) => t,
        None => top,
    }
}

/// The ask that goes with a phase.
pub open spec fn ask_of(w: FinalSpreadWalk) -> WalkAsk {
    match w.phase {
        WalkPhase::NeedNext => WalkAsk::NextPageTop(w.top),
        WalkPhase::NeedEmptyAtNext { next } => WalkAsk::EmptyRight(next),
        WalkPhase::NeedNextOfNext { next } => WalkAsk::ChainEndAt(next),
        WalkPhase::Pulling { t, .. } => WalkAsk::SplitAt(t),
        WalkPhase::Done { chosen } => WalkAsk::Done(chosen),
    }
}

/// Advance to `top` (a full right column when `full`), counting the step;
/// past `line_count` steps the walk stops.
pub open spec fn advance_spec(w: FinalSpreadWalk, top: usize, full: bool) -> FinalSpreadWalk {
    let last_full = if full { Some(top) } else { w.last_full };
    let guard = (w.guard + 1) as usize;
    if guard > w.line_count {
        FinalSpreadWalk { top, last_full, guard, phase: WalkPhase::Done { chosen: chosen_of(top, last_full) }, ..w }
    } else {
        FinalSpreadWalk { top, last_full, guard, phase: WalkPhase::NeedNext, ..w }
    }
}

/// Start the pull search between `w.top` and `next`.
pub open spec fn start_pull_spec(w: FinalSpreadWalk, next: usize) -> FinalSpreadWalk {
    let end = if next <= w.line_count { next } else { w.line_count };
    if w.top + 1 >= end {
        FinalSpreadWalk { phase: WalkPhase::Done { chosen: chosen_of(w.top, w.last_full) }, ..w }
    } else {
        FinalSpreadWalk { phase: WalkPhase::Pulling { next, t: (w.top + 1) as usize }, ..w }
    }
}

/// A measure every answer strictly decreases until the walk is done, so the
/// caller's query loop ends.
pub open spec fn walk_measure(w: FinalSpreadWalk) -> int {
    let lc = w.line_count as int;
    let rank = match w.phase {
        WalkPhase::NeedNext => lc + 3,
        WalkPhase::NeedEmptyAtNext { .. } => lc + 2,
        WalkPhase::NeedNextOfNext { .. } => lc + 1,
        WalkPhase::Pulling { t, .. } => lc - t,
        WalkPhase::Done { .. } => 0,
    };
    (lc + 1 - w.guard) * (lc + 4) + rank
}

proof fn lemma_advance_decreases(lc: int, g: int, r_old: int, r_new: int)
    requires
        0 <= g <= lc,
        0 <= r_old,
        r_new <= lc + 3,
    ensures
        (lc + 1 - (g + 1)) * (lc + 4) + r_new < (lc + 1 - g) * (lc + 4) + r_old,
{
    assert((lc + 1 - g) * (lc + 4) == (lc + 1 - (g + 1)) * (lc + 4) + (lc + 4)) by (nonlinear_arith);
}

impl FinalSpreadWalk {
    /// Whether the walk's counters stay in range.
    pub open spec fn wf(self) -> bool {
        &&& self.guard <= self.line_count
        &&& 0 < self.line_count < usize::MAX
        &&& self.top < self.line_count
        &&& (self.phase matches WalkPhase::Pulling { next, t } ==> self.top < t < next && t < self.line_count)
    }

    /// A walk from line 0; `empty_at_start` is whether the first page would
    /// leave its right column empty.
    pub fn new(line_count: usize, empty_at_start: bool) -> (r: Self)
        requires
            0 < line_count < usize::MAX,
        ensures
            r.wf(),
            r == (FinalSpreadWalk {
                line_count,
                top: 0,
                last_full: if empty_at_start { None } else { Some(0) },
                guard: 0,
                phase: WalkPhase::NeedNext,
            }),
    {
        FinalSpreadWalk {
            line_count,
            top: 0,
            last_full: if empty_at_start { None } else { Some(0) },
            guard: 0,
            phase: WalkPhase::NeedNext,
        }
    }

    /// What the walk needs next.
    pub fn ask(&self) -> (r: WalkAsk)
        ensures
            r == ask_of(*self),
    {
        match self.phase {
            WalkPhase::NeedNext => WalkAsk::NextPageTop(self.top),
            WalkPhase::NeedEmptyAtNext { next } => WalkAsk::EmptyRight(next),
            WalkPhase::NeedNextOfNext { next } => WalkAsk::ChainEndAt(next),
            WalkPhase::Pulling { t, .. } => WalkAsk::SplitAt(t),
            WalkPhase::Done { chosen } => WalkAsk::Done(chosen),
        }
    }

    fn advance(&mut self, top: usize, full: bool)
        requires
            old(self).wf(),
            top < old(self).line_count,
        ensures
            *final(self) == advance_spec(*old(self), top, full),
            final(self).wf() || final(self).phase is Done,
    {
        self.top = top;
        if full {
            self.last_full = Some(top);
        }
        self.guard = self.guard + 1;
        if self.guard > self.line_count {
            let chosen = match self.last_full {
                Some(t) => t,
                None => self.top,
            };
            self.phase = WalkPhase::Done { chosen };
        } else {
            self.phase = WalkPhase::NeedNext;
        }
    }

    fn start_pull(&mut self, next: usize)
        requires
            old(self).wf(),
        ensures
            *final(self) == start_pull_spec(*old(self), next),
            final(self).wf(),
    {
        let end = if next <= self.line_count { next } else { self.line_count };
        if self.top + 1 >= end {
            let chosen = match self.last_full {
                Some(t) => t,
                None => self.top,
            };
            self.phase = WalkPhase::Done { chosen };
        } else {
            self.phase = WalkPhase::Pulling { next, t: self.top + 1 };
        }
    }

    /// The forward boundary of the current top is `next`: at the end of the
    /// chain (past the work, or not advancing) the walk stops; otherwise it
    /// asks whether the page at `next` would empty its right column.
    pub fn feed_next(&mut self, next: usize) -> (r: WalkAsk)
        requires
            old(self).wf(),
            old(self).phase == WalkPhase::NeedNext,
        ensures
            *final(self) == (if next >= old(self).line_count || next <= old(self).top {
                FinalSpreadWalk { phase: WalkPhase::Done { chosen: chosen_of(old(self).top, old(self).last_full) }, ..*old(self) }
            } else {
                FinalSpreadWalk { phase: WalkPhase::NeedEmptyAtNext { next }, ..*old(self) }
            }),
            final(self).wf(),
            final(self).phase is Done || walk_measure(*final(self)) < walk_measure(*old(self)),
            r == ask_of(*final(self)),
    {
        if next >= self.line_count || next <= self.top {
            let chosen = match self.last_full {
                Some(t) => t,
                None => self.top,
            };
            self.phase = WalkPhase::Done { chosen };
        } else {
            self.phase = WalkPhase::NeedEmptyAtNext { next };
        }
        self.ask()
    }

    /// Whether the page at the pending `next` would empty its right column:
    /// a full page is walked onto; an empty one asks for the chain-end test.
    pub fn feed_empty(&mut self, empty: bool) -> (r: WalkAsk)
        requires
            old(self).wf(),
            old(self).phase is NeedEmptyAtNext,
            old(self).phase->NeedEmptyAtNext_next < old(self).line_count,
        ensures
            ({
                let next = old(self).phase->NeedEmptyAtNext_next;
                *final(self) == (if !empty {
                    advance_spec(*old(self), next, true)
                } else {
                    FinalSpreadWalk { phase: WalkPhase::NeedNextOfNext { next }, ..*old(self) }
                })
            }),
            final(self).wf() || final(self).phase is Done,
            final(self).phase is Done || walk_measure(*final(self)) < walk_measure(*old(self)),
            r == ask_of(*final(self)),
    {
        let next = match self.phase {
            WalkPhase::NeedEmptyAtNext { next } => next,
            _ => 0,
        };
        if !empty {
            proof {
                lemma_advance_decreases(self.line_count as int, self.guard as int, self.line_count as int + 2, self.line_count as int + 3);
            }
            self.advance(next, true);
        } else {
            self.phase = WalkPhase::NeedNextOfNext { next };
        }
        self.ask()
    }

    /// The forward boundary of the pending `next` is `next_of_next`. When the
    /// page at `next` is the true end (no dialogue at or below it, or the
    /// chain ends there) the pull search starts; otherwise the walk moves on
    /// past it (its right column is empty, so it is not a full top).
    pub fn feed_next_of_next(&mut self, next_of_next: usize, dialogue: &[bool]) -> (r: WalkAsk)
        requires
            old(self).wf(),
            old(self).phase is NeedNextOfNext,
            old(self).phase->NeedNextOfNext_next < old(self).line_count,
            old(self).phase->NeedNextOfNext_next > old(self).top,
        ensures
            ({
                let next = old(self).phase->NeedNextOfNext_next;
                let chain_ends = next_of_next >= old(self).line_count || next_of_next <= next;
                let tail = !dialogue_at_or_below(dialogue@, next as int, old(self).line_count as int) || chain_ends;
                *final(self) == (if tail {
                    start_pull_spec(*old(self), next)
                } else {
                    advance_spec(*old(self), next, false)
                })
            }),
            final(self).wf() || final(self).phase is Done,
            final(self).phase is Done || walk_measure(*final(self)) < walk_measure(*old(self)),
            r == ask_of(*final(self)),
    {
        let next = match self.phase {
            WalkPhase::NeedNextOfNext { next } => next,
            _ => 0,
        };
        let chain_ends = next_of_next >= self.line_count || next_of_next <= next;
        let tail = !dialogue_below(dialogue, next, self.line_count) || chain_ends;
        if tail {
            self.start_pull(next);
        } else {
            proof {
                lemma_advance_decreases(self.line_count as int, self.guard as int, self.line_count as int + 1, self.line_count as int + 3);
            }
            self.advance(next, false);
        }
        self.ask()
    }

    /// The split at the pending candidate `t` has forward boundary
    /// `split_next`, and `empty` says whether its right column is empty: a
    /// candidate with no dialogue below its spread and a full right column is
    /// the pulled final top; otherwise the search moves to `t + 1`, and stops
    /// without a pull at `min(next, line_count)`.
    pub fn feed_split(&mut self, split_next: usize, empty: bool, dialogue: &[bool]) -> (r: WalkAsk)
        requires
            old(self).wf(),
            old(self).phase is Pulling,
        ensures
            ({
                let next = old(self).phase->Pulling_next;
                let t = old(self).phase->Pulling_t;
                let end = if next <= old(self).line_count { next } else { old(self).line_count };
                *final(self) == (if !dialogue_at_or_below(dialogue@, split_next as int, old(self).line_count as int) && !empty {
                    FinalSpreadWalk { last_full: Some(t), phase: WalkPhase::Done { chosen: t }, ..*old(self) }
                } else if t + 1 >= end {
                    FinalSpreadWalk { phase: WalkPhase::Done { chosen: chosen_of(old(self).top, old(self).last_full) }, ..*old(self) }
                } else {
                    FinalSpreadWalk { phase: WalkPhase::Pulling { next, t: (t + 1) as usize }, ..*old(self) }
                })
            }),
            final(self).wf() || final(self).phase is Done,
            final(self).phase is Done || walk_measure(*final(self)) < walk_measure(*old(self)),
            r == ask_of(*final(self)),
    {
        let (next, t) = match self.phase {
            WalkPhase::Pulling { next, t } => (next, t),
            _ => (0, 0),
        };
        let end = if next <= self.line_count { next } else { self.line_count };
        if !dialogue_below(dialogue, split_next, self.line_count) && !empty {
            self.last_full = Some(t);
            self.phase = WalkPhase::Done { chosen: t };
        } else if t + 1 >= end {
            let chosen = match self.last_full {
                Some(x) => x,
                None => self.top,
            };
            self.phase = WalkPhase::Done { chosen };
        } else {
            self.phase = WalkPhase::Pulling { next, t: t + 1 };
        }
        self.ask()
    }
}

// ---------------------------------------------------------------------------
// Other final tops
// ---------------------------------------------------------------------------

/// The single-column final top: accumulate line heights backward from the
/// last line until the next line would overflow `capacity` (the last line is
/// always shown).
pub open spec fn single_column_top_spec(heights: Seq<i32>, capacity: int, line_count: int, top: int, total: int) -> int
    decreases top,
{
    if top < 0 || top >= heights.len() {
        top
    } else if total + heights[top] > capacity && top != line_count - 1 {
        top + 1
    } else if top == 0 {
        0
    } else {
        single_column_top_spec(heights, capacity, line_count, top - 1, total + heights[top])
    }
}

/// The single-column final top (see `single_column_top_spec`); `heights[i]`
/// is line `i`'s pixel height. Stops at a line with no height.
pub fn single_column_last_top(heights: &[i32], capacity: i32, line_count: usize) -> (r: usize)
    requires
        line_count > 0,
    ensures
        r as int == single_column_top_spec(heights@, capacity as int, line_count as int, line_count - 1, 0),
{
    let n = heights.len();
    if line_count - 1 >= n {
        return line_count - 1;
    }
    let mut top = line_count - 1;
    let mut total: i128 = 0;
    loop
        invariant
            n == heights@.len(),
            line_count <= n,
            top < line_count,
            -(0x8000_0000 * (line_count - 1 - top)) <= total <= 0x8000_0000 * (line_count - 1 - top),
            single_column_top_spec(heights@, capacity as int, line_count as int, line_count - 1, 0)
                == single_column_top_spec(heights@, capacity as int, line_count as int, top as int, total as int),
        decreases top,
    {
        let h = heights[top];
        if total + h as i128 > capacity as i128 && top != line_count - 1 {
            return top + 1;
        }
        if top == 0 {
            return 0;
        }
        total = total + h as i128;
        top -= 1;
    }
}

/// The final top of a work with one section per page: the last section
/// start at or before the last line (line 0 when there is none).
pub fn last_section_top(section_starts: &[bool], line_count: usize) -> (r: usize)
    requires
        line_count > 0,
    ensures
        r < line_count,
        r == 0 || flag_at(section_starts@, r as int),
        forall|j: int| r < j < line_count ==> !flag_at(section_starts@, j),
{
    let mut top = line_count - 1;
    while top > 0 && !(top < section_starts.len() && section_starts[top])
        invariant
            top < line_count,
            forall|j: int| top < j < line_count ==> !flag_at(section_starts@, j),
        decreases top,
    {
        top -= 1;
    }
    top
}

/// The final top before the layout is ready: the last `lines_per_page`
/// lines per column.
pub fn fallback_last_top(line_count: usize, lines_per_page: usize, columns: usize) -> (r: usize)
    ensures
        r == (if lines_per_page * columns >= line_count { 0 } else { line_count - lines_per_page * columns }),
{
    assert((lines_per_page as u128) * (columns as u128) <= u128::MAX) by (nonlinear_arith)
        requires lines_per_page <= usize::MAX, columns <= usize::MAX, usize::MAX < 0x1_0000_0000_0000_0000;
    let lpp: u128 = lines_per_page as u128 * columns as u128;
    if lpp >= line_count as u128 { 0 } else { line_count - (lpp as usize) }
}

// ---------------------------------------------------------------------------
// The canonical spread of a line
// ---------------------------------------------------------------------------

/// What the canonical-spread walk asks, or its answer.
#[derive(Clone, Copy, Debug, PartialEq, Eq, Structural)]
pub enum CanonicalAsk {
    /// The last line of the page at this top (column split end, or last fully
    /// visible line) and its forward boundary.
    PageAt(usize),
    /// The canonical top.
    Done(usize),
}

/// The walk behind the canonical spread of `target`: from a real page
/// boundary at or before it, forward along the page chain until the page
/// that contains it.
#[derive(Clone, Copy, Debug, PartialEq, Eq, Structural)]
pub struct CanonicalWalk {
    pub target: usize,
    pub line_count: usize,
    pub top: usize,
    pub guard: usize,
    pub done: bool,
}

impl CanonicalWalk {
    /// Starts from `start` (the section header above the target, clamped to
    /// it); the target is clamped into the buffer.
    pub fn new(target: usize, start: usize, line_count: usize) -> (r: Self)
        requires
            0 < line_count < usize::MAX,
        ensures
            r.target == (if target < line_count { target } else { (line_count - 1) as usize }),
            r.top == (if start <= r.target { start } else { r.target }),
            r.line_count == line_count,
            r.guard == 0,
            !r.done,
    {
        let t = if target < line_count { target } else { line_count - 1 };
        let top = if start <= t { start } else { t };
        CanonicalWalk { target: t, line_count, top, guard: 0, done: false }
    }

    /// The page at the current top ends at `page_end` and the next one starts
    /// at `next`: the walk stops when the page contains the target or the
    /// chain does not advance within the buffer (or after `line_count`
    /// steps); otherwise it moves to `next`.
    pub fn feed(&mut self, page_end: usize, next: usize) -> (r: CanonicalAsk)
        requires
            !old(self).done,
            old(self).guard <= old(self).line_count,
            old(self).line_count < usize::MAX,
        ensures
            old(self).target <= page_end ==> *final(self) == (CanonicalWalk { done: true, ..*old(self) })
                && r == CanonicalAsk::Done(old(self).top),
            old(self).target > page_end && (next <= old(self).top || next >= old(self).line_count) ==> *final(self) == (CanonicalWalk { done: true, ..*old(self) })
                && r == CanonicalAsk::Done(old(self).top),
            old(self).target > page_end && !(next <= old(self).top || next >= old(self).line_count) ==> ({
                let g = old(self).guard + 1;
                &&& final(self).top == next
                &&& final(self).guard == g
                &&& final(self).target == old(self).target
                &&& final(self).line_count == old(self).line_count
                &&& final(self).done == (g > old(self).line_count)
                &&& r == (if g > old(self).line_count { CanonicalAsk::Done(next) } else { CanonicalAsk::PageAt(next) })
            }),
            final(self).guard <= final(self).line_count || final(self).done,
            (r matches CanonicalAsk::PageAt(t) ==> t > old(self).top),
    {
        if self.target <= page_end {
            self.done = true;
            return CanonicalAsk::Done(self.top);
        }
        if next <= self.top || next >= self.line_count {
            self.done = true;
            return CanonicalAsk::Done(self.top);
        }
        self.top = next;
        self.guard = self.guard + 1;
        if self.guard > self.line_count {
            self.done = true;
            return CanonicalAsk::Done(next);
        }
        CanonicalAsk::PageAt(next)
    }
}

// ---------------------------------------------------------------------------
// The scene snap of `x`
// ---------------------------------------------------------------------------

/// The scan of the scene snap from line `i` down to `split`: a section start
/// decides (snap when it lies on the current spread, at or before
/// `page_end`), another dialogue line forbids the snap.
pub open spec fn snap_scan(dialogue: Seq<bool>, section: Seq<bool>, i: int, split: int, page_end: int) -> Option<usize>
    decreases i - split,
{
    if i <= split {
        if flag_at(section, split) { Some(split as usize) } else { None }
    } else if flag_at(section, i - 1) {
        if i - 1 <= page_end { Some(split as usize) } else { None }
    } else if flag_at(dialogue, i - 1) {
        None
    } else {
        snap_scan(dialogue, section, i - 1, split, page_end)
    }
}

/// The scene-aware turn target of `x` on a two-column spread (top
/// `page_top`, right column from `split` to `page_end`): the right column's
/// top, when the right column opens a new scene — a section start lies
/// between the right column's top and its first dialogue line, with no other
/// dialogue line between, on this spread. Never on anthologies, never when
/// the right column is empty or holds no dialogue, and never when snapping
/// would leave the right column empty (`empty_right_at_split`).
pub fn scene_snap_top(
    two_columns: bool,
    anthology: bool,
    page_top: usize,
    split: usize,
    page_end: usize,
    line_count: usize,
    empty_right_at_split: bool,
    dialogue: &[bool],
    section: &[bool],
) -> (r: Option<usize>)
    ensures
        r == (if !two_columns || anthology || split <= page_top || split >= line_count {
            None
        } else if next_dialogue_from_spec(dialogue@, split as int, line_count as int) >= line_count {
            None
        } else if empty_right_at_split {
            None
        } else {
            snap_scan(dialogue@, section@, next_dialogue_from_spec(dialogue@, split as int, line_count as int), split as int, page_end as int)
        }),
        r matches Some(t) ==> t == split && t > page_top,
{
    if !two_columns || anthology || split <= page_top || split >= line_count {
        return None;
    }
    let rc = next_dialogue_from(dialogue, split, line_count);
    if rc >= line_count {
        return None;
    }
    if empty_right_at_split {
        return None;
    }
    let mut i = rc;
    while i > split
        invariant
            split <= i <= rc,
            two_columns && !anthology && split > page_top && split < line_count,
            rc as int == next_dialogue_from_spec(dialogue@, split as int, line_count as int),
            rc < line_count,
            !empty_right_at_split,
            snap_scan(dialogue@, section@, rc as int, split as int, page_end as int)
                == snap_scan(dialogue@, section@, i as int, split as int, page_end as int),
        decreases i - split,
    {
        let k = i - 1;
        if k < section.len() && section[k] {
            if k <= page_end {
                return Some(split);
            }
            return None;
        }
        if k < dialogue.len() && dialogue[k] {
            return None;
        }
        i = k;
    }
    if split < section.len() && section[split] { Some(split) } else { None }
}

} // verus!
