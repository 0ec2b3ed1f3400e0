//! The pure cores of reader navigation: why a page changed and what follows
//! from it, the speaker-turn and paragraph scans behind `J`/`K`/`q`/`,`, the
//! gap-row skip, chapter numbering, the start/end landing targets, the
//! final-spread redirect, and page turns driven by a stored page table.

use vstd::prelude::*;
use crate::text::{contains_str, decimal_int, has_infix, lowercased, push_decimal_i128, to_lowercase, trim, trimmed};
use crate::page_table::{
    flag_at, law_page_top_resolves_to_its_page, law_valid_table_tops_increase, page_for_line,
    page_for_line_spec, table_verdict, tops_sorted, Spread, ValidateCtx,
};

verus! {

/// Scan direction.
#[derive(Clone, Copy, Debug, PartialEq, Eq, Structural)]
pub enum Direction {
    Next,
    Prev,
}

/// Why the viewport's page changed; drives which consumers run afterwards.
#[derive(Clone, Copy, Debug, PartialEq, Eq, Structural)]
pub enum PageChangeReason {
    /// User pressed page-forward.
    Forward,
    /// User pressed page-backward.
    Backward,
    /// User jumped to a specific line (gg, G, bookmark picker).
    JumpToLine,
    /// User toggled a bookmark and the cursor is refreshed on it.
    JumpToBookmark,
    /// User jumped to a chapter.
    Chapter,
    /// User jumped to a scene.
    Scene,
    /// User jumped to a vocab match.
    Vocab,
    /// A segment bind that seeks audio.
    Dialogue,
    /// Cursor-only movement with no audio seek.
    Cursor,
    /// Playback sync drove the cursor; never re-seek the player.
    MpvSync,
    /// Layout refresh after a font/size/translation change.
    Resnap,
    /// A work just loaded.
    WorkLoad,
}

impl PageChangeReason {
    /// Whether the player seeks to the cursor line after the change: not for
    /// player-driven changes (they would loop), layout refreshes, work loads,
    /// or cursor-only moves.
    pub fn should_seek(self) -> (r: bool)
        ensures
            r == !(self == PageChangeReason::MpvSync || self == PageChangeReason::Resnap
                || self == PageChangeReason::WorkLoad || self == PageChangeReason::Cursor),
    {
        match self {
            PageChangeReason::MpvSync | PageChangeReason::Resnap | PageChangeReason::WorkLoad
            | PageChangeReason::Cursor => false,
            _ => true,
        }
    }

    /// Whether the vocab popup is offered after the change: not for changes
    /// the user did not request.
    pub fn should_show_vocab(self) -> (r: bool)
        ensures
            r == !(self == PageChangeReason::MpvSync || self == PageChangeReason::Resnap
                || self == PageChangeReason::WorkLoad),
    {
        match self {
            PageChangeReason::MpvSync | PageChangeReason::Resnap | PageChangeReason::WorkLoad => false,
            _ => true,
        }
    }
}

/// What runs after a page change, in order: a scheduled page crossing is
/// cancelled (except when playback sync schedules it), the visible-range cache
/// is dropped and the highlight repainted (always), the player seeks (unless
/// the reason forbids it or the vocab-sentence loop owns the player), and the
/// vocab popup is offered.
#[derive(Clone, Copy, Debug, PartialEq, Eq, Structural)]
pub struct AfterPageChange {
    pub cancel_pending_cross: bool,
    pub seek: bool,
    pub show_vocab: bool,
}

/// The consumers that run after a page change for `reason`.
pub fn after_page_change_plan(reason: PageChangeReason, vocab_loop_active: bool) -> (r: AfterPageChange)
    ensures
        r.cancel_pending_cross == (reason != PageChangeReason::MpvSync),
        r.seek == (!(reason == PageChangeReason::MpvSync || reason == PageChangeReason::Resnap
            || reason == PageChangeReason::WorkLoad || reason == PageChangeReason::Cursor) && !vocab_loop_active),
        r.show_vocab == !(reason == PageChangeReason::MpvSync || reason == PageChangeReason::Resnap
            || reason == PageChangeReason::WorkLoad),
{
    AfterPageChange {
        cancel_pending_cross: reason != PageChangeReason::MpvSync,
        seek: reason.should_seek() && !vocab_loop_active,
        show_vocab: reason.should_show_vocab(),
    }
}

/// A speaker as a plain value.
pub open spec fn speaker_view(s: Option<String>) -> Option<Seq<char>> {
    match s {
        Some(x) => Some(x@),
        None => None,
    }
}

/// Line speakers as plain values.
pub open spec fn speakers_view(s: Seq<Option<String>>) -> Seq<Option<Seq<char>>> {
    s.map_values(|x: Option<String>| speaker_view(x))
}

/// Same speaker (both unmapped counts as the same).
fn same_speaker(a: &Option<String>, b: &Option<String>) -> (r: bool)
    ensures
        r == (speaker_view(*a) == speaker_view(*b)),
{
    match (a, b) {
        (Some(x), Some(y)) => *x == *y,
        (None, None) => true,
        _ => false,
    }
}

proof fn lemma_speakers_view(s: Seq<Option<String>>)
    ensures
        speakers_view(s).len() == s.len(),
        forall|i: int| 0 <= i < s.len() ==> #[trigger] speakers_view(s)[i] == speaker_view(s[i]),
{
}

/// Line `i` starts a different turn than speaker `cur`: a dialogue line whose
/// speaker differs.
pub open spec fn turn_break(sp: Seq<Option<Seq<char>>>, dlg: Seq<bool>, cur: Option<Seq<char>>, i: int) -> bool {
    dlg[i] && sp[i] != cur
}

/// `t` is the first dialogue line of the speech block that contains the
/// dialogue line `top`: every dialogue line in `[t, top]` has `top`'s speaker,
/// `t` is a dialogue line, and the nearest dialogue line before `t` (if any)
/// has another speaker.
pub open spec fn block_start(sp: Seq<Option<Seq<char>>>, dlg: Seq<bool>, top: int, t: int) -> bool {
    &&& 0 <= t <= top
    &&& dlg[t]
    &&& sp[t] == sp[top]
    &&& forall|j: int| t <= j <= top && dlg[j] ==> sp[j] == sp[top]
    &&& forall|j: int| 0 <= j < t && dlg[j] && (forall|k: int| j < k < t ==> !dlg[k]) ==> sp[j] != sp[top]
}

/// The first line of the speech block containing dialogue line `top`.
fn block_first(speakers: &[Option<String>], is_dialogue: &[bool], top: usize) -> (r: usize)
    requires
        top < speakers@.len(),
        speakers@.len() == is_dialogue@.len(),
        is_dialogue@[top as int],
    ensures
        block_start(speakers_view(speakers@), is_dialogue@, top as int, r as int),
{
    let ghost sp = speakers_view(speakers@);
    let ghost dlg = is_dialogue@;
    proof {
        lemma_speakers_view(speakers@);
    }
    let mut first = top;
    let mut i = top;
    while i > 0
        invariant
            i <= first <= top < speakers@.len(),
            speakers@.len() == dlg.len(),
            sp == speakers_view(speakers@),
            dlg == is_dialogue@,
            dlg[first as int],
            sp[first as int] == sp[top as int],
            forall|j: int| i <= j <= top && dlg[j] ==> sp[j] == sp[top as int],
            forall|k: int| i <= k < first ==> !dlg[k],
        decreases i,
    {
        i -= 1;
        if is_dialogue[i] {
            if same_speaker(&speakers[i], &speakers[top]) {
                first = i;
            } else {
                proof {
                    assert forall|j: int| 0 <= j < first && dlg[j] && (forall|k: int| j < k < first ==> !dlg[k])
                        implies sp[j] != sp[top as int] by {
                        if j < i {
                            assert(dlg[i as int]);
                        }
                    }
                }
                return first;
            }
        }
    }
    first
}

/// The target of a speaker-turn jump from line `from`: the FIRST dialogue line
/// of the next (`Next`) or previous (`Prev`) run of dialogue lines whose
/// speaker differs from `from`'s speaker; `None` at the range boundary or when
/// no speakers differ. Reads only per-line speaker metadata (`speakers[i]`,
/// `None` for unmapped lines) and the dialogue flags.
pub fn speaker_turn_target(
    from: usize,
    dir: Direction,
    speakers: &[Option<String>],
    is_dialogue: &[bool],
) -> (r: Option<usize>)
    requires
        from < speakers@.len(),
        speakers@.len() == is_dialogue@.len(),
    ensures
        ({
            let sp = speakers_view(speakers@);
            let dlg = is_dialogue@;
            let cur = sp[from as int];
            match dir {
                Direction::Next => match r {
                    Some(t) => from < t < sp.len() && turn_break(sp, dlg, cur, t as int)
                        && forall|j: int| from < j < t ==> !turn_break(sp, dlg, cur, j),
                    None => forall|j: int| from < j < sp.len() ==> !turn_break(sp, dlg, cur, j),
                },
                Direction::Prev => match r {
                    Some(t) => exists|p: int| 0 <= p < from && turn_break(sp, dlg, cur, p)
                        && (forall|j: int| p < j < from ==> !turn_break(sp, dlg, cur, j))
                        && block_start(sp, dlg, p, t as int),
                    None => forall|j: int| 0 <= j < from ==> !turn_break(sp, dlg, cur, j),
                },
            }
        }),
{
    let ghost sp = speakers_view(speakers@);
    let ghost dlg = is_dialogue@;
    proof {
        lemma_speakers_view(speakers@);
    }
    let len = speakers.len();
    match dir {
        Direction::Next => {
            let mut i = from + 1;
            while i < len
                invariant
                    from < i <= len || i == from + 1,
                    dir == Direction::Next,
                    len == sp.len(),
                    sp == speakers_view(speakers@),
                    dlg == is_dialogue@,
                    len == dlg.len(),
                    from < len,
                    forall|j: int| from < j < i ==> !turn_break(sp, dlg, sp[from as int], j),
                decreases len - i,
            {
                if is_dialogue[i] && !same_speaker(&speakers[i], &speakers[from]) {
                    assert(turn_break(sp, dlg, sp[from as int], i as int));
                    return Some(i);
                }
                assert(!turn_break(sp, dlg, sp[from as int], i as int));
                i += 1;
            }
            None
        },
        Direction::Prev => {
            let mut i = from;
            while i > 0
                invariant
                    i <= from < len,
                    dir == Direction::Prev,
                    len == sp.len(),
                    sp == speakers_view(speakers@),
                    dlg == is_dialogue@,
                    len == dlg.len(),
                    forall|j: int| i <= j < from ==> !turn_break(sp, dlg, sp[from as int], j),
                decreases i,
            {
                i -= 1;
                if is_dialogue[i] && !same_speaker(&speakers[i], &speakers[from]) {
                    let t = block_first(speakers, is_dialogue, i);
                    assert(turn_break(sp, dlg, sp[from as int], i as int));
                    return Some(t);
                }
                assert(!turn_break(sp, dlg, sp[from as int], i as int));
            }
            None
        },
    }
}

/// The first dialogue line of the speech block containing `from`, or `None`
/// when `from` is not a dialogue line with a speaker (a chrome or stage line
/// has no block to anchor to).
pub fn current_block_first_line(from: usize, speakers: &[Option<String>], is_dialogue: &[bool]) -> (r: Option<usize>)
    requires
        from < speakers@.len(),
        speakers@.len() == is_dialogue@.len(),
    ensures
        ({
            let sp = speakers_view(speakers@);
            let dlg = is_dialogue@;
            match r {
                Some(t) => dlg[from as int] && sp[from as int] is Some && block_start(sp, dlg, from as int, t as int),
                None => !dlg[from as int] || sp[from as int] is None,
            }
        }),
{
    if !is_dialogue[from] {
        return None;
    }
    if speakers[from].is_none() {
        return None;
    }
    Some(block_first(speakers, is_dialogue, from))
}

/// The next (`Next`) or previous (`Prev`) non-blank line from `from`, or
/// `None` at the buffer edge: the prose analog of a speaker turn.
pub fn adjacent_paragraph(line_count: usize, from: usize, dir: Direction, is_blank: &[bool]) -> (r: Option<usize>)
    requires
        line_count <= is_blank@.len(),
        from <= is_blank@.len(),
    ensures
        (match dir {
            Direction::Next => match r {
                Some(t) => from < t < line_count && !is_blank@[t as int]
                    && forall|j: int| from < j < t ==> is_blank@[j],
                None => forall|j: int| from < j < line_count ==> is_blank@[j],
            },
            Direction::Prev => match r {
                Some(t) => t < from && !is_blank@[t as int] && forall|j: int| t < j < from ==> is_blank@[j],
                None => forall|j: int| 0 <= j < from ==> is_blank@[j],
            },
        }),
{
    match dir {
        Direction::Next => {
            if from >= line_count {
                return None;
            }
            let mut i = from + 1;
            while i < line_count
                invariant
                    from < i <= line_count,
                    dir == Direction::Next,
                    line_count <= is_blank@.len(),
                    forall|j: int| from < j < i ==> is_blank@[j],
                decreases line_count - i,
            {
                if !is_blank[i] {
                    return Some(i);
                }
                i += 1;
            }
            None
        },
        Direction::Prev => {
            let mut i = from;
            while i > 0
                invariant
                    i <= from <= is_blank@.len(),
                    dir == Direction::Prev,
                    forall|j: int| i <= j < from ==> is_blank@[j],
                decreases i,
            {
                i -= 1;
                if !is_blank[i] {
                    return Some(i);
                }
            }
            None
        },
    }
}

/// Where a downward gap skip from `bl` stops.
pub open spec fn skip_gap_down(line_count: int, bl: int, gap: Seq<bool>) -> int
    decreases line_count - bl,
{
    if 0 <= bl < gap.len() && gap[bl] && bl + 1 < line_count {
        skip_gap_down(line_count, bl + 1, gap)
    } else {
        bl
    }
}

/// Where an upward gap skip from `bl` stops.
pub open spec fn skip_gap_up(bl: int, gap: Seq<bool>) -> int
    decreases bl,
{
    if 0 < bl < gap.len() && gap[bl] {
        skip_gap_up(bl - 1, gap)
    } else {
        bl
    }
}

/// Advance `bl` past consecutive gap rows in direction `dir` (+1 down, -1
/// up), clamped to `[0, line_count)`: the first non-gap line, or — when the
/// run reaches the buffer edge — the last in-bounds line reached. A line that
/// is not a gap is returned unchanged.
pub fn skip_gap_rows(line_count: usize, bl: usize, dir: isize, is_gap: &[bool]) -> (r: usize)
    requires
        dir == 1 || dir == -1,
        line_count <= is_gap@.len(),
        bl < is_gap@.len(),
        dir == -1 ==> bl < line_count,
    ensures
        r == (if dir == 1 { skip_gap_down(line_count as int, bl as int, is_gap@) } else { skip_gap_up(bl as int, is_gap@) }),
        !is_gap@[bl as int] ==> r == bl,
{
    let mut b = bl;
    if dir > 0 {
        while is_gap[b] && b + 1 < line_count
            invariant
                b < is_gap@.len(),
                line_count <= is_gap@.len(),
                skip_gap_down(line_count as int, b as int, is_gap@) == skip_gap_down(line_count as int, bl as int, is_gap@),
                !is_gap@[bl as int] ==> b == bl,
            decreases line_count - b,
        {
            b = b + 1;
        }
    } else {
        while b > 0 && is_gap[b]
            invariant
                b < is_gap@.len(),
                skip_gap_up(b as int, is_gap@) == skip_gap_up(bl as int, is_gap@),
                !is_gap@[bl as int] ==> b == bl,
            decreases b,
        {
            b = b - 1;
        }
    }
    b
}

/// Chapter numbering for prose, read from the `div1` metadata: `(current,
/// total)` for a real chapter; `None` in front matter (`div1 == 0`) or when
/// the metadata is degenerate.
pub fn prose_chapter_numbering(div1: i64, max_div1: i64) -> (r: Option<(i64, i64)>)
    ensures
        r == (if div1 >= 1 && max_div1 >= 1 { Some((div1, max_div1)) } else { None::<(i64, i64)> }),
{
    if div1 >= 1 && max_div1 >= 1 {
        Some((div1, max_div1))
    } else {
        None
    }
}

/// The chapter line the toast shows for prose: `ABBR — Chapter N of M —
/// heading` for a real chapter (numbering from the `div1` metadata), else
/// `ABBR — Front matter — work title`.
pub open spec fn chapter_label_spec(abbrev: Seq<char>, div1: i64, max_div1: i64, heading: Seq<char>, work_title: Seq<char>) -> Seq<char> {
    if div1 >= 1 && max_div1 >= 1 {
        abbrev + " — Chapter "@ + decimal_int(div1 as int) + " of "@ + decimal_int(max_div1 as int) + " — "@ + heading
    } else {
        abbrev + " — Front matter — "@ + work_title
    }
}

/// The chapter toast text for prose (see `chapter_label_spec`).
pub fn prose_chapter_label(abbrev: &str, div1: i64, max_div1: i64, heading: &str, work_title: &str) -> (r: String)
    ensures
        r@ == chapter_label_spec(abbrev@, div1, max_div1, heading@, work_title@),
{
    let mut s = abbrev.to_owned();
    match prose_chapter_numbering(div1, max_div1) {
        Some((num, total)) => {
            s.append(" — Chapter ");
            push_decimal_i128(&mut s, num as i128);
            s.append(" of ");
            push_decimal_i128(&mut s, total as i128);
            s.append(" — ");
            s.append(heading);
        },
        None => {
            s.append(" — Front matter — ");
            s.append(work_title);
        },
    }
    s
}

/// The last chapter-break line at or before `current` (`breaks` ascending).
pub fn chapter_break_at_or_before(breaks: &[usize], current: usize) -> (r: Option<usize>)
    ensures
        r matches Some(k) ==> k < breaks@.len() && breaks@[k as int] <= current
            && forall|j: int| k < j < breaks@.len() ==> breaks@[j] > current,
        r is None ==> forall|j: int| 0 <= j < breaks@.len() ==> breaks@[j] > current,
{
    let mut i = breaks.len();
    while i > 0
        invariant
            i <= breaks@.len(),
            forall|j: int| i <= j < breaks@.len() ==> breaks@[j] > current,
        decreases i,
    {
        if breaks[i - 1] <= current {
            return Some(i - 1);
        }
        i -= 1;
    }
    None
}

// ---------------------------------------------------------------------------
// Bookmarks and line ids
// ---------------------------------------------------------------------------

/// Where a bookmark key goes.
#[derive(Clone, Copy, Debug, PartialEq, Eq, Structural)]
pub enum BookmarkJump {
    /// No line is bookmarked (the caller toasts "No bookmarks").
    NoBookmarks,
    /// No bookmark lies in that direction: the cursor stays (no wrap).
    Stay,
    /// Jump to this bookmarked line.
    Jump(usize),
}

/// Some line is bookmarked.
pub open spec fn any_bookmark(bm: Seq<bool>) -> bool {
    exists|i: int| 0 <= i < bm.len() && bm[i]
}

/// The next bookmark after the cursor line, without wrapping.
pub fn next_bookmark_target(bm: &[bool], current: usize) -> (r: BookmarkJump)
    ensures
        !any_bookmark(bm@) <==> r == BookmarkJump::NoBookmarks,
        r matches BookmarkJump::Jump(k) ==> current < k < bm@.len() && bm@[k as int]
            && forall|j: int| current < j < k ==> !bm@[j],
        r == BookmarkJump::Stay ==> forall|j: int| current < j < bm@.len() ==> !bm@[j],
{
    let mut any = false;
    let mut i: usize = 0;
    while i < bm.len()
        invariant
            i <= bm@.len(),
            any == exists|j: int| 0 <= j < i && bm@[j],
        decreases bm@.len() - i,
    {
        if bm[i] {
            any = true;
        }
        i += 1;
    }
    if !any {
        return BookmarkJump::NoBookmarks;
    }
    if current >= bm.len() {
        return BookmarkJump::Stay;
    }
    let mut idx = current + 1;
    while idx < bm.len()
        invariant
            current < idx,
            forall|j: int| current < j < idx ==> !bm@[j],
        decreases bm@.len() - idx,
    {
        if bm[idx] {
            return BookmarkJump::Jump(idx);
        }
        idx += 1;
    }
    BookmarkJump::Stay
}

/// The previous bookmark before the cursor line, without wrapping.
pub fn prev_bookmark_target(bm: &[bool], current: usize) -> (r: BookmarkJump)
    ensures
        !any_bookmark(bm@) <==> r == BookmarkJump::NoBookmarks,
        r matches BookmarkJump::Jump(k) ==> k < current && k < bm@.len() && bm@[k as int]
            && forall|j: int| k < j < current && j < bm@.len() ==> !bm@[j],
        r == BookmarkJump::Stay ==> forall|j: int| 0 <= j < current && j < bm@.len() ==> !bm@[j],
{
    let mut any = false;
    let mut i: usize = 0;
    while i < bm.len()
        invariant
            i <= bm@.len(),
            any == exists|j: int| 0 <= j < i && bm@[j],
        decreases bm@.len() - i,
    {
        if bm[i] {
            any = true;
        }
        i += 1;
    }
    if !any {
        return BookmarkJump::NoBookmarks;
    }
    let start = if current < bm.len() { current } else { bm.len() };
    let mut idx = start;
    while idx > 0
        invariant
            idx <= start,
            start <= bm@.len(),
            start <= current,
            start == current || start == bm@.len(),
            forall|j: int| idx <= j < start ==> !bm@[j],
        decreases idx,
    {
        if bm[idx - 1] {
            return BookmarkJump::Jump(idx - 1);
        }
        idx -= 1;
    }
    BookmarkJump::Stay
}

/// The buffer line of the work line whose id is `id`: the first work line
/// with that id, through `work_to_buffer` when the buffer is remapped
/// (identity otherwise).
pub fn buffer_line_for_line_id(ids: &[i64], work_to_buffer: Option<&[usize]>, id: i64) -> (r: Option<usize>)
    requires
        work_to_buffer matches Some(m) ==> m@.len() >= ids@.len(),
    ensures
        r is None <==> forall|j: int| 0 <= j < ids@.len() ==> ids@[j] != id,
        r matches Some(b) ==> exists|w: int| 0 <= w < ids@.len() && ids@[w] == id
            && (forall|j: int| 0 <= j < w ==> ids@[j] != id)
            && b == (match work_to_buffer {
                Some(m) => m@[w],
                None => w as usize,
            }),
{
    let mut w: usize = 0;
    while w < ids.len()
        invariant
            w <= ids@.len(),
            work_to_buffer matches Some(m) ==> m@.len() >= ids@.len(),
            forall|j: int| 0 <= j < w ==> ids@[j] != id,
        decreases ids@.len() - w,
    {
        if ids[w] == id {
            return match work_to_buffer {
                Some(m) => Some(m[w]),
                None => Some(w),
            };
        }
        w += 1;
    }
    None
}

/// The id of the work line under the cursor: through `buffer_to_work` when
/// the buffer is remapped (identity otherwise); `None` for an unmapped or
/// out-of-range line.
pub fn current_line_id(ids: &[i64], buffer_to_work: Option<&[Option<usize>]>, current: usize) -> (r: Option<i64>)
    ensures
        r == (match (match buffer_to_work {
            Some(m) => if current < m@.len() { m@[current as int] } else { None },
            None => Some(current),
        }) {
            Some(w) => if w < ids@.len() { Some(ids@[w as int]) } else { None::<i64> },
            None => None,
        }),
{
    let work_idx = match buffer_to_work {
        Some(m) => if current < m.len() { m[current] } else { None },
        None => Some(current),
    };
    match work_idx {
        Some(w) => if w < ids.len() { Some(ids[w]) } else { None },
        None => None,
    }
}

// ---------------------------------------------------------------------------
// Act starts and header tops
// ---------------------------------------------------------------------------

/// The scan behind `act_dialogue_lines` over lines `0..bl`: the `div1` of
/// the last act boundary seen, and the landing lines so far.
pub open spec fn act_scan(div1: Seq<Option<i64>>, dialogue: Seq<bool>, line_count: int, bl: int) -> (Option<i64>, Seq<usize>)
    decreases bl,
{
    if bl <= 0 {
        (None, Seq::empty())
    } else {
        let (prev, out) = act_scan(div1, dialogue, line_count, bl - 1);
        let i = bl - 1;
        let d = if i < div1.len() { div1[i] } else { None };
        match d {
            None => (prev, out),
            Some(v) => if Some(v) == prev {
                (prev, out)
            } else {
                let t = next_dialogue_from_spec(dialogue, i, line_count);
                (Some(v), if t < line_count && !(out.len() > 0 && out.last() == t) { out.push(t as usize) } else { out })
            },
        }
    }
}

/// The first dialogue line of each act: at every line whose act (`div1`)
/// differs from the last mapped line's, the first dialogue line at or after
/// it, kept when there is one and it differs from the previous entry.
pub open spec fn act_dialogue_spec(div1: Seq<Option<i64>>, dialogue: Seq<bool>, line_count: int) -> Seq<usize> {
    act_scan(div1, dialogue, line_count, line_count).1
}

proof fn lemma_next_dialogue_monotone(dialogue: Seq<bool>, a: int, b: int, line_count: int)
    requires
        a <= b,
        a <= line_count,
    ensures
        next_dialogue_from_spec(dialogue, a, line_count) <= next_dialogue_from_spec(dialogue, b, line_count),
    decreases b - a,
{
    lemma_next_dialogue_range(dialogue, a, line_count);
    lemma_next_dialogue_range(dialogue, b, line_count);
    if a < b && a < line_count && !flag_at(dialogue, a) {
        lemma_next_dialogue_monotone(dialogue, a + 1, b, line_count);
    }
}

proof fn lemma_next_dialogue_found(dialogue: Seq<bool>, from: int, line_count: int)
    ensures
        next_dialogue_from_spec(dialogue, from, line_count) < line_count
            ==> flag_at(dialogue, next_dialogue_from_spec(dialogue, from, line_count)),
    decreases line_count - from,
{
    if from < line_count && !flag_at(dialogue, from) {
        lemma_next_dialogue_found(dialogue, from + 1, line_count);
    }
}

/// The landing lines of the act jumps, strictly increasing, each a dialogue
/// line of the buffer (see `act_dialogue_spec`). `div1` gives each buffer
/// line's act, `None` for a line with no work line.
pub fn act_dialogue_lines(div1: &[Option<i64>], dialogue: &[bool], line_count: usize) -> (r: Vec<usize>)
    ensures
        r@ == act_dialogue_spec(div1@, dialogue@, line_count as int),
        forall|a: int, b: int| 0 <= a < b < r@.len() ==> r@[a] < r@[b],
        forall|k: int| 0 <= k < r@.len() ==> r@[k] < line_count && flag_at(dialogue@, r@[k] as int),
{
    let mut out: Vec<usize> = Vec::new();
    let mut prev: Option<i64> = None;
    let mut bl: usize = 0;
    while bl < line_count
        invariant
            bl <= line_count,
            (prev, out@) == act_scan(div1@, dialogue@, line_count as int, bl as int),
            forall|a: int, b: int| 0 <= a < b < out@.len() ==> out@[a] < out@[b],
            forall|k: int| 0 <= k < out@.len() ==> out@[k] < line_count && flag_at(dialogue@, out@[k] as int),
            out@.len() > 0 ==> exists|s: int| 0 <= s < bl && out@.last() as int == #[trigger] next_dialogue_from_spec(dialogue@, s, line_count as int),
        decreases line_count - bl,
    {
        let d = if bl < div1.len() { div1[bl] } else { None };
        match d {
            None => {},
            Some(v) => {
                let same = match prev {
                    Some(p) => p == v,
                    None => false,
                };
                if !same {
                    prev = Some(v);
                    let t = next_dialogue_from(dialogue, bl, line_count);
                    proof {
                        lemma_next_dialogue_range(dialogue@, bl as int, line_count as int);
                        lemma_next_dialogue_found(dialogue@, bl as int, line_count as int);
                        if out@.len() > 0 {
                            let s = choose|s: int| 0 <= s < bl && out@.last() as int == next_dialogue_from_spec(dialogue@, s, line_count as int);
                            lemma_next_dialogue_monotone(dialogue@, s, bl as int, line_count as int);
                            lemma_next_dialogue_range(dialogue@, s, line_count as int);
                        }
                    }
                    let dup = out.len() > 0 && out[out.len() - 1] == t;
                    if t < line_count && !dup {
                        out.push(t);
                        proof {
                            assert(out@.last() as int == next_dialogue_from_spec(dialogue@, bl as int, line_count as int));
                        }
                    }
                }
            },
        }
        bl += 1;
    }
    out
}

/// The scan behind `header_page_top` from line `i` down: an `Act` line is
/// the answer, a separator or blank line is crossed, anything else stops the
/// search (answer: `marker`).
pub open spec fn header_scan(is_act: Seq<bool>, is_gap: Seq<bool>, i: int, marker: int) -> int
    decreases i,
{
    if i <= 0 {
        marker
    } else if flag_at(is_act, i - 1) {
        i - 1
    } else if flag_at(is_gap, i - 1) {
        header_scan(is_act, is_gap, i - 1, marker)
    } else {
        marker
    }
}

/// The line to put at the page top for a scene or act marker: a `Scene`
/// header that opens an act (an `Act` line above it, separated only by rules
/// and blanks) backs up to the `Act` line, so the whole header block shows.
/// `is_act` flags `Act` lines, `is_gap` separators and blank lines.
pub fn header_page_top(marker: usize, is_act: &[bool], is_gap: &[bool]) -> (r: usize)
    ensures
        r == (if marker == 0 || flag_at(is_act@, marker as int) {
            marker as int
        } else {
            header_scan(is_act@, is_gap@, marker as int, marker as int)
        }),
{
    if marker == 0 || (marker < is_act.len() && is_act[marker]) {
        return marker;
    }
    let mut i = marker;
    while i > 0
        invariant
            i <= marker,
            marker > 0 && !flag_at(is_act@, marker as int),
            header_scan(is_act@, is_gap@, marker as int, marker as int) == header_scan(is_act@, is_gap@, i as int, marker as int),
        decreases i,
    {
        let k = i - 1;
        if k < is_act.len() && is_act[k] {
            return k;
        }
        if !(k < is_gap.len() && is_gap[k]) {
            return marker;
        }
        i = k;
    }
    marker
}

/// Whether a scene whose header is at `scene_top` opens in the right column
/// of the current two-column page (top `page_top`, right column
/// `split..=page_end`).
pub fn scene_starts_in_right_column(two_columns: bool, scene_top: usize, page_top: usize, split: usize, page_end: usize) -> (r: bool)
    ensures
        r == (two_columns && scene_top != page_top && split <= scene_top && scene_top <= page_end),
{
    if !two_columns {
        return false;
    }
    if scene_top == page_top {
        return false;
    }
    scene_top >= split && scene_top <= page_end
}

// ---------------------------------------------------------------------------
// Landing lines
// ---------------------------------------------------------------------------

/// The nearest line before `from` that is a dialogue line and not a
/// translation line.
pub open spec fn prev_dialogue_spec(dialogue: Seq<bool>, translation: Seq<bool>, from: int) -> Option<int>
    decreases from,
{
    if from <= 0 {
        None
    } else if flag_at(dialogue, from - 1) && !flag_at(translation, from - 1) {
        Some(from - 1)
    } else {
        prev_dialogue_spec(dialogue, translation, from - 1)
    }
}

/// The first dialogue line at or after `from` (inclusive), or `line_count`
/// when there is none.
pub open spec fn next_dialogue_from_spec(dialogue: Seq<bool>, from: int, line_count: int) -> int
    decreases line_count - from,
{
    if from >= line_count {
        line_count
    } else if flag_at(dialogue, from) {
        from
    } else {
        next_dialogue_from_spec(dialogue, from + 1, line_count)
    }
}

proof fn lemma_prev_dialogue_range(dialogue: Seq<bool>, translation: Seq<bool>, from: int)
    ensures
        prev_dialogue_spec(dialogue, translation, from) matches Some(k) ==> 0 <= k < from,
    decreases from,
{
    if from > 0 {
        lemma_prev_dialogue_range(dialogue, translation, from - 1);
    }
}

proof fn lemma_next_dialogue_range(dialogue: Seq<bool>, from: int, line_count: int)
    ensures
        from <= line_count ==> from <= next_dialogue_from_spec(dialogue, from, line_count) <= line_count,
        from > line_count ==> next_dialogue_from_spec(dialogue, from, line_count) == line_count,
    decreases line_count - from,
{
    if from < line_count {
        lemma_next_dialogue_range(dialogue, from + 1, line_count);
    }
}

/// The nearest dialogue (non-translation) line before `from`.
pub fn prev_dialogue_line(dialogue: &[bool], translation: &[bool], from: usize) -> (r: Option<usize>)
    ensures
        r == (match prev_dialogue_spec(dialogue@, translation@, from as int) {
            Some(k) => Some(k as usize),
            None => None::<usize>,
        }),
        r matches Some(k) ==> k < from,
{
    proof {
        lemma_prev_dialogue_range(dialogue@, translation@, from as int);
    }
    let mut i = from;
    while i > 0
        invariant
            i <= from,
            prev_dialogue_spec(dialogue@, translation@, from as int) == prev_dialogue_spec(dialogue@, translation@, i as int),
        decreases i,
    {
        let k = i - 1;
        let d = k < dialogue.len() && dialogue[k];
        let t = k < translation.len() && translation[k];
        if d && !t {
            return Some(k);
        }
        i = k;
    }
    None
}

/// The first dialogue line at or after `from`, or `line_count` when none.
pub fn next_dialogue_from(dialogue: &[bool], from: usize, line_count: usize) -> (r: usize)
    ensures
        r == next_dialogue_from_spec(dialogue@, from as int, line_count as int),
        from <= line_count ==> from <= r <= line_count,
        from > line_count ==> r == line_count,
{
    proof {
        lemma_next_dialogue_range(dialogue@, from as int, line_count as int);
    }
    let mut i = from;
    while i < line_count
        invariant
            from <= i,
            i <= line_count || i == from,
            next_dialogue_from_spec(dialogue@, from as int, line_count as int) == next_dialogue_from_spec(dialogue@, i as int, line_count as int),
        decreases line_count - i,
    {
        if i < dialogue.len() && dialogue[i] {
            return i;
        }
        i += 1;
    }
    line_count
}

/// The landing line of `gg`: the first dialogue line that is timestamped,
/// else the first dialogue line, else line 0.
pub open spec fn start_target_spec(dialogue: Seq<bool>, timestamped: Seq<bool>, line_count: int) -> int {
    match first_both(dialogue, timestamped, 0, line_count) {
        Some(k) => k,
        None => match first_both(dialogue, dialogue, 0, line_count) {
            Some(k) => k,
            None => 0,
        },
    }
}

/// The first line in `[lo, hi)` set in both `a` and `b`.
pub open spec fn first_both(a: Seq<bool>, b: Seq<bool>, lo: int, hi: int) -> Option<int>
    decreases hi - lo,
{
    if lo >= hi {
        None
    } else if flag_at(a, lo) && flag_at(b, lo) {
        Some(lo)
    } else {
        first_both(a, b, lo + 1, hi)
    }
}

proof fn lemma_first_both_range(a: Seq<bool>, b: Seq<bool>, lo: int, hi: int)
    ensures
        first_both(a, b, lo, hi) matches Some(k) ==> lo <= k < hi,
    decreases hi - lo,
{
    if lo < hi {
        lemma_first_both_range(a, b, lo + 1, hi);
    }
}

fn first_both_in(a: &[bool], b: &[bool], line_count: usize) -> (r: Option<usize>)
    ensures
        r == (match first_both(a@, b@, 0, line_count as int) {
            Some(k) => Some(k as usize),
            None => None::<usize>,
        }),
{
    proof {
        lemma_first_both_range(a@, b@, 0, line_count as int);
    }
    let mut i: usize = 0;
    while i < line_count
        invariant
            i <= line_count,
            first_both(a@, b@, 0, line_count as int) == first_both(a@, b@, i as int, line_count as int),
        decreases line_count - i,
    {
        if i < a.len() && a[i] && i < b.len() && b[i] {
            return Some(i);
        }
        i += 1;
    }
    None
}

/// Where `gg` lands: the start of the narration, i.e. the first TIMESTAMPED
/// dialogue line (an untimestamped title would leave the audio untouched),
/// falling back to the first dialogue line, then line 0.
pub fn jump_to_start_target(dialogue: &[bool], timestamped: &[bool], line_count: usize) -> (r: usize)
    ensures
        r == start_target_spec(dialogue@, timestamped@, line_count as int),
{
    proof {
        lemma_first_both_range(dialogue@, timestamped@, 0, line_count as int);
        lemma_first_both_range(dialogue@, dialogue@, 0, line_count as int);
    }
    match first_both_in(dialogue, timestamped, line_count) {
        Some(k) => k,
        None => match first_both_in(dialogue, dialogue, line_count) {
            Some(k) => k,
            None => 0,
        },
    }
}

/// The last dialogue line of the buffer that is not a translation line (line
/// 0 when there is none).
pub fn last_dialogue_target(dialogue: &[bool], translation: &[bool], line_count: usize) -> (r: usize)
    requires
        line_count > 0,
    ensures
        r == (match prev_dialogue_spec(dialogue@, translation@, line_count as int) {
            Some(k) => k as usize,
            None => 0,
        }),
{
    match prev_dialogue_line(dialogue, translation, line_count) {
        Some(k) => k,
        None => 0,
    }
}

/// The two-column forward-nav guard: redirect a tentative page top to the
/// canonical final spread `anchor` when turning to it would leave the right
/// column empty, or when its page overlaps the anchor's tail (it starts before
/// the anchor but its forward boundary reaches past the anchor's top).
pub fn redirect_to_final_spread(
    column_count: u8,
    anchor: usize,
    candidate: usize,
    empty_right: bool,
    candidate_next_top: usize,
) -> (r: Option<usize>)
    ensures
        r == (if column_count == 2 && candidate != anchor
            && (empty_right || (candidate < anchor && candidate_next_top > anchor)) {
            Some(anchor)
        } else {
            None::<usize>
        }),
{
    if column_count != 2 || candidate == anchor {
        return None;
    }
    if empty_right || (candidate < anchor && candidate_next_top > anchor) {
        Some(anchor)
    } else {
        None
    }
}

// ---------------------------------------------------------------------------
// Page turns on a stored table
// ---------------------------------------------------------------------------

/// The outcome of a page key on a stored table.
#[derive(Clone, Copy, Debug, PartialEq, Eq, Structural)]
pub enum TableTurn {
    /// Nothing moves.
    Stay,
    /// Only the cursor moves, to this line.
    MoveCursor(usize),
    /// The page turns to `top` (the current page goes on the back stack when
    /// turning forward, see `apply_forward_move`) and the cursor lands on
    /// `cursor`.
    Turn { top: usize, cursor: usize },
}

/// The last on-page dialogue line of `s`, else `fallback`.
pub open spec fn last_on_page(s: Spread, dialogue: Seq<bool>, translation: Seq<bool>, fallback: int) -> int {
    match prev_dialogue_spec(dialogue, translation, s.end + 1) {
        Some(d) => if d >= s.left_start { d } else { fallback },
        None => fallback,
    }
}

/// The page index the current top resolves to (page 0 when it resolves to none).
pub open spec fn current_page(table: Seq<Spread>, page_top: int) -> int {
    match page_for_line_spec(table, page_top) {
        Some(i) => i,
        None => 0,
    }
}

/// `x` on a stored table: at the final page only the cursor moves (to the
/// last on-page dialogue line, when that is further on); otherwise the page
/// turns to the next spread, landing on its first dialogue line (the last
/// on-page one when that next spread is the final page).
pub open spec fn table_forward_spec(table: Seq<Spread>, page_top: int, current_line: int, dialogue: Seq<bool>, translation: Seq<bool>, line_count: int) -> TableTurn {
    let cur = current_page(table, page_top);
    if cur + 1 >= table.len() {
        let s = table[cur];
        let last = last_on_page(s, dialogue, translation, s.end as int);
        if last > current_line { TableTurn::MoveCursor(last as usize) } else { TableTurn::Stay }
    } else {
        let next = table[cur + 1];
        let first = next_dialogue_from_spec(dialogue, next.left_start as int, line_count);
        let first_on = if first <= next.end { first } else { next.end as int };
        let landing = if cur + 2 == table.len() { last_on_page(next, dialogue, translation, first_on) } else { first_on };
        TableTurn::Turn { top: next.left_start, cursor: landing as usize }
    }
}

/// `y` on a stored table: at the first page only the cursor moves (to the
/// work's first dialogue line, when that is earlier); otherwise the page turns
/// to the previous spread, landing on its last on-page dialogue line.
pub open spec fn table_backward_spec(table: Seq<Spread>, page_top: int, current_line: int, first_dialogue: int, dialogue: Seq<bool>, translation: Seq<bool>) -> TableTurn {
    let cur = current_page(table, page_top);
    if cur == 0 {
        if first_dialogue < current_line { TableTurn::MoveCursor(first_dialogue as usize) } else { TableTurn::Stay }
    } else {
        let prev = table[cur - 1];
        TableTurn::Turn { top: prev.left_start, cursor: last_on_page(prev, dialogue, translation, prev.left_start as int) as usize }
    }
}

fn last_on_page_of(s: Spread, dialogue: &[bool], translation: &[bool], fallback: usize) -> (r: usize)
    ensures
        r == last_on_page(s, dialogue@, translation@, fallback as int),
{
    proof {
        lemma_prev_dialogue_range(dialogue@, translation@, s.end as int + 1);
    }
    let found = if s.end < usize::MAX {
        prev_dialogue_line(dialogue, translation, s.end + 1)
    } else {
        // The line after the maximal index is not representable: test the
        // maximal line itself, then scan below it.
        let e = s.end;
        if (e < dialogue.len() && dialogue[e]) && !(e < translation.len() && translation[e]) {
            Some(e)
        } else {
            prev_dialogue_line(dialogue, translation, e)
        }
    };
    match found {
        Some(d) => if d >= s.left_start { d } else { fallback },
        None => fallback,
    }
}

/// `x` on a stored table (see `table_forward_spec`, which it follows on a
/// table stored in page order).
pub fn table_page_forward(
    table: &[Spread],
    page_top: usize,
    current_line: usize,
    dialogue: &[bool],
    translation: &[bool],
    line_count: usize,
) -> (r: TableTurn)
    requires
        table@.len() > 0,
    ensures
        tops_sorted(table@) ==> r == table_forward_spec(table@, page_top as int, current_line as int, dialogue@, translation@, line_count as int),
{
    let n = table.len();
    let found = page_for_line(table, page_top);
    let cur: usize = match found {
        Some(i) => i,
        None => 0,
    };
    assert(cur < n);
    assert(tops_sorted(table@) ==> cur as int == current_page(table@, page_top as int));
    if cur + 1 >= n {
        let s = table[cur];
        let last = last_on_page_of(s, dialogue, translation, s.end);
        if last > current_line {
            return TableTurn::MoveCursor(last);
        }
        return TableTurn::Stay;
    }
    let next = table[cur + 1];
    let first = next_dialogue_from(dialogue, next.left_start, line_count);
    let first_on = if first <= next.end { first } else { next.end };
    let landing = if cur + 2 == n { last_on_page_of(next, dialogue, translation, first_on) } else { first_on };
    TableTurn::Turn { top: next.left_start, cursor: landing }
}

/// `y` on a stored table (see `table_backward_spec`, which it follows on a
/// table stored in page order); `first_dialogue` is the work's first
/// dialogue line.
pub fn table_page_backward(
    table: &[Spread],
    page_top: usize,
    current_line: usize,
    first_dialogue: usize,
    dialogue: &[bool],
    translation: &[bool],
) -> (r: TableTurn)
    requires
        table@.len() > 0,
    ensures
        tops_sorted(table@) ==> r == table_backward_spec(table@, page_top as int, current_line as int, first_dialogue as int, dialogue@, translation@),
{
    let n = table.len();
    let found = page_for_line(table, page_top);
    let cur: usize = match found {
        Some(i) => i,
        None => 0,
    };
    assert(cur < n);
    assert(tops_sorted(table@) ==> cur as int == current_page(table@, page_top as int));
    if cur == 0 {
        if first_dialogue < current_line {
            return TableTurn::MoveCursor(first_dialogue);
        }
        return TableTurn::Stay;
    }
    let prev = table[cur - 1];
    let cursor = last_on_page_of(prev, dialogue, translation, prev.left_start);
    TableTurn::Turn { top: prev.left_start, cursor }
}

/// `G` on a stored table: the final page, with the cursor on its last
/// on-page dialogue line (its end when it holds none).
pub fn table_jump_to_end(table: &[Spread], dialogue: &[bool], translation: &[bool]) -> (r: (usize, usize))
    requires
        table@.len() > 0,
    ensures
        r == (table@.last().left_start, last_on_page(table@.last(), dialogue@, translation@, table@.last().end as int) as usize),
{
    let s = table[table.len() - 1];
    (s.left_start, last_on_page_of(s, dialogue, translation, s.end))
}

// ---------------------------------------------------------------------------
// Live page turns (no stored table)
// ---------------------------------------------------------------------------

/// The last dialogue (non-translation) line in `lo..=hi`, else `fallback`.
pub open spec fn last_dialogue_within(dialogue: Seq<bool>, translation: Seq<bool>, lo: int, hi: int, fallback: int) -> int {
    match prev_dialogue_spec(dialogue, translation, hi + 1) {
        Some(d) => if d >= lo { d } else { fallback },
        None => fallback,
    }
}

fn last_dialogue_within_of(dialogue: &[bool], translation: &[bool], lo: usize, hi: usize, fallback: usize) -> (r: usize)
    ensures
        r == last_dialogue_within(dialogue@, translation@, lo as int, hi as int, fallback as int),
{
    let s = Spread { left_start: lo, split: None, end: hi };
    last_on_page_of(s, dialogue, translation, fallback)
}

/// What a page key does on the live layout.
#[derive(Clone, Copy, Debug, PartialEq, Eq, Structural)]
pub enum LiveTurn {
    /// Nothing moves.
    Stay,
    /// Only the cursor moves, to this line.
    MoveCursor(usize),
    /// The page turns to `top` (the current page goes on the back stack when
    /// turning forward, see `apply_forward_move`) and the cursor lands on
    /// `cursor`.
    Turn { top: usize, cursor: usize },
    /// No forward boundary is reachable: do what the end jump does.
    JumpToEnd,
}

/// The two-column final-spread guard of `x`: when the current spread's next
/// page would start past the work (`next_page_top >= line_count`), there is
/// no next page; the cursor moves to the last dialogue line actually shown
/// (up to the last fully visible line, within the spread), if that is further
/// on. `None` when the guard does not apply.
pub fn final_spread_guard(
    two_columns: bool,
    next_page_top: usize,
    page_end: usize,
    last_visible: usize,
    page_top: usize,
    current_line: usize,
    line_count: usize,
    dialogue: &[bool],
    translation: &[bool],
) -> (r: Option<LiveTurn>)
    ensures
        !(two_columns && next_page_top >= line_count) <==> r is None,
        two_columns && next_page_top >= line_count ==> ({
            let visible_end = if last_visible <= page_end { last_visible } else { page_end };
            let last = last_dialogue_within(dialogue@, translation@, page_top as int, visible_end as int, visible_end as int);
            r == Some(if last > current_line { LiveTurn::MoveCursor(last as usize) } else { LiveTurn::Stay })
        }),
        r matches Some(LiveTurn::MoveCursor(l)) ==> l > current_line,
{
    if !(two_columns && next_page_top >= line_count) {
        return None;
    }
    let visible_end = if last_visible <= page_end { last_visible } else { page_end };
    let last = last_dialogue_within_of(dialogue, translation, page_top, visible_end, visible_end);
    if last > current_line {
        Some(LiveTurn::MoveCursor(last))
    } else {
        Some(LiveTurn::Stay)
    }
}

/// The scene-aware turn of `x`: when the right column opens a new scene, its
/// header goes to the top (after the scroll-ceiling clamp, `clamped`), with
/// the cursor on its first dialogue line — but only when that is real
/// forward progress. `None` otherwise (fall through to the natural turn).
pub fn scene_snap_turn(clamped: usize, page_top: usize, dialogue: &[bool], line_count: usize) -> (r: Option<LiveTurn>)
    ensures
        clamped > page_top ==> r == Some(LiveTurn::Turn {
            top: clamped,
            cursor: (if next_dialogue_from_spec(dialogue@, clamped as int, line_count as int) < line_count as int - 1 {
                next_dialogue_from_spec(dialogue@, clamped as int, line_count as int)
            } else if line_count > 0 {
                line_count as int - 1
            } else {
                0
            }) as usize,
        }),
        clamped <= page_top ==> r is None,
        (r matches Some(LiveTurn::Turn { top, .. }) ==> top > page_top),
{
    if clamped <= page_top {
        return None;
    }
    let nd = next_dialogue_from(dialogue, clamped, line_count);
    let last = if line_count > 0 { line_count - 1 } else { 0 };
    let cursor = if nd < last { nd } else { last };
    Some(LiveTurn::Turn { top: clamped, cursor })
}

/// The natural next top of `x` from the layout's forward boundary
/// (`new_top`, with `next_dialogue` its first dialogue line): `None` at the
/// end of the work (no dialogue ahead); the boundary itself when it advances,
/// else the next dialogue line.
pub fn natural_candidate(new_top: usize, next_dialogue: usize, page_top: usize, line_count: usize) -> (r: Option<usize>)
    ensures
        r == (if next_dialogue >= line_count {
            None
        } else if new_top <= page_top {
            Some(next_dialogue)
        } else {
            Some(new_top)
        }),
{
    if next_dialogue >= line_count {
        return None;
    }
    if new_top <= page_top { Some(next_dialogue) } else { Some(new_top) }
}

/// The natural turn of `x` to `effective_top` (the candidate after the
/// final-spread redirect and the scroll-ceiling clamp; `page_end` its last
/// line): a turn only when it advances, else the end jump. After a redirect
/// to the final spread the cursor goes to that spread's last dialogue line
/// (else the next dialogue line, within the buffer); otherwise to the next
/// dialogue line.
pub fn natural_turn(
    effective_top: usize,
    page_top: usize,
    redirected: bool,
    page_end: usize,
    next_dialogue: usize,
    line_count: usize,
    dialogue: &[bool],
    translation: &[bool],
) -> (r: LiveTurn)
    ensures
        effective_top > page_top ==> r == (LiveTurn::Turn {
            top: effective_top,
            cursor: if redirected {
                last_dialogue_within(dialogue@, translation@, effective_top as int, page_end as int,
                    (if next_dialogue as int <= line_count - 1 { next_dialogue as int } else if line_count > 0 { line_count - 1 } else { 0 })) as usize
            } else {
                next_dialogue
            },
        }),
        effective_top <= page_top ==> r == LiveTurn::JumpToEnd,
        (r matches LiveTurn::Turn { top, .. } ==> top > page_top),
{
    if effective_top <= page_top {
        return LiveTurn::JumpToEnd;
    }
    let cursor = if redirected {
        let last = if line_count > 0 { line_count - 1 } else { 0 };
        let fallback = if next_dialogue <= last { next_dialogue } else { last };
        proof {
            assert(fallback as int == (if next_dialogue as int <= line_count - 1 { next_dialogue as int } else if line_count > 0 { line_count - 1 } else { 0 }));
        }
        last_dialogue_within_of(dialogue, translation, effective_top, page_end, fallback)
    } else {
        next_dialogue
    };
    LiveTurn::Turn { top: effective_top, cursor }
}

/// A back-stack entry at or ahead of the current position (page top `top`,
/// offset `off`): popping it would move `y` forward.
pub open spec fn stale_entry(e: (usize, i32), top: usize, off: i32) -> bool {
    e.0 > top || (e.0 == top && e.1 >= off)
}

/// The back stack without its stale entries on top.
pub open spec fn drop_stale(s: Seq<(usize, i32)>, top: usize, off: i32) -> Seq<(usize, i32)>
    decreases s.len(),
{
    if s.len() > 0 && stale_entry(s.last(), top, off) {
        drop_stale(s.drop_last(), top, off)
    } else {
        s
    }
}

/// What the back stack gives `y`.
#[derive(Clone, Copy, Debug, PartialEq, Eq, Structural)]
pub enum BackStep {
    /// Step back within the same over-tall paragraph: restore this offset.
    Restore { line: usize, offset: i32 },
    /// Turn back to this page top.
    Turn { top: usize },
    /// Nothing usable on the stack: compute the previous page on the layout.
    Live,
}

proof fn lemma_drop_stale_prefix(s: Seq<(usize, i32)>, top: usize, off: i32)
    ensures
        drop_stale(s, top, off).len() <= s.len(),
        drop_stale(s, top, off) == s.take(drop_stale(s, top, off).len() as int),
        drop_stale(s, top, off).len() > 0 ==> !stale_entry(drop_stale(s, top, off).last(), top, off),
    decreases s.len(),
{
    if s.len() > 0 && stale_entry(s.last(), top, off) {
        lemma_drop_stale_prefix(s.drop_last(), top, off);
        let d = drop_stale(s.drop_last(), top, off);
        assert(s.drop_last().take(d.len() as int) =~= s.take(d.len() as int));
    } else {
        assert(s.take(s.len() as int) =~= s);
    }
}

/// The back-stack part of `y`, and the stack after it (see
/// `back_stack_step`).
pub open spec fn back_step_spec(s: Seq<(usize, i32)>, page_top: usize, page_offset: i32) -> (Seq<(usize, i32)>, BackStep) {
    let d = drop_stale(s, page_top, page_offset);
    if d.len() == 0 {
        (d, BackStep::Live)
    } else if d.last().0 == page_top {
        (d.drop_last(), BackStep::Restore { line: d.last().0, offset: d.last().1 })
    } else {
        (d.drop_last(), BackStep::Turn { top: d.last().0 })
    }
}

/// The back-stack part of `y`: drops the stale entries on top (at or ahead
/// of the current position), then either restores a smaller offset within
/// the same line, or pops the previous page top, or finds nothing. `y` thus
/// never moves forward.
pub fn back_stack_step(stack: &mut Vec<(usize, i32)>, page_top: usize, page_offset: i32) -> (r: BackStep)
    ensures
        (final(stack)@, r) == back_step_spec(old(stack)@, page_top, page_offset),
        ({
            let d = drop_stale(old(stack)@, page_top, page_offset);
            &&& d.len() == 0 ==> r == BackStep::Live && final(stack)@ == d
            &&& d.len() > 0 && d.last().0 == page_top ==> r == (BackStep::Restore { line: d.last().0, offset: d.last().1 })
                && final(stack)@ == d.drop_last()
            &&& d.len() > 0 && d.last().0 != page_top ==> r == (BackStep::Turn { top: d.last().0 })
                && final(stack)@ == d.drop_last()
        }),
        (r matches BackStep::Turn { top } ==> top < page_top),
        (r matches BackStep::Restore { line, offset } ==> line == page_top && offset < page_offset),
{
    proof {
        lemma_drop_stale_prefix(old(stack)@, page_top, page_offset);
    }
    while stack.len() > 0
        invariant
            drop_stale(old(stack)@, page_top, page_offset) == drop_stale(stack@, page_top, page_offset),
        ensures
            drop_stale(old(stack)@, page_top, page_offset) == drop_stale(stack@, page_top, page_offset),
            stack@.len() > 0 ==> !stale_entry(stack@.last(), page_top, page_offset),
        decreases stack@.len(),
    {
        let (t, o) = stack[stack.len() - 1];
        let stale = t > page_top || (t == page_top && o >= page_offset);
        if !stale {
            break;
        }
        let ghost before = stack@;
        stack.pop();
        proof {
            assert(stack@ =~= before.drop_last());
        }
    }
    proof {
        lemma_drop_stale_prefix(stack@, page_top, page_offset);
        if stack@.len() > 0 {
            assert(drop_stale(stack@, page_top, page_offset) == stack@);
        }
    }
    if stack.len() == 0 {
        return BackStep::Live;
    }
    let (t, o) = stack[stack.len() - 1];
    let ghost before = stack@;
    stack.pop();
    proof {
        assert(stack@ =~= before.drop_last());
    }
    if t == page_top {
        BackStep::Restore { line: t, offset: o }
    } else {
        BackStep::Turn { top: t }
    }
}

/// The first-spread guard of `y`: at page top 0 there is no previous page;
/// the cursor moves to the work's first dialogue line when that is earlier.
/// `None` when the guard does not apply.
pub fn first_spread_guard(page_top: usize, first_dialogue: usize, current_line: usize) -> (r: Option<LiveTurn>)
    ensures
        r == (if page_top != 0 {
            None
        } else if first_dialogue < current_line {
            Some(LiveTurn::MoveCursor(first_dialogue))
        } else {
            Some(LiveTurn::Stay)
        }),
{
    if page_top != 0 {
        return None;
    }
    if first_dialogue < current_line { Some(LiveTurn::MoveCursor(first_dialogue)) } else { Some(LiveTurn::Stay) }
}

/// Where the cursor lands after `y` turns back to `new_top`: on a work with
/// one section per page, its first dialogue line (within the buffer);
/// otherwise the last dialogue line shown on that page (up to `bottom`, the
/// column split's end or the last fully visible line), else `next_dialogue`.
pub fn back_turn_cursor(
    one_section_per_page: bool,
    new_top: usize,
    bottom: usize,
    next_dialogue: usize,
    line_count: usize,
    dialogue: &[bool],
    translation: &[bool],
) -> (r: usize)
    ensures
        r == (if one_section_per_page {
            let nd = next_dialogue_from_spec(dialogue@, new_top as int, line_count as int);
            let last = if line_count > 0 { line_count - 1 } else { 0 };
            if nd <= last { nd } else { last }
        } else {
            last_dialogue_within(dialogue@, translation@, new_top as int, bottom as int, next_dialogue as int)
        }),
{
    if one_section_per_page {
        let nd = next_dialogue_from(dialogue, new_top, line_count);
        let last = if line_count > 0 { line_count - 1 } else { 0 };
        if nd <= last { nd } else { last }
    } else {
        last_dialogue_within_of(dialogue, translation, new_top, bottom, next_dialogue)
    }
}

/// Where the cursor lands after the live end jump to the final spread at
/// `new_top` (`page_end` its last line, `target` the work's last dialogue
/// line): on a work with one section per page, the first dialogue line of
/// the final section; otherwise the last dialogue line shown on the spread,
/// else `target` (not past the spread).
pub fn end_jump_cursor(
    one_section_per_page: bool,
    new_top: usize,
    page_end: usize,
    target: usize,
    line_count: usize,
    dialogue: &[bool],
    translation: &[bool],
) -> (r: usize)
    ensures
        r == (if one_section_per_page {
            let nd = next_dialogue_from_spec(dialogue@, new_top as int, line_count as int);
            let last = if line_count > 0 { line_count - 1 } else { 0 };
            if nd <= last { nd } else { last }
        } else {
            last_dialogue_within(dialogue@, translation@, new_top as int, page_end as int,
                (if target <= page_end { target } else { page_end }) as int)
        }),
{
    if one_section_per_page {
        let nd = next_dialogue_from(dialogue, new_top, line_count);
        let last = if line_count > 0 { line_count - 1 } else { 0 };
        if nd <= last { nd } else { last }
    } else {
        let fallback = if target <= page_end { target } else { page_end };
        last_dialogue_within_of(dialogue, translation, new_top, page_end, fallback)
    }
}

/// On a table that passes the invariant suite, paging forward from any page
/// but the last turns to the next page, and paging backward from there
/// returns to the page it started on.
pub proof fn law_table_forward_then_backward_returns(
    table: Seq<Spread>,
    ctx: ValidateCtx,
    k: int,
    current_line: int,
    first_dialogue: int,
    dialogue: Seq<bool>,
    translation: Seq<bool>,
    line_count: int,
)
    requires
        table_verdict(table, ctx) is Ok,
        0 <= k < table.len() - 1,
    ensures
        ({
            &&& table_forward_spec(table, table[k].left_start as int, current_line, dialogue, translation, line_count) matches TableTurn::Turn { top, cursor }
            &&& top == table[k + 1].left_start
            &&& (table_backward_spec(table, top as int, cursor as int, first_dialogue, dialogue, translation) matches TableTurn::Turn { top: back, .. } && back == table[k].left_start)
        }),
{
    law_page_top_resolves_to_its_page(table, ctx, k);
    law_page_top_resolves_to_its_page(table, ctx, k + 1);
}

/// On a table that passes the invariant suite, paging forward from a page that
/// is not the last strictly advances the page top.
pub proof fn law_table_forward_advances(
    table: Seq<Spread>,
    ctx: ValidateCtx,
    k: int,
    current_line: int,
    dialogue: Seq<bool>,
    translation: Seq<bool>,
    line_count: int,
)
    requires
        table_verdict(table, ctx) is Ok,
        0 <= k < table.len() - 1,
    ensures
        (table_forward_spec(table, table[k].left_start as int, current_line, dialogue, translation, line_count) matches TableTurn::Turn { top, .. } && top > table[k].left_start),
{
    law_page_top_resolves_to_its_page(table, ctx, k);
    law_valid_table_tops_increase(table, ctx);
}

/// Commits a dialogue/segment cursor jump whose target is already in
/// `current`: a forward jump is always kept (the caller turns the page when
/// the target is off it); a backward jump is kept only when it stays on the
/// page (`stays_on_page`), else the cursor goes back to `prev_line`. Returns
/// whether the jump was kept.
pub fn keep_jump_if_on_page(current: &mut usize, prev_line: usize, dir: Direction, stays_on_page: bool) -> (kept: bool)
    ensures
        kept == (dir == Direction::Next || stays_on_page),
        *final(current) == (if kept { *old(current) } else { prev_line }),
{
    if dir == Direction::Next {
        return true;
    }
    if stays_on_page {
        return true;
    }
    *current = prev_line;
    false
}

/// The column count that the two-column toggle flips to: two or more
/// columns become one, one becomes two.
pub open spec fn flipped_columns(current: u8) -> u8 {
    if current >= 2 { 1 } else { 2 }
}

/// The column count after the two-column toggle: only in e-reader mode with
/// a work open (else `None`, nothing changes), `flipped_columns`.
pub fn toggled_column_count(ereader: bool, has_work: bool, current: u8) -> (r: Option<u8>)
    ensures
        r == (if ereader && has_work { Some(flipped_columns(current)) } else { None::<u8> }),
{
    if !ereader || !has_work {
        return None;
    }
    Some(if current >= 2 { 1 } else { 2 })
}

/// Toggling the column layout twice returns a one- or two-column layout to
/// itself.
pub proof fn law_column_toggle_twice_restores(current: u8)
    requires
        current == 1 || current == 2,
    ensures
        flipped_columns(flipped_columns(current)) == current,
{
}

/// `K` on a play: a cursor inside a speech first goes to the speech's first
/// line; from there (or from a line outside any speech) it goes to the first
/// line of the previous speaker's turn. Either way it never moves forward.
pub fn prev_speaker_jump(from: usize, speakers: &[Option<String>], is_dialogue: &[bool]) -> (r: Option<usize>)
    requires
        from < speakers@.len(),
        speakers@.len() == is_dialogue@.len(),
    ensures
        r matches Some(t) ==> t < from,
        ({
            let sp = speakers_view(speakers@);
            let dlg = is_dialogue@;
            let cur = sp[from as int];
            ||| (dlg[from as int] && cur is Some && (r matches Some(t) && block_start(sp, dlg, from as int, t as int)))
            ||| ((!dlg[from as int] || cur is None || block_start(sp, dlg, from as int, from as int)) && match r {
                Some(t) => exists|p: int| 0 <= p < from && turn_break(sp, dlg, cur, p)
                    && (forall|j: int| p < j < from ==> !turn_break(sp, dlg, cur, j))
                    && block_start(sp, dlg, p, t as int),
                None => forall|j: int| 0 <= j < from ==> !turn_break(sp, dlg, cur, j),
            })
        }),
{
    match current_block_first_line(from, speakers, is_dialogue) {
        Some(top) => {
            if top != from {
                return Some(top);
            }
        },
        None => {},
    }
    speaker_turn_target(from, Direction::Prev, speakers, is_dialogue)
}

/// Line `m` opens a scene before the cursor: a section start whose first
/// dialogue line (`first_dialogue_of[m]`) is before `current`.
pub open spec fn scene_opens_before(markers: Seq<bool>, first_dialogue_of: Seq<Option<usize>>, m: int, current: int) -> bool {
    flag_at(markers, m) && 0 <= m < first_dialogue_of.len()
        && (first_dialogue_of[m] matches Some(d) && d < current)
}

/// The previous scene's jump from `current`: the nearest section start above
/// the cursor whose first dialogue line is before the cursor (so an act
/// header directly over its first scene, and the current scene's own start,
/// are passed over), with that dialogue line for the cursor; `None` when
/// there is none, or when it lies before the work's first dialogue line
/// (`first_dialogue`). `first_dialogue_of[m]` is the first dialogue line at
/// or after line `m`.
pub fn prev_scene_target(markers: &[bool], first_dialogue_of: &[Option<usize>], current: usize, first_dialogue: usize) -> (r: Option<(usize, usize)>)
    ensures
        match r {
            Some((m, d)) => m < current && scene_opens_before(markers@, first_dialogue_of@, m as int, current as int)
                && first_dialogue_of@[m as int] == Some(d) && d >= first_dialogue
                && forall|j: int| m < j < current ==> !scene_opens_before(markers@, first_dialogue_of@, j, current as int),
            None => forall|m: int| 0 <= m < current && scene_opens_before(markers@, first_dialogue_of@, m, current as int)
                && (forall|j: int| m < j < current ==> !scene_opens_before(markers@, first_dialogue_of@, j, current as int))
                ==> first_dialogue_of@[m]->0 < first_dialogue,
        },
{
    let mut bl = current;
    while bl > 0
        invariant
            bl <= current,
            forall|j: int| bl <= j < current ==> !scene_opens_before(markers@, first_dialogue_of@, j, current as int),
        decreases bl,
    {
        bl = bl - 1;
        if bl < markers.len() && markers[bl] && bl < first_dialogue_of.len() {
            match first_dialogue_of[bl] {
                Some(d) => {
                    if d < current {
                        if d < first_dialogue {
                            proof {
                                let cur = current as int;
                                assert(scene_opens_before(markers@, first_dialogue_of@, bl as int, cur));
                                assert forall|m: int| 0 <= m < cur && scene_opens_before(markers@, first_dialogue_of@, m, cur)
                                    && (forall|j: int| m < j < cur ==> !scene_opens_before(markers@, first_dialogue_of@, j, cur))
                                    implies first_dialogue_of@[m]->0 < first_dialogue by {
                                    if m < bl {
                                        assert(!scene_opens_before(markers@, first_dialogue_of@, bl as int, cur));
                                    }
                                }
                            }
                            return None;
                        }
                        return Some((bl, d));
                    }
                },
                None => {},
            }
        }
    }
    None
}

/// The next scene's marker from `current`: the first section start after
/// the cursor, if any, before `line_count`.
pub fn next_scene_marker(markers: &[bool], current: usize, line_count: usize) -> (r: Option<usize>)
    ensures
        match r {
            Some(m) => current < m < line_count && flag_at(markers@, m as int)
                && forall|j: int| current < j < m ==> !flag_at(markers@, j),
            None => forall|j: int| current < j < line_count ==> !flag_at(markers@, j),
        },
{
    if current >= line_count {
        return None;
    }
    let mut bl = current + 1;
    while bl < line_count
        invariant
            current < bl <= line_count,
            forall|j: int| current < j < bl ==> !flag_at(markers@, j),
        decreases line_count - bl,
    {
        if bl < markers.len() && markers[bl] {
            return Some(bl);
        }
        bl = bl + 1;
    }
    None
}

/// The last line in `[lo, hi)` that is flagged.
pub open spec fn last_flag_in(flags: Seq<bool>, lo: int, hi: int) -> Option<int>
    decreases hi - lo,
{
    if hi <= lo {
        None
    } else if flag_at(flags, hi - 1) {
        Some(hi - 1)
    } else {
        last_flag_in(flags, lo, hi - 1)
    }
}

proof fn lemma_last_flag_in(flags: Seq<bool>, lo: int, hi: int)
    ensures
        last_flag_in(flags, lo, hi) matches Some(k) ==> lo <= k < hi && flag_at(flags, k)
            && forall|j: int| k < j < hi ==> !flag_at(flags, j),
        last_flag_in(flags, lo, hi) is None ==> forall|j: int| lo <= j < hi ==> !flag_at(flags, j),
    decreases hi - lo,
{
    if hi > lo && !flag_at(flags, hi - 1) {
        lemma_last_flag_in(flags, lo, hi - 1);
    }
}

proof fn lemma_last_flag_past_end(flags: Seq<bool>, hi: int)
    ensures
        hi >= flags.len() ==> last_flag_in(flags, 0, hi) == last_flag_in(flags, 0, flags.len() as int),
    decreases hi,
{
    if hi > flags.len() {
        lemma_last_flag_past_end(flags, hi - 1);
    }
}

fn last_flag(flags: &[bool], hi: usize) -> (r: Option<usize>)
    ensures
        match r {
            Some(k) => last_flag_in(flags@, 0, hi as int) == Some(k as int),
            None => last_flag_in(flags@, 0, hi as int) is None,
        },
{
    let mut i = hi;
    while i > 0
        invariant
            i <= hi,
            last_flag_in(flags@, 0, hi as int) == last_flag_in(flags@, 0, i as int),
        decreases i,
    {
        if i - 1 < flags.len() && flags[i - 1] {
            return Some(i - 1);
        }
        i = i - 1;
    }
    None
}

/// The heading `[` goes to when there is one: the current chapter's, or
/// from its heading (or the line under it) the previous chapter's.
pub open spec fn prev_heading(is_chapter: Seq<bool>, current: int) -> Option<int> {
    match last_flag_in(is_chapter, 0, current + 1) {
        Some(start) => if start + 1 < current { Some(start) } else { last_flag_in(is_chapter, 0, start) },
        None => None,
    }
}

/// `[` in prose: from meaningfully inside a chapter (past its heading and
/// the line under it) go to the chapter's heading; from the heading or the
/// line under it, to the previous chapter's heading; with no chapter before,
/// to the work's start, unless the work has no chapters at all (then nothing
/// happens). Nothing happens at line 0.
pub open spec fn prev_chapter_spec(is_chapter: Seq<bool>, current: int) -> Option<int> {
    if current == 0 {
        None
    } else {
        match prev_heading(is_chapter, current) {
            Some(k) => Some(k),
            None => if exists|j: int| 0 <= j < is_chapter.len() && is_chapter[j] { Some(0) } else { None },
        }
    }
}

/// The target of `[` in prose (see `prev_chapter_spec`); `is_chapter` flags
/// the chapter-heading lines.
pub fn prev_chapter_target(is_chapter: &[bool], current: usize) -> (r: Option<usize>)
    ensures
        match r {
            Some(k) => prev_chapter_spec(is_chapter@, current as int) == Some(k as int),
            None => prev_chapter_spec(is_chapter@, current as int) is None,
        },
        r matches Some(k) ==> k < current,
{
    if current == 0 {
        return None;
    }
    proof {
        lemma_last_flag_in(is_chapter@, 0, current + 1);
        lemma_last_flag_past_end(is_chapter@, current + 1);
    }
    let hi = if current < is_chapter.len() { current + 1 } else { is_chapter.len() };
    let found = match last_flag(is_chapter, hi) {
        Some(start) => {
            if start + 1 < current {
                Some(start)
            } else {
                proof {
                    lemma_last_flag_in(is_chapter@, 0, start as int);
                }
                last_flag(is_chapter, start)
            }
        },
        None => None,
    };
    match found {
        Some(k) => Some(k),
        None => {
            let mut i: usize = 0;
            while i < is_chapter.len()
                invariant
                    current > 0,
                    prev_heading(is_chapter@, current as int) is None,
                    i <= is_chapter@.len(),
                    forall|j: int| 0 <= j < i ==> !is_chapter@[j],
                decreases is_chapter.len() - i,
            {
                if is_chapter[i] {
                    assert(is_chapter@[i as int]);
                    return Some(0);
                }
                i = i + 1;
            }
            None
        },
    }
}

/// `]` in prose: the first chapter heading after the cursor, before
/// `line_count`.
pub fn next_chapter_target(is_chapter: &[bool], current: usize, line_count: usize) -> (r: Option<usize>)
    ensures
        match r {
            Some(k) => current < k < line_count && flag_at(is_chapter@, k as int)
                && forall|j: int| current < j < k ==> !flag_at(is_chapter@, j),
            None => forall|j: int| current < j < line_count ==> !flag_at(is_chapter@, j),
        },
{
    next_scene_marker(is_chapter, current, line_count)
}

/// How long a seek holds off playback sync while the player catches up.
pub const SYNC_SUPPRESS_SEEK_MS: u64 = 500;

/// The hold that stands for "until further notice" (a day).
pub const SYNC_SUPPRESS_INDEFINITE_MS: u64 = 86_400_000;

/// A hold longer than this, met by a timestamped landing while playing, is
/// a stale "until further notice" hold.
pub const STALE_HOLD_MS: u64 = 60_000;

/// The sync hold (a deadline in milliseconds, `existing` the current one)
/// after the cursor lands on a line at `now_ms`: a line without a timestamp
/// holds until further notice, so the cursor stays put; a timestamped one
/// holds briefly while playing and until further notice while paused (a
/// paused seek would otherwise drag the cursor back a line); a stale
/// until-further-notice hold is replaced when playing, and otherwise a hold
/// is never shortened.
pub open spec fn sync_hold_spec(now_ms: u64, playing: bool, timestamped: bool, existing: Option<u64>) -> Option<u64> {
    if !timestamped {
        Some((now_ms + SYNC_SUPPRESS_INDEFINITE_MS) as u64)
    } else {
        let until = (now_ms + if playing { SYNC_SUPPRESS_SEEK_MS } else { SYNC_SUPPRESS_INDEFINITE_MS }) as u64;
        let stale = playing && (existing matches Some(e) && e > now_ms + STALE_HOLD_MS);
        if stale {
            Some(until)
        } else if existing matches Some(e) && until <= e {
            existing
        } else {
            Some(until)
        }
    }
}

/// The sync hold after a landing at `now_ms` (see `sync_hold_spec`).
pub fn sync_hold_after_landing(now_ms: u64, playing: bool, timestamped: bool, existing: Option<u64>) -> (r: Option<u64>)
    requires
        now_ms + SYNC_SUPPRESS_INDEFINITE_MS <= u64::MAX,
    ensures
        r == sync_hold_spec(now_ms, playing, timestamped, existing),
{
    if !timestamped {
        return Some(now_ms + SYNC_SUPPRESS_INDEFINITE_MS);
    }
    let until = now_ms + if playing { SYNC_SUPPRESS_SEEK_MS } else { SYNC_SUPPRESS_INDEFINITE_MS };
    let stale = playing && match existing {
        Some(e) => e > now_ms + STALE_HOLD_MS,
        None => false,
    };
    if stale {
        return Some(until);
    }
    match existing {
        Some(e) => if until <= e { existing } else { Some(until) },
        None => Some(until),
    }
}

/// A timestamped landing while playing always leaves sync following the
/// audio within a minute (a stale until-further-notice hold never survives
/// it); while paused, an existing hold is never shortened.
pub proof fn law_timestamped_landing_revives_sync(now_ms: u64, timestamped: bool, existing: Option<u64>)
    requires
        now_ms + SYNC_SUPPRESS_INDEFINITE_MS <= u64::MAX,
    ensures
        timestamped ==> (sync_hold_spec(now_ms, true, timestamped, existing) matches Some(u) && u <= now_ms + STALE_HOLD_MS),
        existing matches Some(e) ==> (timestamped ==> (sync_hold_spec(now_ms, false, timestamped, existing) matches Some(u) && u >= e)),
{
}

/// The prose cursor step (`'`/Down and `;`/Up on prose, which has no
/// dialogue structure): one buffer line down or up, then past any stanza-gap
/// rows in the same direction; `None` at the first line (up) or the last
/// (down). `is_gap` flags the empty verse rows.
pub fn prose_cursor_step(line_count: usize, current: usize, forward: bool, is_gap: &[bool]) -> (r: Option<usize>)
    requires
        line_count <= is_gap@.len(),
        current <= line_count,
    ensures
        forward ==> r == (if current + 1 < line_count {
            Some(skip_gap_down(line_count as int, current + 1, is_gap@) as usize)
        } else {
            None::<usize>
        }),
        !forward ==> r == (if current > 0 { Some(skip_gap_up(current - 1, is_gap@) as usize) } else { None::<usize> }),
{
    if forward {
        if current < line_count && current + 1 < line_count {
            Some(skip_gap_rows(line_count, current + 1, 1, is_gap))
        } else {
            None
        }
    } else if current > 0 {
        Some(skip_gap_rows(line_count, current - 1, -1, is_gap))
    } else {
        None
    }
}

/// `l` clamped to the last line (line 0 of an empty buffer).
pub open spec fn clamp_line(l: int, line_count: int) -> int {
    let last = if line_count > 0 { line_count - 1 } else { 0 };
    if l <= last { l } else { last }
}

/// The cursor landing on a prose page whose stored top is (`start_line`,
/// `start_off`): the top line itself when the page starts at a line's top;
/// otherwise the first dialogue line after the straddling top line, unless
/// the page's known last line (`last_on_page`) comes before it (an
/// over-tall straddler fills the page), when the straddler itself. Clamped
/// to the buffer.
pub fn prose_page_landing(
    start_line: usize,
    start_off: i32,
    last_on_page: Option<usize>,
    dialogue: &[bool],
    line_count: usize,
) -> (r: usize)
    requires
        start_line < usize::MAX,
    ensures
        r == (if start_off <= 0 {
            clamp_line(start_line as int, line_count as int)
        } else {
            let candidate = next_dialogue_from_spec(dialogue@, start_line + 1, line_count as int);
            if last_on_page matches Some(last) && candidate > last {
                clamp_line(start_line as int, line_count as int)
            } else {
                clamp_line(candidate, line_count as int)
            }
        }),
{
    let last = if line_count > 0 { line_count - 1 } else { 0 };
    if start_off <= 0 {
        return if start_line <= last { start_line } else { last };
    }
    let candidate = next_dialogue_from(dialogue, start_line + 1, line_count);
    let straddler = match last_on_page {
        Some(l) => candidate > l,
        None => false,
    };
    let l = if straddler { start_line } else { candidate };
    if l <= last { l } else { last }
}

/// `(` on a play: the last act opening (the lines of `act_dialogue_lines`)
/// before the cursor.
pub fn prev_act_target(acts: &[usize], current: usize) -> (r: Option<usize>)
    ensures
        match r {
            Some(d) => exists|k: int| 0 <= k < acts@.len() && acts@[k] == d && d < current
                && forall|j: int| k < j < acts@.len() ==> acts@[j] >= current,
            None => forall|j: int| 0 <= j < acts@.len() ==> acts@[j] >= current,
        },
{
    let mut i = acts.len();
    while i > 0
        invariant
            i <= acts@.len(),
            forall|j: int| i <= j < acts@.len() ==> acts@[j] >= current,
        decreases i,
    {
        if acts[i - 1] < current {
            assert(acts@[i - 1] < current);
            return Some(acts[i - 1]);
        }
        i = i - 1;
    }
    None
}

/// `&` on a play: the first act opening after the cursor.
pub fn next_act_target(acts: &[usize], current: usize) -> (r: Option<usize>)
    ensures
        match r {
            Some(d) => exists|k: int| 0 <= k < acts@.len() && acts@[k] == d && d > current
                && forall|j: int| 0 <= j < k ==> acts@[j] <= current,
            None => forall|j: int| 0 <= j < acts@.len() ==> acts@[j] <= current,
        },
{
    let mut i: usize = 0;
    while i < acts.len()
        invariant
            i <= acts@.len(),
            forall|j: int| 0 <= j < i ==> acts@[j] <= current,
        decreases acts.len() - i,
    {
        if acts[i] > current {
            assert(acts@[i as int] > current);
            return Some(acts[i]);
        }
        i = i + 1;
    }
    None
}

/// The text of buffer line `bl` (empty past the end).
pub open spec fn line_text(texts: Seq<String>, bl: int) -> Seq<char> {
    if 0 <= bl < texts.len() { texts[bl]@ } else { Seq::empty() }
}

/// A trimmed line that reads as a heading: its lowercase form holds
/// `chapter` or `part `.
pub open spec fn heading_like(t: Seq<char>) -> bool {
    has_infix(lowercased(t), "chapter"@) || has_infix(lowercased(t), "part "@)
}

/// The nearest heading-like trimmed line at or above `bl`.
pub open spec fn heading_scan(texts: Seq<String>, bl: int) -> Option<Seq<char>>
    decreases bl + 1,
{
    if bl < 0 {
        None
    } else if heading_like(trimmed(line_text(texts, bl))) {
        Some(trimmed(line_text(texts, bl)))
    } else {
        heading_scan(texts, bl - 1)
    }
}

/// The heading shown for the cursor's chapter in prose: the trimmed text of
/// the nearest chapter-break line at or before the cursor; before the first
/// break, the nearest heading-like line above the cursor (when not empty);
/// else the work's title. `breaks` are the chapter-break lines, ascending;
/// `texts` the work-line text of each buffer line (empty when unmapped).
pub open spec fn chapter_title_spec(breaks: Seq<usize>, texts: Seq<String>, current: int, work_title: Seq<char>) -> Seq<char> {
    if exists|k: int| 0 <= k < breaks.len() && breaks[k] <= current {
        let k = choose|k: int| 0 <= k < breaks.len() && breaks[k] <= current
            && forall|j: int| k < j < breaks.len() ==> breaks[j] > current;
        trimmed(line_text(texts, breaks[k] as int))
    } else {
        match heading_scan(texts, current) {
            Some(t) => if t.len() > 0 { t } else { work_title },
            None => work_title,
        }
    }
}

fn text_at(texts: &[String], bl: usize) -> (r: &str)
    ensures
        r@ == line_text(texts@, bl as int),
{
    if bl < texts.len() {
        texts[bl].as_str()
    } else {
        proof {
            reveal_strlit("");
        }
        ""
    }
}

fn is_heading_like(t: &str) -> (r: bool)
    ensures
        r == heading_like(t@),
{
    let lower = to_lowercase(t);
    proof {
        reveal_strlit("chapter");
        reveal_strlit("part ");
    }
    contains_str(lower.as_str(), "chapter") || contains_str(lower.as_str(), "part ")
}

/// The heading of the cursor's chapter in prose (see `chapter_title_spec`).
pub fn chapter_title(breaks: &[usize], texts: &[String], current: usize, work_title: &str) -> (r: String)
    ensures
        r@ == chapter_title_spec(breaks@, texts@, current as int, work_title@),
{
    match chapter_break_at_or_before(breaks, current) {
        Some(k) => {
            proof {
                let kk = choose|k: int| 0 <= k < breaks@.len() && breaks@[k] <= current
                    && forall|j: int| k < j < breaks@.len() ==> breaks@[j] > current;
                assert(0 <= kk < breaks@.len() && breaks@[kk] <= current);
                if kk < k {
                    assert(breaks@[k as int] > current);
                } else if kk > k {
                    assert(breaks@[kk] > current);
                }
            }
            trim(text_at(texts, breaks[k])).to_owned()
        },
        None => {
            let mut bl = current;
            loop
                invariant
                    bl <= current,
                    heading_scan(texts@, current as int) == heading_scan(texts@, bl as int),
                    forall|j: int| 0 <= j < breaks@.len() ==> breaks@[j] > current,
                decreases bl,
            {
                let t = trim(text_at(texts, bl));
                if is_heading_like(t) {
                    if t.unicode_len() > 0 {
                        return t.to_owned();
                    }
                    return work_title.to_owned();
                }
                if bl == 0 {
                    proof {
                        assert(heading_scan(texts@, -1) is None);
                    }
                    return work_title.to_owned();
                }
                bl = bl - 1;
            }
        },
    }
}

/// The work's first dialogue line (line 0 when it has none).
pub fn first_dialogue_line(dialogue: &[bool]) -> (r: usize)
    ensures
        r == (match first_both(dialogue@, dialogue@, 0, dialogue@.len() as int) {
            Some(k) => k,
            None => 0,
        }),
        r == 0 || (r < dialogue@.len() && dialogue@[r as int] && forall|j: int| 0 <= j < r ==> !dialogue@[j]),
{
    let mut i: usize = 0;
    while i < dialogue.len()
        invariant
            i <= dialogue@.len(),
            first_both(dialogue@, dialogue@, 0, dialogue@.len() as int)
                == first_both(dialogue@, dialogue@, i as int, dialogue@.len() as int),
            forall|j: int| 0 <= j < i ==> !dialogue@[j],
        decreases dialogue.len() - i,
    {
        if dialogue[i] {
            return i;
        }
        i = i + 1;
    }
    0
}

// ---------------------------------------------------------------------------
// The order of the page turns
// ---------------------------------------------------------------------------

/// What a page key does to the reading view.
#[derive(Clone, Copy, Debug, PartialEq, Eq, Structural)]
pub enum PageMove {
    /// Nothing moves.
    Stay,
    /// Only the cursor moves, to this line.
    MoveCursor(usize),
    /// The page turns to line `top` at pixel `offset` into it, with the
    /// cursor on `cursor`.
    Turn { top: usize, offset: i32, cursor: usize },
    /// No forward boundary is reachable: do what the end jump does.
    JumpToEnd,
}

/// A stored-table turn as a page move (a stored page starts at its line's
/// top).
pub open spec fn table_move(t: TableTurn) -> PageMove {
    match t {
        TableTurn::Stay => PageMove::Stay,
        TableTurn::MoveCursor(l) => PageMove::MoveCursor(l),
        TableTurn::Turn { top, cursor } => PageMove::Turn { top, offset: 0, cursor },
    }
}

/// A live turn as a page move (a whole-line page starts at its line's top).
pub open spec fn live_move(t: LiveTurn) -> PageMove {
    match t {
        LiveTurn::Stay => PageMove::Stay,
        LiveTurn::MoveCursor(l) => PageMove::MoveCursor(l),
        LiveTurn::Turn { top, cursor } => PageMove::Turn { top, offset: 0, cursor },
        LiveTurn::JumpToEnd => PageMove::JumpToEnd,
    }
}

fn table_move_of(t: TableTurn) -> (r: PageMove)
    ensures
        r == table_move(t),
{
    match t {
        TableTurn::Stay => PageMove::Stay,
        TableTurn::MoveCursor(l) => PageMove::MoveCursor(l),
        TableTurn::Turn { top, cursor } => PageMove::Turn { top, offset: 0, cursor },
    }
}

fn live_move_of(t: LiveTurn) -> (r: PageMove)
    ensures
        r == live_move(t),
{
    match t {
        LiveTurn::Stay => PageMove::Stay,
        LiveTurn::MoveCursor(l) => PageMove::MoveCursor(l),
        LiveTurn::Turn { top, cursor } => PageMove::Turn { top, offset: 0, cursor },
        LiveTurn::JumpToEnd => PageMove::JumpToEnd,
    }
}

/// `x`, in the order its rules apply: nothing without a work or while the
/// page-turn lock holds; a stored page table decides alone; nothing in an
/// empty buffer; then the two-column final-spread guard, the scene-snap
/// turn, a stored prose table (when the position is on its grid), the prose
/// row fill (single-column prose, which always decides), the within-
/// paragraph step of an over-tall line, and last the natural turn (nothing
/// at the end of the work). Each argument is that rule's verdict, `None`
/// where the rule does not apply (`natural`: `None` at the end of the work).
pub open spec fn forward_plan_spec(
    ready: bool,
    table: Option<TableTurn>,
    line_count: usize,
    final_guard: Option<LiveTurn>,
    snap: Option<LiveTurn>,
    prose_table: Option<PageMove>,
    row_fill: Option<PageMove>,
    overtall: Option<PageMove>,
    natural: Option<LiveTurn>,
) -> PageMove {
    if !ready {
        PageMove::Stay
    } else if table is Some {
        table_move(table->0)
    } else if line_count == 0 {
        PageMove::Stay
    } else if final_guard is Some {
        live_move(final_guard->0)
    } else if snap is Some {
        live_move(snap->0)
    } else if prose_table is Some {
        prose_table->0
    } else if row_fill is Some {
        row_fill->0
    } else if overtall is Some {
        overtall->0
    } else if natural is Some {
        live_move(natural->0)
    } else {
        PageMove::Stay
    }
}

/// `x`'s move (see `forward_plan_spec`).
pub fn page_forward_plan(
    ready: bool,
    table: Option<TableTurn>,
    line_count: usize,
    final_guard: Option<LiveTurn>,
    snap: Option<LiveTurn>,
    prose_table: Option<PageMove>,
    row_fill: Option<PageMove>,
    overtall: Option<PageMove>,
    natural: Option<LiveTurn>,
) -> (r: PageMove)
    ensures
        r == forward_plan_spec(ready, table, line_count, final_guard, snap, prose_table, row_fill, overtall, natural),
{
    if !ready {
        return PageMove::Stay;
    }
    if let Some(t) = table {
        return table_move_of(t);
    }
    if line_count == 0 {
        return PageMove::Stay;
    }
    if let Some(g) = final_guard {
        return live_move_of(g);
    }
    if let Some(t) = snap {
        return live_move_of(t);
    }
    if let Some(m) = prose_table {
        return m;
    }
    if let Some(m) = row_fill {
        return m;
    }
    if let Some(m) = overtall {
        return m;
    }
    match natural {
        Some(t) => live_move_of(t),
        None => PageMove::Stay,
    }
}

/// `y`, in the order its rules apply, up to the back stack: nothing without
/// a work or while the page-turn lock holds; a stored page table decides
/// alone; then a stored prose table (when the position is on its grid), and
/// the first-spread guard. `None`: none of these applies, and the back stack
/// decides (`back_stack_step`).
pub open spec fn backward_plan_spec(
    ready: bool,
    table: Option<TableTurn>,
    prose_table: Option<PageMove>,
    first_guard: Option<LiveTurn>,
) -> Option<PageMove> {
    if !ready {
        Some(PageMove::Stay)
    } else if table is Some {
        Some(table_move(table->0))
    } else if prose_table is Some {
        prose_table
    } else if first_guard is Some {
        Some(live_move(first_guard->0))
    } else {
        None
    }
}

/// `y`'s move up to the back stack (see `backward_plan_spec`).
pub fn page_backward_plan(
    ready: bool,
    table: Option<TableTurn>,
    prose_table: Option<PageMove>,
    first_guard: Option<LiveTurn>,
) -> (r: Option<PageMove>)
    ensures
        r == backward_plan_spec(ready, table, prose_table, first_guard),
{
    if !ready {
        return Some(PageMove::Stay);
    }
    if let Some(t) = table {
        return Some(table_move_of(t));
    }
    if prose_table.is_some() {
        return prose_table;
    }
    match first_guard {
        Some(g) => Some(live_move_of(g)),
        None => None,
    }
}

/// The reading view: the page's top line, the pixel offset into it, and the
/// cursor line.
#[derive(Clone, Copy, Debug, PartialEq, Eq, Structural)]
pub struct ReadingView {
    pub top: usize,
    pub offset: i32,
    pub cursor: usize,
}

/// A forward page turn remembers where it came from: the current position
/// goes on the back stack.
pub fn commit_forward_turn(stack: &mut Vec<(usize, i32)>, page_top: usize, page_offset: i32)
    ensures
        final(stack)@ == old(stack)@.push((page_top, page_offset)),
{
    stack.push((page_top, page_offset));
}

/// The view and back stack after `x`'s move, and whether the end jump is
/// due: a turn pushes the position it leaves.
pub open spec fn forward_applied(v: ReadingView, s: Seq<(usize, i32)>, m: PageMove) -> (ReadingView, Seq<(usize, i32)>, bool) {
    match m {
        PageMove::Stay => (v, s, false),
        PageMove::MoveCursor(l) => (ReadingView { cursor: l, ..v }, s, false),
        PageMove::Turn { top, offset, cursor } => (
            ReadingView { top, offset, cursor },
            s.push((v.top, v.offset)),
            false,
        ),
        PageMove::JumpToEnd => (v, s, true),
    }
}

/// Carries out `x`'s move (see `forward_applied`); returns whether the end
/// jump is due.
pub fn apply_forward_move(view: &mut ReadingView, stack: &mut Vec<(usize, i32)>, m: PageMove) -> (end_jump: bool)
    ensures
        (*final(view), final(stack)@, end_jump) == forward_applied(*old(view), old(stack)@, m),
{
    match m {
        PageMove::Stay => false,
        PageMove::MoveCursor(l) => {
            view.cursor = l;
            false
        },
        PageMove::Turn { top, offset, cursor } => {
            commit_forward_turn(stack, view.top, view.offset);
            *view = ReadingView { top, offset, cursor };
            false
        },
        PageMove::JumpToEnd => true,
    }
}

/// `y` right after a forward turn returns to exactly the page `x` left:
/// when the turn moved the page forward (to a later line, or further into
/// the same over-tall line), the back stack gives back the position the
/// turn pushed — a turn to that page top, or the restore of that offset —
/// and is left as it was before `x`.
pub proof fn law_back_after_forward_turn(v: ReadingView, s: Seq<(usize, i32)>, top: usize, offset: i32, cursor: usize)
    requires
        top > v.top || (top == v.top && offset > v.offset),
    ensures
        ({
            let (after, stack, _) = forward_applied(v, s, PageMove::Turn { top, offset, cursor });
            back_step_spec(stack, after.top, after.offset) == (s, if top > v.top {
                BackStep::Turn { top: v.top }
            } else {
                BackStep::Restore { line: v.top, offset: v.offset }
            })
        }),
{
    let pushed = s.push((v.top, v.offset));
    assert(!stale_entry(pushed.last(), top, offset));
    assert(drop_stale(pushed, top, offset) == pushed);
    assert(pushed.drop_last() =~= s);
}

/// Drops the back-stack entries on top that lie at or after the position
/// (`line`, `offset`) (compared line first, then offset).
pub open spec fn drop_from(s: Seq<(usize, i32)>, line: usize, offset: i32) -> Seq<(usize, i32)>
    decreases s.len(),
{
    if s.len() > 0 && (s.last().0 > line || (s.last().0 == line && s.last().1 >= offset)) {
        drop_from(s.drop_last(), line, offset)
    } else {
        s
    }
}

/// `y` on a stored prose table, on its grid, turning back to the page at
/// (`line`, `offset`): the back-stack entries that would return to that page
/// or ahead are dropped, since the table is the source of truth there.
pub fn prune_back_stack(stack: &mut Vec<(usize, i32)>, line: usize, offset: i32)
    ensures
        final(stack)@ == drop_from(old(stack)@, line, offset),
{
    while stack.len() > 0
        invariant
            drop_from(old(stack)@, line, offset) == drop_from(stack@, line, offset),
        ensures
            drop_from(old(stack)@, line, offset) == stack@,
        decreases stack@.len(),
    {
        let (t, o) = stack[stack.len() - 1];
        if !(t > line || (t == line && o >= offset)) {
            break;
        }
        let ghost before = stack@;
        stack.pop();
        proof {
            assert(stack@ =~= before.drop_last());
        }
    }
}

} // verus!
