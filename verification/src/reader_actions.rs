//! Small pieces of reader actions: the vocab popup's switches, the work and
//! division label that is copied to the clipboard, and the lines that bound a
//! looped chunk of recorded audio.

use vstd::prelude::*;
use crate::text::{decimal_int, push_decimal_i128};

verus! {

// ---------------------------------------------------------------------------
// The vocab popup
// ---------------------------------------------------------------------------

/// The vocab popup's switches.
#[derive(Clone, Copy, Debug, PartialEq, Eq, Structural)]
pub struct VocabPopupFlags {
    /// The popup follows the cursor and the playback line.
    pub auto: bool,
    /// Vocab words are highlighted in the text.
    pub highlight_visible: bool,
}

/// What the `rr` chord does to the popup.
#[derive(Clone, Copy, Debug, PartialEq, Eq, Structural)]
pub enum VocabToggle {
    /// Close the visible popup.
    Close,
    /// Open the popup for the surface's words; `enable_highlight` when the
    /// highlighting was off and has just been turned on (and is to be saved
    /// for the work).
    Open { enable_highlight: bool },
}

/// What the popup's cycling key does.
#[derive(Clone, Copy, Debug, PartialEq, Eq, Structural)]
pub enum VocabPopupKey {
    /// Show the next word of the visible popup.
    Next,
    /// Show the previous word of the visible popup.
    Prev,
    /// Open the popup.
    Open,
}

/// The `rr` chord, and the switches after it: a visible popup closes and
/// stops following; a hidden one opens and follows, turning the
/// highlighting on if it was off.
pub open spec fn rr_spec(f: VocabPopupFlags, popup_visible: bool) -> (VocabPopupFlags, VocabToggle) {
    if popup_visible {
        (VocabPopupFlags { auto: false, ..f }, VocabToggle::Close)
    } else {
        (
            VocabPopupFlags { auto: true, highlight_visible: true },
            VocabToggle::Open { enable_highlight: !f.highlight_visible },
        )
    }
}

impl VocabPopupFlags {
    /// The `rr` chord (see `rr_spec`).
    pub fn chord_toggle(&mut self, popup_visible: bool) -> (r: VocabToggle)
        ensures
            (*final(self), r) == rr_spec(*old(self), popup_visible),
    {
        if popup_visible {
            self.auto = false;
            return VocabToggle::Close;
        }
        let enable = !self.highlight_visible;
        self.highlight_visible = true;
        self.auto = true;
        VocabToggle::Open { enable_highlight: enable }
    }

    /// The cycling key: a visible popup steps to the next or previous word, a
    /// hidden one opens; either way the popup follows the cursor.
    pub fn popup_key(&mut self, popup_visible: bool, forward: bool) -> (r: VocabPopupKey)
        ensures
            r == (if !popup_visible {
                VocabPopupKey::Open
            } else if forward {
                VocabPopupKey::Next
            } else {
                VocabPopupKey::Prev
            }),
            *final(self) == (VocabPopupFlags { auto: true, ..*old(self) }),
    {
        self.auto = true;
        if !popup_visible {
            VocabPopupKey::Open
        } else if forward {
            VocabPopupKey::Next
        } else {
            VocabPopupKey::Prev
        }
    }

    /// Fading the popup out: it stops following (else the next cursor move
    /// would reopen it); returns whether there is a visible popup to fade.
    pub fn fade_out(&mut self, popup_visible: bool) -> (fade: bool)
        ensures
            fade == popup_visible,
            *final(self) == (VocabPopupFlags { auto: false, ..*old(self) }),
    {
        self.auto = false;
        popup_visible
    }
}

/// `rr` twice, from a hidden popup: the first opens it (following, with the
/// highlighting on), the second closes it again; the highlighting stays on.
pub proof fn law_rr_twice_closes_and_keeps_highlight(f: VocabPopupFlags)
    ensures
        ({
            let (opened, first) = rr_spec(f, false);
            let (closed, second) = rr_spec(opened, true);
            &&& first is Open && opened.auto && opened.highlight_visible
            &&& second == VocabToggle::Close
            &&& !closed.auto && closed.highlight_visible
        }),
{
}

// ---------------------------------------------------------------------------
// The work and division label
// ---------------------------------------------------------------------------

/// The label of the current position: the work's abbreviation, then the
/// act (or book) when there is one, then `.` and the scene when there is one
/// (a zero division is absent).
pub open spec fn division_label_spec(abbrev: Seq<char>, d1: i64, d2: i64) -> Seq<char> {
    if d1 == 0 {
        abbrev
    } else if d2 == 0 {
        abbrev + seq![' '] + decimal_int(d1 as int)
    } else {
        abbrev + seq![' '] + decimal_int(d1 as int) + seq!['.'] + decimal_int(d2 as int)
    }
}

/// The label copied to the clipboard for the current division (see
/// `division_label_spec`), such as `Ham 3.1`.
pub fn work_division_label(abbrev: &str, d1: i64, d2: i64) -> (r: String)
    ensures
        r@ == division_label_spec(abbrev@, d1, d2),
{
    let mut s = abbrev.to_owned();
    if d1 == 0 {
        return s;
    }
    proof {
        reveal_strlit(" ");
        reveal_strlit(".");
    }
    s.append(" ");
    push_decimal_i128(&mut s, d1 as i128);
    if d2 != 0 {
        s.append(".");
        push_decimal_i128(&mut s, d2 as i128);
    }
    s
}

// ---------------------------------------------------------------------------
// Looped chunks
// ---------------------------------------------------------------------------

/// A work line's place: (act, scene, line within the scene).
pub open spec fn place_matches(row: (i64, i64, i64), div1: i64, div2: Option<i64>, line: i64) -> bool {
    row.0 == div1 && div2 == Some(row.1) && row.2 == line
}

/// The last work line at `line` of the division (`div1`, `div2`).
pub open spec fn last_place(rows: Seq<(i64, i64, i64)>, div1: i64, div2: Option<i64>, line: i64) -> Option<int>
    decreases rows.len(),
{
    if rows.len() == 0 {
        None
    } else if place_matches(rows.last(), div1, div2, line) {
        Some(rows.len() - 1)
    } else {
        last_place(rows.drop_last(), div1, div2, line)
    }
}

proof fn lemma_last_place_bounds(rows: Seq<(i64, i64, i64)>, div1: i64, div2: Option<i64>, line: i64)
    ensures
        last_place(rows, div1, div2, line) matches Some(i) ==> 0 <= i < rows.len() && place_matches(rows[i], div1, div2, line),
    decreases rows.len(),
{
    if rows.len() > 0 && !place_matches(rows.last(), div1, div2, line) {
        lemma_last_place_bounds(rows.drop_last(), div1, div2, line);
    }
}

/// The buffer line of an optional work line: through the line map when the
/// work has one, else the work line itself.
pub open spec fn through_map(i: Option<int>, work_to_buffer: Option<Seq<usize>>) -> Option<int> {
    match i {
        None => None,
        Some(w) => match work_to_buffer {
            None => Some(w),
            Some(m) => Some(m[w] as int),
        },
    }
}

/// The line map's entries, when there is one.
pub open spec fn map_view(work_to_buffer: Option<&[usize]>) -> Option<Seq<usize>> {
    match work_to_buffer {
        Some(m) => Some(m@),
        None => None,
    }
}

fn last_place_in(rows: &[(i64, i64, i64)], div1: i64, div2: Option<i64>, line: i64) -> (r: Option<usize>)
    ensures
        match r {
            Some(i) => last_place(rows@, div1, div2, line) == Some(i as int),
            None => last_place(rows@, div1, div2, line) is None,
        },
{
    let mut found: Option<usize> = None;
    let mut i: usize = 0;
    proof {
        assert(rows@.take(0) =~= Seq::<(i64, i64, i64)>::empty());
    }
    while i < rows.len()
        invariant
            i <= rows@.len(),
            match found {
                Some(k) => last_place(rows@.take(i as int), div1, div2, line) == Some(k as int),
                None => last_place(rows@.take(i as int), div1, div2, line) is None,
            },
        decreases rows.len() - i,
    {
        let row = rows[i];
        proof {
            let t = rows@.take(i + 1);
            assert(t.drop_last() =~= rows@.take(i as int));
            assert(t.last() == rows@[i as int]);
        }
        if row.0 == div1 && div2 == Some(row.1) && row.2 == line {
            found = Some(i);
        }
        i = i + 1;
    }
    proof {
        assert(rows@.take(rows@.len() as int) =~= rows@);
    }
    found
}

/// The buffer lines that bound a chunk (its first and last line within the
/// division (`div1`, `div2`)): for each, the last work line at that place,
/// mapped through `work_to_buffer` when the work has a line map.
pub fn chunk_lines(
    rows: &[(i64, i64, i64)],
    work_to_buffer: Option<&[usize]>,
    div1: i64,
    div2: Option<i64>,
    a_line: i64,
    b_line: i64,
) -> (r: (Option<usize>, Option<usize>))
    requires
        work_to_buffer matches Some(m) ==> m@.len() >= rows@.len(),
    ensures
        match r.0 {
            Some(x) => through_map(last_place(rows@, div1, div2, a_line), map_view(work_to_buffer)) == Some(x as int),
            None => last_place(rows@, div1, div2, a_line) is None,
        },
        match r.1 {
            Some(x) => through_map(last_place(rows@, div1, div2, b_line), map_view(work_to_buffer)) == Some(x as int),
            None => last_place(rows@, div1, div2, b_line) is None,
        },
{
    let a = last_place_in(rows, div1, div2, a_line);
    let b = last_place_in(rows, div1, div2, b_line);
    proof {
        lemma_last_place_bounds(rows@, div1, div2, a_line);
        lemma_last_place_bounds(rows@, div1, div2, b_line);
    }
    match work_to_buffer {
        None => (a, b),
        Some(m) => {
            let ma = match a {
                Some(i) => Some(m[i]),
                None => None,
            };
            let mb = match b {
                Some(i) => Some(m[i]),
                None => None,
            };
            (ma, mb)
        },
    }
}

// ---------------------------------------------------------------------------
// Copying ids and work information
// ---------------------------------------------------------------------------

/// The clipboard text for the cursor line's mapping id and the playing
/// media's id: both separated by a space, the line id alone, `- ` and the
/// media id, or nothing to copy.
pub open spec fn mapping_clip_spec(line_id: Option<i64>, media_id: Option<i64>) -> Option<Seq<char>> {
    match (line_id, media_id) {
        (Some(l), Some(m)) => Some(decimal_int(l as int) + seq![' '] + decimal_int(m as int)),
        (Some(l), None) => Some(decimal_int(l as int)),
        (None, Some(m)) => Some(seq!['-', ' '] + decimal_int(m as int)),
        (None, None) => None,
    }
}

/// The clipboard text for the mapping ids (see `mapping_clip_spec`).
pub fn line_mapping_clip(line_id: Option<i64>, media_id: Option<i64>) -> (r: Option<String>)
    ensures
        match r {
            Some(t) => mapping_clip_spec(line_id, media_id) == Some(t@),
            None => mapping_clip_spec(line_id, media_id) is None,
        },
{
    proof {
        reveal_strlit(" ");
        reveal_strlit("- ");
    }
    match (line_id, media_id) {
        (Some(l), Some(m)) => {
            let mut s = String::new();
            push_decimal_i128(&mut s, l as i128);
            s.append(" ");
            push_decimal_i128(&mut s, m as i128);
            proof {
                assert(Seq::<char>::empty() + decimal_int(l as int) =~= decimal_int(l as int));
            }
            Some(s)
        },
        (Some(l), None) => {
            let mut s = String::new();
            push_decimal_i128(&mut s, l as i128);
            proof {
                assert(Seq::<char>::empty() + decimal_int(l as int) =~= decimal_int(l as int));
            }
            Some(s)
        },
        (None, Some(m)) => {
            let mut s = String::new();
            s.append("- ");
            push_decimal_i128(&mut s, m as i128);
            proof {
                assert(Seq::<char>::empty() + seq!['-', ' '] =~= seq!['-', ' ']);
            }
            Some(s)
        },
        (None, None) => None,
    }
}

/// The first position of `id` in `ids`.
pub open spec fn first_position(ids: Seq<i64>, id: i64) -> Option<int>
    decreases ids.len(),
{
    if ids.len() == 0 {
        None
    } else if ids[0] == id {
        Some(0)
    } else {
        match first_position(ids.skip(1), id) {
            Some(k) => Some(k + 1),
            None => None,
        }
    }
}

/// `p` shifted by `by`.
pub open spec fn shifted(p: Option<int>, by: int) -> Option<int> {
    match p {
        Some(k) => Some(k + by),
        None => None,
    }
}

fn position_of(ids: &[i64], id: i64) -> (r: Option<usize>)
    ensures
        match r {
            Some(p) => first_position(ids@, id) == Some(p as int),
            None => first_position(ids@, id) is None,
        },
{
    let mut i: usize = 0;
    proof {
        assert(ids@.skip(0) =~= ids@);
    }
    while i < ids.len()
        invariant
            i <= ids@.len(),
            first_position(ids@, id) == shifted(first_position(ids@.skip(i as int), id), i as int),
        decreases ids.len() - i,
    {
        proof {
            assert(ids@.skip(i as int).skip(1) =~= ids@.skip(i + 1));
            assert(ids@.skip(i as int)[0] == ids@[i as int]);
        }
        if ids[i] == id {
            return Some(i);
        }
        i = i + 1;
    }
    proof {
        assert(ids@.skip(i as int) =~= Seq::<i64>::empty());
    }
    None
}

/// The media path index of a work for its information copy: the path at
/// the playing media's first position among the work's media ids, when
/// there is such a path; else the work's first path; else none.
pub open spec fn active_media_spec(media_ids: Seq<i64>, n_paths: int, playing: Option<i64>) -> Option<int> {
    let found = match playing {
        Some(mid) => match first_position(media_ids, mid) {
            Some(i) => if i < n_paths { Some(i) } else { None },
            None => None,
        },
        None => None,
    };
    match found {
        Some(i) => Some(i),
        None => if n_paths > 0 { Some(0) } else { None },
    }
}

/// The index of the work's active media path (see `active_media_spec`).
pub fn active_media_index(media_ids: &[i64], n_paths: usize, playing: Option<i64>) -> (r: Option<usize>)
    ensures
        match r {
            Some(i) => active_media_spec(media_ids@, n_paths as int, playing) == Some(i as int) && i < n_paths,
            None => active_media_spec(media_ids@, n_paths as int, playing) is None,
        },
{
    let mut found: Option<usize> = None;
    if let Some(mid) = playing {
        if let Some(p) = position_of(media_ids, mid) {
            if p < n_paths {
                found = Some(p);
            }
        }
    }
    match found {
        Some(i) => Some(i),
        None => if n_paths > 0 { Some(0) } else { None },
    }
}

/// The clipboard text of the work information: the abbreviation, then the
/// media path and the transcript path, each on its own line when present.
pub open spec fn work_info_spec(abbrev: Seq<char>, media_path: Option<Seq<char>>, transcript: Option<Seq<char>>) -> Seq<char> {
    let with_media = match media_path {
        Some(m) => abbrev + seq!['\n'] + m,
        None => abbrev,
    };
    match transcript {
        Some(t) => with_media + seq!['\n'] + t,
        None => with_media,
    }
}

/// The work information copied to the clipboard (see `work_info_spec`).
pub fn work_info_clip(abbrev: &str, media_path: Option<&str>, transcript: Option<&str>) -> (r: String)
    ensures
        r@ == work_info_spec(
            abbrev@,
            match media_path { Some(m) => Some(m@), None => None },
            match transcript { Some(t) => Some(t@), None => None },
        ),
{
    proof {
        reveal_strlit("\n");
    }
    let mut s = abbrev.to_owned();
    if let Some(m) = media_path {
        s.append("\n");
        s.append(m);
    }
    if let Some(t) = transcript {
        s.append("\n");
        s.append(t);
    }
    s
}

/// What picking an attribution set does.
#[derive(Clone, Copy, Debug, PartialEq, Eq, Structural)]
pub enum AttributionPick {
    /// The work has no authorship data (a toast says so).
    NoData,
    /// There is a single set, so nothing to pick (a toast says so).
    OnlyOne,
    /// Open the attribution picker.
    Open,
}

/// Picking an attribution set among `n_sets`.
pub fn attribution_pick(n_sets: usize) -> (r: AttributionPick)
    ensures
        r == (if n_sets == 0 {
            AttributionPick::NoData
        } else if n_sets == 1 {
            AttributionPick::OnlyOne
        } else {
            AttributionPick::Open
        }),
{
    if n_sets == 0 {
        AttributionPick::NoData
    } else if n_sets == 1 {
        AttributionPick::OnlyOne
    } else {
        AttributionPick::Open
    }
}

} // verus!
