//! Key bindings: one key combination, the reader's binding table, and the
//! compiled-in defaults, assembled per action category (later bindings of the
//! same combination win). Lookup treats the shift flag of a bare uppercase
//! letter as redundant.

use vstd::prelude::*;
use crate::actions::Action;

verus! {

/// One key combination: the key name as the toolkit reports it (e.g. `x`,
/// `Return`, `BackSpace`, `comma`) and the three modifiers.
#[derive(Clone, Debug, PartialEq, Eq, Hash)]
pub struct KeyCombo {
    pub key: String,
    pub ctrl: bool,
    pub shift: bool,
    pub alt: bool,
}

impl View for KeyCombo {
    type V = (Seq<char>, bool, bool, bool);

    open spec fn view(&self) -> (Seq<char>, bool, bool, bool) {
        (self.key@, self.ctrl, self.shift, self.alt)
    }
}

impl KeyCombo {
    /// `key` with no modifier.
    pub fn plain(key: &str) -> (r: Self)
        ensures
            r@ == (key@, false, false, false),
    {
        KeyCombo { key: key.to_owned(), ctrl: false, shift: false, alt: false }
    }

    /// Ctrl+`key`.
    pub fn ctrl(key: &str) -> (r: Self)
        ensures
            r@ == (key@, true, false, false),
    {
        KeyCombo { key: key.to_owned(), ctrl: true, shift: false, alt: false }
    }

    /// Shift+`key`.
    pub fn shift(key: &str) -> (r: Self)
        ensures
            r@ == (key@, false, true, false),
    {
        KeyCombo { key: key.to_owned(), ctrl: false, shift: true, alt: false }
    }

    /// Alt+`key`.
    pub fn alt(key: &str) -> (r: Self)
        ensures
            r@ == (key@, false, false, true),
    {
        KeyCombo { key: key.to_owned(), ctrl: false, shift: false, alt: true }
    }

    /// Ctrl+Shift+`key`.
    pub fn ctrl_shift(key: &str) -> (r: Self)
        ensures
            r@ == (key@, true, true, false),
    {
        KeyCombo { key: key.to_owned(), ctrl: true, shift: true, alt: false }
    }

    /// Ctrl+Alt+`key`.
    pub fn ctrl_alt(key: &str) -> (r: Self)
        ensures
            r@ == (key@, true, false, true),
    {
        KeyCombo { key: key.to_owned(), ctrl: true, shift: false, alt: true }
    }

    /// Alt+Shift+`key`.
    pub fn alt_shift(key: &str) -> (r: Self)
        ensures
            r@ == (key@, false, true, true),
    {
        KeyCombo { key: key.to_owned(), ctrl: false, shift: true, alt: true }
    }

    /// Same key name and modifiers.
    fn same_as(&self, other: &KeyCombo) -> (r: bool)
        ensures
            r == (self@ == other@),
    {
        self.ctrl == other.ctrl && self.shift == other.shift && self.alt == other.alt && self.key == other.key
    }
}

/// The abstract form of a list of bindings.
pub open spec fn bindings_view(s: Seq<(KeyCombo, Action)>) -> Seq<((Seq<char>, bool, bool, bool), Action)> {
    s.map_values(|e: (KeyCombo, Action)| (e.0@, e.1))
}

/// The table built by inserting the bindings of `s` into `m` in order: a
/// later binding of the same combination replaces an earlier one.
pub open spec fn with_bindings(
    m: Map<(Seq<char>, bool, bool, bool), Action>,
    s: Seq<((Seq<char>, bool, bool, bool), Action)>,
) -> Map<(Seq<char>, bool, bool, bool), Action>
    decreases s.len(),
{
    if s.len() == 0 {
        m
    } else {
        with_bindings(m, s.drop_last()).insert(s.last().0, s.last().1)
    }
}

/// No combination occurs twice.
pub open spec fn distinct_combos(s: Seq<((Seq<char>, bool, bool, bool), Action)>) -> bool {
    forall|i: int, j: int| 0 <= i < j < s.len() ==> s[i].0 != s[j].0
}

/// Spec shorthand for the abstract key of a binding table.
pub type ComboKey = (Seq<char>, bool, bool, bool);

proof fn lemma_wb_at(s: Seq<(ComboKey, Action)>, i: int)
    requires
        distinct_combos(s),
        0 <= i < s.len(),
    ensures
        with_bindings(Map::empty(), s).dom().contains(s[i].0),
        with_bindings(Map::empty(), s)[s[i].0] == s[i].1,
    decreases s.len(),
{
    let t = s.drop_last();
    if i < s.len() - 1 {
        assert(t[i] == s[i]);
        assert(s[i].0 != s.last().0);
        lemma_wb_at(t, i);
    }
}

proof fn lemma_wb_absent(s: Seq<(ComboKey, Action)>, k: ComboKey)
    requires
        forall|i: int| 0 <= i < s.len() ==> s[i].0 != k,
    ensures
        !with_bindings(Map::empty(), s).dom().contains(k),
    decreases s.len(),
{
    if s.len() > 0 {
        let t = s.drop_last();
        assert forall|i: int| 0 <= i < t.len() implies t[i].0 != k by {
            assert(t[i] == s[i]);
        }
        lemma_wb_absent(t, k);
    }
}

proof fn lemma_wb_len(s: Seq<(ComboKey, Action)>)
    requires
        distinct_combos(s),
    ensures
        with_bindings(Map::empty(), s).dom().finite(),
        with_bindings(Map::empty(), s).dom().len() == s.len(),
    decreases s.len(),
{
    if s.len() > 0 {
        let t = s.drop_last();
        assert(distinct_combos(t)) by {
            assert forall|i: int, j: int| 0 <= i < j < t.len() implies t[i].0 != t[j].0 by {
                assert(t[i] == s[i]);
                assert(t[j] == s[j]);
            }
        }
        lemma_wb_len(t);
        assert forall|i: int| 0 <= i < t.len() implies t[i].0 != s.last().0 by {
            assert(t[i] == s[i]);
        }
        lemma_wb_absent(t, s.last().0);
    }
}

proof fn lemma_wb_update(s: Seq<(ComboKey, Action)>, i: int, a: Action)
    requires
        distinct_combos(s),
        0 <= i < s.len(),
    ensures
        with_bindings(Map::empty(), s.update(i, (s[i].0, a))) == with_bindings(Map::empty(), s).insert(s[i].0, a),
    decreases s.len(),
{
    let u = s.update(i, (s[i].0, a));
    let t = s.drop_last();
    if i == s.len() - 1 {
        assert(u.drop_last() =~= t);
        assert(with_bindings(Map::empty(), u) =~= with_bindings(Map::empty(), s).insert(s[i].0, a));
    } else {
        assert(u.drop_last() =~= t.update(i, (t[i].0, a)));
        assert(t[i] == s[i]);
        assert(distinct_combos(t)) by {
            assert forall|x: int, y: int| 0 <= x < y < t.len() implies t[x].0 != t[y].0 by {
                assert(t[x] == s[x]);
                assert(t[y] == s[y]);
            }
        }
        lemma_wb_update(t, i, a);
        assert(s[i].0 != s.last().0);
        assert(u.last() == s.last());
        assert(with_bindings(Map::empty(), u) =~= with_bindings(Map::empty(), s).insert(s[i].0, a));
    }
}

/// The reader's binding table: each key combination bound to one action.
pub struct BindingTable {
    entries: Vec<(KeyCombo, Action)>,
}

impl View for BindingTable {
    type V = Map<(Seq<char>, bool, bool, bool), Action>;

    closed spec fn view(&self) -> Map<(Seq<char>, bool, bool, bool), Action> {
        with_bindings(Map::empty(), bindings_view(self.entries@))
    }
}

impl BindingTable {
    /// Internal consistency: no combination is stored twice.
    pub closed spec fn wf(&self) -> bool {
        distinct_combos(bindings_view(self.entries@))
    }

    /// An empty table.
    pub fn new() -> (r: Self)
        ensures
            r.wf(),
            r@ == Map::<(Seq<char>, bool, bool, bool), Action>::empty(),
    {
        let r = BindingTable { entries: Vec::new() };
        proof {
            assert(bindings_view(r.entries@) =~= Seq::empty());
        }
        r
    }

    /// The number of bound combinations.
    pub fn len(&self) -> (r: usize)
        requires
            self.wf(),
        ensures
            r == self@.dom().len(),
    {
        proof {
            lemma_wb_len(bindings_view(self.entries@));
        }
        self.entries.len()
    }

    /// The action bound to `combo`, if any.
    pub fn get(&self, combo: &KeyCombo) -> (r: Option<&Action>)
        requires
            self.wf(),
        ensures
            r is Some <==> self@.dom().contains(combo@),
            r matches Some(a) ==> *a == self@[combo@],
    {
        let ghost s = bindings_view(self.entries@);
        let mut i: usize = 0;
        while i < self.entries.len()
            invariant
                i <= self.entries@.len(),
                s == bindings_view(self.entries@),
                distinct_combos(s),
                forall|k: int| 0 <= k < i ==> s[k].0 != combo@,
            decreases self.entries@.len() - i,
        {
            if self.entries[i].0.same_as(combo) {
                proof {
                    assert(s[i as int].0 == combo@);
                    lemma_wb_at(s, i as int);
                }
                return Some(&self.entries[i].1);
            }
            proof {
                assert(s[i as int].0 != combo@);
            }
            i += 1;
        }
        proof {
            lemma_wb_absent(s, combo@);
        }
        None
    }

    /// Bind `combo` to `action`, replacing any earlier binding of `combo`.
    pub fn insert(&mut self, combo: KeyCombo, action: Action)
        requires
            old(self).wf(),
        ensures
            final(self).wf(),
            final(self)@ == old(self)@.insert(combo@, action),
    {
        let ghost before = bindings_view(self.entries@);
        let mut i: usize = 0;
        while i < self.entries.len()
            invariant
                i <= self.entries@.len(),
                self.entries@ == old(self).entries@,
                before == bindings_view(self.entries@),
                distinct_combos(before),
                forall|k: int| 0 <= k < i ==> before[k].0 != combo@,
            decreases self.entries@.len() - i,
        {
            if self.entries[i].0.same_as(&combo) {
                let ghost cv = combo@;
                self.entries.set(i, (combo, action));
                proof {
                    let after = bindings_view(self.entries@);
                    assert(before[i as int].0 == cv);
                    assert(after =~= before.update(i as int, (before[i as int].0, action)));
                    assert forall|x: int, y: int| 0 <= x < y < after.len() implies after[x].0 != after[y].0 by {
                        assert(after[x].0 == before[x].0);
                        assert(after[y].0 == before[y].0);
                    }
                    lemma_wb_update(before, i as int, action);
                }
                return;
            }
            proof {
                assert(before[i as int].0 != combo@);
            }
            i += 1;
        }
        let ghost cv = combo@;
        self.entries.push((combo, action));
        proof {
            let after = bindings_view(self.entries@);
            assert(after =~= before.push((cv, action)));
            assert(after.drop_last() =~= before);
            assert forall|x: int, y: int| 0 <= x < y < after.len() implies after[x].0 != after[y].0 by {
                if y == after.len() - 1 {
                    assert(after[x].0 == before[x].0);
                } else {
                    assert(after[x] == before[x]);
                    assert(after[y] == before[y]);
                }
            }
        }
    }
}

/// True when the key name is a single ASCII uppercase letter.
pub open spec fn is_uppercase_letter_spec(key: Seq<char>) -> bool {
    key.len() == 1 && 'A' <= key[0] <= 'Z'
}

/// True when the key name is a single ASCII uppercase letter (the shifted
/// form is encoded in the key name itself, so the shift flag is redundant).
pub fn is_uppercase_letter(key: &str) -> (r: bool)
    ensures
        r == is_uppercase_letter_spec(key@),
{
    if key.unicode_len() != 1 {
        return false;
    }
    let c = key.get_char(0);
    'A' <= c && c <= 'Z'
}

/// The shift flag lookup uses: dropped for a bare uppercase letter with
/// neither Ctrl nor Alt held, kept otherwise (Ctrl+Shift+X stays distinct).
pub open spec fn effective_shift(key: Seq<char>, ctrl: bool, shift: bool, alt: bool) -> bool {
    if !ctrl && !alt && is_uppercase_letter_spec(key) { false } else { shift }
}

/// What `lookup` returns on a table.
pub open spec fn lookup_spec(m: Map<(Seq<char>, bool, bool, bool), Action>, key: Seq<char>, ctrl: bool, shift: bool, alt: bool) -> Option<Action> {
    let c = (key, ctrl, effective_shift(key, ctrl, shift, alt), alt);
    if m.dom().contains(c) { Some(m[c]) } else { None }
}

/// Reader-mode key bindings.
pub struct Keymap {
    pub reader: BindingTable,
}

impl Keymap {
    /// The action bound to a key press, or `None`. A shifted bare uppercase
    /// letter (without Ctrl/Alt) matches its plain binding.
    pub fn lookup(&self, key: &str, ctrl: bool, shift: bool, alt: bool) -> (r: Option<Action>)
        requires
            self.reader.wf(),
        ensures
            r == lookup_spec(self.reader@, key@, ctrl, shift, alt),
    {
        let eff = if !ctrl && !alt && is_uppercase_letter(key) { false } else { shift };
        let combo = KeyCombo { key: key.to_owned(), ctrl, shift: eff, alt };
        match self.reader.get(&combo) {
            Some(a) => Some(*a),
            None => None,
        }
    }

    /// The keymap built from user bindings parsed from a keymap file:
    /// `None` (an unreadable or malformed file) gives the defaults; otherwise
    /// each binding with a known action is applied over the defaults in file
    /// order, and bindings with unknown actions are skipped.
    pub fn from_bindings(parsed: Option<Vec<ParsedBinding>>) -> (r: Keymap)
        ensures
            r.reader.wf(),
            r.reader@ == (match parsed {
                None => default_bindings_spec(),
                Some(v) => with_bindings(default_bindings_spec(), known_bindings(v@)),
            }),
    {
        let mut table = default_reader_bindings();
        match parsed {
            None => Keymap { reader: table },
            Some(v) => {
                let mut i: usize = 0;
                while i < v.len()
                    invariant
                        i <= v@.len(),
                        table.wf(),
                        table@ == with_bindings(default_bindings_spec(), known_bindings(v@.take(i as int))),
                    decreases v@.len() - i,
                {
                    let b = &v[i];
                    proof {
                        let t = v@.take(i + 1);
                        assert(t.drop_last() =~= v@.take(i as int));
                        lemma_known_bindings_push(v@.take(i as int), v@[i as int]);
                        assert(t =~= v@.take(i as int).push(v@[i as int]));
                    }
                    match b.action {
                        Some(a) => {
                            let combo = KeyCombo { key: b.key.clone(), ctrl: b.ctrl, shift: b.shift, alt: b.alt };
                            table.insert(combo, a);
                            proof {
                                let k = known_bindings(v@.take(i as int));
                                let e = ((b.key@, b.ctrl, b.shift, b.alt), a);
                                assert(k.push(e).drop_last() =~= k);
                            }
                        },
                        None => {},
                    }
                    i += 1;
                }
                proof {
                    assert(v@.take(v@.len() as int) =~= v@);
                }
                Keymap { reader: table }
            },
        }
    }
}

impl Default for Keymap {
    /// The compiled-in default bindings.
    fn default() -> (r: Self)
        ensures
            r.reader.wf(),
            r.reader@ == default_bindings_spec(),
    {
        Keymap { reader: default_reader_bindings() }
    }
}

/// One user binding read from a keymap file; `action` is `None` when the
/// file names an action that does not exist.
#[derive(Clone, Debug)]
pub struct ParsedBinding {
    pub key: String,
    pub ctrl: bool,
    pub shift: bool,
    pub alt: bool,
    pub action: Option<Action>,
}

/// The bindings of a file whose action is known, in file order.
pub open spec fn known_bindings(s: Seq<ParsedBinding>) -> Seq<((Seq<char>, bool, bool, bool), Action)>
    decreases s.len(),
{
    if s.len() == 0 {
        Seq::empty()
    } else {
        let rest = known_bindings(s.drop_last());
        let b = s.last();
        match b.action {
            Some(a) => rest.push(((b.key@, b.ctrl, b.shift, b.alt), a)),
            None => rest,
        }
    }
}

proof fn lemma_known_bindings_push(s: Seq<ParsedBinding>, b: ParsedBinding)
    ensures
        known_bindings(s.push(b)) == (match b.action {
            Some(a) => known_bindings(s).push(((b.key@, b.ctrl, b.shift, b.alt), a)),
            None => known_bindings(s),
        }),
{
    assert(s.push(b).drop_last() =~= s);
}

proof fn lemma_with_bindings_concat(
    m: Map<(Seq<char>, bool, bool, bool), Action>,
    a: Seq<((Seq<char>, bool, bool, bool), Action)>,
    b: Seq<((Seq<char>, bool, bool, bool), Action)>,
)
    ensures
        with_bindings(m, a + b) == with_bindings(with_bindings(m, a), b),
    decreases b.len(),
{
    if b.len() > 0 {
        assert((a + b).drop_last() =~= a + b.drop_last());
        lemma_with_bindings_concat(m, a, b.drop_last());
    } else {
        assert(a + b =~= a);
    }
}

/// Insert every binding of `v`, in order.
fn insert_all(table: &mut BindingTable, v: Vec<(KeyCombo, Action)>)
    requires
        old(table).wf(),
    ensures
        final(table).wf(),
        final(table)@ == with_bindings(old(table)@, bindings_view(v@)),
{
    let ghost start = table@;
    let mut i: usize = 0;
    let n = v.len();
    let ghost all = v@;
    // Insert front to back; track the inserted prefix.
    while i < n
        invariant
            n == all.len(),
            v@ == all,
            i <= n,
            table.wf(),
            table@ == with_bindings(start, bindings_view(all.take(i as int))),
        decreases n - i,
    {
        let c = KeyCombo { key: v[i].0.key.clone(), ctrl: v[i].0.ctrl, shift: v[i].0.shift, alt: v[i].0.alt };
        let a = v[i].1;
        proof {
            assert(bindings_view(all.take(i + 1)).drop_last() =~= bindings_view(all.take(i as int)));
            assert(bindings_view(all.take(i + 1)).last() == (all[i as int].0@, all[i as int].1));
        }
        table.insert(c, a);
        i += 1;
    }
    proof {
        assert(all.take(n as int) =~= all);
    }
}

/// The `nav` category of the default bindings.
pub open spec fn nav_list() -> Seq<((Seq<char>, bool, bool, bool), Action)> {
    seq![
        (("x"@, false, false, false), Action::PageForward),
        (("y"@, false, false, false), Action::PageBackward),
        (("j"@, false, false, false), Action::CursorNextDialogue),
        (("k"@, false, false, false), Action::CursorPrevDialogue),
        (("h"@, false, false, false), Action::CursorNextDialogueNoSeek),
        (("t"@, false, false, false), Action::CursorPrevDialogueNoSeek),
        (("Up"@, false, false, false), Action::CursorPrevDialogue),
        (("Up"@, false, true, false), Action::PageBackwardBottom),
        (("Down"@, false, false, false), Action::CursorNextDialogue),
        (("comma"@, false, false, false), Action::JumpToPrevSpeaker),
        (("q"@, false, false, false), Action::JumpToNextSpeaker),
        (("J"@, false, false, false), Action::JumpToNextSpeaker),
        (("K"@, false, false, false), Action::JumpToPrevSpeaker),
        (("g"@, false, false, false), Action::PendingG),
        (("G"@, false, false, false), Action::JumpToEnd),
        (("bracketleft"@, false, false, false), Action::JumpToPrevDivision),
        (("bracketleft"@, true, false, false), Action::SetChapter),
        (("braceleft"@, false, false, false), Action::JumpToNextDivision),
        (("C"@, false, false, false), Action::ShowCurrentChapter),
        (("colon"@, false, true, false), Action::TogglePlaybackSpeed),
        (("semicolon"@, false, true, false), Action::TogglePlaybackSpeed),
        (("semicolon"@, false, false, false), Action::PrevBookmark),
        (("apostrophe"@, false, false, false), Action::NextBookmark),
        (("m"@, false, false, false), Action::ToggleBookmark),
        (("period"@, false, false, false), Action::BookmarkTap),
        (("c"@, true, false, false), Action::TogglePreviousWork),
        (("e"@, true, false, false), Action::ShowEchoesBcp),
        (("period"@, true, false, false), Action::OpenBookmarkPicker),
    ]
}

/// The `nav` category of the default bindings.
#[verifier::rlimit(50)]
fn nav_bindings() -> (r: Vec<(KeyCombo, Action)>)
    ensures
        bindings_view(r@) == nav_list(),
{
    let mut v: Vec<(KeyCombo, Action)> = Vec::new();
    v.push((KeyCombo::plain("x"), Action::PageForward));
    v.push((KeyCombo::plain("y"), Action::PageBackward));
    v.push((KeyCombo::plain("j"), Action::CursorNextDialogue));
    v.push((KeyCombo::plain("k"), Action::CursorPrevDialogue));
    v.push((KeyCombo::plain("h"), Action::CursorNextDialogueNoSeek));
    v.push((KeyCombo::plain("t"), Action::CursorPrevDialogueNoSeek));
    v.push((KeyCombo::plain("Up"), Action::CursorPrevDialogue));
    v.push((KeyCombo::shift("Up"), Action::PageBackwardBottom));
    v.push((KeyCombo::plain("Down"), Action::CursorNextDialogue));
    v.push((KeyCombo::plain("comma"), Action::JumpToPrevSpeaker));
    v.push((KeyCombo::plain("q"), Action::JumpToNextSpeaker));
    v.push((KeyCombo::plain("J"), Action::JumpToNextSpeaker));
    v.push((KeyCombo::plain("K"), Action::JumpToPrevSpeaker));
    v.push((KeyCombo::plain("g"), Action::PendingG));
    v.push((KeyCombo::plain("G"), Action::JumpToEnd));
    v.push((KeyCombo::plain("bracketleft"), Action::JumpToPrevDivision));
    v.push((KeyCombo::ctrl("bracketleft"), Action::SetChapter));
    v.push((KeyCombo::plain("braceleft"), Action::JumpToNextDivision));
    v.push((KeyCombo::plain("C"), Action::ShowCurrentChapter));
    v.push((KeyCombo::shift("colon"), Action::TogglePlaybackSpeed));
    v.push((KeyCombo::shift("semicolon"), Action::TogglePlaybackSpeed));
    v.push((KeyCombo::plain("semicolon"), Action::PrevBookmark));
    v.push((KeyCombo::plain("apostrophe"), Action::NextBookmark));
    v.push((KeyCombo::plain("m"), Action::ToggleBookmark));
    v.push((KeyCombo::plain("period"), Action::BookmarkTap));
    v.push((KeyCombo::ctrl("c"), Action::TogglePreviousWork));
    v.push((KeyCombo::ctrl("e"), Action::ShowEchoesBcp));
    v.push((KeyCombo::ctrl("period"), Action::OpenBookmarkPicker));
    proof {
        assert(bindings_view(v@) =~= nav_list());
    }
    v
}

/// The `media` category of the default bindings.
pub open spec fn media_list() -> Seq<((Seq<char>, bool, bool, bool), Action)> {
    seq![
        (("a"@, false, false, false), Action::TogglePause),
        (("s"@, false, false, false), Action::TogglePlaybackSync),
        (("o"@, false, false, false), Action::SeekShortBackward),
        (("e"@, false, false, false), Action::SeekShortForward),
        (("O"@, false, false, false), Action::SeekLongBackward),
        (("E"@, false, false, false), Action::SeekLongForward),
        (("Left"@, false, false, false), Action::SeekShortBackward),
        (("Up"@, true, false, false), Action::VolumeUp),
        (("Down"@, true, false, false), Action::VolumeDown),
        (("plus"@, false, false, false), Action::CopyWorkDivision),
        (("p"@, false, false, true), Action::TogglePhraseHighlight),
    ]
}

/// The `media` category of the default bindings.
#[verifier::rlimit(50)]
fn media_bindings() -> (r: Vec<(KeyCombo, Action)>)
    ensures
        bindings_view(r@) == media_list(),
{
    let mut v: Vec<(KeyCombo, Action)> = Vec::new();
    v.push((KeyCombo::plain("a"), Action::TogglePause));
    v.push((KeyCombo::plain("s"), Action::TogglePlaybackSync));
    v.push((KeyCombo::plain("o"), Action::SeekShortBackward));
    v.push((KeyCombo::plain("e"), Action::SeekShortForward));
    v.push((KeyCombo::plain("O"), Action::SeekLongBackward));
    v.push((KeyCombo::plain("E"), Action::SeekLongForward));
    v.push((KeyCombo::plain("Left"), Action::SeekShortBackward));
    v.push((KeyCombo::ctrl("Up"), Action::VolumeUp));
    v.push((KeyCombo::ctrl("Down"), Action::VolumeDown));
    v.push((KeyCombo::plain("plus"), Action::CopyWorkDivision));
    v.push((KeyCombo::alt("p"), Action::TogglePhraseHighlight));
    proof {
        assert(bindings_view(v@) =~= media_list());
    }
    v
}

/// The `vocab` category of the default bindings.
pub open spec fn vocab_list() -> Seq<((Seq<char>, bool, bool, bool), Action)> {
    seq![
        (("h"@, true, false, false), Action::ShowSynopsisOverlay),
        (("r"@, false, false, false), Action::VocabPopupTap),
        (("r"@, true, false, false), Action::AddVocabWord),
        (("r"@, true, true, false), Action::VocabJournalAsk),
        (("R"@, true, true, false), Action::VocabJournalAsk),
        (("r"@, false, false, true), Action::ToggleVocabHighlight),
        (("g"@, true, true, false), Action::OpenLastGloss),
        (("G"@, true, true, false), Action::OpenLastGloss),
        (("u"@, false, false, true), Action::CycleScansion),
        (("z"@, false, false, false), Action::OpenConcordancePicker),
        (("z"@, true, false, false), Action::OpenConcordanceWordPicker),
        (("z"@, false, false, true), Action::OpenConcordanceWorksPicker),
        (("Z"@, true, true, false), Action::OpenConcordanceListPicker),
        (("g"@, true, false, false), Action::ToggleGlossOverlay),
        (("g"@, false, false, true), Action::OpenGlossPicker),
        (("g"@, true, false, true), Action::ToggleAnnotationTint),
        (("f"@, true, false, false), Action::OpenCorpusSearch),
        (("j"@, true, false, false), Action::OpenJournalPicker),
        (("j"@, false, false, true), Action::OpenRecentQaPicker),
        (("backslash"@, false, false, false), Action::CycleSegmentOverlays),
        (("u"@, false, false, false), Action::CycleSegmentOverlays),
    ]
}

/// The `vocab` category of the default bindings.
#[verifier::rlimit(50)]
fn vocab_bindings() -> (r: Vec<(KeyCombo, Action)>)
    ensures
        bindings_view(r@) == vocab_list(),
{
    let mut v: Vec<(KeyCombo, Action)> = Vec::new();
    v.push((KeyCombo::ctrl("h"), Action::ShowSynopsisOverlay));
    v.push((KeyCombo::plain("r"), Action::VocabPopupTap));
    v.push((KeyCombo::ctrl("r"), Action::AddVocabWord));
    v.push((KeyCombo::ctrl_shift("r"), Action::VocabJournalAsk));
    v.push((KeyCombo::ctrl_shift("R"), Action::VocabJournalAsk));
    v.push((KeyCombo::alt("r"), Action::ToggleVocabHighlight));
    v.push((KeyCombo::ctrl_shift("g"), Action::OpenLastGloss));
    v.push((KeyCombo::ctrl_shift("G"), Action::OpenLastGloss));
    v.push((KeyCombo::alt("u"), Action::CycleScansion));
    v.push((KeyCombo::plain("z"), Action::OpenConcordancePicker));
    v.push((KeyCombo::ctrl("z"), Action::OpenConcordanceWordPicker));
    v.push((KeyCombo::alt("z"), Action::OpenConcordanceWorksPicker));
    v.push((KeyCombo::ctrl_shift("Z"), Action::OpenConcordanceListPicker));
    v.push((KeyCombo::ctrl("g"), Action::ToggleGlossOverlay));
    v.push((KeyCombo::alt("g"), Action::OpenGlossPicker));
    v.push((KeyCombo::ctrl_alt("g"), Action::ToggleAnnotationTint));
    v.push((KeyCombo::ctrl("f"), Action::OpenCorpusSearch));
    v.push((KeyCombo::ctrl("j"), Action::OpenJournalPicker));
    v.push((KeyCombo::alt("j"), Action::OpenRecentQaPicker));
    v.push((KeyCombo::plain("backslash"), Action::CycleSegmentOverlays));
    v.push((KeyCombo::plain("u"), Action::CycleSegmentOverlays));
    proof {
        assert(bindings_view(v@) =~= vocab_list());
    }
    v
}

/// The `display` category of the default bindings.
pub open spec fn display_list() -> Seq<((Seq<char>, bool, bool, bool), Action)> {
    seq![
        (("exclam"@, true, false, false), Action::AdjustFontSizeDown),
        (("bar"@, true, false, false), Action::AdjustFontSizeUp),
        (("0"@, false, false, false), Action::ResetFontSize),
        (("f"@, false, false, false), Action::OpenJournalTermInput),
        (("F"@, false, false, false), Action::CycleFontForward),
        (("f"@, true, true, false), Action::CycleFontBackward),
        (("F"@, true, true, false), Action::CycleFontBackward),
        (("l"@, false, false, false), Action::ToggleSignColumn),
        (("d"@, false, false, true), Action::ToggleDim),
        (("t"@, true, false, false), Action::ThemeNext),
        (("T"@, true, true, false), Action::ThemePrev),
        (("dollar"@, true, false, false), Action::RootVariantNext),
        (("asciitilde"@, true, false, false), Action::RootVariantPrev),
        (("b"@, false, false, false), Action::SetStartTime),
        (("bracketleft"@, false, false, true), Action::ToggleColumnLayout),
        (("A"@, false, false, false), Action::ToggleAuthorship),
        (("A"@, true, true, false), Action::PickAttributionSet),
        (("f"@, false, false, true), Action::ShowFontInfo),
        (("t"@, true, false, true), Action::ShowThemeInfo),
        (("parenleft"@, true, false, true), Action::ToggleTranslations),
        (("parenleft"@, true, false, false), Action::ToggleImageView),
        (("parenleft"@, false, false, false), Action::ShowTranslationOverlay),
        (("I"@, true, true, false), Action::EnterPageCalibration),
        (("i"@, false, false, false), Action::WordCycleCopy),
        (("I"@, false, false, false), Action::WordCyclePrevCopy),
        (("i"@, false, false, true), Action::WordCollectCopy),
        (("i"@, true, false, false), Action::UnderlineNextSentence),
        (("e"@, false, false, true), Action::ShowEchoTurnsBcp),
        (("w"@, false, false, true), Action::ShowEchoesShx),
        (("w"@, true, false, false), Action::ShowEchoTurnsShx),
        (("W"@, true, true, false), Action::ReopenEchoesShx),
        (("comma"@, true, false, false), Action::OpenSettingsOverlay),
    ]
}

/// The `display` category of the default bindings.
#[verifier::rlimit(50)]
fn display_bindings() -> (r: Vec<(KeyCombo, Action)>)
    ensures
        bindings_view(r@) == display_list(),
{
    let mut v: Vec<(KeyCombo, Action)> = Vec::new();
    v.push((KeyCombo::ctrl("exclam"), Action::AdjustFontSizeDown));
    v.push((KeyCombo::ctrl("bar"), Action::AdjustFontSizeUp));
    v.push((KeyCombo::plain("0"), Action::ResetFontSize));
    v.push((KeyCombo::plain("f"), Action::OpenJournalTermInput));
    v.push((KeyCombo::plain("F"), Action::CycleFontForward));
    v.push((KeyCombo::ctrl_shift("f"), Action::CycleFontBackward));
    v.push((KeyCombo::ctrl_shift("F"), Action::CycleFontBackward));
    v.push((KeyCombo::plain("l"), Action::ToggleSignColumn));
    v.push((KeyCombo::alt("d"), Action::ToggleDim));
    v.push((KeyCombo::ctrl("t"), Action::ThemeNext));
    v.push((KeyCombo::ctrl_shift("T"), Action::ThemePrev));
    v.push((KeyCombo::ctrl("dollar"), Action::RootVariantNext));
    v.push((KeyCombo::ctrl("asciitilde"), Action::RootVariantPrev));
    v.push((KeyCombo::plain("b"), Action::SetStartTime));
    v.push((KeyCombo::alt("bracketleft"), Action::ToggleColumnLayout));
    v.push((KeyCombo::plain("A"), Action::ToggleAuthorship));
    v.push((KeyCombo::ctrl_shift("A"), Action::PickAttributionSet));
    v.push((KeyCombo::alt("f"), Action::ShowFontInfo));
    v.push((KeyCombo::ctrl_alt("t"), Action::ShowThemeInfo));
    v.push((KeyCombo::ctrl_alt("parenleft"), Action::ToggleTranslations));
    v.push((KeyCombo::ctrl("parenleft"), Action::ToggleImageView));
    v.push((KeyCombo::plain("parenleft"), Action::ShowTranslationOverlay));
    v.push((KeyCombo::ctrl_shift("I"), Action::EnterPageCalibration));
    v.push((KeyCombo::plain("i"), Action::WordCycleCopy));
    v.push((KeyCombo::plain("I"), Action::WordCyclePrevCopy));
    v.push((KeyCombo::alt("i"), Action::WordCollectCopy));
    v.push((KeyCombo::ctrl("i"), Action::UnderlineNextSentence));
    v.push((KeyCombo::alt("e"), Action::ShowEchoTurnsBcp));
    v.push((KeyCombo::alt("w"), Action::ShowEchoesShx));
    v.push((KeyCombo::ctrl("w"), Action::ShowEchoTurnsShx));
    v.push((KeyCombo::ctrl_shift("W"), Action::ReopenEchoesShx));
    v.push((KeyCombo::ctrl("comma"), Action::OpenSettingsOverlay));
    proof {
        assert(bindings_view(v@) =~= display_list());
    }
    v
}

/// The `selection` category of the default bindings.
pub open spec fn selection_list() -> Seq<((Seq<char>, bool, bool, bool), Action)> {
    seq![
        (("V"@, false, false, false), Action::EnterVisualMode),
        (("v"@, false, false, false), Action::OpenSegmentVim),
    ]
}

/// The `selection` category of the default bindings.
#[verifier::rlimit(50)]
fn selection_bindings() -> (r: Vec<(KeyCombo, Action)>)
    ensures
        bindings_view(r@) == selection_list(),
{
    let mut v: Vec<(KeyCombo, Action)> = Vec::new();
    v.push((KeyCombo::plain("V"), Action::EnterVisualMode));
    v.push((KeyCombo::plain("v"), Action::OpenSegmentVim));
    proof {
        assert(bindings_view(v@) =~= selection_list());
    }
    v
}

/// The `timestamp` category of the default bindings.
pub open spec fn timestamp_list() -> Seq<((Seq<char>, bool, bool, bool), Action)> {
    seq![
        (("Right"@, false, false, false), Action::SetStartTime),
        (("b"@, false, false, true), Action::SetEndTime),
        (("c"@, false, false, false), Action::ToggleChapterStart),
        (("BackSpace"@, false, false, false), Action::DeleteTimestampTap),
        (("p"@, false, false, false), Action::NudgeStartBackward),
        (("P"@, false, false, false), Action::NudgeStartForward),
        (("b"@, true, false, false), Action::UndoTimestamp),
    ]
}

/// The `timestamp` category of the default bindings.
#[verifier::rlimit(50)]
fn timestamp_bindings() -> (r: Vec<(KeyCombo, Action)>)
    ensures
        bindings_view(r@) == timestamp_list(),
{
    let mut v: Vec<(KeyCombo, Action)> = Vec::new();
    v.push((KeyCombo::plain("Right"), Action::SetStartTime));
    v.push((KeyCombo::alt("b"), Action::SetEndTime));
    v.push((KeyCombo::plain("c"), Action::ToggleChapterStart));
    v.push((KeyCombo::plain("BackSpace"), Action::DeleteTimestampTap));
    v.push((KeyCombo::plain("p"), Action::NudgeStartBackward));
    v.push((KeyCombo::plain("P"), Action::NudgeStartForward));
    v.push((KeyCombo::ctrl("b"), Action::UndoTimestamp));
    proof {
        assert(bindings_view(v@) =~= timestamp_list());
    }
    v
}

/// The `app` category of the default bindings.
pub open spec fn app_list() -> Seq<((Seq<char>, bool, bool, bool), Action)> {
    seq![
        (("Escape"@, false, false, false), Action::EscapeReaderMode),
        (("d"@, true, false, true), Action::ToggleDebugLogging),
        (("n"@, true, false, true), Action::ToggleNavTest),
        (("E"@, true, true, false), Action::ReopenEchoesBcp),
        (("backslash"@, true, false, false), Action::OpenLibraryPicker),
        (("equal"@, true, false, false), Action::JumpToNextVocab),
        (("equal"@, true, true, false), Action::JumpToPrevVocab),
        (("minus"@, false, false, false), Action::WordCycleCopy),
        (("underscore"@, false, true, false), Action::WordCyclePrevCopy),
        (("minus"@, false, true, false), Action::WordCyclePrevCopy),
        (("minus"@, false, false, true), Action::WordCollectCopy),
        (("minus"@, true, false, false), Action::UnderlineNextSentence),
        (("Return"@, false, false, false), Action::OpenSyntaxDiagramForUnderlined),
        (("m"@, true, false, false), Action::OpenMediaPicker),
        (("slash"@, true, false, false), Action::OpenKeybindsOverlay),
        (("slash"@, false, false, false), Action::OpenSearch),
        (("question"@, false, false, false), Action::OpenSearchBackward),
        (("question"@, false, true, false), Action::OpenSearchBackward),
        (("slash"@, false, true, false), Action::OpenSearchBackward),
        (("L"@, true, true, false), Action::SaveAndQuit),
        (("y"@, true, false, false), Action::CopyJournalDivisionBlob),
        (("y"@, true, true, false), Action::CopyLineMappingId),
        (("Y"@, true, true, false), Action::CopyLineMappingId),
        (("1"@, false, true, false), Action::CopyWorkInfo),
        (("1"@, false, false, false), Action::CopyWorkInfo),
        (("n"@, false, false, false), Action::SearchNextMatch),
        (("N"@, false, false, false), Action::SearchPrevMatch),
    ]
}

/// The `app` category of the default bindings.
#[verifier::rlimit(50)]
fn app_bindings() -> (r: Vec<(KeyCombo, Action)>)
    ensures
        bindings_view(r@) == app_list(),
{
    let mut v: Vec<(KeyCombo, Action)> = Vec::new();
    v.push((KeyCombo::plain("Escape"), Action::EscapeReaderMode));
    v.push((KeyCombo::ctrl_alt("d"), Action::ToggleDebugLogging));
    v.push((KeyCombo::ctrl_alt("n"), Action::ToggleNavTest));
    v.push((KeyCombo::ctrl_shift("E"), Action::ReopenEchoesBcp));
    v.push((KeyCombo::ctrl("backslash"), Action::OpenLibraryPicker));
    v.push((KeyCombo::ctrl("equal"), Action::JumpToNextVocab));
    v.push((KeyCombo::ctrl_shift("equal"), Action::JumpToPrevVocab));
    v.push((KeyCombo::plain("minus"), Action::WordCycleCopy));
    v.push((KeyCombo::shift("underscore"), Action::WordCyclePrevCopy));
    v.push((KeyCombo::shift("minus"), Action::WordCyclePrevCopy));
    v.push((KeyCombo::alt("minus"), Action::WordCollectCopy));
    v.push((KeyCombo::ctrl("minus"), Action::UnderlineNextSentence));
    v.push((KeyCombo::plain("Return"), Action::OpenSyntaxDiagramForUnderlined));
    v.push((KeyCombo::ctrl("m"), Action::OpenMediaPicker));
    v.push((KeyCombo::ctrl("slash"), Action::OpenKeybindsOverlay));
    v.push((KeyCombo::plain("slash"), Action::OpenSearch));
    v.push((KeyCombo::plain("question"), Action::OpenSearchBackward));
    v.push((KeyCombo::shift("question"), Action::OpenSearchBackward));
    v.push((KeyCombo::shift("slash"), Action::OpenSearchBackward));
    v.push((KeyCombo::ctrl_shift("L"), Action::SaveAndQuit));
    v.push((KeyCombo::ctrl("y"), Action::CopyJournalDivisionBlob));
    v.push((KeyCombo::ctrl_shift("y"), Action::CopyLineMappingId));
    v.push((KeyCombo::ctrl_shift("Y"), Action::CopyLineMappingId));
    v.push((KeyCombo::shift("1"), Action::CopyWorkInfo));
    v.push((KeyCombo::plain("1"), Action::CopyWorkInfo));
    v.push((KeyCombo::plain("n"), Action::SearchNextMatch));
    v.push((KeyCombo::plain("N"), Action::SearchPrevMatch));
    proof {
        assert(bindings_view(v@) =~= app_list());
    }
    v
}

/// The compiled-in default bindings, assembled category by category
/// (navigation, media, vocabulary, display, selection, timestamps, app);
/// a later binding of the same combination replaces an earlier one.
pub open spec fn default_bindings_spec() -> Map<(Seq<char>, bool, bool, bool), Action> {
    with_bindings(Map::empty(), nav_list() + media_list() + vocab_list() + display_list() + selection_list()
        + timestamp_list() + app_list())
}

/// The compiled-in default reader bindings.
pub fn default_reader_bindings() -> (r: BindingTable)
    ensures
        r.wf(),
        r@ == default_bindings_spec(),
{
    let mut t = BindingTable::new();
    insert_all(&mut t, nav_bindings());
    insert_all(&mut t, media_bindings());
    insert_all(&mut t, vocab_bindings());
    insert_all(&mut t, display_bindings());
    insert_all(&mut t, selection_bindings());
    insert_all(&mut t, timestamp_bindings());
    insert_all(&mut t, app_bindings());
    proof {
        let e = Map::<(Seq<char>, bool, bool, bool), Action>::empty();
        lemma_with_bindings_concat(e, nav_list(), media_list());
        lemma_with_bindings_concat(e, nav_list() + media_list(), vocab_list());
        lemma_with_bindings_concat(e, nav_list() + media_list() + vocab_list(), display_list());
        lemma_with_bindings_concat(e, nav_list() + media_list() + vocab_list() + display_list(), selection_list());
        lemma_with_bindings_concat(e, nav_list() + media_list() + vocab_list() + display_list() + selection_list(), timestamp_list());
        lemma_with_bindings_concat(e, nav_list() + media_list() + vocab_list() + display_list() + selection_list() + timestamp_list(), app_list());
    }
    t
}

/// A shifted bare uppercase letter (no Ctrl, no Alt) resolves exactly as the
/// unshifted press of the same key name: the shift is encoded in the name.
pub proof fn law_uppercase_letter_shift_is_redundant(m: Map<(Seq<char>, bool, bool, bool), Action>, key: Seq<char>)
    requires
        is_uppercase_letter_spec(key),
    ensures
        lookup_spec(m, key, false, true, false) == lookup_spec(m, key, false, false, false),
{
}

/// With Ctrl or Alt held, the shift flag is significant: the lookup uses the
/// combination exactly as pressed.
pub proof fn law_modifier_chords_keep_shift(
    m: Map<(Seq<char>, bool, bool, bool), Action>,
    key: Seq<char>,
    ctrl: bool,
    shift: bool,
    alt: bool,
)
    requires
        ctrl || alt,
    ensures
        lookup_spec(m, key, ctrl, shift, alt) == (if m.dom().contains((key, ctrl, shift, alt)) {
            Some(m[(key, ctrl, shift, alt)])
        } else {
            None
        }),
{
}

/// A user binding read from a file takes effect: after loading, looking up
/// exactly that combination yields the last known action the file binds to
/// it, whatever the defaults held.
pub proof fn law_user_binding_overrides(defaults: Map<(Seq<char>, bool, bool, bool), Action>, s: Seq<ParsedBinding>)
    requires
        s.len() > 0,
        s.last().action is Some,
    ensures
        with_bindings(defaults, known_bindings(s))[(s.last().key@, s.last().ctrl, s.last().shift, s.last().alt)]
            == s.last().action->0,
        with_bindings(defaults, known_bindings(s)).dom().contains((s.last().key@, s.last().ctrl, s.last().shift, s.last().alt)),
{
}


/// Two key combinations that differ in a modifier, in the key name's length,
/// or in one of its first two characters.
pub open spec fn combos_differ(a: (Seq<char>, bool, bool, bool), b: (Seq<char>, bool, bool, bool)) -> bool {
    a.1 != b.1 || a.2 != b.2 || a.3 != b.3 || a.0.len() != b.0.len()
        || (a.0.len() > 0 && b.0.len() > 0 && a.0[0] != b.0[0])
        || (a.0.len() > 1 && b.0.len() > 1 && a.0[1] != b.0[1])
}

/// Bindings that never name `k` leave what `m` says of `k` as it is.
proof fn lemma_bindings_avoiding_key(
    m: Map<(Seq<char>, bool, bool, bool), Action>,
    s: Seq<((Seq<char>, bool, bool, bool), Action)>,
    k: (Seq<char>, bool, bool, bool),
)
    requires
        forall|j: int| 0 <= j < s.len() ==> combos_differ(#[trigger] s[j].0, k),
    ensures
        with_bindings(m, s).dom().contains(k) == m.dom().contains(k),
        m.dom().contains(k) ==> with_bindings(m, s)[k] == m[k],
    decreases s.len(),
{
    if s.len() > 0 {
        assert(combos_differ(s[s.len() - 1].0, k));
        assert(s.last().0 != k);
        lemma_bindings_avoiding_key(m, s.drop_last(), k);
    }
}

/// A binding that no later binding of the same combination replaces is the
/// one that holds.
proof fn lemma_last_binding_holds(
    m: Map<(Seq<char>, bool, bool, bool), Action>,
    s: Seq<((Seq<char>, bool, bool, bool), Action)>,
    i: int,
)
    requires
        0 <= i < s.len(),
        forall|j: int| i < j < s.len() ==> combos_differ(#[trigger] s[j].0, s[i].0),
    ensures
        with_bindings(m, s).dom().contains(s[i].0),
        with_bindings(m, s)[s[i].0] == s[i].1,
    decreases s.len(),
{
    if i < s.len() - 1 {
        assert(combos_differ(s[s.len() - 1].0, s[i].0));
        assert(s.last().0 != s[i].0);
        lemma_last_binding_holds(m, s.drop_last(), i);
    }
}

/// The default table at `k` is what the categories up to `nav` make of
/// it, when no later category binds `k`.
proof fn lemma_defaults_after_nav(k: (Seq<char>, bool, bool, bool))
    requires
        forall|j: int| 0 <= j < media_list().len() ==> combos_differ(#[trigger] media_list()[j].0, k),
        forall|j: int| 0 <= j < vocab_list().len() ==> combos_differ(#[trigger] vocab_list()[j].0, k),
        forall|j: int| 0 <= j < display_list().len() ==> combos_differ(#[trigger] display_list()[j].0, k),
        forall|j: int| 0 <= j < selection_list().len() ==> combos_differ(#[trigger] selection_list()[j].0, k),
        forall|j: int| 0 <= j < timestamp_list().len() ==> combos_differ(#[trigger] timestamp_list()[j].0, k),
        forall|j: int| 0 <= j < app_list().len() ==> combos_differ(#[trigger] app_list()[j].0, k),
    ensures
        ({
            let w = with_bindings(Map::empty(), nav_list());
            &&& default_bindings_spec().dom().contains(k) == w.dom().contains(k)
            &&& w.dom().contains(k) ==> default_bindings_spec()[k] == w[k]
        }),
{
    let e = Map::<(Seq<char>, bool, bool, bool), Action>::empty();
    lemma_with_bindings_concat(e, nav_list(), media_list());
    lemma_with_bindings_concat(e, nav_list() + media_list(), vocab_list());
    lemma_with_bindings_concat(e, nav_list() + media_list() + vocab_list(), display_list());
    lemma_with_bindings_concat(e, nav_list() + media_list() + vocab_list() + display_list(), selection_list());
    lemma_with_bindings_concat(e, nav_list() + media_list() + vocab_list() + display_list() + selection_list(), timestamp_list());
    lemma_with_bindings_concat(e, nav_list() + media_list() + vocab_list() + display_list() + selection_list() + timestamp_list(), app_list());
    lemma_bindings_avoiding_key(with_bindings(e, nav_list()), media_list(), k);
    lemma_bindings_avoiding_key(with_bindings(e, nav_list() + media_list()), vocab_list(), k);
    lemma_bindings_avoiding_key(with_bindings(e, nav_list() + media_list() + vocab_list()), display_list(), k);
    lemma_bindings_avoiding_key(with_bindings(e, nav_list() + media_list() + vocab_list() + display_list()), selection_list(), k);
    lemma_bindings_avoiding_key(with_bindings(e, nav_list() + media_list() + vocab_list() + display_list() + selection_list()), timestamp_list(), k);
    lemma_bindings_avoiding_key(with_bindings(e, nav_list() + media_list() + vocab_list() + display_list() + selection_list() + timestamp_list()), app_list(), k);
}

/// The default table at `k` is what the categories up to `media` make of
/// it, when no later category binds `k`.
proof fn lemma_defaults_after_media(k: (Seq<char>, bool, bool, bool))
    requires
        forall|j: int| 0 <= j < vocab_list().len() ==> combos_differ(#[trigger] vocab_list()[j].0, k),
        forall|j: int| 0 <= j < display_list().len() ==> combos_differ(#[trigger] display_list()[j].0, k),
        forall|j: int| 0 <= j < selection_list().len() ==> combos_differ(#[trigger] selection_list()[j].0, k),
        forall|j: int| 0 <= j < timestamp_list().len() ==> combos_differ(#[trigger] timestamp_list()[j].0, k),
        forall|j: int| 0 <= j < app_list().len() ==> combos_differ(#[trigger] app_list()[j].0, k),
    ensures
        ({
            let w = with_bindings(Map::empty(), nav_list() + media_list());
            &&& default_bindings_spec().dom().contains(k) == w.dom().contains(k)
            &&& w.dom().contains(k) ==> default_bindings_spec()[k] == w[k]
        }),
{
    let e = Map::<(Seq<char>, bool, bool, bool), Action>::empty();
    lemma_with_bindings_concat(e, nav_list(), media_list());
    lemma_with_bindings_concat(e, nav_list() + media_list(), vocab_list());
    lemma_with_bindings_concat(e, nav_list() + media_list() + vocab_list(), display_list());
    lemma_with_bindings_concat(e, nav_list() + media_list() + vocab_list() + display_list(), selection_list());
    lemma_with_bindings_concat(e, nav_list() + media_list() + vocab_list() + display_list() + selection_list(), timestamp_list());
    lemma_with_bindings_concat(e, nav_list() + media_list() + vocab_list() + display_list() + selection_list() + timestamp_list(), app_list());
    lemma_bindings_avoiding_key(with_bindings(e, nav_list() + media_list()), vocab_list(), k);
    lemma_bindings_avoiding_key(with_bindings(e, nav_list() + media_list() + vocab_list()), display_list(), k);
    lemma_bindings_avoiding_key(with_bindings(e, nav_list() + media_list() + vocab_list() + display_list()), selection_list(), k);
    lemma_bindings_avoiding_key(with_bindings(e, nav_list() + media_list() + vocab_list() + display_list() + selection_list()), timestamp_list(), k);
    lemma_bindings_avoiding_key(with_bindings(e, nav_list() + media_list() + vocab_list() + display_list() + selection_list() + timestamp_list()), app_list(), k);
}

/// The default table at `k` is what the categories up to `vocab` make of
/// it, when no later category binds `k`.
proof fn lemma_defaults_after_vocab(k: (Seq<char>, bool, bool, bool))
    requires
        forall|j: int| 0 <= j < display_list().len() ==> combos_differ(#[trigger] display_list()[j].0, k),
        forall|j: int| 0 <= j < selection_list().len() ==> combos_differ(#[trigger] selection_list()[j].0, k),
        forall|j: int| 0 <= j < timestamp_list().len() ==> combos_differ(#[trigger] timestamp_list()[j].0, k),
        forall|j: int| 0 <= j < app_list().len() ==> combos_differ(#[trigger] app_list()[j].0, k),
    ensures
        ({
            let w = with_bindings(Map::empty(), nav_list() + media_list() + vocab_list());
            &&& default_bindings_spec().dom().contains(k) == w.dom().contains(k)
            &&& w.dom().contains(k) ==> default_bindings_spec()[k] == w[k]
        }),
{
    let e = Map::<(Seq<char>, bool, bool, bool), Action>::empty();
    lemma_with_bindings_concat(e, nav_list(), media_list());
    lemma_with_bindings_concat(e, nav_list() + media_list(), vocab_list());
    lemma_with_bindings_concat(e, nav_list() + media_list() + vocab_list(), display_list());
    lemma_with_bindings_concat(e, nav_list() + media_list() + vocab_list() + display_list(), selection_list());
    lemma_with_bindings_concat(e, nav_list() + media_list() + vocab_list() + display_list() + selection_list(), timestamp_list());
    lemma_with_bindings_concat(e, nav_list() + media_list() + vocab_list() + display_list() + selection_list() + timestamp_list(), app_list());
    lemma_bindings_avoiding_key(with_bindings(e, nav_list() + media_list() + vocab_list()), display_list(), k);
    lemma_bindings_avoiding_key(with_bindings(e, nav_list() + media_list() + vocab_list() + display_list()), selection_list(), k);
    lemma_bindings_avoiding_key(with_bindings(e, nav_list() + media_list() + vocab_list() + display_list() + selection_list()), timestamp_list(), k);
    lemma_bindings_avoiding_key(with_bindings(e, nav_list() + media_list() + vocab_list() + display_list() + selection_list() + timestamp_list()), app_list(), k);
}

/// The default table at `k` is what the categories up to `display` make of
/// it, when no later category binds `k`.
proof fn lemma_defaults_after_display(k: (Seq<char>, bool, bool, bool))
    requires
        forall|j: int| 0 <= j < selection_list().len() ==> combos_differ(#[trigger] selection_list()[j].0, k),
        forall|j: int| 0 <= j < timestamp_list().len() ==> combos_differ(#[trigger] timestamp_list()[j].0, k),
        forall|j: int| 0 <= j < app_list().len() ==> combos_differ(#[trigger] app_list()[j].0, k),
    ensures
        ({
            let w = with_bindings(Map::empty(), nav_list() + media_list() + vocab_list() + display_list());
            &&& default_bindings_spec().dom().contains(k) == w.dom().contains(k)
            &&& w.dom().contains(k) ==> default_bindings_spec()[k] == w[k]
        }),
{
    let e = Map::<(Seq<char>, bool, bool, bool), Action>::empty();
    lemma_with_bindings_concat(e, nav_list(), media_list());
    lemma_with_bindings_concat(e, nav_list() + media_list(), vocab_list());
    lemma_with_bindings_concat(e, nav_list() + media_list() + vocab_list(), display_list());
    lemma_with_bindings_concat(e, nav_list() + media_list() + vocab_list() + display_list(), selection_list());
    lemma_with_bindings_concat(e, nav_list() + media_list() + vocab_list() + display_list() + selection_list(), timestamp_list());
    lemma_with_bindings_concat(e, nav_list() + media_list() + vocab_list() + display_list() + selection_list() + timestamp_list(), app_list());
    lemma_bindings_avoiding_key(with_bindings(e, nav_list() + media_list() + vocab_list() + display_list()), selection_list(), k);
    lemma_bindings_avoiding_key(with_bindings(e, nav_list() + media_list() + vocab_list() + display_list() + selection_list()), timestamp_list(), k);
    lemma_bindings_avoiding_key(with_bindings(e, nav_list() + media_list() + vocab_list() + display_list() + selection_list() + timestamp_list()), app_list(), k);
}

/// The default table at `k` is what the categories up to `selection` make of
/// it, when no later category binds `k`.
proof fn lemma_defaults_after_selection(k: (Seq<char>, bool, bool, bool))
    requires
        forall|j: int| 0 <= j < timestamp_list().len() ==> combos_differ(#[trigger] timestamp_list()[j].0, k),
        forall|j: int| 0 <= j < app_list().len() ==> combos_differ(#[trigger] app_list()[j].0, k),
    ensures
        ({
            let w = with_bindings(Map::empty(), nav_list() + media_list() + vocab_list() + display_list() + selection_list());
            &&& default_bindings_spec().dom().contains(k) == w.dom().contains(k)
            &&& w.dom().contains(k) ==> default_bindings_spec()[k] == w[k]
        }),
{
    let e = Map::<(Seq<char>, bool, bool, bool), Action>::empty();
    lemma_with_bindings_concat(e, nav_list(), media_list());
    lemma_with_bindings_concat(e, nav_list() + media_list(), vocab_list());
    lemma_with_bindings_concat(e, nav_list() + media_list() + vocab_list(), display_list());
    lemma_with_bindings_concat(e, nav_list() + media_list() + vocab_list() + display_list(), selection_list());
    lemma_with_bindings_concat(e, nav_list() + media_list() + vocab_list() + display_list() + selection_list(), timestamp_list());
    lemma_with_bindings_concat(e, nav_list() + media_list() + vocab_list() + display_list() + selection_list() + timestamp_list(), app_list());
    lemma_bindings_avoiding_key(with_bindings(e, nav_list() + media_list() + vocab_list() + display_list() + selection_list()), timestamp_list(), k);
    lemma_bindings_avoiding_key(with_bindings(e, nav_list() + media_list() + vocab_list() + display_list() + selection_list() + timestamp_list()), app_list(), k);
}

/// The default table at `k` is what the categories up to `timestamp` make of
/// it, when no later category binds `k`.
proof fn lemma_defaults_after_timestamp(k: (Seq<char>, bool, bool, bool))
    requires
        forall|j: int| 0 <= j < app_list().len() ==> combos_differ(#[trigger] app_list()[j].0, k),
    ensures
        ({
            let w = with_bindings(Map::empty(), nav_list() + media_list() + vocab_list() + display_list() + selection_list() + timestamp_list());
            &&& default_bindings_spec().dom().contains(k) == w.dom().contains(k)
            &&& w.dom().contains(k) ==> default_bindings_spec()[k] == w[k]
        }),
{
    let e = Map::<(Seq<char>, bool, bool, bool), Action>::empty();
    lemma_with_bindings_concat(e, nav_list(), media_list());
    lemma_with_bindings_concat(e, nav_list() + media_list(), vocab_list());
    lemma_with_bindings_concat(e, nav_list() + media_list() + vocab_list(), display_list());
    lemma_with_bindings_concat(e, nav_list() + media_list() + vocab_list() + display_list(), selection_list());
    lemma_with_bindings_concat(e, nav_list() + media_list() + vocab_list() + display_list() + selection_list(), timestamp_list());
    lemma_with_bindings_concat(e, nav_list() + media_list() + vocab_list() + display_list() + selection_list() + timestamp_list(), app_list());
    lemma_bindings_avoiding_key(with_bindings(e, nav_list() + media_list() + vocab_list() + display_list() + selection_list() + timestamp_list()), app_list(), k);
}

/// The default table at `k` is what the categories up to `app` make of
/// it, when no later category binds `k`.
proof fn lemma_defaults_after_app(k: (Seq<char>, bool, bool, bool))
    ensures
        ({
            let w = with_bindings(Map::empty(), nav_list() + media_list() + vocab_list() + display_list() + selection_list() + timestamp_list() + app_list());
            &&& default_bindings_spec().dom().contains(k) == w.dom().contains(k)
            &&& w.dom().contains(k) ==> default_bindings_spec()[k] == w[k]
        }),
{
    let e = Map::<(Seq<char>, bool, bool, bool), Action>::empty();
    lemma_with_bindings_concat(e, nav_list(), media_list());
    lemma_with_bindings_concat(e, nav_list() + media_list(), vocab_list());
    lemma_with_bindings_concat(e, nav_list() + media_list() + vocab_list(), display_list());
    lemma_with_bindings_concat(e, nav_list() + media_list() + vocab_list() + display_list(), selection_list());
    lemma_with_bindings_concat(e, nav_list() + media_list() + vocab_list() + display_list() + selection_list(), timestamp_list());
    lemma_with_bindings_concat(e, nav_list() + media_list() + vocab_list() + display_list() + selection_list() + timestamp_list(), app_list());
}

/// Within the `nav` category, the bindings that no later binding of the
/// category replaces.
proof fn lemma_nav_keys()
    ensures
        ({
            let w = with_bindings(Map::empty(), nav_list());
            &&& w.dom().contains(("x"@, false, false, false)) && w[("x"@, false, false, false)] == Action::PageForward
            &&& w.dom().contains(("y"@, false, false, false)) && w[("y"@, false, false, false)] == Action::PageBackward
            &&& w.dom().contains(("j"@, false, false, false)) && w[("j"@, false, false, false)] == Action::CursorNextDialogue
            &&& w.dom().contains(("k"@, false, false, false)) && w[("k"@, false, false, false)] == Action::CursorPrevDialogue
            &&& w.dom().contains(("h"@, false, false, false)) && w[("h"@, false, false, false)] == Action::CursorNextDialogueNoSeek
            &&& w.dom().contains(("t"@, false, false, false)) && w[("t"@, false, false, false)] == Action::CursorPrevDialogueNoSeek
            &&& w.dom().contains(("Up"@, false, false, false)) && w[("Up"@, false, false, false)] == Action::CursorPrevDialogue
            &&& w.dom().contains(("Up"@, false, true, false)) && w[("Up"@, false, true, false)] == Action::PageBackwardBottom
            &&& w.dom().contains(("Down"@, false, false, false)) && w[("Down"@, false, false, false)] == Action::CursorNextDialogue
            &&& w.dom().contains(("comma"@, false, false, false)) && w[("comma"@, false, false, false)] == Action::JumpToPrevSpeaker
            &&& w.dom().contains(("q"@, false, false, false)) && w[("q"@, false, false, false)] == Action::JumpToNextSpeaker
            &&& w.dom().contains(("J"@, false, false, false)) && w[("J"@, false, false, false)] == Action::JumpToNextSpeaker
            &&& w.dom().contains(("K"@, false, false, false)) && w[("K"@, false, false, false)] == Action::JumpToPrevSpeaker
            &&& w.dom().contains(("g"@, false, false, false)) && w[("g"@, false, false, false)] == Action::PendingG
            &&& w.dom().contains(("G"@, false, false, false)) && w[("G"@, false, false, false)] == Action::JumpToEnd
            &&& w.dom().contains(("bracketleft"@, false, false, false)) && w[("bracketleft"@, false, false, false)] == Action::JumpToPrevDivision
            &&& w.dom().contains(("bracketleft"@, true, false, false)) && w[("bracketleft"@, true, false, false)] == Action::SetChapter
            &&& w.dom().contains(("braceleft"@, false, false, false)) && w[("braceleft"@, false, false, false)] == Action::JumpToNextDivision
            &&& w.dom().contains(("C"@, false, false, false)) && w[("C"@, false, false, false)] == Action::ShowCurrentChapter
            &&& w.dom().contains(("colon"@, false, true, false)) && w[("colon"@, false, true, false)] == Action::TogglePlaybackSpeed
            &&& w.dom().contains(("semicolon"@, false, true, false)) && w[("semicolon"@, false, true, false)] == Action::TogglePlaybackSpeed
            &&& w.dom().contains(("semicolon"@, false, false, false)) && w[("semicolon"@, false, false, false)] == Action::PrevBookmark
            &&& w.dom().contains(("apostrophe"@, false, false, false)) && w[("apostrophe"@, false, false, false)] == Action::NextBookmark
            &&& w.dom().contains(("m"@, false, false, false)) && w[("m"@, false, false, false)] == Action::ToggleBookmark
            &&& w.dom().contains(("period"@, false, false, false)) && w[("period"@, false, false, false)] == Action::BookmarkTap
            &&& w.dom().contains(("c"@, true, false, false)) && w[("c"@, true, false, false)] == Action::TogglePreviousWork
            &&& w.dom().contains(("e"@, true, false, false)) && w[("e"@, true, false, false)] == Action::ShowEchoesBcp
            &&& w.dom().contains(("period"@, true, false, false)) && w[("period"@, true, false, false)] == Action::OpenBookmarkPicker
        }),
{
    reveal_strlit("C");
    reveal_strlit("Down");
    reveal_strlit("G");
    reveal_strlit("J");
    reveal_strlit("K");
    reveal_strlit("Up");
    reveal_strlit("apostrophe");
    reveal_strlit("braceleft");
    reveal_strlit("bracketleft");
    reveal_strlit("c");
    reveal_strlit("colon");
    reveal_strlit("comma");
    reveal_strlit("e");
    reveal_strlit("g");
    reveal_strlit("h");
    reveal_strlit("j");
    reveal_strlit("k");
    reveal_strlit("m");
    reveal_strlit("period");
    reveal_strlit("q");
    reveal_strlit("semicolon");
    reveal_strlit("t");
    reveal_strlit("x");
    reveal_strlit("y");
    let e = Map::<(Seq<char>, bool, bool, bool), Action>::empty();
    let w0 = e;
    let ms = nav_list();
    assert(ms.len() == 28);
    assert(ms[0] == (("x"@, false, false, false), Action::PageForward));
    assert(ms[1] == (("y"@, false, false, false), Action::PageBackward));
    assert(ms[2] == (("j"@, false, false, false), Action::CursorNextDialogue));
    assert(ms[3] == (("k"@, false, false, false), Action::CursorPrevDialogue));
    assert(ms[4] == (("h"@, false, false, false), Action::CursorNextDialogueNoSeek));
    assert(ms[5] == (("t"@, false, false, false), Action::CursorPrevDialogueNoSeek));
    assert(ms[6] == (("Up"@, false, false, false), Action::CursorPrevDialogue));
    assert(ms[7] == (("Up"@, false, true, false), Action::PageBackwardBottom));
    assert(ms[8] == (("Down"@, false, false, false), Action::CursorNextDialogue));
    assert(ms[9] == (("comma"@, false, false, false), Action::JumpToPrevSpeaker));
    assert(ms[10] == (("q"@, false, false, false), Action::JumpToNextSpeaker));
    assert(ms[11] == (("J"@, false, false, false), Action::JumpToNextSpeaker));
    assert(ms[12] == (("K"@, false, false, false), Action::JumpToPrevSpeaker));
    assert(ms[13] == (("g"@, false, false, false), Action::PendingG));
    assert(ms[14] == (("G"@, false, false, false), Action::JumpToEnd));
    assert(ms[15] == (("bracketleft"@, false, false, false), Action::JumpToPrevDivision));
    assert(ms[16] == (("bracketleft"@, true, false, false), Action::SetChapter));
    assert(ms[17] == (("braceleft"@, false, false, false), Action::JumpToNextDivision));
    assert(ms[18] == (("C"@, false, false, false), Action::ShowCurrentChapter));
    assert(ms[19] == (("colon"@, false, true, false), Action::TogglePlaybackSpeed));
    assert(ms[20] == (("semicolon"@, false, true, false), Action::TogglePlaybackSpeed));
    assert(ms[21] == (("semicolon"@, false, false, false), Action::PrevBookmark));
    assert(ms[22] == (("apostrophe"@, false, false, false), Action::NextBookmark));
    assert(ms[23] == (("m"@, false, false, false), Action::ToggleBookmark));
    assert(ms[24] == (("period"@, false, false, false), Action::BookmarkTap));
    assert(ms[25] == (("c"@, true, false, false), Action::TogglePreviousWork));
    assert(ms[26] == (("e"@, true, false, false), Action::ShowEchoesBcp));
    assert(ms[27] == (("period"@, true, false, false), Action::OpenBookmarkPicker));
    lemma_last_binding_holds(w0, ms, 0);
    lemma_last_binding_holds(w0, ms, 1);
    lemma_last_binding_holds(w0, ms, 2);
    lemma_last_binding_holds(w0, ms, 3);
    lemma_last_binding_holds(w0, ms, 4);
    lemma_last_binding_holds(w0, ms, 5);
    lemma_last_binding_holds(w0, ms, 6);
    lemma_last_binding_holds(w0, ms, 7);
    lemma_last_binding_holds(w0, ms, 8);
    lemma_last_binding_holds(w0, ms, 9);
    lemma_last_binding_holds(w0, ms, 10);
    lemma_last_binding_holds(w0, ms, 11);
    lemma_last_binding_holds(w0, ms, 12);
    lemma_last_binding_holds(w0, ms, 13);
    lemma_last_binding_holds(w0, ms, 14);
    lemma_last_binding_holds(w0, ms, 15);
    lemma_last_binding_holds(w0, ms, 16);
    lemma_last_binding_holds(w0, ms, 17);
    lemma_last_binding_holds(w0, ms, 18);
    lemma_last_binding_holds(w0, ms, 19);
    lemma_last_binding_holds(w0, ms, 20);
    lemma_last_binding_holds(w0, ms, 21);
    lemma_last_binding_holds(w0, ms, 22);
    lemma_last_binding_holds(w0, ms, 23);
    lemma_last_binding_holds(w0, ms, 24);
    lemma_last_binding_holds(w0, ms, 25);
    lemma_last_binding_holds(w0, ms, 26);
    lemma_last_binding_holds(w0, ms, 27);
}

/// Within the `media` category, the bindings that no later binding of the
/// category replaces.
proof fn lemma_media_keys()
    ensures
        ({
            let w = with_bindings(Map::empty(), nav_list() + media_list());
            &&& w.dom().contains(("a"@, false, false, false)) && w[("a"@, false, false, false)] == Action::TogglePause
            &&& w.dom().contains(("s"@, false, false, false)) && w[("s"@, false, false, false)] == Action::TogglePlaybackSync
            &&& w.dom().contains(("o"@, false, false, false)) && w[("o"@, false, false, false)] == Action::SeekShortBackward
            &&& w.dom().contains(("e"@, false, false, false)) && w[("e"@, false, false, false)] == Action::SeekShortForward
            &&& w.dom().contains(("O"@, false, false, false)) && w[("O"@, false, false, false)] == Action::SeekLongBackward
            &&& w.dom().contains(("E"@, false, false, false)) && w[("E"@, false, false, false)] == Action::SeekLongForward
            &&& w.dom().contains(("Left"@, false, false, false)) && w[("Left"@, false, false, false)] == Action::SeekShortBackward
            &&& w.dom().contains(("Up"@, true, false, false)) && w[("Up"@, true, false, false)] == Action::VolumeUp
            &&& w.dom().contains(("Down"@, true, false, false)) && w[("Down"@, true, false, false)] == Action::VolumeDown
            &&& w.dom().contains(("plus"@, false, false, false)) && w[("plus"@, false, false, false)] == Action::CopyWorkDivision
            &&& w.dom().contains(("p"@, false, false, true)) && w[("p"@, false, false, true)] == Action::TogglePhraseHighlight
        }),
{
    reveal_strlit("Down");
    reveal_strlit("E");
    reveal_strlit("Left");
    reveal_strlit("O");
    reveal_strlit("Up");
    reveal_strlit("a");
    reveal_strlit("e");
    reveal_strlit("o");
    reveal_strlit("p");
    reveal_strlit("plus");
    reveal_strlit("s");
    let e = Map::<(Seq<char>, bool, bool, bool), Action>::empty();
    let w0 = with_bindings(e, nav_list());
    lemma_with_bindings_concat(e, nav_list(), media_list());
    let ms = media_list();
    assert(ms.len() == 11);
    assert(ms[0] == (("a"@, false, false, false), Action::TogglePause));
    assert(ms[1] == (("s"@, false, false, false), Action::TogglePlaybackSync));
    assert(ms[2] == (("o"@, false, false, false), Action::SeekShortBackward));
    assert(ms[3] == (("e"@, false, false, false), Action::SeekShortForward));
    assert(ms[4] == (("O"@, false, false, false), Action::SeekLongBackward));
    assert(ms[5] == (("E"@, false, false, false), Action::SeekLongForward));
    assert(ms[6] == (("Left"@, false, false, false), Action::SeekShortBackward));
    assert(ms[7] == (("Up"@, true, false, false), Action::VolumeUp));
    assert(ms[8] == (("Down"@, true, false, false), Action::VolumeDown));
    assert(ms[9] == (("plus"@, false, false, false), Action::CopyWorkDivision));
    assert(ms[10] == (("p"@, false, false, true), Action::TogglePhraseHighlight));
    lemma_last_binding_holds(w0, ms, 0);
    lemma_last_binding_holds(w0, ms, 1);
    lemma_last_binding_holds(w0, ms, 2);
    lemma_last_binding_holds(w0, ms, 3);
    lemma_last_binding_holds(w0, ms, 4);
    lemma_last_binding_holds(w0, ms, 5);
    lemma_last_binding_holds(w0, ms, 6);
    lemma_last_binding_holds(w0, ms, 7);
    lemma_last_binding_holds(w0, ms, 8);
    lemma_last_binding_holds(w0, ms, 9);
    lemma_last_binding_holds(w0, ms, 10);
}

/// Within the `vocab` category, the bindings that no later binding of the
/// category replaces.
proof fn lemma_vocab_keys()
    ensures
        ({
            let w = with_bindings(Map::empty(), nav_list() + media_list() + vocab_list());
            &&& w.dom().contains(("h"@, true, false, false)) && w[("h"@, true, false, false)] == Action::ShowSynopsisOverlay
            &&& w.dom().contains(("r"@, false, false, false)) && w[("r"@, false, false, false)] == Action::VocabPopupTap
            &&& w.dom().contains(("r"@, true, false, false)) && w[("r"@, true, false, false)] == Action::AddVocabWord
            &&& w.dom().contains(("r"@, true, true, false)) && w[("r"@, true, true, false)] == Action::VocabJournalAsk
            &&& w.dom().contains(("R"@, true, true, false)) && w[("R"@, true, true, false)] == Action::VocabJournalAsk
            &&& w.dom().contains(("r"@, false, false, true)) && w[("r"@, false, false, true)] == Action::ToggleVocabHighlight
            &&& w.dom().contains(("g"@, true, true, false)) && w[("g"@, true, true, false)] == Action::OpenLastGloss
            &&& w.dom().contains(("G"@, true, true, false)) && w[("G"@, true, true, false)] == Action::OpenLastGloss
            &&& w.dom().contains(("u"@, false, false, true)) && w[("u"@, false, false, true)] == Action::CycleScansion
            &&& w.dom().contains(("z"@, false, false, false)) && w[("z"@, false, false, false)] == Action::OpenConcordancePicker
            &&& w.dom().contains(("z"@, true, false, false)) && w[("z"@, true, false, false)] == Action::OpenConcordanceWordPicker
            &&& w.dom().contains(("z"@, false, false, true)) && w[("z"@, false, false, true)] == Action::OpenConcordanceWorksPicker
            &&& w.dom().contains(("Z"@, true, true, false)) && w[("Z"@, true, true, false)] == Action::OpenConcordanceListPicker
            &&& w.dom().contains(("g"@, true, false, false)) && w[("g"@, true, false, false)] == Action::ToggleGlossOverlay
            &&& w.dom().contains(("g"@, false, false, true)) && w[("g"@, false, false, true)] == Action::OpenGlossPicker
            &&& w.dom().contains(("g"@, true, false, true)) && w[("g"@, true, false, true)] == Action::ToggleAnnotationTint
            &&& w.dom().contains(("f"@, true, false, false)) && w[("f"@, true, false, false)] == Action::OpenCorpusSearch
            &&& w.dom().contains(("j"@, true, false, false)) && w[("j"@, true, false, false)] == Action::OpenJournalPicker
            &&& w.dom().contains(("j"@, false, false, true)) && w[("j"@, false, false, true)] == Action::OpenRecentQaPicker
            &&& w.dom().contains(("backslash"@, false, false, false)) && w[("backslash"@, false, false, false)] == Action::CycleSegmentOverlays
            &&& w.dom().contains(("u"@, false, false, false)) && w[("u"@, false, false, false)] == Action::CycleSegmentOverlays
        }),
{
    reveal_strlit("G");
    reveal_strlit("R");
    reveal_strlit("Z");
    reveal_strlit("backslash");
    reveal_strlit("f");
    reveal_strlit("g");
    reveal_strlit("h");
    reveal_strlit("j");
    reveal_strlit("r");
    reveal_strlit("u");
    reveal_strlit("z");
    let e = Map::<(Seq<char>, bool, bool, bool), Action>::empty();
    let w0 = with_bindings(e, nav_list() + media_list());
    lemma_with_bindings_concat(e, nav_list() + media_list(), vocab_list());
    let ms = vocab_list();
    assert(ms.len() == 21);
    assert(ms[0] == (("h"@, true, false, false), Action::ShowSynopsisOverlay));
    assert(ms[1] == (("r"@, false, false, false), Action::VocabPopupTap));
    assert(ms[2] == (("r"@, true, false, false), Action::AddVocabWord));
    assert(ms[3] == (("r"@, true, true, false), Action::VocabJournalAsk));
    assert(ms[4] == (("R"@, true, true, false), Action::VocabJournalAsk));
    assert(ms[5] == (("r"@, false, false, true), Action::ToggleVocabHighlight));
    assert(ms[6] == (("g"@, true, true, false), Action::OpenLastGloss));
    assert(ms[7] == (("G"@, true, true, false), Action::OpenLastGloss));
    assert(ms[8] == (("u"@, false, false, true), Action::CycleScansion));
    assert(ms[9] == (("z"@, false, false, false), Action::OpenConcordancePicker));
    assert(ms[10] == (("z"@, true, false, false), Action::OpenConcordanceWordPicker));
    assert(ms[11] == (("z"@, false, false, true), Action::OpenConcordanceWorksPicker));
    assert(ms[12] == (("Z"@, true, true, false), Action::OpenConcordanceListPicker));
    assert(ms[13] == (("g"@, true, false, false), Action::ToggleGlossOverlay));
    assert(ms[14] == (("g"@, false, false, true), Action::OpenGlossPicker));
    assert(ms[15] == (("g"@, true, false, true), Action::ToggleAnnotationTint));
    assert(ms[16] == (("f"@, true, false, false), Action::OpenCorpusSearch));
    assert(ms[17] == (("j"@, true, false, false), Action::OpenJournalPicker));
    assert(ms[18] == (("j"@, false, false, true), Action::OpenRecentQaPicker));
    assert(ms[19] == (("backslash"@, false, false, false), Action::CycleSegmentOverlays));
    assert(ms[20] == (("u"@, false, false, false), Action::CycleSegmentOverlays));
    lemma_last_binding_holds(w0, ms, 0);
    lemma_last_binding_holds(w0, ms, 1);
    lemma_last_binding_holds(w0, ms, 2);
    lemma_last_binding_holds(w0, ms, 3);
    lemma_last_binding_holds(w0, ms, 4);
    lemma_last_binding_holds(w0, ms, 5);
    lemma_last_binding_holds(w0, ms, 6);
    lemma_last_binding_holds(w0, ms, 7);
    lemma_last_binding_holds(w0, ms, 8);
    lemma_last_binding_holds(w0, ms, 9);
    lemma_last_binding_holds(w0, ms, 10);
    lemma_last_binding_holds(w0, ms, 11);
    lemma_last_binding_holds(w0, ms, 12);
    lemma_last_binding_holds(w0, ms, 13);
    lemma_last_binding_holds(w0, ms, 14);
    lemma_last_binding_holds(w0, ms, 15);
    lemma_last_binding_holds(w0, ms, 16);
    lemma_last_binding_holds(w0, ms, 17);
    lemma_last_binding_holds(w0, ms, 18);
    lemma_last_binding_holds(w0, ms, 19);
    lemma_last_binding_holds(w0, ms, 20);
}

/// Within the `display` category, the bindings that no later binding of the
/// category replaces.
proof fn lemma_display_keys()
    ensures
        ({
            let w = with_bindings(Map::empty(), nav_list() + media_list() + vocab_list() + display_list());
            &&& w.dom().contains(("exclam"@, true, false, false)) && w[("exclam"@, true, false, false)] == Action::AdjustFontSizeDown
            &&& w.dom().contains(("bar"@, true, false, false)) && w[("bar"@, true, false, false)] == Action::AdjustFontSizeUp
            &&& w.dom().contains(("0"@, false, false, false)) && w[("0"@, false, false, false)] == Action::ResetFontSize
            &&& w.dom().contains(("f"@, false, false, false)) && w[("f"@, false, false, false)] == Action::OpenJournalTermInput
            &&& w.dom().contains(("F"@, false, false, false)) && w[("F"@, false, false, false)] == Action::CycleFontForward
            &&& w.dom().contains(("f"@, true, true, false)) && w[("f"@, true, true, false)] == Action::CycleFontBackward
            &&& w.dom().contains(("F"@, true, true, false)) && w[("F"@, true, true, false)] == Action::CycleFontBackward
            &&& w.dom().contains(("l"@, false, false, false)) && w[("l"@, false, false, false)] == Action::ToggleSignColumn
            &&& w.dom().contains(("d"@, false, false, true)) && w[("d"@, false, false, true)] == Action::ToggleDim
            &&& w.dom().contains(("t"@, true, false, false)) && w[("t"@, true, false, false)] == Action::ThemeNext
            &&& w.dom().contains(("T"@, true, true, false)) && w[("T"@, true, true, false)] == Action::ThemePrev
            &&& w.dom().contains(("dollar"@, true, false, false)) && w[("dollar"@, true, false, false)] == Action::RootVariantNext
            &&& w.dom().contains(("asciitilde"@, true, false, false)) && w[("asciitilde"@, true, false, false)] == Action::RootVariantPrev
            &&& w.dom().contains(("b"@, false, false, false)) && w[("b"@, false, false, false)] == Action::SetStartTime
            &&& w.dom().contains(("bracketleft"@, false, false, true)) && w[("bracketleft"@, false, false, true)] == Action::ToggleColumnLayout
            &&& w.dom().contains(("A"@, false, false, false)) && w[("A"@, false, false, false)] == Action::ToggleAuthorship
            &&& w.dom().contains(("A"@, true, true, false)) && w[("A"@, true, true, false)] == Action::PickAttributionSet
            &&& w.dom().contains(("f"@, false, false, true)) && w[("f"@, false, false, true)] == Action::ShowFontInfo
            &&& w.dom().contains(("t"@, true, false, true)) && w[("t"@, true, false, true)] == Action::ShowThemeInfo
            &&& w.dom().contains(("parenleft"@, true, false, true)) && w[("parenleft"@, true, false, true)] == Action::ToggleTranslations
            &&& w.dom().contains(("parenleft"@, true, false, false)) && w[("parenleft"@, true, false, false)] == Action::ToggleImageView
            &&& w.dom().contains(("parenleft"@, false, false, false)) && w[("parenleft"@, false, false, false)] == Action::ShowTranslationOverlay
            &&& w.dom().contains(("I"@, true, true, false)) && w[("I"@, true, true, false)] == Action::EnterPageCalibration
            &&& w.dom().contains(("i"@, false, false, false)) && w[("i"@, false, false, false)] == Action::WordCycleCopy
            &&& w.dom().contains(("I"@, false, false, false)) && w[("I"@, false, false, false)] == Action::WordCyclePrevCopy
            &&& w.dom().contains(("i"@, false, false, true)) && w[("i"@, false, false, true)] == Action::WordCollectCopy
            &&& w.dom().contains(("i"@, true, false, false)) && w[("i"@, true, false, false)] == Action::UnderlineNextSentence
            &&& w.dom().contains(("e"@, false, false, true)) && w[("e"@, false, false, true)] == Action::ShowEchoTurnsBcp
            &&& w.dom().contains(("w"@, false, false, true)) && w[("w"@, false, false, true)] == Action::ShowEchoesShx
            &&& w.dom().contains(("w"@, true, false, false)) && w[("w"@, true, false, false)] == Action::ShowEchoTurnsShx
            &&& w.dom().contains(("W"@, true, true, false)) && w[("W"@, true, true, false)] == Action::ReopenEchoesShx
            &&& w.dom().contains(("comma"@, true, false, false)) && w[("comma"@, true, false, false)] == Action::OpenSettingsOverlay
        }),
{
    reveal_strlit("0");
    reveal_strlit("A");
    reveal_strlit("F");
    reveal_strlit("I");
    reveal_strlit("T");
    reveal_strlit("W");
    reveal_strlit("asciitilde");
    reveal_strlit("b");
    reveal_strlit("bar");
    reveal_strlit("bracketleft");
    reveal_strlit("comma");
    reveal_strlit("d");
    reveal_strlit("dollar");
    reveal_strlit("e");
    reveal_strlit("exclam");
    reveal_strlit("f");
    reveal_strlit("i");
    reveal_strlit("l");
    reveal_strlit("parenleft");
    reveal_strlit("t");
    reveal_strlit("w");
    let e = Map::<(Seq<char>, bool, bool, bool), Action>::empty();
    let w0 = with_bindings(e, nav_list() + media_list() + vocab_list());
    lemma_with_bindings_concat(e, nav_list() + media_list() + vocab_list(), display_list());
    let ms = display_list();
    assert(ms.len() == 32);
    assert(ms[0] == (("exclam"@, true, false, false), Action::AdjustFontSizeDown));
    assert(ms[1] == (("bar"@, true, false, false), Action::AdjustFontSizeUp));
    assert(ms[2] == (("0"@, false, false, false), Action::ResetFontSize));
    assert(ms[3] == (("f"@, false, false, false), Action::OpenJournalTermInput));
    assert(ms[4] == (("F"@, false, false, false), Action::CycleFontForward));
    assert(ms[5] == (("f"@, true, true, false), Action::CycleFontBackward));
    assert(ms[6] == (("F"@, true, true, false), Action::CycleFontBackward));
    assert(ms[7] == (("l"@, false, false, false), Action::ToggleSignColumn));
    assert(ms[8] == (("d"@, false, false, true), Action::ToggleDim));
    assert(ms[9] == (("t"@, true, false, false), Action::ThemeNext));
    assert(ms[10] == (("T"@, true, true, false), Action::ThemePrev));
    assert(ms[11] == (("dollar"@, true, false, false), Action::RootVariantNext));
    assert(ms[12] == (("asciitilde"@, true, false, false), Action::RootVariantPrev));
    assert(ms[13] == (("b"@, false, false, false), Action::SetStartTime));
    assert(ms[14] == (("bracketleft"@, false, false, true), Action::ToggleColumnLayout));
    assert(ms[15] == (("A"@, false, false, false), Action::ToggleAuthorship));
    assert(ms[16] == (("A"@, true, true, false), Action::PickAttributionSet));
    assert(ms[17] == (("f"@, false, false, true), Action::ShowFontInfo));
    assert(ms[18] == (("t"@, true, false, true), Action::ShowThemeInfo));
    assert(ms[19] == (("parenleft"@, true, false, true), Action::ToggleTranslations));
    assert(ms[20] == (("parenleft"@, true, false, false), Action::ToggleImageView));
    assert(ms[21] == (("parenleft"@, false, false, false), Action::ShowTranslationOverlay));
    assert(ms[22] == (("I"@, true, true, false), Action::EnterPageCalibration));
    assert(ms[23] == (("i"@, false, false, false), Action::WordCycleCopy));
    assert(ms[24] == (("I"@, false, false, false), Action::WordCyclePrevCopy));
    assert(ms[25] == (("i"@, false, false, true), Action::WordCollectCopy));
    assert(ms[26] == (("i"@, true, false, false), Action::UnderlineNextSentence));
    assert(ms[27] == (("e"@, false, false, true), Action::ShowEchoTurnsBcp));
    assert(ms[28] == (("w"@, false, false, true), Action::ShowEchoesShx));
    assert(ms[29] == (("w"@, true, false, false), Action::ShowEchoTurnsShx));
    assert(ms[30] == (("W"@, true, true, false), Action::ReopenEchoesShx));
    assert(ms[31] == (("comma"@, true, false, false), Action::OpenSettingsOverlay));
    lemma_last_binding_holds(w0, ms, 0);
    lemma_last_binding_holds(w0, ms, 1);
    lemma_last_binding_holds(w0, ms, 2);
    lemma_last_binding_holds(w0, ms, 3);
    lemma_last_binding_holds(w0, ms, 4);
    lemma_last_binding_holds(w0, ms, 5);
    lemma_last_binding_holds(w0, ms, 6);
    lemma_last_binding_holds(w0, ms, 7);
    lemma_last_binding_holds(w0, ms, 8);
    lemma_last_binding_holds(w0, ms, 9);
    lemma_last_binding_holds(w0, ms, 10);
    lemma_last_binding_holds(w0, ms, 11);
    lemma_last_binding_holds(w0, ms, 12);
    lemma_last_binding_holds(w0, ms, 13);
    lemma_last_binding_holds(w0, ms, 14);
    lemma_last_binding_holds(w0, ms, 15);
    lemma_last_binding_holds(w0, ms, 16);
    lemma_last_binding_holds(w0, ms, 17);
    lemma_last_binding_holds(w0, ms, 18);
    lemma_last_binding_holds(w0, ms, 19);
    lemma_last_binding_holds(w0, ms, 20);
    lemma_last_binding_holds(w0, ms, 21);
    lemma_last_binding_holds(w0, ms, 22);
    lemma_last_binding_holds(w0, ms, 23);
    lemma_last_binding_holds(w0, ms, 24);
    lemma_last_binding_holds(w0, ms, 25);
    lemma_last_binding_holds(w0, ms, 26);
    lemma_last_binding_holds(w0, ms, 27);
    lemma_last_binding_holds(w0, ms, 28);
    lemma_last_binding_holds(w0, ms, 29);
    lemma_last_binding_holds(w0, ms, 30);
    lemma_last_binding_holds(w0, ms, 31);
}

/// Within the `selection` category, the bindings that no later binding of the
/// category replaces.
proof fn lemma_selection_keys()
    ensures
        ({
            let w = with_bindings(Map::empty(), nav_list() + media_list() + vocab_list() + display_list() + selection_list());
            &&& w.dom().contains(("V"@, false, false, false)) && w[("V"@, false, false, false)] == Action::EnterVisualMode
            &&& w.dom().contains(("v"@, false, false, false)) && w[("v"@, false, false, false)] == Action::OpenSegmentVim
        }),
{
    reveal_strlit("V");
    reveal_strlit("v");
    let e = Map::<(Seq<char>, bool, bool, bool), Action>::empty();
    let w0 = with_bindings(e, nav_list() + media_list() + vocab_list() + display_list());
    lemma_with_bindings_concat(e, nav_list() + media_list() + vocab_list() + display_list(), selection_list());
    let ms = selection_list();
    assert(ms.len() == 2);
    assert(ms[0] == (("V"@, false, false, false), Action::EnterVisualMode));
    assert(ms[1] == (("v"@, false, false, false), Action::OpenSegmentVim));
    lemma_last_binding_holds(w0, ms, 0);
    lemma_last_binding_holds(w0, ms, 1);
}

/// Within the `timestamp` category, the bindings that no later binding of the
/// category replaces.
proof fn lemma_timestamp_keys()
    ensures
        ({
            let w = with_bindings(Map::empty(), nav_list() + media_list() + vocab_list() + display_list() + selection_list() + timestamp_list());
            &&& w.dom().contains(("Right"@, false, false, false)) && w[("Right"@, false, false, false)] == Action::SetStartTime
            &&& w.dom().contains(("b"@, false, false, true)) && w[("b"@, false, false, true)] == Action::SetEndTime
            &&& w.dom().contains(("c"@, false, false, false)) && w[("c"@, false, false, false)] == Action::ToggleChapterStart
            &&& w.dom().contains(("BackSpace"@, false, false, false)) && w[("BackSpace"@, false, false, false)] == Action::DeleteTimestampTap
            &&& w.dom().contains(("p"@, false, false, false)) && w[("p"@, false, false, false)] == Action::NudgeStartBackward
            &&& w.dom().contains(("P"@, false, false, false)) && w[("P"@, false, false, false)] == Action::NudgeStartForward
            &&& w.dom().contains(("b"@, true, false, false)) && w[("b"@, true, false, false)] == Action::UndoTimestamp
        }),
{
    reveal_strlit("BackSpace");
    reveal_strlit("P");
    reveal_strlit("Right");
    reveal_strlit("b");
    reveal_strlit("c");
    reveal_strlit("p");
    let e = Map::<(Seq<char>, bool, bool, bool), Action>::empty();
    let w0 = with_bindings(e, nav_list() + media_list() + vocab_list() + display_list() + selection_list());
    lemma_with_bindings_concat(e, nav_list() + media_list() + vocab_list() + display_list() + selection_list(), timestamp_list());
    let ms = timestamp_list();
    assert(ms.len() == 7);
    assert(ms[0] == (("Right"@, false, false, false), Action::SetStartTime));
    assert(ms[1] == (("b"@, false, false, true), Action::SetEndTime));
    assert(ms[2] == (("c"@, false, false, false), Action::ToggleChapterStart));
    assert(ms[3] == (("BackSpace"@, false, false, false), Action::DeleteTimestampTap));
    assert(ms[4] == (("p"@, false, false, false), Action::NudgeStartBackward));
    assert(ms[5] == (("P"@, false, false, false), Action::NudgeStartForward));
    assert(ms[6] == (("b"@, true, false, false), Action::UndoTimestamp));
    lemma_last_binding_holds(w0, ms, 0);
    lemma_last_binding_holds(w0, ms, 1);
    lemma_last_binding_holds(w0, ms, 2);
    lemma_last_binding_holds(w0, ms, 3);
    lemma_last_binding_holds(w0, ms, 4);
    lemma_last_binding_holds(w0, ms, 5);
    lemma_last_binding_holds(w0, ms, 6);
}

/// Within the `app` category, the bindings that no later binding of the
/// category replaces.
proof fn lemma_app_keys()
    ensures
        ({
            let w = with_bindings(Map::empty(), nav_list() + media_list() + vocab_list() + display_list() + selection_list() + timestamp_list() + app_list());
            &&& w.dom().contains(("Escape"@, false, false, false)) && w[("Escape"@, false, false, false)] == Action::EscapeReaderMode
            &&& w.dom().contains(("d"@, true, false, true)) && w[("d"@, true, false, true)] == Action::ToggleDebugLogging
            &&& w.dom().contains(("n"@, true, false, true)) && w[("n"@, true, false, true)] == Action::ToggleNavTest
            &&& w.dom().contains(("E"@, true, true, false)) && w[("E"@, true, true, false)] == Action::ReopenEchoesBcp
            &&& w.dom().contains(("backslash"@, true, false, false)) && w[("backslash"@, true, false, false)] == Action::OpenLibraryPicker
            &&& w.dom().contains(("equal"@, true, false, false)) && w[("equal"@, true, false, false)] == Action::JumpToNextVocab
            &&& w.dom().contains(("equal"@, true, true, false)) && w[("equal"@, true, true, false)] == Action::JumpToPrevVocab
            &&& w.dom().contains(("minus"@, false, false, false)) && w[("minus"@, false, false, false)] == Action::WordCycleCopy
            &&& w.dom().contains(("underscore"@, false, true, false)) && w[("underscore"@, false, true, false)] == Action::WordCyclePrevCopy
            &&& w.dom().contains(("minus"@, false, true, false)) && w[("minus"@, false, true, false)] == Action::WordCyclePrevCopy
            &&& w.dom().contains(("minus"@, false, false, true)) && w[("minus"@, false, false, true)] == Action::WordCollectCopy
            &&& w.dom().contains(("minus"@, true, false, false)) && w[("minus"@, true, false, false)] == Action::UnderlineNextSentence
            &&& w.dom().contains(("Return"@, false, false, false)) && w[("Return"@, false, false, false)] == Action::OpenSyntaxDiagramForUnderlined
            &&& w.dom().contains(("m"@, true, false, false)) && w[("m"@, true, false, false)] == Action::OpenMediaPicker
            &&& w.dom().contains(("slash"@, true, false, false)) && w[("slash"@, true, false, false)] == Action::OpenKeybindsOverlay
            &&& w.dom().contains(("slash"@, false, false, false)) && w[("slash"@, false, false, false)] == Action::OpenSearch
            &&& w.dom().contains(("question"@, false, false, false)) && w[("question"@, false, false, false)] == Action::OpenSearchBackward
            &&& w.dom().contains(("question"@, false, true, false)) && w[("question"@, false, true, false)] == Action::OpenSearchBackward
            &&& w.dom().contains(("slash"@, false, true, false)) && w[("slash"@, false, true, false)] == Action::OpenSearchBackward
            &&& w.dom().contains(("L"@, true, true, false)) && w[("L"@, true, true, false)] == Action::SaveAndQuit
            &&& w.dom().contains(("y"@, true, false, false)) && w[("y"@, true, false, false)] == Action::CopyJournalDivisionBlob
            &&& w.dom().contains(("y"@, true, true, false)) && w[("y"@, true, true, false)] == Action::CopyLineMappingId
            &&& w.dom().contains(("Y"@, true, true, false)) && w[("Y"@, true, true, false)] == Action::CopyLineMappingId
            &&& w.dom().contains(("1"@, false, true, false)) && w[("1"@, false, true, false)] == Action::CopyWorkInfo
            &&& w.dom().contains(("1"@, false, false, false)) && w[("1"@, false, false, false)] == Action::CopyWorkInfo
            &&& w.dom().contains(("n"@, false, false, false)) && w[("n"@, false, false, false)] == Action::SearchNextMatch
            &&& w.dom().contains(("N"@, false, false, false)) && w[("N"@, false, false, false)] == Action::SearchPrevMatch
        }),
{
    reveal_strlit("1");
    reveal_strlit("E");
    reveal_strlit("Escape");
    reveal_strlit("L");
    reveal_strlit("N");
    reveal_strlit("Return");
    reveal_strlit("Y");
    reveal_strlit("backslash");
    reveal_strlit("d");
    reveal_strlit("equal");
    reveal_strlit("m");
    reveal_strlit("minus");
    reveal_strlit("n");
    reveal_strlit("question");
    reveal_strlit("slash");
    reveal_strlit("underscore");
    reveal_strlit("y");
    let e = Map::<(Seq<char>, bool, bool, bool), Action>::empty();
    let w0 = with_bindings(e, nav_list() + media_list() + vocab_list() + display_list() + selection_list() + timestamp_list());
    lemma_with_bindings_concat(e, nav_list() + media_list() + vocab_list() + display_list() + selection_list() + timestamp_list(), app_list());
    let ms = app_list();
    assert(ms.len() == 27);
    assert(ms[0] == (("Escape"@, false, false, false), Action::EscapeReaderMode));
    assert(ms[1] == (("d"@, true, false, true), Action::ToggleDebugLogging));
    assert(ms[2] == (("n"@, true, false, true), Action::ToggleNavTest));
    assert(ms[3] == (("E"@, true, true, false), Action::ReopenEchoesBcp));
    assert(ms[4] == (("backslash"@, true, false, false), Action::OpenLibraryPicker));
    assert(ms[5] == (("equal"@, true, false, false), Action::JumpToNextVocab));
    assert(ms[6] == (("equal"@, true, true, false), Action::JumpToPrevVocab));
    assert(ms[7] == (("minus"@, false, false, false), Action::WordCycleCopy));
    assert(ms[8] == (("underscore"@, false, true, false), Action::WordCyclePrevCopy));
    assert(ms[9] == (("minus"@, false, true, false), Action::WordCyclePrevCopy));
    assert(ms[10] == (("minus"@, false, false, true), Action::WordCollectCopy));
    assert(ms[11] == (("minus"@, true, false, false), Action::UnderlineNextSentence));
    assert(ms[12] == (("Return"@, false, false, false), Action::OpenSyntaxDiagramForUnderlined));
    assert(ms[13] == (("m"@, true, false, false), Action::OpenMediaPicker));
    assert(ms[14] == (("slash"@, true, false, false), Action::OpenKeybindsOverlay));
    assert(ms[15] == (("slash"@, false, false, false), Action::OpenSearch));
    assert(ms[16] == (("question"@, false, false, false), Action::OpenSearchBackward));
    assert(ms[17] == (("question"@, false, true, false), Action::OpenSearchBackward));
    assert(ms[18] == (("slash"@, false, true, false), Action::OpenSearchBackward));
    assert(ms[19] == (("L"@, true, true, false), Action::SaveAndQuit));
    assert(ms[20] == (("y"@, true, false, false), Action::CopyJournalDivisionBlob));
    assert(ms[21] == (("y"@, true, true, false), Action::CopyLineMappingId));
    assert(ms[22] == (("Y"@, true, true, false), Action::CopyLineMappingId));
    assert(ms[23] == (("1"@, false, true, false), Action::CopyWorkInfo));
    assert(ms[24] == (("1"@, false, false, false), Action::CopyWorkInfo));
    assert(ms[25] == (("n"@, false, false, false), Action::SearchNextMatch));
    assert(ms[26] == (("N"@, false, false, false), Action::SearchPrevMatch));
    lemma_last_binding_holds(w0, ms, 0);
    lemma_last_binding_holds(w0, ms, 1);
    lemma_last_binding_holds(w0, ms, 2);
    lemma_last_binding_holds(w0, ms, 3);
    lemma_last_binding_holds(w0, ms, 4);
    lemma_last_binding_holds(w0, ms, 5);
    lemma_last_binding_holds(w0, ms, 6);
    lemma_last_binding_holds(w0, ms, 7);
    lemma_last_binding_holds(w0, ms, 8);
    lemma_last_binding_holds(w0, ms, 9);
    lemma_last_binding_holds(w0, ms, 10);
    lemma_last_binding_holds(w0, ms, 11);
    lemma_last_binding_holds(w0, ms, 12);
    lemma_last_binding_holds(w0, ms, 13);
    lemma_last_binding_holds(w0, ms, 14);
    lemma_last_binding_holds(w0, ms, 15);
    lemma_last_binding_holds(w0, ms, 16);
    lemma_last_binding_holds(w0, ms, 17);
    lemma_last_binding_holds(w0, ms, 18);
    lemma_last_binding_holds(w0, ms, 19);
    lemma_last_binding_holds(w0, ms, 20);
    lemma_last_binding_holds(w0, ms, 21);
    lemma_last_binding_holds(w0, ms, 22);
    lemma_last_binding_holds(w0, ms, 23);
    lemma_last_binding_holds(w0, ms, 24);
    lemma_last_binding_holds(w0, ms, 25);
    lemma_last_binding_holds(w0, ms, 26);
}

/// The default navigation keys, each with the action it resolves to.
pub proof fn law_default_nav_keys()
    ensures
        lookup_spec(default_bindings_spec(), "x"@, false, false, false) == Some(Action::PageForward),
        lookup_spec(default_bindings_spec(), "y"@, false, false, false) == Some(Action::PageBackward),
        lookup_spec(default_bindings_spec(), "j"@, false, false, false) == Some(Action::CursorNextDialogue),
        lookup_spec(default_bindings_spec(), "k"@, false, false, false) == Some(Action::CursorPrevDialogue),
        lookup_spec(default_bindings_spec(), "h"@, false, false, false) == Some(Action::CursorNextDialogueNoSeek),
        lookup_spec(default_bindings_spec(), "t"@, false, false, false) == Some(Action::CursorPrevDialogueNoSeek),
        lookup_spec(default_bindings_spec(), "Up"@, false, false, false) == Some(Action::CursorPrevDialogue),
        lookup_spec(default_bindings_spec(), "Up"@, false, true, false) == Some(Action::PageBackwardBottom),
        lookup_spec(default_bindings_spec(), "Down"@, false, false, false) == Some(Action::CursorNextDialogue),
        lookup_spec(default_bindings_spec(), "comma"@, false, false, false) == Some(Action::JumpToPrevSpeaker),
        lookup_spec(default_bindings_spec(), "q"@, false, false, false) == Some(Action::JumpToNextSpeaker),
        lookup_spec(default_bindings_spec(), "J"@, false, false, false) == Some(Action::JumpToNextSpeaker),
        lookup_spec(default_bindings_spec(), "K"@, false, false, false) == Some(Action::JumpToPrevSpeaker),
        lookup_spec(default_bindings_spec(), "g"@, false, false, false) == Some(Action::PendingG),
        lookup_spec(default_bindings_spec(), "G"@, false, false, false) == Some(Action::JumpToEnd),
        lookup_spec(default_bindings_spec(), "bracketleft"@, false, false, false) == Some(Action::JumpToPrevDivision),
        lookup_spec(default_bindings_spec(), "bracketleft"@, true, false, false) == Some(Action::SetChapter),
        lookup_spec(default_bindings_spec(), "braceleft"@, false, false, false) == Some(Action::JumpToNextDivision),
        lookup_spec(default_bindings_spec(), "C"@, false, false, false) == Some(Action::ShowCurrentChapter),
        lookup_spec(default_bindings_spec(), "colon"@, false, true, false) == Some(Action::TogglePlaybackSpeed),
        lookup_spec(default_bindings_spec(), "semicolon"@, false, true, false) == Some(Action::TogglePlaybackSpeed),
        lookup_spec(default_bindings_spec(), "semicolon"@, false, false, false) == Some(Action::PrevBookmark),
        lookup_spec(default_bindings_spec(), "apostrophe"@, false, false, false) == Some(Action::NextBookmark),
        lookup_spec(default_bindings_spec(), "m"@, false, false, false) == Some(Action::ToggleBookmark),
        lookup_spec(default_bindings_spec(), "period"@, false, false, false) == Some(Action::BookmarkTap),
        lookup_spec(default_bindings_spec(), "c"@, true, false, false) == Some(Action::TogglePreviousWork),
        lookup_spec(default_bindings_spec(), "e"@, true, false, false) == Some(Action::ShowEchoesBcp),
        lookup_spec(default_bindings_spec(), "period"@, true, false, false) == Some(Action::OpenBookmarkPicker),
{
    reveal_strlit("0");
    reveal_strlit("1");
    reveal_strlit("A");
    reveal_strlit("BackSpace");
    reveal_strlit("C");
    reveal_strlit("Down");
    reveal_strlit("E");
    reveal_strlit("Escape");
    reveal_strlit("F");
    reveal_strlit("G");
    reveal_strlit("I");
    reveal_strlit("J");
    reveal_strlit("K");
    reveal_strlit("L");
    reveal_strlit("Left");
    reveal_strlit("N");
    reveal_strlit("O");
    reveal_strlit("P");
    reveal_strlit("R");
    reveal_strlit("Return");
    reveal_strlit("Right");
    reveal_strlit("T");
    reveal_strlit("Up");
    reveal_strlit("V");
    reveal_strlit("W");
    reveal_strlit("Y");
    reveal_strlit("Z");
    reveal_strlit("a");
    reveal_strlit("apostrophe");
    reveal_strlit("asciitilde");
    reveal_strlit("b");
    reveal_strlit("backslash");
    reveal_strlit("bar");
    reveal_strlit("braceleft");
    reveal_strlit("bracketleft");
    reveal_strlit("c");
    reveal_strlit("colon");
    reveal_strlit("comma");
    reveal_strlit("d");
    reveal_strlit("dollar");
    reveal_strlit("e");
    reveal_strlit("equal");
    reveal_strlit("exclam");
    reveal_strlit("f");
    reveal_strlit("g");
    reveal_strlit("h");
    reveal_strlit("i");
    reveal_strlit("j");
    reveal_strlit("k");
    reveal_strlit("l");
    reveal_strlit("m");
    reveal_strlit("minus");
    reveal_strlit("n");
    reveal_strlit("o");
    reveal_strlit("p");
    reveal_strlit("parenleft");
    reveal_strlit("period");
    reveal_strlit("plus");
    reveal_strlit("q");
    reveal_strlit("question");
    reveal_strlit("r");
    reveal_strlit("s");
    reveal_strlit("semicolon");
    reveal_strlit("slash");
    reveal_strlit("t");
    reveal_strlit("u");
    reveal_strlit("underscore");
    reveal_strlit("v");
    reveal_strlit("w");
    reveal_strlit("x");
    reveal_strlit("y");
    reveal_strlit("z");
    lemma_nav_keys();
    lemma_defaults_after_nav(("x"@, false, false, false));
    lemma_defaults_after_nav(("y"@, false, false, false));
    lemma_defaults_after_nav(("j"@, false, false, false));
    lemma_defaults_after_nav(("k"@, false, false, false));
    lemma_defaults_after_nav(("h"@, false, false, false));
    lemma_defaults_after_nav(("t"@, false, false, false));
    lemma_defaults_after_nav(("Up"@, false, false, false));
    lemma_defaults_after_nav(("Up"@, false, true, false));
    lemma_defaults_after_nav(("Down"@, false, false, false));
    lemma_defaults_after_nav(("comma"@, false, false, false));
    lemma_defaults_after_nav(("q"@, false, false, false));
    lemma_defaults_after_nav(("J"@, false, false, false));
    lemma_defaults_after_nav(("K"@, false, false, false));
    lemma_defaults_after_nav(("g"@, false, false, false));
    lemma_defaults_after_nav(("G"@, false, false, false));
    lemma_defaults_after_nav(("bracketleft"@, false, false, false));
    lemma_defaults_after_nav(("bracketleft"@, true, false, false));
    lemma_defaults_after_nav(("braceleft"@, false, false, false));
    lemma_defaults_after_nav(("C"@, false, false, false));
    lemma_defaults_after_nav(("colon"@, false, true, false));
    lemma_defaults_after_nav(("semicolon"@, false, true, false));
    lemma_defaults_after_nav(("semicolon"@, false, false, false));
    lemma_defaults_after_nav(("apostrophe"@, false, false, false));
    lemma_defaults_after_nav(("m"@, false, false, false));
    lemma_defaults_after_nav(("period"@, false, false, false));
    lemma_defaults_after_nav(("c"@, true, false, false));
    lemma_defaults_after_nav(("e"@, true, false, false));
    lemma_defaults_after_nav(("period"@, true, false, false));
}

/// The default media keys, each with the action it resolves to.
pub proof fn law_default_media_keys()
    ensures
        lookup_spec(default_bindings_spec(), "a"@, false, false, false) == Some(Action::TogglePause),
        lookup_spec(default_bindings_spec(), "s"@, false, false, false) == Some(Action::TogglePlaybackSync),
        lookup_spec(default_bindings_spec(), "o"@, false, false, false) == Some(Action::SeekShortBackward),
        lookup_spec(default_bindings_spec(), "e"@, false, false, false) == Some(Action::SeekShortForward),
        lookup_spec(default_bindings_spec(), "O"@, false, false, false) == Some(Action::SeekLongBackward),
        lookup_spec(default_bindings_spec(), "E"@, false, false, false) == Some(Action::SeekLongForward),
        lookup_spec(default_bindings_spec(), "Left"@, false, false, false) == Some(Action::SeekShortBackward),
        lookup_spec(default_bindings_spec(), "Up"@, true, false, false) == Some(Action::VolumeUp),
        lookup_spec(default_bindings_spec(), "Down"@, true, false, false) == Some(Action::VolumeDown),
        lookup_spec(default_bindings_spec(), "plus"@, false, false, false) == Some(Action::CopyWorkDivision),
        lookup_spec(default_bindings_spec(), "p"@, false, false, true) == Some(Action::TogglePhraseHighlight),
{
    reveal_strlit("0");
    reveal_strlit("1");
    reveal_strlit("A");
    reveal_strlit("BackSpace");
    reveal_strlit("C");
    reveal_strlit("Down");
    reveal_strlit("E");
    reveal_strlit("Escape");
    reveal_strlit("F");
    reveal_strlit("G");
    reveal_strlit("I");
    reveal_strlit("J");
    reveal_strlit("K");
    reveal_strlit("L");
    reveal_strlit("Left");
    reveal_strlit("N");
    reveal_strlit("O");
    reveal_strlit("P");
    reveal_strlit("R");
    reveal_strlit("Return");
    reveal_strlit("Right");
    reveal_strlit("T");
    reveal_strlit("Up");
    reveal_strlit("V");
    reveal_strlit("W");
    reveal_strlit("Y");
    reveal_strlit("Z");
    reveal_strlit("a");
    reveal_strlit("apostrophe");
    reveal_strlit("asciitilde");
    reveal_strlit("b");
    reveal_strlit("backslash");
    reveal_strlit("bar");
    reveal_strlit("braceleft");
    reveal_strlit("bracketleft");
    reveal_strlit("c");
    reveal_strlit("colon");
    reveal_strlit("comma");
    reveal_strlit("d");
    reveal_strlit("dollar");
    reveal_strlit("e");
    reveal_strlit("equal");
    reveal_strlit("exclam");
    reveal_strlit("f");
    reveal_strlit("g");
    reveal_strlit("h");
    reveal_strlit("i");
    reveal_strlit("j");
    reveal_strlit("k");
    reveal_strlit("l");
    reveal_strlit("m");
    reveal_strlit("minus");
    reveal_strlit("n");
    reveal_strlit("o");
    reveal_strlit("p");
    reveal_strlit("parenleft");
    reveal_strlit("period");
    reveal_strlit("plus");
    reveal_strlit("q");
    reveal_strlit("question");
    reveal_strlit("r");
    reveal_strlit("s");
    reveal_strlit("semicolon");
    reveal_strlit("slash");
    reveal_strlit("t");
    reveal_strlit("u");
    reveal_strlit("underscore");
    reveal_strlit("v");
    reveal_strlit("w");
    reveal_strlit("x");
    reveal_strlit("y");
    reveal_strlit("z");
    lemma_media_keys();
    lemma_defaults_after_media(("a"@, false, false, false));
    lemma_defaults_after_media(("s"@, false, false, false));
    lemma_defaults_after_media(("o"@, false, false, false));
    lemma_defaults_after_media(("e"@, false, false, false));
    lemma_defaults_after_media(("O"@, false, false, false));
    lemma_defaults_after_media(("E"@, false, false, false));
    lemma_defaults_after_media(("Left"@, false, false, false));
    lemma_defaults_after_media(("Up"@, true, false, false));
    lemma_defaults_after_media(("Down"@, true, false, false));
    lemma_defaults_after_media(("plus"@, false, false, false));
    lemma_defaults_after_media(("p"@, false, false, true));
}

/// The default vocabulary keys, each with the action it resolves to.
pub proof fn law_default_vocab_keys()
    ensures
        lookup_spec(default_bindings_spec(), "h"@, true, false, false) == Some(Action::ShowSynopsisOverlay),
        lookup_spec(default_bindings_spec(), "r"@, false, false, false) == Some(Action::VocabPopupTap),
        lookup_spec(default_bindings_spec(), "r"@, true, false, false) == Some(Action::AddVocabWord),
        lookup_spec(default_bindings_spec(), "r"@, true, true, false) == Some(Action::VocabJournalAsk),
        lookup_spec(default_bindings_spec(), "R"@, true, true, false) == Some(Action::VocabJournalAsk),
        lookup_spec(default_bindings_spec(), "r"@, false, false, true) == Some(Action::ToggleVocabHighlight),
        lookup_spec(default_bindings_spec(), "g"@, true, true, false) == Some(Action::OpenLastGloss),
        lookup_spec(default_bindings_spec(), "G"@, true, true, false) == Some(Action::OpenLastGloss),
        lookup_spec(default_bindings_spec(), "u"@, false, false, true) == Some(Action::CycleScansion),
        lookup_spec(default_bindings_spec(), "z"@, false, false, false) == Some(Action::OpenConcordancePicker),
        lookup_spec(default_bindings_spec(), "z"@, true, false, false) == Some(Action::OpenConcordanceWordPicker),
        lookup_spec(default_bindings_spec(), "z"@, false, false, true) == Some(Action::OpenConcordanceWorksPicker),
        lookup_spec(default_bindings_spec(), "Z"@, true, true, false) == Some(Action::OpenConcordanceListPicker),
        lookup_spec(default_bindings_spec(), "g"@, true, false, false) == Some(Action::ToggleGlossOverlay),
        lookup_spec(default_bindings_spec(), "g"@, false, false, true) == Some(Action::OpenGlossPicker),
        lookup_spec(default_bindings_spec(), "g"@, true, false, true) == Some(Action::ToggleAnnotationTint),
        lookup_spec(default_bindings_spec(), "f"@, true, false, false) == Some(Action::OpenCorpusSearch),
        lookup_spec(default_bindings_spec(), "j"@, true, false, false) == Some(Action::OpenJournalPicker),
        lookup_spec(default_bindings_spec(), "j"@, false, false, true) == Some(Action::OpenRecentQaPicker),
        lookup_spec(default_bindings_spec(), "backslash"@, false, false, false) == Some(Action::CycleSegmentOverlays),
        lookup_spec(default_bindings_spec(), "u"@, false, false, false) == Some(Action::CycleSegmentOverlays),
{
    reveal_strlit("0");
    reveal_strlit("1");
    reveal_strlit("A");
    reveal_strlit("BackSpace");
    reveal_strlit("C");
    reveal_strlit("Down");
    reveal_strlit("E");
    reveal_strlit("Escape");
    reveal_strlit("F");
    reveal_strlit("G");
    reveal_strlit("I");
    reveal_strlit("J");
    reveal_strlit("K");
    reveal_strlit("L");
    reveal_strlit("Left");
    reveal_strlit("N");
    reveal_strlit("O");
    reveal_strlit("P");
    reveal_strlit("R");
    reveal_strlit("Return");
    reveal_strlit("Right");
    reveal_strlit("T");
    reveal_strlit("Up");
    reveal_strlit("V");
    reveal_strlit("W");
    reveal_strlit("Y");
    reveal_strlit("Z");
    reveal_strlit("a");
    reveal_strlit("apostrophe");
    reveal_strlit("asciitilde");
    reveal_strlit("b");
    reveal_strlit("backslash");
    reveal_strlit("bar");
    reveal_strlit("braceleft");
    reveal_strlit("bracketleft");
    reveal_strlit("c");
    reveal_strlit("colon");
    reveal_strlit("comma");
    reveal_strlit("d");
    reveal_strlit("dollar");
    reveal_strlit("e");
    reveal_strlit("equal");
    reveal_strlit("exclam");
    reveal_strlit("f");
    reveal_strlit("g");
    reveal_strlit("h");
    reveal_strlit("i");
    reveal_strlit("j");
    reveal_strlit("k");
    reveal_strlit("l");
    reveal_strlit("m");
    reveal_strlit("minus");
    reveal_strlit("n");
    reveal_strlit("o");
    reveal_strlit("p");
    reveal_strlit("parenleft");
    reveal_strlit("period");
    reveal_strlit("plus");
    reveal_strlit("q");
    reveal_strlit("question");
    reveal_strlit("r");
    reveal_strlit("s");
    reveal_strlit("semicolon");
    reveal_strlit("slash");
    reveal_strlit("t");
    reveal_strlit("u");
    reveal_strlit("underscore");
    reveal_strlit("v");
    reveal_strlit("w");
    reveal_strlit("x");
    reveal_strlit("y");
    reveal_strlit("z");
    lemma_vocab_keys();
    lemma_defaults_after_vocab(("h"@, true, false, false));
    lemma_defaults_after_vocab(("r"@, false, false, false));
    lemma_defaults_after_vocab(("r"@, true, false, false));
    lemma_defaults_after_vocab(("r"@, true, true, false));
    lemma_defaults_after_vocab(("R"@, true, true, false));
    lemma_defaults_after_vocab(("r"@, false, false, true));
    lemma_defaults_after_vocab(("g"@, true, true, false));
    lemma_defaults_after_vocab(("G"@, true, true, false));
    lemma_defaults_after_vocab(("u"@, false, false, true));
    lemma_defaults_after_vocab(("z"@, false, false, false));
    lemma_defaults_after_vocab(("z"@, true, false, false));
    lemma_defaults_after_vocab(("z"@, false, false, true));
    lemma_defaults_after_vocab(("Z"@, true, true, false));
    lemma_defaults_after_vocab(("g"@, true, false, false));
    lemma_defaults_after_vocab(("g"@, false, false, true));
    lemma_defaults_after_vocab(("g"@, true, false, true));
    lemma_defaults_after_vocab(("f"@, true, false, false));
    lemma_defaults_after_vocab(("j"@, true, false, false));
    lemma_defaults_after_vocab(("j"@, false, false, true));
    lemma_defaults_after_vocab(("backslash"@, false, false, false));
    lemma_defaults_after_vocab(("u"@, false, false, false));
}

/// The default display keys, each with the action it resolves to.
pub proof fn law_default_display_keys()
    ensures
        lookup_spec(default_bindings_spec(), "exclam"@, true, false, false) == Some(Action::AdjustFontSizeDown),
        lookup_spec(default_bindings_spec(), "bar"@, true, false, false) == Some(Action::AdjustFontSizeUp),
        lookup_spec(default_bindings_spec(), "0"@, false, false, false) == Some(Action::ResetFontSize),
        lookup_spec(default_bindings_spec(), "f"@, false, false, false) == Some(Action::OpenJournalTermInput),
        lookup_spec(default_bindings_spec(), "F"@, false, false, false) == Some(Action::CycleFontForward),
        lookup_spec(default_bindings_spec(), "f"@, true, true, false) == Some(Action::CycleFontBackward),
        lookup_spec(default_bindings_spec(), "F"@, true, true, false) == Some(Action::CycleFontBackward),
        lookup_spec(default_bindings_spec(), "l"@, false, false, false) == Some(Action::ToggleSignColumn),
        lookup_spec(default_bindings_spec(), "d"@, false, false, true) == Some(Action::ToggleDim),
        lookup_spec(default_bindings_spec(), "t"@, true, false, false) == Some(Action::ThemeNext),
        lookup_spec(default_bindings_spec(), "T"@, true, true, false) == Some(Action::ThemePrev),
        lookup_spec(default_bindings_spec(), "dollar"@, true, false, false) == Some(Action::RootVariantNext),
        lookup_spec(default_bindings_spec(), "asciitilde"@, true, false, false) == Some(Action::RootVariantPrev),
        lookup_spec(default_bindings_spec(), "b"@, false, false, false) == Some(Action::SetStartTime),
        lookup_spec(default_bindings_spec(), "bracketleft"@, false, false, true) == Some(Action::ToggleColumnLayout),
        lookup_spec(default_bindings_spec(), "A"@, false, false, false) == Some(Action::ToggleAuthorship),
        lookup_spec(default_bindings_spec(), "A"@, true, true, false) == Some(Action::PickAttributionSet),
        lookup_spec(default_bindings_spec(), "f"@, false, false, true) == Some(Action::ShowFontInfo),
        lookup_spec(default_bindings_spec(), "t"@, true, false, true) == Some(Action::ShowThemeInfo),
        lookup_spec(default_bindings_spec(), "parenleft"@, true, false, true) == Some(Action::ToggleTranslations),
        lookup_spec(default_bindings_spec(), "parenleft"@, true, false, false) == Some(Action::ToggleImageView),
        lookup_spec(default_bindings_spec(), "parenleft"@, false, false, false) == Some(Action::ShowTranslationOverlay),
        lookup_spec(default_bindings_spec(), "I"@, true, true, false) == Some(Action::EnterPageCalibration),
        lookup_spec(default_bindings_spec(), "i"@, false, false, false) == Some(Action::WordCycleCopy),
        lookup_spec(default_bindings_spec(), "I"@, false, false, false) == Some(Action::WordCyclePrevCopy),
        lookup_spec(default_bindings_spec(), "i"@, false, false, true) == Some(Action::WordCollectCopy),
        lookup_spec(default_bindings_spec(), "i"@, true, false, false) == Some(Action::UnderlineNextSentence),
        lookup_spec(default_bindings_spec(), "e"@, false, false, true) == Some(Action::ShowEchoTurnsBcp),
        lookup_spec(default_bindings_spec(), "w"@, false, false, true) == Some(Action::ShowEchoesShx),
        lookup_spec(default_bindings_spec(), "w"@, true, false, false) == Some(Action::ShowEchoTurnsShx),
        lookup_spec(default_bindings_spec(), "W"@, true, true, false) == Some(Action::ReopenEchoesShx),
        lookup_spec(default_bindings_spec(), "comma"@, true, false, false) == Some(Action::OpenSettingsOverlay),
{
    reveal_strlit("0");
    reveal_strlit("1");
    reveal_strlit("A");
    reveal_strlit("BackSpace");
    reveal_strlit("C");
    reveal_strlit("Down");
    reveal_strlit("E");
    reveal_strlit("Escape");
    reveal_strlit("F");
    reveal_strlit("G");
    reveal_strlit("I");
    reveal_strlit("J");
    reveal_strlit("K");
    reveal_strlit("L");
    reveal_strlit("Left");
    reveal_strlit("N");
    reveal_strlit("O");
    reveal_strlit("P");
    reveal_strlit("R");
    reveal_strlit("Return");
    reveal_strlit("Right");
    reveal_strlit("T");
    reveal_strlit("Up");
    reveal_strlit("V");
    reveal_strlit("W");
    reveal_strlit("Y");
    reveal_strlit("Z");
    reveal_strlit("a");
    reveal_strlit("apostrophe");
    reveal_strlit("asciitilde");
    reveal_strlit("b");
    reveal_strlit("backslash");
    reveal_strlit("bar");
    reveal_strlit("braceleft");
    reveal_strlit("bracketleft");
    reveal_strlit("c");
    reveal_strlit("colon");
    reveal_strlit("comma");
    reveal_strlit("d");
    reveal_strlit("dollar");
    reveal_strlit("e");
    reveal_strlit("equal");
    reveal_strlit("exclam");
    reveal_strlit("f");
    reveal_strlit("g");
    reveal_strlit("h");
    reveal_strlit("i");
    reveal_strlit("j");
    reveal_strlit("k");
    reveal_strlit("l");
    reveal_strlit("m");
    reveal_strlit("minus");
    reveal_strlit("n");
    reveal_strlit("o");
    reveal_strlit("p");
    reveal_strlit("parenleft");
    reveal_strlit("period");
    reveal_strlit("plus");
    reveal_strlit("q");
    reveal_strlit("question");
    reveal_strlit("r");
    reveal_strlit("s");
    reveal_strlit("semicolon");
    reveal_strlit("slash");
    reveal_strlit("t");
    reveal_strlit("u");
    reveal_strlit("underscore");
    reveal_strlit("v");
    reveal_strlit("w");
    reveal_strlit("x");
    reveal_strlit("y");
    reveal_strlit("z");
    lemma_display_keys();
    lemma_defaults_after_display(("exclam"@, true, false, false));
    lemma_defaults_after_display(("bar"@, true, false, false));
    lemma_defaults_after_display(("0"@, false, false, false));
    lemma_defaults_after_display(("f"@, false, false, false));
    lemma_defaults_after_display(("F"@, false, false, false));
    lemma_defaults_after_display(("f"@, true, true, false));
    lemma_defaults_after_display(("F"@, true, true, false));
    lemma_defaults_after_display(("l"@, false, false, false));
    lemma_defaults_after_display(("d"@, false, false, true));
    lemma_defaults_after_display(("t"@, true, false, false));
    lemma_defaults_after_display(("T"@, true, true, false));
    lemma_defaults_after_display(("dollar"@, true, false, false));
    lemma_defaults_after_display(("asciitilde"@, true, false, false));
    lemma_defaults_after_display(("b"@, false, false, false));
    lemma_defaults_after_display(("bracketleft"@, false, false, true));
    lemma_defaults_after_display(("A"@, false, false, false));
    lemma_defaults_after_display(("A"@, true, true, false));
    lemma_defaults_after_display(("f"@, false, false, true));
    lemma_defaults_after_display(("t"@, true, false, true));
    lemma_defaults_after_display(("parenleft"@, true, false, true));
    lemma_defaults_after_display(("parenleft"@, true, false, false));
    lemma_defaults_after_display(("parenleft"@, false, false, false));
    lemma_defaults_after_display(("I"@, true, true, false));
    lemma_defaults_after_display(("i"@, false, false, false));
    lemma_defaults_after_display(("I"@, false, false, false));
    lemma_defaults_after_display(("i"@, false, false, true));
    lemma_defaults_after_display(("i"@, true, false, false));
    lemma_defaults_after_display(("e"@, false, false, true));
    lemma_defaults_after_display(("w"@, false, false, true));
    lemma_defaults_after_display(("w"@, true, false, false));
    lemma_defaults_after_display(("W"@, true, true, false));
    lemma_defaults_after_display(("comma"@, true, false, false));
}

/// The default selection keys, each with the action it resolves to.
pub proof fn law_default_selection_keys()
    ensures
        lookup_spec(default_bindings_spec(), "V"@, false, false, false) == Some(Action::EnterVisualMode),
        lookup_spec(default_bindings_spec(), "v"@, false, false, false) == Some(Action::OpenSegmentVim),
{
    reveal_strlit("0");
    reveal_strlit("1");
    reveal_strlit("A");
    reveal_strlit("BackSpace");
    reveal_strlit("C");
    reveal_strlit("Down");
    reveal_strlit("E");
    reveal_strlit("Escape");
    reveal_strlit("F");
    reveal_strlit("G");
    reveal_strlit("I");
    reveal_strlit("J");
    reveal_strlit("K");
    reveal_strlit("L");
    reveal_strlit("Left");
    reveal_strlit("N");
    reveal_strlit("O");
    reveal_strlit("P");
    reveal_strlit("R");
    reveal_strlit("Return");
    reveal_strlit("Right");
    reveal_strlit("T");
    reveal_strlit("Up");
    reveal_strlit("V");
    reveal_strlit("W");
    reveal_strlit("Y");
    reveal_strlit("Z");
    reveal_strlit("a");
    reveal_strlit("apostrophe");
    reveal_strlit("asciitilde");
    reveal_strlit("b");
    reveal_strlit("backslash");
    reveal_strlit("bar");
    reveal_strlit("braceleft");
    reveal_strlit("bracketleft");
    reveal_strlit("c");
    reveal_strlit("colon");
    reveal_strlit("comma");
    reveal_strlit("d");
    reveal_strlit("dollar");
    reveal_strlit("e");
    reveal_strlit("equal");
    reveal_strlit("exclam");
    reveal_strlit("f");
    reveal_strlit("g");
    reveal_strlit("h");
    reveal_strlit("i");
    reveal_strlit("j");
    reveal_strlit("k");
    reveal_strlit("l");
    reveal_strlit("m");
    reveal_strlit("minus");
    reveal_strlit("n");
    reveal_strlit("o");
    reveal_strlit("p");
    reveal_strlit("parenleft");
    reveal_strlit("period");
    reveal_strlit("plus");
    reveal_strlit("q");
    reveal_strlit("question");
    reveal_strlit("r");
    reveal_strlit("s");
    reveal_strlit("semicolon");
    reveal_strlit("slash");
    reveal_strlit("t");
    reveal_strlit("u");
    reveal_strlit("underscore");
    reveal_strlit("v");
    reveal_strlit("w");
    reveal_strlit("x");
    reveal_strlit("y");
    reveal_strlit("z");
    lemma_selection_keys();
    lemma_defaults_after_selection(("V"@, false, false, false));
    lemma_defaults_after_selection(("v"@, false, false, false));
}

/// The default timestamp keys, each with the action it resolves to.
pub proof fn law_default_timestamp_keys()
    ensures
        lookup_spec(default_bindings_spec(), "Right"@, false, false, false) == Some(Action::SetStartTime),
        lookup_spec(default_bindings_spec(), "b"@, false, false, true) == Some(Action::SetEndTime),
        lookup_spec(default_bindings_spec(), "c"@, false, false, false) == Some(Action::ToggleChapterStart),
        lookup_spec(default_bindings_spec(), "BackSpace"@, false, false, false) == Some(Action::DeleteTimestampTap),
        lookup_spec(default_bindings_spec(), "p"@, false, false, false) == Some(Action::NudgeStartBackward),
        lookup_spec(default_bindings_spec(), "P"@, false, false, false) == Some(Action::NudgeStartForward),
        lookup_spec(default_bindings_spec(), "b"@, true, false, false) == Some(Action::UndoTimestamp),
{
    reveal_strlit("0");
    reveal_strlit("1");
    reveal_strlit("A");
    reveal_strlit("BackSpace");
    reveal_strlit("C");
    reveal_strlit("Down");
    reveal_strlit("E");
    reveal_strlit("Escape");
    reveal_strlit("F");
    reveal_strlit("G");
    reveal_strlit("I");
    reveal_strlit("J");
    reveal_strlit("K");
    reveal_strlit("L");
    reveal_strlit("Left");
    reveal_strlit("N");
    reveal_strlit("O");
    reveal_strlit("P");
    reveal_strlit("R");
    reveal_strlit("Return");
    reveal_strlit("Right");
    reveal_strlit("T");
    reveal_strlit("Up");
    reveal_strlit("V");
    reveal_strlit("W");
    reveal_strlit("Y");
    reveal_strlit("Z");
    reveal_strlit("a");
    reveal_strlit("apostrophe");
    reveal_strlit("asciitilde");
    reveal_strlit("b");
    reveal_strlit("backslash");
    reveal_strlit("bar");
    reveal_strlit("braceleft");
    reveal_strlit("bracketleft");
    reveal_strlit("c");
    reveal_strlit("colon");
    reveal_strlit("comma");
    reveal_strlit("d");
    reveal_strlit("dollar");
    reveal_strlit("e");
    reveal_strlit("equal");
    reveal_strlit("exclam");
    reveal_strlit("f");
    reveal_strlit("g");
    reveal_strlit("h");
    reveal_strlit("i");
    reveal_strlit("j");
    reveal_strlit("k");
    reveal_strlit("l");
    reveal_strlit("m");
    reveal_strlit("minus");
    reveal_strlit("n");
    reveal_strlit("o");
    reveal_strlit("p");
    reveal_strlit("parenleft");
    reveal_strlit("period");
    reveal_strlit("plus");
    reveal_strlit("q");
    reveal_strlit("question");
    reveal_strlit("r");
    reveal_strlit("s");
    reveal_strlit("semicolon");
    reveal_strlit("slash");
    reveal_strlit("t");
    reveal_strlit("u");
    reveal_strlit("underscore");
    reveal_strlit("v");
    reveal_strlit("w");
    reveal_strlit("x");
    reveal_strlit("y");
    reveal_strlit("z");
    lemma_timestamp_keys();
    lemma_defaults_after_timestamp(("Right"@, false, false, false));
    lemma_defaults_after_timestamp(("b"@, false, false, true));
    lemma_defaults_after_timestamp(("c"@, false, false, false));
    lemma_defaults_after_timestamp(("BackSpace"@, false, false, false));
    lemma_defaults_after_timestamp(("p"@, false, false, false));
    lemma_defaults_after_timestamp(("P"@, false, false, false));
    lemma_defaults_after_timestamp(("b"@, true, false, false));
}

/// The default application keys, each with the action it resolves to.
pub proof fn law_default_app_keys()
    ensures
        lookup_spec(default_bindings_spec(), "Escape"@, false, false, false) == Some(Action::EscapeReaderMode),
        lookup_spec(default_bindings_spec(), "d"@, true, false, true) == Some(Action::ToggleDebugLogging),
        lookup_spec(default_bindings_spec(), "n"@, true, false, true) == Some(Action::ToggleNavTest),
        lookup_spec(default_bindings_spec(), "E"@, true, true, false) == Some(Action::ReopenEchoesBcp),
        lookup_spec(default_bindings_spec(), "backslash"@, true, false, false) == Some(Action::OpenLibraryPicker),
        lookup_spec(default_bindings_spec(), "equal"@, true, false, false) == Some(Action::JumpToNextVocab),
        lookup_spec(default_bindings_spec(), "equal"@, true, true, false) == Some(Action::JumpToPrevVocab),
        lookup_spec(default_bindings_spec(), "minus"@, false, false, false) == Some(Action::WordCycleCopy),
        lookup_spec(default_bindings_spec(), "underscore"@, false, true, false) == Some(Action::WordCyclePrevCopy),
        lookup_spec(default_bindings_spec(), "minus"@, false, true, false) == Some(Action::WordCyclePrevCopy),
        lookup_spec(default_bindings_spec(), "minus"@, false, false, true) == Some(Action::WordCollectCopy),
        lookup_spec(default_bindings_spec(), "minus"@, true, false, false) == Some(Action::UnderlineNextSentence),
        lookup_spec(default_bindings_spec(), "Return"@, false, false, false) == Some(Action::OpenSyntaxDiagramForUnderlined),
        lookup_spec(default_bindings_spec(), "m"@, true, false, false) == Some(Action::OpenMediaPicker),
        lookup_spec(default_bindings_spec(), "slash"@, true, false, false) == Some(Action::OpenKeybindsOverlay),
        lookup_spec(default_bindings_spec(), "slash"@, false, false, false) == Some(Action::OpenSearch),
        lookup_spec(default_bindings_spec(), "question"@, false, false, false) == Some(Action::OpenSearchBackward),
        lookup_spec(default_bindings_spec(), "question"@, false, true, false) == Some(Action::OpenSearchBackward),
        lookup_spec(default_bindings_spec(), "slash"@, false, true, false) == Some(Action::OpenSearchBackward),
        lookup_spec(default_bindings_spec(), "L"@, true, true, false) == Some(Action::SaveAndQuit),
        lookup_spec(default_bindings_spec(), "y"@, true, false, false) == Some(Action::CopyJournalDivisionBlob),
        lookup_spec(default_bindings_spec(), "y"@, true, true, false) == Some(Action::CopyLineMappingId),
        lookup_spec(default_bindings_spec(), "Y"@, true, true, false) == Some(Action::CopyLineMappingId),
        lookup_spec(default_bindings_spec(), "1"@, false, true, false) == Some(Action::CopyWorkInfo),
        lookup_spec(default_bindings_spec(), "1"@, false, false, false) == Some(Action::CopyWorkInfo),
        lookup_spec(default_bindings_spec(), "n"@, false, false, false) == Some(Action::SearchNextMatch),
        lookup_spec(default_bindings_spec(), "N"@, false, false, false) == Some(Action::SearchPrevMatch),
{
    reveal_strlit("0");
    reveal_strlit("1");
    reveal_strlit("A");
    reveal_strlit("BackSpace");
    reveal_strlit("C");
    reveal_strlit("Down");
    reveal_strlit("E");
    reveal_strlit("Escape");
    reveal_strlit("F");
    reveal_strlit("G");
    reveal_strlit("I");
    reveal_strlit("J");
    reveal_strlit("K");
    reveal_strlit("L");
    reveal_strlit("Left");
    reveal_strlit("N");
    reveal_strlit("O");
    reveal_strlit("P");
    reveal_strlit("R");
    reveal_strlit("Return");
    reveal_strlit("Right");
    reveal_strlit("T");
    reveal_strlit("Up");
    reveal_strlit("V");
    reveal_strlit("W");
    reveal_strlit("Y");
    reveal_strlit("Z");
    reveal_strlit("a");
    reveal_strlit("apostrophe");
    reveal_strlit("asciitilde");
    reveal_strlit("b");
    reveal_strlit("backslash");
    reveal_strlit("bar");
    reveal_strlit("braceleft");
    reveal_strlit("bracketleft");
    reveal_strlit("c");
    reveal_strlit("colon");
    reveal_strlit("comma");
    reveal_strlit("d");
    reveal_strlit("dollar");
    reveal_strlit("e");
    reveal_strlit("equal");
    reveal_strlit("exclam");
    reveal_strlit("f");
    reveal_strlit("g");
    reveal_strlit("h");
    reveal_strlit("i");
    reveal_strlit("j");
    reveal_strlit("k");
    reveal_strlit("l");
    reveal_strlit("m");
    reveal_strlit("minus");
    reveal_strlit("n");
    reveal_strlit("o");
    reveal_strlit("p");
    reveal_strlit("parenleft");
    reveal_strlit("period");
    reveal_strlit("plus");
    reveal_strlit("q");
    reveal_strlit("question");
    reveal_strlit("r");
    reveal_strlit("s");
    reveal_strlit("semicolon");
    reveal_strlit("slash");
    reveal_strlit("t");
    reveal_strlit("u");
    reveal_strlit("underscore");
    reveal_strlit("v");
    reveal_strlit("w");
    reveal_strlit("x");
    reveal_strlit("y");
    reveal_strlit("z");
    lemma_app_keys();
    lemma_defaults_after_app(("Escape"@, false, false, false));
    lemma_defaults_after_app(("d"@, true, false, true));
    lemma_defaults_after_app(("n"@, true, false, true));
    lemma_defaults_after_app(("E"@, true, true, false));
    lemma_defaults_after_app(("backslash"@, true, false, false));
    lemma_defaults_after_app(("equal"@, true, false, false));
    lemma_defaults_after_app(("equal"@, true, true, false));
    lemma_defaults_after_app(("minus"@, false, false, false));
    lemma_defaults_after_app(("underscore"@, false, true, false));
    lemma_defaults_after_app(("minus"@, false, true, false));
    lemma_defaults_after_app(("minus"@, false, false, true));
    lemma_defaults_after_app(("minus"@, true, false, false));
    lemma_defaults_after_app(("Return"@, false, false, false));
    lemma_defaults_after_app(("m"@, true, false, false));
    lemma_defaults_after_app(("slash"@, true, false, false));
    lemma_defaults_after_app(("slash"@, false, false, false));
    lemma_defaults_after_app(("question"@, false, false, false));
    lemma_defaults_after_app(("question"@, false, true, false));
    lemma_defaults_after_app(("slash"@, false, true, false));
    lemma_defaults_after_app(("L"@, true, true, false));
    lemma_defaults_after_app(("y"@, true, false, false));
    lemma_defaults_after_app(("y"@, true, true, false));
    lemma_defaults_after_app(("Y"@, true, true, false));
    lemma_defaults_after_app(("1"@, false, true, false));
    lemma_defaults_after_app(("1"@, false, false, false));
    lemma_defaults_after_app(("n"@, false, false, false));
    lemma_defaults_after_app(("N"@, false, false, false));
}

/// A combination that no category binds is unbound in the defaults.
proof fn lemma_defaults_unbound(k: (Seq<char>, bool, bool, bool))
    requires
        forall|j: int| 0 <= j < nav_list().len() ==> combos_differ(#[trigger] nav_list()[j].0, k),
        forall|j: int| 0 <= j < media_list().len() ==> combos_differ(#[trigger] media_list()[j].0, k),
        forall|j: int| 0 <= j < vocab_list().len() ==> combos_differ(#[trigger] vocab_list()[j].0, k),
        forall|j: int| 0 <= j < display_list().len() ==> combos_differ(#[trigger] display_list()[j].0, k),
        forall|j: int| 0 <= j < selection_list().len() ==> combos_differ(#[trigger] selection_list()[j].0, k),
        forall|j: int| 0 <= j < timestamp_list().len() ==> combos_differ(#[trigger] timestamp_list()[j].0, k),
        forall|j: int| 0 <= j < app_list().len() ==> combos_differ(#[trigger] app_list()[j].0, k),
    ensures
        !default_bindings_spec().dom().contains(k),
{
    let e = Map::<(Seq<char>, bool, bool, bool), Action>::empty();
    lemma_bindings_avoiding_key(e, nav_list(), k);
    lemma_with_bindings_concat(e, nav_list(), media_list());
    lemma_bindings_avoiding_key(with_bindings(e, nav_list()), media_list(), k);
    lemma_with_bindings_concat(e, nav_list() + media_list(), vocab_list());
    lemma_bindings_avoiding_key(with_bindings(e, nav_list() + media_list()), vocab_list(), k);
    lemma_with_bindings_concat(e, nav_list() + media_list() + vocab_list(), display_list());
    lemma_bindings_avoiding_key(with_bindings(e, nav_list() + media_list() + vocab_list()), display_list(), k);
    lemma_with_bindings_concat(e, nav_list() + media_list() + vocab_list() + display_list(), selection_list());
    lemma_bindings_avoiding_key(with_bindings(e, nav_list() + media_list() + vocab_list() + display_list()), selection_list(), k);
    lemma_with_bindings_concat(e, nav_list() + media_list() + vocab_list() + display_list() + selection_list(), timestamp_list());
    lemma_bindings_avoiding_key(with_bindings(e, nav_list() + media_list() + vocab_list() + display_list() + selection_list()), timestamp_list(), k);
    lemma_with_bindings_concat(e, nav_list() + media_list() + vocab_list() + display_list() + selection_list() + timestamp_list(), app_list());
    lemma_bindings_avoiding_key(with_bindings(e, nav_list() + media_list() + vocab_list() + display_list() + selection_list() + timestamp_list()), app_list(), k);
}

/// Key combinations the defaults leave unbound: Tab and Ctrl+Tab, Ctrl+o,
/// Ctrl+a, Ctrl+Alt+i, `_` and `#` without Shift, Shift+r (`R`), Ctrl+Alt+r,
/// Ctrl+n, Ctrl+p, Ctrl+Shift+`_`, Ctrl+Shift+`-` and Ctrl+l.
pub proof fn law_default_unbound_keys()
    ensures
        lookup_spec(default_bindings_spec(), "Tab"@, true, false, false) is None,
        lookup_spec(default_bindings_spec(), "Tab"@, false, false, false) is None,
        lookup_spec(default_bindings_spec(), "o"@, true, false, false) is None,
        lookup_spec(default_bindings_spec(), "a"@, true, false, false) is None,
        lookup_spec(default_bindings_spec(), "i"@, true, false, true) is None,
        lookup_spec(default_bindings_spec(), "underscore"@, false, false, false) is None,
        lookup_spec(default_bindings_spec(), "numbersign"@, false, false, false) is None,
        lookup_spec(default_bindings_spec(), "R"@, false, false, false) is None,
        lookup_spec(default_bindings_spec(), "r"@, true, false, true) is None,
        lookup_spec(default_bindings_spec(), "n"@, true, false, false) is None,
        lookup_spec(default_bindings_spec(), "p"@, true, false, false) is None,
        lookup_spec(default_bindings_spec(), "underscore"@, true, true, false) is None,
        lookup_spec(default_bindings_spec(), "minus"@, true, true, false) is None,
        lookup_spec(default_bindings_spec(), "l"@, true, false, false) is None,
{
    reveal_strlit("0");
    reveal_strlit("1");
    reveal_strlit("A");
    reveal_strlit("BackSpace");
    reveal_strlit("C");
    reveal_strlit("Down");
    reveal_strlit("E");
    reveal_strlit("Escape");
    reveal_strlit("F");
    reveal_strlit("G");
    reveal_strlit("I");
    reveal_strlit("J");
    reveal_strlit("K");
    reveal_strlit("L");
    reveal_strlit("Left");
    reveal_strlit("N");
    reveal_strlit("O");
    reveal_strlit("P");
    reveal_strlit("R");
    reveal_strlit("Return");
    reveal_strlit("Right");
    reveal_strlit("T");
    reveal_strlit("Tab");
    reveal_strlit("Up");
    reveal_strlit("V");
    reveal_strlit("W");
    reveal_strlit("Y");
    reveal_strlit("Z");
    reveal_strlit("a");
    reveal_strlit("apostrophe");
    reveal_strlit("asciitilde");
    reveal_strlit("b");
    reveal_strlit("backslash");
    reveal_strlit("bar");
    reveal_strlit("braceleft");
    reveal_strlit("bracketleft");
    reveal_strlit("c");
    reveal_strlit("colon");
    reveal_strlit("comma");
    reveal_strlit("d");
    reveal_strlit("dollar");
    reveal_strlit("e");
    reveal_strlit("equal");
    reveal_strlit("exclam");
    reveal_strlit("f");
    reveal_strlit("g");
    reveal_strlit("h");
    reveal_strlit("i");
    reveal_strlit("j");
    reveal_strlit("k");
    reveal_strlit("l");
    reveal_strlit("m");
    reveal_strlit("minus");
    reveal_strlit("n");
    reveal_strlit("numbersign");
    reveal_strlit("o");
    reveal_strlit("p");
    reveal_strlit("parenleft");
    reveal_strlit("period");
    reveal_strlit("plus");
    reveal_strlit("q");
    reveal_strlit("question");
    reveal_strlit("r");
    reveal_strlit("s");
    reveal_strlit("semicolon");
    reveal_strlit("slash");
    reveal_strlit("t");
    reveal_strlit("u");
    reveal_strlit("underscore");
    reveal_strlit("v");
    reveal_strlit("w");
    reveal_strlit("x");
    reveal_strlit("y");
    reveal_strlit("z");
    lemma_defaults_unbound(("Tab"@, true, false, false));
    lemma_defaults_unbound(("Tab"@, false, false, false));
    lemma_defaults_unbound(("o"@, true, false, false));
    lemma_defaults_unbound(("a"@, true, false, false));
    lemma_defaults_unbound(("i"@, true, false, true));
    lemma_defaults_unbound(("underscore"@, false, false, false));
    lemma_defaults_unbound(("numbersign"@, false, false, false));
    lemma_defaults_unbound(("R"@, false, false, false));
    lemma_defaults_unbound(("r"@, true, false, true));
    lemma_defaults_unbound(("n"@, true, false, false));
    lemma_defaults_unbound(("p"@, true, false, false));
    lemma_defaults_unbound(("underscore"@, true, true, false));
    lemma_defaults_unbound(("minus"@, true, true, false));
    lemma_defaults_unbound(("l"@, true, false, false));
}

} // verus!
