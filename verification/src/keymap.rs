//! Key-event state kept between presses: pending two-key chords (`gg`, `g;`,
//! `rr`, `..`, BackSpace BackSpace) and the lone-Shift tap that deletes, then
//! restores, the cursor line's timestamp. Also the small key translations the
//! overlays and vim surfaces share.

use vstd::prelude::*;
use crate::actions::Action;
use crate::keymap_config::{lookup_spec, Keymap};
use crate::text::str_eq;

verus! {

/// How long a chord stays armed, in milliseconds.
pub const CHORD_TIMEOUT_MS: u64 = 500;

/// Two Esc presses closer than this (milliseconds) make a double Esc.
pub const DOUBLE_ESC_MS: u64 = 400;

/// The first key of a two-key chord, when one is pending.
#[derive(Clone, Copy, Debug, PartialEq, Eq, Structural)]
pub enum ChordState {
    Idle,
    /// `g` was pressed: a second `g` jumps to the start, `;` to the most
    /// recent bookmark.
    PendingG,
    /// First tap of the overloaded `r`: a second `r` toggles the vocab popup.
    PendingR,
    /// First tap of the overloaded `.`: a second `.` reverts the bookmark
    /// toggle and opens the picker.
    PendingPeriod,
    /// First tap of the overloaded BackSpace: a second one deletes the line's
    /// timestamp.
    PendingBackspace,
}

impl Default for ChordState {
    fn default() -> (r: Self)
        ensures
            r == ChordState::Idle,
    {
        ChordState::Idle
    }
}

/// What the second key of a chord completes to.
#[derive(Clone, Copy, Debug, PartialEq, Eq, Structural)]
pub enum ChordCompletion {
    /// No chord was pending, or this key does not complete it: the key goes
    /// on to the normal dispatch.
    NoMatch,
    /// `rr`: toggle the vocab popup.
    VocabToggle,
    /// `gg`: jump to the start (or extend a visual selection to it).
    JumpToStart,
    /// `g;`: jump to the most recently created bookmark.
    RecentBookmark,
    /// `..`: revert the bookmark toggle and open the bookmark picker.
    BookmarkPicker,
    /// BackSpace BackSpace: delete the cursor line's timestamp.
    DeleteTimestamp,
}

/// What a Shift release asks for.
#[derive(Clone, Copy, Debug, PartialEq, Eq, Structural)]
pub enum ShiftTap {
    /// Not a lone Shift tap in the reader: nothing happens.
    Ignored,
    /// First tap on a line: delete its timestamp, then report with
    /// `record_shift_delete`.
    Delete,
    /// Second tap on the line whose timestamp the previous tap deleted:
    /// restore it.
    Undo,
}

/// Key state carried between key events.
#[derive(Clone, Copy, Debug, PartialEq, Eq, Structural)]
pub struct KeyState {
    pub chord: ChordState,
    /// A Shift key is held and no other key has been pressed during the hold.
    pub shift_tap_armed: bool,
    /// The line whose timestamp the most recent Shift tap deleted.
    pub shift_deleted_line: Option<usize>,
}

impl Default for KeyState {
    fn default() -> (r: Self)
        ensures
            r.chord == ChordState::Idle,
            !r.shift_tap_armed,
            r.shift_deleted_line is None,
    {
        KeyState { chord: ChordState::Idle, shift_tap_armed: false, shift_deleted_line: None }
    }
}

/// `Shift_L` or `Shift_R`.
pub open spec fn is_shift_key(key: Seq<char>) -> bool {
    key == "Shift_L"@ || key == "Shift_R"@
}

fn shift_key(key: &str) -> (r: bool)
    ensures
        r == is_shift_key(key@),
{
    str_eq(key, "Shift_L") || str_eq(key, "Shift_R")
}

/// The key state after a key press (before any chord or dispatch), and
/// whether the press is consumed there: a bare Shift press in the reader arms
/// the tap and is consumed (its release acts); in another mode it disarms.
/// Any other key disarms the tap and forgets the deleted line.
pub open spec fn press_spec(ks: KeyState, key: Seq<char>, reader: bool) -> (KeyState, bool) {
    if is_shift_key(key) {
        (KeyState { shift_tap_armed: reader, ..ks }, reader)
    } else {
        (KeyState { shift_tap_armed: false, shift_deleted_line: None, ..ks }, false)
    }
}

/// The key state after a key release, and what it asks for: only a Shift
/// release that is still armed, in the reader, is a tap; a tap on the line
/// the previous tap deleted from asks to undo (and forgets the line).
pub open spec fn release_spec(ks: KeyState, key: Seq<char>, reader: bool, line: usize) -> (KeyState, ShiftTap) {
    if !is_shift_key(key) {
        (ks, ShiftTap::Ignored)
    } else if !ks.shift_tap_armed || !reader {
        (KeyState { shift_tap_armed: false, ..ks }, ShiftTap::Ignored)
    } else if ks.shift_deleted_line == Some(line) {
        (KeyState { shift_tap_armed: false, shift_deleted_line: None, ..ks }, ShiftTap::Undo)
    } else {
        (KeyState { shift_tap_armed: false, ..ks }, ShiftTap::Delete)
    }
}

/// The state after a delete was attempted on `line`.
pub open spec fn record_spec(ks: KeyState, deleted: bool, line: usize) -> KeyState {
    KeyState { shift_deleted_line: if deleted { Some(line) } else { None }, ..ks }
}

/// What the key completes when `pending` is the pending chord.
pub open spec fn completion_spec(pending: ChordState, key: Seq<char>, ctrl: bool, shift: bool, alt: bool) -> ChordCompletion {
    let plain = !ctrl && !shift && !alt;
    match pending {
        ChordState::Idle => ChordCompletion::NoMatch,
        ChordState::PendingR => if key == "r"@ && plain { ChordCompletion::VocabToggle } else { ChordCompletion::NoMatch },
        ChordState::PendingG => if key == "g"@ {
            ChordCompletion::JumpToStart
        } else if key == "semicolon"@ {
            ChordCompletion::RecentBookmark
        } else {
            ChordCompletion::NoMatch
        },
        ChordState::PendingPeriod => if key == "period"@ && plain { ChordCompletion::BookmarkPicker } else { ChordCompletion::NoMatch },
        ChordState::PendingBackspace => if key == "BackSpace"@ && plain {
            ChordCompletion::DeleteTimestamp
        } else {
            ChordCompletion::NoMatch
        },
    }
}

impl KeyState {
    /// Arms `chord`. The chord lapses after `CHORD_TIMEOUT_MS`: the caller
    /// schedules `expire_chord(chord)` for then.
    pub fn start_chord(&mut self, chord: ChordState)
        ensures
            *final(self) == (KeyState { chord, ..*old(self) }),
    {
        self.chord = chord;
    }

    /// The chord timeout: clears the pending chord if it is still `chord`
    /// (a newer chord, or none, is left alone).
    pub fn expire_chord(&mut self, chord: ChordState)
        ensures
            *final(self) == (if old(self).chord == chord {
                KeyState { chord: ChordState::Idle, ..*old(self) }
            } else {
                *old(self)
            }),
    {
        if self.chord == chord {
            self.chord = ChordState::Idle;
        }
    }

    /// Shift-tap bookkeeping on a key press (see `press_spec`); `reader` is
    /// whether the reader mode is active. Returns whether the press is
    /// consumed.
    pub fn note_press(&mut self, key: &str, reader: bool) -> (consumed: bool)
        ensures
            (*final(self), consumed) == press_spec(*old(self), key@, reader),
    {
        if shift_key(key) {
            self.shift_tap_armed = reader;
            reader
        } else {
            self.shift_tap_armed = false;
            self.shift_deleted_line = None;
            false
        }
    }

    /// Shift-tap decision on a key release (see `release_spec`); `line` is
    /// the cursor line.
    pub fn note_release(&mut self, key: &str, reader: bool, line: usize) -> (r: ShiftTap)
        ensures
            (*final(self), r) == release_spec(*old(self), key@, reader, line),
    {
        if !shift_key(key) {
            return ShiftTap::Ignored;
        }
        let armed = self.shift_tap_armed;
        self.shift_tap_armed = false;
        if !armed || !reader {
            return ShiftTap::Ignored;
        }
        let here = match self.shift_deleted_line {
            Some(l) => l == line,
            None => false,
        };
        if here {
            self.shift_deleted_line = None;
            ShiftTap::Undo
        } else {
            ShiftTap::Delete
        }
    }

    /// Records the outcome of a Shift-tap delete on `line`: remembered when
    /// a timestamp was deleted, forgotten otherwise.
    pub fn record_shift_delete(&mut self, deleted: bool, line: usize)
        ensures
            *final(self) == record_spec(*old(self), deleted, line),
    {
        self.shift_deleted_line = if deleted { Some(line) } else { None };
    }

    /// Consumes the pending chord, if any, and says what this key completes.
    /// A pending chord is cleared whatever the key.
    pub fn take_chord(&mut self, key: &str, ctrl: bool, shift: bool, alt: bool) -> (r: ChordCompletion)
        ensures
            *final(self) == (KeyState { chord: ChordState::Idle, ..*old(self) }),
            r == completion_spec(old(self).chord, key@, ctrl, shift, alt),
    {
        let pending = self.chord;
        self.chord = ChordState::Idle;
        complete_chord(pending, key, ctrl, shift, alt)
    }
}

/// What the key completes when `pending` is the pending chord.
pub fn complete_chord(pending: ChordState, key: &str, ctrl: bool, shift: bool, alt: bool) -> (r: ChordCompletion)
    ensures
        r == completion_spec(pending, key@, ctrl, shift, alt),
{
    let plain = !ctrl && !shift && !alt;
    match pending {
        ChordState::Idle => ChordCompletion::NoMatch,
        ChordState::PendingR => if str_eq(key, "r") && plain {
            ChordCompletion::VocabToggle
        } else {
            ChordCompletion::NoMatch
        },
        ChordState::PendingG => if str_eq(key, "g") {
            ChordCompletion::JumpToStart
        } else if str_eq(key, "semicolon") {
            ChordCompletion::RecentBookmark
        } else {
            ChordCompletion::NoMatch
        },
        ChordState::PendingPeriod => if str_eq(key, "period") && plain {
            ChordCompletion::BookmarkPicker
        } else {
            ChordCompletion::NoMatch
        },
        ChordState::PendingBackspace => if str_eq(key, "BackSpace") && plain {
            ChordCompletion::DeleteTimestamp
        } else {
            ChordCompletion::NoMatch
        },
    }
}

/// The chord an action arms when dispatched: the overloaded `.`, `r` and
/// BackSpace taps arm their double-tap chords, and `g` arms `PendingG`
/// unless the vocab popup is showing (there `g` toggles the popup's view).
pub open spec fn armed_chord_spec(action: Action, vocab_popup_visible: bool) -> ChordState {
    match action {
        Action::BookmarkTap => ChordState::PendingPeriod,
        Action::VocabPopupTap => ChordState::PendingR,
        Action::DeleteTimestampTap => ChordState::PendingBackspace,
        Action::PendingG => if vocab_popup_visible { ChordState::Idle } else { ChordState::PendingG },
        _ => ChordState::Idle,
    }
}

/// The chord `action` arms (`ChordState::Idle` when it arms none).
pub fn armed_chord(action: Action, vocab_popup_visible: bool) -> (r: ChordState)
    ensures
        r == armed_chord_spec(action, vocab_popup_visible),
{
    match action {
        Action::BookmarkTap => ChordState::PendingPeriod,
        Action::VocabPopupTap => ChordState::PendingR,
        Action::DeleteTimestampTap => ChordState::PendingBackspace,
        Action::PendingG => if vocab_popup_visible { ChordState::Idle } else { ChordState::PendingG },
        _ => ChordState::Idle,
    }
}

/// Ctrl+Shift+L (reported as `L`, or `l` on layouts that give the unshifted
/// name): save the position and quit, from any mode.
pub fn is_quit_chord(key: &str, ctrl: bool, shift: bool) -> (r: bool)
    ensures
        r == (shift && ctrl && (key@ == "L"@ || key@ == "l"@)),
{
    shift && ctrl && (str_eq(key, "L") || str_eq(key, "l"))
}

/// A step of the `-` family in the overlays' word copy.
#[derive(Clone, Copy, Debug, PartialEq, Eq, Structural)]
pub enum WordStep {
    Back,
    NextSentence,
    Collect,
    Forward,
}

/// The `-`-family step of a key: the shifted cap (`underscore`, or `minus`
/// with Shift alone) steps back, Ctrl+`minus` jumps to the next sentence,
/// Alt+`minus` collects, a bare `minus` steps forward.
pub open spec fn word_step_spec(key: Seq<char>, ctrl: bool, shift: bool, alt: bool) -> Option<WordStep> {
    if key == "underscore"@ {
        Some(WordStep::Back)
    } else if key == "minus"@ {
        if shift && !ctrl && !alt {
            Some(WordStep::Back)
        } else if ctrl && !alt {
            Some(WordStep::NextSentence)
        } else if alt && !ctrl {
            Some(WordStep::Collect)
        } else if !ctrl && !alt {
            Some(WordStep::Forward)
        } else {
            None
        }
    } else {
        None
    }
}

/// The `-`-family step of a key, or `None` when the key is not one.
pub fn overlay_word_step(key: &str, ctrl: bool, shift: bool, alt: bool) -> (r: Option<WordStep>)
    ensures
        r == word_step_spec(key@, ctrl, shift, alt),
{
    if str_eq(key, "underscore") {
        Some(WordStep::Back)
    } else if str_eq(key, "minus") {
        if shift && !ctrl && !alt {
            Some(WordStep::Back)
        } else if ctrl && !alt {
            Some(WordStep::NextSentence)
        } else if alt && !ctrl {
            Some(WordStep::Collect)
        } else if !ctrl && !alt {
            Some(WordStep::Forward)
        } else {
            None
        }
    } else {
        None
    }
}

/// A key as the vim editing surfaces take it.
#[derive(Clone, Copy, Debug, PartialEq, Eq, Structural)]
pub enum VimKey {
    Enter,
    Backspace,
    Tab,
    CtrlR,
    Char(char),
}

/// A control character (general category Cc): U+0000 to U+001F and U+007F
/// to U+009F.
pub open spec fn is_control_spec(c: char) -> bool {
    (c as u32) <= 0x1f || (0x7f <= (c as u32) && (c as u32) <= 0x9f)
}

fn is_control(c: char) -> (r: bool)
    ensures
        r == is_control_spec(c),
{
    let n = c as u32;
    n <= 0x1f || (0x7f <= n && n <= 0x9f)
}

/// The vim key of a toolkit key event (`None`: not editor input). Esc is
/// left to the caller's double-Esc timing.
pub open spec fn vim_key_spec(key: Seq<char>, key_char: Option<char>, ctrl: bool) -> Option<VimKey> {
    if key == "Return"@ || key == "KP_Enter"@ {
        Some(VimKey::Enter)
    } else if key == "BackSpace"@ {
        Some(VimKey::Backspace)
    } else if key == "Tab"@ || key == "ISO_Left_Tab"@ {
        Some(VimKey::Tab)
    } else if (key == "r"@ || key == "R"@) && ctrl {
        Some(VimKey::CtrlR)
    } else if ctrl {
        None
    } else {
        match key_char {
            Some(c) => if is_control_spec(c) { None } else { Some(VimKey::Char(c)) },
            None => None,
        }
    }
}

/// Translates a key name, its printable character and Ctrl into a vim key.
pub fn gtk_key_to_vim(key: &str, key_char: Option<char>, ctrl: bool) -> (r: Option<VimKey>)
    ensures
        r == vim_key_spec(key@, key_char, ctrl),
{
    if str_eq(key, "Return") || str_eq(key, "KP_Enter") {
        Some(VimKey::Enter)
    } else if str_eq(key, "BackSpace") {
        Some(VimKey::Backspace)
    } else if str_eq(key, "Tab") || str_eq(key, "ISO_Left_Tab") {
        Some(VimKey::Tab)
    } else if (str_eq(key, "r") || str_eq(key, "R")) && ctrl {
        Some(VimKey::CtrlR)
    } else if ctrl {
        None
    } else {
        match key_char {
            Some(c) => if is_control(c) { None } else { Some(VimKey::Char(c)) },
            None => None,
        }
    }
}

/// The double-Esc gesture of the vim editors: the time of the last Esc that
/// did not complete a double.
#[derive(Clone, Copy, Debug, PartialEq, Eq, Structural)]
pub struct EscTimer {
    pub last_ms: Option<u64>,
}

impl EscTimer {
    pub fn new() -> (r: Self)
        ensures
            r.last_ms is None,
    {
        EscTimer { last_ms: None }
    }

    /// An Esc at `now_ms` (milliseconds on a monotonic clock): a double when
    /// the previous one was less than `DOUBLE_ESC_MS` earlier (a clock that
    /// went backwards counts as no time passing). A double resets the timer;
    /// otherwise this Esc becomes the previous one.
    pub fn press(&mut self, now_ms: u64) -> (double: bool)
        ensures
            double == (match old(self).last_ms {
                Some(p) => (if now_ms >= p { now_ms - p } else { 0 }) < DOUBLE_ESC_MS,
                None => false,
            }),
            final(self).last_ms == (if double { None } else { Some(now_ms) }),
    {
        let double = match self.last_ms {
            Some(p) => {
                let elapsed = if now_ms >= p { now_ms - p } else { 0 };
                elapsed < DOUBLE_ESC_MS
            },
            None => false,
        };
        self.last_ms = if double { None } else { Some(now_ms) };
        double
    }
}

// ---------------------------------------------------------------------------
// Routing a key press
// ---------------------------------------------------------------------------

/// The reader's input modes: the main card, and each overlay, picker and
/// editor that takes the keys while it is open.
#[derive(Clone, Copy, Debug, PartialEq, Eq, Structural)]
pub enum InputMode {
    Reader,
    LibraryPicker,
    BookmarkPicker,
    MediaPicker,
    ConcordancePicker,
    ConcordanceWordPicker,
    EchoLinePicker,
    ConcordanceListPicker,
    ConcordanceWorksPicker,
    AuthorshipPicker,
    JournalPicker,
    JournalMovePicker,
    JournalTermInput,
    RecentQaPicker,
    GlossPicker,
    Settings,
    VocabLoop,
    VoicePicker,
    Search,
    OverlaySearchInput,
    GlossOverlay,
    GlossVisual,
    JournalOverlay,
    JournalEdit,
    GlossEdit,
    SegmentVim,
    AddVocab,
    JournalVisual,
    SynopsisOverlay,
    SynopsisVisual,
    TranslationOverlay,
    DeleteConfirm,
    UndoConfirm,
    RewriteTargetChoice,
    EchoPicker,
    EchoTurnsPicker,
    EchoesOverlay,
    GamepadOverlay,
    KeybindsOverlay,
    EchoKeybindsOverlay,
    GlossKeybindsOverlay,
    SynopsisKeybindsOverlay,
    JournalKeybindsOverlay,
    ChatKeybindsOverlay,
    ActionPopup,
    Visual,
    PageCalibration,
    ChatPrompt,
    ChatTranscript,
    CorpusSearch,
}

/// Modes whose editor takes every key (space included).
pub open spec fn owns_all_keys(mode: InputMode) -> bool {
    mode == InputMode::JournalEdit || mode == InputMode::GlossEdit || mode == InputMode::SegmentVim
        || mode == InputMode::AddVocab
}

/// Where the vocab popup's `rr` toggle takes its words from.
#[derive(Clone, Copy, Debug, PartialEq, Eq, Structural)]
pub enum VocabSurface {
    /// The reader's cursor line.
    Reader,
    /// The gloss overlay's cursor block.
    Gloss,
    /// The journal overlay's cursor block.
    Journal,
    /// The chat transcript.
    Chat,
}

/// Where a key press goes.
#[derive(Clone, Copy, Debug, PartialEq, Eq, Structural)]
pub enum KeyRoute {
    /// A bare Shift press in the reader: consumed, its release acts.
    ShiftArmed,
    /// Ctrl+Shift+L: save the position and quit.
    Quit,
    /// The mode's editor takes the key.
    Editor(InputMode),
    /// Not consumed: a text field types the space.
    TypeSpace,
    /// Space in the reader: play from the cursor line's start.
    PlayCurrentLine,
    /// Dispatch this bound action.
    Dispatch(Action),
    /// `rr`: toggle the vocab popup over this surface's words.
    VocabToggle(VocabSurface),
    /// Ctrl+`$` outside the reader: cycle the root variant (backward with
    /// Shift or Alt).
    CycleRootVariant { forward: bool },
    /// The mode's own key handler takes the key.
    ModeHandler(InputMode),
    /// Tab in the reader with the chat panel open: focus the prompt (when
    /// its input is open) or the transcript.
    FocusChat { prompt: bool },
    /// The second key of a reader chord.
    Chord(ChordCompletion),
    /// Not consumed.
    Unhandled,
}

/// A theme action (reachable from every mode).
pub open spec fn is_theme_action(a: Action) -> bool {
    a == Action::ThemeNext || a == Action::ThemePrev || a == Action::ShowThemeInfo
}

/// The vocab surface of a mode for `rr`, if it has one.
pub open spec fn vocab_surface_of(mode: InputMode) -> Option<VocabSurface> {
    match mode {
        InputMode::Reader => Some(VocabSurface::Reader),
        InputMode::GlossOverlay => Some(VocabSurface::Gloss),
        InputMode::JournalOverlay => Some(VocabSurface::Journal),
        InputMode::ChatTranscript => Some(VocabSurface::Chat),
        _ => None,
    }
}

/// The routing of a key press after the Shift bookkeeping, quit and editor
/// checks (see `route_spec`), from key state `ks`.
pub open spec fn route_after_editors(
    ks: KeyState,
    mode: InputMode,
    key: Seq<char>,
    ctrl: bool,
    shift: bool,
    alt: bool,
    focus_editable: bool,
    chat_panel_open: bool,
    chat_input_open: bool,
    bound: Option<Action>,
) -> (KeyState, KeyRoute) {
    let plain = !ctrl && !shift && !alt;
    if key == "space"@ && plain && (mode == InputMode::Search || focus_editable) {
        (ks, KeyRoute::TypeSpace)
    } else if key == "space"@ && plain && mode == InputMode::Reader {
        (ks, KeyRoute::PlayCurrentLine)
    } else if bound matches Some(a) && is_theme_action(a) {
        (ks, KeyRoute::Dispatch(bound->0))
    } else {
        let (ks2, rr) = if ks.chord == ChordState::PendingR {
            (KeyState { chord: ChordState::Idle, ..ks }, key == "r"@ && plain)
        } else {
            (ks, false)
        };
        if rr && vocab_surface_of(mode) is Some {
            (ks2, KeyRoute::VocabToggle(vocab_surface_of(mode)->0))
        } else if mode != InputMode::Reader {
            if ctrl && key == "dollar"@ {
                (ks2, KeyRoute::CycleRootVariant { forward: !(shift || alt) })
            } else {
                (ks2, KeyRoute::ModeHandler(mode))
            }
        } else if (key == "Tab"@ || key == "ISO_Left_Tab"@) && plain && chat_panel_open {
            (ks2, KeyRoute::FocusChat { prompt: chat_input_open })
        } else {
            let ks3 = KeyState { chord: ChordState::Idle, ..ks2 };
            let c = completion_spec(ks2.chord, key, ctrl, shift, alt);
            if c != ChordCompletion::NoMatch {
                (ks3, KeyRoute::Chord(c))
            } else {
                match bound {
                    Some(a) => (ks3, KeyRoute::Dispatch(a)),
                    None => (ks3, KeyRoute::Unhandled),
                }
            }
        }
    }
}

/// Where a key press goes, and the key state after it, in the order the
/// reader checks: the Shift-tap bookkeeping (a bare Shift in the reader is
/// consumed), the quit chord (from any mode), the editors that own every key,
/// space (typed into a text field, or played in the reader), the theme
/// actions (from any mode), a pending `rr`, then the mode's own handler (with
/// Ctrl+`$` global), and in the reader the chat-panel Tab, a pending chord,
/// and the key's binding. `bound` is what the keymap binds the key to.
pub open spec fn route_spec(
    ks: KeyState,
    mode: InputMode,
    key: Seq<char>,
    ctrl: bool,
    shift: bool,
    alt: bool,
    focus_editable: bool,
    chat_panel_open: bool,
    chat_input_open: bool,
    bound: Option<Action>,
) -> (KeyState, KeyRoute) {
    let (ks1, consumed) = press_spec(ks, key, mode == InputMode::Reader);
    if consumed {
        (ks1, KeyRoute::ShiftArmed)
    } else if shift && ctrl && (key == "L"@ || key == "l"@) {
        (ks1, KeyRoute::Quit)
    } else if owns_all_keys(mode) {
        (ks1, KeyRoute::Editor(mode))
    } else {
        route_after_editors(ks1, mode, key, ctrl, shift, alt, focus_editable, chat_panel_open, chat_input_open, bound)
    }
}

/// Routes a key press (see `route_spec`); `focus_editable` is whether a text
/// field has the focus, and the chat flags say whether the chat panel and
/// its input are open.
pub fn route_key(
    ks: &mut KeyState,
    keymap: &Keymap,
    mode: InputMode,
    key: &str,
    ctrl: bool,
    shift: bool,
    alt: bool,
    focus_editable: bool,
    chat_panel_open: bool,
    chat_input_open: bool,
) -> (r: KeyRoute)
    requires
        keymap.reader.wf(),
    ensures
        (*final(ks), r) == route_spec(*old(ks), mode, key@, ctrl, shift, alt, focus_editable, chat_panel_open,
            chat_input_open, lookup_spec(keymap.reader@, key@, ctrl, shift, alt)),
{
    let reader = mode == InputMode::Reader;
    if ks.note_press(key, reader) {
        return KeyRoute::ShiftArmed;
    }
    if is_quit_chord(key, ctrl, shift) {
        return KeyRoute::Quit;
    }
    if mode == InputMode::JournalEdit || mode == InputMode::GlossEdit || mode == InputMode::SegmentVim
        || mode == InputMode::AddVocab {
        return KeyRoute::Editor(mode);
    }
    let plain = !ctrl && !shift && !alt;
    let space = str_eq(key, "space");
    if space && plain && (mode == InputMode::Search || focus_editable) {
        return KeyRoute::TypeSpace;
    }
    if space && plain && reader {
        return KeyRoute::PlayCurrentLine;
    }
    let bound = keymap.lookup(key, ctrl, shift, alt);
    match bound {
        Some(a) => {
            if a == Action::ThemeNext || a == Action::ThemePrev || a == Action::ShowThemeInfo {
                return KeyRoute::Dispatch(a);
            }
        },
        None => {},
    }
    let mut rr = false;
    if ks.chord == ChordState::PendingR {
        ks.chord = ChordState::Idle;
        rr = str_eq(key, "r") && plain;
    }
    if rr {
        match mode {
            InputMode::Reader => {
                return KeyRoute::VocabToggle(VocabSurface::Reader);
            },
            InputMode::GlossOverlay => {
                return KeyRoute::VocabToggle(VocabSurface::Gloss);
            },
            InputMode::JournalOverlay => {
                return KeyRoute::VocabToggle(VocabSurface::Journal);
            },
            InputMode::ChatTranscript => {
                return KeyRoute::VocabToggle(VocabSurface::Chat);
            },
            _ => {},
        }
    }
    if !reader {
        if ctrl && str_eq(key, "dollar") {
            return KeyRoute::CycleRootVariant { forward: !(shift || alt) };
        }
        return KeyRoute::ModeHandler(mode);
    }
    if (str_eq(key, "Tab") || str_eq(key, "ISO_Left_Tab")) && plain && chat_panel_open {
        return KeyRoute::FocusChat { prompt: chat_input_open };
    }
    let c = ks.take_chord(key, ctrl, shift, alt);
    match c {
        ChordCompletion::NoMatch => {},
        _ => {
            return KeyRoute::Chord(c);
        },
    }
    match bound {
        Some(a) => KeyRoute::Dispatch(a),
        None => KeyRoute::Unhandled,
    }
}

// ---------------------------------------------------------------------------
// Laws
// ---------------------------------------------------------------------------

/// A lone Shift tap in the reader on a line asks to delete its timestamp;
/// once that delete is recorded, a second lone tap on the same line asks to
/// undo it, and afterwards the line is forgotten.
pub proof fn law_shift_tap_twice_undoes(ks: KeyState, left: Seq<char>, line: usize)
    requires
        is_shift_key(left),
        ks.shift_deleted_line != Some(line),
    ensures
        ({
            let (a, _) = press_spec(ks, left, true);
            let (b, first) = release_spec(a, left, true, line);
            let c = record_spec(b, true, line);
            let (d, _) = press_spec(c, left, true);
            let (e, second) = release_spec(d, left, true, line);
            &&& first == ShiftTap::Delete
            &&& second == ShiftTap::Undo
            &&& e.shift_deleted_line is None
            &&& !e.shift_tap_armed
        }),
{
}

/// Pressing any other key while Shift is held makes it a modifier chord: the
/// Shift release then asks for nothing, and a previously deleted line is
/// forgotten, so the next tap is a fresh delete.
pub proof fn law_shift_chord_is_not_a_tap(ks: KeyState, left: Seq<char>, other: Seq<char>, line: usize)
    requires
        is_shift_key(left),
        !is_shift_key(other),
    ensures
        ({
            let (a, _) = press_spec(ks, left, true);
            let (b, _) = press_spec(a, other, true);
            let (c, r) = release_spec(b, left, true, line);
            &&& r == ShiftTap::Ignored
            &&& c.shift_deleted_line is None
            &&& !c.shift_tap_armed
        }),
{
}

/// Outside the reader a Shift tap never asks for anything.
pub proof fn law_shift_tap_reader_only(ks: KeyState, key: Seq<char>, line: usize)
    ensures
        release_spec(ks, key, false, line).1 == ShiftTap::Ignored,
{
}

/// Ctrl+Shift+L quits from every mode (the editors and overlays included),
/// whatever the key state.
pub proof fn law_quit_from_any_mode(
    ks: KeyState,
    mode: InputMode,
    key: Seq<char>,
    alt: bool,
    focus_editable: bool,
    chat_panel_open: bool,
    chat_input_open: bool,
    bound: Option<Action>,
)
    requires
        key == "L"@ || key == "l"@,
    ensures
        route_spec(ks, mode, key, true, true, alt, focus_editable, chat_panel_open, chat_input_open, bound).1
            == KeyRoute::Quit,
{
    reveal_strlit("L");
    reveal_strlit("l");
    reveal_strlit("Shift_L");
    reveal_strlit("Shift_R");
    assert(key.len() == 1);
    assert("Shift_L"@.len() == 7 && "Shift_R"@.len() == 7);
    assert(!is_shift_key(key));
}

/// An editor that owns the keys takes every key but the Shift keys and the
/// quit chord, space included.
pub proof fn law_editors_own_every_key(
    ks: KeyState,
    mode: InputMode,
    key: Seq<char>,
    ctrl: bool,
    shift: bool,
    alt: bool,
    focus_editable: bool,
    chat_panel_open: bool,
    chat_input_open: bool,
    bound: Option<Action>,
)
    requires
        owns_all_keys(mode),
        !is_shift_key(key),
        !(shift && ctrl && (key == "L"@ || key == "l"@)),
    ensures
        route_spec(ks, mode, key, ctrl, shift, alt, focus_editable, chat_panel_open, chat_input_open, bound).1
            == KeyRoute::Editor(mode),
{
}

/// The theme actions work from every mode but the editors: a key the keymap
/// binds to one dispatches it (unless it is a Shift key, the quit chord, or
/// a plain space).
pub proof fn law_theme_keys_work_everywhere(
    ks: KeyState,
    mode: InputMode,
    key: Seq<char>,
    ctrl: bool,
    shift: bool,
    alt: bool,
    focus_editable: bool,
    chat_panel_open: bool,
    chat_input_open: bool,
    a: Action,
)
    requires
        !owns_all_keys(mode),
        is_theme_action(a),
        !is_shift_key(key),
        !(shift && ctrl && (key == "L"@ || key == "l"@)),
        key != "space"@,
    ensures
        route_spec(ks, mode, key, ctrl, shift, alt, focus_editable, chat_panel_open, chat_input_open, Some(a)).1
            == KeyRoute::Dispatch(a),
{
}

/// The playback-sync switch, and the value it will restore when a
/// concordance session (which suspends sync) ends.
#[derive(Clone, Copy, Debug, PartialEq, Eq, Structural)]
pub struct PlaybackSync {
    pub enabled: bool,
    /// Set while a concordance session is running.
    pub before_concordance: Option<bool>,
}

/// The switch after one toggle: flipped, and a running concordance session
/// records the new value as the one to restore.
pub open spec fn sync_toggled(s: PlaybackSync) -> PlaybackSync {
    PlaybackSync {
        enabled: !s.enabled,
        before_concordance: if s.before_concordance is Some { Some(!s.enabled) } else { None },
    }
}

impl PlaybackSync {
    /// Flips the sync (see `sync_toggled`). Returns the new value: when it is
    /// `true`, any pending suppression of sync is lifted.
    pub fn toggle(&mut self) -> (enabled: bool)
        ensures
            *final(self) == sync_toggled(*old(self)),
            enabled == final(self).enabled,
    {
        self.enabled = !self.enabled;
        if self.before_concordance.is_some() {
            self.before_concordance = Some(self.enabled);
        }
        self.enabled
    }
}

/// Toggling the playback sync twice restores the switch; it restores the
/// whole state unless a concordance session recorded a value other than the
/// current one (which then becomes the current one).
pub proof fn law_sync_toggle_twice_restores(s: PlaybackSync)
    ensures
        sync_toggled(sync_toggled(s)).enabled == s.enabled,
        (s.before_concordance is None || s.before_concordance == Some(s.enabled))
            ==> sync_toggled(sync_toggled(s)) == s,
{
}


/// A pending chord completes only with its own second key: `g` then `g`
/// jumps to the start and `g` then `;` to the most recent bookmark; `r`,
/// `.` and BackSpace complete only with themselves, pressed without
/// modifiers. Every other key (and any key with no chord pending) completes
/// nothing.
pub proof fn law_chord_completes_only_with_its_second_key(
    pending: ChordState,
    key: Seq<char>,
    ctrl: bool,
    shift: bool,
    alt: bool,
)
    ensures
        ({
            let c = completion_spec(pending, key, ctrl, shift, alt);
            let plain = !ctrl && !shift && !alt;
            &&& pending == ChordState::Idle ==> c == ChordCompletion::NoMatch
            &&& pending == ChordState::PendingG && c != ChordCompletion::NoMatch ==> (key == "g"@
                && c == ChordCompletion::JumpToStart) || (key == "semicolon"@ && c == ChordCompletion::RecentBookmark)
            &&& pending == ChordState::PendingR && c != ChordCompletion::NoMatch ==> key == "r"@ && plain
                && c == ChordCompletion::VocabToggle
            &&& pending == ChordState::PendingPeriod && c != ChordCompletion::NoMatch ==> key == "period"@ && plain
                && c == ChordCompletion::BookmarkPicker
            &&& pending == ChordState::PendingBackspace && c != ChordCompletion::NoMatch ==> key == "BackSpace"@
                && plain && c == ChordCompletion::DeleteTimestamp
        }),
{
}

/// Each chord completes with its second key: `gg` and `g;` whatever the
/// modifiers, `rr`, `..` and a double BackSpace when pressed plainly.
pub proof fn law_chord_second_key_completes(ctrl: bool, shift: bool, alt: bool)
    ensures
        completion_spec(ChordState::PendingG, "g"@, ctrl, shift, alt) == ChordCompletion::JumpToStart,
        completion_spec(ChordState::PendingG, "semicolon"@, ctrl, shift, alt) == ChordCompletion::RecentBookmark,
        !ctrl && !shift && !alt ==> completion_spec(ChordState::PendingR, "r"@, ctrl, shift, alt)
            == ChordCompletion::VocabToggle,
        !ctrl && !shift && !alt ==> completion_spec(ChordState::PendingPeriod, "period"@, ctrl, shift, alt)
            == ChordCompletion::BookmarkPicker,
        !ctrl && !shift && !alt ==> completion_spec(ChordState::PendingBackspace, "BackSpace"@, ctrl, shift, alt)
            == ChordCompletion::DeleteTimestamp,
{
    reveal_strlit("g");
    reveal_strlit("semicolon");
    assert("g"@.len() == 1 && "semicolon"@.len() == 9);
    assert("semicolon"@ != "g"@);
}

/// With `g` pending, no key but `g` or `;` is routed as a chord, in any
/// mode and whatever else holds.
pub proof fn law_pending_g_routes_no_other_chord(
    ks: KeyState,
    mode: InputMode,
    key: Seq<char>,
    ctrl: bool,
    shift: bool,
    alt: bool,
    focus_editable: bool,
    chat_panel_open: bool,
    chat_input_open: bool,
    bound: Option<Action>,
)
    requires
        ks.chord == ChordState::PendingG,
    ensures
        route_spec(ks, mode, key, ctrl, shift, alt, focus_editable, chat_panel_open, chat_input_open, bound).1
            matches KeyRoute::Chord(c) ==> (key == "g"@ && c == ChordCompletion::JumpToStart) || (key
            == "semicolon"@ && c == ChordCompletion::RecentBookmark),
{
}

/// In the reader with `g` pending, any other key (not a Shift key, the quit
/// chord, space, or Tab towards an open chat panel) clears the chord and
/// falls through to its binding: the bound action is dispatched, and an
/// unbound key is left unhandled. (A theme key is dispatched without
/// touching the chord.)
pub proof fn law_pending_g_other_key_falls_through(
    ks: KeyState,
    key: Seq<char>,
    ctrl: bool,
    shift: bool,
    alt: bool,
    focus_editable: bool,
    chat_panel_open: bool,
    chat_input_open: bool,
    bound: Option<Action>,
)
    requires
        ks.chord == ChordState::PendingG,
        key != "g"@,
        key != "semicolon"@,
        key != "space"@,
        !is_shift_key(key),
        !(shift && ctrl && (key == "L"@ || key == "l"@)),
        !((key == "Tab"@ || key == "ISO_Left_Tab"@) && !ctrl && !shift && !alt && chat_panel_open),
    ensures
        ({
            let (after, r) = route_spec(ks, InputMode::Reader, key, ctrl, shift, alt, focus_editable, chat_panel_open,
                chat_input_open, bound);
            &&& r == (match bound {
                Some(a) => KeyRoute::Dispatch(a),
                None => KeyRoute::Unhandled,
            })
            &&& (bound matches Some(a) && is_theme_action(a)) || after.chord == ChordState::Idle
        }),
{
}

} // verus!
