//! Key routing inside the overlays (gloss, journal, synopsis) and the chat
//! transcript: the stacked ask card (a vim editor with its own focus), the
//! overlays' `gg` chord, and each key's command. The commands themselves act
//! on the overlays.

use vstd::prelude::*;
use crate::keymap::{
    gtk_key_to_vim, overlay_word_step, vim_key_spec, word_step_spec, ChordState, EscTimer, KeyState, VimKey,
    WordStep, DOUBLE_ESC_MS,
};
use crate::text::str_eq;

verus! {

// ---------------------------------------------------------------------------
// The ask card
// ---------------------------------------------------------------------------

/// Where a key goes when an overlay may have an ask card open.
#[derive(Clone, Copy, Debug, PartialEq, Eq, Structural)]
pub enum AskRoute {
    /// Ctrl+Tab with a floating card: move the focus between the card and
    /// the overlay.
    ToggleFocus,
    /// Escape while the overlay has the focus beside a floating card: give
    /// the focus back to the card (the overlay stays open).
    FocusAsk,
    /// The card has the focus: its editor takes the key (`ask_intercept`).
    AskCard,
    /// The overlay takes the key.
    Overlay,
}

/// Routing between an overlay and its ask card: `ask_open` (a card is
/// open), `ask_float` (it floats beside the overlay), `ask_focused` (the
/// focus is on the card).
pub open spec fn ask_route_spec(ask_open: bool, ask_float: bool, ask_focused: bool, key: Seq<char>, ctrl: bool) -> AskRoute {
    let float = ask_open && ask_float;
    if float && ctrl && (key == "Tab"@ || key == "ISO_Left_Tab"@) {
        AskRoute::ToggleFocus
    } else if float && !ask_focused && key == "Escape"@ && !ctrl {
        AskRoute::FocusAsk
    } else if ask_open && (!float || ask_focused) {
        AskRoute::AskCard
    } else {
        AskRoute::Overlay
    }
}

/// Routing between an overlay and its ask card (see `ask_route_spec`).
pub fn ask_route(ask_open: bool, ask_float: bool, ask_focused: bool, key: &str, ctrl: bool) -> (r: AskRoute)
    ensures
        r == ask_route_spec(ask_open, ask_float, ask_focused, key@, ctrl),
{
    let float = ask_open && ask_float;
    if float && ctrl && (str_eq(key, "Tab") || str_eq(key, "ISO_Left_Tab")) {
        AskRoute::ToggleFocus
    } else if float && !ask_focused && str_eq(key, "Escape") && !ctrl {
        AskRoute::FocusAsk
    } else if ask_open && (!float || ask_focused) {
        AskRoute::AskCard
    } else {
        AskRoute::Overlay
    }
}

/// What the ask card's editor does with a key. The card takes every key
/// while it has the focus.
#[derive(Clone, Copy, Debug, PartialEq, Eq, Structural)]
pub enum AskKey {
    /// A second Escape in quick succession: close the card.
    CloseAsk,
    /// A single Escape: feed it to the editor (back to Normal mode).
    Escape,
    /// Ctrl+Return: submit.
    Submit,
    /// Ctrl+v / Ctrl+Shift+V: paste the clipboard.
    Paste,
    /// Feed this key to the editor.
    Feed(VimKey),
    /// Not editor input: swallowed.
    Swallow,
}

/// What the card does with a key that is not Escape.
pub open spec fn ask_key_spec(key: Seq<char>, key_char: Option<char>, ctrl: bool) -> AskKey {
    if ctrl && key == "Return"@ {
        AskKey::Submit
    } else if ctrl && (key == "v"@ || key == "V"@) {
        AskKey::Paste
    } else {
        match vim_key_spec(key, key_char, ctrl) {
            Some(k) => AskKey::Feed(k),
            None => AskKey::Swallow,
        }
    }
}

/// A double Escape: the previous Escape (if any) was less than
/// `DOUBLE_ESC_MS` before `now_ms` (a clock that went backwards counts as no
/// time passing).
pub open spec fn is_double_esc(esc: EscTimer, now_ms: u64) -> bool {
    match esc.last_ms {
        Some(p) => (if now_ms >= p { now_ms - p } else { 0 }) < DOUBLE_ESC_MS,
        None => false,
    }
}

/// An Escape at `now_ms` on a vim surface, and the timer after it: a double
/// (`is_double_esc`) resets the timer, a single one becomes the previous
/// Escape.
pub open spec fn esc_pressed(esc: EscTimer, now_ms: u64) -> EscTimer {
    EscTimer { last_ms: if is_double_esc(esc, now_ms) { None } else { Some(now_ms) } }
}

/// The ask card's editor takes a key at `now_ms`, and the Escape timer after
/// it: Escape (without Ctrl) closes the card on a double press and returns to
/// Normal mode otherwise; the other keys as `ask_key_spec` says, the timer
/// untouched.
pub open spec fn ask_step_spec(esc: EscTimer, now_ms: u64, key: Seq<char>, key_char: Option<char>, ctrl: bool) -> (EscTimer, AskKey) {
    if key == "Escape"@ && !ctrl {
        (esc_pressed(esc, now_ms), if is_double_esc(esc, now_ms) { AskKey::CloseAsk } else { AskKey::Escape })
    } else {
        (esc, ask_key_spec(key, key_char, ctrl))
    }
}

/// The ask card's editor takes a key at `now_ms` (see `ask_step_spec`).
pub fn ask_intercept(esc: &mut EscTimer, now_ms: u64, key: &str, key_char: Option<char>, ctrl: bool) -> (r: AskKey)
    ensures
        (*final(esc), r) == ask_step_spec(*old(esc), now_ms, key@, key_char, ctrl),
{
    if str_eq(key, "Escape") && !ctrl {
        if esc.press(now_ms) {
            return AskKey::CloseAsk;
        }
        return AskKey::Escape;
    }
    if ctrl && str_eq(key, "Return") {
        return AskKey::Submit;
    }
    if ctrl && (str_eq(key, "v") || str_eq(key, "V")) {
        return AskKey::Paste;
    }
    match gtk_key_to_vim(key, key_char, ctrl) {
        Some(k) => AskKey::Feed(k),
        None => AskKey::Swallow,
    }
}

fn ws_value(key: &str, ctrl: bool, shift: bool, alt: bool) -> (r: WordStep)
    requires
        word_step_spec(key@, ctrl, shift, alt) is Some,
    ensures
        r == word_step_spec(key@, ctrl, shift, alt)->0,
{
    match overlay_word_step(key, ctrl, shift, alt) {
        Some(s) => s,
        None => WordStep::Forward,
    }
}

/// The key state with no chord pending.
pub open spec fn chord_cleared(ks: KeyState) -> KeyState {
    KeyState { chord: ChordState::Idle, ..ks }
}

/// The key state with `chord` pending.
pub open spec fn chord_started(ks: KeyState, chord: ChordState) -> KeyState {
    KeyState { chord, ..ks }
}

// ---------------------------------------------------------------------------
// The gloss overlay
// ---------------------------------------------------------------------------

/// What the gloss overlay's key handling reads of the overlay.
#[derive(Clone, Copy, Debug, PartialEq, Eq, Structural)]
pub struct GlossView {
    pub ask_open: bool,
    pub ask_float: bool,
    pub ask_focused: bool,
    /// The gloss has blocks (a result, not the loading card).
    pub has_blocks: bool,
    pub popup_visible: bool,
    /// The shown gloss is a syntax gloss.
    pub showing_syntax: bool,
    /// A rewrite diff is tinted.
    pub diff_active: bool,
    /// An overlay search is active.
    pub search_active: bool,
}

/// What Escape undoes in an overlay, innermost first.
#[derive(Clone, Copy, Debug, PartialEq, Eq, Structural)]
pub enum EscapeStep {
    /// Close the vocab popup.
    ClosePopup,
    /// Clear the rewrite diff (and any revision browse).
    ClearDiff,
    /// Leave the term filter: back to the filtered entry's source, else
    /// clear the filter and close (journal only).
    LeaveFilter,
    /// Clear the overlay search.
    ClearSearch,
    /// Close the overlay.
    Close,
}

/// A gloss-overlay command.
#[derive(Clone, Copy, Debug, PartialEq, Eq, Structural)]
pub enum GlossCommand {
    ToggleAskFocus,
    FocusAsk,
    AskCard,
    /// Synthesize every prose block (Shift+Space).
    SynthAllBlocks,
    /// Consumed, nothing happens.
    Swallow,
    OpenCorpusSearch,
    /// `gg`: the first block (or the top of the loading card).
    FirstBlock { by_block: bool },
    PrevGloss,
    NextGloss,
    OpenGlossPicker,
    BrowseRevision { forward: bool },
    RestoreRevision,
    NextPassage,
    PrevPassage,
    CycleVoice,
    OpenSettings,
    AddVocab,
    BeginRewrite,
    OpenPassageQa,
    OpenLegend,
    /// Ctrl+Up/Down: the volume by 5 (the speech player alone with Alt).
    Volume { up: bool, tts_only: bool },
    ReadBlock,
    BeginBlock,
    CopyId,
    ConfirmDelete,
    BeginEdit,
    FlashRewriteDiff,
    ConfirmUndo,
    /// Arm the `gg` chord.
    StartChordG,
    /// The block cursor (or, with no blocks, the scroll) moves.
    LastBlock { by_block: bool },
    NextBlock { by_block: bool },
    PrevBlock { by_block: bool },
    PageTurn { forward: bool, by_block: bool },
    CycleOverlays { from_syntax: bool },
    OpenSearch,
    Escape(EscapeStep),
    SearchStep { forward: bool },
    EnterVisual,
    /// `r`: the next popup word (when the popup shows) and arm `rr`.
    VocabTap { next_word: bool },
    OpenVoicePicker,
    PickSourceVoice,
    CopyWorkDivision,
    WordStep(WordStep),
}

/// What Escape undoes in the gloss overlay.
pub open spec fn gloss_escape_spec(v: GlossView) -> EscapeStep {
    if v.popup_visible {
        EscapeStep::ClosePopup
    } else if v.diff_active {
        EscapeStep::ClearDiff
    } else if v.search_active {
        EscapeStep::ClearSearch
    } else {
        EscapeStep::Close
    }
}

fn gloss_escape(v: GlossView) -> (r: EscapeStep)
    ensures
        r == gloss_escape_spec(v),
{
    if v.popup_visible {
        EscapeStep::ClosePopup
    } else if v.diff_active {
        EscapeStep::ClearDiff
    } else if v.search_active {
        EscapeStep::ClearSearch
    } else {
        EscapeStep::Close
    }
}

/// The gloss overlay's command for a key once the ask card, the global
/// space and search keys and a pending `gg` are out of the way.
pub open spec fn gloss_keys_spec(v: GlossView, key: Seq<char>, ctrl: bool, shift: bool, alt: bool) -> GlossCommand {
    if alt && (key == "n"@) {
        GlossCommand::PrevGloss
    } else if alt && (key == "p"@) {
        GlossCommand::NextGloss
    } else if alt && (key == "g"@) {
        GlossCommand::OpenGlossPicker
    } else if ctrl && shift && (key == "n"@ || key == "N"@) {
        GlossCommand::BrowseRevision { forward: true }
    } else if ctrl && shift && (key == "p"@ || key == "P"@) {
        GlossCommand::BrowseRevision { forward: false }
    } else if ctrl && shift && (key == "r"@ || key == "R"@) {
        GlossCommand::RestoreRevision
    } else if ctrl && (key == "n"@) {
        GlossCommand::NextPassage
    } else if ctrl && (key == "p"@) {
        GlossCommand::PrevPassage
    } else if ctrl && (key == "v"@) {
        GlossCommand::CycleVoice
    } else if ctrl && (key == "comma"@) {
        GlossCommand::OpenSettings
    } else if ctrl && (key == "r"@) {
        GlossCommand::AddVocab
    } else if ctrl && (key == "w"@) {
        GlossCommand::BeginRewrite
    } else if ctrl && (key == "a"@) {
        GlossCommand::OpenPassageQa
    } else if ctrl && (key == "j"@ || key == "g"@ || key == "Tab"@ || key == "ISO_Left_Tab"@) {
        GlossCommand::Swallow
    } else if ctrl && (key == "slash"@) {
        GlossCommand::OpenLegend
    } else if ctrl && (key == "Up"@) {
        GlossCommand::Volume { up: true, tts_only: alt }
    } else if ctrl && (key == "Down"@) {
        GlossCommand::Volume { up: false, tts_only: alt }
    } else if (key == "a"@) {
        GlossCommand::ReadBlock
    } else if (key == "space"@) && !ctrl && !shift {
        GlossCommand::BeginBlock
    } else if (key == "A"@ || key == "R"@ || key == "l"@) {
        GlossCommand::Swallow
    } else if (key == "c"@) {
        GlossCommand::CopyId
    } else if (key == "D"@) {
        GlossCommand::ConfirmDelete
    } else if (key == "e"@) {
        GlossCommand::BeginEdit
    } else if (key == "w"@) && !ctrl && !alt {
        GlossCommand::FlashRewriteDiff
    } else if (key == "u"@) {
        GlossCommand::ConfirmUndo
    } else if (key == "g"@) {
        GlossCommand::StartChordG
    } else if (key == "G"@) {
        GlossCommand::LastBlock { by_block: v.has_blocks }
    } else if (key == "j"@ || key == "q"@) {
        GlossCommand::NextBlock { by_block: v.has_blocks }
    } else if (key == "k"@ || key == "comma"@) {
        GlossCommand::PrevBlock { by_block: v.has_blocks }
    } else if (key == "x"@) {
        GlossCommand::PageTurn { forward: true, by_block: v.has_blocks }
    } else if (key == "y"@) {
        GlossCommand::PageTurn { forward: false, by_block: v.has_blocks }
    } else if (key == "backslash"@) && !ctrl && !alt {
        GlossCommand::CycleOverlays { from_syntax: v.showing_syntax }
    } else if (key == "slash"@) {
        GlossCommand::OpenSearch
    } else if (key == "Escape"@) {
        GlossCommand::Escape(gloss_escape_spec(v))
    } else if (key == "n"@) {
        GlossCommand::SearchStep { forward: true }
    } else if (key == "N"@) {
        GlossCommand::SearchStep { forward: false }
    } else if (key == "V"@) {
        GlossCommand::EnterVisual
    } else if (key == "r"@) && !ctrl {
        GlossCommand::VocabTap { next_word: v.popup_visible }
    } else if (key == "v"@) {
        GlossCommand::OpenVoicePicker
    } else if (key == "L"@) {
        GlossCommand::PickSourceVoice
    } else if (key == "plus"@) {
        GlossCommand::CopyWorkDivision
    } else if word_step_spec(key, ctrl, shift, alt) is Some {
        GlossCommand::WordStep(word_step_spec(key, ctrl, shift, alt)->0)
    } else {
        GlossCommand::Swallow
    }
}

fn gloss_keys(v: GlossView, key: &str, ctrl: bool, shift: bool, alt: bool) -> (r: GlossCommand)
    ensures
        r == gloss_keys_spec(v, key@, ctrl, shift, alt),
{
    if alt && (str_eq(key, "n")) {
        GlossCommand::PrevGloss
    } else if alt && (str_eq(key, "p")) {
        GlossCommand::NextGloss
    } else if alt && (str_eq(key, "g")) {
        GlossCommand::OpenGlossPicker
    } else if ctrl && shift && (str_eq(key, "n") || str_eq(key, "N")) {
        GlossCommand::BrowseRevision { forward: true }
    } else if ctrl && shift && (str_eq(key, "p") || str_eq(key, "P")) {
        GlossCommand::BrowseRevision { forward: false }
    } else if ctrl && shift && (str_eq(key, "r") || str_eq(key, "R")) {
        GlossCommand::RestoreRevision
    } else if ctrl && (str_eq(key, "n")) {
        GlossCommand::NextPassage
    } else if ctrl && (str_eq(key, "p")) {
        GlossCommand::PrevPassage
    } else if ctrl && (str_eq(key, "v")) {
        GlossCommand::CycleVoice
    } else if ctrl && (str_eq(key, "comma")) {
        GlossCommand::OpenSettings
    } else if ctrl && (str_eq(key, "r")) {
        GlossCommand::AddVocab
    } else if ctrl && (str_eq(key, "w")) {
        GlossCommand::BeginRewrite
    } else if ctrl && (str_eq(key, "a")) {
        GlossCommand::OpenPassageQa
    } else if ctrl && (str_eq(key, "j") || str_eq(key, "g") || str_eq(key, "Tab") || str_eq(key, "ISO_Left_Tab")) {
        GlossCommand::Swallow
    } else if ctrl && (str_eq(key, "slash")) {
        GlossCommand::OpenLegend
    } else if ctrl && (str_eq(key, "Up")) {
        GlossCommand::Volume { up: true, tts_only: alt }
    } else if ctrl && (str_eq(key, "Down")) {
        GlossCommand::Volume { up: false, tts_only: alt }
    } else if (str_eq(key, "a")) {
        GlossCommand::ReadBlock
    } else if (str_eq(key, "space")) && !ctrl && !shift {
        GlossCommand::BeginBlock
    } else if (str_eq(key, "A") || str_eq(key, "R") || str_eq(key, "l")) {
        GlossCommand::Swallow
    } else if (str_eq(key, "c")) {
        GlossCommand::CopyId
    } else if (str_eq(key, "D")) {
        GlossCommand::ConfirmDelete
    } else if (str_eq(key, "e")) {
        GlossCommand::BeginEdit
    } else if (str_eq(key, "w")) && !ctrl && !alt {
        GlossCommand::FlashRewriteDiff
    } else if (str_eq(key, "u")) {
        GlossCommand::ConfirmUndo
    } else if (str_eq(key, "g")) {
        GlossCommand::StartChordG
    } else if (str_eq(key, "G")) {
        GlossCommand::LastBlock { by_block: v.has_blocks }
    } else if (str_eq(key, "j") || str_eq(key, "q")) {
        GlossCommand::NextBlock { by_block: v.has_blocks }
    } else if (str_eq(key, "k") || str_eq(key, "comma")) {
        GlossCommand::PrevBlock { by_block: v.has_blocks }
    } else if (str_eq(key, "x")) {
        GlossCommand::PageTurn { forward: true, by_block: v.has_blocks }
    } else if (str_eq(key, "y")) {
        GlossCommand::PageTurn { forward: false, by_block: v.has_blocks }
    } else if (str_eq(key, "backslash")) && !ctrl && !alt {
        GlossCommand::CycleOverlays { from_syntax: v.showing_syntax }
    } else if (str_eq(key, "slash")) {
        GlossCommand::OpenSearch
    } else if (str_eq(key, "Escape")) {
        GlossCommand::Escape(gloss_escape(v))
    } else if (str_eq(key, "n")) {
        GlossCommand::SearchStep { forward: true }
    } else if (str_eq(key, "N")) {
        GlossCommand::SearchStep { forward: false }
    } else if (str_eq(key, "V")) {
        GlossCommand::EnterVisual
    } else if (str_eq(key, "r")) && !ctrl {
        GlossCommand::VocabTap { next_word: v.popup_visible }
    } else if (str_eq(key, "v")) {
        GlossCommand::OpenVoicePicker
    } else if (str_eq(key, "L")) {
        GlossCommand::PickSourceVoice
    } else if (str_eq(key, "plus")) {
        GlossCommand::CopyWorkDivision
    } else if overlay_word_step(key, ctrl, shift, alt).is_some() {
        GlossCommand::WordStep(ws_value(key, ctrl, shift, alt))
    } else {
        GlossCommand::Swallow
    }
}

/// The key state after a command that may arm a chord.
pub open spec fn gloss_chord_after(ks: KeyState, c: GlossCommand) -> KeyState {
    match c {
        GlossCommand::StartChordG => chord_started(ks, ChordState::PendingG),
        GlossCommand::VocabTap { .. } => chord_started(ks, ChordState::PendingR),
        _ => ks,
    }
}

/// The gloss overlay's command for a key, and the key state after it: the
/// ask card first, then Shift+Space (synthesize all), Ctrl+Space
/// (swallowed), Ctrl+f (corpus search), a pending `gg` (completed by `g`,
/// any other key without Ctrl consumed; cleared either way), then the keys
/// of `gloss_keys_spec`.
pub open spec fn gloss_route_spec(ks: KeyState, v: GlossView, key: Seq<char>, ctrl: bool, shift: bool, alt: bool) -> (KeyState, GlossCommand) {
    match ask_route_spec(v.ask_open, v.ask_float, v.ask_focused, key, ctrl) {
        AskRoute::ToggleFocus => (ks, GlossCommand::ToggleAskFocus),
        AskRoute::FocusAsk => (ks, GlossCommand::FocusAsk),
        AskRoute::AskCard => (ks, GlossCommand::AskCard),
        AskRoute::Overlay => if key == "space"@ && shift {
            (ks, GlossCommand::SynthAllBlocks)
        } else if key == "space"@ && ctrl {
            (ks, GlossCommand::Swallow)
        } else if ctrl && key == "f"@ {
            (ks, GlossCommand::OpenCorpusSearch)
        } else if ks.chord == ChordState::PendingG && !ctrl {
            (chord_cleared(ks), if key == "g"@ { GlossCommand::FirstBlock { by_block: v.has_blocks } } else { GlossCommand::Swallow })
        } else {
            let ks1 = if ks.chord == ChordState::PendingG { chord_cleared(ks) } else { ks };
            let c = gloss_keys_spec(v, key, ctrl, shift, alt);
            (gloss_chord_after(ks1, c), c)
        },
    }
}

/// The gloss overlay's command for a key (see `gloss_route_spec`). Every key
/// is consumed.
pub fn gloss_key_command(ks: &mut KeyState, v: GlossView, key: &str, ctrl: bool, shift: bool, alt: bool) -> (r: GlossCommand)
    ensures
        (*final(ks), r) == gloss_route_spec(*old(ks), v, key@, ctrl, shift, alt),
{
    match ask_route(v.ask_open, v.ask_float, v.ask_focused, key, ctrl) {
        AskRoute::ToggleFocus => {
            return GlossCommand::ToggleAskFocus;
        },
        AskRoute::FocusAsk => {
            return GlossCommand::FocusAsk;
        },
        AskRoute::AskCard => {
            return GlossCommand::AskCard;
        },
        AskRoute::Overlay => {},
    }
    let space = str_eq(key, "space");
    if space && shift {
        return GlossCommand::SynthAllBlocks;
    }
    if space && ctrl {
        return GlossCommand::Swallow;
    }
    if ctrl && str_eq(key, "f") {
        return GlossCommand::OpenCorpusSearch;
    }
    if ks.chord == ChordState::PendingG {
        ks.chord = ChordState::Idle;
        if !ctrl {
            if str_eq(key, "g") {
                return GlossCommand::FirstBlock { by_block: v.has_blocks };
            }
            return GlossCommand::Swallow;
        }
    }
    let c = gloss_keys(v, key, ctrl, shift, alt);
    match c {
        GlossCommand::StartChordG => {
            ks.chord = ChordState::PendingG;
        },
        GlossCommand::VocabTap { .. } => {
            ks.chord = ChordState::PendingR;
        },
        _ => {},
    }
    c
}

// ---------------------------------------------------------------------------
// The journal overlay
// ---------------------------------------------------------------------------

/// What the journal overlay's key handling reads of the overlay.
#[derive(Clone, Copy, Debug, PartialEq, Eq, Structural)]
pub struct JournalView {
    pub ask_open: bool,
    pub ask_float: bool,
    pub ask_focused: bool,
    /// The view has blocks to move a cursor over.
    pub has_nav_blocks: bool,
    pub popup_visible: bool,
    pub diff_active: bool,
    /// A term filter is applied.
    pub filter_active: bool,
    pub search_active: bool,
}

/// A journal-overlay command.
#[derive(Clone, Copy, Debug, PartialEq, Eq, Structural)]
pub enum JournalCommand {
    ToggleAskFocus,
    FocusAsk,
    AskCard,
    /// `gg`: the first block.
    FirstBlock,
    /// Consumed, nothing happens.
    Swallow,
    /// Not consumed.
    Unhandled,
    OpenPicker,
    OpenCorpusSearch,
    NavScene { forward: bool },
    WorkBand,
    SceneBand,
    AuthorBand,
    BrowseRevision { forward: bool },
    RestoreRevision,
    NavPage { forward: bool },
    AskOrFilterGate,
    AddVocab,
    OpenRewriteTarget,
    OpenMovePicker,
    OpenLegend,
    /// The key needs the term filter cleared first (a toast says so).
    FilterBlocked,
    SynthAllBlocks,
    VocabTap { next_word: bool },
    FlashRewriteDiff,
    BeginEdit,
    ConfirmUndo,
    ConfirmDelete,
    EnterVisual,
    StartChordG,
    LastBlock,
    NextBlock { by_block: bool },
    PrevBlock { by_block: bool },
    PageTurn { forward: bool, by_block: bool },
    ReadBlock,
    BeginBlock,
    CopyId,
    CopyWorkDivision,
    WordStep(WordStep),
    /// Back to the synopsis it came from, else the next overlay in the cycle.
    CycleOverlays,
    OpenTermInput,
    OpenSearch,
    SearchStep { forward: bool },
    Escape(EscapeStep),
}

/// What Escape undoes in the journal overlay.
pub open spec fn journal_escape_spec(v: JournalView) -> EscapeStep {
    if v.popup_visible {
        EscapeStep::ClosePopup
    } else if v.diff_active {
        EscapeStep::ClearDiff
    } else if v.filter_active {
        EscapeStep::LeaveFilter
    } else if v.search_active {
        EscapeStep::ClearSearch
    } else {
        EscapeStep::Close
    }
}

fn journal_escape(v: JournalView) -> (r: EscapeStep)
    ensures
        r == journal_escape_spec(v),
{
    if v.popup_visible {
        EscapeStep::ClosePopup
    } else if v.diff_active {
        EscapeStep::ClearDiff
    } else if v.filter_active {
        EscapeStep::LeaveFilter
    } else if v.search_active {
        EscapeStep::ClearSearch
    } else {
        EscapeStep::Close
    }
}

/// The journal overlay's command for a key once the ask card, a pending
/// `gg`, Ctrl+`\` (the picker) and Ctrl+f (corpus search) are out of the way.
pub open spec fn journal_keys_spec(v: JournalView, key: Seq<char>, ctrl: bool, shift: bool, alt: bool) -> JournalCommand {
    if alt && (key == "n"@) {
        JournalCommand::NavScene { forward: true }
    } else if alt && (key == "p"@) {
        JournalCommand::NavScene { forward: false }
    } else if alt && (key == "w"@) {
        JournalCommand::WorkBand
    } else if alt && (key == "s"@) {
        JournalCommand::SceneBand
    } else if alt && (key == "a"@) {
        JournalCommand::AuthorBand
    } else if alt && (key == "g"@) {
        JournalCommand::Swallow
    } else if ctrl && shift && (key == "n"@ || key == "N"@) {
        JournalCommand::BrowseRevision { forward: true }
    } else if ctrl && shift && (key == "p"@ || key == "P"@) {
        JournalCommand::BrowseRevision { forward: false }
    } else if ctrl && shift && (key == "r"@ || key == "R"@) {
        JournalCommand::RestoreRevision
    } else if ctrl && (key == "n"@) {
        JournalCommand::NavPage { forward: true }
    } else if ctrl && (key == "p"@) {
        JournalCommand::NavPage { forward: false }
    } else if ctrl && (key == "a"@) {
        JournalCommand::AskOrFilterGate
    } else if ctrl && (key == "r"@) {
        JournalCommand::AddVocab
    } else if ctrl && (key == "w"@) {
        JournalCommand::OpenRewriteTarget
    } else if ctrl && (key == "J"@) {
        JournalCommand::OpenMovePicker
    } else if ctrl && (key == "j"@ || key == "Tab"@ || key == "ISO_Left_Tab"@ || key == "g"@ || key == "s"@ || key == "space"@) {
        JournalCommand::Swallow
    } else if ctrl && (key == "slash"@) {
        JournalCommand::OpenLegend
    } else if v.filter_active && (key == "r"@ || key == "space"@ || key == "a"@ || key == "backslash"@) {
        JournalCommand::FilterBlocked
    } else if (key == "space"@) && shift {
        JournalCommand::SynthAllBlocks
    } else if (key == "r"@) && !ctrl {
        JournalCommand::VocabTap { next_word: v.popup_visible }
    } else if (key == "R"@ || key == "A"@ || key == "s"@) {
        JournalCommand::Swallow
    } else if (key == "w"@) && !ctrl && !alt {
        JournalCommand::FlashRewriteDiff
    } else if (key == "e"@) {
        JournalCommand::BeginEdit
    } else if (key == "u"@) {
        JournalCommand::ConfirmUndo
    } else if (key == "D"@) {
        JournalCommand::ConfirmDelete
    } else if (key == "V"@) {
        JournalCommand::EnterVisual
    } else if (key == "g"@) {
        JournalCommand::StartChordG
    } else if (key == "G"@) {
        JournalCommand::LastBlock
    } else if (key == "j"@ || key == "q"@) {
        JournalCommand::NextBlock { by_block: v.has_nav_blocks }
    } else if (key == "k"@ || key == "comma"@) {
        JournalCommand::PrevBlock { by_block: v.has_nav_blocks }
    } else if (key == "x"@) {
        JournalCommand::PageTurn { forward: true, by_block: v.has_nav_blocks }
    } else if (key == "y"@) {
        JournalCommand::PageTurn { forward: false, by_block: v.has_nav_blocks }
    } else if (key == "a"@) {
        JournalCommand::ReadBlock
    } else if (key == "space"@) && !ctrl && !shift {
        JournalCommand::BeginBlock
    } else if (key == "c"@) {
        JournalCommand::CopyId
    } else if (key == "plus"@) {
        JournalCommand::CopyWorkDivision
    } else if word_step_spec(key, ctrl, shift, alt) is Some {
        JournalCommand::WordStep(word_step_spec(key, ctrl, shift, alt)->0)
    } else if (key == "backslash"@) && !ctrl && !alt {
        JournalCommand::CycleOverlays
    } else if (key == "f"@) {
        JournalCommand::OpenTermInput
    } else if (key == "slash"@) {
        JournalCommand::OpenSearch
    } else if (key == "n"@) {
        JournalCommand::SearchStep { forward: true }
    } else if (key == "N"@) {
        JournalCommand::SearchStep { forward: false }
    } else if (key == "Escape"@) {
        JournalCommand::Escape(journal_escape_spec(v))
    } else {
        JournalCommand::Unhandled
    }
}

fn journal_keys(v: JournalView, key: &str, ctrl: bool, shift: bool, alt: bool) -> (r: JournalCommand)
    ensures
        r == journal_keys_spec(v, key@, ctrl, shift, alt),
{
    if alt && (str_eq(key, "n")) {
        JournalCommand::NavScene { forward: true }
    } else if alt && (str_eq(key, "p")) {
        JournalCommand::NavScene { forward: false }
    } else if alt && (str_eq(key, "w")) {
        JournalCommand::WorkBand
    } else if alt && (str_eq(key, "s")) {
        JournalCommand::SceneBand
    } else if alt && (str_eq(key, "a")) {
        JournalCommand::AuthorBand
    } else if alt && (str_eq(key, "g")) {
        JournalCommand::Swallow
    } else if ctrl && shift && (str_eq(key, "n") || str_eq(key, "N")) {
        JournalCommand::BrowseRevision { forward: true }
    } else if ctrl && shift && (str_eq(key, "p") || str_eq(key, "P")) {
        JournalCommand::BrowseRevision { forward: false }
    } else if ctrl && shift && (str_eq(key, "r") || str_eq(key, "R")) {
        JournalCommand::RestoreRevision
    } else if ctrl && (str_eq(key, "n")) {
        JournalCommand::NavPage { forward: true }
    } else if ctrl && (str_eq(key, "p")) {
        JournalCommand::NavPage { forward: false }
    } else if ctrl && (str_eq(key, "a")) {
        JournalCommand::AskOrFilterGate
    } else if ctrl && (str_eq(key, "r")) {
        JournalCommand::AddVocab
    } else if ctrl && (str_eq(key, "w")) {
        JournalCommand::OpenRewriteTarget
    } else if ctrl && (str_eq(key, "J")) {
        JournalCommand::OpenMovePicker
    } else if ctrl && (str_eq(key, "j") || str_eq(key, "Tab") || str_eq(key, "ISO_Left_Tab") || str_eq(key, "g") || str_eq(key, "s") || str_eq(key, "space")) {
        JournalCommand::Swallow
    } else if ctrl && (str_eq(key, "slash")) {
        JournalCommand::OpenLegend
    } else if v.filter_active && (str_eq(key, "r") || str_eq(key, "space") || str_eq(key, "a") || str_eq(key, "backslash")) {
        JournalCommand::FilterBlocked
    } else if (str_eq(key, "space")) && shift {
        JournalCommand::SynthAllBlocks
    } else if (str_eq(key, "r")) && !ctrl {
        JournalCommand::VocabTap { next_word: v.popup_visible }
    } else if (str_eq(key, "R") || str_eq(key, "A") || str_eq(key, "s")) {
        JournalCommand::Swallow
    } else if (str_eq(key, "w")) && !ctrl && !alt {
        JournalCommand::FlashRewriteDiff
    } else if (str_eq(key, "e")) {
        JournalCommand::BeginEdit
    } else if (str_eq(key, "u")) {
        JournalCommand::ConfirmUndo
    } else if (str_eq(key, "D")) {
        JournalCommand::ConfirmDelete
    } else if (str_eq(key, "V")) {
        JournalCommand::EnterVisual
    } else if (str_eq(key, "g")) {
        JournalCommand::StartChordG
    } else if (str_eq(key, "G")) {
        JournalCommand::LastBlock
    } else if (str_eq(key, "j") || str_eq(key, "q")) {
        JournalCommand::NextBlock { by_block: v.has_nav_blocks }
    } else if (str_eq(key, "k") || str_eq(key, "comma")) {
        JournalCommand::PrevBlock { by_block: v.has_nav_blocks }
    } else if (str_eq(key, "x")) {
        JournalCommand::PageTurn { forward: true, by_block: v.has_nav_blocks }
    } else if (str_eq(key, "y")) {
        JournalCommand::PageTurn { forward: false, by_block: v.has_nav_blocks }
    } else if (str_eq(key, "a")) {
        JournalCommand::ReadBlock
    } else if (str_eq(key, "space")) && !ctrl && !shift {
        JournalCommand::BeginBlock
    } else if (str_eq(key, "c")) {
        JournalCommand::CopyId
    } else if (str_eq(key, "plus")) {
        JournalCommand::CopyWorkDivision
    } else if overlay_word_step(key, ctrl, shift, alt).is_some() {
        JournalCommand::WordStep(ws_value(key, ctrl, shift, alt))
    } else if (str_eq(key, "backslash")) && !ctrl && !alt {
        JournalCommand::CycleOverlays
    } else if (str_eq(key, "f")) {
        JournalCommand::OpenTermInput
    } else if (str_eq(key, "slash")) {
        JournalCommand::OpenSearch
    } else if (str_eq(key, "n")) {
        JournalCommand::SearchStep { forward: true }
    } else if (str_eq(key, "N")) {
        JournalCommand::SearchStep { forward: false }
    } else if (str_eq(key, "Escape")) {
        JournalCommand::Escape(journal_escape(v))
    } else {
        JournalCommand::Unhandled
    }
}

/// The key state after a command that may arm a chord.
pub open spec fn journal_chord_after(ks: KeyState, c: JournalCommand) -> KeyState {
    match c {
        JournalCommand::StartChordG => chord_started(ks, ChordState::PendingG),
        JournalCommand::VocabTap { .. } => chord_started(ks, ChordState::PendingR),
        _ => ks,
    }
}

/// The journal overlay's command for a key, and the key state after it: the
/// ask card first, then a pending `gg` (completed by `g`, any other key
/// without Ctrl consumed; cleared either way), Ctrl+`\` (the picker), Ctrl+f
/// (corpus search), then the keys of `journal_keys_spec`.
pub open spec fn journal_route_spec(ks: KeyState, v: JournalView, key: Seq<char>, ctrl: bool, shift: bool, alt: bool) -> (KeyState, JournalCommand) {
    match ask_route_spec(v.ask_open, v.ask_float, v.ask_focused, key, ctrl) {
        AskRoute::ToggleFocus => (ks, JournalCommand::ToggleAskFocus),
        AskRoute::FocusAsk => (ks, JournalCommand::FocusAsk),
        AskRoute::AskCard => (ks, JournalCommand::AskCard),
        AskRoute::Overlay => if ks.chord == ChordState::PendingG && !ctrl {
            (chord_cleared(ks), if key == "g"@ { JournalCommand::FirstBlock } else { JournalCommand::Swallow })
        } else {
            let ks1 = if ks.chord == ChordState::PendingG { chord_cleared(ks) } else { ks };
            if ctrl && key == "backslash"@ {
                (ks1, JournalCommand::OpenPicker)
            } else if ctrl && key == "f"@ {
                (ks1, JournalCommand::OpenCorpusSearch)
            } else {
                let c = journal_keys_spec(v, key, ctrl, shift, alt);
                (journal_chord_after(ks1, c), c)
            }
        },
    }
}

/// The journal overlay's command for a key (see `journal_route_spec`); a
/// key the overlay does not use is `Unhandled`.
pub fn journal_key_command(ks: &mut KeyState, v: JournalView, key: &str, ctrl: bool, shift: bool, alt: bool) -> (r: JournalCommand)
    ensures
        (*final(ks), r) == journal_route_spec(*old(ks), v, key@, ctrl, shift, alt),
{
    match ask_route(v.ask_open, v.ask_float, v.ask_focused, key, ctrl) {
        AskRoute::ToggleFocus => {
            return JournalCommand::ToggleAskFocus;
        },
        AskRoute::FocusAsk => {
            return JournalCommand::FocusAsk;
        },
        AskRoute::AskCard => {
            return JournalCommand::AskCard;
        },
        AskRoute::Overlay => {},
    }
    if ks.chord == ChordState::PendingG {
        ks.chord = ChordState::Idle;
        if !ctrl {
            if str_eq(key, "g") {
                return JournalCommand::FirstBlock;
            }
            return JournalCommand::Swallow;
        }
    }
    if ctrl && str_eq(key, "backslash") {
        return JournalCommand::OpenPicker;
    }
    if ctrl && str_eq(key, "f") {
        return JournalCommand::OpenCorpusSearch;
    }
    let c = journal_keys(v, key, ctrl, shift, alt);
    match c {
        JournalCommand::StartChordG => {
            ks.chord = ChordState::PendingG;
        },
        JournalCommand::VocabTap { .. } => {
            ks.chord = ChordState::PendingR;
        },
        _ => {},
    }
    c
}

// ---------------------------------------------------------------------------
// The synopsis overlay
// ---------------------------------------------------------------------------

/// A synopsis-overlay command.
#[derive(Clone, Copy, Debug, PartialEq, Eq, Structural)]
pub enum SynopsisCommand {
    ToggleAskFocus,
    FocusAsk,
    AskCard,
    /// Consumed, nothing happens.
    Swallow,
    /// Stop speech, remember the cursor for the scene, back to the reader.
    Close,
    /// `gg`: the first block.
    FirstBlock,
    SynthAllBlocks,
    OpenSceneQa,
    ReadBlock,
    AddVocab,
    BeginEdit,
    BeginRewrite,
    FlashRewriteDiff,
    CopyId,
    EnterVisual,
    PageTurn { forward: bool },
    ConfirmUndo,
    CycleSynopsis { forward: bool },
    OpenWorkGlosses,
    OpenSettings,
    OpenLegend,
    Volume { up: bool, tts_only: bool },
    NextBlock,
    PrevBlock,
    StartChordG,
    LastBlock,
    BeginBlock,
    CopyWorkDivision,
}

/// The synopsis overlay's command for a key once the ask card, Tab, Escape,
/// Ctrl+g, a pending `gg` and Shift+Space are out of the way.
pub open spec fn synopsis_keys_spec(key: Seq<char>, ctrl: bool, shift: bool, alt: bool) -> SynopsisCommand {
    if (key == "h"@) {
        SynopsisCommand::Swallow
    } else if (key == "backslash"@) && !ctrl && !alt {
        SynopsisCommand::OpenSceneQa
    } else if (key == "a"@) {
        SynopsisCommand::ReadBlock
    } else if (key == "r"@) && ctrl {
        SynopsisCommand::AddVocab
    } else if (key == "r"@) {
        SynopsisCommand::Swallow
    } else if (key == "e"@) {
        SynopsisCommand::BeginEdit
    } else if (key == "R"@) {
        SynopsisCommand::BeginRewrite
    } else if (key == "w"@) && !ctrl && !alt {
        SynopsisCommand::FlashRewriteDiff
    } else if (key == "c"@) {
        SynopsisCommand::CopyId
    } else if (key == "V"@) {
        SynopsisCommand::EnterVisual
    } else if (key == "u"@) && ctrl {
        SynopsisCommand::PageTurn { forward: false }
    } else if (key == "d"@) && ctrl {
        SynopsisCommand::PageTurn { forward: true }
    } else if (key == "u"@) {
        SynopsisCommand::ConfirmUndo
    } else if (key == "j"@) && ctrl {
        SynopsisCommand::Swallow
    } else if (key == "n"@) && ctrl && !shift {
        SynopsisCommand::CycleSynopsis { forward: true }
    } else if (key == "p"@) && ctrl && !shift {
        SynopsisCommand::CycleSynopsis { forward: false }
    } else if (key == "g"@) && alt {
        SynopsisCommand::OpenWorkGlosses
    } else if (key == "comma"@) && ctrl {
        SynopsisCommand::OpenSettings
    } else if (key == "slash"@) && ctrl {
        SynopsisCommand::OpenLegend
    } else if (key == "Up"@) && ctrl {
        SynopsisCommand::Volume { up: true, tts_only: alt }
    } else if (key == "Down"@) && ctrl {
        SynopsisCommand::Volume { up: false, tts_only: alt }
    } else if (key == "j"@) {
        SynopsisCommand::NextBlock
    } else if (key == "k"@) {
        SynopsisCommand::PrevBlock
    } else if (key == "x"@) {
        SynopsisCommand::PageTurn { forward: true }
    } else if (key == "y"@) {
        SynopsisCommand::PageTurn { forward: false }
    } else if (key == "g"@) {
        SynopsisCommand::StartChordG
    } else if (key == "G"@) {
        SynopsisCommand::LastBlock
    } else if (key == "space"@) {
        SynopsisCommand::BeginBlock
    } else if (key == "plus"@) {
        SynopsisCommand::CopyWorkDivision
    } else {
        SynopsisCommand::Swallow
    }
}

fn synopsis_keys(key: &str, ctrl: bool, shift: bool, alt: bool) -> (r: SynopsisCommand)
    ensures
        r == synopsis_keys_spec(key@, ctrl, shift, alt),
{
    if (str_eq(key, "h")) {
        SynopsisCommand::Swallow
    } else if (str_eq(key, "backslash")) && !ctrl && !alt {
        SynopsisCommand::OpenSceneQa
    } else if (str_eq(key, "a")) {
        SynopsisCommand::ReadBlock
    } else if (str_eq(key, "r")) && ctrl {
        SynopsisCommand::AddVocab
    } else if (str_eq(key, "r")) {
        SynopsisCommand::Swallow
    } else if (str_eq(key, "e")) {
        SynopsisCommand::BeginEdit
    } else if (str_eq(key, "R")) {
        SynopsisCommand::BeginRewrite
    } else if (str_eq(key, "w")) && !ctrl && !alt {
        SynopsisCommand::FlashRewriteDiff
    } else if (str_eq(key, "c")) {
        SynopsisCommand::CopyId
    } else if (str_eq(key, "V")) {
        SynopsisCommand::EnterVisual
    } else if (str_eq(key, "u")) && ctrl {
        SynopsisCommand::PageTurn { forward: false }
    } else if (str_eq(key, "d")) && ctrl {
        SynopsisCommand::PageTurn { forward: true }
    } else if (str_eq(key, "u")) {
        SynopsisCommand::ConfirmUndo
    } else if (str_eq(key, "j")) && ctrl {
        SynopsisCommand::Swallow
    } else if (str_eq(key, "n")) && ctrl && !shift {
        SynopsisCommand::CycleSynopsis { forward: true }
    } else if (str_eq(key, "p")) && ctrl && !shift {
        SynopsisCommand::CycleSynopsis { forward: false }
    } else if (str_eq(key, "g")) && alt {
        SynopsisCommand::OpenWorkGlosses
    } else if (str_eq(key, "comma")) && ctrl {
        SynopsisCommand::OpenSettings
    } else if (str_eq(key, "slash")) && ctrl {
        SynopsisCommand::OpenLegend
    } else if (str_eq(key, "Up")) && ctrl {
        SynopsisCommand::Volume { up: true, tts_only: alt }
    } else if (str_eq(key, "Down")) && ctrl {
        SynopsisCommand::Volume { up: false, tts_only: alt }
    } else if (str_eq(key, "j")) {
        SynopsisCommand::NextBlock
    } else if (str_eq(key, "k")) {
        SynopsisCommand::PrevBlock
    } else if (str_eq(key, "x")) {
        SynopsisCommand::PageTurn { forward: true }
    } else if (str_eq(key, "y")) {
        SynopsisCommand::PageTurn { forward: false }
    } else if (str_eq(key, "g")) {
        SynopsisCommand::StartChordG
    } else if (str_eq(key, "G")) {
        SynopsisCommand::LastBlock
    } else if (str_eq(key, "space")) {
        SynopsisCommand::BeginBlock
    } else if (str_eq(key, "plus")) {
        SynopsisCommand::CopyWorkDivision
    } else {
        SynopsisCommand::Swallow
    }
}

/// The synopsis overlay's command for a key, and the key state after it: the
/// ask card first (it shares the gloss card's `ask_*` state), then Tab
/// (swallowed), Escape (close), Ctrl+g (swallowed, clearing any chord), a
/// pending `gg` (completed by `g`, any other key consumed; cleared either
/// way), Shift+Space (synthesize all), then `synopsis_keys_spec`, `g` arming
/// the chord.
pub open spec fn synopsis_route_spec(
    ks: KeyState,
    ask_open: bool,
    ask_float: bool,
    ask_focused: bool,
    key: Seq<char>,
    ctrl: bool,
    shift: bool,
    alt: bool,
) -> (KeyState, SynopsisCommand) {
    match ask_route_spec(ask_open, ask_float, ask_focused, key, ctrl) {
        AskRoute::ToggleFocus => (ks, SynopsisCommand::ToggleAskFocus),
        AskRoute::FocusAsk => (ks, SynopsisCommand::FocusAsk),
        AskRoute::AskCard => (ks, SynopsisCommand::AskCard),
        AskRoute::Overlay => if key == "Tab"@ || key == "ISO_Left_Tab"@ {
            (ks, SynopsisCommand::Swallow)
        } else if key == "Escape"@ {
            (ks, SynopsisCommand::Close)
        } else if key == "g"@ && ctrl {
            (chord_cleared(ks), SynopsisCommand::Swallow)
        } else if ks.chord == ChordState::PendingG {
            (chord_cleared(ks), if key == "g"@ { SynopsisCommand::FirstBlock } else { SynopsisCommand::Swallow })
        } else if key == "space"@ && shift {
            (ks, SynopsisCommand::SynthAllBlocks)
        } else {
            let c = synopsis_keys_spec(key, ctrl, shift, alt);
            (if c == SynopsisCommand::StartChordG { chord_started(ks, ChordState::PendingG) } else { ks }, c)
        },
    }
}

/// The synopsis overlay's command for a key (see `synopsis_route_spec`).
/// Every key is consumed.
pub fn synopsis_key_command(
    ks: &mut KeyState,
    ask_open: bool,
    ask_float: bool,
    ask_focused: bool,
    key: &str,
    ctrl: bool,
    shift: bool,
    alt: bool,
) -> (r: SynopsisCommand)
    ensures
        (*final(ks), r) == synopsis_route_spec(*old(ks), ask_open, ask_float, ask_focused, key@, ctrl, shift, alt),
{
    match ask_route(ask_open, ask_float, ask_focused, key, ctrl) {
        AskRoute::ToggleFocus => {
            return SynopsisCommand::ToggleAskFocus;
        },
        AskRoute::FocusAsk => {
            return SynopsisCommand::FocusAsk;
        },
        AskRoute::AskCard => {
            return SynopsisCommand::AskCard;
        },
        AskRoute::Overlay => {},
    }
    if str_eq(key, "Tab") || str_eq(key, "ISO_Left_Tab") {
        return SynopsisCommand::Swallow;
    }
    if str_eq(key, "Escape") {
        return SynopsisCommand::Close;
    }
    let g = str_eq(key, "g");
    if g && ctrl {
        ks.chord = ChordState::Idle;
        return SynopsisCommand::Swallow;
    }
    if ks.chord == ChordState::PendingG {
        ks.chord = ChordState::Idle;
        if g {
            return SynopsisCommand::FirstBlock;
        }
        return SynopsisCommand::Swallow;
    }
    if str_eq(key, "space") && shift {
        return SynopsisCommand::SynthAllBlocks;
    }
    let c = synopsis_keys(key, ctrl, shift, alt);
    if c == SynopsisCommand::StartChordG {
        ks.chord = ChordState::PendingG;
    }
    c
}

// ---------------------------------------------------------------------------
// The chat transcript
// ---------------------------------------------------------------------------

/// What the chat transcript's key handling reads of the panel.
#[derive(Clone, Copy, Debug, PartialEq, Eq, Structural)]
pub struct ChatView {
    /// The panel shows the journal view (not the gloss view).
    pub journal_view: bool,
    pub popup_visible: bool,
    /// A transcript selection is active.
    pub visual_active: bool,
}

/// What Escape does in the chat transcript.
#[derive(Clone, Copy, Debug, PartialEq, Eq, Structural)]
pub enum ChatEscape {
    /// Close the vocab popup.
    ClosePopup,
    /// Stop the chat loop and leave the selection.
    ExitVisual,
    /// Stop the chat loop and give the focus back to the reader.
    FocusReader,
}

/// A chat-transcript command.
#[derive(Clone, Copy, Debug, PartialEq, Eq, Structural)]
pub enum ChatCommand {
    /// `gg`: the first row.
    FirstRow,
    /// Consumed, nothing happens.
    Swallow,
    CloseLayout,
    FocusReader,
    MoveRow { down: bool },
    StartChordG,
    LastRow,
    ToggleVisual,
    Yank,
    SaveExchange,
    FocusPromptInsert,
    AddVocab,
    /// Rewrite the journal entry (journal view) or re-gloss the pinned
    /// passage.
    Rewrite { journal: bool },
    VocabTap { next_word: bool },
    TogglePanelView,
    CopyId { journal: bool },
    ConfirmDelete,
    FlipSide,
    CycleGloss { forward: bool },
    HalfPage { down: bool },
    OpenLegend,
    Escape(ChatEscape),
    ToggleSourceLoop,
}

/// What Escape does in the chat transcript.
pub open spec fn chat_escape_spec(v: ChatView) -> ChatEscape {
    if v.popup_visible {
        ChatEscape::ClosePopup
    } else if v.visual_active {
        ChatEscape::ExitVisual
    } else {
        ChatEscape::FocusReader
    }
}

fn chat_escape(v: ChatView) -> (r: ChatEscape)
    ensures
        r == chat_escape_spec(v),
{
    if v.popup_visible {
        ChatEscape::ClosePopup
    } else if v.visual_active {
        ChatEscape::ExitVisual
    } else {
        ChatEscape::FocusReader
    }
}

/// The chat transcript's command for a key once a pending `gg` is out of
/// the way.
pub open spec fn chat_keys_spec(v: ChatView, key: Seq<char>, ctrl: bool, shift: bool) -> ChatCommand {
    if (key == "Tab"@ || key == "ISO_Left_Tab"@) && ctrl {
        ChatCommand::CloseLayout
    } else if (key == "minus"@) {
        ChatCommand::CloseLayout
    } else if (key == "Tab"@ || key == "ISO_Left_Tab"@) {
        ChatCommand::FocusReader
    } else if (key == "j"@ || key == "h"@) {
        ChatCommand::MoveRow { down: true }
    } else if (key == "k"@ || key == "t"@) {
        ChatCommand::MoveRow { down: false }
    } else if (key == "g"@) {
        ChatCommand::StartChordG
    } else if (key == "G"@) {
        ChatCommand::LastRow
    } else if (key == "V"@) {
        ChatCommand::ToggleVisual
    } else if (key == "y"@) {
        ChatCommand::Yank
    } else if (key == "s"@) {
        ChatCommand::SaveExchange
    } else if (key == "a"@) {
        ChatCommand::FocusPromptInsert
    } else if (key == "r"@) && ctrl && !shift {
        ChatCommand::AddVocab
    } else if (key == "w"@) && ctrl {
        ChatCommand::Rewrite { journal: v.journal_view }
    } else if (key == "r"@) && !ctrl {
        ChatCommand::VocabTap { next_word: v.popup_visible }
    } else if (key == "R"@) {
        ChatCommand::Swallow
    } else if (key == "backslash"@) {
        ChatCommand::TogglePanelView
    } else if (key == "c"@) {
        ChatCommand::CopyId { journal: v.journal_view }
    } else if (key == "D"@) {
        ChatCommand::ConfirmDelete
    } else if (key == "l"@) && ctrl {
        ChatCommand::FlipSide
    } else if (key == "n"@) && ctrl {
        ChatCommand::CycleGloss { forward: true }
    } else if (key == "p"@) && ctrl {
        ChatCommand::CycleGloss { forward: false }
    } else if (key == "d"@) && ctrl {
        ChatCommand::HalfPage { down: true }
    } else if (key == "u"@) && ctrl {
        ChatCommand::HalfPage { down: false }
    } else if (key == "slash"@) && ctrl {
        ChatCommand::OpenLegend
    } else if (key == "Escape"@) {
        ChatCommand::Escape(chat_escape_spec(v))
    } else if (key == "space"@) {
        ChatCommand::ToggleSourceLoop
    } else {
        ChatCommand::Swallow
    }
}

fn chat_keys(v: ChatView, key: &str, ctrl: bool, shift: bool) -> (r: ChatCommand)
    ensures
        r == chat_keys_spec(v, key@, ctrl, shift),
{
    if (str_eq(key, "Tab") || str_eq(key, "ISO_Left_Tab")) && ctrl {
        ChatCommand::CloseLayout
    } else if (str_eq(key, "minus")) {
        ChatCommand::CloseLayout
    } else if (str_eq(key, "Tab") || str_eq(key, "ISO_Left_Tab")) {
        ChatCommand::FocusReader
    } else if (str_eq(key, "j") || str_eq(key, "h")) {
        ChatCommand::MoveRow { down: true }
    } else if (str_eq(key, "k") || str_eq(key, "t")) {
        ChatCommand::MoveRow { down: false }
    } else if (str_eq(key, "g")) {
        ChatCommand::StartChordG
    } else if (str_eq(key, "G")) {
        ChatCommand::LastRow
    } else if (str_eq(key, "V")) {
        ChatCommand::ToggleVisual
    } else if (str_eq(key, "y")) {
        ChatCommand::Yank
    } else if (str_eq(key, "s")) {
        ChatCommand::SaveExchange
    } else if (str_eq(key, "a")) {
        ChatCommand::FocusPromptInsert
    } else if (str_eq(key, "r")) && ctrl && !shift {
        ChatCommand::AddVocab
    } else if (str_eq(key, "w")) && ctrl {
        ChatCommand::Rewrite { journal: v.journal_view }
    } else if (str_eq(key, "r")) && !ctrl {
        ChatCommand::VocabTap { next_word: v.popup_visible }
    } else if (str_eq(key, "R")) {
        ChatCommand::Swallow
    } else if (str_eq(key, "backslash")) {
        ChatCommand::TogglePanelView
    } else if (str_eq(key, "c")) {
        ChatCommand::CopyId { journal: v.journal_view }
    } else if (str_eq(key, "D")) {
        ChatCommand::ConfirmDelete
    } else if (str_eq(key, "l")) && ctrl {
        ChatCommand::FlipSide
    } else if (str_eq(key, "n")) && ctrl {
        ChatCommand::CycleGloss { forward: true }
    } else if (str_eq(key, "p")) && ctrl {
        ChatCommand::CycleGloss { forward: false }
    } else if (str_eq(key, "d")) && ctrl {
        ChatCommand::HalfPage { down: true }
    } else if (str_eq(key, "u")) && ctrl {
        ChatCommand::HalfPage { down: false }
    } else if (str_eq(key, "slash")) && ctrl {
        ChatCommand::OpenLegend
    } else if (str_eq(key, "Escape")) {
        ChatCommand::Escape(chat_escape(v))
    } else if (str_eq(key, "space")) {
        ChatCommand::ToggleSourceLoop
    } else {
        ChatCommand::Swallow
    }
}

/// The chat transcript's command for a key, and the key state after it: a
/// pending `gg` is cleared and completed by `g` (another key goes on), then
/// `chat_keys_spec`, `g` and `r` arming their chords.
pub open spec fn chat_route_spec(ks: KeyState, v: ChatView, key: Seq<char>, ctrl: bool, shift: bool) -> (KeyState, ChatCommand) {
    if ks.chord == ChordState::PendingG && key == "g"@ {
        (chord_cleared(ks), ChatCommand::FirstRow)
    } else {
        let ks1 = if ks.chord == ChordState::PendingG { chord_cleared(ks) } else { ks };
        let c = chat_keys_spec(v, key, ctrl, shift);
        (match c {
            ChatCommand::StartChordG => chord_started(ks1, ChordState::PendingG),
            ChatCommand::VocabTap { .. } => chord_started(ks1, ChordState::PendingR),
            _ => ks1,
        }, c)
    }
}

/// The chat transcript's command for a key (see `chat_route_spec`). Every
/// key is consumed.
pub fn chat_transcript_command(ks: &mut KeyState, v: ChatView, key: &str, ctrl: bool, shift: bool) -> (r: ChatCommand)
    ensures
        (*final(ks), r) == chat_route_spec(*old(ks), v, key@, ctrl, shift),
{
    if ks.chord == ChordState::PendingG {
        ks.chord = ChordState::Idle;
        if str_eq(key, "g") {
            return ChatCommand::FirstRow;
        }
    }
    let c = chat_keys(v, key, ctrl, shift);
    match c {
        ChatCommand::StartChordG => {
            ks.chord = ChordState::PendingG;
        },
        ChatCommand::VocabTap { .. } => {
            ks.chord = ChordState::PendingR;
        },
        _ => {},
    }
    c
}


// ---------------------------------------------------------------------------
// Laws
// ---------------------------------------------------------------------------

/// Escape in an overlay beside a floating ask card that does not have the
/// focus gives the focus back to the card; it never closes the overlay (the
/// gloss, journal and synopsis overlays alike).
pub proof fn law_escape_beside_a_floating_card_refocuses(
    ks: KeyState,
    gv: GlossView,
    jv: JournalView,
    shift: bool,
    alt: bool,
)
    requires
        gv.ask_open && gv.ask_float && !gv.ask_focused,
        jv.ask_open && jv.ask_float && !jv.ask_focused,
    ensures
        gloss_route_spec(ks, gv, "Escape"@, false, shift, alt).1 == GlossCommand::FocusAsk,
        journal_route_spec(ks, jv, "Escape"@, false, shift, alt).1 == JournalCommand::FocusAsk,
        synopsis_route_spec(ks, true, true, false, "Escape"@, false, shift, alt).1 == SynopsisCommand::FocusAsk,
{
    reveal_strlit("Escape");
    reveal_strlit("Tab");
    reveal_strlit("ISO_Left_Tab");
}

/// While the ask card has the focus its editor takes every key but Ctrl+Tab
/// (which moves the focus when the card floats), and the key state is left
/// alone.
pub proof fn law_focused_ask_card_takes_every_key(
    ks: KeyState,
    gv: GlossView,
    jv: JournalView,
    key: Seq<char>,
    ctrl: bool,
    shift: bool,
    alt: bool,
)
    requires
        gv.ask_open && (!gv.ask_float || gv.ask_focused),
        jv.ask_open && (!jv.ask_float || jv.ask_focused),
        !(ctrl && (key == "Tab"@ || key == "ISO_Left_Tab"@)),
    ensures
        gloss_route_spec(ks, gv, key, ctrl, shift, alt) == (ks, GlossCommand::AskCard),
        journal_route_spec(ks, jv, key, ctrl, shift, alt) == (ks, JournalCommand::AskCard),
{
}

} // verus!
