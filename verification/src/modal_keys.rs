//! Keys in the modal screens: page calibration, the confirmation boxes, the
//! echo pickers and overlay, the keybind legends, the vocab drill, the visual
//! selections and the translation overlay. Each of them consumes every key
//! while it is up, so no reader binding fires behind it.

use vstd::prelude::*;
use crate::keymap::{ChordState, InputMode, KeyState};
use crate::overlay_keys::{chord_cleared, chord_started};
use crate::text::str_eq;

verus! {

// ---------------------------------------------------------------------------
// Page calibration
// ---------------------------------------------------------------------------

/// What page calibration does with a key.
#[derive(Clone, Copy, Debug, PartialEq, Eq, Structural)]
pub enum CalibrationCommand {
    /// `gg`: show the first page.
    FirstPage,
    /// `G`: show the last page.
    LastPage,
    /// `g`: arm the `gg` chord.
    StartChordG,
    /// Return: mark the cursor line as the page's first line and advance.
    Mark,
    /// Escape: finish (recompute the ranges and save).
    Finish,
    /// `n`/`p`: step a page without marking.
    StepPage { forward: bool },
    /// `j`/`k`: move the cursor to the next or previous mapped line
    /// (`calibration_cursor_step`), then refresh the caption.
    MoveCursor { down: bool },
    /// Consume the key and do nothing.
    Swallow,
}

/// Page calibration's command, and the key state after it: a pending `gg`
/// is completed by `g` (any other key is consumed) and cleared either way.
pub open spec fn calibration_spec(ks: KeyState, key: Seq<char>) -> (KeyState, CalibrationCommand) {
    if ks.chord == ChordState::PendingG {
        (chord_cleared(ks), if key == "g"@ { CalibrationCommand::FirstPage } else { CalibrationCommand::Swallow })
    } else if key == "Return"@ {
        (ks, CalibrationCommand::Mark)
    } else if key == "Escape"@ {
        (ks, CalibrationCommand::Finish)
    } else if key == "g"@ {
        (chord_started(ks, ChordState::PendingG), CalibrationCommand::StartChordG)
    } else if key == "G"@ {
        (ks, CalibrationCommand::LastPage)
    } else if key == "n"@ {
        (ks, CalibrationCommand::StepPage { forward: true })
    } else if key == "p"@ {
        (ks, CalibrationCommand::StepPage { forward: false })
    } else if key == "j"@ {
        (ks, CalibrationCommand::MoveCursor { down: true })
    } else if key == "k"@ {
        (ks, CalibrationCommand::MoveCursor { down: false })
    } else {
        (ks, CalibrationCommand::Swallow)
    }
}

/// Page calibration's command for a key (see `calibration_spec`).
pub fn calibration_key_command(ks: &mut KeyState, key: &str) -> (r: CalibrationCommand)
    ensures
        (*final(ks), r) == calibration_spec(*old(ks), key@),
{
    if ks.chord == ChordState::PendingG {
        ks.chord = ChordState::Idle;
        if str_eq(key, "g") {
            return CalibrationCommand::FirstPage;
        }
        return CalibrationCommand::Swallow;
    }
    if str_eq(key, "Return") {
        CalibrationCommand::Mark
    } else if str_eq(key, "Escape") {
        CalibrationCommand::Finish
    } else if str_eq(key, "g") {
        ks.chord = ChordState::PendingG;
        CalibrationCommand::StartChordG
    } else if str_eq(key, "G") {
        CalibrationCommand::LastPage
    } else if str_eq(key, "n") {
        CalibrationCommand::StepPage { forward: true }
    } else if str_eq(key, "p") {
        CalibrationCommand::StepPage { forward: false }
    } else if str_eq(key, "j") {
        CalibrationCommand::MoveCursor { down: true }
    } else if str_eq(key, "k") {
        CalibrationCommand::MoveCursor { down: false }
    } else {
        CalibrationCommand::Swallow
    }
}

/// Line `i` has a work line (`mapped` holds one flag per buffer line; lines
/// past its end have none).
pub open spec fn is_mapped(mapped: Seq<bool>, i: int) -> bool {
    0 <= i < mapped.len() && mapped[i]
}

/// The calibration cursor's step: the nearest line after `cur` (down) or
/// before it (up) that has a work line, so the cursor never rests on chrome,
/// blank or unmapped rows; `None` (the cursor stays) when there is none.
pub fn calibration_cursor_step(mapped: &[bool], cur: usize, down: bool) -> (r: Option<usize>)
    ensures
        down ==> match r {
            Some(j) => cur < j && is_mapped(mapped@, j as int)
                && forall|k: int| cur < k < j ==> !is_mapped(mapped@, k),
            None => forall|k: int| cur < k ==> !is_mapped(mapped@, k),
        },
        !down ==> match r {
            Some(j) => j < cur && is_mapped(mapped@, j as int)
                && forall|k: int| j < k < cur ==> !is_mapped(mapped@, k),
            None => forall|k: int| 0 <= k < cur ==> !is_mapped(mapped@, k),
        },
{
    let n = mapped.len();
    if down {
        if cur >= n {
            return None;
        }
        let mut probe = cur;
        while probe + 1 < n
            invariant
                down,
                n == mapped@.len(),
                cur <= probe < n,
                forall|k: int| cur < k <= probe ==> !is_mapped(mapped@, k),
            decreases n - probe,
        {
            probe = probe + 1;
            if mapped[probe] {
                return Some(probe);
            }
        }
        None
    } else {
        let mut probe = cur;
        while probe > 0
            invariant
                !down,
                probe <= cur,
                forall|k: int| probe <= k < cur ==> !is_mapped(mapped@, k),
            decreases probe,
        {
            probe = probe - 1;
            if probe < mapped.len() && mapped[probe] {
                return Some(probe);
            }
        }
        None
    }
}

// ---------------------------------------------------------------------------
// The confirmation boxes
// ---------------------------------------------------------------------------

/// What the delete confirmation does with a key. Every key is consumed.
#[derive(Clone, Copy, Debug, PartialEq, Eq, Structural)]
pub enum DeleteConfirmCommand {
    /// `y`: close the box, then delete the journal entry shown.
    DeleteJournalEntry,
    /// `y`: close the box, then delete the chat item captured when the box
    /// opened.
    DeleteChatItem,
    /// `y`: close the box, then delete the gloss shown.
    DeleteGloss,
    /// Escape or `n`: close the box.
    Close,
    /// Consume the key and do nothing.
    Swallow,
}

/// The delete confirmation's command for a box opened from `origin`.
pub open spec fn delete_confirm_spec(origin: Option<InputMode>, key: Seq<char>) -> DeleteConfirmCommand {
    if key == "y"@ {
        match origin {
            Some(InputMode::JournalOverlay) => DeleteConfirmCommand::DeleteJournalEntry,
            Some(InputMode::ChatTranscript) => DeleteConfirmCommand::DeleteChatItem,
            _ => DeleteConfirmCommand::DeleteGloss,
        }
    } else if key == "Escape"@ || key == "n"@ {
        DeleteConfirmCommand::Close
    } else {
        DeleteConfirmCommand::Swallow
    }
}

/// The delete confirmation's command for a key (see `delete_confirm_spec`).
pub fn delete_confirm_key_command(origin: Option<InputMode>, key: &str) -> (r: DeleteConfirmCommand)
    ensures
        r == delete_confirm_spec(origin, key@),
{
    if str_eq(key, "y") {
        match origin {
            Some(InputMode::JournalOverlay) => DeleteConfirmCommand::DeleteJournalEntry,
            Some(InputMode::ChatTranscript) => DeleteConfirmCommand::DeleteChatItem,
            _ => DeleteConfirmCommand::DeleteGloss,
        }
    } else if str_eq(key, "Escape") || str_eq(key, "n") {
        DeleteConfirmCommand::Close
    } else {
        DeleteConfirmCommand::Swallow
    }
}

/// The edit that the undo confirmation undoes.
#[derive(Clone, Copy, Debug, PartialEq, Eq, Structural)]
pub enum UndoTarget {
    GlossEdit,
    SynopsisAmend,
    JournalEdit,
}

/// What the undo confirmation does with a key. Every key is consumed.
#[derive(Clone, Copy, Debug, PartialEq, Eq, Structural)]
pub enum UndoConfirmCommand {
    /// `y`: close the box (back to the overlay it came from), then undo
    /// that overlay's last edit.
    Undo(UndoTarget),
    /// Escape or `n`, or `y` for a box with no undoable origin: close.
    Close,
    /// Consume the key and do nothing.
    Swallow,
}

/// The undo confirmation's command for a box opened from `origin`.
pub open spec fn undo_confirm_spec(origin: Option<InputMode>, key: Seq<char>) -> UndoConfirmCommand {
    if key == "y"@ {
        match origin {
            Some(InputMode::GlossOverlay) => UndoConfirmCommand::Undo(UndoTarget::GlossEdit),
            Some(InputMode::SynopsisOverlay) => UndoConfirmCommand::Undo(UndoTarget::SynopsisAmend),
            Some(InputMode::JournalOverlay) => UndoConfirmCommand::Undo(UndoTarget::JournalEdit),
            _ => UndoConfirmCommand::Close,
        }
    } else if key == "Escape"@ || key == "n"@ {
        UndoConfirmCommand::Close
    } else {
        UndoConfirmCommand::Swallow
    }
}

/// The undo confirmation's command for a key (see `undo_confirm_spec`).
pub fn undo_confirm_key_command(origin: Option<InputMode>, key: &str) -> (r: UndoConfirmCommand)
    ensures
        r == undo_confirm_spec(origin, key@),
{
    if str_eq(key, "y") {
        match origin {
            Some(InputMode::GlossOverlay) => UndoConfirmCommand::Undo(UndoTarget::GlossEdit),
            Some(InputMode::SynopsisOverlay) => UndoConfirmCommand::Undo(UndoTarget::SynopsisAmend),
            Some(InputMode::JournalOverlay) => UndoConfirmCommand::Undo(UndoTarget::JournalEdit),
            _ => UndoConfirmCommand::Close,
        }
    } else if str_eq(key, "Escape") || str_eq(key, "n") {
        UndoConfirmCommand::Close
    } else {
        UndoConfirmCommand::Swallow
    }
}

/// What the journal's rewrite-target chooser does with a key. Each command
/// first tears the chooser down (which restores the journal overlay).
#[derive(Clone, Copy, Debug, PartialEq, Eq, Structural)]
pub enum RewriteCommand {
    /// `a`: rewrite the answer in the journal overlay.
    RewriteAnswer,
    /// `a` from the chat panel: stash the shown page's answer and open the
    /// panel's rewrite instruction card.
    RewriteAnswerInPanel,
    /// `q`: rewrite the question; `b`: the question and the answer.
    RewriteQuestion { with_answer: bool },
    /// Escape or any other key: dismiss the chooser; from the chat panel,
    /// finish the return to the panel.
    Dismiss { finish_panel: bool },
}

/// The rewrite-target chooser's command; `from_panel` is the chooser having
/// been opened from the chat panel.
pub open spec fn rewrite_spec(from_panel: bool, key: Seq<char>) -> RewriteCommand {
    if key == "a"@ {
        if from_panel { RewriteCommand::RewriteAnswerInPanel } else { RewriteCommand::RewriteAnswer }
    } else if key == "q"@ {
        RewriteCommand::RewriteQuestion { with_answer: false }
    } else if key == "b"@ {
        RewriteCommand::RewriteQuestion { with_answer: true }
    } else {
        RewriteCommand::Dismiss { finish_panel: from_panel }
    }
}

/// The rewrite-target chooser's command for a key (see `rewrite_spec`).
pub fn rewrite_target_key_command(from_panel: bool, key: &str) -> (r: RewriteCommand)
    ensures
        r == rewrite_spec(from_panel, key@),
{
    if str_eq(key, "a") {
        if from_panel { RewriteCommand::RewriteAnswerInPanel } else { RewriteCommand::RewriteAnswer }
    } else if str_eq(key, "q") {
        RewriteCommand::RewriteQuestion { with_answer: false }
    } else if str_eq(key, "b") {
        RewriteCommand::RewriteQuestion { with_answer: true }
    } else {
        RewriteCommand::Dismiss { finish_panel: from_panel }
    }
}

// ---------------------------------------------------------------------------
// The echoes
// ---------------------------------------------------------------------------

/// What the echo picker (a suggested echo before an inner-monologue gloss)
/// does with a key. Every key is consumed.
#[derive(Clone, Copy, Debug, PartialEq, Eq, Structural)]
pub enum EchoPickerCommand {
    /// `j`/Down, `k`/Up: move the selection one row.
    MoveSelection { down: bool },
    /// Return: hide the picker and gloss with the selected echo.
    GlossWithSelected,
    /// `n`: hide the picker and gloss without an echo.
    GlossWithoutEcho,
    /// Escape: cancel the gloss.
    Cancel,
    /// Consume the key and do nothing.
    Swallow,
}

/// The echo picker's command.
pub open spec fn echo_picker_spec(key: Seq<char>) -> EchoPickerCommand {
    if key == "j"@ || key == "Down"@ {
        EchoPickerCommand::MoveSelection { down: true }
    } else if key == "k"@ || key == "Up"@ {
        EchoPickerCommand::MoveSelection { down: false }
    } else if key == "Return"@ {
        EchoPickerCommand::GlossWithSelected
    } else if key == "n"@ {
        EchoPickerCommand::GlossWithoutEcho
    } else if key == "Escape"@ {
        EchoPickerCommand::Cancel
    } else {
        EchoPickerCommand::Swallow
    }
}

/// The echo picker's command for a key (see `echo_picker_spec`).
pub fn echo_picker_key_command(key: &str) -> (r: EchoPickerCommand)
    ensures
        r == echo_picker_spec(key@),
{
    if str_eq(key, "j") || str_eq(key, "Down") {
        EchoPickerCommand::MoveSelection { down: true }
    } else if str_eq(key, "k") || str_eq(key, "Up") {
        EchoPickerCommand::MoveSelection { down: false }
    } else if str_eq(key, "Return") {
        EchoPickerCommand::GlossWithSelected
    } else if str_eq(key, "n") {
        EchoPickerCommand::GlossWithoutEcho
    } else if str_eq(key, "Escape") {
        EchoPickerCommand::Cancel
    } else {
        EchoPickerCommand::Swallow
    }
}

/// What the echo-turns picker does with a key. Every key is consumed.
#[derive(Clone, Copy, Debug, PartialEq, Eq, Structural)]
pub enum EchoTurnsCommand {
    /// `j`/Down, `k`/Up: move the selection one row.
    MoveSelection { down: bool },
    /// Return: confirm the picked turns.
    Confirm,
    /// Escape: hide the picker and return to the reader.
    Close,
    /// Consume the key and do nothing.
    Swallow,
}

/// The echo-turns picker's command.
pub open spec fn echo_turns_spec(key: Seq<char>) -> EchoTurnsCommand {
    if key == "j"@ || key == "Down"@ {
        EchoTurnsCommand::MoveSelection { down: true }
    } else if key == "k"@ || key == "Up"@ {
        EchoTurnsCommand::MoveSelection { down: false }
    } else if key == "Return"@ {
        EchoTurnsCommand::Confirm
    } else if key == "Escape"@ {
        EchoTurnsCommand::Close
    } else {
        EchoTurnsCommand::Swallow
    }
}

/// The echo-turns picker's command for a key (see `echo_turns_spec`).
pub fn echo_turns_key_command(key: &str) -> (r: EchoTurnsCommand)
    ensures
        r == echo_turns_spec(key@),
{
    if str_eq(key, "j") || str_eq(key, "Down") {
        EchoTurnsCommand::MoveSelection { down: true }
    } else if str_eq(key, "k") || str_eq(key, "Up") {
        EchoTurnsCommand::MoveSelection { down: false }
    } else if str_eq(key, "Return") {
        EchoTurnsCommand::Confirm
    } else if str_eq(key, "Escape") {
        EchoTurnsCommand::Close
    } else {
        EchoTurnsCommand::Swallow
    }
}

/// What the echoes overlay does with a key. Every key is consumed.
#[derive(Clone, Copy, Debug, PartialEq, Eq, Structural)]
pub enum EchoesCommand {
    /// `gg`: select the first echo.
    SelectFirst,
    /// `G`: select the last echo.
    SelectLast,
    /// `g`: arm the `gg` chord.
    StartChordG,
    /// Ctrl+Up / Ctrl+Down: raise or lower the volume.
    Volume { up: bool },
    /// Ctrl+`/`: open the overlay's keybind legend.
    OpenLegend,
    /// `n`/`p`: move the selection one echo.
    MoveSelection { down: bool },
    /// Return: jump to the selected echo.
    JumpToSelected,
    /// `c`: copy the selected echo.
    CopySelected,
    /// `a`: loop the source turn's recorded media.
    PlaySourceTurn,
    /// Space: play the selected echo's recorded media.
    PlaySelected,
    /// `s`: toggle the selected echo's curated mark.
    ToggleCurated,
    /// `d`: delete the selected echo.
    DeleteSelected,
    /// `D`: delete every echo.
    DeleteAll,
    /// `R`: look the echoes up again.
    Refresh,
    /// Up/Down: move the selected echo one place.
    Reorder { down: bool },
    /// `A`: open the picker that adds an echo line.
    OpenAddPicker,
    /// `j`/`k`: scroll the gloss text.
    Scroll { down: bool },
    /// `;`: show the scene toast for the line the overlay was opened from.
    SceneToast,
    /// Escape: close the overlay (ending the echo session and any loop) and
    /// return to the reader.
    Close,
    /// Consume the key and do nothing.
    Swallow,
}

/// The echoes overlay's command for a key that neither completes a chord
/// nor is a Ctrl binding.
pub open spec fn echoes_keys_spec(key: Seq<char>) -> EchoesCommand {
    if key == "n"@ {
        EchoesCommand::MoveSelection { down: true }
    } else if key == "p"@ {
        EchoesCommand::MoveSelection { down: false }
    } else if key == "Return"@ {
        EchoesCommand::JumpToSelected
    } else if key == "c"@ {
        EchoesCommand::CopySelected
    } else if key == "a"@ {
        EchoesCommand::PlaySourceTurn
    } else if key == "space"@ {
        EchoesCommand::PlaySelected
    } else if key == "s"@ {
        EchoesCommand::ToggleCurated
    } else if key == "d"@ {
        EchoesCommand::DeleteSelected
    } else if key == "D"@ {
        EchoesCommand::DeleteAll
    } else if key == "R"@ {
        EchoesCommand::Refresh
    } else if key == "Up"@ {
        EchoesCommand::Reorder { down: false }
    } else if key == "Down"@ {
        EchoesCommand::Reorder { down: true }
    } else if key == "A"@ {
        EchoesCommand::OpenAddPicker
    } else if key == "g"@ {
        EchoesCommand::StartChordG
    } else if key == "G"@ {
        EchoesCommand::SelectLast
    } else if key == "j"@ {
        EchoesCommand::Scroll { down: true }
    } else if key == "k"@ {
        EchoesCommand::Scroll { down: false }
    } else if key == "semicolon"@ {
        EchoesCommand::SceneToast
    } else if key == "Escape"@ {
        EchoesCommand::Close
    } else {
        EchoesCommand::Swallow
    }
}

fn echoes_keys(key: &str) -> (r: EchoesCommand)
    ensures
        r == echoes_keys_spec(key@),
{
    if str_eq(key, "n") {
        EchoesCommand::MoveSelection { down: true }
    } else if str_eq(key, "p") {
        EchoesCommand::MoveSelection { down: false }
    } else if str_eq(key, "Return") {
        EchoesCommand::JumpToSelected
    } else if str_eq(key, "c") {
        EchoesCommand::CopySelected
    } else if str_eq(key, "a") {
        EchoesCommand::PlaySourceTurn
    } else if str_eq(key, "space") {
        EchoesCommand::PlaySelected
    } else if str_eq(key, "s") {
        EchoesCommand::ToggleCurated
    } else if str_eq(key, "d") {
        EchoesCommand::DeleteSelected
    } else if str_eq(key, "D") {
        EchoesCommand::DeleteAll
    } else if str_eq(key, "R") {
        EchoesCommand::Refresh
    } else if str_eq(key, "Up") {
        EchoesCommand::Reorder { down: false }
    } else if str_eq(key, "Down") {
        EchoesCommand::Reorder { down: true }
    } else if str_eq(key, "A") {
        EchoesCommand::OpenAddPicker
    } else if str_eq(key, "g") {
        EchoesCommand::StartChordG
    } else if str_eq(key, "G") {
        EchoesCommand::SelectLast
    } else if str_eq(key, "j") {
        EchoesCommand::Scroll { down: true }
    } else if str_eq(key, "k") {
        EchoesCommand::Scroll { down: false }
    } else if str_eq(key, "semicolon") {
        EchoesCommand::SceneToast
    } else if str_eq(key, "Escape") {
        EchoesCommand::Close
    } else {
        EchoesCommand::Swallow
    }
}

/// The echoes overlay's command, and the key state after it: a pending `gg`
/// is completed by `g` (any other key is consumed) and cleared either way;
/// then Ctrl+`g`, Ctrl+`j` and Ctrl+Tab are swallowed, Ctrl+Up/Down set the
/// volume and Ctrl+`/` opens the legend (other Ctrl keys read as the plain
/// key); Tab is swallowed; then `echoes_keys_spec`, `g` arming the chord.
pub open spec fn echoes_spec(ks: KeyState, key: Seq<char>, ctrl: bool) -> (KeyState, EchoesCommand) {
    if ks.chord == ChordState::PendingG {
        (chord_cleared(ks), if key == "g"@ { EchoesCommand::SelectFirst } else { EchoesCommand::Swallow })
    } else if ctrl && (key == "g"@ || key == "j"@ || key == "Tab"@ || key == "ISO_Left_Tab"@) {
        (ks, EchoesCommand::Swallow)
    } else if ctrl && key == "Up"@ {
        (ks, EchoesCommand::Volume { up: true })
    } else if ctrl && key == "Down"@ {
        (ks, EchoesCommand::Volume { up: false })
    } else if ctrl && key == "slash"@ {
        (ks, EchoesCommand::OpenLegend)
    } else if key == "Tab"@ || key == "ISO_Left_Tab"@ {
        (ks, EchoesCommand::Swallow)
    } else {
        let c = echoes_keys_spec(key);
        (if c == EchoesCommand::StartChordG { chord_started(ks, ChordState::PendingG) } else { ks }, c)
    }
}

/// The echoes overlay's command for a key (see `echoes_spec`).
pub fn echoes_key_command(ks: &mut KeyState, key: &str, ctrl: bool) -> (r: EchoesCommand)
    ensures
        (*final(ks), r) == echoes_spec(*old(ks), key@, ctrl),
{
    if ks.chord == ChordState::PendingG {
        ks.chord = ChordState::Idle;
        if str_eq(key, "g") {
            return EchoesCommand::SelectFirst;
        }
        return EchoesCommand::Swallow;
    }
    let tab = str_eq(key, "Tab") || str_eq(key, "ISO_Left_Tab");
    if ctrl && (str_eq(key, "g") || str_eq(key, "j") || tab) {
        return EchoesCommand::Swallow;
    }
    if ctrl && str_eq(key, "Up") {
        return EchoesCommand::Volume { up: true };
    }
    if ctrl && str_eq(key, "Down") {
        return EchoesCommand::Volume { up: false };
    }
    if ctrl && str_eq(key, "slash") {
        return EchoesCommand::OpenLegend;
    }
    if tab {
        return EchoesCommand::Swallow;
    }
    let c = echoes_keys(key);
    if c == EchoesCommand::StartChordG {
        ks.chord = ChordState::PendingG;
    }
    c
}

// ---------------------------------------------------------------------------
// The keybind screens and the vocab drill
// ---------------------------------------------------------------------------

/// A keybind legend (the echoes', an overlay's, the chat panel's) closes on
/// Escape or Ctrl+`/`, back to the screen that opened it; it consumes every
/// key.
pub fn legend_closes(key: &str, ctrl: bool) -> (r: bool)
    ensures
        r == (key@ == "Escape"@ || (ctrl && key@ == "slash"@)),
{
    str_eq(key, "Escape") || (ctrl && str_eq(key, "slash"))
}

/// What the keybinds overlay does with a key. Every key is consumed.
#[derive(Clone, Copy, Debug, PartialEq, Eq, Structural)]
pub enum KeybindsCommand {
    /// Escape: hide it and return to the mode it was opened from.
    Close,
    /// Ctrl+`n`/Ctrl+`p`: the next or previous row; past the last (before
    /// the first) row, the gamepad screen.
    Row { next: bool },
    /// Any other key: highlight that key's cap, if it has one.
    JumpToKey,
    /// Consume the key and do nothing.
    Swallow,
}

/// The keybinds overlay's command.
pub open spec fn keybinds_spec(key: Seq<char>, ctrl: bool) -> KeybindsCommand {
    if key == "Escape"@ {
        KeybindsCommand::Close
    } else if ctrl {
        if key == "n"@ {
            KeybindsCommand::Row { next: true }
        } else if key == "p"@ {
            KeybindsCommand::Row { next: false }
        } else {
            KeybindsCommand::Swallow
        }
    } else {
        KeybindsCommand::JumpToKey
    }
}

/// The keybinds overlay's command for a key (see `keybinds_spec`).
pub fn keybinds_key_command(key: &str, ctrl: bool) -> (r: KeybindsCommand)
    ensures
        r == keybinds_spec(key@, ctrl),
{
    if str_eq(key, "Escape") {
        KeybindsCommand::Close
    } else if ctrl {
        if str_eq(key, "n") {
            KeybindsCommand::Row { next: true }
        } else if str_eq(key, "p") {
            KeybindsCommand::Row { next: false }
        } else {
            KeybindsCommand::Swallow
        }
    } else {
        KeybindsCommand::JumpToKey
    }
}

/// What the gamepad screen (the last screen of the keybinds cycle) does with
/// a key. Every key is consumed.
#[derive(Clone, Copy, Debug, PartialEq, Eq, Structural)]
pub enum GamepadCommand {
    /// Escape: hide it and return to the mode the keybinds were opened from.
    Close,
    /// `n`/Up: wrap to the first keyboard row.
    FirstRow,
    /// `p`/Down: back to the last keyboard row.
    LastRow,
    /// Consume the key and do nothing.
    Swallow,
}

/// The gamepad screen's command.
pub open spec fn gamepad_spec(key: Seq<char>) -> GamepadCommand {
    if key == "Escape"@ {
        GamepadCommand::Close
    } else if key == "n"@ || key == "Up"@ {
        GamepadCommand::FirstRow
    } else if key == "p"@ || key == "Down"@ {
        GamepadCommand::LastRow
    } else {
        GamepadCommand::Swallow
    }
}

/// The gamepad screen's command for a key (see `gamepad_spec`).
pub fn gamepad_key_command(key: &str) -> (r: GamepadCommand)
    ensures
        r == gamepad_spec(key@),
{
    if str_eq(key, "Escape") {
        GamepadCommand::Close
    } else if str_eq(key, "n") || str_eq(key, "Up") {
        GamepadCommand::FirstRow
    } else if str_eq(key, "p") || str_eq(key, "Down") {
        GamepadCommand::LastRow
    } else {
        GamepadCommand::Swallow
    }
}

/// What the vocab sentence drill does with a key. Every key is consumed, so
/// no reader binding fires mid-drill.
#[derive(Clone, Copy, Debug, PartialEq, Eq, Structural)]
pub enum VocabLoopCommand {
    /// `n`/`p`: the next or previous sentence.
    Advance { forward: bool },
    /// `a`/Space: pause or resume.
    TogglePause,
    /// Escape, or Ctrl+`r`/`R`/`=` (the drill's own entry key): leave.
    Exit,
    /// Consume the key and do nothing.
    Swallow,
}

/// The vocab drill's command.
pub open spec fn vocab_loop_spec(key: Seq<char>, ctrl: bool) -> VocabLoopCommand {
    if key == "n"@ && !ctrl {
        VocabLoopCommand::Advance { forward: true }
    } else if key == "p"@ && !ctrl {
        VocabLoopCommand::Advance { forward: false }
    } else if (key == "a"@ || key == "space"@) && !ctrl {
        VocabLoopCommand::TogglePause
    } else if key == "Escape"@ {
        VocabLoopCommand::Exit
    } else if (key == "r"@ || key == "R"@ || key == "equal"@) && ctrl {
        VocabLoopCommand::Exit
    } else {
        VocabLoopCommand::Swallow
    }
}

/// The vocab drill's command for a key (see `vocab_loop_spec`).
pub fn vocab_loop_key_command(key: &str, ctrl: bool) -> (r: VocabLoopCommand)
    ensures
        r == vocab_loop_spec(key@, ctrl),
{
    if str_eq(key, "n") && !ctrl {
        VocabLoopCommand::Advance { forward: true }
    } else if str_eq(key, "p") && !ctrl {
        VocabLoopCommand::Advance { forward: false }
    } else if (str_eq(key, "a") || str_eq(key, "space")) && !ctrl {
        VocabLoopCommand::TogglePause
    } else if str_eq(key, "Escape") {
        VocabLoopCommand::Exit
    } else if (str_eq(key, "r") || str_eq(key, "R") || str_eq(key, "equal")) && ctrl {
        VocabLoopCommand::Exit
    } else {
        VocabLoopCommand::Swallow
    }
}

// ---------------------------------------------------------------------------
// The action menu and the visual selections
// ---------------------------------------------------------------------------

/// What the action menu of a visual selection does with a key. Every key is
/// consumed.
#[derive(Clone, Copy, Debug, PartialEq, Eq, Structural)]
pub enum ActionPopupCommand {
    /// Ctrl+`n`/Ctrl+`p`: move the selection one row.
    MoveSelection { down: bool },
    /// Return: close the menu and run the selected action.
    Execute,
    /// Escape: close the menu.
    Close,
    /// Consume the key and do nothing.
    Swallow,
}

/// The action menu's command.
pub open spec fn action_popup_spec(key: Seq<char>, ctrl: bool) -> ActionPopupCommand {
    if ctrl && key == "n"@ {
        ActionPopupCommand::MoveSelection { down: true }
    } else if ctrl && key == "p"@ {
        ActionPopupCommand::MoveSelection { down: false }
    } else if key == "Return"@ {
        ActionPopupCommand::Execute
    } else if key == "Escape"@ {
        ActionPopupCommand::Close
    } else {
        ActionPopupCommand::Swallow
    }
}

/// The action menu's command for a key (see `action_popup_spec`).
pub fn action_popup_key_command(key: &str, ctrl: bool) -> (r: ActionPopupCommand)
    ensures
        r == action_popup_spec(key@, ctrl),
{
    if ctrl && str_eq(key, "n") {
        ActionPopupCommand::MoveSelection { down: true }
    } else if ctrl && str_eq(key, "p") {
        ActionPopupCommand::MoveSelection { down: false }
    } else if str_eq(key, "Return") {
        ActionPopupCommand::Execute
    } else if str_eq(key, "Escape") {
        ActionPopupCommand::Close
    } else {
        ActionPopupCommand::Swallow
    }
}

/// What the reader's visual selection does with a key. Every key is
/// consumed.
#[derive(Clone, Copy, Debug, PartialEq, Eq, Structural)]
pub enum VisualCommand {
    /// Ctrl+`a`, or Return on a selection made for a question: open the
    /// journal question card for the selection.
    AskSelection,
    /// Tab: open the chat panel pinned to the selection.
    ChatPinned,
    /// `-`: a reader gloss of the selection in the chat.
    ReaderGlossChat,
    /// `j`/`k`: move the selection's cursor one line.
    MoveCursor { down: bool },
    /// `G`: extend the selection to the end.
    ExtendToEnd,
    /// `g`: arm the `gg` chord (extend to the start).
    StartChordG,
    /// Escape or `V`: leave visual mode.
    Exit,
    /// `y`: copy the selection.
    Yank,
    /// Return: open the action menu.
    OpenActionPopup,
    /// `i`: show the selection's echoes.
    ShowEchoes,
    /// Consume the key and do nothing.
    Swallow,
}

/// The visual selection's command, and the key state after it (`g` arms the
/// `gg` chord); `pending_ask` is the selection having been made for a
/// question.
pub open spec fn visual_spec(ks: KeyState, key: Seq<char>, ctrl: bool, pending_ask: bool) -> (KeyState, VisualCommand) {
    if key == "a"@ && ctrl {
        (ks, VisualCommand::AskSelection)
    } else if key == "Tab"@ || key == "ISO_Left_Tab"@ {
        (ks, VisualCommand::ChatPinned)
    } else if key == "minus"@ {
        (ks, VisualCommand::ReaderGlossChat)
    } else if key == "j"@ {
        (ks, VisualCommand::MoveCursor { down: true })
    } else if key == "k"@ {
        (ks, VisualCommand::MoveCursor { down: false })
    } else if key == "G"@ {
        (ks, VisualCommand::ExtendToEnd)
    } else if key == "g"@ {
        (chord_started(ks, ChordState::PendingG), VisualCommand::StartChordG)
    } else if key == "Escape"@ || key == "V"@ {
        (ks, VisualCommand::Exit)
    } else if key == "y"@ {
        (ks, VisualCommand::Yank)
    } else if key == "Return"@ {
        (ks, if pending_ask { VisualCommand::AskSelection } else { VisualCommand::OpenActionPopup })
    } else if key == "i"@ {
        (ks, VisualCommand::ShowEchoes)
    } else {
        (ks, VisualCommand::Swallow)
    }
}

/// The visual selection's command for a key (see `visual_spec`).
pub fn visual_key_command(ks: &mut KeyState, key: &str, ctrl: bool, pending_ask: bool) -> (r: VisualCommand)
    ensures
        (*final(ks), r) == visual_spec(*old(ks), key@, ctrl, pending_ask),
{
    if str_eq(key, "a") && ctrl {
        VisualCommand::AskSelection
    } else if str_eq(key, "Tab") || str_eq(key, "ISO_Left_Tab") {
        VisualCommand::ChatPinned
    } else if str_eq(key, "minus") {
        VisualCommand::ReaderGlossChat
    } else if str_eq(key, "j") {
        VisualCommand::MoveCursor { down: true }
    } else if str_eq(key, "k") {
        VisualCommand::MoveCursor { down: false }
    } else if str_eq(key, "G") {
        VisualCommand::ExtendToEnd
    } else if str_eq(key, "g") {
        ks.chord = ChordState::PendingG;
        VisualCommand::StartChordG
    } else if str_eq(key, "Escape") || str_eq(key, "V") {
        VisualCommand::Exit
    } else if str_eq(key, "y") {
        VisualCommand::Yank
    } else if str_eq(key, "Return") {
        if pending_ask { VisualCommand::AskSelection } else { VisualCommand::OpenActionPopup }
    } else if str_eq(key, "i") {
        VisualCommand::ShowEchoes
    } else {
        VisualCommand::Swallow
    }
}

/// What a block selection inside an overlay (gloss, synopsis or journal)
/// does with a key. Every key is consumed.
#[derive(Clone, Copy, Debug, PartialEq, Eq, Structural)]
pub enum BlockVisualCommand {
    /// `gg`: extend to the first block; `G`: to the last.
    ExtendToEnd { last: bool },
    /// `g`: arm the `gg` chord.
    StartChordG,
    /// `j`/`q`, `k`/`,`: extend the selection one block down or up.
    Step { down: bool },
    /// `y`: copy the selected blocks (if any text), leave the selection and
    /// return to the overlay.
    Yank,
    /// Escape or `V`: leave the selection and return to the overlay.
    Exit,
    /// Consume the key and do nothing.
    Swallow,
}

/// A block selection's command, and the key state after it: a pending `gg`
/// is completed by `g` (any other key is consumed) and cleared either way.
pub open spec fn block_visual_spec(ks: KeyState, key: Seq<char>) -> (KeyState, BlockVisualCommand) {
    if ks.chord == ChordState::PendingG {
        (
            chord_cleared(ks),
            if key == "g"@ { BlockVisualCommand::ExtendToEnd { last: false } } else { BlockVisualCommand::Swallow },
        )
    } else if key == "j"@ || key == "q"@ {
        (ks, BlockVisualCommand::Step { down: true })
    } else if key == "k"@ || key == "comma"@ {
        (ks, BlockVisualCommand::Step { down: false })
    } else if key == "G"@ {
        (ks, BlockVisualCommand::ExtendToEnd { last: true })
    } else if key == "g"@ {
        (chord_started(ks, ChordState::PendingG), BlockVisualCommand::StartChordG)
    } else if key == "y"@ {
        (ks, BlockVisualCommand::Yank)
    } else if key == "Escape"@ || key == "V"@ {
        (ks, BlockVisualCommand::Exit)
    } else {
        (ks, BlockVisualCommand::Swallow)
    }
}

/// A block selection's command for a key (see `block_visual_spec`).
pub fn block_visual_key_command(ks: &mut KeyState, key: &str) -> (r: BlockVisualCommand)
    ensures
        (*final(ks), r) == block_visual_spec(*old(ks), key@),
{
    if ks.chord == ChordState::PendingG {
        ks.chord = ChordState::Idle;
        if str_eq(key, "g") {
            return BlockVisualCommand::ExtendToEnd { last: false };
        }
        return BlockVisualCommand::Swallow;
    }
    if str_eq(key, "j") || str_eq(key, "q") {
        BlockVisualCommand::Step { down: true }
    } else if str_eq(key, "k") || str_eq(key, "comma") {
        BlockVisualCommand::Step { down: false }
    } else if str_eq(key, "G") {
        BlockVisualCommand::ExtendToEnd { last: true }
    } else if str_eq(key, "g") {
        ks.chord = ChordState::PendingG;
        BlockVisualCommand::StartChordG
    } else if str_eq(key, "y") {
        BlockVisualCommand::Yank
    } else if str_eq(key, "Escape") || str_eq(key, "V") {
        BlockVisualCommand::Exit
    } else {
        BlockVisualCommand::Swallow
    }
}

/// A pending `gg` never outlives the next key in page calibration, the
/// echoes overlay and the block selections: whatever the key, the chord is
/// cleared, and only `g` acts on it.
pub proof fn law_pending_gg_ends_with_the_next_key(ks: KeyState, key: Seq<char>, ctrl: bool)
    requires
        ks.chord == ChordState::PendingG,
    ensures
        calibration_spec(ks, key).0.chord == ChordState::Idle,
        echoes_spec(ks, key, ctrl).0.chord == ChordState::Idle,
        block_visual_spec(ks, key).0.chord == ChordState::Idle,
        key != "g"@ ==> calibration_spec(ks, key).1 == CalibrationCommand::Swallow
            && echoes_spec(ks, key, ctrl).1 == EchoesCommand::Swallow
            && block_visual_spec(ks, key).1 == BlockVisualCommand::Swallow,
{
}

// ---------------------------------------------------------------------------
// The translation overlay
// ---------------------------------------------------------------------------

/// What the translation overlay does with a key. Every key is consumed.
#[derive(Clone, Copy, Debug, PartialEq, Eq, Structural)]
pub enum TranslationCommand {
    /// Escape, or `i` (the key that opened it): close to the reader.
    Close,
    /// `,`/`q`: the reader's previous / next dialogue jump, then resync.
    JumpDialogue { forward: bool },
    /// `k`/`j`: the reader's dialogue cursor step, then resync.
    CursorDialogue { forward: bool },
    /// `y`/`x`: turn the overlay's page (`translation_page_turn`).
    PageTurn { forward: bool },
    /// `[`/`{`: the previous / next scene, then resync.
    Scene { forward: bool },
    /// Space: play from the cursor line's start time.
    PlayLine,
    /// `a`: pause or resume.
    TogglePause,
    /// `s`: toggle the playback sync.
    ToggleSync,
    /// Consume the key and do nothing.
    Swallow,
}

/// The translation overlay's command: `i` closes before anything else, and
/// Ctrl+`j` is swallowed before the plain `j` can step the cursor.
pub open spec fn translation_spec(key: Seq<char>, ctrl: bool) -> TranslationCommand {
    if key == "i"@ {
        TranslationCommand::Close
    } else if key == "j"@ && ctrl {
        TranslationCommand::Swallow
    } else if key == "Escape"@ {
        TranslationCommand::Close
    } else if key == "comma"@ {
        TranslationCommand::JumpDialogue { forward: false }
    } else if key == "q"@ {
        TranslationCommand::JumpDialogue { forward: true }
    } else if key == "j"@ {
        TranslationCommand::CursorDialogue { forward: true }
    } else if key == "k"@ {
        TranslationCommand::CursorDialogue { forward: false }
    } else if key == "x"@ {
        TranslationCommand::PageTurn { forward: true }
    } else if key == "y"@ {
        TranslationCommand::PageTurn { forward: false }
    } else if key == "bracketleft"@ {
        TranslationCommand::Scene { forward: false }
    } else if key == "braceleft"@ {
        TranslationCommand::Scene { forward: true }
    } else if key == "space"@ {
        TranslationCommand::PlayLine
    } else if key == "a"@ {
        TranslationCommand::TogglePause
    } else if key == "s"@ {
        TranslationCommand::ToggleSync
    } else {
        TranslationCommand::Swallow
    }
}

/// The translation overlay's command for a key (see `translation_spec`).
pub fn translation_key_command(key: &str, ctrl: bool) -> (r: TranslationCommand)
    ensures
        r == translation_spec(key@, ctrl),
{
    if str_eq(key, "i") {
        TranslationCommand::Close
    } else if str_eq(key, "j") && ctrl {
        TranslationCommand::Swallow
    } else if str_eq(key, "Escape") {
        TranslationCommand::Close
    } else if str_eq(key, "comma") {
        TranslationCommand::JumpDialogue { forward: false }
    } else if str_eq(key, "q") {
        TranslationCommand::JumpDialogue { forward: true }
    } else if str_eq(key, "j") {
        TranslationCommand::CursorDialogue { forward: true }
    } else if str_eq(key, "k") {
        TranslationCommand::CursorDialogue { forward: false }
    } else if str_eq(key, "x") {
        TranslationCommand::PageTurn { forward: true }
    } else if str_eq(key, "y") {
        TranslationCommand::PageTurn { forward: false }
    } else if str_eq(key, "bracketleft") {
        TranslationCommand::Scene { forward: false }
    } else if str_eq(key, "braceleft") {
        TranslationCommand::Scene { forward: true }
    } else if str_eq(key, "space") {
        TranslationCommand::PlayLine
    } else if str_eq(key, "a") {
        TranslationCommand::TogglePause
    } else if str_eq(key, "s") {
        TranslationCommand::ToggleSync
    } else {
        TranslationCommand::Swallow
    }
}

/// Where a translation-overlay page turn takes the reader's cursor.
#[derive(Clone, Copy, Debug, PartialEq, Eq, Structural)]
pub enum TranslationTurn {
    /// Jump to this buffer line (the first line of the adjacent overlay page).
    JumpToLine(usize),
    /// The adjacent page's work line has no buffer line: stay.
    Stay,
    /// At the first / last page: go to the previous / next scene instead.
    AdjacentScene { forward: bool },
}

/// A translation-overlay page turn: `target` is the work line that the
/// overlay's pagination gives for the adjacent page (`None` at the first or
/// last page), mapped to a buffer line through `work_to_buffer` when the work
/// has a line map, else taken as the buffer line itself.
pub fn translation_page_turn(target: Option<usize>, work_to_buffer: Option<&[usize]>, forward: bool) -> (r: TranslationTurn)
    ensures
        r == match target {
            None => TranslationTurn::AdjacentScene { forward },
            Some(w) => match work_to_buffer {
                None => TranslationTurn::JumpToLine(w),
                Some(m) => if w < m@.len() { TranslationTurn::JumpToLine(m@[w as int]) } else { TranslationTurn::Stay },
            },
        },
{
    match target {
        None => TranslationTurn::AdjacentScene { forward },
        Some(w) => match work_to_buffer {
            None => TranslationTurn::JumpToLine(w),
            Some(m) => if w < m.len() { TranslationTurn::JumpToLine(m[w]) } else { TranslationTurn::Stay },
        },
    }
}

} // verus!
