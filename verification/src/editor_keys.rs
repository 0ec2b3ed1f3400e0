//! Keys in the vim surfaces: the in-place editors of the journal, gloss and
//! synopsis text, the copy-only segment view, and the chat prompt. A single
//! Escape returns the editor to Normal mode and two in quick succession leave
//! it; the editor engine turns the other keys into actions, which each
//! surface carries out in its own way. Pasted text has its line endings
//! normalized.

use vstd::prelude::*;
use crate::keymap::{gtk_key_to_vim, vim_key_spec, EscTimer, VimKey};
use crate::overlay_keys::{ask_intercept, ask_step_spec, esc_pressed, is_double_esc, AskKey};
use crate::text::str_eq;

verus! {

// ---------------------------------------------------------------------------
// The in-place editors
// ---------------------------------------------------------------------------

/// What an in-place editor does with a key before the engine sees it.
#[derive(Clone, Copy, Debug, PartialEq, Eq, Structural)]
pub enum EditorKey {
    /// A second Escape in quick succession: leave the editor
    /// (`editor_exit_command`).
    Exit,
    /// A single Escape: feed it to the engine (back to Normal mode).
    Escape,
    /// Ctrl+`v` / Ctrl+Shift+`V`: paste the clipboard at the cursor.
    Paste,
    /// Feed this key to the engine.
    Feed(VimKey),
    /// Not editor input: swallowed, so it reaches no other handler.
    Swallow,
}

/// What an editor does with a key that is not a bare Escape; `pastes` is the
/// editor accepting pastes (the copy-only segment view does not).
pub open spec fn editor_key_spec(key: Seq<char>, key_char: Option<char>, ctrl: bool, pastes: bool) -> EditorKey {
    if pastes && ctrl && (key == "v"@ || key == "V"@) {
        EditorKey::Paste
    } else {
        match vim_key_spec(key, key_char, ctrl) {
            Some(k) => EditorKey::Feed(k),
            None => EditorKey::Swallow,
        }
    }
}

/// An editor takes a key at `now_ms`, and the Escape timer after it.
pub open spec fn editor_step_spec(
    esc: EscTimer,
    now_ms: u64,
    key: Seq<char>,
    key_char: Option<char>,
    ctrl: bool,
    pastes: bool,
) -> (EscTimer, EditorKey) {
    if key == "Escape"@ && !ctrl {
        (esc_pressed(esc, now_ms), if is_double_esc(esc, now_ms) { EditorKey::Exit } else { EditorKey::Escape })
    } else {
        (esc, editor_key_spec(key, key_char, ctrl, pastes))
    }
}

/// An editor takes a key at `now_ms` (see `editor_step_spec`).
pub fn editor_key(esc: &mut EscTimer, now_ms: u64, key: &str, key_char: Option<char>, ctrl: bool, pastes: bool) -> (r: EditorKey)
    ensures
        (*final(esc), r) == editor_step_spec(*old(esc), now_ms, key@, key_char, ctrl, pastes),
{
    if str_eq(key, "Escape") && !ctrl {
        if esc.press(now_ms) {
            return EditorKey::Exit;
        }
        return EditorKey::Escape;
    }
    if pastes && ctrl && (str_eq(key, "v") || str_eq(key, "V")) {
        return EditorKey::Paste;
    }
    match gtk_key_to_vim(key, key_char, ctrl) {
        Some(k) => EditorKey::Feed(k),
        None => EditorKey::Swallow,
    }
}

/// What the vim engine made of a key (the yanked text of a visual `y` stays
/// with the caller).
#[derive(Clone, Copy, Debug, PartialEq, Eq, Structural)]
pub enum EngineAction {
    Nop,
    /// `:w`.
    Save,
    /// `:wq`.
    SaveQuit,
    /// `:q`.
    Cancel,
    /// `:q!`.
    CancelForce,
    /// `R`: ask for a rewrite.
    OpenRewrite,
    /// The engine toggled a highlight in its buffer.
    ToggleHighlight,
    /// Visual `y`: the engine yanked a selection.
    CopyToClipboard,
}

/// The surface an in-place editor edits.
#[derive(Clone, Copy, Debug, PartialEq, Eq, Structural)]
pub enum EditorSurface {
    /// A journal page.
    Journal,
    /// A gloss.
    Gloss,
    /// A scene synopsis.
    Synopsis,
    /// The reader's copy-only view of a segment.
    SegmentView,
}

/// What an editor surface does with an engine action.
#[derive(Clone, Copy, Debug, PartialEq, Eq, Structural)]
pub enum EditorCommand {
    /// Save the text, leaving the editor when `quit`.
    Save { quit: bool },
    /// Leave the editor without saving (`:q`, or `:q!` when `force`).
    Cancel { force: bool },
    /// Open the rewrite request for the text.
    OpenRewrite,
    /// Refuse to save (a toast says the view is copy-only).
    RefuseSave,
    /// Close the copy-only view.
    Close,
    /// Copy the yanked text to the system clipboard, with a toast when
    /// `toast`.
    Copy { toast: bool },
    /// Nothing more to do.
    Nop,
}

/// Each surface's command for an engine action: the journal and the
/// gloss/synopsis editors save and cancel (only the journal editor opens a
/// rewrite from inside the editor); the copy-only segment view refuses every
/// save and rewrite, closes on either cancel, and copies with a toast.
pub open spec fn editor_command_spec(surface: EditorSurface, action: EngineAction) -> EditorCommand {
    match action {
        EngineAction::Save => if surface == EditorSurface::SegmentView {
            EditorCommand::RefuseSave
        } else {
            EditorCommand::Save { quit: false }
        },
        EngineAction::SaveQuit => if surface == EditorSurface::SegmentView {
            EditorCommand::RefuseSave
        } else {
            EditorCommand::Save { quit: true }
        },
        EngineAction::Cancel => if surface == EditorSurface::SegmentView {
            EditorCommand::Close
        } else {
            EditorCommand::Cancel { force: false }
        },
        EngineAction::CancelForce => if surface == EditorSurface::SegmentView {
            EditorCommand::Close
        } else {
            EditorCommand::Cancel { force: true }
        },
        EngineAction::OpenRewrite => match surface {
            EditorSurface::Journal => EditorCommand::OpenRewrite,
            EditorSurface::SegmentView => EditorCommand::RefuseSave,
            _ => EditorCommand::Nop,
        },
        EngineAction::CopyToClipboard => EditorCommand::Copy { toast: surface == EditorSurface::SegmentView },
        EngineAction::ToggleHighlight => EditorCommand::Nop,
        EngineAction::Nop => EditorCommand::Nop,
    }
}

/// A surface's command for an engine action (see `editor_command_spec`).
pub fn editor_command(surface: EditorSurface, action: EngineAction) -> (r: EditorCommand)
    ensures
        r == editor_command_spec(surface, action),
{
    let segment = surface == EditorSurface::SegmentView;
    match action {
        EngineAction::Save => if segment { EditorCommand::RefuseSave } else { EditorCommand::Save { quit: false } },
        EngineAction::SaveQuit => if segment { EditorCommand::RefuseSave } else { EditorCommand::Save { quit: true } },
        EngineAction::Cancel => if segment { EditorCommand::Close } else { EditorCommand::Cancel { force: false } },
        EngineAction::CancelForce => if segment { EditorCommand::Close } else { EditorCommand::Cancel { force: true } },
        EngineAction::OpenRewrite => match surface {
            EditorSurface::Journal => EditorCommand::OpenRewrite,
            EditorSurface::SegmentView => EditorCommand::RefuseSave,
            _ => EditorCommand::Nop,
        },
        EngineAction::CopyToClipboard => EditorCommand::Copy { toast: segment },
        EngineAction::ToggleHighlight => EditorCommand::Nop,
        EngineAction::Nop => EditorCommand::Nop,
    }
}

/// What a double Escape does on each surface: the journal editor cancels,
/// the gloss and synopsis editors cancel with force, the segment view
/// closes.
pub open spec fn editor_exit_spec(surface: EditorSurface) -> EditorCommand {
    match surface {
        EditorSurface::Journal => EditorCommand::Cancel { force: false },
        EditorSurface::SegmentView => EditorCommand::Close,
        _ => EditorCommand::Cancel { force: true },
    }
}

/// A surface's command for a double Escape (see `editor_exit_spec`).
pub fn editor_exit_command(surface: EditorSurface) -> (r: EditorCommand)
    ensures
        r == editor_exit_spec(surface),
{
    match surface {
        EditorSurface::Journal => EditorCommand::Cancel { force: false },
        EditorSurface::SegmentView => EditorCommand::Close,
        _ => EditorCommand::Cancel { force: true },
    }
}

/// The copy-only segment view never persists anything: no engine action and
/// no Escape gives a save or a rewrite there, and it takes no paste.
pub proof fn law_segment_view_never_saves(
    action: EngineAction,
    esc: EscTimer,
    now_ms: u64,
    key: Seq<char>,
    key_char: Option<char>,
    ctrl: bool,
)
    ensures
        !(editor_command_spec(EditorSurface::SegmentView, action) is Save),
        editor_command_spec(EditorSurface::SegmentView, action) != EditorCommand::OpenRewrite,
        !(editor_exit_spec(EditorSurface::SegmentView) is Save),
        editor_step_spec(esc, now_ms, key, key_char, ctrl, false).1 != EditorKey::Paste,
{
}

// ---------------------------------------------------------------------------
// The ask cards and the chat prompt
// ---------------------------------------------------------------------------

/// What an open ask card (a vim prompt) does with an engine action: `:w` and
/// `:wq` submit, `:q` and `:q!` close, visual `y` copies.
#[derive(Clone, Copy, Debug, PartialEq, Eq, Structural)]
pub enum AskEngineOutcome {
    Submit,
    Close,
    Copy,
    Nothing,
}

/// An ask card's outcome for an engine action.
pub fn ask_engine_outcome(action: EngineAction) -> (r: AskEngineOutcome)
    ensures
        r == match action {
            EngineAction::Save | EngineAction::SaveQuit => AskEngineOutcome::Submit,
            EngineAction::Cancel | EngineAction::CancelForce => AskEngineOutcome::Close,
            EngineAction::CopyToClipboard => AskEngineOutcome::Copy,
            _ => AskEngineOutcome::Nothing,
        },
{
    match action {
        EngineAction::Save | EngineAction::SaveQuit => AskEngineOutcome::Submit,
        EngineAction::Cancel | EngineAction::CancelForce => AskEngineOutcome::Close,
        EngineAction::CopyToClipboard => AskEngineOutcome::Copy,
        _ => AskEngineOutcome::Nothing,
    }
}

/// What the chat prompt does with a key. Every key is consumed.
#[derive(Clone, Copy, Debug, PartialEq, Eq, Structural)]
pub enum ChatPromptCommand {
    /// Ctrl+Tab: close the chat panel.
    CloseChat,
    /// Tab: move the focus to the transcript.
    FocusTranscript,
    /// Ctrl+`l`: move the panel to the other side.
    FlipSide,
    /// Ctrl+`/`: open the panel's keybind legend (returning to the prompt).
    OpenLegend,
    /// The prompt's vim card takes the key.
    Card(AskKey),
}

/// The chat prompt's command at `now_ms`, and the Escape timer after it:
/// the panel keys come before the vim card can take them.
pub open spec fn chat_prompt_spec(
    esc: EscTimer,
    now_ms: u64,
    key: Seq<char>,
    key_char: Option<char>,
    ctrl: bool,
) -> (EscTimer, ChatPromptCommand) {
    let tab = key == "Tab"@ || key == "ISO_Left_Tab"@;
    if tab && ctrl {
        (esc, ChatPromptCommand::CloseChat)
    } else if tab {
        (esc, ChatPromptCommand::FocusTranscript)
    } else if key == "l"@ && ctrl {
        (esc, ChatPromptCommand::FlipSide)
    } else if key == "slash"@ && ctrl {
        (esc, ChatPromptCommand::OpenLegend)
    } else {
        let (e, a) = ask_step_spec(esc, now_ms, key, key_char, ctrl);
        (e, ChatPromptCommand::Card(a))
    }
}

/// The chat prompt's command for a key (see `chat_prompt_spec`).
pub fn chat_prompt_key_command(esc: &mut EscTimer, now_ms: u64, key: &str, key_char: Option<char>, ctrl: bool) -> (r: ChatPromptCommand)
    ensures
        (*final(esc), r) == chat_prompt_spec(*old(esc), now_ms, key@, key_char, ctrl),
{
    let tab = str_eq(key, "Tab") || str_eq(key, "ISO_Left_Tab");
    if tab && ctrl {
        ChatPromptCommand::CloseChat
    } else if tab {
        ChatPromptCommand::FocusTranscript
    } else if str_eq(key, "l") && ctrl {
        ChatPromptCommand::FlipSide
    } else if str_eq(key, "slash") && ctrl {
        ChatPromptCommand::OpenLegend
    } else {
        ChatPromptCommand::Card(ask_intercept(esc, now_ms, key, key_char, ctrl))
    }
}

/// How the chat prompt finishes when its card submits or closes.
#[derive(Clone, Copy, Debug, PartialEq, Eq, Structural)]
pub enum ChatPromptFinish {
    /// Submit the text as the instruction of the stashed rewrite.
    SubmitRewrite,
    /// Submit the text as a new question.
    SubmitQuestion,
    /// Drop the stashed rewrite and finish the return to the journal view.
    CancelRewrite,
    /// Hide the prompt and focus the transcript.
    CloseInput,
}

/// The chat prompt's finish: a submit is a rewrite instruction when a
/// rewrite is stashed; a close cancels a stashed rewrite that was started
/// from the panel, and otherwise hides the prompt.
pub fn chat_prompt_finish(submit: bool, rewrite_stashed: bool, rewrite_return: bool) -> (r: ChatPromptFinish)
    ensures
        r == (if submit {
            if rewrite_stashed { ChatPromptFinish::SubmitRewrite } else { ChatPromptFinish::SubmitQuestion }
        } else if rewrite_stashed && rewrite_return {
            ChatPromptFinish::CancelRewrite
        } else {
            ChatPromptFinish::CloseInput
        }),
{
    if submit {
        if rewrite_stashed { ChatPromptFinish::SubmitRewrite } else { ChatPromptFinish::SubmitQuestion }
    } else if rewrite_stashed && rewrite_return {
        ChatPromptFinish::CancelRewrite
    } else {
        ChatPromptFinish::CloseInput
    }
}

// ---------------------------------------------------------------------------
// Pasted text
// ---------------------------------------------------------------------------

/// `s` with each CR LF pair, and then each remaining CR, turned into LF.
pub open spec fn normalized_newlines(s: Seq<char>) -> Seq<char>
    decreases s.len(),
{
    if s.len() == 0 {
        s
    } else if s[0] == '\r' && s.len() >= 2 && s[1] == '\n' {
        seq!['\n'] + normalized_newlines(s.skip(2))
    } else if s[0] == '\r' {
        seq!['\n'] + normalized_newlines(s.skip(1))
    } else {
        seq![s[0]] + normalized_newlines(s.skip(1))
    }
}

/// Pasted text with its line endings normalized to LF, so CR LF and bare
/// CR from other sources never reach an editor buffer.
pub fn normalize_line_endings(text: &str) -> (r: String)
    ensures
        r@ == normalized_newlines(text@),
{
    let n = text.unicode_len();
    let mut out = String::new();
    let mut i: usize = 0;
    proof {
        reveal_strlit("\n");
        assert(text@.skip(0) =~= text@);
    }
    while i < n
        invariant
            n == text@.len(),
            i <= n,
            out@ + normalized_newlines(text@.skip(i as int)) == normalized_newlines(text@),
        decreases n - i,
    {
        let c = text.get_char(i);
        let ghost rest = text@.skip(i as int);
        if c == '\r' {
            proof {
                reveal_strlit("\n");
            }
            if i + 1 < n && text.get_char(i + 1) == '\n' {
                proof {
                    assert(rest.skip(2) =~= text@.skip(i + 2));
                    assert(out@ + seq!['\n'] + normalized_newlines(rest.skip(2))
                        =~= out@ + normalized_newlines(rest));
                }
                out.append("\n");
                i = i + 2;
            } else {
                proof {
                    assert(rest.skip(1) =~= text@.skip(i + 1));
                    assert(out@ + seq!['\n'] + normalized_newlines(rest.skip(1))
                        =~= out@ + normalized_newlines(rest));
                }
                out.append("\n");
                i = i + 1;
            }
        } else {
            let one = text.substring_char(i, i + 1);
            proof {
                assert(one@ =~= seq![c]);
                assert(rest.skip(1) =~= text@.skip(i + 1));
                assert(out@ + seq![c] + normalized_newlines(rest.skip(1)) =~= out@ + normalized_newlines(rest));
            }
            out.append(one);
            i = i + 1;
        }
    }
    proof {
        assert(text@.skip(n as int) =~= Seq::<char>::empty());
        assert(out@ + Seq::<char>::empty() =~= out@);
    }
    out
}

} // verus!
