use linux_lit::editor_keys::{
    ask_engine_outcome, chat_prompt_finish, chat_prompt_key_command, editor_command, editor_exit_command, editor_key,
    normalize_line_endings, AskEngineOutcome, ChatPromptCommand, ChatPromptFinish, EditorCommand, EditorKey,
    EditorSurface, EngineAction,
};
use linux_lit::keymap::{EscTimer, VimKey};
use linux_lit::overlay_keys::AskKey;

#[test]
fn editor_escape_rhythm() {
    let mut esc = EscTimer::new();
    assert_eq!(editor_key(&mut esc, 1000, "Escape", None, false, true), EditorKey::Escape);
    assert_eq!(editor_key(&mut esc, 1200, "Escape", None, false, true), EditorKey::Exit);
    assert_eq!(esc.last_ms, None);
    assert_eq!(editor_key(&mut esc, 2000, "Escape", None, false, true), EditorKey::Escape);
    assert_eq!(editor_key(&mut esc, 3000, "Escape", None, false, true), EditorKey::Escape);
    assert_eq!(esc.last_ms, Some(3000));
}

#[test]
fn editor_keys_feed_paste_and_swallow() {
    let mut esc = EscTimer::new();
    assert_eq!(editor_key(&mut esc, 0, "v", Some('v'), true, true), EditorKey::Paste);
    assert_eq!(editor_key(&mut esc, 0, "V", Some('V'), true, true), EditorKey::Paste);
    assert_eq!(editor_key(&mut esc, 0, "v", Some('v'), true, false), EditorKey::Swallow);
    assert_eq!(editor_key(&mut esc, 0, "x", Some('x'), false, true), EditorKey::Feed(VimKey::Char('x')));
    assert_eq!(editor_key(&mut esc, 0, "Return", None, true, true), EditorKey::Feed(VimKey::Enter));
    assert_eq!(editor_key(&mut esc, 0, "r", Some('r'), true, true), EditorKey::Feed(VimKey::CtrlR));
    assert_eq!(editor_key(&mut esc, 0, "F5", None, false, true), EditorKey::Swallow);
    assert_eq!(esc.last_ms, None);
}

#[test]
fn engine_actions_per_surface() {

    assert_eq!(editor_command(EditorSurface::Journal, EngineAction::Save), EditorCommand::Save { quit: false });
    assert_eq!(editor_command(EditorSurface::Gloss, EngineAction::SaveQuit), EditorCommand::Save { quit: true });
    assert_eq!(editor_command(EditorSurface::Synopsis, EngineAction::Cancel), EditorCommand::Cancel { force: false });
    assert_eq!(editor_command(EditorSurface::Journal, EngineAction::CancelForce), EditorCommand::Cancel { force: true });
    assert_eq!(editor_command(EditorSurface::Journal, EngineAction::OpenRewrite), EditorCommand::OpenRewrite);
    assert_eq!(editor_command(EditorSurface::Gloss, EngineAction::OpenRewrite), EditorCommand::Nop);
    assert_eq!(editor_command(EditorSurface::Gloss, EngineAction::CopyToClipboard), EditorCommand::Copy { toast: false });
    assert_eq!(editor_command(EditorSurface::Gloss, EngineAction::ToggleHighlight), EditorCommand::Nop);
    // The copy-only view.
    assert_eq!(editor_command(EditorSurface::SegmentView, EngineAction::Save), EditorCommand::RefuseSave);
    assert_eq!(editor_command(EditorSurface::SegmentView, EngineAction::SaveQuit), EditorCommand::RefuseSave);
    assert_eq!(editor_command(EditorSurface::SegmentView, EngineAction::OpenRewrite), EditorCommand::RefuseSave);
    assert_eq!(editor_command(EditorSurface::SegmentView, EngineAction::Cancel), EditorCommand::Close);
    assert_eq!(editor_command(EditorSurface::SegmentView, EngineAction::CopyToClipboard), EditorCommand::Copy { toast: true });
    assert_eq!(editor_exit_command(EditorSurface::Journal), EditorCommand::Cancel { force: false });
    assert_eq!(editor_exit_command(EditorSurface::Synopsis), EditorCommand::Cancel { force: true });
    assert_eq!(editor_exit_command(EditorSurface::SegmentView), EditorCommand::Close);
}

#[test]
fn ask_card_engine_outcomes() {
    assert_eq!(ask_engine_outcome(EngineAction::SaveQuit), AskEngineOutcome::Submit);
    assert_eq!(ask_engine_outcome(EngineAction::CancelForce), AskEngineOutcome::Close);
    assert_eq!(ask_engine_outcome(EngineAction::CopyToClipboard), AskEngineOutcome::Copy);
    assert_eq!(ask_engine_outcome(EngineAction::OpenRewrite), AskEngineOutcome::Nothing);
}

#[test]
fn chat_prompt_keys() {
    let mut esc = EscTimer::new();
    assert_eq!(chat_prompt_key_command(&mut esc, 0, "Tab", None, true), ChatPromptCommand::CloseChat);
    assert_eq!(chat_prompt_key_command(&mut esc, 0, "ISO_Left_Tab", None, false), ChatPromptCommand::FocusTranscript);
    assert_eq!(chat_prompt_key_command(&mut esc, 0, "l", Some('l'), true), ChatPromptCommand::FlipSide);
    assert_eq!(chat_prompt_key_command(&mut esc, 0, "slash", Some('/'), true), ChatPromptCommand::OpenLegend);
    assert_eq!(chat_prompt_key_command(&mut esc, 0, "Return", None, true), ChatPromptCommand::Card(AskKey::Submit));
    assert_eq!(chat_prompt_key_command(&mut esc, 0, "l", Some('l'), false), ChatPromptCommand::Card(AskKey::Feed(VimKey::Char('l'))));
    assert_eq!(chat_prompt_key_command(&mut esc, 500, "Escape", None, false), ChatPromptCommand::Card(AskKey::Escape));
    assert_eq!(chat_prompt_key_command(&mut esc, 600, "Escape", None, false), ChatPromptCommand::Card(AskKey::CloseAsk));
}

#[test]
fn chat_prompt_finishing() {
    assert_eq!(chat_prompt_finish(true, true, false), ChatPromptFinish::SubmitRewrite);
    assert_eq!(chat_prompt_finish(true, false, true), ChatPromptFinish::SubmitQuestion);
    assert_eq!(chat_prompt_finish(false, true, true), ChatPromptFinish::CancelRewrite);
    assert_eq!(chat_prompt_finish(false, true, false), ChatPromptFinish::CloseInput);
    assert_eq!(chat_prompt_finish(false, false, true), ChatPromptFinish::CloseInput);
}

#[test]
fn pasted_line_endings() {
    assert_eq!(normalize_line_endings("a\r\nb"), "a\nb");
    assert_eq!(normalize_line_endings("a\rb"), "a\nb");
    assert_eq!(normalize_line_endings("a\r\r\nb\r"), "a\n\nb\n");
    assert_eq!(normalize_line_endings("plain\ntext"), "plain\ntext");
    assert_eq!(normalize_line_endings("Q?\r\n\r\nA."), "Q?\n\nA.");
    assert_eq!(normalize_line_endings(""), "");
    assert_eq!(normalize_line_endings("é\r\n—"), "é\n—");
    for s in ["x\r\ny\rz", "\r\r\r\n", "\n\r"] {
        assert_eq!(normalize_line_endings(s), s.replace("\r\n", "\n").replace('\r', "\n"));
    }
}
