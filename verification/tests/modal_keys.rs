use linux_lit::keymap::{ChordState, InputMode, KeyState};
use linux_lit::modal_keys::{
    action_popup_key_command, block_visual_key_command, calibration_cursor_step, calibration_key_command,
    delete_confirm_key_command, echo_picker_key_command, echo_turns_key_command, echoes_key_command,
    gamepad_key_command, keybinds_key_command, legend_closes, rewrite_target_key_command, translation_key_command,
    translation_page_turn, undo_confirm_key_command, visual_key_command, vocab_loop_key_command, ActionPopupCommand,
    BlockVisualCommand, CalibrationCommand, DeleteConfirmCommand, EchoPickerCommand, EchoTurnsCommand, EchoesCommand,
    GamepadCommand, KeybindsCommand, RewriteCommand, TranslationCommand, TranslationTurn, UndoConfirmCommand,
    UndoTarget, VisualCommand, VocabLoopCommand,
};

fn idle() -> KeyState {
    KeyState::default()
}

#[test]
fn calibration_gg_and_keys() {
    let mut ks = idle();
    assert_eq!(calibration_key_command(&mut ks, "g"), CalibrationCommand::StartChordG);
    assert_eq!(ks.chord, ChordState::PendingG);
    assert_eq!(calibration_key_command(&mut ks, "g"), CalibrationCommand::FirstPage);
    assert_eq!(ks.chord, ChordState::Idle);
    calibration_key_command(&mut ks, "g");
    assert_eq!(calibration_key_command(&mut ks, "n"), CalibrationCommand::Swallow);
    assert_eq!(ks.chord, ChordState::Idle);
    assert_eq!(calibration_key_command(&mut ks, "n"), CalibrationCommand::StepPage { forward: true });
    assert_eq!(calibration_key_command(&mut ks, "p"), CalibrationCommand::StepPage { forward: false });
    assert_eq!(calibration_key_command(&mut ks, "G"), CalibrationCommand::LastPage);
    assert_eq!(calibration_key_command(&mut ks, "Return"), CalibrationCommand::Mark);
    assert_eq!(calibration_key_command(&mut ks, "Escape"), CalibrationCommand::Finish);
    assert_eq!(calibration_key_command(&mut ks, "j"), CalibrationCommand::MoveCursor { down: true });
    assert_eq!(calibration_key_command(&mut ks, "k"), CalibrationCommand::MoveCursor { down: false });
    assert_eq!(calibration_key_command(&mut ks, "z"), CalibrationCommand::Swallow);
}

#[test]
fn calibration_cursor_skips_unmapped_lines() {
    let mapped = [false, true, false, false, true, false];
    assert_eq!(calibration_cursor_step(&mapped, 1, true), Some(4));
    assert_eq!(calibration_cursor_step(&mapped, 4, true), None);
    assert_eq!(calibration_cursor_step(&mapped, 4, false), Some(1));
    assert_eq!(calibration_cursor_step(&mapped, 1, false), None);
    assert_eq!(calibration_cursor_step(&mapped, 0, true), Some(1));
    assert_eq!(calibration_cursor_step(&mapped, 9, false), Some(4));
    assert_eq!(calibration_cursor_step(&mapped, 9, true), None);
    assert_eq!(calibration_cursor_step(&[], 0, true), None);
    assert_eq!(calibration_cursor_step(&[], 0, false), None);
}

#[test]
fn delete_and_undo_confirmations() {
    assert_eq!(delete_confirm_key_command(Some(InputMode::JournalOverlay), "y"), DeleteConfirmCommand::DeleteJournalEntry);
    assert_eq!(delete_confirm_key_command(Some(InputMode::ChatTranscript), "y"), DeleteConfirmCommand::DeleteChatItem);
    assert_eq!(delete_confirm_key_command(Some(InputMode::GlossOverlay), "y"), DeleteConfirmCommand::DeleteGloss);
    assert_eq!(delete_confirm_key_command(None, "y"), DeleteConfirmCommand::DeleteGloss);
    assert_eq!(delete_confirm_key_command(None, "n"), DeleteConfirmCommand::Close);
    assert_eq!(delete_confirm_key_command(None, "Escape"), DeleteConfirmCommand::Close);
    assert_eq!(delete_confirm_key_command(None, "x"), DeleteConfirmCommand::Swallow);

    assert_eq!(undo_confirm_key_command(Some(InputMode::GlossOverlay), "y"), UndoConfirmCommand::Undo(UndoTarget::GlossEdit));
    assert_eq!(undo_confirm_key_command(Some(InputMode::SynopsisOverlay), "y"), UndoConfirmCommand::Undo(UndoTarget::SynopsisAmend));
    assert_eq!(undo_confirm_key_command(Some(InputMode::JournalOverlay), "y"), UndoConfirmCommand::Undo(UndoTarget::JournalEdit));
    assert_eq!(undo_confirm_key_command(Some(InputMode::Reader), "y"), UndoConfirmCommand::Close);
    assert_eq!(undo_confirm_key_command(None, "n"), UndoConfirmCommand::Close);
    assert_eq!(undo_confirm_key_command(None, "q"), UndoConfirmCommand::Swallow);
}

#[test]
fn rewrite_target_chooser() {
    assert_eq!(rewrite_target_key_command(false, "a"), RewriteCommand::RewriteAnswer);
    assert_eq!(rewrite_target_key_command(true, "a"), RewriteCommand::RewriteAnswerInPanel);
    assert_eq!(rewrite_target_key_command(false, "q"), RewriteCommand::RewriteQuestion { with_answer: false });
    assert_eq!(rewrite_target_key_command(false, "b"), RewriteCommand::RewriteQuestion { with_answer: true });
    assert_eq!(rewrite_target_key_command(true, "Escape"), RewriteCommand::Dismiss { finish_panel: true });
    assert_eq!(rewrite_target_key_command(false, "z"), RewriteCommand::Dismiss { finish_panel: false });
}

#[test]
fn echo_pickers() {
    assert_eq!(echo_picker_key_command("j"), EchoPickerCommand::MoveSelection { down: true });
    assert_eq!(echo_picker_key_command("Up"), EchoPickerCommand::MoveSelection { down: false });
    assert_eq!(echo_picker_key_command("Return"), EchoPickerCommand::GlossWithSelected);
    assert_eq!(echo_picker_key_command("n"), EchoPickerCommand::GlossWithoutEcho);
    assert_eq!(echo_picker_key_command("Escape"), EchoPickerCommand::Cancel);
    assert_eq!(echo_picker_key_command("x"), EchoPickerCommand::Swallow);
    assert_eq!(echo_turns_key_command("Down"), EchoTurnsCommand::MoveSelection { down: true });
    assert_eq!(echo_turns_key_command("k"), EchoTurnsCommand::MoveSelection { down: false });
    assert_eq!(echo_turns_key_command("Return"), EchoTurnsCommand::Confirm);
    assert_eq!(echo_turns_key_command("Escape"), EchoTurnsCommand::Close);
    assert_eq!(echo_turns_key_command("n"), EchoTurnsCommand::Swallow);
}

#[test]
fn echoes_overlay_keys() {
    let mut ks = idle();
    assert_eq!(echoes_key_command(&mut ks, "g", false), EchoesCommand::StartChordG);
    assert_eq!(echoes_key_command(&mut ks, "g", false), EchoesCommand::SelectFirst);
    assert_eq!(ks.chord, ChordState::Idle);
    assert_eq!(echoes_key_command(&mut ks, "g", true), EchoesCommand::Swallow);
    assert_eq!(ks.chord, ChordState::Idle);
    assert_eq!(echoes_key_command(&mut ks, "Up", true), EchoesCommand::Volume { up: true });
    assert_eq!(echoes_key_command(&mut ks, "Down", true), EchoesCommand::Volume { up: false });
    assert_eq!(echoes_key_command(&mut ks, "Up", false), EchoesCommand::Reorder { down: false });
    assert_eq!(echoes_key_command(&mut ks, "Down", false), EchoesCommand::Reorder { down: true });
    assert_eq!(echoes_key_command(&mut ks, "slash", true), EchoesCommand::OpenLegend);
    assert_eq!(echoes_key_command(&mut ks, "Tab", false), EchoesCommand::Swallow);
    assert_eq!(echoes_key_command(&mut ks, "n", true), EchoesCommand::MoveSelection { down: true });
    assert_eq!(echoes_key_command(&mut ks, "p", false), EchoesCommand::MoveSelection { down: false });
    assert_eq!(echoes_key_command(&mut ks, "Return", false), EchoesCommand::JumpToSelected);
    assert_eq!(echoes_key_command(&mut ks, "c", false), EchoesCommand::CopySelected);
    assert_eq!(echoes_key_command(&mut ks, "a", false), EchoesCommand::PlaySourceTurn);
    assert_eq!(echoes_key_command(&mut ks, "space", false), EchoesCommand::PlaySelected);
    assert_eq!(echoes_key_command(&mut ks, "s", false), EchoesCommand::ToggleCurated);
    assert_eq!(echoes_key_command(&mut ks, "d", false), EchoesCommand::DeleteSelected);
    assert_eq!(echoes_key_command(&mut ks, "D", false), EchoesCommand::DeleteAll);
    assert_eq!(echoes_key_command(&mut ks, "R", false), EchoesCommand::Refresh);
    assert_eq!(echoes_key_command(&mut ks, "A", false), EchoesCommand::OpenAddPicker);
    assert_eq!(echoes_key_command(&mut ks, "G", false), EchoesCommand::SelectLast);
    assert_eq!(echoes_key_command(&mut ks, "j", false), EchoesCommand::Scroll { down: true });
    assert_eq!(echoes_key_command(&mut ks, "j", true), EchoesCommand::Swallow);
    assert_eq!(echoes_key_command(&mut ks, "semicolon", false), EchoesCommand::SceneToast);
    assert_eq!(echoes_key_command(&mut ks, "Escape", false), EchoesCommand::Close);
    assert_eq!(echoes_key_command(&mut ks, "q", false), EchoesCommand::Swallow);
}

#[test]
fn keybind_screens() {
    assert!(legend_closes("Escape", false));
    assert!(legend_closes("slash", true));
    assert!(!legend_closes("slash", false));
    assert!(!legend_closes("q", true));
    assert_eq!(keybinds_key_command("Escape", false), KeybindsCommand::Close);
    assert_eq!(keybinds_key_command("n", true), KeybindsCommand::Row { next: true });
    assert_eq!(keybinds_key_command("p", true), KeybindsCommand::Row { next: false });
    assert_eq!(keybinds_key_command("x", true), KeybindsCommand::Swallow);
    assert_eq!(keybinds_key_command("n", false), KeybindsCommand::JumpToKey);
    assert_eq!(gamepad_key_command("Escape"), GamepadCommand::Close);
    assert_eq!(gamepad_key_command("Up"), GamepadCommand::FirstRow);
    assert_eq!(gamepad_key_command("p"), GamepadCommand::LastRow);
    assert_eq!(gamepad_key_command("x"), GamepadCommand::Swallow);
}

#[test]
fn vocab_drill_keys() {
    assert_eq!(vocab_loop_key_command("n", false), VocabLoopCommand::Advance { forward: true });
    assert_eq!(vocab_loop_key_command("p", false), VocabLoopCommand::Advance { forward: false });
    assert_eq!(vocab_loop_key_command("space", false), VocabLoopCommand::TogglePause);
    assert_eq!(vocab_loop_key_command("Escape", false), VocabLoopCommand::Exit);
    assert_eq!(vocab_loop_key_command("equal", true), VocabLoopCommand::Exit);
    assert_eq!(vocab_loop_key_command("R", true), VocabLoopCommand::Exit);
    assert_eq!(vocab_loop_key_command("minus", true), VocabLoopCommand::Swallow);
    assert_eq!(vocab_loop_key_command("n", true), VocabLoopCommand::Swallow);
}

#[test]
fn action_menu_and_visual_keys() {
    assert_eq!(action_popup_key_command("n", true), ActionPopupCommand::MoveSelection { down: true });
    assert_eq!(action_popup_key_command("Return", false), ActionPopupCommand::Execute);
    assert_eq!(action_popup_key_command("Escape", false), ActionPopupCommand::Close);
    assert_eq!(action_popup_key_command("n", false), ActionPopupCommand::Swallow);

    let mut ks = idle();
    assert_eq!(visual_key_command(&mut ks, "a", true, false), VisualCommand::AskSelection);
    assert_eq!(visual_key_command(&mut ks, "Return", false, true), VisualCommand::AskSelection);
    assert_eq!(visual_key_command(&mut ks, "Return", false, false), VisualCommand::OpenActionPopup);
    assert_eq!(visual_key_command(&mut ks, "Tab", false, false), VisualCommand::ChatPinned);
    assert_eq!(visual_key_command(&mut ks, "minus", false, false), VisualCommand::ReaderGlossChat);
    assert_eq!(visual_key_command(&mut ks, "V", false, false), VisualCommand::Exit);
    assert_eq!(visual_key_command(&mut ks, "y", false, false), VisualCommand::Yank);
    assert_eq!(visual_key_command(&mut ks, "i", false, false), VisualCommand::ShowEchoes);
    assert_eq!(visual_key_command(&mut ks, "a", false, false), VisualCommand::Swallow);
    assert_eq!(ks.chord, ChordState::Idle);
    assert_eq!(visual_key_command(&mut ks, "g", false, false), VisualCommand::StartChordG);
    assert_eq!(ks.chord, ChordState::PendingG);
}

#[test]
fn block_visual_keys() {
    let mut ks = idle();
    assert_eq!(block_visual_key_command(&mut ks, "q"), BlockVisualCommand::Step { down: true });
    assert_eq!(block_visual_key_command(&mut ks, "comma"), BlockVisualCommand::Step { down: false });
    assert_eq!(block_visual_key_command(&mut ks, "G"), BlockVisualCommand::ExtendToEnd { last: true });
    assert_eq!(block_visual_key_command(&mut ks, "g"), BlockVisualCommand::StartChordG);
    assert_eq!(block_visual_key_command(&mut ks, "g"), BlockVisualCommand::ExtendToEnd { last: false });
    assert_eq!(block_visual_key_command(&mut ks, "y"), BlockVisualCommand::Yank);
    assert_eq!(block_visual_key_command(&mut ks, "Escape"), BlockVisualCommand::Exit);
    assert_eq!(block_visual_key_command(&mut ks, "s"), BlockVisualCommand::Swallow);
}

#[test]
fn translation_overlay_keys() {
    assert_eq!(translation_key_command("i", false), TranslationCommand::Close);
    assert_eq!(translation_key_command("Escape", false), TranslationCommand::Close);
    assert_eq!(translation_key_command("j", true), TranslationCommand::Swallow);
    assert_eq!(translation_key_command("j", false), TranslationCommand::CursorDialogue { forward: true });
    assert_eq!(translation_key_command("k", false), TranslationCommand::CursorDialogue { forward: false });
    assert_eq!(translation_key_command("comma", false), TranslationCommand::JumpDialogue { forward: false });
    assert_eq!(translation_key_command("q", false), TranslationCommand::JumpDialogue { forward: true });
    assert_eq!(translation_key_command("x", false), TranslationCommand::PageTurn { forward: true });
    assert_eq!(translation_key_command("y", false), TranslationCommand::PageTurn { forward: false });
    assert_eq!(translation_key_command("bracketleft", false), TranslationCommand::Scene { forward: false });
    assert_eq!(translation_key_command("braceleft", false), TranslationCommand::Scene { forward: true });
    assert_eq!(translation_key_command("space", false), TranslationCommand::PlayLine);
    assert_eq!(translation_key_command("a", false), TranslationCommand::TogglePause);
    assert_eq!(translation_key_command("s", false), TranslationCommand::ToggleSync);
    assert_eq!(translation_key_command("Tab", false), TranslationCommand::Swallow);
}

#[test]
fn translation_page_turns() {
    let map = [3usize, 7, 9];
    assert_eq!(translation_page_turn(Some(1), Some(&map), true), TranslationTurn::JumpToLine(7));
    assert_eq!(translation_page_turn(Some(5), Some(&map), true), TranslationTurn::Stay);
    assert_eq!(translation_page_turn(Some(5), None, true), TranslationTurn::JumpToLine(5));
    assert_eq!(translation_page_turn(None, Some(&map), false), TranslationTurn::AdjacentScene { forward: false });
}
