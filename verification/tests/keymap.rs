use linux_lit::actions::Action;
use linux_lit::keymap::{
    armed_chord, complete_chord, gtk_key_to_vim, is_quit_chord, overlay_word_step, ChordCompletion,
    ChordState, EscTimer, KeyState, ShiftTap, VimKey, WordStep,
};

#[test]
fn shift_tap_deletes_then_undoes_on_the_same_line() {
    let mut ks = KeyState::default();
    assert!(ks.note_press("Shift_L", true));
    assert_eq!(ks.note_release("Shift_L", true, 12), ShiftTap::Delete);
    ks.record_shift_delete(true, 12);
    assert_eq!(ks.shift_deleted_line, Some(12));
    assert!(ks.note_press("Shift_R", true));
    assert_eq!(ks.note_release("Shift_R", true, 12), ShiftTap::Undo);
    assert_eq!(ks.shift_deleted_line, None);
    // A third tap deletes afresh.
    assert!(ks.note_press("Shift_L", true));
    assert_eq!(ks.note_release("Shift_L", true, 12), ShiftTap::Delete);
}

#[test]
fn shift_chord_is_not_a_tap() {
    let mut ks = KeyState::default();
    ks.record_shift_delete(true, 3);
    assert!(ks.note_press("Shift_L", true));
    assert!(!ks.note_press("G", true));
    assert_eq!(ks.shift_deleted_line, None);
    assert_eq!(ks.note_release("Shift_L", true, 3), ShiftTap::Ignored);
}

#[test]
fn shift_tap_only_in_the_reader() {
    let mut ks = KeyState::default();
    assert!(!ks.note_press("Shift_L", false));
    assert_eq!(ks.note_release("Shift_L", false, 0), ShiftTap::Ignored);
    // Releasing another key asks for nothing.
    assert_eq!(ks.note_release("x", true, 0), ShiftTap::Ignored);
}

#[test]
fn failed_delete_forgets_the_line() {
    let mut ks = KeyState::default();
    ks.note_press("Shift_L", true);
    assert_eq!(ks.note_release("Shift_L", true, 5), ShiftTap::Delete);
    ks.record_shift_delete(false, 5);
    ks.note_press("Shift_L", true);
    assert_eq!(ks.note_release("Shift_L", true, 5), ShiftTap::Delete);
}

#[test]
fn chords_complete_and_clear() {
    let mut ks = KeyState::default();
    ks.start_chord(ChordState::PendingG);
    assert_eq!(ks.take_chord("g", false, false, false), ChordCompletion::JumpToStart);
    assert_eq!(ks.chord, ChordState::Idle);
    ks.start_chord(ChordState::PendingG);
    assert_eq!(ks.take_chord("semicolon", false, false, false), ChordCompletion::RecentBookmark);
    ks.start_chord(ChordState::PendingR);
    assert_eq!(ks.take_chord("r", false, false, false), ChordCompletion::VocabToggle);
    ks.start_chord(ChordState::PendingR);
    assert_eq!(ks.take_chord("r", true, false, false), ChordCompletion::NoMatch);
    assert_eq!(ks.chord, ChordState::Idle);
    assert_eq!(complete_chord(ChordState::PendingPeriod, "period", false, false, false), ChordCompletion::BookmarkPicker);
    assert_eq!(complete_chord(ChordState::PendingBackspace, "BackSpace", false, false, false), ChordCompletion::DeleteTimestamp);
    assert_eq!(complete_chord(ChordState::PendingBackspace, "BackSpace", false, true, false), ChordCompletion::NoMatch);
    assert_eq!(complete_chord(ChordState::Idle, "g", false, false, false), ChordCompletion::NoMatch);
}

#[test]
fn chord_timeout_spares_a_newer_chord() {
    let mut ks = KeyState::default();
    ks.start_chord(ChordState::PendingG);
    ks.start_chord(ChordState::PendingR);
    ks.expire_chord(ChordState::PendingG);
    assert_eq!(ks.chord, ChordState::PendingR);
    ks.expire_chord(ChordState::PendingR);
    assert_eq!(ks.chord, ChordState::Idle);
}

#[test]
fn actions_arm_their_chords() {
    assert_eq!(armed_chord(Action::BookmarkTap, false), ChordState::PendingPeriod);
    assert_eq!(armed_chord(Action::VocabPopupTap, false), ChordState::PendingR);
    assert_eq!(armed_chord(Action::DeleteTimestampTap, true), ChordState::PendingBackspace);
    assert_eq!(armed_chord(Action::PendingG, false), ChordState::PendingG);
    assert_eq!(armed_chord(Action::PendingG, true), ChordState::Idle);
    assert_eq!(armed_chord(Action::PageForward, false), ChordState::Idle);
}

#[test]
fn quit_chord() {
    assert!(is_quit_chord("L", true, true));
    assert!(is_quit_chord("l", true, true));
    assert!(!is_quit_chord("L", true, false));
    assert!(!is_quit_chord("k", true, true));
}

#[test]
fn minus_family_steps() {
    assert_eq!(overlay_word_step("underscore", false, true, false), Some(WordStep::Back));
    assert_eq!(overlay_word_step("minus", false, true, false), Some(WordStep::Back));
    assert_eq!(overlay_word_step("minus", true, false, false), Some(WordStep::NextSentence));
    assert_eq!(overlay_word_step("minus", false, false, true), Some(WordStep::Collect));
    assert_eq!(overlay_word_step("minus", false, false, false), Some(WordStep::Forward));
    assert_eq!(overlay_word_step("minus", true, false, true), None);
    assert_eq!(overlay_word_step("x", false, false, false), None);
}

#[test]
fn vim_key_translation() {
    assert_eq!(gtk_key_to_vim("Return", None, false), Some(VimKey::Enter));
    assert_eq!(gtk_key_to_vim("KP_Enter", None, true), Some(VimKey::Enter));
    assert_eq!(gtk_key_to_vim("BackSpace", None, false), Some(VimKey::Backspace));
    assert_eq!(gtk_key_to_vim("ISO_Left_Tab", None, false), Some(VimKey::Tab));
    assert_eq!(gtk_key_to_vim("R", Some('R'), true), Some(VimKey::CtrlR));
    assert_eq!(gtk_key_to_vim("a", Some('a'), true), None);
    assert_eq!(gtk_key_to_vim("a", Some('a'), false), Some(VimKey::Char('a')));
    assert_eq!(gtk_key_to_vim("x", Some('\u{7f}'), false), None);
    assert_eq!(gtk_key_to_vim("x", Some('\u{85}'), false), None);
    assert_eq!(gtk_key_to_vim("F1", None, false), None);
}

#[test]
fn double_escape_timing() {
    let mut t = EscTimer::new();
    assert!(!t.press(1000));
    assert!(t.press(1399));
    // A double resets: the next press starts afresh.
    assert!(!t.press(1500));
    assert!(!t.press(1900));
    assert!(t.press(1900));
}

use linux_lit::keymap::{route_key, InputMode, KeyRoute, VocabSurface};
use linux_lit::keymap_config::Keymap;

fn route(ks: &mut KeyState, mode: InputMode, key: &str, ctrl: bool, shift: bool, alt: bool) -> KeyRoute {
    route_key(ks, &Keymap::default(), mode, key, ctrl, shift, alt, false, false, false)
}

#[test]
fn routing_order() {
    let mut ks = KeyState::default();
    assert_eq!(route(&mut ks, InputMode::Reader, "Shift_L", false, true, false), KeyRoute::ShiftArmed);
    assert!(ks.shift_tap_armed);
    // Quit from an editor.
    assert_eq!(route(&mut ks, InputMode::JournalEdit, "L", true, true, false), KeyRoute::Quit);
    assert!(!ks.shift_tap_armed);
    // The editor takes space and everything else.
    assert_eq!(route(&mut ks, InputMode::GlossEdit, "space", false, false, false), KeyRoute::Editor(InputMode::GlossEdit));
    assert_eq!(route(&mut ks, InputMode::SegmentVim, "x", false, false, false), KeyRoute::Editor(InputMode::SegmentVim));
    // Space plays in the reader, types into a text field.
    assert_eq!(route(&mut ks, InputMode::Reader, "space", false, false, false), KeyRoute::PlayCurrentLine);
    assert_eq!(route(&mut ks, InputMode::Search, "space", false, false, false), KeyRoute::TypeSpace);
    // Theme keys everywhere.
    assert_eq!(route(&mut ks, InputMode::GlossOverlay, "t", true, false, false), KeyRoute::Dispatch(Action::ThemeNext));
    // Ctrl+$ outside the reader.
    assert_eq!(route(&mut ks, InputMode::BookmarkPicker, "dollar", true, true, false), KeyRoute::CycleRootVariant { forward: false });
    assert_eq!(route(&mut ks, InputMode::BookmarkPicker, "j", false, false, false), KeyRoute::ModeHandler(InputMode::BookmarkPicker));
    // The reader's bindings.
    assert_eq!(route(&mut ks, InputMode::Reader, "x", false, false, false), KeyRoute::Dispatch(Action::PageForward));
    assert_eq!(route(&mut ks, InputMode::Reader, "zzz", false, false, false), KeyRoute::Unhandled);
}

#[test]
fn routing_chords() {
    let mut ks = KeyState::default();
    ks.start_chord(ChordState::PendingG);
    assert_eq!(route(&mut ks, InputMode::Reader, "g", false, false, false), KeyRoute::Chord(ChordCompletion::JumpToStart));
    assert_eq!(ks.chord, ChordState::Idle);
    // A pending chord that the key does not complete falls through to the
    // binding, and is cleared.
    ks.start_chord(ChordState::PendingPeriod);
    assert_eq!(route(&mut ks, InputMode::Reader, "x", false, false, false), KeyRoute::Dispatch(Action::PageForward));
    assert_eq!(ks.chord, ChordState::Idle);
    // `rr` on a vocab surface.
    ks.start_chord(ChordState::PendingR);
    assert_eq!(route(&mut ks, InputMode::JournalOverlay, "r", false, false, false), KeyRoute::VocabToggle(VocabSurface::Journal));
    ks.start_chord(ChordState::PendingR);
    assert_eq!(route(&mut ks, InputMode::Settings, "r", false, false, false), KeyRoute::ModeHandler(InputMode::Settings));
    assert_eq!(ks.chord, ChordState::Idle);
    // Tab with the chat panel open.
    let r = route_key(&mut ks, &Keymap::default(), InputMode::Reader, "Tab", false, false, false, false, true, true);
    assert_eq!(r, KeyRoute::FocusChat { prompt: true });
}

use linux_lit::keymap::PlaybackSync;

#[test]
fn playback_sync_toggle() {
    let mut s = PlaybackSync { enabled: false, before_concordance: None };
    assert!(s.toggle());
    assert_eq!(s, PlaybackSync { enabled: true, before_concordance: None });
    assert!(!s.toggle());
    assert_eq!(s, PlaybackSync { enabled: false, before_concordance: None });
    let mut s = PlaybackSync { enabled: true, before_concordance: Some(true) };
    assert!(!s.toggle());
    assert_eq!(s, PlaybackSync { enabled: false, before_concordance: Some(false) });
}
