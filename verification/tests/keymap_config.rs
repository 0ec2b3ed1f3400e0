use linux_lit::actions::Action;
use linux_lit::keymap_config::{default_reader_bindings, KeyCombo, Keymap};

#[test]
fn default_reader_bindings_returns_nonempty_map() {
    let m = default_reader_bindings();
    assert!(m.len() > 50, "expected ~70 default bindings, got {}", m.len());
}

#[test]
fn default_reader_bindings_contains_known_bindings() {
    let m = default_reader_bindings();
    assert_eq!(m.get(&KeyCombo::plain("x")), Some(&Action::PageForward));
    assert_eq!(m.get(&KeyCombo::plain("y")), Some(&Action::PageBackward));
    assert_eq!(m.get(&KeyCombo::plain("j")), Some(&Action::CursorNextDialogue));
    assert_eq!(m.get(&KeyCombo::plain("k")), Some(&Action::CursorPrevDialogue));
    assert_eq!(m.get(&KeyCombo::plain("y")), Some(&Action::PageBackward));
    assert_eq!(m.get(&KeyCombo::ctrl("m")), Some(&Action::OpenMediaPicker));
    assert_eq!(m.get(&KeyCombo::ctrl_shift("L")), Some(&Action::SaveAndQuit));
    assert_eq!(m.get(&KeyCombo::ctrl("Tab")), None);
    assert_eq!(m.get(&KeyCombo::plain("Tab")), None);
    assert_eq!(m.get(&KeyCombo::ctrl("o")), None);
    assert_eq!(m.get(&KeyCombo::ctrl("j")), Some(&Action::OpenJournalPicker));
    assert_eq!(m.get(&KeyCombo::alt("j")), Some(&Action::OpenRecentQaPicker));
    assert_eq!(m.get(&KeyCombo::ctrl("a")), None);
    assert_eq!(m.get(&KeyCombo::plain("A")), Some(&Action::ToggleAuthorship));
    assert_eq!(m.get(&KeyCombo::ctrl_shift("A")), Some(&Action::PickAttributionSet));
    assert_eq!(m.get(&KeyCombo::plain("b")), Some(&Action::SetStartTime));
    assert_eq!(m.get(&KeyCombo::alt("u")), Some(&Action::CycleScansion));
    assert_eq!(m.get(&KeyCombo::alt("b")), Some(&Action::SetEndTime));
    assert_eq!(m.get(&KeyCombo::plain("i")), Some(&Action::WordCycleCopy));
    assert_eq!(m.get(&KeyCombo::plain("I")), Some(&Action::WordCyclePrevCopy));
    assert_eq!(m.get(&KeyCombo::alt("i")), Some(&Action::WordCollectCopy));
    assert_eq!(m.get(&KeyCombo::ctrl("i")), Some(&Action::UnderlineNextSentence));
    assert_eq!(m.get(&KeyCombo::plain("parenleft")), Some(&Action::ShowTranslationOverlay));
    assert_eq!(m.get(&KeyCombo::ctrl_alt("parenleft")), Some(&Action::ToggleTranslations));
    assert_eq!(m.get(&KeyCombo::ctrl("parenleft")), Some(&Action::ToggleImageView));
    assert_eq!(m.get(&KeyCombo::ctrl_shift("I")), Some(&Action::EnterPageCalibration));
    assert_eq!(m.get(&KeyCombo::ctrl_alt("i")), None);
}

#[test]
fn r_is_the_vocab_hub() {
    let m = default_reader_bindings();
    assert_eq!(m.get(&KeyCombo::plain("r")), Some(&Action::VocabPopupTap));
    assert_eq!(
        m.get(&KeyCombo::plain("minus")),
        Some(&Action::WordCycleCopy)
    );
    assert_eq!(
        m.get(&KeyCombo::shift("underscore")),
        Some(&Action::WordCyclePrevCopy)
    );
    assert_eq!(
        m.get(&KeyCombo::shift("minus")),
        Some(&Action::WordCyclePrevCopy)
    );
    assert_eq!(
        m.get(&KeyCombo::alt("minus")),
        Some(&Action::WordCollectCopy)
    );
    assert_eq!(m.get(&KeyCombo::plain("underscore")), None);
    assert_eq!(m.get(&KeyCombo::plain("numbersign")), None);
    assert_eq!(m.get(&KeyCombo::ctrl("r")), Some(&Action::AddVocabWord));
    assert_eq!(m.get(&KeyCombo::plain("R")), None);
    assert_eq!(m.get(&KeyCombo::ctrl_alt("r")), None);
    assert_eq!(m.get(&KeyCombo::ctrl_shift("r")), Some(&Action::VocabJournalAsk));
    assert_eq!(m.get(&KeyCombo::ctrl_shift("R")), Some(&Action::VocabJournalAsk));
    assert_eq!(m.get(&KeyCombo::alt("r")), Some(&Action::ToggleVocabHighlight));
    assert_eq!(m.get(&KeyCombo::ctrl("n")), None);
    assert_eq!(m.get(&KeyCombo::ctrl("p")), None);
    assert_eq!(m.get(&KeyCombo::ctrl("equal")), Some(&Action::JumpToNextVocab));
    assert_eq!(m.get(&KeyCombo::ctrl_shift("equal")), Some(&Action::JumpToPrevVocab));
    assert_eq!(m.get(&KeyCombo::ctrl("minus")), Some(&Action::UnderlineNextSentence));
    assert_eq!(m.get(&KeyCombo::ctrl_shift("underscore")), None);
    assert_eq!(m.get(&KeyCombo::ctrl_shift("minus")), None);
    assert_eq!(m.get(&KeyCombo::plain("z")), Some(&Action::OpenConcordancePicker));
    assert_eq!(m.get(&KeyCombo::ctrl("z")), Some(&Action::OpenConcordanceWordPicker));
    assert_eq!(m.get(&KeyCombo::alt("z")), Some(&Action::OpenConcordanceWorksPicker));
    assert_eq!(m.get(&KeyCombo::ctrl_shift("Z")), Some(&Action::OpenConcordanceListPicker));
    assert_eq!(
        m.get(&KeyCombo::plain("backslash")),
        Some(&Action::CycleSegmentOverlays)
    );
    assert_eq!(m.get(&KeyCombo::plain("a")), Some(&Action::TogglePause));
}

#[test]
fn ctrl_l_chat_flip_disabled() {
    let m = default_reader_bindings();
    assert_eq!(m.get(&KeyCombo::ctrl("l")), None);
    assert_eq!(m.get(&KeyCombo::plain("l")), Some(&Action::ToggleSignColumn));
}

#[test]
fn speaker_turn_keys_bound_to_capital_j_and_k() {
    let m = default_reader_bindings();
    assert_eq!(m.get(&KeyCombo::plain("J")), Some(&Action::JumpToNextSpeaker));
    assert_eq!(m.get(&KeyCombo::plain("K")), Some(&Action::JumpToPrevSpeaker));
    assert_eq!(m.get(&KeyCombo::plain("j")), Some(&Action::CursorNextDialogue));
    assert_eq!(m.get(&KeyCombo::plain("k")), Some(&Action::CursorPrevDialogue));
    assert_eq!(m.get(&KeyCombo::plain("h")), Some(&Action::CursorNextDialogueNoSeek));
    assert_eq!(m.get(&KeyCombo::plain("t")), Some(&Action::CursorPrevDialogueNoSeek));
}

#[test]
fn shift_j_resolves_to_next_speaker_via_lookup() {
    let km = Keymap::default();
    assert_eq!(km.lookup("J", false, true, false), Some(Action::JumpToNextSpeaker));
    assert_eq!(km.lookup("K", false, true, false), Some(Action::JumpToPrevSpeaker));
    assert_eq!(km.lookup("comma", false, false, false), Some(Action::JumpToPrevSpeaker));
    assert_eq!(km.lookup("q", false, false, false), Some(Action::JumpToNextSpeaker));
    assert_eq!(km.lookup("comma", true, false, false), Some(Action::OpenSettingsOverlay));
    assert_eq!(km.lookup("Q", false, true, false), None, "Q retired");
    assert_eq!(km.lookup("comma", false, false, true), None, "Alt+, retired");
    assert_eq!(km.lookup("apostrophe", false, false, false), Some(Action::NextBookmark));
    assert_eq!(km.lookup("semicolon", false, false, false), Some(Action::PrevBookmark));
}

#[test]
fn i_cap_resolves_on_every_level_via_lookup() {
    let km = Keymap::default();
    assert_eq!(km.lookup("i", false, false, false), Some(Action::WordCycleCopy));
    assert_eq!(km.lookup("I", false, true, false), Some(Action::WordCyclePrevCopy));
    assert_eq!(km.lookup("i", false, false, true), Some(Action::WordCollectCopy));
    assert_eq!(km.lookup("i", true, false, false), Some(Action::UnderlineNextSentence));
    assert_eq!(km.lookup("I", true, true, false), Some(Action::EnterPageCalibration));
}

#[test]
fn paren_cap_carries_the_translation_family() {
    let km = Keymap::default();
    assert_eq!(
        km.lookup("parenleft", false, false, false),
        Some(Action::ShowTranslationOverlay)
    );
    assert_eq!(
        km.lookup("parenleft", true, false, false),
        Some(Action::ToggleImageView)
    );
    assert_eq!(
        km.lookup("parenleft", true, false, true),
        Some(Action::ToggleTranslations)
    );
}

#[test]
fn keymap_lookup_returns_action_for_bound_key() {
    let km = Keymap::default();
    assert_eq!(km.lookup("x", false, false, false), Some(Action::PageForward));
    assert_eq!(km.lookup("y", false, false, false), Some(Action::PageBackward));
}

#[test]
fn ctrl_shift_g_resolves_open_last_gloss_both_cases() {
    let km = Keymap::default();
    assert_eq!(km.lookup("g", true, true, false), Some(Action::OpenLastGloss));
    assert_eq!(km.lookup("G", true, true, false), Some(Action::OpenLastGloss));
    assert_eq!(km.lookup("g", true, false, false), Some(Action::ToggleGlossOverlay));
}

#[test]
fn alt_bracketleft_is_toggle_column_layout() {
    let km = Keymap::default();
    assert_eq!(
        km.lookup("bracketleft", false, false, true),
        Some(Action::ToggleColumnLayout),
    );
    assert_eq!(
        km.lookup("bracketleft", false, false, false),
        Some(Action::JumpToPrevDivision),
    );
    assert_eq!(km.lookup("2", false, true, false), None);
    assert_eq!(km.lookup("3", false, true, false), None);
    assert_eq!(km.lookup("4", false, false, false), None);
    assert_eq!(km.lookup("5", false, false, false), None);
    assert_eq!(km.lookup("ampersand", false, false, false), None);
    assert_eq!(km.lookup("braceright", false, false, false), None);
    assert_eq!(km.lookup("bracketright", false, false, false), None);
    assert_eq!(km.lookup("semicolon", false, false, false), Some(Action::PrevBookmark));
    assert_eq!(km.lookup("apostrophe", false, false, false), Some(Action::NextBookmark));
    assert_eq!(km.lookup("braceleft", false, false, false), Some(Action::JumpToNextDivision));
    assert_eq!(km.lookup("colon", false, true, false), Some(Action::TogglePlaybackSpeed));
    assert_eq!(km.lookup("plus", false, false, false), Some(Action::CopyWorkDivision));
    assert_eq!(
        km.lookup("y", true, false, false),
        Some(Action::CopyJournalDivisionBlob)
    );
    assert_eq!(
        km.lookup("y", true, true, false),
        Some(Action::CopyLineMappingId)
    );
    assert_eq!(km.lookup("1", false, true, false), Some(Action::CopyWorkInfo));
    assert_eq!(km.lookup("1", false, false, false), Some(Action::CopyWorkInfo));
}

#[test]
fn ctrl_t_cycles_theme() {
    let km = Keymap::default();
    assert_eq!(km.lookup("t", true, false, false), Some(Action::ThemeNext));
    assert_eq!(km.lookup("T", true, true, false), Some(Action::ThemePrev));
}

#[test]
fn ctrl_dollar_cycles_root_variant() {
    let km = Keymap::default();
    assert_eq!(km.lookup("dollar", true, false, false), Some(Action::RootVariantNext));
    assert_eq!(km.lookup("asciitilde", true, false, false), Some(Action::RootVariantPrev));
    assert_eq!(km.lookup("dollar", true, true, false), None);
    assert_eq!(km.lookup("dollar", true, false, true), None);
    assert_eq!(km.lookup("n", true, false, true), Some(Action::ToggleNavTest));
}

#[test]
fn keymap_lookup_returns_none_for_unbound_key() {
    let km = Keymap::default();
    assert_eq!(km.lookup("zzz", false, false, false), None);
}

#[test]
fn keymap_lookup_distinguishes_modifiers() {
    let km = Keymap::default();
    assert_eq!(km.lookup("a", true, false, false), None);
    assert_eq!(km.lookup("A", true, true, false), Some(Action::PickAttributionSet));
    let j_ctrl = km.lookup("j", true, false, false);
    let j_alt = km.lookup("j", false, false, true);
    assert_ne!(j_ctrl, j_alt);
    assert_eq!(j_ctrl, Some(Action::OpenJournalPicker));
    assert_eq!(j_alt, Some(Action::OpenRecentQaPicker));
    assert_eq!(km.lookup("Tab", false, false, false), None);
    assert_eq!(km.lookup("Tab", true, false, false), None);
    assert_eq!(km.lookup("f", false, false, false), Some(Action::OpenJournalTermInput));
    assert_eq!(km.lookup("F", false, false, false), Some(Action::CycleFontForward));
    assert_eq!(km.lookup("f", true, true, false), Some(Action::CycleFontBackward));
    assert_eq!(km.lookup("F", true, true, false), Some(Action::CycleFontBackward));
    assert_eq!(km.lookup("f", true, false, false), Some(Action::OpenCorpusSearch));
    assert_eq!(km.lookup("o", true, false, false), None);
    assert_eq!(km.lookup("a", false, false, false), Some(Action::TogglePause));
    assert_eq!(km.lookup("v", false, false, false), Some(Action::OpenSegmentVim));
    assert_eq!(km.lookup("V", false, true, false), Some(Action::EnterVisualMode));
}

// ---------------------------------------------------------------------------

use linux_lit::keymap_config::{is_uppercase_letter, BindingTable, ParsedBinding};

fn bind(key: &str, action: Option<Action>) -> ParsedBinding {
    ParsedBinding { key: key.to_string(), ctrl: false, shift: false, alt: false, action }
}

#[test]
fn user_bindings_override_defaults_in_file_order() {
    let km = Keymap::from_bindings(Some(vec![
        bind("x", Some(Action::PageBackward)),
        bind("F12", None),
    ]));
    assert_eq!(km.lookup("x", false, false, false), Some(Action::PageBackward));
    assert_eq!(km.lookup("y", false, false, false), Some(Action::PageBackward));
    assert_eq!(km.lookup("j", false, false, false), Some(Action::CursorNextDialogue));
    assert_eq!(km.lookup("F12", false, false, false), None);
    // The later of two bindings of one combination wins.
    let km = Keymap::from_bindings(Some(vec![
        bind("x", Some(Action::PageBackward)),
        bind("x", Some(Action::JumpToEnd)),
    ]));
    assert_eq!(km.lookup("x", false, false, false), Some(Action::JumpToEnd));
}

#[test]
fn unreadable_keymap_gives_the_defaults() {
    let km = Keymap::from_bindings(None);
    assert_eq!(km.lookup("x", false, false, false), Some(Action::PageForward));
    assert_eq!(km.lookup("y", false, false, false), Some(Action::PageBackward));
    assert_eq!(km.reader.len(), Keymap::default().reader.len());
}

#[test]
fn shifted_uppercase_letter_matches_its_plain_binding() {
    let km = Keymap::default();
    // Law: a bare uppercase letter's shift flag is redundant.
    assert_eq!(km.lookup("J", false, true, false), km.lookup("J", false, false, false));
    // ...but not with Ctrl held.
    assert_eq!(km.lookup("I", true, true, false), Some(Action::EnterPageCalibration));
    assert_eq!(km.lookup("I", true, false, false), None);
}

#[test]
fn uppercase_letter_detection() {
    assert!(is_uppercase_letter("J"));
    assert!(!is_uppercase_letter("j"));
    assert!(!is_uppercase_letter("JK"));
    assert!(!is_uppercase_letter(""));
    assert!(!is_uppercase_letter("\u{c9}"));
}

#[test]
fn binding_table_insert_replaces() {
    let mut t = BindingTable::new();
    assert_eq!(t.len(), 0);
    t.insert(KeyCombo::plain("x"), Action::PageForward);
    t.insert(KeyCombo::ctrl("x"), Action::PageBackward);
    assert_eq!(t.len(), 2);
    t.insert(KeyCombo::plain("x"), Action::JumpToEnd);
    assert_eq!(t.len(), 2);
    assert_eq!(t.get(&KeyCombo::plain("x")), Some(&Action::JumpToEnd));
    assert_eq!(t.get(&KeyCombo::ctrl("x")), Some(&Action::PageBackward));
    assert_eq!(t.get(&KeyCombo::alt("x")), None);
}

#[test]
fn key_combo_constructors_set_modifiers() {
    let c = KeyCombo::alt_shift("q");
    assert_eq!((c.key.as_str(), c.ctrl, c.shift, c.alt), ("q", false, true, true));
    let c = KeyCombo::ctrl_alt("q");
    assert_eq!((c.ctrl, c.shift, c.alt), (true, false, true));
    let c = KeyCombo::ctrl_shift("q");
    assert_eq!((c.ctrl, c.shift, c.alt), (true, true, false));
}
