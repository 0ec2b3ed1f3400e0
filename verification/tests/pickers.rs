use linux_lit::keymap::InputMode;
use linux_lit::pickers::{
    author_of_row, corpus_key_command, library_key_command, overlay_search_key_command, picker_key_command,
    search_key_command, search_return_closes, settings_key_command, voice_key_command, EntryPickerCommand,
    LibraryCommand, OverlaySearchCommand, PickerAction, PickerCommand, PickerExit, PickerOrigins, SearchCommand,
    SettingsCommand,
};

fn origins(gloss: bool, journal: bool, term: bool) -> PickerOrigins {
    PickerOrigins { gloss_picker_from_overlay: gloss, journal_picker_from_reader: journal, term_input_from_reader: term }
}

#[test]
fn hiding_an_overlay_opened_gloss_picker_returns_to_the_overlay() {
    let mut o = origins(true, false, false);
    let c = picker_key_command(&mut o, PickerAction::Hide, InputMode::GlossPicker, "Escape", false, false, true);
    assert_eq!(c, PickerCommand::Close { exit: PickerExit::GlossOverlay, forget_journal_return: false });
    assert!(!o.gloss_picker_from_overlay);
    let c = picker_key_command(&mut o, PickerAction::Hide, InputMode::GlossPicker, "Escape", false, false, true);
    assert_eq!(c, PickerCommand::Close { exit: PickerExit::Reader, forget_journal_return: false });
}

#[test]
fn hiding_a_reader_opened_journal_picker_forgets_the_journal_return() {
    let mut o = origins(false, true, false);
    let c = picker_key_command(&mut o, PickerAction::Hide, InputMode::JournalPicker, "Escape", false, false, false);
    assert_eq!(c, PickerCommand::Close { exit: PickerExit::Reader, forget_journal_return: true });
    assert_eq!(o, origins(false, false, false));
    let c = picker_key_command(&mut o, PickerAction::Hide, InputMode::JournalPicker, "Escape", false, false, false);
    assert_eq!(c, PickerCommand::Close { exit: PickerExit::JournalOverlay, forget_journal_return: false });
}

#[test]
fn hiding_the_term_input_and_the_other_pickers() {
    let mut o = origins(false, false, true);
    let c = picker_key_command(&mut o, PickerAction::Hide, InputMode::JournalTermInput, "Escape", false, false, false);
    assert_eq!(c, PickerCommand::Close { exit: PickerExit::Reader, forget_journal_return: false });
    // The term input's origin is not cleared by hiding.
    assert!(o.term_input_from_reader);
    let mut o = origins(false, false, false);
    let c = picker_key_command(&mut o, PickerAction::Hide, InputMode::JournalTermInput, "Escape", false, false, false);
    assert_eq!(c, PickerCommand::Close { exit: PickerExit::JournalOverlay, forget_journal_return: false });
    let c = picker_key_command(&mut o, PickerAction::Hide, InputMode::JournalMovePicker, "Escape", false, false, false);
    assert_eq!(c, PickerCommand::Close { exit: PickerExit::JournalOverlay, forget_journal_return: false });
    let c = picker_key_command(&mut o, PickerAction::Hide, InputMode::EchoLinePicker, "Escape", false, false, false);
    assert_eq!(c, PickerCommand::CancelAddEcho);
    let c = picker_key_command(&mut o, PickerAction::Hide, InputMode::BookmarkPicker, "Escape", false, false, false);
    assert_eq!(c, PickerCommand::Close { exit: PickerExit::Reader, forget_journal_return: false });
}

#[test]
fn confirming_in_each_picker() {
    let mut o = origins(true, false, false);
    let cases = [
        (InputMode::BookmarkPicker, PickerCommand::ConfirmBookmark),
        (InputMode::MediaPicker, PickerCommand::ConfirmMedia),
        (InputMode::ConcordancePicker, PickerCommand::ConfirmConcordanceWord),
        (InputMode::ConcordanceWordPicker, PickerCommand::ConfirmConcordanceWord),
        (InputMode::ConcordanceListPicker, PickerCommand::ConfirmConcordanceList),
        (InputMode::ConcordanceWorksPicker, PickerCommand::ConfirmConcordanceWorks),
        (InputMode::AuthorshipPicker, PickerCommand::ConfirmAuthorship),
        (InputMode::JournalPicker, PickerCommand::ConfirmJournal),
        (InputMode::RecentQaPicker, PickerCommand::ConfirmRecentQa),
        (InputMode::JournalMovePicker, PickerCommand::ConfirmJournalMove),
        (InputMode::JournalTermInput, PickerCommand::ConfirmTermInput),
        (InputMode::EchoLinePicker, PickerCommand::ConfirmAddEcho),
        (InputMode::Reader, PickerCommand::Swallow),
    ];
    for (mode, want) in cases {
        assert_eq!(picker_key_command(&mut o, PickerAction::Confirm, mode, "Return", false, false, true), want);
    }
    // Only the gloss picker's confirmation with a selection drops its overlay origin.
    assert!(o.gloss_picker_from_overlay);
    let c = picker_key_command(&mut o, PickerAction::Confirm, InputMode::GlossPicker, "Return", false, false, false);
    assert_eq!(c, PickerCommand::ConfirmGloss);
    assert!(o.gloss_picker_from_overlay);
    let c = picker_key_command(&mut o, PickerAction::Confirm, InputMode::GlossPicker, "Return", false, false, true);
    assert_eq!(c, PickerCommand::ConfirmGloss);
    assert!(!o.gloss_picker_from_overlay);
}

#[test]
fn picker_moves_and_extras() {
    let mut o = origins(false, false, false);
    assert_eq!(
        picker_key_command(&mut o, PickerAction::MoveDown, InputMode::MediaPicker, "n", false, false, true),
        PickerCommand::MoveSelection { down: true }
    );
    assert_eq!(
        picker_key_command(&mut o, PickerAction::MoveUp, InputMode::MediaPicker, "p", false, false, true),
        PickerCommand::MoveSelection { down: false }
    );
    let u = PickerAction::Unhandled;
    assert_eq!(picker_key_command(&mut o, u, InputMode::BookmarkPicker, "Delete", false, false, true), PickerCommand::DeleteBookmark);
    assert_eq!(picker_key_command(&mut o, u, InputMode::BookmarkPicker, "d", false, false, true), PickerCommand::DeleteBookmark);
    assert_eq!(picker_key_command(&mut o, u, InputMode::BookmarkPicker, "x", false, false, true), PickerCommand::PassThrough);
    assert_eq!(picker_key_command(&mut o, u, InputMode::MediaPicker, "p", false, false, true), PickerCommand::SetMediaDefault);
    assert_eq!(picker_key_command(&mut o, u, InputMode::MediaPicker, "p", false, true, true), PickerCommand::PassThrough);
    assert_eq!(picker_key_command(&mut o, u, InputMode::GlossPicker, "t", true, false, true), PickerCommand::ToggleGlossType);
    assert_eq!(picker_key_command(&mut o, u, InputMode::GlossPicker, "t", false, false, true), PickerCommand::PassThrough);
    assert_eq!(picker_key_command(&mut o, u, InputMode::ConcordancePicker, "d", false, false, true), PickerCommand::PassThrough);
}

#[test]
fn library_picker_levels() {
    // Escape: back from the works, closed from the authors.
    assert_eq!(library_key_command(true, "Escape", false, true, false), LibraryCommand::BackToAuthors);
    assert_eq!(library_key_command(false, "Escape", false, true, false), LibraryCommand::Close);
    // Return.
    assert_eq!(library_key_command(false, "Return", false, true, false), LibraryCommand::ActivateRow);
    assert_eq!(library_key_command(false, "Return", false, false, false), LibraryCommand::Swallow);
    assert_eq!(library_key_command(true, "Return", false, false, false), LibraryCommand::LoadSelectedWork);
    // BackSpace goes back only from the works with an empty search.
    assert_eq!(library_key_command(true, "BackSpace", false, true, true), LibraryCommand::BackToAuthors);
    assert_eq!(library_key_command(true, "BackSpace", false, true, false), LibraryCommand::PassThrough);
    assert_eq!(library_key_command(false, "BackSpace", false, true, true), LibraryCommand::PassThrough);
    // Movement.
    assert_eq!(library_key_command(false, "n", true, true, true), LibraryCommand::MoveSelection { down: true });
    assert_eq!(library_key_command(false, "p", true, true, true), LibraryCommand::MoveSelection { down: false });
    assert_eq!(library_key_command(false, "Down", false, true, true), LibraryCommand::MoveSelection { down: true });
    assert_eq!(library_key_command(false, "Up", false, true, true), LibraryCommand::MoveSelection { down: false });
    // Plain letters type into the search.
    assert_eq!(library_key_command(false, "n", false, true, true), LibraryCommand::PassThrough);
    assert_eq!(library_key_command(false, "x", true, true, true), LibraryCommand::PassThrough);
}

#[test]
fn author_rows_and_work_rows() {
    assert_eq!(author_of_row("author:Shakespeare"), Some("Shakespeare".to_string()));
    assert_eq!(author_of_row("author:author:Dickens"), Some("Dickens".to_string()));
    assert_eq!(author_of_row("author:"), Some(String::new()));
    assert_eq!(author_of_row("work:Hamlet"), None);
    assert_eq!(author_of_row("autho"), None);
    assert_eq!(author_of_row(""), None);
    assert_eq!(author_of_row("Author:X"), None);
}

#[test]
fn settings_keys() {
    assert_eq!(settings_key_command(PickerAction::Hide, "Escape"), SettingsCommand::Revert);
    assert_eq!(settings_key_command(PickerAction::Confirm, "Return"), SettingsCommand::SaveAndClose);
    assert_eq!(settings_key_command(PickerAction::MoveDown, "n"), SettingsCommand::MoveSelection { down: true });
    assert_eq!(settings_key_command(PickerAction::MoveUp, "p"), SettingsCommand::MoveSelection { down: false });
    assert_eq!(settings_key_command(PickerAction::Unhandled, "h"), SettingsCommand::Adjust { up: false });
    assert_eq!(settings_key_command(PickerAction::Unhandled, "Left"), SettingsCommand::Adjust { up: false });
    assert_eq!(settings_key_command(PickerAction::Unhandled, "l"), SettingsCommand::Adjust { up: true });
    assert_eq!(settings_key_command(PickerAction::Unhandled, "Right"), SettingsCommand::Adjust { up: true });
    assert_eq!(settings_key_command(PickerAction::Unhandled, "r"), SettingsCommand::ResetDefaults);
    assert_eq!(settings_key_command(PickerAction::Unhandled, "z"), SettingsCommand::Swallow);
}

#[test]
fn voice_and_corpus_pickers() {
    assert_eq!(voice_key_command(PickerAction::Hide), EntryPickerCommand::Cancel);
    assert_eq!(voice_key_command(PickerAction::Confirm), EntryPickerCommand::Confirm);
    assert_eq!(voice_key_command(PickerAction::Unhandled), EntryPickerCommand::PassThrough);
    assert_eq!(corpus_key_command(PickerAction::Unhandled, "Tab"), EntryPickerCommand::ToggleCorpus);
    assert_eq!(corpus_key_command(PickerAction::Hide, "ISO_Left_Tab"), EntryPickerCommand::ToggleCorpus);
    assert_eq!(corpus_key_command(PickerAction::MoveDown, "Down"), EntryPickerCommand::MoveSelection { down: true });
    assert_eq!(corpus_key_command(PickerAction::Unhandled, "a"), EntryPickerCommand::PassThrough);
}

#[test]
fn search_bar_keys() {
    assert_eq!(search_key_command("Escape"), SearchCommand::Commit);
    assert_eq!(search_key_command("Return"), SearchCommand::Execute);
    assert_eq!(search_key_command("Tab"), SearchCommand::Swallow);
    assert_eq!(search_key_command("ISO_Left_Tab"), SearchCommand::Swallow);
    assert_eq!(search_key_command("space"), SearchCommand::PassThrough);
    // A failed search keeps the bar open; an empty query or a hit closes it.
    assert!(!search_return_closes("ophelia", 0));
    assert!(search_return_closes("ophelia", 3));
    assert!(search_return_closes("", 0));
}

#[test]
fn overlay_search_input_keys() {
    assert_eq!(overlay_search_key_command(InputMode::GlossOverlay, "Return"), OverlaySearchCommand::Confirm { gloss: true });
    assert_eq!(overlay_search_key_command(InputMode::JournalOverlay, "Return"), OverlaySearchCommand::Confirm { gloss: false });
    assert_eq!(overlay_search_key_command(InputMode::JournalOverlay, "Escape"), OverlaySearchCommand::Cancel);
    assert_eq!(overlay_search_key_command(InputMode::JournalOverlay, "Tab"), OverlaySearchCommand::Swallow);
    assert_eq!(overlay_search_key_command(InputMode::JournalOverlay, "q"), OverlaySearchCommand::PassThrough);
}
