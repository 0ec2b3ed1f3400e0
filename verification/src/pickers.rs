//! Keys in the pickers, the settings overlay and the search inputs. Each
//! handler turns a key into a command for its widget; a pass-through command
//! leaves the key to the focused text entry.

use vstd::prelude::*;
use crate::keymap::InputMode;
use crate::text::str_eq;

verus! {

// ---------------------------------------------------------------------------
// The list pickers
// ---------------------------------------------------------------------------

/// A key as the shared picker resolution reads it. The caller resolves the
/// key (for the list pickers with Ctrl dropped while Shift is held, so the
/// Ctrl+Shift+n/p revision chord is never read as navigation) and hands the
/// result on.
#[derive(Clone, Copy, Debug, PartialEq, Eq, Structural)]
pub enum PickerAction {
    Hide,
    Confirm,
    MoveDown,
    MoveUp,
    Unhandled,
}

/// Where the pickers were opened from, which decides where hiding them
/// returns to.
#[derive(Clone, Copy, Debug, PartialEq, Eq, Structural)]
pub struct PickerOrigins {
    /// The gloss picker was opened from within the gloss overlay.
    pub gloss_picker_from_overlay: bool,
    /// The journal picker was opened from the reader.
    pub journal_picker_from_reader: bool,
    /// The journal term input was opened from the reader.
    pub term_input_from_reader: bool,
}

/// The mode a hidden picker hands the keys back to.
#[derive(Clone, Copy, Debug, PartialEq, Eq, Structural)]
pub enum PickerExit {
    /// The reader, with the main card's cursor flash.
    Reader,
    GlossOverlay,
    JournalOverlay,
}

/// What a list picker does with a key.
#[derive(Clone, Copy, Debug, PartialEq, Eq, Structural)]
pub enum PickerCommand {
    /// Hide the picker (for a mode without one of its own, the mode's list
    /// picker if it has one) and go to `exit`; `forget_journal_return` drops
    /// the journal's saved return position.
    Close { exit: PickerExit, forget_journal_return: bool },
    /// Cancel adding an echo line.
    CancelAddEcho,
    /// Jump to the selected bookmark.
    ConfirmBookmark,
    /// Load the selected media.
    ConfirmMedia,
    /// Look up the selected concordance word.
    ConfirmConcordanceWord,
    /// Jump to the selected concordance occurrence.
    ConfirmConcordanceList,
    /// Jump to the first occurrence in the selected work.
    ConfirmConcordanceWorks,
    /// Open the selected glossed passage in the gloss overlay.
    ConfirmGloss,
    ConfirmAuthorship,
    ConfirmJournal,
    ConfirmRecentQa,
    ConfirmJournalMove,
    ConfirmTermInput,
    ConfirmAddEcho,
    /// Move the selection one row.
    MoveSelection { down: bool },
    /// Delete the selected bookmark.
    DeleteBookmark,
    /// Make the selected media the work's default.
    SetMediaDefault,
    /// Cycle the gloss picker's type filter.
    ToggleGlossType,
    /// Consume the key and do nothing.
    Swallow,
    /// Leave the key to the picker's search entry.
    PassThrough,
}

/// Hiding a picker: the gloss picker goes back to the gloss overlay it was
/// opened from (forgetting that origin), else to the reader; the journal
/// picker goes back to the reader it was opened from (forgetting that origin
/// and the journal's return position), else to the journal overlay; the
/// move picker goes to the journal overlay; the term input to the reader or
/// the journal overlay, as it was opened; the echo line picker cancels the
/// echo; any other picker returns to the reader.
pub open spec fn picker_hide_spec(o: PickerOrigins, mode: InputMode) -> (PickerOrigins, PickerCommand) {
    match mode {
        InputMode::GlossPicker => if o.gloss_picker_from_overlay {
            (
                PickerOrigins { gloss_picker_from_overlay: false, ..o },
                PickerCommand::Close { exit: PickerExit::GlossOverlay, forget_journal_return: false },
            )
        } else {
            (o, PickerCommand::Close { exit: PickerExit::Reader, forget_journal_return: false })
        },
        InputMode::JournalPicker => if o.journal_picker_from_reader {
            (
                PickerOrigins { journal_picker_from_reader: false, ..o },
                PickerCommand::Close { exit: PickerExit::Reader, forget_journal_return: true },
            )
        } else {
            (o, PickerCommand::Close { exit: PickerExit::JournalOverlay, forget_journal_return: false })
        },
        InputMode::JournalMovePicker => (
            o,
            PickerCommand::Close { exit: PickerExit::JournalOverlay, forget_journal_return: false },
        ),
        InputMode::JournalTermInput => (
            o,
            PickerCommand::Close {
                exit: if o.term_input_from_reader { PickerExit::Reader } else { PickerExit::JournalOverlay },
                forget_journal_return: false,
            },
        ),
        InputMode::EchoLinePicker => (o, PickerCommand::CancelAddEcho),
        _ => (o, PickerCommand::Close { exit: PickerExit::Reader, forget_journal_return: false }),
    }
}

/// Confirming in a picker: each picker's own confirmation (the concordance
/// picker and its word picker share one); other modes swallow the key.
pub open spec fn picker_confirm_spec(mode: InputMode) -> PickerCommand {
    match mode {
        InputMode::BookmarkPicker => PickerCommand::ConfirmBookmark,
        InputMode::MediaPicker => PickerCommand::ConfirmMedia,
        InputMode::ConcordancePicker => PickerCommand::ConfirmConcordanceWord,
        InputMode::ConcordanceWordPicker => PickerCommand::ConfirmConcordanceWord,
        InputMode::ConcordanceListPicker => PickerCommand::ConfirmConcordanceList,
        InputMode::ConcordanceWorksPicker => PickerCommand::ConfirmConcordanceWorks,
        InputMode::GlossPicker => PickerCommand::ConfirmGloss,
        InputMode::AuthorshipPicker => PickerCommand::ConfirmAuthorship,
        InputMode::JournalPicker => PickerCommand::ConfirmJournal,
        InputMode::RecentQaPicker => PickerCommand::ConfirmRecentQa,
        InputMode::JournalMovePicker => PickerCommand::ConfirmJournalMove,
        InputMode::JournalTermInput => PickerCommand::ConfirmTermInput,
        InputMode::EchoLinePicker => PickerCommand::ConfirmAddEcho,
        _ => PickerCommand::Swallow,
    }
}

/// A key the resolution left alone: Delete or `d` deletes a bookmark, `p`
/// (while the media search entry is not focused) sets the default media,
/// Alt+`t` cycles the gloss type filter; anything else goes to the entry.
pub open spec fn picker_extra_spec(mode: InputMode, key: Seq<char>, alt: bool, search_focused: bool) -> PickerCommand {
    match mode {
        InputMode::BookmarkPicker => if key == "Delete"@ || key == "d"@ {
            PickerCommand::DeleteBookmark
        } else {
            PickerCommand::PassThrough
        },
        InputMode::MediaPicker => if key == "p"@ && !search_focused {
            PickerCommand::SetMediaDefault
        } else {
            PickerCommand::PassThrough
        },
        InputMode::GlossPicker => if alt && key == "t"@ {
            PickerCommand::ToggleGlossType
        } else {
            PickerCommand::PassThrough
        },
        _ => PickerCommand::PassThrough,
    }
}

/// A list picker's command for a resolved key, and the origins after it.
/// Confirming a selected passage in the gloss picker opens a fresh overlay,
/// so its overlay origin no longer applies.
pub open spec fn picker_spec(
    o: PickerOrigins,
    action: PickerAction,
    mode: InputMode,
    key: Seq<char>,
    alt: bool,
    search_focused: bool,
    has_selection: bool,
) -> (PickerOrigins, PickerCommand) {
    match action {
        PickerAction::Hide => picker_hide_spec(o, mode),
        PickerAction::Confirm => (
            if mode == InputMode::GlossPicker && has_selection {
                PickerOrigins { gloss_picker_from_overlay: false, ..o }
            } else {
                o
            },
            picker_confirm_spec(mode),
        ),
        PickerAction::MoveDown => (o, PickerCommand::MoveSelection { down: true }),
        PickerAction::MoveUp => (o, PickerCommand::MoveSelection { down: false }),
        PickerAction::Unhandled => (o, picker_extra_spec(mode, key, alt, search_focused)),
    }
}

fn picker_hide(o: &mut PickerOrigins, mode: InputMode) -> (r: PickerCommand)
    ensures
        (*final(o), r) == picker_hide_spec(*old(o), mode),
{
    match mode {
        InputMode::GlossPicker => {
            if o.gloss_picker_from_overlay {
                o.gloss_picker_from_overlay = false;
                PickerCommand::Close { exit: PickerExit::GlossOverlay, forget_journal_return: false }
            } else {
                PickerCommand::Close { exit: PickerExit::Reader, forget_journal_return: false }
            }
        },
        InputMode::JournalPicker => {
            if o.journal_picker_from_reader {
                o.journal_picker_from_reader = false;
                PickerCommand::Close { exit: PickerExit::Reader, forget_journal_return: true }
            } else {
                PickerCommand::Close { exit: PickerExit::JournalOverlay, forget_journal_return: false }
            }
        },
        InputMode::JournalMovePicker => PickerCommand::Close {
            exit: PickerExit::JournalOverlay,
            forget_journal_return: false,
        },
        InputMode::JournalTermInput => PickerCommand::Close {
            exit: if o.term_input_from_reader { PickerExit::Reader } else { PickerExit::JournalOverlay },
            forget_journal_return: false,
        },
        InputMode::EchoLinePicker => PickerCommand::CancelAddEcho,
        _ => PickerCommand::Close { exit: PickerExit::Reader, forget_journal_return: false },
    }
}

fn picker_confirm(mode: InputMode) -> (r: PickerCommand)
    ensures
        r == picker_confirm_spec(mode),
{
    match mode {
        InputMode::BookmarkPicker => PickerCommand::ConfirmBookmark,
        InputMode::MediaPicker => PickerCommand::ConfirmMedia,
        InputMode::ConcordancePicker => PickerCommand::ConfirmConcordanceWord,
        InputMode::ConcordanceWordPicker => PickerCommand::ConfirmConcordanceWord,
        InputMode::ConcordanceListPicker => PickerCommand::ConfirmConcordanceList,
        InputMode::ConcordanceWorksPicker => PickerCommand::ConfirmConcordanceWorks,
        InputMode::GlossPicker => PickerCommand::ConfirmGloss,
        InputMode::AuthorshipPicker => PickerCommand::ConfirmAuthorship,
        InputMode::JournalPicker => PickerCommand::ConfirmJournal,
        InputMode::RecentQaPicker => PickerCommand::ConfirmRecentQa,
        InputMode::JournalMovePicker => PickerCommand::ConfirmJournalMove,
        InputMode::JournalTermInput => PickerCommand::ConfirmTermInput,
        InputMode::EchoLinePicker => PickerCommand::ConfirmAddEcho,
        _ => PickerCommand::Swallow,
    }
}

fn picker_extra(mode: InputMode, key: &str, alt: bool, search_focused: bool) -> (r: PickerCommand)
    ensures
        r == picker_extra_spec(mode, key@, alt, search_focused),
{
    match mode {
        InputMode::BookmarkPicker => {
            if str_eq(key, "Delete") || str_eq(key, "d") {
                PickerCommand::DeleteBookmark
            } else {
                PickerCommand::PassThrough
            }
        },
        InputMode::MediaPicker => {
            if str_eq(key, "p") && !search_focused {
                PickerCommand::SetMediaDefault
            } else {
                PickerCommand::PassThrough
            }
        },
        InputMode::GlossPicker => {
            if alt && str_eq(key, "t") {
                PickerCommand::ToggleGlossType
            } else {
                PickerCommand::PassThrough
            }
        },
        _ => PickerCommand::PassThrough,
    }
}

/// A list picker's command for a resolved key (see `picker_spec`):
/// `search_focused` is the media picker's search entry having the focus,
/// `has_selection` the picker having a selected row.
pub fn picker_key_command(
    o: &mut PickerOrigins,
    action: PickerAction,
    mode: InputMode,
    key: &str,
    alt: bool,
    search_focused: bool,
    has_selection: bool,
) -> (r: PickerCommand)
    ensures
        (*final(o), r) == picker_spec(*old(o), action, mode, key@, alt, search_focused, has_selection),
{
    match action {
        PickerAction::Hide => picker_hide(o, mode),
        PickerAction::Confirm => {
            if mode == InputMode::GlossPicker && has_selection {
                o.gloss_picker_from_overlay = false;
            }
            picker_confirm(mode)
        },
        PickerAction::MoveDown => PickerCommand::MoveSelection { down: true },
        PickerAction::MoveUp => PickerCommand::MoveSelection { down: false },
        PickerAction::Unhandled => picker_extra(mode, key, alt, search_focused),
    }
}

/// A list picker passes a key on to its search entry only when the shared
/// resolution left the key unhandled; hiding, confirming and moving always
/// consume it.
pub proof fn law_picker_passes_only_unresolved_keys(
    o: PickerOrigins,
    action: PickerAction,
    mode: InputMode,
    key: Seq<char>,
    alt: bool,
    search_focused: bool,
    has_selection: bool,
)
    ensures
        picker_spec(o, action, mode, key, alt, search_focused, has_selection).1 == PickerCommand::PassThrough
            ==> action == PickerAction::Unhandled,
{
}

// ---------------------------------------------------------------------------
// The library picker
// ---------------------------------------------------------------------------

/// What the library picker (authors, then one author's works) does with a key.
#[derive(Clone, Copy, Debug, PartialEq, Eq, Structural)]
pub enum LibraryCommand {
    /// Move the selection one row.
    MoveSelection { down: bool },
    /// Leave an author's works for the author list.
    BackToAuthors,
    /// Hide the picker and go to the reader.
    Close,
    /// Open the selected author row (`author_of_row` tells an author from a
    /// work).
    ActivateRow,
    /// Load the selected work.
    LoadSelectedWork,
    /// Consume the key and do nothing.
    Swallow,
    /// Leave the key to the search entry.
    PassThrough,
}

/// The library picker's command: Ctrl+`n`/Ctrl+`p` and the arrows move;
/// Escape goes back from the works to the authors, and closes from the
/// authors; Return opens the selected author row, or loads the selected
/// work; BackSpace in the works with an empty search goes back to the
/// authors; anything else goes to the search entry.
pub open spec fn library_spec(works: bool, key: Seq<char>, ctrl: bool, has_selection: bool, search_empty: bool) -> LibraryCommand {
    if ctrl && key == "n"@ {
        LibraryCommand::MoveSelection { down: true }
    } else if ctrl && key == "p"@ {
        LibraryCommand::MoveSelection { down: false }
    } else if key == "Escape"@ {
        if works { LibraryCommand::BackToAuthors } else { LibraryCommand::Close }
    } else if key == "Return"@ {
        if works {
            LibraryCommand::LoadSelectedWork
        } else if has_selection {
            LibraryCommand::ActivateRow
        } else {
            LibraryCommand::Swallow
        }
    } else if key == "BackSpace"@ {
        if works && search_empty { LibraryCommand::BackToAuthors } else { LibraryCommand::PassThrough }
    } else if key == "Down"@ {
        LibraryCommand::MoveSelection { down: true }
    } else if key == "Up"@ {
        LibraryCommand::MoveSelection { down: false }
    } else {
        LibraryCommand::PassThrough
    }
}

/// The library picker's command for a key (see `library_spec`): `works` is
/// the picker showing one author's works, `has_selection` a row being
/// selected, `search_empty` the search entry being empty.
pub fn library_key_command(works: bool, key: &str, ctrl: bool, has_selection: bool, search_empty: bool) -> (r: LibraryCommand)
    ensures
        r == library_spec(works, key@, ctrl, has_selection, search_empty),
{
    if ctrl && str_eq(key, "n") {
        LibraryCommand::MoveSelection { down: true }
    } else if ctrl && str_eq(key, "p") {
        LibraryCommand::MoveSelection { down: false }
    } else if str_eq(key, "Escape") {
        if works { LibraryCommand::BackToAuthors } else { LibraryCommand::Close }
    } else if str_eq(key, "Return") {
        if works {
            LibraryCommand::LoadSelectedWork
        } else if has_selection {
            LibraryCommand::ActivateRow
        } else {
            LibraryCommand::Swallow
        }
    } else if str_eq(key, "BackSpace") {
        if works && search_empty { LibraryCommand::BackToAuthors } else { LibraryCommand::PassThrough }
    } else if str_eq(key, "Down") {
        LibraryCommand::MoveSelection { down: true }
    } else if str_eq(key, "Up") {
        LibraryCommand::MoveSelection { down: false }
    } else {
        LibraryCommand::PassThrough
    }
}

/// `p` is a prefix of `s`.
pub open spec fn has_prefix(s: Seq<char>, p: Seq<char>) -> bool {
    p.len() <= s.len() && s.take(p.len() as int) == p
}

/// `s` with every leading copy of a non-empty `p` removed.
pub open spec fn strip_prefixes(s: Seq<char>, p: Seq<char>) -> Seq<char>
    decreases s.len(),
{
    if p.len() > 0 && has_prefix(s, p) {
        strip_prefixes(s.skip(p.len() as int), p)
    } else {
        s
    }
}

/// The marker that the library picker puts before an author row's name.
pub open spec fn author_marker() -> Seq<char> {
    seq!['a', 'u', 't', 'h', 'o', 'r', ':']
}

/// The text of `s` starting at `lo` begins with the author marker.
fn marker_at(s: &str, lo: usize) -> (r: bool)
    requires
        lo <= s@.len(),
    ensures
        r == has_prefix(s@.skip(lo as int), author_marker()),
{
    let n = s.unicode_len();
    if n - lo < 7 {
        return false;
    }
    let r = s.get_char(lo) == 'a' && s.get_char(lo + 1) == 'u' && s.get_char(lo + 2) == 't'
        && s.get_char(lo + 3) == 'h' && s.get_char(lo + 4) == 'o' && s.get_char(lo + 5) == 'r'
        && s.get_char(lo + 6) == ':';
    proof {
        let t = s@.skip(lo as int).take(7);
        if r {
            assert(t =~= author_marker());
        } else {
            assert(t != author_marker()) by {
                if t == author_marker() {
                    assert(t[0] == s@[lo as int]);
                    assert(t[1] == s@[lo + 1]);
                    assert(t[2] == s@[lo + 2]);
                    assert(t[3] == s@[lo + 3]);
                    assert(t[4] == s@[lo + 4]);
                    assert(t[5] == s@[lo + 5]);
                    assert(t[6] == s@[lo + 6]);
                }
            }
        }
    }
    r
}

/// The author named by a library row: `Some` of the row's name with its
/// leading author markers removed when the row is an author row (its name
/// starts with the marker), `None` for a work row.
pub fn author_of_row(name: &str) -> (r: Option<String>)
    ensures
        r is Some <==> has_prefix(name@, author_marker()),
        r matches Some(a) ==> a@ == strip_prefixes(name@, author_marker()),
{
    if !marker_at(name, 0) {
        proof {
            assert(name@.skip(0) =~= name@);
        }
        return None;
    }
    proof {
        assert(name@.skip(0) =~= name@);
    }
    let n = name.unicode_len();
    let mut lo: usize = 0;
    while marker_at(name, lo)
        invariant
            n == name@.len(),
            lo <= n,
            strip_prefixes(name@.skip(lo as int), author_marker()) == strip_prefixes(name@, author_marker()),
        decreases n - lo,
    {
        proof {
            let rest = name@.skip(lo as int);
            assert(rest.skip(7) =~= name@.skip(lo + 7));
        }
        lo = lo + 7;
    }
    let a = name.substring_char(lo, n).to_owned();
    proof {
        assert(name@.subrange(lo as int, n as int) =~= name@.skip(lo as int));
    }
    Some(a)
}

// ---------------------------------------------------------------------------
// The settings overlay and the voice picker
// ---------------------------------------------------------------------------

/// What the settings overlay does with a key. Every key is consumed.
#[derive(Clone, Copy, Debug, PartialEq, Eq, Structural)]
pub enum SettingsCommand {
    /// Restore the settings as they were when the overlay opened.
    Revert,
    /// Save the settings and close to the mode the overlay was opened from.
    SaveAndClose,
    /// Move the selection one row.
    MoveSelection { down: bool },
    /// Step the selected setting's value up or down.
    Adjust { up: bool },
    /// Reset every setting to its default.
    ResetDefaults,
    /// Consume the key and do nothing.
    Swallow,
}

/// The settings overlay's command: the resolved picker keys revert, save,
/// and move; `h`/Left and `l`/Right step the value down and up; `r` resets.
pub open spec fn settings_spec(action: PickerAction, key: Seq<char>) -> SettingsCommand {
    match action {
        PickerAction::Hide => SettingsCommand::Revert,
        PickerAction::Confirm => SettingsCommand::SaveAndClose,
        PickerAction::MoveDown => SettingsCommand::MoveSelection { down: true },
        PickerAction::MoveUp => SettingsCommand::MoveSelection { down: false },
        PickerAction::Unhandled => if key == "h"@ || key == "Left"@ {
            SettingsCommand::Adjust { up: false }
        } else if key == "l"@ || key == "Right"@ {
            SettingsCommand::Adjust { up: true }
        } else if key == "r"@ {
            SettingsCommand::ResetDefaults
        } else {
            SettingsCommand::Swallow
        },
    }
}

/// The settings overlay's command for a resolved key (see `settings_spec`).
pub fn settings_key_command(action: PickerAction, key: &str) -> (r: SettingsCommand)
    ensures
        r == settings_spec(action, key@),
{
    match action {
        PickerAction::Hide => SettingsCommand::Revert,
        PickerAction::Confirm => SettingsCommand::SaveAndClose,
        PickerAction::MoveDown => SettingsCommand::MoveSelection { down: true },
        PickerAction::MoveUp => SettingsCommand::MoveSelection { down: false },
        PickerAction::Unhandled => {
            if str_eq(key, "h") || str_eq(key, "Left") {
                SettingsCommand::Adjust { up: false }
            } else if str_eq(key, "l") || str_eq(key, "Right") {
                SettingsCommand::Adjust { up: true }
            } else if str_eq(key, "r") {
                SettingsCommand::ResetDefaults
            } else {
                SettingsCommand::Swallow
            }
        },
    }
}

/// What a search-entry picker (the voice picker, the corpus search) does with
/// a key.
#[derive(Clone, Copy, Debug, PartialEq, Eq, Structural)]
pub enum EntryPickerCommand {
    /// Switch the searched corpus (the corpus search's Tab).
    ToggleCorpus,
    /// Cancel: hide the picker and return to the mode it came from.
    Cancel,
    /// Confirm the selected row.
    Confirm,
    /// Move the selection one row.
    MoveSelection { down: bool },
    /// Leave the key to the search entry.
    PassThrough,
}

/// The voice picker's command: the resolved picker keys cancel, confirm and
/// move; any other key goes to the search entry.
pub open spec fn voice_spec(action: PickerAction) -> EntryPickerCommand {
    match action {
        PickerAction::Hide => EntryPickerCommand::Cancel,
        PickerAction::Confirm => EntryPickerCommand::Confirm,
        PickerAction::MoveDown => EntryPickerCommand::MoveSelection { down: true },
        PickerAction::MoveUp => EntryPickerCommand::MoveSelection { down: false },
        PickerAction::Unhandled => EntryPickerCommand::PassThrough,
    }
}

/// The voice picker's command for a resolved key (see `voice_spec`).
pub fn voice_key_command(action: PickerAction) -> (r: EntryPickerCommand)
    ensures
        r == voice_spec(action),
{
    match action {
        PickerAction::Hide => EntryPickerCommand::Cancel,
        PickerAction::Confirm => EntryPickerCommand::Confirm,
        PickerAction::MoveDown => EntryPickerCommand::MoveSelection { down: true },
        PickerAction::MoveUp => EntryPickerCommand::MoveSelection { down: false },
        PickerAction::Unhandled => EntryPickerCommand::PassThrough,
    }
}

/// The corpus search's command: Tab and Shift+Tab switch the corpus before
/// anything else; otherwise as the voice picker.
pub open spec fn corpus_spec(action: PickerAction, key: Seq<char>) -> EntryPickerCommand {
    if key == "Tab"@ || key == "ISO_Left_Tab"@ {
        EntryPickerCommand::ToggleCorpus
    } else {
        voice_spec(action)
    }
}

/// The corpus search's command for a key and its resolution (see
/// `corpus_spec`).
pub fn corpus_key_command(action: PickerAction, key: &str) -> (r: EntryPickerCommand)
    ensures
        r == corpus_spec(action, key@),
{
    if str_eq(key, "Tab") || str_eq(key, "ISO_Left_Tab") {
        EntryPickerCommand::ToggleCorpus
    } else {
        voice_key_command(action)
    }
}

// ---------------------------------------------------------------------------
// The search bar
// ---------------------------------------------------------------------------

/// What the search bar does with a key.
#[derive(Clone, Copy, Debug, PartialEq, Eq, Structural)]
pub enum SearchCommand {
    /// Escape: keep the live search's jump, clear the matches and close.
    Commit,
    /// Return: run the search (`search_return_closes` then says whether the
    /// bar closes).
    Execute,
    /// Consume the key (Tab must neither toggle playback nor move the focus).
    Swallow,
    /// Leave the key to the entry (Space included).
    PassThrough,
}

/// The search bar's command.
pub open spec fn search_spec(key: Seq<char>) -> SearchCommand {
    if key == "Escape"@ {
        SearchCommand::Commit
    } else if key == "Return"@ {
        SearchCommand::Execute
    } else if key == "Tab"@ || key == "ISO_Left_Tab"@ {
        SearchCommand::Swallow
    } else {
        SearchCommand::PassThrough
    }
}

/// The search bar's command for a key (see `search_spec`).
pub fn search_key_command(key: &str) -> (r: SearchCommand)
    ensures
        r == search_spec(key@),
{
    if str_eq(key, "Escape") {
        SearchCommand::Commit
    } else if str_eq(key, "Return") {
        SearchCommand::Execute
    } else if str_eq(key, "Tab") || str_eq(key, "ISO_Left_Tab") {
        SearchCommand::Swallow
    } else {
        SearchCommand::PassThrough
    }
}

/// After Return has run the search: the bar closes, committing the jump,
/// unless the query is non-empty and found nothing, in which case the bar
/// stays open with its query (and a toast says so).
pub fn search_return_closes(query: &str, match_count: usize) -> (r: bool)
    ensures
        r == !(query@.len() > 0 && match_count == 0),
{
    !(query.unicode_len() > 0 && match_count == 0)
}

/// What the overlay search input (a regex typed for the journal or gloss
/// overlay) does with a key.
#[derive(Clone, Copy, Debug, PartialEq, Eq, Structural)]
pub enum OverlaySearchCommand {
    /// Return: set the pattern on the overlay that opened the input (the
    /// gloss overlay or the journal overlay).
    Confirm { gloss: bool },
    /// Escape: hide the bar and return to the overlay that opened it, any
    /// earlier search untouched.
    Cancel,
    /// Consume the key.
    Swallow,
    /// Leave the key to the entry.
    PassThrough,
}

/// The overlay search input's command, for an input opened by `origin`.
pub open spec fn overlay_search_spec(origin: InputMode, key: Seq<char>) -> OverlaySearchCommand {
    if key == "Return"@ {
        OverlaySearchCommand::Confirm { gloss: origin == InputMode::GlossOverlay }
    } else if key == "Escape"@ {
        OverlaySearchCommand::Cancel
    } else if key == "Tab"@ || key == "ISO_Left_Tab"@ {
        OverlaySearchCommand::Swallow
    } else {
        OverlaySearchCommand::PassThrough
    }
}

/// The overlay search input's command for a key (see `overlay_search_spec`).
pub fn overlay_search_key_command(origin: InputMode, key: &str) -> (r: OverlaySearchCommand)
    ensures
        r == overlay_search_spec(origin, key@),
{
    if str_eq(key, "Return") {
        OverlaySearchCommand::Confirm { gloss: origin == InputMode::GlossOverlay }
    } else if str_eq(key, "Escape") {
        OverlaySearchCommand::Cancel
    } else if str_eq(key, "Tab") || str_eq(key, "ISO_Left_Tab") {
        OverlaySearchCommand::Swallow
    } else {
        OverlaySearchCommand::PassThrough
    }
}

/// The corpus search and the voice picker pass a key on to their entry only
/// when the shared resolution left it unhandled (and, for the corpus search,
/// it is not Tab).
pub proof fn law_entry_pickers_pass_only_unresolved_keys(action: PickerAction, key: Seq<char>)
    ensures
        voice_spec(action) == EntryPickerCommand::PassThrough ==> action == PickerAction::Unhandled,
        corpus_spec(action, key) == EntryPickerCommand::PassThrough ==> action == PickerAction::Unhandled
            && key != "Tab"@ && key != "ISO_Left_Tab"@,
{
}

} // verus!
