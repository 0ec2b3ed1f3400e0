use linux_lit::keymap::{ChordState, EscTimer, KeyState, VimKey, WordStep};
use linux_lit::overlay_keys::{
    ask_intercept, ask_route, chat_transcript_command, gloss_key_command, journal_key_command,
    synopsis_key_command, AskKey, AskRoute, ChatCommand, ChatEscape, ChatView, EscapeStep,
    GlossCommand, GlossView, JournalCommand, JournalView, SynopsisCommand,
};

fn gloss_view() -> GlossView {
    GlossView {
        ask_open: false,
        ask_float: false,
        ask_focused: false,
        has_blocks: true,
        popup_visible: false,
        showing_syntax: false,
        diff_active: false,
        search_active: false,
    }
}

fn journal_view() -> JournalView {
    JournalView {
        ask_open: false,
        ask_float: false,
        ask_focused: false,
        has_nav_blocks: true,
        popup_visible: false,
        diff_active: false,
        filter_active: false,
        search_active: false,
    }
}

#[test]
fn ask_card_routing() {
    assert_eq!(ask_route(true, true, false, "Tab", true), AskRoute::ToggleFocus);
    assert_eq!(ask_route(true, true, false, "Escape", false), AskRoute::FocusAsk);
    assert_eq!(ask_route(true, true, false, "j", false), AskRoute::Overlay);
    assert_eq!(ask_route(true, true, true, "j", false), AskRoute::AskCard);
    assert_eq!(ask_route(true, false, false, "j", false), AskRoute::AskCard);
    assert_eq!(ask_route(false, false, false, "j", false), AskRoute::Overlay);
}

#[test]
fn ask_card_editor_keys() {
    let mut esc = EscTimer::new();
    assert_eq!(ask_intercept(&mut esc, 1000, "Escape", None, false), AskKey::Escape);
    assert_eq!(ask_intercept(&mut esc, 1100, "Escape", None, false), AskKey::CloseAsk);
    assert_eq!(ask_intercept(&mut esc, 1200, "Return", None, true), AskKey::Submit);
    assert_eq!(ask_intercept(&mut esc, 1200, "V", Some('V'), true), AskKey::Paste);
    assert_eq!(ask_intercept(&mut esc, 1200, "a", Some('a'), false), AskKey::Feed(VimKey::Char('a')));
    assert_eq!(ask_intercept(&mut esc, 1200, "F5", None, false), AskKey::Swallow);
}

#[test]
fn gloss_keys() {
    let mut ks = KeyState::default();
    let v = gloss_view();
    assert_eq!(gloss_key_command(&mut ks, v, "n", false, false, true), GlossCommand::PrevGloss);
    assert_eq!(gloss_key_command(&mut ks, v, "N", true, true, false), GlossCommand::BrowseRevision { forward: true });
    assert_eq!(gloss_key_command(&mut ks, v, "n", true, false, false), GlossCommand::NextPassage);
    assert_eq!(gloss_key_command(&mut ks, v, "n", false, false, false), GlossCommand::SearchStep { forward: true });
    assert_eq!(gloss_key_command(&mut ks, v, "Up", true, false, true), GlossCommand::Volume { up: true, tts_only: true });
    assert_eq!(gloss_key_command(&mut ks, v, "space", false, true, false), GlossCommand::SynthAllBlocks);
    assert_eq!(gloss_key_command(&mut ks, v, "space", false, false, false), GlossCommand::BeginBlock);
    assert_eq!(gloss_key_command(&mut ks, v, "f", true, false, false), GlossCommand::OpenCorpusSearch);
    assert_eq!(gloss_key_command(&mut ks, v, "minus", false, false, true), GlossCommand::WordStep(WordStep::Collect));
    assert_eq!(gloss_key_command(&mut ks, v, "F9", false, false, false), GlossCommand::Swallow);
    // gg
    assert_eq!(gloss_key_command(&mut ks, v, "g", false, false, false), GlossCommand::StartChordG);
    assert_eq!(ks.chord, ChordState::PendingG);
    assert_eq!(gloss_key_command(&mut ks, v, "g", false, false, false), GlossCommand::FirstBlock { by_block: true });
    assert_eq!(ks.chord, ChordState::Idle);
    // A ctrl chord cancels the pending g and dispatches normally.
    ks.start_chord(ChordState::PendingG);
    assert_eq!(gloss_key_command(&mut ks, v, "g", true, false, false), GlossCommand::Swallow);
    assert_eq!(ks.chord, ChordState::Idle);
    // r arms rr.
    let popup = GlossView { popup_visible: true, ..v };
    assert_eq!(gloss_key_command(&mut ks, popup, "r", false, false, false), GlossCommand::VocabTap { next_word: true });
    assert_eq!(ks.chord, ChordState::PendingR);
    // Without blocks, the cursor keys scroll.
    let loading = GlossView { has_blocks: false, ..v };
    assert_eq!(gloss_key_command(&mut ks, loading, "j", false, false, false), GlossCommand::NextBlock { by_block: false });
}

#[test]
fn gloss_escape_cascade() {
    let mut ks = KeyState::default();
    let v = gloss_view();
    let esc = |v: GlossView| {
        let mut ks = KeyState::default();
        gloss_key_command(&mut ks, v, "Escape", false, false, false)
    };
    assert_eq!(esc(GlossView { popup_visible: true, diff_active: true, ..v }), GlossCommand::Escape(EscapeStep::ClosePopup));
    assert_eq!(esc(GlossView { diff_active: true, search_active: true, ..v }), GlossCommand::Escape(EscapeStep::ClearDiff));
    assert_eq!(esc(GlossView { search_active: true, ..v }), GlossCommand::Escape(EscapeStep::ClearSearch));
    assert_eq!(esc(v), GlossCommand::Escape(EscapeStep::Close));
    // Beside a floating card without the focus, Escape refocuses the card.
    let beside = GlossView { ask_open: true, ask_float: true, ..v };
    assert_eq!(gloss_key_command(&mut ks, beside, "Escape", false, false, false), GlossCommand::FocusAsk);
}

#[test]
fn journal_keys() {
    let mut ks = KeyState::default();
    let v = journal_view();
    assert_eq!(journal_key_command(&mut ks, v, "backslash", true, false, false), JournalCommand::OpenPicker);
    assert_eq!(journal_key_command(&mut ks, v, "w", false, false, true), JournalCommand::WorkBand);
    assert_eq!(journal_key_command(&mut ks, v, "J", true, false, false), JournalCommand::OpenMovePicker);
    assert_eq!(journal_key_command(&mut ks, v, "f", false, false, false), JournalCommand::OpenTermInput);
    assert_eq!(journal_key_command(&mut ks, v, "F9", false, false, false), JournalCommand::Unhandled);
    let filtered = JournalView { filter_active: true, ..v };
    assert_eq!(journal_key_command(&mut ks, filtered, "a", false, false, false), JournalCommand::FilterBlocked);
    assert_eq!(journal_key_command(&mut ks, filtered, "Escape", false, false, false), JournalCommand::Escape(EscapeStep::LeaveFilter));
    assert_eq!(journal_key_command(&mut ks, v, "G", false, false, false), JournalCommand::LastBlock);
    assert_eq!(journal_key_command(&mut ks, v, "g", false, false, false), JournalCommand::StartChordG);
    assert_eq!(journal_key_command(&mut ks, v, "x", false, false, false), JournalCommand::Swallow);
    assert_eq!(ks.chord, ChordState::Idle);
}

#[test]
fn synopsis_keys() {
    let mut ks = KeyState::default();
    let cmd = |ks: &mut KeyState, key: &str, ctrl: bool, shift: bool, alt: bool| {
        synopsis_key_command(ks, false, false, false, key, ctrl, shift, alt)
    };
    assert_eq!(cmd(&mut ks, "Escape", false, false, false), SynopsisCommand::Close);
    assert_eq!(cmd(&mut ks, "u", true, false, false), SynopsisCommand::PageTurn { forward: false });
    assert_eq!(cmd(&mut ks, "u", false, false, false), SynopsisCommand::ConfirmUndo);
    assert_eq!(cmd(&mut ks, "n", true, false, false), SynopsisCommand::CycleSynopsis { forward: true });
    assert_eq!(cmd(&mut ks, "n", true, true, false), SynopsisCommand::Swallow);
    assert_eq!(cmd(&mut ks, "g", false, false, true), SynopsisCommand::OpenWorkGlosses);
    assert_eq!(cmd(&mut ks, "g", false, false, false), SynopsisCommand::StartChordG);
    assert_eq!(cmd(&mut ks, "g", false, false, false), SynopsisCommand::FirstBlock);
    assert_eq!(cmd(&mut ks, "Tab", false, false, false), SynopsisCommand::Swallow);
    assert_eq!(cmd(&mut ks, "space", false, false, false), SynopsisCommand::BeginBlock);
}

#[test]
fn chat_transcript_keys() {
    let mut ks = KeyState::default();
    let v = ChatView { journal_view: true, popup_visible: false, visual_active: false };
    assert_eq!(chat_transcript_command(&mut ks, v, "Tab", true, false), ChatCommand::CloseLayout);
    assert_eq!(chat_transcript_command(&mut ks, v, "Tab", false, false), ChatCommand::FocusReader);
    assert_eq!(chat_transcript_command(&mut ks, v, "h", false, false), ChatCommand::MoveRow { down: true });
    assert_eq!(chat_transcript_command(&mut ks, v, "w", true, false), ChatCommand::Rewrite { journal: true });
    assert_eq!(chat_transcript_command(&mut ks, v, "r", true, true), ChatCommand::Swallow);
    assert_eq!(chat_transcript_command(&mut ks, v, "Escape", false, false), ChatCommand::Escape(ChatEscape::FocusReader));
    let sel = ChatView { visual_active: true, ..v };
    assert_eq!(chat_transcript_command(&mut ks, sel, "Escape", false, false), ChatCommand::Escape(ChatEscape::ExitVisual));
    assert_eq!(chat_transcript_command(&mut ks, v, "g", false, false), ChatCommand::StartChordG);
    // A pending g and another key: the chord clears and the key goes on.
    assert_eq!(chat_transcript_command(&mut ks, v, "G", false, false), ChatCommand::LastRow);
    assert_eq!(ks.chord, ChordState::Idle);
}
