//! The reader's actions: what a key binding resolves to.

use vstd::prelude::*;

verus! {

/// A reader action a key binding resolves to.
#[derive(Clone, Copy, Debug, PartialEq, Eq, Hash, Structural)]
pub enum Action {
    AddVocabWord,
    AdjustFontSizeDown,
    AdjustFontSizeUp,
    AskPassage,
    BookmarkTap,
    ChatPanelFlipSide,
    CloseChatLayout,
    ConcordanceNext,
    ConcordancePrev,
    CopyJournalDivisionBlob,
    CopyLineMappingId,
    CopyWorkDivision,
    CopyWorkInfo,
    CursorNextDialogue,
    CursorNextDialogueNoSeek,
    CursorPrevDialogue,
    CursorPrevDialogueNoSeek,
    CursorToPageBottom,
    CycleFontBackward,
    CycleFontForward,
    CycleScansion,
    CycleSegmentOverlays,
    DeleteTimestamp,
    DeleteTimestampTap,
    EnterPageCalibration,
    EnterVisualMode,
    EscapeReaderMode,
    HideVocabPopup,
    JumpToEnd,
    JumpToNextChapter,
    JumpToNextDialogue,
    JumpToNextDivision,
    JumpToNextSpeaker,
    JumpToNextVocab,
    JumpToPrevChapter,
    JumpToPrevDialogue,
    JumpToPrevDivision,
    JumpToPrevSpeaker,
    JumpToPrevVocab,
    JumpToRecentBookmark,
    JumpToStart,
    NextBookmark,
    NudgeStartBackward,
    NudgeStartForward,
    OpenBookmarkPicker,
    OpenConcordanceListPicker,
    OpenConcordancePicker,
    OpenConcordanceWordPicker,
    OpenConcordanceWorksPicker,
    OpenCorpusSearch,
    OpenGlossPicker,
    OpenJournalPicker,
    OpenJournalTermInput,
    OpenKeybindsOverlay,
    OpenLastGloss,
    OpenLibraryPicker,
    OpenMediaPicker,
    OpenRecentPicker,
    OpenRecentQaPicker,
    OpenSearch,
    OpenSearchBackward,
    OpenSegmentVim,
    OpenSettingsOverlay,
    OpenSyntaxDiagramForUnderlined,
    PageBackward,
    PageBackwardBottom,
    PageForward,
    PendingG,
    PickAttributionSet,
    PlayCurrentLine,
    PrevBookmark,
    ReaderGlossChatAtCursor,
    ReopenEchoesBcp,
    ReopenEchoesShx,
    ResetFontSize,
    RootVariantNext,
    RootVariantPrev,
    SaveAndQuit,
    SearchNextMatch,
    SearchPrevMatch,
    SeekBackward30,
    SeekLongBackward,
    SeekLongForward,
    SeekShortBackward,
    SeekShortForward,
    SetChapter,
    SetEndTime,
    SetStartTime,
    ShowCurrentChapter,
    ShowEchoTurnsBcp,
    ShowEchoTurnsShx,
    ShowEchoesBcp,
    ShowEchoesShx,
    ShowFontInfo,
    ShowSynopsisOverlay,
    ShowThemeInfo,
    ShowTranslationOverlay,
    ThemeNext,
    ThemePrev,
    ToggleAnnotationTint,
    ToggleAuthorship,
    ToggleBookmark,
    ToggleChapterStart,
    ToggleChatLayout,
    ToggleColumnLayout,
    ToggleDebugLogging,
    ToggleDim,
    ToggleGlossOverlay,
    ToggleImageView,
    ToggleJournalOverlay,
    ToggleLastOverlay,
    ToggleNavTest,
    TogglePause,
    TogglePhraseHighlight,
    TogglePlaybackFromTimestamp,
    TogglePlaybackSpeed,
    TogglePlaybackSync,
    TogglePreviousWork,
    ToggleSignColumn,
    ToggleTitleBar,
    ToggleTranslations,
    ToggleVocabHighlight,
    ToggleVocabPopup,
    UnderlineNextSentence,
    UndoTimestamp,
    VocabJournalAsk,
    VocabPopupNext,
    VocabPopupPrev,
    VocabPopupTap,
    VolumeDown,
    VolumeUp,
    WordCollectCopy,
    WordCycleCopy,
    WordCyclePrevCopy,
}

} // verus!
