use vstd::prelude::*;
use crate::domain::{Epic, Iteration, Story};
use crate::error::ErrorInfo;
use crate::keys::KeyEvent;

verus! {

/// Every event that the update step reacts to.
#[derive(Debug)]
pub enum Msg {
    /// A key was pressed.
    KeyPressed(KeyEvent),
    /// Move the focus to the next pane.
    FocusNextPane,
    /// Move the focus to the previous pane.
    FocusPrevPane,
    /// A message for the story list pane.
    StoryList(StoryListMsg),
    /// A message for the epic pane.
    Epic(EpicMsg),
    /// A message for the description modal.
    DescriptionModal(DescriptionModalMsg),
    /// Stories arrived, from the cache or from the network.
    StoriesLoaded { stories: Vec<Story>, from_cache: bool },
    /// Epics arrived.
    EpicsLoaded(Vec<Epic>),
    /// The current iteration arrived.
    IterationLoaded(Iteration),
    /// A note was opened and closed again.
    NoteOpened,
    /// The cache was written.
    CacheWritten,
    /// A background task failed.
    Error(ErrorInfo),
    /// Leave the application.
    Quit,
}

/// Messages of the story list pane.
#[derive(Debug, Clone, Copy, PartialEq, Eq, Structural)]
pub enum StoryListMsg {
    SelectNext,
    SelectPrev,
    ToggleExpand,
    OpenNote,
}

/// Messages of the epic pane. The pane has no behaviour of its own so far:
/// its one message changes nothing.
#[derive(Debug, Clone, Copy, PartialEq, Eq, Structural)]
pub enum EpicMsg {
    Idle,
}

/// Messages of the description modal.
#[derive(Debug, Clone, Copy, PartialEq, Eq, Structural)]
pub enum DescriptionModalMsg {
    Open,
    Close,
    ScrollUp,
    ScrollDown,
    ScrollPageUp,
    ScrollPageDown,
    ScrollToTop,
    ScrollToBottom,
}

} // verus!
