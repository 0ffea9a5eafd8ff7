use vstd::prelude::*;
use std::collections::HashSet;
use crate::cache::Cache;
use crate::config::Config;
use crate::domain::{Epic, Iteration, Story};
use crate::error::ErrorInfo;
use tui_scrollview::ScrollViewState;

verus! {

broadcast use vstd::std_specs::hash::group_hash_axioms;

/// The root state, owned by the main loop and changed only by the update
/// step.
#[derive(Debug)]
pub struct Model {
    pub data: DataState,
    pub ui: UiState,
    pub config: Config,
    pub cache: Cache,
}

/// Domain data loaded from the cache or the network.
#[derive(Debug)]
pub struct DataState {
    pub stories: Vec<Story>,
    pub epics: Vec<Epic>,
    pub current_iterations: Option<Vec<Iteration>>,
    pub active_story: Option<Story>,
}

/// UI state: focus, selection, expansion, the modal and the notification.
#[derive(Debug)]
pub struct UiState {
    pub focused_pane: PaneId,
    pub story_list: StoryListState,
    pub epic_pane: EpicPaneState,
    pub description_modal: DescriptionModalState,
    pub notes_list: NotesListState,
    pub error: Option<ErrorInfo>,
}

/// The panes that can hold the focus.
#[derive(Debug, Clone, Copy, PartialEq, Eq, Structural)]
pub enum PaneId {
    StoryList,
    Epic,
}

/// A step along the focus chain.
#[derive(Debug, Clone, Copy, PartialEq, Eq, Structural)]
pub enum FocusMove {
    Next,
    Prev,
}

/// The selection and the expanded rows of the story list.
#[derive(Debug)]
pub struct StoryListState {
    pub selected_index: Option<usize>,
    pub expanded_items: HashSet<usize>,
}

/// The state of the epic pane; it holds nothing yet.
#[derive(Debug, Clone, Copy, PartialEq, Eq, Structural)]
pub struct EpicPaneState {}

/// The modal that shows a story's description.
#[derive(Debug)]
pub struct DescriptionModalState {
    pub is_showing: bool,
    pub scroll_view_state: ScrollViewState,
    pub story: Option<Story>,
}

/// The notes on disk, daily ones apart, and the one selected.
#[derive(Debug)]
pub struct NotesListState {
    pub daily_notes: Vec<String>,
    pub other_notes: Vec<String>,
    pub selected_path: Option<String>,
}

/// The fixed cyclic order in which panes take the focus.
pub open spec fn focus_chain() -> Seq<PaneId> {
    seq![PaneId::StoryList, PaneId::Epic]
}

/// The place of a pane in the focus chain.
pub open spec fn pane_index(p: PaneId) -> int {
    match p {
        PaneId::StoryList => 0,
        PaneId::Epic => 1,
    }
}

/// The pane after `p` in the focus chain, wrapping around.
pub open spec fn next_pane(p: PaneId) -> PaneId {
    focus_chain()[(pane_index(p) + 1) % (focus_chain().len() as int)]
}

/// The pane before `p` in the focus chain, wrapping around.
pub open spec fn prev_pane(p: PaneId) -> PaneId {
    focus_chain()[(pane_index(p) + focus_chain().len() - 1) % (focus_chain().len() as int)]
}

/// The pane that holds the focus after a sequence of moves from `p`.
pub open spec fn focus_after(p: PaneId, moves: Seq<FocusMove>) -> PaneId
    decreases moves.len(),
{
    if moves.len() == 0 {
        p
    } else {
        let q = focus_after(p, moves.drop_last());
        match moves.last() {
            FocusMove::Next => next_pane(q),
            FocusMove::Prev => prev_pane(q),
        }
    }
}

/// The two panes follow each other, both ways.
proof fn lemma_neighbours()
    ensures
        focus_chain().len() == 2,
        focus_chain()[0] == PaneId::StoryList,
        focus_chain()[1] == PaneId::Epic,
        next_pane(PaneId::StoryList) == PaneId::Epic,
        next_pane(PaneId::Epic) == PaneId::StoryList,
        prev_pane(PaneId::StoryList) == PaneId::Epic,
        prev_pane(PaneId::Epic) == PaneId::StoryList,
{
    assert((0int + 1) % 2 == 1);
    assert((1int + 1) % 2 == 0);
    assert((0int + 2 - 1) % 2 == 1);
    assert((1int + 2 - 1) % 2 == 0);
}

/// Focus cycling is total and cyclic: from any pane, any sequence of moves
/// leaves the focus on a member of the focus chain, and a move forward
/// followed by a move back (or back, then forward) returns to where it was.
pub proof fn lemma_focus_cycle(p: PaneId, moves: Seq<FocusMove>)
    ensures
        focus_chain().contains(focus_after(p, moves)),
        focus_chain()[pane_index(p)] == p,
        prev_pane(next_pane(p)) == p,
        next_pane(prev_pane(p)) == p,
    decreases moves.len(),
{
    lemma_neighbours();
    if moves.len() > 0 {
        lemma_focus_cycle(p, moves.drop_last());
    }
    let q = focus_after(p, moves);
    assert(focus_chain()[pane_index(q)] == q);
}

impl UiState {
    /// Move focus to the next pane (wraps around).
    pub fn focus_next_pane(&mut self)
        ensures
            final(self).focused_pane == next_pane(old(self).focused_pane),
            final(self).story_list == old(self).story_list,
            final(self).epic_pane == old(self).epic_pane,
            final(self).description_modal == old(self).description_modal,
            final(self).notes_list == old(self).notes_list,
            final(self).error == old(self).error,
    {
        proof {
            lemma_neighbours();
        }
        self.focused_pane = match self.focused_pane {
            PaneId::StoryList => PaneId::Epic,
            PaneId::Epic => PaneId::StoryList,
        };
    }

    /// Move focus to the previous pane (wraps around).
    pub fn focus_prev_pane(&mut self)
        ensures
            final(self).focused_pane == prev_pane(old(self).focused_pane),
            final(self).story_list == old(self).story_list,
            final(self).epic_pane == old(self).epic_pane,
            final(self).description_modal == old(self).description_modal,
            final(self).notes_list == old(self).notes_list,
            final(self).error == old(self).error,
    {
        proof {
            lemma_neighbours();
        }
        self.focused_pane = match self.focused_pane {
            PaneId::Epic => PaneId::StoryList,
            PaneId::StoryList => PaneId::Epic,
        };
    }

    /// Drops the notification once it has expired at `now_ms`.
    pub fn clear_expired_error(&mut self, now_ms: i64)
        ensures
            final(self).focused_pane == old(self).focused_pane,
            final(self).story_list == old(self).story_list,
            final(self).epic_pane == old(self).epic_pane,
            final(self).description_modal == old(self).description_modal,
            final(self).notes_list == old(self).notes_list,
            final(self).error == match old(self).error {
                Some(e) => if crate::error::expired(e.created_at_ms, now_ms) {
                    None
                } else {
                    Some(e)
                },
                None => None,
            },
    {
        let expired = match &self.error {
            Some(e) => e.is_expired_at(now_ms),
            None => false,
        };
        if expired {
            self.error = None;
        }
    }
}

impl StoryListState {
    /// The selection and the expanded rows refer only to rows of a list of
    /// `n` stories.
    pub open spec fn wf(&self, n: nat) -> bool {
        &&& self.selected_index matches Some(i) ==> i < n
        &&& forall|k: usize| #[trigger] self.expanded_items@.contains(k) ==> k < n
    }

    /// No row selected and none expanded.
    pub fn new() -> (r: StoryListState)
        ensures
            r.selected_index.is_none(),
            r.expanded_items@ == Set::<usize>::empty(),
    {
        StoryListState { selected_index: None, expanded_items: HashSet::new() }
    }
}

impl Default for StoryListState {
    fn default() -> (r: StoryListState)
        ensures
            r.selected_index.is_none(),
            r.expanded_items@ == Set::<usize>::empty(),
    {
        StoryListState::new()
    }
}

impl DescriptionModalState {
    /// A closed modal with no story.
    pub fn new() -> (r: DescriptionModalState)
        ensures
            !r.is_showing,
            r.story.is_none(),
    {
        DescriptionModalState { is_showing: false, scroll_view_state: ScrollViewState::new(), story: None }
    }
}

impl Default for DescriptionModalState {
    fn default() -> (r: DescriptionModalState)
        ensures
            !r.is_showing,
            r.story.is_none(),
    {
        DescriptionModalState::new()
    }
}

impl NotesListState {
    /// No notes and none selected.
    pub fn new() -> (r: NotesListState)
        ensures
            r.daily_notes@.len() == 0,
            r.other_notes@.len() == 0,
            r.selected_path.is_none(),
    {
        NotesListState { daily_notes: Vec::new(), other_notes: Vec::new(), selected_path: None }
    }
}

impl UiState {
    /// The state at startup: the story list focused, nothing selected,
    /// expanded or shown.
    pub fn new() -> (r: UiState)
        ensures
            r.focused_pane == PaneId::StoryList,
            r.story_list.selected_index.is_none(),
            r.story_list.expanded_items@ == Set::<usize>::empty(),
            !r.description_modal.is_showing,
            r.description_modal.story.is_none(),
            r.error.is_none(),
    {
        UiState {
            focused_pane: PaneId::StoryList,
            story_list: StoryListState::new(),
            epic_pane: EpicPaneState {},
            description_modal: DescriptionModalState::new(),
            notes_list: NotesListState::new(),
            error: None,
        }
    }
}

impl Default for UiState {
    fn default() -> (r: UiState)
        ensures
            r.focused_pane == PaneId::StoryList,
            r.story_list.selected_index.is_none(),
            r.story_list.expanded_items@ == Set::<usize>::empty(),
            !r.description_modal.is_showing,
            r.description_modal.story.is_none(),
            r.error.is_none(),
    {
        UiState::new()
    }
}

impl Model {
    /// The UI state refers only to data that exists.
    pub open spec fn wf(&self) -> bool {
        self.ui.story_list.wf(self.data.stories@.len())
    }
}

} // verus!
