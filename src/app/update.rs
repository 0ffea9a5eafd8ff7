use vstd::prelude::*;
use crate::app::cmd::{both, just, Cmd};
use crate::app::description_modal::{self, modal_msg_of};
use crate::app::epic_pane;
use crate::app::model::{
    next_pane, prev_pane, DataState, Model, PaneId, UiState,
};
use crate::app::msg::{DescriptionModalMsg, Msg};
use crate::app::story_list::{self, story_list_msg_of, story_list_post};
use crate::cache::Cache;
use crate::config::Config;
use crate::domain::{
    clone_iterations, clone_stories, same_stories, same_story, same_story_ids, story_ids,
    Iteration, Story,
};
use crate::keys::{app_key_of, AppKey, KeyCode, KeyEvent};

verus! {

broadcast use vstd::std_specs::hash::group_hash_axioms;

/// The engine: the model and whether the main loop is to stop.
#[derive(Debug)]
pub struct App {
    pub model: Model,
    pub exit: bool,
}

/// Domain data, cache and configuration are as they were.
pub open spec fn keeps_data(o: App, n: App) -> bool {
    &&& n.model.data == o.model.data
    &&& n.model.cache == o.model.cache
    &&& n.model.config == o.model.config
}

/// Focus, the panes' states and the modal are as they were.
pub open spec fn keeps_ui(o: App, n: App) -> bool {
    &&& n.model.ui.focused_pane == o.model.ui.focused_pane
    &&& n.model.ui.story_list == o.model.ui.story_list
    &&& n.model.ui.epic_pane == o.model.ui.epic_pane
    &&& n.model.ui.description_modal == o.model.ui.description_modal
    &&& n.model.ui.notes_list == o.model.ui.notes_list
}

/// Nothing but, perhaps, the notification has changed.
pub open spec fn keeps_all(o: App, n: App) -> bool {
    &&& n.exit == o.exit
    &&& keeps_data(o, n)
    &&& keeps_ui(o, n)
}

/// Everything in the UI state but the story list, the modal and the
/// notification is as it was.
pub open spec fn keeps_other_panes(o: App, n: App) -> bool {
    &&& n.model.ui.focused_pane == o.model.ui.focused_pane
    &&& n.model.ui.epic_pane == o.model.ui.epic_pane
    &&& n.model.ui.notes_list == o.model.ui.notes_list
}

/// Network stories that carry the ids of the current ones, in the same
/// order, are redundant; stories from the cache never are.
pub open spec fn is_redundant(current: Seq<Story>, incoming: Seq<Story>, from_cache: bool) -> bool {
    !from_cache && story_ids(incoming) == story_ids(current)
}

/// A selection kept only while it is a row of a list of `n` rows.
pub open spec fn clamped(sel: Option<usize>, n: nat) -> Option<usize> {
    match sel {
        Some(i) => if i < n {
            Some(i)
        } else {
            None
        },
        None => None,
    }
}

/// The message a key press stands for. An open modal takes every key;
/// otherwise the global bindings (quit, focus left and right) come first,
/// and then the focused pane's own.
pub open spec fn key_msg(app: App, key: KeyEvent) -> Option<Msg> {
    if app.model.ui.description_modal.is_showing {
        match modal_msg_of(key) {
            Some(m) => Some(Msg::DescriptionModal(m)),
            None => None,
        }
    } else {
        match app_key_of(key.code) {
            Some(AppKey::Quit) => Some(Msg::Quit),
            Some(AppKey::Left) => Some(Msg::FocusPrevPane),
            Some(AppKey::Right) => Some(Msg::FocusNextPane),
            _ => match app.model.ui.focused_pane {
                PaneId::StoryList => if key.code == KeyCode::Char('d') {
                    Some(Msg::DescriptionModal(DescriptionModalMsg::Open))
                } else {
                    match story_list_msg_of(key) {
                        Some(m) => Some(Msg::StoryList(m)),
                        None => None,
                    }
                },
                PaneId::Epic => None,
            },
        }
    }
}

/// What a message other than a key press does to the engine `o`, giving
/// `n`, and the commands it asks for. The notification is dealt with apart.
pub open spec fn applied(o: App, n: App, msg: Msg, cmds: Seq<Cmd>) -> bool {
    match msg {
        Msg::Quit => {
            &&& n.exit
            &&& keeps_data(o, n)
            &&& keeps_ui(o, n)
            &&& cmds == seq![Cmd::Noop]
        },
        Msg::FocusNextPane => {
            &&& n.exit == o.exit
            &&& keeps_data(o, n)
            &&& n.model.ui.focused_pane == next_pane(o.model.ui.focused_pane)
            &&& n.model.ui.story_list == o.model.ui.story_list
            &&& n.model.ui.epic_pane == o.model.ui.epic_pane
            &&& n.model.ui.description_modal == o.model.ui.description_modal
            &&& n.model.ui.notes_list == o.model.ui.notes_list
            &&& cmds == seq![Cmd::Noop]
        },
        Msg::FocusPrevPane => {
            &&& n.exit == o.exit
            &&& keeps_data(o, n)
            &&& n.model.ui.focused_pane == prev_pane(o.model.ui.focused_pane)
            &&& n.model.ui.story_list == o.model.ui.story_list
            &&& n.model.ui.epic_pane == o.model.ui.epic_pane
            &&& n.model.ui.description_modal == o.model.ui.description_modal
            &&& n.model.ui.notes_list == o.model.ui.notes_list
            &&& cmds == seq![Cmd::Noop]
        },
        Msg::StoryList(m) => {
            &&& n.exit == o.exit
            &&& keeps_data(o, n)
            &&& keeps_other_panes(o, n)
            &&& n.model.ui.description_modal == o.model.ui.description_modal
            &&& story_list_post(
                o.model.ui.story_list,
                n.model.ui.story_list,
                o.model.data.stories@,
                m,
                cmds,
            )
        },
        Msg::Epic(_) => {
            &&& keeps_all(o, n)
            &&& cmds == seq![Cmd::Noop]
        },
        Msg::DescriptionModal(m) => {
            &&& n.exit == o.exit
            &&& keeps_data(o, n)
            &&& keeps_other_panes(o, n)
            &&& n.model.ui.story_list == o.model.ui.story_list
            &&& cmds == seq![Cmd::Noop]
            &&& match m {
                DescriptionModalMsg::Open => match o.model.ui.story_list.selected_index {
                    Some(i) => {
                        &&& n.model.ui.description_modal.is_showing
                        &&& n.model.ui.description_modal.story matches Some(s)
                        &&& same_story(s, o.model.data.stories@[i as int])
                    },
                    None => n.model.ui.description_modal == o.model.ui.description_modal,
                },
                DescriptionModalMsg::Close => {
                    &&& !n.model.ui.description_modal.is_showing
                    &&& n.model.ui.description_modal.story.is_none()
                },
                _ => {
                    &&& n.model.ui.description_modal.is_showing
                        == o.model.ui.description_modal.is_showing
                    &&& n.model.ui.description_modal.story == o.model.ui.description_modal.story
                },
            }
        },
        Msg::StoriesLoaded { stories, from_cache } => {
            &&& n.exit == o.exit
            &&& n.model.config == o.model.config
            &&& if is_redundant(o.model.data.stories@, stories@, from_cache) {
                &&& keeps_data(o, n)
                &&& keeps_ui(o, n)
                &&& cmds == seq![Cmd::Noop]
            } else {
                &&& n.model.data == DataState { stories: stories, ..o.model.data }
                &&& n.model.cache.iteration_stories matches Some(c)
                &&& same_stories(c@, stories@)
                &&& n.model.cache == Cache {
                    iteration_stories: n.model.cache.iteration_stories,
                    ..o.model.cache
                }
                &&& keeps_other_panes(o, n)
                &&& n.model.ui.description_modal == o.model.ui.description_modal
                &&& if story_ids(stories@) == story_ids(o.model.data.stories@) {
                    n.model.ui.story_list == o.model.ui.story_list
                } else {
                    &&& n.model.ui.story_list.selected_index == clamped(
                        o.model.ui.story_list.selected_index,
                        stories@.len(),
                    )
                    &&& n.model.ui.story_list.expanded_items@ == Set::<usize>::empty()
                }
                &&& cmds == seq![Cmd::WriteCache]
            }
        },
        Msg::EpicsLoaded(epics) => {
            &&& n.exit == o.exit
            &&& n.model.data == DataState { epics: epics, ..o.model.data }
            &&& n.model.cache == o.model.cache
            &&& n.model.config == o.model.config
            &&& keeps_ui(o, n)
            &&& cmds == seq![Cmd::Noop]
        },
        Msg::IterationLoaded(it) => {
            &&& n.exit == o.exit
            &&& n.model.data.current_iterations matches Some(v)
            &&& v@ == seq![it]
            &&& n.model.data == DataState {
                current_iterations: n.model.data.current_iterations,
                ..o.model.data
            }
            &&& n.model.cache.current_iterations matches Some(w)
            &&& w@ == seq![it]
            &&& n.model.cache == Cache {
                current_iterations: n.model.cache.current_iterations,
                ..o.model.cache
            }
            &&& n.model.config == o.model.config
            &&& keeps_ui(o, n)
            &&& cmds == seq![Cmd::WriteCache, Cmd::FetchStories { iteration_id: it.id }]
        },
        Msg::NoteOpened => {
            &&& keeps_all(o, n)
            &&& cmds == seq![Cmd::Noop]
        },
        Msg::CacheWritten => {
            &&& keeps_all(o, n)
            &&& cmds == seq![Cmd::Noop]
        },
        Msg::Error(_) => {
            &&& keeps_all(o, n)
            &&& cmds == seq![Cmd::Noop]
        },
        Msg::KeyPressed(_) => false,
    }
}

/// What the update step does: `n` is the engine after `msg` was applied to
/// `o`, and `cmds` the commands asked for.
pub open spec fn update_post(o: App, n: App, msg: Msg, cmds: Seq<Cmd>) -> bool {
    &&& msg matches Msg::KeyPressed(key) ==> {
        &&& n.model.ui.error.is_none()
        &&& match key_msg(o, key) {
            Some(m) => applied(o, n, m, cmds),
            None => keeps_all(o, n) && cmds == seq![Cmd::Noop],
        }
    }
    &&& !(msg is KeyPressed) ==> applied(o, n, msg, cmds)
    &&& msg matches Msg::Error(info) ==> n.model.ui.error == Some(info)
    &&& !(msg is KeyPressed) && !(msg is Error) ==> n.model.ui.error == o.model.ui.error
}

/// Reconciliation is idempotent: network stories whose ids are those of the
/// current stories, in order, change nothing in the model and ask for no
/// cache write.
pub proof fn lemma_redundant_stories_change_nothing(
    o: App,
    n: App,
    stories: Vec<Story>,
    cmds: Seq<Cmd>,
)
    requires
        story_ids(stories@) == story_ids(o.model.data.stories@),
        update_post(o, n, Msg::StoriesLoaded { stories, from_cache: false }, cmds),
    ensures
        n.model == o.model,
        n.exit == o.exit,
        !cmds.contains(Cmd::WriteCache),
        cmds == seq![Cmd::Noop],
{
    assert(cmds[0] == Cmd::Noop);
}

/// Once stories have been applied, the same stories from the network again
/// (or any with the same ids in the same order) are redundant.
pub proof fn lemma_stories_loaded_twice(
    o: App,
    n: App,
    stories: Vec<Story>,
    from_cache: bool,
    cmds: Seq<Cmd>,
    again: Vec<Story>,
)
    requires
        story_ids(again@) == story_ids(stories@),
        update_post(o, n, Msg::StoriesLoaded { stories, from_cache }, cmds),
    ensures
        is_redundant(n.model.data.stories@, again@, false),
{
}

/// A vector holding one iteration.
fn one_iteration(it: Iteration) -> (r: Vec<Iteration>)
    ensures
        r@ == seq![it],
{
    let mut v: Vec<Iteration> = Vec::new();
    v.push(it);
    assert(v@ =~= seq![it]);
    v
}

impl App {
    /// The engine at startup. Whatever the cache holds is shown at once:
    /// its stories, current iterations and active story become the
    /// model's, before any network result arrives.
    pub fn new(config: Config, cache: Cache) -> (r: App)
        ensures
            r.model.wf(),
            !r.exit,
            r.model.config == config,
            r.model.cache == cache,
            match cache.iteration_stories {
                Some(s) => same_stories(r.model.data.stories@, s@),
                None => r.model.data.stories@.len() == 0,
            },
            r.model.data.epics@.len() == 0,
            match cache.current_iterations {
                Some(v) => r.model.data.current_iterations matches Some(w) && w@ == v@,
                None => r.model.data.current_iterations.is_none(),
            },
            match cache.active_story {
                Some(s) => r.model.data.active_story matches Some(t) && same_story(t, s),
                None => r.model.data.active_story.is_none(),
            },
            r.model.ui.focused_pane == PaneId::StoryList,
            r.model.ui.story_list.selected_index.is_none(),
            r.model.ui.story_list.expanded_items@ == Set::<usize>::empty(),
            !r.model.ui.description_modal.is_showing,
            r.model.ui.error.is_none(),
    {
        let stories = match &cache.iteration_stories {
            Some(s) => clone_stories(s),
            None => Vec::new(),
        };
        let current_iterations = match &cache.current_iterations {
            Some(v) => Some(clone_iterations(v)),
            None => None,
        };
        let active_story = match &cache.active_story {
            Some(s) => Some(s.clone()),
            None => None,
        };
        let data = DataState { stories, epics: Vec::new(), current_iterations, active_story };
        App { model: Model { data, ui: UiState::new(), config, cache }, exit: false }
    }

    /// The message a key press stands for, if any.
    pub fn key_to_msg(&self, key: KeyEvent) -> (r: Option<Msg>)
        ensures
            r == key_msg(*self, key),
    {
        if self.model.ui.description_modal.is_showing {
            match description_modal::key_to_msg(key) {
                Some(m) => Some(Msg::DescriptionModal(m)),
                None => None,
            }
        } else {
            match AppKey::from_keycode(key.code) {
                Some(AppKey::Quit) => Some(Msg::Quit),
                Some(AppKey::Left) => Some(Msg::FocusPrevPane),
                Some(AppKey::Right) => Some(Msg::FocusNextPane),
                _ => match self.model.ui.focused_pane {
                    PaneId::StoryList => {
                        if key.code == KeyCode::Char('d') {
                            Some(Msg::DescriptionModal(DescriptionModalMsg::Open))
                        } else {
                            match story_list::key_to_msg(key) {
                                Some(m) => Some(Msg::StoryList(m)),
                                None => None,
                            }
                        }
                    },
                    PaneId::Epic => match epic_pane::key_to_msg(key) {
                        Some(m) => Some(Msg::Epic(m)),
                        None => None,
                    },
                },
            }
        }
    }

    /// The update step: applies one message to the model and returns the
    /// commands to carry out, in order. A key press first dismisses the
    /// notification, then acts as the message it stands for.
    pub fn update(&mut self, msg: Msg) -> (r: Vec<Cmd>)
        requires
            old(self).model.wf(),
        ensures
            final(self).model.wf(),
            update_post(*old(self), *final(self), msg, r@),
    {
        match msg {
            Msg::KeyPressed(key) => self.handle_key_input(key),
            other => self.apply(other),
        }
    }

    /// Dismisses the notification and acts on what the key stands for.
    fn handle_key_input(&mut self, key: KeyEvent) -> (r: Vec<Cmd>)
        requires
            old(self).model.wf(),
        ensures
            final(self).model.wf(),
            final(self).model.ui.error.is_none(),
            match key_msg(*old(self), key) {
                Some(m) => applied(*old(self), *final(self), m, r@),
                None => keeps_all(*old(self), *final(self)) && r@ == seq![Cmd::Noop],
            },
    {
        let m = self.key_to_msg(key);
        self.model.ui.error = None;
        match m {
            Some(m) => self.apply(m),
            None => just(Cmd::Noop),
        }
    }

    /// Applies a message other than a key press.
    fn apply(&mut self, msg: Msg) -> (r: Vec<Cmd>)
        requires
            old(self).model.wf(),
            !(msg is KeyPressed),
        ensures
            final(self).model.wf(),
            applied(*old(self), *final(self), msg, r@),
            msg matches Msg::Error(info) ==> final(self).model.ui.error == Some(info),
            !(msg is Error) ==> final(self).model.ui.error == old(self).model.ui.error,
    {
        match msg {
            Msg::Quit => {
                self.exit = true;
                just(Cmd::Noop)
            },
            Msg::KeyPressed(_) => just(Cmd::Noop),
            Msg::FocusNextPane => {
                self.model.ui.focus_next_pane();
                just(Cmd::Noop)
            },
            Msg::FocusPrevPane => {
                self.model.ui.focus_prev_pane();
                just(Cmd::Noop)
            },
            Msg::StoryList(m) => story_list::update(
                &mut self.model.ui.story_list,
                &self.model.data.stories,
                m,
            ),
            Msg::Epic(m) => epic_pane::update(&mut self.model.ui.epic_pane, m),
            Msg::DescriptionModal(DescriptionModalMsg::Open) => {
                if let Some(i) = self.model.ui.story_list.selected_index {
                    let story = self.model.data.stories[i].clone();
                    description_modal::open(&mut self.model.ui.description_modal, story);
                }
                just(Cmd::Noop)
            },
            Msg::DescriptionModal(m) => description_modal::update(
                &mut self.model.ui.description_modal,
                m,
            ),
            Msg::StoriesLoaded { stories, from_cache } => {
                let same = same_story_ids(&self.model.data.stories, &stories);
                proof {
                    assert(story_ids(stories@).len() == stories@.len());
                    assert(story_ids(self.model.data.stories@).len()
                        == self.model.data.stories@.len());
                }
                if !from_cache && same {
                    return just(Cmd::Noop);
                }
                if !same {
                    let n = stories.len();
                    self.model.ui.story_list.expanded_items.clear();
                    self.model.ui.story_list.selected_index =
                        match self.model.ui.story_list.selected_index {
                        Some(i) => if i < n {
                            Some(i)
                        } else {
                            None
                        },
                        None => None,
                    };
                }
                let copy = clone_stories(&stories);
                self.model.data.stories = stories;
                self.model.cache.iteration_stories = Some(copy);
                just(Cmd::WriteCache)
            },
            Msg::EpicsLoaded(epics) => {
                self.model.data.epics = epics;
                just(Cmd::Noop)
            },
            Msg::IterationLoaded(iteration) => {
                let iteration_id = iteration.id;
                let copy = iteration.clone();
                self.model.data.current_iterations = Some(one_iteration(iteration));
                self.model.cache.current_iterations = Some(one_iteration(copy));
                both(Cmd::WriteCache, Cmd::FetchStories { iteration_id })
            },
            Msg::NoteOpened => just(Cmd::Noop),
            Msg::CacheWritten => just(Cmd::Noop),
            Msg::Error(info) => {
                self.model.ui.error = Some(info);
                just(Cmd::Noop)
            },
        }
    }
}

} // verus!
