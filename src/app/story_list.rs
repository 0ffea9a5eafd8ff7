use vstd::prelude::*;
use std::collections::HashSet;
use crate::app::cmd::{just, Cmd};
use crate::app::model::StoryListState;
use crate::app::msg::StoryListMsg;
use crate::domain::Story;
use crate::keys::{app_key_of, AppKey, KeyEvent};

verus! {

broadcast use vstd::std_specs::hash::group_hash_axioms;

/// The selection after "down" in a list of `n` rows: the next row,
/// wrapping from the last to the first; the first row when nothing was
/// selected; nothing in an empty list.
pub open spec fn select_next(sel: Option<usize>, n: nat) -> Option<usize> {
    if n == 0 {
        None
    } else {
        match sel {
            None => Some(0),
            Some(i) => if i + 1 < n {
                Some((i + 1) as usize)
            } else {
                Some(0)
            },
        }
    }
}

/// The selection after "up" in a list of `n` rows: the previous row,
/// wrapping from the first to the last; the first row when nothing was
/// selected; nothing in an empty list.
pub open spec fn select_prev(sel: Option<usize>, n: nat) -> Option<usize> {
    if n == 0 {
        None
    } else {
        match sel {
            None => Some(0),
            Some(i) => if i == 0 || i >= n {
                Some((n - 1) as usize)
            } else {
                Some((i - 1) as usize)
            },
        }
    }
}

/// List navigation wraps: in a list of `n > 0` rows, "down" from the last
/// row selects the first and "up" from the first selects the last; in an
/// empty list either key leaves nothing selected.
pub proof fn lemma_navigation_wraps(n: usize)
    ensures
        n > 0 ==> select_next(Some((n - 1) as usize), n as nat) == Some(0usize),
        n > 0 ==> select_prev(Some(0usize), n as nat) == Some((n - 1) as usize),
        forall|sel: Option<usize>| select_next(sel, 0) == None::<usize>,
        forall|sel: Option<usize>| select_prev(sel, 0) == None::<usize>,
{
}

/// A set of rows with `i` added if it was absent and removed if present.
pub open spec fn toggled(s: Set<usize>, i: usize) -> Set<usize> {
    if s.contains(i) {
        s.remove(i)
    } else {
        s.insert(i)
    }
}

/// Toggling the same row twice gives back the set of expanded rows.
pub proof fn lemma_toggle_twice(s: Set<usize>, i: usize)
    ensures
        toggled(toggled(s, i), i) == s,
{
    if s.contains(i) {
        assert(toggled(toggled(s, i), i) =~= s);
    } else {
        assert(toggled(toggled(s, i), i) =~= s);
    }
}

/// Expanding and collapsing toggle: two `ToggleExpand` updates in a row
/// give back the set of expanded rows that there was before them.
pub proof fn lemma_toggle_expand_twice(
    s0: StoryListState,
    s1: StoryListState,
    s2: StoryListState,
    stories: Seq<Story>,
    c1: Seq<Cmd>,
    c2: Seq<Cmd>,
)
    requires
        story_list_post(s0, s1, stories, StoryListMsg::ToggleExpand, c1),
        story_list_post(s1, s2, stories, StoryListMsg::ToggleExpand, c2),
    ensures
        s2.expanded_items@ == s0.expanded_items@,
        s2.selected_index == s0.selected_index,
{
    if let Some(i) = s0.selected_index {
        lemma_toggle_twice(s0.expanded_items@, i);
    }
}

/// The story list message a key stands for: up and down move the
/// selection, the select key expands or collapses, the edit key opens the
/// note.
pub open spec fn story_list_msg_of(key: KeyEvent) -> Option<StoryListMsg> {
    match app_key_of(key.code) {
        Some(AppKey::Up) => Some(StoryListMsg::SelectPrev),
        Some(AppKey::Down) => Some(StoryListMsg::SelectNext),
        Some(AppKey::Select) => Some(StoryListMsg::ToggleExpand),
        Some(AppKey::Edit) => Some(StoryListMsg::OpenNote),
        _ => None,
    }
}

/// What a story list message does to the pane's state, and the commands
/// it asks for, given the stories shown.
pub open spec fn story_list_post(
    pre: StoryListState,
    post: StoryListState,
    stories: Seq<Story>,
    msg: StoryListMsg,
    cmds: Seq<Cmd>,
) -> bool {
    match msg {
        StoryListMsg::SelectNext => {
            &&& post.selected_index == select_next(pre.selected_index, stories.len())
            &&& post.expanded_items == pre.expanded_items
            &&& cmds == seq![Cmd::Noop]
        },
        StoryListMsg::SelectPrev => {
            &&& post.selected_index == select_prev(pre.selected_index, stories.len())
            &&& post.expanded_items == pre.expanded_items
            &&& cmds == seq![Cmd::Noop]
        },
        StoryListMsg::ToggleExpand => {
            &&& post.selected_index == pre.selected_index
            &&& post.expanded_items@ == match pre.selected_index {
                Some(i) => toggled(pre.expanded_items@, i),
                None => pre.expanded_items@,
            }
            &&& cmds == seq![Cmd::Noop]
        },
        StoryListMsg::OpenNote => {
            &&& post == pre
            &&& cmds == match pre.selected_index {
                Some(i) => seq![
                    Cmd::OpenNote {
                        story_id: stories[i as int].id,
                        story_name: stories[i as int].name,
                        story_iteration_id: stories[i as int].iteration_id,
                    },
                ],
                None => seq![Cmd::Noop],
            }
        },
    }
}

/// Toggles row `i` in a set of rows.
fn toggle(set: &mut HashSet<usize>, i: usize)
    ensures
        final(set)@ == toggled(old(set)@, i),
{
    if set.contains(&i) {
        set.remove(&i);
        assert(final(set)@ =~= old(set)@.remove(i));
    } else {
        set.insert(i);
    }
}

/// Updates the story list pane from its own state and the stories shown.
pub fn update(state: &mut StoryListState, stories: &Vec<Story>, msg: StoryListMsg) -> (r: Vec<Cmd>)
    requires
        old(state).wf(stories@.len()),
    ensures
        final(state).wf(stories@.len()),
        story_list_post(*old(state), *final(state), stories@, msg, r@),
{
    let n = stories.len();
    match msg {
        StoryListMsg::SelectNext => {
            let next = if n == 0 {
                None
            } else {
                match state.selected_index {
                    None => Some(0),
                    Some(i) => if i < n - 1 {
                        Some(i + 1)
                    } else {
                        Some(0)
                    },
                }
            };
            state.selected_index = next;
            just(Cmd::Noop)
        },
        StoryListMsg::SelectPrev => {
            state.selected_index = if n == 0 {
                None
            } else {
                match state.selected_index {
                    None => Some(0),
                    Some(i) => if i == 0 || i >= n {
                        Some(n - 1)
                    } else {
                        Some(i - 1)
                    },
                }
            };
            just(Cmd::Noop)
        },
        StoryListMsg::ToggleExpand => {
            if let Some(i) = state.selected_index {
                toggle(&mut state.expanded_items, i);
            }
            just(Cmd::Noop)
        },
        StoryListMsg::OpenNote => {
            match state.selected_index {
                Some(i) => {
                    let story = &stories[i];
                    just(
                        Cmd::OpenNote {
                            story_id: story.id,
                            story_name: story.name.clone(),
                            story_iteration_id: story.iteration_id,
                        },
                    )
                },
                None => just(Cmd::Noop),
            }
        },
    }
}

/// The story list message for a key, if it stands for one.
pub fn key_to_msg(key: KeyEvent) -> (r: Option<StoryListMsg>)
    ensures
        r == story_list_msg_of(key),
{
    match AppKey::from_keycode(key.code) {
        Some(AppKey::Up) => Some(StoryListMsg::SelectPrev),
        Some(AppKey::Down) => Some(StoryListMsg::SelectNext),
        Some(AppKey::Select) => Some(StoryListMsg::ToggleExpand),
        Some(AppKey::Edit) => Some(StoryListMsg::OpenNote),
        _ => None,
    }
}

} // verus!
