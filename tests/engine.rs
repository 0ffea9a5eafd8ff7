use shortcut_notes::app::cmd::Cmd;
use shortcut_notes::app::model::{PaneId, UiState};
use shortcut_notes::app::msg::{DescriptionModalMsg, Msg, StoryListMsg};
use shortcut_notes::app::update::App;
use shortcut_notes::cache::Cache;
use shortcut_notes::config::Config;
use shortcut_notes::domain::{Epic, Iteration, Story};
use shortcut_notes::error::ErrorInfo;
use shortcut_notes::keys::{KeyCode, KeyEvent};

fn story(id: i64) -> Story {
    Story {
        id,
        name: format!("Story {}", id),
        description: String::new(),
        completed: false,
        branches: vec![],
        comments: vec![],
        epic_id: None,
        iteration_id: Some(42),
        app_url: String::new(),
    }
}

fn config() -> Config {
    Config::from_settings(
        "/notes".to_string(),
        None,
        "token".to_string(),
        Some("vim".to_string()),
        None,
        "/home/u".to_string(),
    )
    .unwrap()
}

fn fresh_app() -> App {
    App::new(config(), Cache::new("/tmp/cache".to_string()))
}

fn key(c: char) -> Msg {
    Msg::KeyPressed(KeyEvent { code: KeyCode::Char(c), ctrl: false })
}

fn ids(stories: &[Story]) -> Vec<i64> {
    stories.iter().map(|s| s.id).collect()
}

#[test]
fn focus_next_then_prev_returns() {
    for start in [PaneId::StoryList, PaneId::Epic] {
        let mut ui = UiState::default();
        ui.focused_pane = start;
        ui.focus_next_pane();
        assert_ne!(ui.focused_pane, start);
        ui.focus_prev_pane();
        assert_eq!(ui.focused_pane, start);
        ui.focus_prev_pane();
        ui.focus_next_pane();
        assert_eq!(ui.focused_pane, start);
    }
}

#[test]
fn focus_messages_cycle_through_chain() {
    let mut app = fresh_app();
    assert_eq!(app.model.ui.focused_pane, PaneId::StoryList);
    app.update(Msg::FocusNextPane);
    assert_eq!(app.model.ui.focused_pane, PaneId::Epic);
    app.update(Msg::FocusNextPane);
    assert_eq!(app.model.ui.focused_pane, PaneId::StoryList);
    app.update(Msg::FocusPrevPane);
    assert_eq!(app.model.ui.focused_pane, PaneId::Epic);
    app.update(key('h'));
    assert_eq!(app.model.ui.focused_pane, PaneId::StoryList);
    app.update(key('l'));
    assert_eq!(app.model.ui.focused_pane, PaneId::Epic);
}

#[test]
fn redundant_network_stories_are_a_noop() {
    let mut app = fresh_app();
    let cmds = app.update(Msg::StoriesLoaded { stories: vec![story(1), story(2)], from_cache: false });
    assert_eq!(cmds, vec![Cmd::WriteCache]);
    app.update(Msg::StoryList(StoryListMsg::SelectNext));
    let mut changed = story(2);
    changed.name = "Renamed".to_string();
    let cmds = app.update(Msg::StoriesLoaded { stories: vec![story(1), changed], from_cache: false });
    assert_eq!(cmds, vec![Cmd::Noop]);
    assert!(!cmds.contains(&Cmd::WriteCache));
    assert_eq!(app.model.data.stories[1].name, "Story 2");
    assert_eq!(app.model.ui.story_list.selected_index, Some(0));
}

#[test]
fn cache_origin_stories_always_apply() {
    let mut app = fresh_app();
    app.update(Msg::StoriesLoaded { stories: vec![story(1)], from_cache: false });
    let cmds = app.update(Msg::StoriesLoaded { stories: vec![story(1)], from_cache: true });
    assert_eq!(cmds, vec![Cmd::WriteCache]);
}

#[test]
fn different_stories_replace_and_reset_expansion() {
    let mut app = fresh_app();
    app.update(Msg::StoriesLoaded { stories: vec![story(1), story(2), story(3)], from_cache: false });
    app.update(Msg::StoryList(StoryListMsg::SelectPrev));
    assert_eq!(app.model.ui.story_list.selected_index, Some(0));
    app.update(Msg::StoryList(StoryListMsg::SelectPrev));
    assert_eq!(app.model.ui.story_list.selected_index, Some(2));
    app.update(Msg::StoryList(StoryListMsg::ToggleExpand));
    assert!(app.model.ui.story_list.expanded_items.contains(&2));
    let cmds = app.update(Msg::StoriesLoaded { stories: vec![story(7)], from_cache: false });
    assert_eq!(cmds, vec![Cmd::WriteCache]);
    assert_eq!(ids(&app.model.data.stories), vec![7]);
    assert_eq!(ids(app.model.cache.iteration_stories.as_ref().unwrap()), vec![7]);
    assert!(app.model.ui.story_list.expanded_items.is_empty());
    assert_eq!(app.model.ui.story_list.selected_index, None);
}

#[test]
fn cache_first_display() {
    let mut cache = Cache::new("/tmp/cache".to_string());
    cache.iteration_stories = Some(vec![story(3), story(4)]);
    cache.current_iterations = Some(vec![Iteration { id: 42, name: "Sprint".to_string() }]);
    let app = App::new(config(), cache);
    assert_eq!(app.model.data.stories, vec![story(3), story(4)]);
    assert_eq!(app.model.data.current_iterations.as_ref().unwrap()[0].id, 42);
    assert!(!app.exit);
}

#[test]
fn startup_with_empty_cache_then_fetch() {
    let mut app = fresh_app();
    assert!(app.model.data.stories.is_empty());
    let mut issued = app.update(Msg::IterationLoaded(Iteration { id: 42, name: "Sprint 42".to_string() }));
    issued.extend(app.update(Msg::StoriesLoaded { stories: vec![story(1)], from_cache: false }));
    assert_eq!(ids(&app.model.data.stories), vec![1]);
    assert_eq!(issued.iter().filter(|c| **c == Cmd::WriteCache).count(), 2);
    assert_eq!(issued.iter().filter(|c| **c == Cmd::FetchStories { iteration_id: 42 }).count(), 1);
    assert_eq!(issued, vec![Cmd::WriteCache, Cmd::FetchStories { iteration_id: 42 }, Cmd::WriteCache]);
    assert_eq!(app.model.cache.current_iterations.as_ref().unwrap()[0].id, 42);
}

#[test]
fn list_navigation_wraps() {
    let mut app = fresh_app();
    app.update(Msg::StoriesLoaded { stories: vec![story(1), story(2), story(3)], from_cache: false });
    app.update(key('j'));
    assert_eq!(app.model.ui.story_list.selected_index, Some(0));
    app.update(key('j'));
    app.update(key('j'));
    assert_eq!(app.model.ui.story_list.selected_index, Some(2));
    app.update(key('j'));
    assert_eq!(app.model.ui.story_list.selected_index, Some(0));
    app.update(key('k'));
    assert_eq!(app.model.ui.story_list.selected_index, Some(2));
}

#[test]
fn empty_list_keeps_no_selection() {
    let mut app = fresh_app();
    app.update(Msg::StoryList(StoryListMsg::SelectNext));
    assert_eq!(app.model.ui.story_list.selected_index, None);
    app.update(Msg::StoryList(StoryListMsg::SelectPrev));
    assert_eq!(app.model.ui.story_list.selected_index, None);
}

#[test]
fn toggle_twice_restores_expansion() {
    let mut app = fresh_app();
    app.update(Msg::StoriesLoaded { stories: vec![story(1), story(2)], from_cache: false });
    app.update(Msg::StoryList(StoryListMsg::SelectNext));
    let before = app.model.ui.story_list.expanded_items.clone();
    app.update(Msg::KeyPressed(KeyEvent { code: KeyCode::Enter, ctrl: false }));
    assert!(app.model.ui.story_list.expanded_items.contains(&0));
    app.update(Msg::KeyPressed(KeyEvent { code: KeyCode::Enter, ctrl: false }));
    assert_eq!(app.model.ui.story_list.expanded_items, before);
}

#[test]
fn open_note_command_names_selected_story() {
    let mut app = fresh_app();
    app.update(Msg::StoriesLoaded { stories: vec![story(5)], from_cache: false });
    assert_eq!(app.update(key('e')), vec![Cmd::Noop]);
    app.update(key('j'));
    let cmds = app.update(key('e'));
    assert_eq!(
        cmds,
        vec![Cmd::OpenNote { story_id: 5, story_name: "Story 5".to_string(), story_iteration_id: Some(42) }]
    );
}

#[test]
fn quit_sets_exit() {
    let mut app = fresh_app();
    assert_eq!(app.update(key('q')), vec![Cmd::Noop]);
    assert!(app.exit);
    let mut other = fresh_app();
    other.update(Msg::Quit);
    assert!(other.exit);
}

#[test]
fn error_is_stored_and_dismissed_by_a_key() {
    let mut app = fresh_app();
    app.update(Msg::Error(ErrorInfo::new_at("Oops".to_string(), "It failed".to_string(), 10)));
    assert_eq!(app.model.ui.error.as_ref().unwrap().short, "Oops");
    app.update(Msg::CacheWritten);
    assert!(app.model.ui.error.is_some());
    app.update(key('x'));
    assert!(app.model.ui.error.is_none());
}

#[test]
fn expired_error_is_cleared() {
    let mut app = fresh_app();
    app.update(Msg::Error(ErrorInfo::new_at("Oops".to_string(), "It failed".to_string(), 1000)));
    app.model.ui.clear_expired_error(4000);
    assert!(app.model.ui.error.is_some());
    app.model.ui.clear_expired_error(4001);
    assert!(app.model.ui.error.is_none());
}

#[test]
fn description_modal_opens_on_selected_story_and_takes_keys() {
    let mut app = fresh_app();
    app.update(Msg::StoriesLoaded { stories: vec![story(1), story(2)], from_cache: false });
    app.update(key('d'));
    assert!(!app.model.ui.description_modal.is_showing);
    app.update(key('j'));
    app.update(key('j'));
    app.update(key('d'));
    assert!(app.model.ui.description_modal.is_showing);
    assert_eq!(app.model.ui.description_modal.story.as_ref().unwrap().id, 2);
    app.update(key('j'));
    assert_eq!(app.model.ui.story_list.selected_index, Some(1));
    app.update(key('q'));
    assert!(!app.exit);
    assert!(!app.model.ui.description_modal.is_showing);
    app.update(Msg::DescriptionModal(DescriptionModalMsg::Open));
    assert!(app.model.ui.description_modal.is_showing);
}

#[test]
fn epics_loaded_replace_epics() {
    let mut app = fresh_app();
    let epic = Epic {
        id: 3,
        completed: false,
        description: String::new(),
        name: "Epic".to_string(),
        owner_ids: vec![7],
        started: true,
    };
    assert_eq!(app.update(Msg::EpicsLoaded(vec![epic.clone()])), vec![Cmd::Noop]);
    assert_eq!(app.model.data.epics, vec![epic]);
}

#[test]
fn epic_pane_ignores_keys() {
    let mut app = fresh_app();
    app.update(Msg::StoriesLoaded { stories: vec![story(1)], from_cache: false });
    app.update(Msg::FocusNextPane);
    assert_eq!(app.update(key('j')), vec![Cmd::Noop]);
    assert_eq!(app.model.ui.story_list.selected_index, None);
}
