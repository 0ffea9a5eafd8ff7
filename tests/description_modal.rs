use shortcut_notes::app::description_modal::{key_to_msg, open, update};
use shortcut_notes::app::model::DescriptionModalState;
use shortcut_notes::app::msg::DescriptionModalMsg;
use shortcut_notes::domain::Story;
use shortcut_notes::keys::{KeyCode, KeyEvent};
use tui_scrollview::ScrollViewState;

fn create_test_story() -> Story {
    Story {
        id: 1,
        name: "Test Story".to_string(),
        description: "Test description".to_string(),
        completed: false,
        branches: vec![],
        comments: vec![],
        epic_id: None,
        iteration_id: None,
        app_url: "https://example.com".to_string(),
    }
}

fn make_key(code: KeyCode, ctrl: bool) -> KeyEvent {
    KeyEvent { code, ctrl }
}

#[test]
fn test_open_sets_state() {
    let mut state = DescriptionModalState::default();
    let story = create_test_story();

    open(&mut state, story.clone());

    assert!(state.is_showing);
    assert_eq!(state.story.as_ref().unwrap().id, story.id);
}

#[test]
fn test_close_resets_state() {
    let mut state = DescriptionModalState {
        is_showing: true,
        scroll_view_state: ScrollViewState::default(),
        story: Some(create_test_story()),
    };

    update(&mut state, DescriptionModalMsg::Close);

    assert!(!state.is_showing);
    assert!(state.story.is_none());
}

#[test]
fn test_key_to_msg_mappings() {
    assert!(matches!(key_to_msg(make_key(KeyCode::Esc, false)), Some(DescriptionModalMsg::Close)));
    assert!(matches!(key_to_msg(make_key(KeyCode::Char('q'), false)), Some(DescriptionModalMsg::Close)));
    assert!(matches!(key_to_msg(make_key(KeyCode::Char('j'), false)), Some(DescriptionModalMsg::ScrollDown)));
    assert!(matches!(key_to_msg(make_key(KeyCode::Char('k'), false)), Some(DescriptionModalMsg::ScrollUp)));
    assert!(matches!(key_to_msg(make_key(KeyCode::Char('d'), true)), Some(DescriptionModalMsg::ScrollPageDown)));
    assert!(matches!(key_to_msg(make_key(KeyCode::Char('u'), true)), Some(DescriptionModalMsg::ScrollPageUp)));
    assert!(matches!(key_to_msg(make_key(KeyCode::PageDown, false)), Some(DescriptionModalMsg::ScrollPageDown)));
    assert!(matches!(key_to_msg(make_key(KeyCode::PageUp, false)), Some(DescriptionModalMsg::ScrollPageUp)));
    assert!(matches!(key_to_msg(make_key(KeyCode::Char('g'), false)), Some(DescriptionModalMsg::ScrollToTop)));
    assert!(matches!(key_to_msg(make_key(KeyCode::Char('G'), false)), Some(DescriptionModalMsg::ScrollToBottom)));
}

#[test]
fn modal_ignores_plain_d_and_other_keys() {
    assert!(key_to_msg(make_key(KeyCode::Char('d'), false)).is_none());
    assert!(key_to_msg(make_key(KeyCode::Enter, false)).is_none());
}

#[test]
fn modal_scroll_keeps_story_and_visibility() {
    let mut state = DescriptionModalState::default();
    open(&mut state, create_test_story());
    let cmds = update(&mut state, DescriptionModalMsg::ScrollDown);
    assert_eq!(cmds.len(), 1);
    assert!(state.is_showing);
    assert_eq!(state.story.as_ref().unwrap().id, 1);
    assert_eq!(state.scroll_view_state.offset().y, 1);
    update(&mut state, DescriptionModalMsg::ScrollToTop);
    assert_eq!(state.scroll_view_state.offset().y, 0);
}
