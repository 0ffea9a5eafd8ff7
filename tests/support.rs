use shortcut_notes::block::{CounterBlock, ParagraphBlock, Selectable};
use shortcut_notes::cache::{Cache, CacheFileAction, CacheReadOutcome};
use shortcut_notes::config::{Config, ConfigError};
use shortcut_notes::error::{truncate, ErrorInfo};
use shortcut_notes::gh_cli::{auth_override, cli_is_authenticated};
use shortcut_notes::keys::{AppKey, KeyCode, KeyEvent};
use shortcut_notes::notes::{
    decimal, display_name, format_daily_name, format_slug, is_daily_note, note_dir, note_file_name, notes_layout,
    strip_prefix,
};
use shortcut_notes::pane::ListPane;
use shortcut_notes::text::join_path;
use shortcut_notes::view::{Constraint, Direction, ViewBuilder, ViewSection};
use shortcut_notes::worktree::{relative_repo_path, worktree_path};

fn press(code: KeyCode) -> KeyEvent {
    KeyEvent { code, ctrl: false }
}

#[test]
fn truncate_cuts_with_dots() {
    assert_eq!(truncate("hello world", 5), "he...");
    assert_eq!(truncate("hello", 5), "hello");
    assert_eq!(truncate("abc", 2), "..");
    assert_eq!(truncate("abcdef", 3), "...");
    assert_eq!(truncate("", 0), "");
    assert_eq!(truncate("héllo wörld", 6), "hél...");
}

#[test]
fn required_width_has_a_floor() {
    let small = ErrorInfo::new_at("short".to_string(), "long text".to_string(), 0);
    assert_eq!(small.get_required_width(), 50);
    let wide = ErrorInfo::new_at("s".to_string(), "x".repeat(72), 0);
    assert_eq!(wide.get_required_width(), 72);
}

#[test]
fn error_expires_after_three_seconds() {
    let e = ErrorInfo::new_at("a".to_string(), "b".to_string(), 1_000);
    assert!(!e.is_expired_at(4_000));
    assert!(e.is_expired_at(4_001));
    let fresh = ErrorInfo::new("a".to_string(), "b".to_string());
    assert_eq!(fresh.short, "a");
    assert!(!fresh.is_expired());
}

#[test]
fn slug_becomes_title() {
    assert_eq!(format_slug("iteration-42-sprint-name"), "Iteration 42 Sprint Name");
    assert_eq!(format_slug(""), "");
    assert_eq!(format_slug("a--b"), "A  B");
    assert_eq!(format_slug("ßig-deal"), "SSig Deal");
}

#[test]
fn daily_names_are_dates() {
    assert_eq!(format_daily_name("daily-2026-02-18"), Some("Wed, Feb 18 2026".to_string()));
    assert_eq!(format_daily_name("daily-2026-13-40"), None);
    assert_eq!(format_daily_name("weekly-2026-02-18"), None);
    assert_eq!(strip_prefix("daily-x", "daily-"), Some("x"));
    assert_eq!(strip_prefix("dai", "daily-"), None);
}

#[test]
fn display_names_of_notes() {
    assert_eq!(display_name("/notes/daily-2026-02-18.md", true), "Wed, Feb 18 2026");
    assert_eq!(display_name("/notes/daily-2026-02-18.md", false), "Daily 2026 02 18");
    assert_eq!(display_name("/notes/iteration-42-sprint.md", false), "Iteration 42 Sprint");
    assert_eq!(display_name("/notes/not-a-date.md", true), "Not A Date");
    assert_eq!(display_name("/", false), "???");
}

#[test]
fn auth_override_values() {
    assert_eq!(auth_override("TRUE"), Some(true));
    assert_eq!(auth_override("1"), Some(true));
    assert_eq!(auth_override("False"), Some(false));
    assert_eq!(auth_override("0"), Some(false));
    assert_eq!(auth_override("maybe"), None);
    assert!(cli_is_authenticated(Some(0)));
    assert!(!cli_is_authenticated(Some(1)));
    assert!(!cli_is_authenticated(None));
}

#[test]
fn worktree_path_uses_slug() {
    assert_eq!(worktree_path("Fix Login Bug"), ".worktrees/fix-login-bug");
}

#[test]
fn config_requires_token_and_editor() {
    let missing_token =
        Config::from_settings("/n".to_string(), None, String::new(), Some("vim".to_string()), None, "/h".to_string());
    assert_eq!(missing_token.unwrap_err(), ConfigError::MissingApiToken);
    let missing_editor =
        Config::from_settings("/n".to_string(), None, "t".to_string(), None, None, "/h".to_string());
    assert_eq!(missing_editor.unwrap_err(), ConfigError::MissingEditor);
    let from_env = Config::from_settings(
        "/n".to_string(),
        None,
        "t".to_string(),
        None,
        Some("nano".to_string()),
        "/home/u".to_string(),
    )
    .unwrap();
    assert_eq!(from_env.editor(), "nano");
    assert_eq!(from_env.api_token(), "t");
    assert_eq!(from_env.notes_dir(), "/n");
    assert_eq!(from_env.cache_dir(), "/home/u/.cache/shortcut-notes");
    assert!(from_env.configured_cache_dir().is_none());
    let configured = Config::from_settings(
        "/n".to_string(),
        Some("/var/c".to_string()),
        "t".to_string(),
        Some("vim".to_string()),
        Some("nano".to_string()),
        "/home/u/".to_string(),
    )
    .unwrap();
    assert_eq!(configured.editor(), "vim");
    assert_eq!(configured.cache_dir(), "/var/c");
}

#[test]
fn cache_file_and_recovery() {
    assert_eq!(Cache::get_cache_file("/tmp/c".to_string()), "/tmp/c/cache.json");
    assert_eq!(Cache::get_cache_file("/tmp/c/".to_string()), "/tmp/c/cache.json");
    assert_eq!(join_path("", "a"), "a");
    let (cache, action) = Cache::from_read("/tmp/c".to_string(), CacheReadOutcome::Corrupt);
    assert_eq!(action, CacheFileAction::Delete);
    assert!(cache.iteration_stories.is_none());
    assert!(cache.current_iterations.is_none());
    assert_eq!(cache.cache_dir, "/tmp/c");
    let (_, action) = Cache::from_read("/tmp/c".to_string(), CacheReadOutcome::Unreadable);
    assert_eq!(action, CacheFileAction::Keep);
    let mut parsed = Cache::new("/elsewhere".to_string());
    parsed.user_id = Some(9);
    let (cache, action) = Cache::from_read("/tmp/c".to_string(), CacheReadOutcome::Parsed(parsed));
    assert_eq!(action, CacheFileAction::Keep);
    assert_eq!(cache.user_id, Some(9));
    assert!(cache.current_iterations_ref().is_none());
}

#[test]
fn app_keys_round_trip() {
    for k in [AppKey::Left, AppKey::Right, AppKey::Up, AppKey::Down, AppKey::Quit, AppKey::Edit, AppKey::Select] {
        assert_eq!(AppKey::from_keycode(k.as_keycode()), Some(k));
    }
    assert_eq!(AppKey::from_keycode(KeyCode::Down), Some(AppKey::Down));
    assert_eq!(AppKey::from_keycode(KeyCode::Char('z')), None);
}

#[test]
fn counter_stays_within_digits() {
    let mut c = CounterBlock::new();
    c.handle_key_event(&press(KeyCode::Char('j')));
    assert_eq!(c.counter, 0);
    assert_eq!(c.err_msg.as_deref(), Some("Can't go below zero"));
    for _ in 0..9 {
        c.handle_key_event(&press(KeyCode::Char('k')));
    }
    assert_eq!(c.counter, 9);
    assert!(c.err_msg.is_none());
    c.handle_key_event(&press(KeyCode::Char('k')));
    assert_eq!(c.counter, 9);
    assert_eq!(c.err_msg.as_deref(), Some("Can't go to double digits"));
    c.handle_key_event(&press(KeyCode::Char('x')));
    assert_eq!(c.counter, 9);
    c.select();
    c.select();
    assert!(c.is_selected());
    c.unselect();
    assert!(!c.is_selected());
}

#[test]
fn paragraphs_hold_their_text() {
    assert_eq!(ParagraphBlock::instructions().lines.len(), 3);
    assert!(ParagraphBlock::not_authenticated().lines[0].contains("SHORTCUT_API_TOKEN"));
    assert!(ParagraphBlock::cli_not_installed().lines[0].contains("gh"));
}

#[test]
fn list_pane_keys() {
    let mut list = ListPane::new(vec!["a.md".to_string(), "b.md".to_string()]);
    list.select();
    assert_eq!(list.selected_index, Some(0));
    let out = list.handle_key_event(press(KeyCode::Char('k')));
    assert!(out.handled);
    assert_eq!(list.selected_index, Some(1));
    let out = list.handle_key_event(press(KeyCode::Char('e')));
    assert_eq!(out.open_in_editor, Some("b.md".to_string()));
    let out = list.handle_key_event(press(KeyCode::Enter));
    assert!(out.handled);
    assert!(list.expanded_item_indexes.contains(&1));
    assert!(!list.handle_key_event(press(KeyCode::Char('x'))).handled);
    list.unselect();
    assert_eq!(list.selected_index, None);
    assert!(!list.handle_key_event(press(KeyCode::Enter)).handled);
    let mut empty = ListPane::new(vec![]);
    empty.select();
    assert_eq!(empty.selected_index, None);
    empty.handle_key_event(press(KeyCode::Char('j')));
    assert_eq!(empty.selected_index, None);
    let restored = ListPane::new(vec!["a".to_string()]).with_state(Some(4));
    assert_eq!(restored.selected_index, None);
}

#[test]
fn view_routes_keys_and_moves_focus() {
    let mut view = ViewBuilder::new()
        .direction(Direction::Horizontal)
        .add_non_selectable(ViewSection::Paragraph(ParagraphBlock::instructions()))
        .add_selectable(ViewSection::Counter(CounterBlock::new()))
        .add_selectable_with_constraint(
            ViewSection::List(ListPane::new(vec!["a.md".to_string()])),
            Constraint::Percentage(30),
        )
        .build();
    assert_eq!(view.selected_section, 1);
    assert!(matches!(&view.sections[1].view_section, ViewSection::Counter(c) if c.selected));
    let out = view.handle_key_event(press(KeyCode::Char('k')));
    assert!(out.handled);
    assert!(matches!(&view.sections[1].view_section, ViewSection::Counter(c) if c.counter == 1));
    let out = view.handle_key_event(press(KeyCode::Char('l')));
    assert!(out.handled);
    assert_eq!(view.selected_section, 2);
    assert!(matches!(&view.sections[1].view_section, ViewSection::Counter(c) if !c.selected));
    assert!(matches!(&view.sections[2].view_section, ViewSection::List(l) if l.is_selected && l.selected_index == Some(0)));
    view.handle_key_event(press(KeyCode::Char('l')));
    assert_eq!(view.selected_section, 1);
    view.handle_key_event(press(KeyCode::Char('h')));
    assert_eq!(view.selected_section, 2);
    let out = view.handle_key_event(press(KeyCode::Char('e')));
    assert_eq!(out.open_in_editor, Some("a.md".to_string()));
    assert!(!view.handle_key_event(press(KeyCode::Char('z'))).handled);
}

#[test]
fn nested_view_gets_keys_first() {
    let inner = ViewBuilder::new()
        .direction(Direction::Vertical)
        .add_sections(vec![
            ViewSection::Paragraph(ParagraphBlock::instructions()),
            ViewSection::Paragraph(ParagraphBlock::not_authenticated()),
        ])
        .build();
    let mut outer = ViewBuilder::from_sections(vec![ViewSection::Nested(Box::new(inner))])
        .direction(Direction::Horizontal)
        .select()
        .build();
    assert!(outer.is_selected);
    let out = outer.handle_key_event(press(KeyCode::Down));
    assert!(out.handled);
    match &outer.sections[0].view_section {
        ViewSection::Nested(v) => assert_eq!(v.selected_section, 1),
        _ => panic!("expected a nested view"),
    }
    match &outer.sections[0].view_section {
        ViewSection::Nested(v) => {
            assert!(matches!(&v.sections[1].view_section, ViewSection::Paragraph(p) if p.is_selected));
            assert!(matches!(&v.sections[0].view_section, ViewSection::Paragraph(p) if !p.is_selected));
        },
        _ => panic!("expected a nested view"),
    }
    assert!(!outer.handle_key_event(press(KeyCode::Right)).handled);
    outer.unselect();
    assert!(!outer.is_selected);
}

#[test]
fn notes_layout_rows() {

    assert_eq!(notes_layout(0, 0), vec![Constraint::Min(0)]);
    assert_eq!(
        notes_layout(2, 0),
        vec![Constraint::Length(1), Constraint::Length(6), Constraint::Min(0)]
    );
    assert_eq!(
        notes_layout(1, 3),
        vec![
            Constraint::Length(1),
            Constraint::Length(4),
            Constraint::Length(1),
            Constraint::Length(1),
            Constraint::Length(8),
            Constraint::Min(0),
        ]
    );
}

#[test]
fn repo_paths_are_relative() {

    assert_eq!(relative_repo_path("/src/app", "/src"), Some("app".to_string()));
    assert_eq!(relative_repo_path("/src/a/b", "/src"), Some("a/b".to_string()));
    assert_eq!(relative_repo_path("/other/x", "/src"), Some("/other/x".to_string()));
    assert_eq!(relative_repo_path("/src/", "/src"), None);
}

#[test]
fn decimal_and_note_names() {

    assert_eq!(decimal(0), "0");
    assert_eq!(decimal(1234), "1234");
    assert_eq!(decimal(-56), "-56");
    assert_eq!(decimal(i64::MIN), i64::MIN.to_string());
    assert_eq!(note_file_name(42, "Fix Login Bug"), "sc-42-fix-login-bug.md");
    assert_eq!(note_dir("/notes", Some(7)), "/notes/iteration-7");
    assert_eq!(note_dir("/notes", None), "/notes");
    assert!(is_daily_note("daily-2026-02-18.md"));
    assert!(!is_daily_note("iteration-4.md"));
}

#[test]
fn build_leaves_other_sections_alone() {
    let view = ViewBuilder::new()
        .add_selectable(ViewSection::Counter(CounterBlock::new()))
        .add_selectable(ViewSection::Counter(CounterBlock::new()))
        .add_selectable(ViewSection::List(ListPane::new(vec!["a".to_string()])))
        .build();
    assert_eq!(view.selected_section, 0);
    assert!(matches!(&view.sections[0].view_section, ViewSection::Counter(c) if c.selected));
    assert!(matches!(&view.sections[1].view_section, ViewSection::Counter(c) if !c.selected));
    assert!(matches!(&view.sections[2].view_section, ViewSection::List(l) if !l.is_selected && l.selected_index.is_none()));
    let empty = ViewBuilder::new().build();
    assert_eq!(empty.selected_section, 0);
    assert!(empty.sections.is_empty());
}

#[test]
fn unused_key_leaves_view_unchanged() {
    let mut view = ViewBuilder::new()
        .direction(Direction::Vertical)
        .add_selectable(ViewSection::List(ListPane::new(vec!["a".to_string(), "b".to_string()])))
        .add_non_selectable(ViewSection::Paragraph(ParagraphBlock::instructions()))
        .build();
    assert!(!view.handle_key_event(press(KeyCode::Char('z'))).handled);
    assert!(!view.sections[0].view_section.uses_key(press(KeyCode::Char('z'))));
    assert!(view.uses_key(press(KeyCode::Char('j'))));
    let out = view.handle_key_event(press(KeyCode::Char('j')));
    assert!(out.handled);
    assert_eq!(view.selected_section, 0);
    assert!(matches!(&view.sections[0].view_section, ViewSection::List(l) if l.selected_index == Some(1)));
}
