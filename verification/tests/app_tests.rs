use restix::app::{test_popup_corner, App, Effect, ReconnectOutcome};
use restix::focus::FocusPanel;
use restix::keyboard::{KeyCode, KeyEvent, KeyboardController, NavigationAction};
use restix::models::KeyInfo;
use restix::views::settings_view::SettingsOption;

fn press(c: KeyCode) -> KeyEvent {
    KeyEvent { code: c, ctrl: false }
}

fn ctrl(c: char) -> KeyEvent {
    KeyEvent { code: KeyCode::Char(c), ctrl: true }
}

fn key(name: &str) -> KeyInfo {
    KeyInfo {
        name: name.to_string(),
        key_type: "string".to_string(),
        ttl: -1,
        memory_bytes: 1,
        value_preview: String::new(),
    }
}

#[test]
fn key_mapping() {
    let k = FocusPanel::KeysList;
    assert_eq!(KeyboardController::map_key_event(&press(KeyCode::Char('q')), &k, None), NavigationAction::Quit);
    assert_eq!(KeyboardController::map_key_event(&ctrl('q'), &k, None), NavigationAction::Quit);
    assert_eq!(KeyboardController::map_key_event(&ctrl('h'), &k, None), NavigationAction::MoveLeft);
    assert_eq!(KeyboardController::map_key_event(&press(KeyCode::Char('h')), &k, None), NavigationAction::NoAction);
    assert_eq!(KeyboardController::map_key_event(&press(KeyCode::Backspace), &k, None), NavigationAction::MoveLeft);
    assert_eq!(KeyboardController::map_key_event(&ctrl('j'), &k, None), NavigationAction::MoveDown);
    assert_eq!(KeyboardController::map_key_event(&ctrl('k'), &k, None), NavigationAction::MoveUp);
    assert_eq!(KeyboardController::map_key_event(&press(KeyCode::Up), &k, None), NavigationAction::MoveUp);
    assert_eq!(KeyboardController::map_key_event(&press(KeyCode::Down), &k, None), NavigationAction::NoAction);
    assert_eq!(KeyboardController::map_key_event(&ctrl('l'), &k, None), NavigationAction::MoveRight);
    assert_eq!(KeyboardController::map_key_event(&press(KeyCode::Tab), &k, None), NavigationAction::MoveRight);
    assert_eq!(KeyboardController::map_key_event(&press(KeyCode::Enter), &k, None), NavigationAction::SelectKeyGoToValue);
    assert_eq!(
        KeyboardController::map_key_event(&press(KeyCode::Enter), &FocusPanel::Settings, Some(SettingsOption::RedisConnection)),
        NavigationAction::OpenConnectionModal
    );
    assert_eq!(KeyboardController::map_key_event(&press(KeyCode::Enter), &FocusPanel::Settings, None), NavigationAction::NoAction);
    assert_eq!(KeyboardController::map_key_event(&press(KeyCode::Enter), &FocusPanel::Value, None), NavigationAction::NoAction);
    assert_eq!(KeyboardController::map_key_event(&press(KeyCode::Esc), &FocusPanel::Value, None), NavigationAction::GoBackToKeysList);
    assert_eq!(KeyboardController::map_key_event(&press(KeyCode::Esc), &k, None), NavigationAction::NoAction);
}

#[test]
fn focus_cycles() {
    let mut app = App::new("redis://h:1".to_string(), true, 0);
    assert_eq!(app.status_view.error.as_deref(), Some("Connected to Redis at redis://h:1"));
    assert!(matches!(app.handle_key(press(KeyCode::Tab)), Effect::Nothing));
    assert_eq!(app.current_focus, FocusPanel::Settings);
    app.handle_key(press(KeyCode::Tab));
    assert_eq!(app.current_focus, FocusPanel::Value);
    app.handle_key(press(KeyCode::Tab));
    assert_eq!(app.current_focus, FocusPanel::KeysList);
    app.handle_key(press(KeyCode::Backspace));
    assert_eq!(app.current_focus, FocusPanel::Value);
    app.handle_key(press(KeyCode::Esc));
    assert_eq!(app.current_focus, FocusPanel::KeysList);
    assert!(matches!(app.handle_key(press(KeyCode::Char('q'))), Effect::Quit));
    let mut details = App::new("u".to_string(), false, 0);
    details.current_focus = FocusPanel::Details;
    details.handle_key(press(KeyCode::Tab));
    assert_eq!(details.current_focus, FocusPanel::Value);
    details.current_focus = FocusPanel::Details;
    details.handle_key(press(KeyCode::Up));
    assert_eq!(details.current_focus, FocusPanel::KeysList);
    assert_eq!(
        details.status_view.error.as_deref(),
        Some("Not connected to Redis. Press Tab for Settings to connect.")
    );
}

#[test]
fn connection_dialog_flow() {
    let mut app = App::new("redis://a".to_string(), false, 0);
    app.handle_key(press(KeyCode::Tab));
    app.handle_key(press(KeyCode::Enter));
    assert!(app.connection_modal.is_some());
    app.handle_key(press(KeyCode::Char('b')));
    app.handle_key(press(KeyCode::Char('q')));
    assert_eq!(app.connection_modal.as_ref().unwrap().get_url(), "redis://abq");
    match app.handle_key(press(KeyCode::Enter)) {
        Effect::Reconnect(u) => assert_eq!(u, "redis://abq"),
        _ => panic!("expected a reconnect"),
    }
    assert!(app.connection_modal.is_none());
    let follow = app.apply_reconnect(
        "redis://abq".to_string(),
        ReconnectOutcome::Connected(Ok(vec![key("k1"), key("k2")])),
    );
    assert!(follow.save_config);
    assert!(follow.fetch_value.is_none());
    assert_eq!(app.current_redis_url, "redis://abq");
    assert_eq!(app.status_view.error.as_deref(), Some("Connected to Redis at redis://abq"));
    assert_eq!(app.keys_list_view.items.len(), 2);

    app.handle_key(press(KeyCode::Enter));
    app.handle_key(press(KeyCode::Tab));
    assert!(matches!(app.handle_key(press(KeyCode::Enter)), Effect::TestConnection(_)));
    app.apply_test_result("redis://abq", Err("refused".to_string()), 1000);
    assert_eq!(app.test_popup.as_ref().unwrap().message, "❌ Connection Failed: refused");
    assert_eq!(app.test_popup.as_ref().unwrap().expires_at, 4000);
    app.tick(4000);
    assert!(app.test_popup.is_some());
    let focus = app.current_focus;
    assert!(matches!(app.handle_key(press(KeyCode::Tab)), Effect::Nothing));
    assert!(app.test_popup.is_none());
    assert_eq!(app.current_focus, focus);
    app.apply_test_result("redis://abq", Ok(()), 0);
    assert_eq!(app.test_popup.as_ref().unwrap().message, "✅ Connection Successful to redis://abq");
    app.tick(3001);
    assert!(app.test_popup.is_none());

    let f = app.apply_reconnect("bad".to_string(), ReconnectOutcome::Failed("nope".to_string()));
    assert!(!f.save_config);
    assert_eq!(app.status_view.error.as_deref(), Some("Connection failed: nope"));
    let f = app.apply_reconnect("gone".to_string(), ReconnectOutcome::Unreachable);
    assert!(f.save_config);
    assert_eq!(
        app.status_view.error.as_deref(),
        Some("Could not connect to Redis at gone. Check the URL and try again.")
    );
    let f = app.apply_reconnect("x".to_string(), ReconnectOutcome::Connected(Err("boom".to_string())));
    assert!(f.save_config);
    assert_eq!(app.status_view.error.as_deref(), Some("Connected but failed to fetch keys: boom"));
    assert!(app.keys_list_view.items.is_empty());
}

#[test]
fn selecting_keys_fetches_values() {
    let mut app = App::new("u".to_string(), true, 0);
    app.apply_reconnect("u".to_string(), ReconnectOutcome::Connected(Ok(vec![key("k1"), key("k2")])));
    match app.handle_key(press(KeyCode::Char('j'))) {
        Effect::FetchValue(k) => assert_eq!(k.name, "k1"),
        _ => panic!("expected a fetch"),
    }
    assert_eq!(app.key_info_view.key_info.as_ref().unwrap().name, "k1");
    match app.handle_key(press(KeyCode::Down)) {
        Effect::FetchValue(k) => assert_eq!(k.name, "k2"),
        _ => panic!("expected a fetch"),
    }
    app.finish_details(Ok("line1\nline2".to_string()));
    assert_eq!(app.value_view.lines, vec!["line1", "line2"]);
    match app.handle_key(press(KeyCode::Enter)) {
        Effect::FetchValue(k) => assert_eq!(k.name, "k2"),
        _ => panic!("expected a fetch"),
    }
    assert_eq!(app.current_focus, FocusPanel::Value);
    app.finish_details(Err("oops".to_string()));
    assert_eq!(app.value_view.lines, vec!["Error fetching value: oops"]);
    app.handle_key(press(KeyCode::Esc));
    assert_eq!(app.current_focus, FocusPanel::KeysList);
    app.sync_focus();
    assert!(app.keys_list_view.focused && !app.value_view.focused);
    let mut empty = App::new("u".to_string(), true, 0);
    assert!(matches!(empty.handle_key(press(KeyCode::Enter)), Effect::Nothing));
    assert!(empty.key_info_view.key_info.is_none());
}

#[test]
fn popup_corner() {
    assert_eq!(test_popup_corner(100, 30), (30, 12));
    assert_eq!(test_popup_corner(20, 3), (0, 0));
}

#[test]
fn dialog_escape_changes_nothing() {
    let mut app = App::new("redis://keep".to_string(), true, 0);
    app.handle_key(press(KeyCode::Tab));
    let focus = app.current_focus;
    assert!(matches!(app.handle_key(press(KeyCode::Enter)), Effect::Nothing));
    assert!(app.connection_modal.is_some());
    app.handle_key(press(KeyCode::Char('z')));
    assert!(matches!(app.handle_key(press(KeyCode::Esc)), Effect::Nothing));
    assert!(app.connection_modal.is_none());
    assert_eq!(app.current_focus, focus);
    assert_eq!(app.current_redis_url, "redis://keep");
}

#[test]
fn startup_state_and_closed_dialog() {
    let mut app = App::new("redis://h:1".to_string(), false, 5);
    assert_eq!(app.status_view.error.as_deref(), Some("Not connected to Redis. Press Tab for Settings to connect."));
    assert!(!app.status_view.paused);
    assert!(!app.status_view.connected);
    assert_eq!(app.status_view.total_keys, 0);
    assert_eq!(app.status_view.seconds_since_refresh, 0);
    assert_eq!(app.status_view.mode_hint, "Tab:nav | Enter:view | p:pause | Esc:back | q:quit");
    assert!(!app.settings_view.focused);
    assert_eq!(app.value_view.cursor_line, 0);
    assert!(matches!(app.handle_modal_input(KeyCode::Enter), Effect::Nothing));
    assert!(app.connection_modal.is_none());
    assert_eq!(app.current_redis_url, "redis://h:1");
}

#[test]
fn reconnect_keeps_status_bar_fields() {
    let mut app = App::new("redis://h:1".to_string(), true, 0);
    app.status_view.set_paused(true);
    app.status_view.update_totals(7, 900, true);
    let f = app.apply_reconnect("redis://other:2".to_string(), ReconnectOutcome::Failed("bad url".to_string()));
    assert!(!f.save_config);
    assert_eq!(app.current_redis_url, "redis://other:2");
    assert_eq!(app.status_view.error.as_deref(), Some("Connection failed: bad url"));
    assert!(app.status_view.paused);
    assert_eq!(app.status_view.total_keys, 7);
    assert_eq!(app.status_view.total_memory, 900);
}
