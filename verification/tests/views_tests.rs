use restix::keyboard::KeyCode;
use restix::models::KeyInfo;
use restix::views::connection_modal::{ConnectionModal, ModalAction};
use restix::views::key_info_view::KeyInfoView;
use restix::views::keys_list_view::{KeysListView, RowStyle};
use restix::views::settings_view::{SettingsOption, SettingsView};
use restix::views::status_view::StatusView;
use restix::views::value_view::{ValueBody, ValueView};

fn key(name: &str, key_type: &str, ttl: i64, memory: u64) -> KeyInfo {
    KeyInfo {
        name: name.to_string(),
        key_type: key_type.to_string(),
        ttl,
        memory_bytes: memory,
        value_preview: String::new(),
    }
}

#[test]
fn modal_editing() {
    let mut m = ConnectionModal::new("redis://h");
    assert_eq!(m.cursor_position, 9);
    assert_eq!(m.selected_action, ModalAction::Connect);
    m.handle_input(KeyCode::Char('x'));
    assert_eq!(m.get_url(), "redis://hx");
    assert_eq!(m.cursor_position, 10);
    m.handle_input(KeyCode::Left);
    m.handle_input(KeyCode::Left);
    m.handle_input(KeyCode::Char('y'));
    assert_eq!(m.get_url(), "redis://yhx");
    m.handle_input(KeyCode::Backspace);
    assert_eq!(m.get_url(), "redis://hx");
    assert_eq!(m.cursor_position, 8);
    m.handle_input(KeyCode::Right);
    m.handle_input(KeyCode::Right);
    m.handle_input(KeyCode::Right);
    assert_eq!(m.cursor_position, 10);
    m.handle_input(KeyCode::Tab);
    assert_eq!(m.selected_action, ModalAction::Test);
    m.handle_input(KeyCode::Tab);
    assert_eq!(m.selected_action, ModalAction::Cancel);
    m.handle_input(KeyCode::Tab);
    assert_eq!(m.selected_action, ModalAction::Connect);
    m.handle_input(KeyCode::Up);
    assert_eq!(m.get_url(), "redis://hx");
}

#[test]
fn modal_multibyte_and_empty() {
    let mut m = ConnectionModal::new("");
    m.handle_input(KeyCode::Backspace);
    assert_eq!(m.get_url(), "");
    assert_eq!(m.cursor_position, 0);
    m.handle_input(KeyCode::Char('é'));
    assert_eq!(m.get_url(), "é");
    assert_eq!(m.cursor_position, 1);
    m.handle_input(KeyCode::Right);
    assert_eq!(m.cursor_position, 2);
    m.handle_input(KeyCode::Char('a'));
    assert_eq!(m.get_url(), "éa");
    assert_eq!(m.cursor_position, 3);
    m.handle_input(KeyCode::Backspace);
    assert_eq!(m.get_url(), "é");
    assert_eq!(m.cursor_position, 2);
    m.handle_input(KeyCode::Left);
    m.handle_input(KeyCode::Left);
    m.handle_input(KeyCode::Char('b'));
    assert_eq!(m.get_url(), "bé");
    m.handle_input(KeyCode::Backspace);
    assert_eq!(m.get_url(), "é");
    assert_eq!(m.cursor_position, 0);
}

#[test]
fn modal_cursor_column() {
    let m = ConnectionModal::new("abc");
    assert_eq!(m.cursor_column(10, 20), Some(14));
    assert_eq!(m.cursor_column(10, 5), None);
}

#[test]
fn value_view_window() {
    let mut v = ValueView::new();
    v.set_content("a\nb\nc\nd".to_string());
    assert_eq!(v.lines, vec!["a", "b", "c", "d"]);
    v.handle_input(KeyCode::Down);
    v.handle_input(KeyCode::Char('j'));
    v.handle_input(KeyCode::Down);
    v.handle_input(KeyCode::Down);
    assert_eq!(v.cursor_line, 3);
    v.handle_input(KeyCode::Up);
    assert_eq!(v.cursor_line, 2);
    v.set_focus(true);
    match v.body(4) {
        ValueBody::Lines(l) => assert_eq!(l, vec!["▶ c", "  d", "", "[3/4]"]),
        _ => panic!("expected lines"),
    }
    match v.body(10) {
        ValueBody::Lines(l) => assert_eq!(l, vec!["  a", "  b", "▶ c", "  d"]),
        _ => panic!("expected lines"),
    }
    assert!(matches!(v.body(0), ValueBody::Hidden));
    match v.body(2) {
        ValueBody::Message(m) => assert_eq!(m, "..."),
        _ => panic!("expected a message"),
    }
    v.clear();
    match v.body(5) {
        ValueBody::Message(m) => assert_eq!(m, "No value"),
        _ => panic!("expected a message"),
    }
    assert_eq!(v.title(), "Value ◄");
    v.handle_input(KeyCode::Up);
    assert_eq!(v.cursor_line, 0);
}

#[test]
fn keys_list_selection() {
    let mut l = KeysListView::new();
    l.update(vec![key("a", "string", -1, 10), key("b", "list", 30, 2048), key("c", "hash", 7200, 0)]);
    assert_eq!(l.selected, None);
    l.next();
    assert_eq!(l.selected, Some(0));
    l.previous();
    assert_eq!(l.selected, Some(2));
    l.next();
    assert_eq!(l.selected, Some(0));
    l.handle_input(KeyCode::Char('j'));
    assert_eq!(l.selected, Some(1));
    assert_eq!(l.get_selected_key().map(|k| k.name.clone()), Some("b".to_string()));
    l.update(vec![key("z", "set", -2, 1)]);
    assert_eq!(l.selected, Some(0));
    l.update(vec![]);
    assert_eq!(l.selected, Some(0));
    assert!(l.get_selected_key().is_none());
}

#[test]
fn keys_list_rows() {
    let mut l = KeysListView::new();
    l.update(vec![
        key("short", "string", -1, 10),
        key("a_key_name_that_is_definitely_too_long", "ZSET", 90, 1536),
    ]);
    l.next();
    l.set_focus(true);
    let rows = l.rows();
    assert_eq!(rows.len(), 2);
    assert_eq!(rows[0].number, "1");
    assert_eq!(rows[0].name, "short");
    assert_eq!(rows[0].badge, "S");
    assert_eq!(rows[0].ttl, "No expiration");
    assert_eq!(rows[0].memory, "10 B");
    assert_eq!(rows[0].style, RowStyle::Highlighted);
    assert_eq!(rows[1].number, "2");
    assert_eq!(rows[1].name, "a_key_name_that_is_definite...");
    assert_eq!(rows[1].badge, "Z");
    assert_eq!(rows[1].ttl, "1m 30s");
    assert_eq!(rows[1].memory, "1.50 KB");
    assert_eq!(rows[1].style, RowStyle::Plain);
    l.set_focus(false);
    let rows = l.rows();
    assert_eq!(rows[0].style, RowStyle::Selected);
    assert_eq!(rows[1].style, RowStyle::Dimmed);
    assert_eq!(l.title(), "Redis Keys");
}

#[test]
fn status_line_segments() {
    let mut s = StatusView::new();
    s.update_totals(12, 2048, true);
    let plain: Vec<(String, bool)> = s.segments().into_iter().map(|g| (g.text, g.highlighted)).collect();
    let texts: String = plain.iter().map(|(t, _)| t.as_str()).collect();
    assert_eq!(texts, "Keys: 12 | Memory: 2.00 KB | Connected | Tab:nav | Enter:view | p:pause | Esc:back | q:quit");
    assert!(plain.iter().all(|(_, h)| !h));
    s.set_paused(true);
    let paused: Vec<(String, bool)> = s.segments().into_iter().map(|g| (g.text, g.highlighted)).collect();
    let texts: String = paused.iter().map(|(t, _)| t.as_str()).collect();
    assert_eq!(
        texts,
        "Keys: 12 | Memory: 2.00 KB | Connected | PAUSED | Tab:nav | Enter:view | p:pause | Esc:back | q:quit"
    );
    let highlighted: Vec<&str> = paused.iter().filter(|(_, h)| *h).map(|(t, _)| t.as_str()).collect();
    assert_eq!(highlighted, vec!["12", "PAUSED", "p:pause"]);
    s.increment_seconds();
    assert_eq!(s.seconds_since_refresh, 1);
    s.set_message("hello".to_string());
    assert_eq!(s.error.as_deref(), Some("hello"));
}

#[test]
fn key_info_and_settings() {
    let mut k = KeyInfoView::new();
    assert_eq!(k.content(), vec!["No key selected"]);
    k.set_key(Some(key("user:1", "hash", 65, 0)));
    assert_eq!(k.content(), vec!["Key: user:1", "", "Type: hash", "", "TTL: 1m 5s"]);
    k.handle_input(KeyCode::Down);
    assert_eq!(k.title(), "Key Info");
    let mut s = SettingsView::new();
    assert_eq!(s.selected_option, SettingsOption::RedisConnection);
    assert_eq!(s.selected_option.label(), "Redis Connection");
    s.set_focus(true);
    s.handle_input(KeyCode::Char('j'));
    assert_eq!(s.selected_option, SettingsOption::RedisConnection);
    assert_eq!(s.title(), "Settings ◄");
}
