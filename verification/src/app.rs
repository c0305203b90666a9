//! The application's decisions: how a key press changes the screen state and which
//! outside work (reading a value, connecting, testing a URL, quitting) it asks
//! for, and how the results of that work change the state. The program around the
//! library reads the keys, performs the work and draws the state.
use vstd::prelude::*;
use crate::focus::{next_panel, previous_panel, FocusPanel};
use crate::keyboard::{navigation_action, KeyCode, KeyEvent, KeyboardController, NavigationAction};
use crate::models::{same_key_info, KeyInfo};
use crate::text::{byte_len, chars_of, lines_of, push_str, string_from, text_lines};
use crate::views::connection_modal::{
    modal_key_ok, modal_step, ConnectionModal, ModalAction, ModalState,
};
use crate::views::key_info_view::KeyInfoView;
use crate::views::keys_list_view::{moves_down, selection_after_update, KeysListView};
use crate::views::settings_view::{SettingsOption, SettingsView};
use crate::views::status_view::{default_hint, StatusView};
use crate::views::value_view::{cursor_after_key, ValueView};

verus! {

/// The result of a connection test, shown until `expires_at`, a time in
/// milliseconds on the program's clock.
pub struct TestResultPopup {
    pub message: String,
    pub expires_at: u64,
}

/// The outside work a key press asks for.
pub enum Effect {
    /// Nothing to do.
    Nothing,
    /// Leave the program.
    Quit,
    /// Read the full value of this key and hand it to `finish_details`.
    FetchValue(KeyInfo),
    /// Connect to this URL, read its keys and hand the outcome to
    /// `apply_reconnect`.
    Reconnect(String),
    /// Try this URL without changing the connection and hand the outcome to
    /// `apply_test_result`.
    TestConnection(String),
}

/// How an attempt to connect to a new URL went.
pub enum ReconnectOutcome {
    /// Connected; the keys were read, or reading them failed with this message.
    Connected(Result<Vec<KeyInfo>, String>),
    /// The server could not be reached.
    Unreachable,
    /// The URL was refused with this message.
    Failed(String),
}

/// The outside work that follows a connection attempt.
pub struct ConnectFollowUp {
    /// Write the new URL to the configuration file.
    pub save_config: bool,
    /// Read the full value of this key and hand it to `finish_details`.
    pub fetch_value: Option<KeyInfo>,
}

/// The state of the screen.
pub struct App {
    pub keys_list_view: KeysListView,
    pub settings_view: SettingsView,
    pub key_info_view: KeyInfoView,
    pub value_view: ValueView,
    pub status_view: StatusView,
    pub connection_modal: Option<ConnectionModal>,
    pub test_popup: Option<TestResultPopup>,
    pub current_redis_url: String,
    pub current_focus: FocusPanel,
    pub last_key_name: String,
    pub auto_refresh: bool,
    pub last_refresh_time: u64,
}

/// The key the keys panel selects, if its selection points at one.
pub open spec fn selected_key(v: KeysListView) -> Option<KeyInfo> {
    match v.selected {
        Some(i) => if i < v.items@.len() {
            Some(v.items@[i as int])
        } else {
            None
        },
        None => None,
    }
}

/// The status bar after `m` was shown in it: the message is `m`, the rest is as
/// in `before`.
pub open spec fn message_set(before: StatusView, after: StatusView, m: Seq<char>) -> bool {
    &&& after.error matches Some(e) && e@ == m
    &&& after.total_keys == before.total_keys
    &&& after.total_memory == before.total_memory
    &&& after.connected == before.connected
    &&& after.last_refresh == before.last_refresh
    &&& after.mode_hint == before.mode_hint
    &&& after.paused == before.paused
    &&& after.seconds_since_refresh == before.seconds_since_refresh
}

/// The message shown at start.
pub open spec fn startup_message(url: Seq<char>, connected: bool) -> Seq<char> {
    if connected {
        "Connected to Redis at "@ + url
    } else {
        "Not connected to Redis. Press Tab for Settings to connect."@
    }
}

/// The key details panel and the value panel once the selection of `list` was read:
/// the selected key is shown and its value requested, or, without selection, both
/// panels are emptied.
pub open spec fn details_shown(
    list: KeysListView,
    value_before: ValueView,
    after: App,
    fetch: Option<KeyInfo>,
) -> bool {
    match selected_key(list) {
        Some(k) => {
            &&& after.key_info_view.key_info matches Some(shown) && same_key_info(shown, k)
            &&& fetch matches Some(f) && same_key_info(f, k)
            &&& after.value_view == value_before
        },
        None => {
            &&& after.key_info_view.key_info is None
            &&& fetch is None
            &&& after.value_view.lines@.len() == 0
            &&& after.value_view.cursor_line == 0
            &&& after.value_view.focused == value_before.focused
        },
    }
}

/// `details_shown` for the keys panel and value panel of `before`.
pub open spec fn details_begun(before: App, after: App, fetch: Option<KeyInfo>) -> bool {
    details_shown(before.keys_list_view, before.value_view, after, fetch)
}

/// The key whose value an effect asks to read.
pub open spec fn fetch_of(e: Effect) -> Option<KeyInfo> {
    match e {
        Effect::FetchValue(k) => Some(k),
        _ => None,
    }
}

/// The dialog, the popup, the URL and the other panels stay as they were.
pub open spec fn rest_unchanged(before: App, after: App) -> bool {
    &&& after.connection_modal == before.connection_modal
    &&& after.test_popup == before.test_popup
    &&& after.current_redis_url == before.current_redis_url
    &&& after.settings_view == before.settings_view
    &&& after.status_view == before.status_view
    &&& after.last_key_name == before.last_key_name
    &&& after.auto_refresh == before.auto_refresh
    &&& after.last_refresh_time == before.last_refresh_time
}

/// Nothing changes.
pub open spec fn all_unchanged(before: App, after: App) -> bool {
    &&& rest_unchanged(before, after)
    &&& after.keys_list_view == before.keys_list_view
    &&& after.key_info_view == before.key_info_view
    &&& after.value_view == before.value_view
    &&& after.current_focus == before.current_focus
}

/// The panels, the URL and the popup stay as they were.
pub open spec fn screen_unchanged(before: App, after: App) -> bool {
    &&& after.keys_list_view == before.keys_list_view
    &&& after.settings_view == before.settings_view
    &&& after.key_info_view == before.key_info_view
    &&& after.value_view == before.value_view
    &&& after.status_view == before.status_view
    &&& after.test_popup == before.test_popup
    &&& after.current_redis_url == before.current_redis_url
    &&& after.last_key_name == before.last_key_name
    &&& after.auto_refresh == before.auto_refresh
    &&& after.last_refresh_time == before.last_refresh_time
}

/// A key in the open dialog `m`: Enter closes it and asks to connect to, or to test,
/// the URL typed, as the selected button says (Cancel asks nothing); Esc closes it;
/// other keys edit it as `modal_step` states.
pub open spec fn modal_key_handled(m: ModalState, key: KeyCode, after: Option<ConnectionModal>, e: Effect) -> bool {
    match key {
        KeyCode::Enter => {
            &&& after is None
            &&& match m.action {
                ModalAction::Connect => e matches Effect::Reconnect(u) && u@ == m.url,
                ModalAction::Test => e matches Effect::TestConnection(u) && u@ == m.url,
                ModalAction::Cancel => e is Nothing,
            }
        },
        KeyCode::Esc => after is None && e is Nothing,
        _ => after matches Some(n) && n@ == modal_step(m, key) && e is Nothing,
    }
}

/// The settings entry the navigation sees: the selected one while Settings is
/// focused.
pub open spec fn focused_option(app: App) -> Option<SettingsOption> {
    if app.current_focus == FocusPanel::Settings {
        Some(app.settings_view.selected_option)
    } else {
        None
    }
}

/// A key the focused panel handles itself: the keys panel moves its selection and
/// then shows the newly selected key; the value panel moves its cursor; the other
/// panels ignore it.
pub open spec fn panel_key_handled(b: App, key: KeyCode, a: App, e: Effect) -> bool {
    &&& a.current_focus == b.current_focus
    &&& a.connection_modal == b.connection_modal
    &&& a.test_popup == b.test_popup
    &&& a.current_redis_url == b.current_redis_url
    &&& a.status_view == b.status_view
    &&& a.settings_view == b.settings_view
    &&& match b.current_focus {
        FocusPanel::KeysList => {
            &&& a.keys_list_view.items@ == b.keys_list_view.items@
            &&& a.keys_list_view.focused == b.keys_list_view.focused
            &&& a.keys_list_view.selected == (match key {
                KeyCode::Char('j') | KeyCode::Down => crate::views::keys_list_view::selection_after_next(
                    b.keys_list_view.selected,
                    b.keys_list_view.items@.len(),
                ),
                KeyCode::Char('k') | KeyCode::Up => crate::views::keys_list_view::selection_after_previous(
                    b.keys_list_view.selected,
                    b.keys_list_view.items@.len(),
                ),
                _ => b.keys_list_view.selected,
            })
            &&& a.key_info_view.focused == b.key_info_view.focused
            &&& details_shown(a.keys_list_view, b.value_view, a, fetch_of(e))
            &&& (e is Nothing || e is FetchValue)
        },
        FocusPanel::Value => {
            &&& a.value_view.cursor_line == cursor_after_key(
                b.value_view.lines@.len(),
                b.value_view.cursor_line as nat,
                key,
            )
            &&& a.value_view.lines@ == b.value_view.lines@
            &&& a.value_view.focused == b.value_view.focused
            &&& a.keys_list_view == b.keys_list_view
            &&& a.key_info_view == b.key_info_view
            &&& e is Nothing
        },
        _ => {
            &&& a.keys_list_view == b.keys_list_view
            &&& a.key_info_view == b.key_info_view
            &&& a.value_view == b.value_view
            &&& e is Nothing
        },
    }
}

/// How a key press changes the state and which work it asks for: while a test
/// result is shown, any key only dismisses it; while the dialog is open, keys go to
/// the dialog; otherwise the key's global action applies, or the focused panel
/// handles the key.
pub open spec fn key_handled(b: App, key: KeyEvent, a: App, e: Effect) -> bool {
    if b.test_popup is Some {
        &&& a.test_popup is None
        &&& e is Nothing
        &&& a.connection_modal == b.connection_modal
        &&& a.current_focus == b.current_focus
        &&& a.keys_list_view == b.keys_list_view
        &&& a.settings_view == b.settings_view
        &&& a.key_info_view == b.key_info_view
        &&& a.value_view == b.value_view
        &&& a.status_view == b.status_view
        &&& a.current_redis_url == b.current_redis_url
    } else if b.connection_modal is Some {
        &&& modal_key_handled(b.connection_modal->0@, key.code, a.connection_modal, e)
        &&& a.current_focus == b.current_focus
        &&& screen_unchanged(b, a)
    } else {
        match navigation_action(key, b.current_focus, focused_option(b)) {
            NavigationAction::Quit => e is Quit && all_unchanged(b, a),
            NavigationAction::MoveLeft | NavigationAction::MoveUp => {
                &&& e is Nothing
                &&& a.current_focus == previous_panel(b.current_focus)
                &&& a.connection_modal is None
                &&& screen_unchanged(b, a)
            },
            NavigationAction::MoveRight | NavigationAction::MoveDown => {
                &&& e is Nothing
                &&& a.current_focus == next_panel(b.current_focus)
                &&& a.connection_modal is None
                &&& screen_unchanged(b, a)
            },
            NavigationAction::OpenConnectionModal => {
                &&& e is Nothing
                &&& a.connection_modal matches Some(m) && m@ == (ModalState {
                    url: b.current_redis_url@,
                    cursor: byte_len(b.current_redis_url@) as int,
                    action: ModalAction::Connect,
                })
                &&& a.current_focus == b.current_focus
                &&& screen_unchanged(b, a)
            },
            NavigationAction::SelectKeyGoToValue => {
                &&& a.current_focus == FocusPanel::Value
                &&& details_begun(b, a, fetch_of(e))
                &&& (e is Nothing || e is FetchValue)
                &&& a.keys_list_view == b.keys_list_view
                &&& a.key_info_view.focused == b.key_info_view.focused
                &&& rest_unchanged(b, a)
            },
            NavigationAction::GoBackToKeysList => {
                &&& e is Nothing
                &&& a.current_focus == FocusPanel::KeysList
                &&& a.connection_modal is None
                &&& screen_unchanged(b, a)
            },
            NavigationAction::NoAction => panel_key_handled(b, key.code, a, e),
        }
    }
}

/// What a key press can be handled in: the URLs fit in memory; a key typed into
/// the dialog can be inserted or deleted where the cursor stands; a key moving the
/// keys panel's selection down finds a key when something is selected.
pub open spec fn key_ok(app: App, key: KeyEvent) -> bool {
    &&& byte_len(app.current_redis_url@) < isize::MAX
    &&& match app.connection_modal {
        Some(m) => {
            &&& byte_len(m.url_input@) < isize::MAX
            &&& (app.test_popup is None && key.code != KeyCode::Enter && key.code != KeyCode::Esc)
                ==> modal_key_ok(m@, key.code)
        },
        None => true,
    }
    &&& (app.test_popup is None && app.connection_modal is None && app.current_focus
        == FocusPanel::KeysList && navigation_action(key, app.current_focus, None)
        == NavigationAction::NoAction && moves_down(key.code) && app.keys_list_view.selected is Some)
        ==> app.keys_list_view.items@.len() > 0
}

impl App {
    /// The state at start, connected to `redis_url` or not: every panel empty, the
    /// keys panel focused, the status bar telling whether the connection worked.
    pub fn new(redis_url: String, connected: bool, now: u64) -> (r: App)
        ensures
            r.current_redis_url@ == redis_url@,
            r.current_focus == FocusPanel::KeysList,
            r.connection_modal is None,
            r.test_popup is None,
            r.status_view.error matches Some(m) && m@ == startup_message(redis_url@, connected),
            r.status_view.total_keys == 0,
            r.status_view.total_memory == 0,
            !r.status_view.connected,
            r.status_view.last_refresh is None,
            r.status_view.mode_hint@ == default_hint(),
            !r.status_view.paused,
            r.status_view.seconds_since_refresh == 0,
            !r.settings_view.focused,
            r.settings_view.selected_option == SettingsOption::RedisConnection,
            r.keys_list_view.items@.len() == 0,
            r.keys_list_view.selected is None,
            !r.keys_list_view.focused,
            r.key_info_view.key_info is None,
            !r.key_info_view.focused,
            r.value_view.lines@.len() == 0,
            r.value_view.cursor_line == 0,
            !r.value_view.focused,
            r.last_key_name@.len() == 0,
            r.auto_refresh,
            r.last_refresh_time == now,
    {
        let mut message = if connected {
            chars_of("Connected to Redis at ")
        } else {
            chars_of("Not connected to Redis. Press Tab for Settings to connect.")
        };
        if connected {
            push_str(&mut message, redis_url.as_str());
        }
        let mut status_view = StatusView::new();
        status_view.set_message(string_from(&message));
        App {
            keys_list_view: KeysListView::new(),
            settings_view: SettingsView::new(),
            key_info_view: KeyInfoView::new(),
            value_view: ValueView::new(),
            status_view,
            connection_modal: None,
            test_popup: None,
            current_redis_url: redis_url,
            current_focus: FocusPanel::KeysList,
            last_key_name: String::new(),
            auto_refresh: true,
            last_refresh_time: now,
        }
    }

    /// Marks the focused panel as focused and the others as not.
    pub fn sync_focus(&mut self)
        ensures
            final(self).keys_list_view.focused == (old(self).current_focus == FocusPanel::KeysList),
            final(self).settings_view.focused == (old(self).current_focus == FocusPanel::Settings),
            final(self).key_info_view.focused == (old(self).current_focus == FocusPanel::Details),
            final(self).value_view.focused == (old(self).current_focus == FocusPanel::Value),
            final(self).current_focus == old(self).current_focus,
            final(self).keys_list_view.items@ == old(self).keys_list_view.items@,
            final(self).keys_list_view.selected == old(self).keys_list_view.selected,
            final(self).value_view.lines@ == old(self).value_view.lines@,
            final(self).value_view.cursor_line == old(self).value_view.cursor_line,
            final(self).key_info_view.key_info == old(self).key_info_view.key_info,
            final(self).settings_view.selected_option == old(self).settings_view.selected_option,
            final(self).connection_modal == old(self).connection_modal,
            final(self).test_popup == old(self).test_popup,
            final(self).current_redis_url == old(self).current_redis_url,
            final(self).status_view == old(self).status_view,
    {
        let focus = self.current_focus;
        self.keys_list_view.set_focus(focus == FocusPanel::KeysList);
        self.settings_view.set_focus(focus == FocusPanel::Settings);
        self.key_info_view.set_focus(focus == FocusPanel::Details);
        self.value_view.set_focus(focus == FocusPanel::Value);
    }

    /// Shows the selected key in the details panel and asks for its value; without
    /// selection, empties the details and value panels.
    pub fn begin_details(&mut self) -> (fetch: Option<KeyInfo>)
        ensures
            details_begun(*old(self), *final(self), fetch),
            rest_unchanged(*old(self), *final(self)),
            final(self).keys_list_view == old(self).keys_list_view,
            final(self).current_focus == old(self).current_focus,
            final(self).key_info_view.focused == old(self).key_info_view.focused,
    {
        match self.keys_list_view.get_selected_key() {
            Some(selected) => {
                let shown = selected.duplicate();
                let fetch = selected.duplicate();
                self.key_info_view.set_key(Some(shown));
                Some(fetch)
            },
            None => {
                self.key_info_view.set_key(None);
                self.value_view.clear();
                None
            },
        }
    }

    /// Shows the value read for the selected key, or the error met reading it.
    pub fn finish_details(&mut self, fetched: Result<String, String>)
        ensures
            text_lines(final(self).value_view.lines@) == lines_of(
                match fetched {
                    Ok(v) => v@,
                    Err(e) => "Error fetching value: "@ + e@,
                },
            ),
            final(self).value_view.cursor_line == 0,
            final(self).value_view.focused == old(self).value_view.focused,
            rest_unchanged(*old(self), *final(self)),
            final(self).keys_list_view == old(self).keys_list_view,
            final(self).key_info_view == old(self).key_info_view,
            final(self).current_focus == old(self).current_focus,
    {
        match fetched {
            Ok(v) => self.value_view.set_content(v),
            Err(e) => {
                let mut m = chars_of("Error fetching value: ");
                push_str(&mut m, e.as_str());
                self.value_view.set_content(string_from(&m));
            },
        }
    }

    /// A key for the dialog: while it is open, as `modal_key_handled` states; when
    /// it is closed, nothing changes and no work is asked for.
    pub fn handle_modal_input(&mut self, key_code: KeyCode) -> (e: Effect)
        requires
            old(self).connection_modal matches Some(m) ==> byte_len(m.url_input@) < isize::MAX && (
            key_code != KeyCode::Enter && key_code != KeyCode::Esc ==> modal_key_ok(m@, key_code)),
        ensures
            old(self).connection_modal is Some ==> modal_key_handled(
                old(self).connection_modal->0@,
                key_code,
                final(self).connection_modal,
                e,
            ),
            old(self).connection_modal is None ==> e is Nothing && *final(self) == *old(self),
            final(self).current_focus == old(self).current_focus,
            screen_unchanged(*old(self), *final(self)),
    {
        let mut modal = match self.connection_modal.take() {
            Some(m) => m,
            None => {
                return Effect::Nothing;
            },
        };
        match key_code {
            KeyCode::Enter => {
                match modal.selected_action {
                    ModalAction::Connect => Effect::Reconnect(String::from_str(modal.get_url())),
                    ModalAction::Test => Effect::TestConnection(String::from_str(modal.get_url())),
                    ModalAction::Cancel => Effect::Nothing,
                }
            },
            KeyCode::Esc => Effect::Nothing,
            _ => {
                modal.handle_input(key_code);
                self.connection_modal = Some(modal);
                Effect::Nothing
            },
        }
    }

    /// A key press, as `key_handled` states.
    pub fn handle_key(&mut self, key: KeyEvent) -> (e: Effect)
        requires
            key_ok(*old(self), key),
        ensures
            key_handled(*old(self), key, *final(self), e),
    {
        if self.test_popup.is_some() {
            self.test_popup = None;
            return Effect::Nothing;
        }
        if self.connection_modal.is_some() {
            return self.handle_modal_input(key.code);
        }
        let selected_option = if self.current_focus == FocusPanel::Settings {
            Some(self.settings_view.selected_option)
        } else {
            None
        };
        let action = KeyboardController::map_key_event(&key, &self.current_focus, selected_option);
        match action {
            NavigationAction::Quit => Effect::Quit,
            NavigationAction::MoveLeft | NavigationAction::MoveUp => {
                self.current_focus = self.current_focus.previous();
                Effect::Nothing
            },
            NavigationAction::MoveRight | NavigationAction::MoveDown => {
                self.current_focus = self.current_focus.next();
                Effect::Nothing
            },
            NavigationAction::OpenConnectionModal => {
                self.connection_modal = Some(ConnectionModal::new(self.current_redis_url.as_str()));
                Effect::Nothing
            },
            NavigationAction::SelectKeyGoToValue => {
                let fetch = self.begin_details();
                self.current_focus = FocusPanel::Value;
                match fetch {
                    Some(k) => Effect::FetchValue(k),
                    None => Effect::Nothing,
                }
            },
            NavigationAction::GoBackToKeysList => {
                self.current_focus = FocusPanel::KeysList;
                Effect::Nothing
            },
            NavigationAction::NoAction => {
                match self.current_focus {
                    FocusPanel::KeysList => {
                        self.keys_list_view.handle_input(key.code);
                        let fetch = self.begin_details();
                        match fetch {
                            Some(k) => Effect::FetchValue(k),
                            None => Effect::Nothing,
                        }
                    },
                    FocusPanel::Settings => {
                        self.settings_view.handle_input(key.code);
                        Effect::Nothing
                    },
                    FocusPanel::Details => {
                        self.key_info_view.handle_input(key.code);
                        Effect::Nothing
                    },
                    FocusPanel::Value => {
                        self.value_view.handle_input(key.code);
                        Effect::Nothing
                    },
                }
            },
        }
    }

    /// Takes in the outcome of connecting to `url`: the URL becomes the current one
    /// whatever the outcome; a reached server's keys replace those shown (none when
    /// reading them failed) and the selected key's value is asked for; the status
    /// bar tells what happened and is otherwise unchanged; the URL is saved unless
    /// it was refused.
    pub fn apply_reconnect(&mut self, url: String, outcome: ReconnectOutcome) -> (f: ConnectFollowUp)
        ensures
            final(self).current_redis_url@ == url@,
            f.save_config == !(outcome is Failed),
            message_set(
                old(self).status_view,
                final(self).status_view,
                reconnect_message(url@, outcome),
            ),
            final(self).current_focus == old(self).current_focus,
            final(self).connection_modal == old(self).connection_modal,
            final(self).test_popup == old(self).test_popup,
            final(self).settings_view == old(self).settings_view,
            final(self).keys_list_view.focused == old(self).keys_list_view.focused,
            final(self).key_info_view.focused == old(self).key_info_view.focused,
            final(self).value_view.focused == old(self).value_view.focused,
            match outcome {
                ReconnectOutcome::Connected(keys) => {
                    &&& final(self).keys_list_view.items@ == (match keys {
                        Ok(k) => k@,
                        Err(_) => Seq::<KeyInfo>::empty(),
                    })
                    &&& final(self).keys_list_view.selected == selection_after_update(
                        old(self).keys_list_view.selected,
                        final(self).keys_list_view.items@.len(),
                    )
                    &&& details_shown(
                        final(self).keys_list_view,
                        old(self).value_view,
                        *final(self),
                        f.fetch_value,
                    )
                },
                _ => {
                    &&& final(self).keys_list_view == old(self).keys_list_view
                    &&& final(self).key_info_view == old(self).key_info_view
                    &&& final(self).value_view == old(self).value_view
                    &&& f.fetch_value is None
                },
            },
    {
        let mut message: Vec<char>;
        let mut fetch: Option<KeyInfo> = None;
        let save_config: bool;
        match outcome {
            ReconnectOutcome::Connected(keys) => {
                match keys {
                    Ok(k) => {
                        self.keys_list_view.update(k);
                        message = chars_of("Connected to Redis at ");
                        push_str(&mut message, url.as_str());
                    },
                    Err(e) => {
                        self.keys_list_view.update(Vec::new());
                        message = chars_of("Connected but failed to fetch keys: ");
                        push_str(&mut message, e.as_str());
                    },
                }
                fetch = self.begin_details();
                save_config = true;
            },
            ReconnectOutcome::Unreachable => {
                message = chars_of("Could not connect to Redis at ");
                push_str(&mut message, url.as_str());
                push_str(&mut message, ". Check the URL and try again.");
                save_config = true;
            },
            ReconnectOutcome::Failed(e) => {
                message = chars_of("Connection failed: ");
                push_str(&mut message, e.as_str());
                save_config = false;
            },
        }
        self.current_redis_url = url;
        self.status_view.set_message(string_from(&message));
        ConnectFollowUp { save_config, fetch_value: fetch }
    }

    /// Shows the outcome of testing `url` until 3 seconds after `now` (in
    /// milliseconds).
    pub fn apply_test_result(&mut self, url: &str, result: Result<(), String>, now: u64)
        requires
            now <= u64::MAX - 3000,
        ensures
            final(self).test_popup matches Some(p) && p.expires_at == now + 3000 && p.message@
                == test_message(url@, result),
            final(self).connection_modal == old(self).connection_modal,
            final(self).current_focus == old(self).current_focus,
            final(self).keys_list_view == old(self).keys_list_view,
            final(self).settings_view == old(self).settings_view,
            final(self).key_info_view == old(self).key_info_view,
            final(self).value_view == old(self).value_view,
            final(self).status_view == old(self).status_view,
            final(self).current_redis_url == old(self).current_redis_url,
    {
        let mut message: Vec<char>;
        match result {
            Ok(()) => {
                message = chars_of("✅ Connection Successful to ");
                push_str(&mut message, url);
            },
            Err(e) => {
                message = chars_of("❌ Connection Failed: ");
                push_str(&mut message, e.as_str());
            },
        }
        self.test_popup = Some(TestResultPopup { message: string_from(&message), expires_at: now + 3000 });
    }

    /// At time `now`, removes a test result shown past its expiry; nothing else
    /// changes.
    pub fn tick(&mut self, now: u64)
        ensures
            final(self).test_popup == (match old(self).test_popup {
                Some(p) => if now > p.expires_at {
                    None
                } else {
                    Some(p)
                },
                None => None,
            }),
            final(self).connection_modal == old(self).connection_modal,
            final(self).current_focus == old(self).current_focus,
            final(self).keys_list_view == old(self).keys_list_view,
            final(self).value_view == old(self).value_view,
            final(self).key_info_view == old(self).key_info_view,
            final(self).status_view == old(self).status_view,
            final(self).settings_view == old(self).settings_view,
            final(self).current_redis_url == old(self).current_redis_url,
    {
        let expired = match &self.test_popup {
            Some(p) => now > p.expires_at,
            None => false,
        };
        if expired {
            self.test_popup = None;
        }
    }
}

/// The status message after connecting to `url`.
pub open spec fn reconnect_message(url: Seq<char>, outcome: ReconnectOutcome) -> Seq<char> {
    match outcome {
        ReconnectOutcome::Connected(Ok(_)) => "Connected to Redis at "@ + url,
        ReconnectOutcome::Connected(Err(e)) => "Connected but failed to fetch keys: "@ + e@,
        ReconnectOutcome::Unreachable => "Could not connect to Redis at "@ + url
            + ". Check the URL and try again."@,
        ReconnectOutcome::Failed(e) => "Connection failed: "@ + e@,
    }
}

/// Opening the connection dialog and closing it with Esc changes nothing and asks
/// for no work: the focus, the panels, the URL and the popup are as before.
pub proof fn lemma_dialog_escape_restores(
    b: App,
    k1: KeyEvent,
    m: App,
    e1: Effect,
    k2: KeyEvent,
    a: App,
    e2: Effect,
)
    requires
        b.test_popup is None,
        b.connection_modal is None,
        navigation_action(k1, b.current_focus, focused_option(b))
            == NavigationAction::OpenConnectionModal,
        key_handled(b, k1, m, e1),
        k2.code == KeyCode::Esc,
        key_handled(m, k2, a, e2),
    ensures
        e1 is Nothing,
        e2 is Nothing,
        a.connection_modal is None,
        a.current_focus == b.current_focus,
        screen_unchanged(b, a),
{
}

/// One step of a run of the program: a key press handled as `key_handled` states
/// (`key` is `Some`), or any other step, which keeps the focus where it is (taking in
/// a value, the outcome of a connection or of a test, the clock, or marking the
/// focused panel).
pub open spec fn run_step(b: App, key: Option<KeyEvent>, a: App, e: Effect) -> bool {
    match key {
        Some(k) => key_handled(b, k, a, e),
        None => a.current_focus == b.current_focus,
    }
}

/// No step leads the focus onto the Details panel from elsewhere.
pub proof fn lemma_step_keeps_off_details(b: App, key: Option<KeyEvent>, a: App, e: Effect)
    requires
        b.current_focus != FocusPanel::Details,
        run_step(b, key, a, e),
    ensures
        a.current_focus != FocusPanel::Details,
{
    crate::focus::lemma_focus_cycle(b.current_focus);
}

/// The focus never rests on the Details panel: over any run of steps that starts
/// away from it (as every state built by `App::new` does), every state reached has
/// the focus on the keys list, the settings or the value panel.
pub proof fn lemma_focus_never_details(
    states: Seq<App>,
    keys: Seq<Option<KeyEvent>>,
    effects: Seq<Effect>,
)
    requires
        states.len() == keys.len() + 1,
        effects.len() == keys.len(),
        states[0].current_focus != FocusPanel::Details,
        forall|i: int|
            0 <= i < keys.len() ==> #[trigger] run_step(
                states[i],
                keys[i],
                states[i + 1],
                effects[i],
            ),
    ensures
        forall|i: int|
            0 <= i < states.len() ==> #[trigger] states[i].current_focus != FocusPanel::Details,
    decreases keys.len(),
{
    if keys.len() > 0 {
        let n = keys.len() - 1;
        let s2 = states.drop_last();
        let k2 = keys.drop_last();
        let e2 = effects.drop_last();
        assert forall|i: int| 0 <= i < k2.len() implies #[trigger] run_step(
            s2[i],
            k2[i],
            s2[i + 1],
            e2[i],
        ) by {
            assert(run_step(states[i], keys[i], states[i + 1], effects[i]));
        }
        lemma_focus_never_details(s2, k2, e2);
        assert(s2[n].current_focus != FocusPanel::Details);
        assert(run_step(states[n], keys[n], states[n + 1], effects[n]));
        lemma_step_keeps_off_details(states[n], keys[n], states[n + 1], effects[n]);
        assert forall|i: int| 0 <= i < states.len() implies #[trigger] states[i].current_focus
            != FocusPanel::Details by {
            if i < states.len() - 1 {
                assert(s2[i] == states[i]);
            }
        }
    }
}

/// The message shown for the outcome of testing `url`.
pub open spec fn test_message(url: Seq<char>, result: Result<(), String>) -> Seq<char> {
    match result {
        Ok(_) => "✅ Connection Successful to "@ + url,
        Err(e) => "❌ Connection Failed: "@ + e@,
    }
}

/// The top left corner of the 40 by 5 test result box, centered in an area of
/// `width` by `height` cells.
pub open spec fn popup_corner(width: u16, height: u16) -> (u16, u16) {
    (
        ((if width > 40 { width - 40 } else { 0 }) / 2) as u16,
        ((if height > 5 { height - 5 } else { 0 }) / 2) as u16,
    )
}

/// The top left corner of the test result box in an area of `width` by `height`.
pub fn test_popup_corner(width: u16, height: u16) -> (r: (u16, u16))
    ensures
        r == popup_corner(width, height),
{
    let x = if width > 40 {
        width - 40
    } else {
        0
    };
    let y = if height > 5 {
        height - 5
    } else {
        0
    };
    (x / 2, y / 2)
}

} // verus!
