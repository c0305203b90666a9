//! Keys, and the global actions that key presses stand for.
use vstd::prelude::*;
use crate::focus::FocusPanel;
use crate::views::settings_view::SettingsOption;

verus! {

/// A key, as the panels and the global navigation tell keys apart.
#[derive(Debug, Clone, Copy, PartialEq, Eq, Structural)]
pub enum KeyCode {
    Char(char),
    Backspace,
    Enter,
    Esc,
    Tab,
    Up,
    Down,
    Left,
    Right,
    Other,
}

/// A key press: the key, and whether Control was held.
#[derive(Debug, Clone, Copy, PartialEq, Eq, Structural)]
pub struct KeyEvent {
    pub code: KeyCode,
    pub ctrl: bool,
}

/// What a key press asks of the application as a whole.
#[derive(Debug, Clone, Copy, PartialEq, Eq, Structural)]
pub enum NavigationAction {
    Quit,
    MoveLeft,
    MoveDown,
    MoveUp,
    MoveRight,
    OpenConnectionModal,
    SelectKeyGoToValue,
    GoBackToKeysList,
    NoAction,
}

/// The global action of a key press, given the focused panel and, when Settings is
/// focused, its selected entry.
pub open spec fn navigation_action(
    key: KeyEvent,
    focus: FocusPanel,
    selected_option: Option<SettingsOption>,
) -> NavigationAction {
    match key.code {
        KeyCode::Char('q') => NavigationAction::Quit,
        KeyCode::Char('h') if key.ctrl => NavigationAction::MoveLeft,
        KeyCode::Backspace => NavigationAction::MoveLeft,
        KeyCode::Char('j') if key.ctrl => NavigationAction::MoveDown,
        KeyCode::Char('k') if key.ctrl => NavigationAction::MoveUp,
        KeyCode::Up => NavigationAction::MoveUp,
        KeyCode::Char('l') if key.ctrl => NavigationAction::MoveRight,
        KeyCode::Tab => NavigationAction::MoveRight,
        KeyCode::Enter => match focus {
            FocusPanel::KeysList => NavigationAction::SelectKeyGoToValue,
            FocusPanel::Settings => match selected_option {
                Some(SettingsOption::RedisConnection) => NavigationAction::OpenConnectionModal,
                None => NavigationAction::NoAction,
            },
            _ => NavigationAction::NoAction,
        },
        KeyCode::Esc => if focus == FocusPanel::Value {
            NavigationAction::GoBackToKeysList
        } else {
            NavigationAction::NoAction
        },
        _ => NavigationAction::NoAction,
    }
}

/// Among characters, only q is global when Control is not held: every other plain
/// character, j and k included, is left to the focused panel, whatever the focus
/// and the settings entry. With Control held, h, j, k and l move between panels.
pub proof fn lemma_plain_characters_go_to_panels(
    c: char,
    focus: FocusPanel,
    selected_option: Option<SettingsOption>,
)
    ensures
        c != 'q' ==> navigation_action(
            KeyEvent { code: KeyCode::Char(c), ctrl: false },
            focus,
            selected_option,
        ) == NavigationAction::NoAction,
        navigation_action(KeyEvent { code: KeyCode::Char('h'), ctrl: true }, focus, selected_option)
            == NavigationAction::MoveLeft,
        navigation_action(KeyEvent { code: KeyCode::Char('j'), ctrl: true }, focus, selected_option)
            == NavigationAction::MoveDown,
        navigation_action(KeyEvent { code: KeyCode::Char('k'), ctrl: true }, focus, selected_option)
            == NavigationAction::MoveUp,
        navigation_action(KeyEvent { code: KeyCode::Char('l'), ctrl: true }, focus, selected_option)
            == NavigationAction::MoveRight,
{
}

/// Maps key presses to global actions.
pub struct KeyboardController;

impl KeyboardController {
    /// The global action of `key`: q quits; Ctrl+h and Backspace move left; Ctrl+j
    /// moves down; Ctrl+k and Up move up; Ctrl+l and Tab move right; Enter selects
    /// the key in the keys list or opens the connection dialog from its settings
    /// entry; Esc in the value panel goes back to the keys list; anything else is
    /// left to the focused panel.
    pub fn map_key_event(
        key: &KeyEvent,
        current_focus: &FocusPanel,
        selected_option: Option<SettingsOption>,
    ) -> (r: NavigationAction)
        ensures
            r == navigation_action(*key, *current_focus, selected_option),
    {
        match key.code {
            KeyCode::Char('q') => NavigationAction::Quit,
            KeyCode::Char('h') if key.ctrl => NavigationAction::MoveLeft,
            KeyCode::Backspace => NavigationAction::MoveLeft,
            KeyCode::Char('j') if key.ctrl => NavigationAction::MoveDown,
            KeyCode::Char('k') if key.ctrl => NavigationAction::MoveUp,
            KeyCode::Up => NavigationAction::MoveUp,
            KeyCode::Char('l') if key.ctrl => NavigationAction::MoveRight,
            KeyCode::Tab => NavigationAction::MoveRight,
            KeyCode::Enter => {
                match current_focus {
                    FocusPanel::KeysList => NavigationAction::SelectKeyGoToValue,
                    FocusPanel::Settings => {
                        match selected_option {
                            Some(SettingsOption::RedisConnection) => {
                                NavigationAction::OpenConnectionModal
                            },
                            None => NavigationAction::NoAction,
                        }
                    },
                    FocusPanel::Value => NavigationAction::NoAction,
                    _ => NavigationAction::NoAction,
                }
            },
            KeyCode::Esc => {
                if *current_focus == FocusPanel::Value {
                    NavigationAction::GoBackToKeysList
                } else {
                    NavigationAction::NoAction
                }
            },
            _ => NavigationAction::NoAction,
        }
    }
}

} // verus!
