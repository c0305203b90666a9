use vstd::prelude::*;
use crate::keyboard::KeyCode;

verus! {

/// An entry of the settings panel.
#[derive(Debug, Clone, Copy, PartialEq, Eq, Structural)]
pub enum SettingsOption {
    RedisConnection,
}

impl SettingsOption {
    /// The text shown for the entry.
    pub fn label(&self) -> (r: &'static str)
        ensures
            r@ == "Redis Connection"@,
    {
        match self {
            SettingsOption::RedisConnection => "Redis Connection",
        }
    }
}

/// The settings panel: whether it has the focus and which entry is selected.
pub struct SettingsView {
    pub focused: bool,
    pub selected_option: SettingsOption,
}

impl SettingsView {
    /// An unfocused panel with the Redis connection entry selected.
    pub fn new() -> (r: Self)
        ensures
            !r.focused,
            r.selected_option == SettingsOption::RedisConnection,
    {
        SettingsView { focused: false, selected_option: SettingsOption::RedisConnection }
    }

    pub fn set_focus(&mut self, focused: bool)
        ensures
            final(self).focused == focused,
            final(self).selected_option == old(self).selected_option,
    {
        self.focused = focused;
    }

    /// Keys change nothing here: the panel has a single entry.
    pub fn handle_input(&mut self, key_code: KeyCode)
        ensures
            final(self).focused == old(self).focused,
            final(self).selected_option == old(self).selected_option,
    {
        match key_code {
            KeyCode::Char('j') | KeyCode::Down => {},
            KeyCode::Char('k') | KeyCode::Up => {},
            _ => {},
        }
    }

    /// The panel title: marked with an arrow when focused.
    pub fn title(&self) -> (r: &'static str)
        ensures
            r@ == (if self.focused { "Settings ◄"@ } else { "Settings"@ }),
    {
        if self.focused {
            "Settings ◄"
        } else {
            "Settings"
        }
    }
}

impl Default for SettingsView {
    fn default() -> (r: Self)
        ensures
            !r.focused,
            r.selected_option == SettingsOption::RedisConnection,
    {
        Self::new()
    }
}

} // verus!
