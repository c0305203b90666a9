//! The panels that can hold the keyboard focus, and how focus moves between them.
use vstd::prelude::*;

verus! {

/// A panel of the main screen.
#[derive(Debug, Clone, Copy, PartialEq, Eq, Structural)]
pub enum FocusPanel {
    KeysList,
    Settings,
    Details,
    Value,
}

/// The panel focused after moving right (Tab, Ctrl+l) or down (Ctrl+j): the cycle
/// KeysList, Settings, Value; from Details to Value.
pub open spec fn next_panel(p: FocusPanel) -> FocusPanel {
    match p {
        FocusPanel::KeysList => FocusPanel::Settings,
        FocusPanel::Settings => FocusPanel::Value,
        FocusPanel::Value => FocusPanel::KeysList,
        FocusPanel::Details => FocusPanel::Value,
    }
}

/// The panel focused after moving left (Backspace, Ctrl+h) or up (Up, Ctrl+k): the
/// cycle Value, Settings, KeysList; from Details to KeysList.
pub open spec fn previous_panel(p: FocusPanel) -> FocusPanel {
    match p {
        FocusPanel::KeysList => FocusPanel::Value,
        FocusPanel::Settings => FocusPanel::KeysList,
        FocusPanel::Value => FocusPanel::Settings,
        FocusPanel::Details => FocusPanel::KeysList,
    }
}

impl FocusPanel {
    /// The panel that moving right or down focuses.
    pub fn next(self) -> (r: FocusPanel)
        ensures
            r == next_panel(self),
    {
        match self {
            FocusPanel::KeysList => FocusPanel::Settings,
            FocusPanel::Settings => FocusPanel::Value,
            FocusPanel::Value => FocusPanel::KeysList,
            FocusPanel::Details => FocusPanel::Value,
        }
    }

    /// The panel that moving left or up focuses.
    pub fn previous(self) -> (r: FocusPanel)
        ensures
            r == previous_panel(self),
    {
        match self {
            FocusPanel::KeysList => FocusPanel::Value,
            FocusPanel::Settings => FocusPanel::KeysList,
            FocusPanel::Value => FocusPanel::Settings,
            FocusPanel::Details => FocusPanel::KeysList,
        }
    }
}

/// Moving right then left, or left then right, comes back to the panel one started
/// from, for every panel but Details (which neither move leads back to).
pub proof fn lemma_focus_moves_undo(p: FocusPanel)
    requires
        p != FocusPanel::Details,
    ensures
        previous_panel(next_panel(p)) == p,
        next_panel(previous_panel(p)) == p,
{
}

/// Three moves in the same direction come back to the starting panel, and no panel
/// reached by a move is Details.
pub proof fn lemma_focus_cycle(p: FocusPanel)
    requires
        p != FocusPanel::Details,
    ensures
        next_panel(next_panel(next_panel(p))) == p,
        previous_panel(previous_panel(previous_panel(p))) == p,
        next_panel(p) != FocusPanel::Details,
        previous_panel(p) != FocusPanel::Details,
{
}

} // verus!
