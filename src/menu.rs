//! The numeric menu of the interactive setup mode.

use vstd::prelude::*;

verus! {

/// The main menu.
pub const STATE_START: u8 = 0;
/// `1` on the main menu: the setup menu.
pub const STATE_SETUP: u8 = 49;
/// `2` on the main menu: the sync menu.
pub const STATE_SYNC: u8 = 50;
/// `3` on the main menu: leave.
pub const STATE_EXIT: u8 = 51;
/// `4` on the setup menu: list the remote objects, then pick one.
pub const STATE_LIST_OBJECTS: u8 = 52;
/// `5` on the setup menu: list the mirrored objects, then pick one to delete.
pub const STATE_SELECTED_OBJECTS: u8 = 53;
/// `1` on the sync menu.
pub const STATE_START_SYNC: u8 = 49;
/// `2` on the sync menu.
pub const STATE_STOP_SYNC: u8 = 50;
/// `3` on the sync menu: show the log until the next line.
pub const STATE_SYNC_STATUS: u8 = 51;

/// What the menu does at a step.
#[derive(PartialEq, Eq, Structural, Debug, Clone, Copy)]
pub enum MenuAction {
    ShowMain,
    ShowSetup,
    ShowSync,
    ListObjects,
    ShowSelectedObjects,
    StartSync,
    StopSync,
    ShowLog,
    /// Stop showing the log and go back to the main menu.
    StopLog,
    /// Provision the object whose number was typed.
    SelectObject,
    /// Delete the mirrored object whose number was typed.
    DeleteObject,
    Exit,
    /// An unknown choice: show the main menu again.
    Invalid,
}

/// The menu's state: the previous choice (`level`) and the current one.
#[derive(PartialEq, Eq, Structural, Debug, Clone, Copy)]
pub struct Menu {
    pub level: u8,
    pub command: u8,
}

/// The action for a state.
pub open spec fn menu_action_of(level: u8, command: u8) -> MenuAction {
    if level == STATE_START && command == STATE_START {
        MenuAction::ShowMain
    } else if level == STATE_START && command == STATE_SETUP {
        MenuAction::ShowSetup
    } else if level == STATE_START && command == STATE_SYNC {
        MenuAction::ShowSync
    } else if level == STATE_SETUP && command == STATE_LIST_OBJECTS {
        MenuAction::ListObjects
    } else if level == STATE_SETUP && command == STATE_SELECTED_OBJECTS {
        MenuAction::ShowSelectedObjects
    } else if level == STATE_SYNC && command == STATE_START_SYNC {
        MenuAction::StartSync
    } else if level == STATE_SYNC && command == STATE_STOP_SYNC {
        MenuAction::StopSync
    } else if level == STATE_SYNC && command == STATE_SYNC_STATUS {
        MenuAction::ShowLog
    } else if level == STATE_SYNC_STATUS {
        MenuAction::StopLog
    } else if level == STATE_START && command == STATE_EXIT {
        MenuAction::Exit
    } else if level == STATE_LIST_OBJECTS {
        MenuAction::SelectObject
    } else if level == STATE_SELECTED_OBJECTS {
        MenuAction::DeleteObject
    } else {
        MenuAction::Invalid
    }
}

/// The byte a line of input chooses: its first character when that is ASCII.
pub open spec fn choice_of(first: char) -> u8 {
    if (first as u32) < 128 { first as u8 } else { 255 }
}

impl Menu {
    /// The main menu, before any input.
    pub fn new() -> (r: Menu)
        ensures
            r == (Menu { level: STATE_START, command: STATE_START }),
    {
        Menu { level: STATE_START, command: STATE_START }
    }

    /// The action of the current state. Leaving the log, and an unknown
    /// choice, bring the menu back to the start.
    pub fn action(&mut self) -> (r: MenuAction)
        ensures
            r == menu_action_of(old(self).level, old(self).command),
            final(self).level == old(self).level,
            final(self).command == if r == MenuAction::StopLog || r == MenuAction::Invalid {
                STATE_START
            } else {
                old(self).command
            },
    {
        let l = self.level;
        let c = self.command;
        let r = if l == STATE_START && c == STATE_START {
            MenuAction::ShowMain
        } else if l == STATE_START && c == STATE_SETUP {
            MenuAction::ShowSetup
        } else if l == STATE_START && c == STATE_SYNC {
            MenuAction::ShowSync
        } else if l == STATE_SETUP && c == STATE_LIST_OBJECTS {
            MenuAction::ListObjects
        } else if l == STATE_SETUP && c == STATE_SELECTED_OBJECTS {
            MenuAction::ShowSelectedObjects
        } else if l == STATE_SYNC && c == STATE_START_SYNC {
            MenuAction::StartSync
        } else if l == STATE_SYNC && c == STATE_STOP_SYNC {
            MenuAction::StopSync
        } else if l == STATE_SYNC && c == STATE_SYNC_STATUS {
            MenuAction::ShowLog
        } else if l == STATE_SYNC_STATUS {
            MenuAction::StopLog
        } else if l == STATE_START && c == STATE_EXIT {
            MenuAction::Exit
        } else if l == STATE_LIST_OBJECTS {
            MenuAction::SelectObject
        } else if l == STATE_SELECTED_OBJECTS {
            MenuAction::DeleteObject
        } else {
            MenuAction::Invalid
        };
        if r == MenuAction::StopLog || r == MenuAction::Invalid {
            self.command = STATE_START;
        }
        r
    }

    /// Takes a line of input by its first character; the current choice
    /// becomes the level. At the end of input (`None`) the menu exits.
    pub fn read(&mut self, first: Option<char>)
        ensures
            match first {
                Some(c) => *final(self) == (Menu { level: old(self).command, command: choice_of(c) }),
                None => *final(self) == (Menu { level: STATE_START, command: STATE_EXIT }),
            },
    {
        match first {
            Some(c) => {
                let b: u8 = if (c as u32) < 128 { c as u8 } else { 255 };
                self.level = self.command;
                self.command = b;
            },
            None => {
                self.level = STATE_START;
                self.command = STATE_EXIT;
            },
        }
    }
}

} // verus!
