//! The host's two screens, the menu and the game, and what a key press asks
//! of the host on each.

use vstd::prelude::*;

verus! {

/// Which screen the host shows.
#[derive(Clone, Copy, Debug, PartialEq, Eq, Structural)]
pub enum EmulatorState {
    /// A game is running.
    InGame,
    /// The menu, in which a game is chosen.
    InMenu,
}

/// What the menu offers.
#[derive(Clone, Copy, Debug, PartialEq, Eq, Structural)]
pub enum EmulatorChoice {
    /// Load the chosen game.
    LoadRom,
    /// Leave the program.
    Quit,
}

/// The host's state: the screen it shows and the choice that is marked.
#[derive(Clone, Copy, Debug, PartialEq, Eq, Structural)]
pub struct Emulator {
    /// The screen that is shown.
    pub emulator_state: EmulatorState,
    /// The menu entry that is marked.
    pub emulator_choice: EmulatorChoice,
}

/// What the host is to do about a key that went down.
#[derive(Clone, Copy, Debug, PartialEq, Eq, Structural)]
pub enum HostAction {
    /// Choose the game before the chosen one and draw the menu again.
    PreviousGame,
    /// Choose the game after the chosen one and draw the menu again.
    NextGame,
    /// Read the chosen game, load it and start it.
    StartGame,
    /// Leave the program.
    Quit,
    /// Reset the machine and go back to the menu.
    LeaveGame,
    /// Hand the key to the keypad.
    PressKey,
    /// Nothing.
    Nothing,
}

/// The code of the Return key. Key codes are those of SDL: for a key that
/// types a character, the character's code.
pub const KEY_RETURN: u32 = 0x0D;

/// The code of the Escape key.
pub const KEY_ESCAPE: u32 = 0x1B;

/// The code of the space bar.
pub const KEY_SPACE: u32 = 0x20;

/// The code of the A key.
pub const KEY_A: u32 = 0x61;

/// The code of the D key.
pub const KEY_D: u32 = 0x64;

/// The code of the right arrow.
pub const KEY_RIGHT: u32 = 0x4000_004F;

/// The code of the left arrow.
pub const KEY_LEFT: u32 = 0x4000_0050;

/// Nanoseconds that the host lets pass between two cycles of the machine.
pub const EMULATOR_RATE: u64 = 1851;

/// The other screen.
pub open spec fn other_state(state: EmulatorState) -> EmulatorState {
    match state {
        EmulatorState::InGame => EmulatorState::InMenu,
        EmulatorState::InMenu => EmulatorState::InGame,
    }
}

/// The other menu entry.
pub open spec fn other_choice(choice: EmulatorChoice) -> EmulatorChoice {
    match choice {
        EmulatorChoice::LoadRom => EmulatorChoice::Quit,
        EmulatorChoice::Quit => EmulatorChoice::LoadRom,
    }
}

/// What a key that went down asks for on each screen. In the menu, A and the
/// left arrow go to the game before, D and the right arrow to the game
/// after, Return and the space bar start the game, Escape leaves the
/// program. In a game, Escape leaves the game and every other key goes to
/// the keypad.
pub open spec fn action_for(state: EmulatorState, key: u32) -> HostAction {
    match state {
        EmulatorState::InMenu => if key == KEY_A || key == KEY_LEFT {
            HostAction::PreviousGame
        } else if key == KEY_D || key == KEY_RIGHT {
            HostAction::NextGame
        } else if key == KEY_RETURN || key == KEY_SPACE {
            HostAction::StartGame
        } else if key == KEY_ESCAPE {
            HostAction::Quit
        } else {
            HostAction::Nothing
        },
        EmulatorState::InGame => if key == KEY_ESCAPE {
            HostAction::LeaveGame
        } else {
            HostAction::PressKey
        },
    }
}

impl Emulator {
    /// The host at its start: in the menu, with "load" marked.
    pub fn new() -> (emulator: Emulator)
        ensures
            emulator == (Emulator {
                emulator_state: EmulatorState::InMenu,
                emulator_choice: EmulatorChoice::LoadRom,
            }),
    {
        Emulator { emulator_state: EmulatorState::InMenu, emulator_choice: EmulatorChoice::LoadRom }
    }

    /// Goes from the menu to the game, or from the game to the menu.
    pub fn switch_state(&mut self)
        ensures
            final(self).emulator_state == other_state(old(self).emulator_state),
            final(self).emulator_choice == old(self).emulator_choice,
    {
        self.emulator_state = if self.emulator_state == EmulatorState::InGame {
            EmulatorState::InMenu
        } else {
            EmulatorState::InGame
        }
    }

    /// Marks the other menu entry.
    pub fn switch_choice(&mut self)
        ensures
            final(self).emulator_choice == other_choice(old(self).emulator_choice),
            final(self).emulator_state == old(self).emulator_state,
    {
        self.emulator_choice = if self.emulator_choice == EmulatorChoice::LoadRom {
            EmulatorChoice::Quit
        } else {
            EmulatorChoice::LoadRom
        }
    }

    /// What the host is to do about the key with code `key` that went down.
    pub fn key_pressed(&self, key: u32) -> (action: HostAction)
        ensures
            action == action_for(self.emulator_state, key),
    {
        match self.emulator_state {
            EmulatorState::InMenu => {
                if key == KEY_A || key == KEY_LEFT {
                    HostAction::PreviousGame
                } else if key == KEY_D || key == KEY_RIGHT {
                    HostAction::NextGame
                } else if key == KEY_RETURN || key == KEY_SPACE {
                    HostAction::StartGame
                } else if key == KEY_ESCAPE {
                    HostAction::Quit
                } else {
                    HostAction::Nothing
                }
            },
            EmulatorState::InGame => {
                if key == KEY_ESCAPE {
                    HostAction::LeaveGame
                } else {
                    HostAction::PressKey
                }
            },
        }
    }

    /// Whether the machine is due for its next cycle, `elapsed` nanoseconds
    /// after the last one.
    pub fn cycle_is_due(&self, elapsed: u128) -> (due: bool)
        ensures
            due == (self.emulator_state == EmulatorState::InGame && elapsed >= EMULATOR_RATE),
    {
        self.emulator_state == EmulatorState::InGame && elapsed >= EMULATOR_RATE as u128
    }
}

} // verus!
