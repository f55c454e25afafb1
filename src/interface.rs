use std::sync::Arc;

use vstd::prelude::*;

use crate::config::{AutoControlMode, CurrentState, MuteOptions};
use crate::shared::SharedState;

verus! {

/// Which key an event is about.
#[derive(Debug, Clone, Copy, PartialEq, Eq, Structural)]
pub enum KeyCode {
    Char(char),
    Esc,
    /// Any key the commands do not use.
    Other,
}

#[derive(Debug, Clone, Copy, PartialEq, Eq, Structural)]
pub enum KeyEventKind {
    Press,
    Repeat,
    Release,
}

/// One keyboard event.
#[derive(Debug, Clone, Copy, PartialEq, Eq, Structural)]
pub struct KeyEvent {
    pub code: KeyCode,
    pub kind: KeyEventKind,
}

/// What the operator can ask for from the keyboard.
#[derive(Debug, Clone, Copy, PartialEq, Eq, Structural)]
pub enum Command {
    ToggleMute,
    ToggleTempMute,
    ToggleAuto,
    ToggleTempAuto,
    ToggleThieving,
    Quit,
}

/// The command of a key: a Latin letter in either case, or the letter on the same key of
/// a Russian layout.
pub open spec fn spec_command_of_key(code: KeyCode) -> Option<Command> {
    match code {
        KeyCode::Char(c) => {
            if c == 'M' || c == 'm' || c == '\u{42C}' || c == '\u{44C}' {
                Some(Command::ToggleMute)
            } else if c == 'T' || c == 't' || c == '\u{415}' || c == '\u{435}' {
                Some(Command::ToggleTempMute)
            } else if c == 'A' || c == 'a' || c == '\u{424}' || c == '\u{444}' {
                Some(Command::ToggleAuto)
            } else if c == 'S' || c == 's' || c == '\u{42B}' || c == '\u{44B}' {
                Some(Command::ToggleTempAuto)
            } else if c == 'B' || c == 'b' || c == '\u{418}' || c == '\u{438}' {
                Some(Command::ToggleThieving)
            } else if c == 'Q' || c == 'q' || c == '\u{419}' || c == '\u{439}' {
                Some(Command::Quit)
            } else {
                None
            }
        },
        KeyCode::Esc => Some(Command::ToggleTempMute),
        KeyCode::Other => None,
    }
}

/// The command of an event: only presses act; releases and repeats do nothing.
pub open spec fn spec_command_of(event: KeyEvent) -> Option<Command> {
    if event.kind != KeyEventKind::Press {
        None
    } else {
        spec_command_of_key(event.code)
    }
}

pub fn command_of(event: &KeyEvent) -> (r: Option<Command>)
    ensures
        r == spec_command_of(*event),
{
    if event.kind != KeyEventKind::Press {
        return None;
    }
    match event.code {
        KeyCode::Char(c) => {
            if c == 'M' || c == 'm' || c == '\u{42C}' || c == '\u{44C}' {
                Some(Command::ToggleMute)
            } else if c == 'T' || c == 't' || c == '\u{415}' || c == '\u{435}' {
                Some(Command::ToggleTempMute)
            } else if c == 'A' || c == 'a' || c == '\u{424}' || c == '\u{444}' {
                Some(Command::ToggleAuto)
            } else if c == 'S' || c == 's' || c == '\u{42B}' || c == '\u{44B}' {
                Some(Command::ToggleTempAuto)
            } else if c == 'B' || c == 'b' || c == '\u{418}' || c == '\u{438}' {
                Some(Command::ToggleThieving)
            } else if c == 'Q' || c == 'q' || c == '\u{419}' || c == '\u{439}' {
                Some(Command::Quit)
            } else {
                None
            }
        },
        KeyCode::Esc => Some(Command::ToggleTempMute),
        KeyCode::Other => None,
    }
}

/// What handling a key did to the shared state: for a toggle, the value it read and the
/// value it wrote.
#[derive(Debug, Clone, Copy, PartialEq, Eq, Structural)]
pub enum KeyOutcome {
    Mute { before: MuteOptions, after: MuteOptions },
    TempMute { before: MuteOptions, after: MuteOptions },
    Auto { before: AutoControlMode, after: AutoControlMode },
    TempAuto { before: AutoControlMode, after: AutoControlMode },
    Thieving { before: bool, after: bool },
    Quit,
}

/// `r` is what carrying out `command` may give: nothing for no command, and for each
/// toggle the matching outcome whose written value is the toggle of the value read.
pub open spec fn spec_outcome_fits(command: Option<Command>, r: Option<KeyOutcome>) -> bool {
    match (command, r) {
        (None, None) => true,
        (Some(Command::ToggleMute), Some(KeyOutcome::Mute { before, after })) => after
            == before.spec_toggle_mute(),
        (Some(Command::ToggleTempMute), Some(KeyOutcome::TempMute { before, after })) => after
            == before.spec_toggle_temp_mute(),
        (Some(Command::ToggleAuto), Some(KeyOutcome::Auto { before, after })) => after
            == before.spec_toggle_auto(),
        (Some(Command::ToggleTempAuto), Some(KeyOutcome::TempAuto { before, after })) => after
            == before.spec_toggle_temp_auto(),
        (Some(Command::ToggleThieving), Some(KeyOutcome::Thieving { before, after })) => after
            == !before,
        (Some(Command::Quit), Some(KeyOutcome::Quit)) => true,
        _ => false,
    }
}

/// Turns keyboard events into changes of the shared state.
pub struct KeyboardKeyPressProcessor {
    shared_app_state: Arc<SharedState>,
    app_state: CurrentState,
}

impl KeyboardKeyPressProcessor {
    pub closed spec fn spec_app_state(&self) -> CurrentState {
        self.app_state
    }

    pub fn new(shared_app_state: Arc<SharedState>) -> (r: KeyboardKeyPressProcessor)
        ensures
            r.spec_app_state().wf(),
    {
        let app_state = shared_app_state.snapshot();
        KeyboardKeyPressProcessor { shared_app_state, app_state }
    }

    /// Takes a fresh copy of the shared state.
    pub fn update_app_state(&mut self)
        ensures
            final(self).spec_app_state().wf(),
    {
        let state = self.shared_app_state.snapshot();
        self.app_state.update_from(&state);
    }

    /// Whether the shared state was running when last copied.
    pub fn is_running(&self) -> (r: bool)
        ensures
            r == self.spec_app_state().is_running,
    {
        self.app_state.is_running
    }

    /// Carries out the command of `event` on the shared state and returns what it did:
    /// for a toggle, the value read and the value written. Each toggle reads and writes in
    /// two separate steps.
    pub fn process_event(&self, event: &KeyEvent) -> (r: Option<KeyOutcome>)
        ensures
            spec_outcome_fits(spec_command_of(*event), r),
    {
        match command_of(event) {
            Some(Command::ToggleMute) => {
                let (before, after) = self.shared_app_state.toggle_mute();
                Some(KeyOutcome::Mute { before, after })
            },
            Some(Command::ToggleTempMute) => {
                let (before, after) = self.shared_app_state.toggle_temp_mute();
                Some(KeyOutcome::TempMute { before, after })
            },
            Some(Command::ToggleAuto) => {
                let (before, after) = self.shared_app_state.toggle_auto();
                Some(KeyOutcome::Auto { before, after })
            },
            Some(Command::ToggleTempAuto) => {
                let (before, after) = self.shared_app_state.toggle_temp_auto();
                Some(KeyOutcome::TempAuto { before, after })
            },
            Some(Command::ToggleThieving) => {
                let (before, after) = self.shared_app_state.toggle_thieving();
                Some(KeyOutcome::Thieving { before, after })
            },
            Some(Command::Quit) => {
                self.shared_app_state.stop();
                Some(KeyOutcome::Quit)
            },
            None => None,
        }
    }

    /// Handles one event: refreshes the copy of the shared state, then acts on the event.
    /// After a quit the copy is no longer running, so the key loop ends without waiting
    /// for another key.
    pub fn update(&mut self, event: &KeyEvent) -> (r: Option<KeyOutcome>)
        ensures
            spec_outcome_fits(spec_command_of(*event), r),
            r == Some(KeyOutcome::Quit) ==> !final(self).spec_app_state().is_running,
            final(self).spec_app_state().wf(),
    {
        self.update_app_state();
        let r = self.process_event(event);
        if r == Some(KeyOutcome::Quit) {
            self.app_state.is_running = false;
        }
        r
    }
}

} // verus!
