use vstd::prelude::*;
use vstd::rwlock::{RwLock, RwLockPredicate};

use crate::automatization::{apply_action, Action};
use crate::config::{AutoControlMode, CurrentHpState, CurrentState, MuteOptions};

verus! {

/// What the lock holds at all times: a well-formed state.
pub struct StateIsWellFormed;

impl RwLockPredicate<CurrentState> for StateIsWellFormed {
    open spec fn inv(self, v: CurrentState) -> bool {
        v.wf()
    }
}

/// The world state that the engine, the display and the keyboard share. Readers may
/// overlap; each write holds the lock alone for one short step, and no step holds it
/// across outside work, so every read sees a state some step wrote, whole.
pub struct SharedState {
    lock: RwLock<CurrentState, StateIsWellFormed>,
}

impl SharedState {
    pub fn new(initial: CurrentState) -> (r: SharedState)
        requires
            initial.wf(),
    {
        SharedState { lock: RwLock::new(initial, Ghost(StateIsWellFormed)) }
    }

    /// A copy of the whole state as one writer left it.
    pub fn snapshot(&self) -> (r: CurrentState)
        ensures
            r.wf(),
    {
        let handle = self.lock.acquire_read();
        let state = *handle.borrow();
        handle.release_read();
        state
    }

    /// Carries out the write that `action` stands for; other actions leave the state alone.
    pub fn apply(&self, action: &Action)
        requires
            action.wf(),
    {
        let (mut state, handle) = self.lock.acquire_write();
        apply_action(&mut state, action);
        handle.release_write(state);
    }

    pub fn set_hp(&self, hp: CurrentHpState)
        requires
            hp.wf(),
    {
        let (mut state, handle) = self.lock.acquire_write();
        state.hp = hp;
        handle.release_write(state);
    }

    pub fn set_window_found(&self, found: bool) {
        let (mut state, handle) = self.lock.acquire_write();
        state.on_top_replica_found = found;
        handle.release_write(state);
    }

    pub fn set_muted(&self, mode: MuteOptions) {
        let (mut state, handle) = self.lock.acquire_write();
        state.is_muted = mode;
        handle.release_write(state);
    }

    pub fn set_auto_control(&self, mode: AutoControlMode) {
        let (mut state, handle) = self.lock.acquire_write();
        state.auto_control = mode;
        handle.release_write(state);
    }

    pub fn set_thieving_active(&self, active: bool) {
        let (mut state, handle) = self.lock.acquire_write();
        state.is_thieving_active = active;
        handle.release_write(state);
    }

    /// Asks every loop to finish.
    pub fn stop(&self) {
        let (mut state, handle) = self.lock.acquire_write();
        state.is_running = false;
        handle.release_write(state);
    }

    pub fn is_running(&self) -> bool {
        self.snapshot().is_running
    }

    fn read_muted(&self) -> MuteOptions {
        let (state, handle) = self.lock.acquire_write();
        let mode = state.is_muted;
        handle.release_write(state);
        mode
    }

    fn read_auto_control(&self) -> AutoControlMode {
        let (state, handle) = self.lock.acquire_write();
        let mode = state.auto_control;
        handle.release_write(state);
        mode
    }

    /// Applies the mute key: reads the mode, then writes its toggle in a second step, so
    /// another writer may come in between. Returns the mode read and the mode written.
    pub fn toggle_mute(&self) -> (r: (MuteOptions, MuteOptions))
        ensures
            r.1 == r.0.spec_toggle_mute(),
    {
        let before = self.read_muted();
        let after = before.toggle_mute();
        self.set_muted(after);
        (before, after)
    }

    /// Applies the temporary-mute key, in two steps as `toggle_mute` does.
    pub fn toggle_temp_mute(&self) -> (r: (MuteOptions, MuteOptions))
        ensures
            r.1 == r.0.spec_toggle_temp_mute(),
    {
        let before = self.read_muted();
        let after = before.toggle_temp_mute();
        self.set_muted(after);
        (before, after)
    }

    /// Applies the auto-mode key, in two steps as `toggle_mute` does.
    pub fn toggle_auto(&self) -> (r: (AutoControlMode, AutoControlMode))
        ensures
            r.1 == r.0.spec_toggle_auto(),
    {
        let before = self.read_auto_control();
        let after = before.toggle_auto();
        self.set_auto_control(after);
        (before, after)
    }

    /// Applies the temporary-auto key, in two steps as `toggle_mute` does.
    pub fn toggle_temp_auto(&self) -> (r: (AutoControlMode, AutoControlMode))
        ensures
            r.1 == r.0.spec_toggle_temp_auto(),
    {
        let before = self.read_auto_control();
        let after = before.toggle_temp_auto();
        self.set_auto_control(after);
        (before, after)
    }

    /// Flips the thieving-active flag, in two steps as `toggle_mute` does.
    pub fn toggle_thieving(&self) -> (r: (bool, bool))
        ensures
            r.1 == !r.0,
    {
        let before = self.snapshot().is_thieving_active;
        self.set_thieving_active(!before);
        (before, !before)
    }
}

} // verus!
