use vstd::prelude::*;

verus! {

/// Whether a low-health alert may sound.
#[derive(Debug, Clone, Copy, PartialEq, Eq, Structural)]
pub enum MuteOptions {
    Mute,
    /// Suppresses alerts until the next low-health cycle clears it.
    TempMute,
    Unmute,
}

impl MuteOptions {
    pub open spec fn spec_toggle_mute(self) -> MuteOptions {
        match self {
            MuteOptions::Mute => MuteOptions::Unmute,
            MuteOptions::TempMute => MuteOptions::Mute,
            MuteOptions::Unmute => MuteOptions::Mute,
        }
    }

    pub open spec fn spec_toggle_temp_mute(self) -> MuteOptions {
        match self {
            MuteOptions::Mute => MuteOptions::TempMute,
            MuteOptions::TempMute => MuteOptions::Unmute,
            MuteOptions::Unmute => MuteOptions::TempMute,
        }
    }

    /// The mode after the mute key: any unmuted state becomes muted, muted becomes unmuted.
    pub fn toggle_mute(self) -> (r: MuteOptions)
        ensures
            r == self.spec_toggle_mute(),
    {
        match self {
            MuteOptions::Mute => MuteOptions::Unmute,
            MuteOptions::TempMute => MuteOptions::Mute,
            MuteOptions::Unmute => MuteOptions::Mute,
        }
    }

    /// The answer shown for "muted".
    pub fn label(&self) -> (r: &'static str)
        ensures
            *self == MuteOptions::Mute ==> r@ == "Yes"@,
            *self == MuteOptions::TempMute ==> r@ == "Temporarily"@,
            *self == MuteOptions::Unmute ==> r@ == "No"@,
    {
        match self {
            MuteOptions::Mute => "Yes",
            MuteOptions::TempMute => "Temporarily",
            MuteOptions::Unmute => "No",
        }
    }

    /// The mode after the temporary-mute key.
    pub fn toggle_temp_mute(self) -> (r: MuteOptions)
        ensures
            r == self.spec_toggle_temp_mute(),
    {
        match self {
            MuteOptions::Mute => MuteOptions::TempMute,
            MuteOptions::TempMute => MuteOptions::Unmute,
            MuteOptions::Unmute => MuteOptions::TempMute,
        }
    }
}

impl Default for MuteOptions {
    fn default() -> (r: MuteOptions)
        ensures
            r == MuteOptions::Unmute,
    {
        MuteOptions::Unmute
    }
}

/// Whether the engine starts and stops the automated action by itself.
#[derive(Debug, Clone, Copy, PartialEq, Eq, Structural)]
pub enum AutoControlMode {
    On,
    Off,
    /// Like `On`, but falls back to `Off` once the action is stopped for low health.
    Temporarily,
}

impl AutoControlMode {
    pub open spec fn spec_toggle_auto(self) -> AutoControlMode {
        match self {
            AutoControlMode::Off => AutoControlMode::On,
            AutoControlMode::On => AutoControlMode::Off,
            AutoControlMode::Temporarily => AutoControlMode::On,
        }
    }

    pub open spec fn spec_toggle_temp_auto(self) -> AutoControlMode {
        match self {
            AutoControlMode::Off => AutoControlMode::Temporarily,
            AutoControlMode::On => AutoControlMode::Temporarily,
            AutoControlMode::Temporarily => AutoControlMode::Off,
        }
    }

    pub open spec fn is_engaging(self) -> bool {
        self == AutoControlMode::On || self == AutoControlMode::Temporarily
    }

    /// The mode after the auto-mode key.
    pub fn toggle_auto(self) -> (r: AutoControlMode)
        ensures
            r == self.spec_toggle_auto(),
    {
        match self {
            AutoControlMode::Off => AutoControlMode::On,
            AutoControlMode::On => AutoControlMode::Off,
            AutoControlMode::Temporarily => AutoControlMode::On,
        }
    }

    /// The mode after the temporary-auto key.
    pub fn toggle_temp_auto(self) -> (r: AutoControlMode)
        ensures
            r == self.spec_toggle_temp_auto(),
    {
        match self {
            AutoControlMode::Off => AutoControlMode::Temporarily,
            AutoControlMode::On => AutoControlMode::Temporarily,
            AutoControlMode::Temporarily => AutoControlMode::Off,
        }
    }

    /// The name shown for the mode.
    pub fn label(&self) -> (r: &'static str)
        ensures
            *self == AutoControlMode::On ==> r@ == "On"@,
            *self == AutoControlMode::Off ==> r@ == "Off"@,
            *self == AutoControlMode::Temporarily ==> r@ == "Temporarily"@,
    {
        match self {
            AutoControlMode::On => "On",
            AutoControlMode::Off => "Off",
            AutoControlMode::Temporarily => "Temporarily",
        }
    }
}

impl Default for AutoControlMode {
    fn default() -> (r: AutoControlMode)
        ensures
            r == AutoControlMode::Off,
    {
        AutoControlMode::Off
    }
}

/// Health percentage from which the bar counts as full.
pub const HIGH_HP_PERCENT: u32 = 99;

/// The last health sample: the share of full-color pixels on the bar, or no bar at all.
///
/// `Hp { full, total }` stands for the percentage `100 * full / total`, kept as an exact ratio.
#[derive(Debug, Clone, Copy, PartialEq, Eq, Structural)]
pub enum CurrentHpState {
    Hp { full: u32, total: u32 },
    BarNotFound,
}

impl CurrentHpState {
    pub open spec fn wf(self) -> bool {
        match self {
            CurrentHpState::Hp { full, total } => 0 < total && full <= total,
            CurrentHpState::BarNotFound => true,
        }
    }

    /// A reading of at least `percent` percent.
    pub open spec fn at_least(self, percent: int) -> bool {
        match self {
            CurrentHpState::Hp { full, total } => 100 * full >= percent * total,
            CurrentHpState::BarNotFound => false,
        }
    }

    /// A reading below `percent` percent.
    pub open spec fn below(self, percent: int) -> bool {
        match self {
            CurrentHpState::Hp { full, total } => 100 * full < percent * total,
            CurrentHpState::BarNotFound => false,
        }
    }

    /// The reading is 99% or more.
    pub fn is_high(&self) -> (r: bool)
        ensures
            r == self.at_least(HIGH_HP_PERCENT as int),
    {
        match self {
            CurrentHpState::Hp { full, total } => {
                proof {
                    assert((HIGH_HP_PERCENT as u64) * (*total as u64) <= 99 * 0xffff_ffff)
                        by (nonlinear_arith)
                        requires
                            HIGH_HP_PERCENT == 99,
                            *total <= 0xffff_ffff,
                    ;
                }
                100 * (*full as u64) >= (HIGH_HP_PERCENT as u64) * (*total as u64)
            },
            CurrentHpState::BarNotFound => false,
        }
    }

    /// The reading is below `threshold` percent.
    pub fn is_below(&self, threshold: u32) -> (r: bool)
        ensures
            r == self.below(threshold as int),
    {
        match self {
            CurrentHpState::Hp { full, total } => {
                proof {
                    assert((threshold as u64) * (*total as u64) <= 0xffff_ffff * 0xffff_ffff)
                        by (nonlinear_arith)
                        requires
                            threshold <= 0xffff_ffff,
                            *total <= 0xffff_ffff,
                    ;
                }
                100 * (*full as u64) < (threshold as u64) * (*total as u64)
            },
            CurrentHpState::BarNotFound => false,
        }
    }
}

impl Default for CurrentHpState {
    fn default() -> (r: CurrentHpState)
        ensures
            r == (CurrentHpState::Hp { full: 0, total: 1 }),
    {
        CurrentHpState::Hp { full: 0, total: 1 }
    }
}

/// The health bounds and alert volume the engine runs with.
#[derive(Debug, Clone, Copy, PartialEq, Eq, Structural)]
pub struct Config {
    pub max_hp: u32,
    pub min_hp: u32,
    /// Alert volume in percent of full loudness.
    pub volume_percent: u32,
    /// Percentage below which health counts as low.
    pub signal_threshold: u32,
}

/// `min_hp * 100 / max_hp`, where it is defined and fits in a `u32`.
pub open spec fn spec_signal_threshold(max_hp: u32, min_hp: u32) -> Option<u32> {
    if max_hp == 0 || (min_hp as int) * 100 / (max_hp as int) > u32::MAX {
        None
    } else {
        Some(((min_hp as int) * 100 / (max_hp as int)) as u32)
    }
}

impl Config {
    /// The low-health threshold in percent for the given bounds.
    pub fn signal_threshold_for(max_hp: u32, min_hp: u32) -> (r: Option<u32>)
        ensures
            r == spec_signal_threshold(max_hp, min_hp),
    {
        if max_hp == 0 {
            return None;
        }
        let t: u64 = (min_hp as u64) * 100 / (max_hp as u64);
        if t > u32::MAX as u64 {
            None
        } else {
            Some(t as u32)
        }
    }

    /// Sets `signal_threshold` from the bounds; leaves the config unchanged and returns
    /// false where the threshold is undefined.
    pub fn update_signal_threshold(&mut self) -> (r: bool)
        ensures
            r == spec_signal_threshold(old(self).max_hp, old(self).min_hp).is_some(),
            r ==> *final(self) == (Config {
                signal_threshold: spec_signal_threshold(old(self).max_hp, old(self).min_hp).unwrap(),
                ..*old(self)
            }),
            !r ==> *final(self) == *old(self),
    {
        match Config::signal_threshold_for(self.max_hp, self.min_hp) {
            Some(t) => {
                self.signal_threshold = t;
                true
            },
            None => false,
        }
    }
}

impl Default for Config {
    /// The all-zero config used when none was saved.
    fn default() -> (r: Config)
        ensures
            r == (Config { max_hp: 0, min_hp: 0, volume_percent: 0, signal_threshold: 0 }),
    {
        Config { max_hp: 0, min_hp: 0, volume_percent: 0, signal_threshold: 0 }
    }
}

/// One consistent picture of the world, shared by the engine, the display and the keyboard.
#[derive(Debug, Clone, Copy, PartialEq, Eq, Structural)]
pub struct CurrentState {
    pub hp: CurrentHpState,
    pub on_top_replica_found: bool,
    pub is_muted: MuteOptions,
    pub auto_control: AutoControlMode,
    pub is_thieving_active: bool,
    pub is_running: bool,
}

impl CurrentState {
    pub open spec fn wf(self) -> bool {
        self.hp.wf()
    }

    /// Copies every field of `other`.
    pub fn update_from(&mut self, other: &CurrentState)
        ensures
            *final(self) == *other,
    {
        self.hp = other.hp;
        self.on_top_replica_found = other.on_top_replica_found;
        self.is_muted = other.is_muted;
        self.auto_control = other.auto_control;
        self.is_thieving_active = other.is_thieving_active;
        self.is_running = other.is_running;
    }
}

impl Default for CurrentState {
    fn default() -> (r: CurrentState)
        ensures
            r == (CurrentState {
                hp: CurrentHpState::Hp { full: 0, total: 1 },
                on_top_replica_found: false,
                is_muted: MuteOptions::Unmute,
                auto_control: AutoControlMode::Off,
                is_thieving_active: false,
                is_running: true,
            }),
            r.wf(),
    {
        CurrentState {
            hp: CurrentHpState::default(),
            on_top_replica_found: false,
            is_muted: MuteOptions::default(),
            auto_control: AutoControlMode::default(),
            is_thieving_active: false,
            is_running: true,
        }
    }
}

impl<'a> From<&'a CurrentState> for CurrentState {
    fn from(other: &'a CurrentState) -> (r: CurrentState)
        ensures
            r == *other,
    {
        *other
    }
}

impl<'a> vstd::std_specs::convert::FromSpecImpl<&'a CurrentState> for CurrentState {
    open spec fn obeys_from_spec() -> bool {
        true
    }

    open spec fn from_spec(other: &'a CurrentState) -> CurrentState {
        *other
    }
}

} // verus!
