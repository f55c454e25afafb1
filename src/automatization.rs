use vstd::prelude::*;

use crate::config::{
    AutoControlMode, Config, CurrentHpState, CurrentState, MuteOptions, HIGH_HP_PERCENT,
};

verus! {

/// Delay before the click that stops the automated action, so that the game tells it
/// apart from the click that started it.
pub const STOP_CLICK_DELAY_MS: u64 = 3000;

/// Pause after a low-health alert, while the sound plays and health is still low.
pub const LOW_HP_SLEEP_MS: u64 = 3000;

/// One step of a cycle's outcome, carried out in order by the caller.
#[derive(Debug, Clone, Copy, PartialEq, Eq, Structural)]
pub enum Action {
    /// Write the thieving-active flag of the shared state.
    SetThievingActive(bool),
    /// Write the auto-control mode of the shared state.
    SetAutoControl(AutoControlMode),
    /// Write the mute mode of the shared state.
    SetMute(MuteOptions),
    /// Write the health reading of the shared state.
    SetHp(CurrentHpState),
    /// Wait `delay_ms`, then click the left button at `(x, y)`.
    Click { x: i32, y: i32, delay_ms: u64 },
    PlayHighHpAlert,
    PlayLowHpAlert,
    /// Wait `ms` before the next cycle.
    Sleep { ms: u64 },
}

impl Action {
    pub open spec fn wf(self) -> bool {
        match self {
            Action::SetHp(hp) => hp.wf(),
            _ => true,
        }
    }
}

/// What an action does to the shared state.
pub open spec fn spec_apply_action(s: CurrentState, a: Action) -> CurrentState {
    match a {
        Action::SetThievingActive(b) => CurrentState { is_thieving_active: b, ..s },
        Action::SetAutoControl(m) => CurrentState { auto_control: m, ..s },
        Action::SetMute(m) => CurrentState { is_muted: m, ..s },
        Action::SetHp(hp) => CurrentState { hp: hp, ..s },
        _ => s,
    }
}

/// The state after a run of actions, where no one else writes meanwhile.
pub open spec fn spec_apply_actions(s: CurrentState, actions: Seq<Action>) -> CurrentState
    decreases actions.len(),
{
    if actions.len() == 0 {
        s
    } else {
        spec_apply_action(spec_apply_actions(s, actions.drop_last()), actions.last())
    }
}

/// Applying two runs of actions one after the other.
pub proof fn lemma_apply_concat(s: CurrentState, a: Seq<Action>, b: Seq<Action>)
    ensures
        spec_apply_actions(s, a + b) == spec_apply_actions(spec_apply_actions(s, a), b),
    decreases b.len(),
{
    if b.len() > 0 {
        assert((a + b).drop_last() =~= a + b.drop_last());
        lemma_apply_concat(s, a, b.drop_last());
    }
}

proof fn lemma_apply_one(s: CurrentState, a: Action)
    ensures
        spec_apply_actions(s, seq![a]) == spec_apply_action(s, a),
{
    assert(seq![a].drop_last() =~= Seq::<Action>::empty());
    assert(spec_apply_actions(s, Seq::<Action>::empty()) == s);
    assert(seq![a].last() == a);
}

pub open spec fn writes_auto_control(a: Action) -> bool {
    a is SetAutoControl
}

pub open spec fn writes_thieving(a: Action) -> bool {
    a is SetThievingActive
}

pub open spec fn writes_mute(a: Action) -> bool {
    a is SetMute
}

/// A field that no action of a run writes keeps its value.
pub proof fn lemma_apply_frame(s: CurrentState, actions: Seq<Action>)
    ensures
        (forall|i: int| 0 <= i < actions.len() ==> !writes_auto_control(#[trigger] actions[i]))
            ==> spec_apply_actions(s, actions).auto_control == s.auto_control,
        (forall|i: int| 0 <= i < actions.len() ==> !writes_thieving(#[trigger] actions[i]))
            ==> spec_apply_actions(s, actions).is_thieving_active == s.is_thieving_active,
        (forall|i: int| 0 <= i < actions.len() ==> !writes_mute(#[trigger] actions[i]))
            ==> spec_apply_actions(s, actions).is_muted == s.is_muted,
    decreases actions.len(),
{
    if actions.len() > 0 {
        let rest = actions.drop_last();
        lemma_apply_frame(s, rest);
        assert forall|i: int| 0 <= i < rest.len() implies rest[i] == actions[i] by {}
        assert(actions.last() == actions[actions.len() - 1]);
    }
}

/// Carries out on `state` the part of `action` that writes state.
pub fn apply_action(state: &mut CurrentState, action: &Action)
    ensures
        *final(state) == spec_apply_action(*old(state), *action),
{
    match action {
        Action::SetThievingActive(b) => state.is_thieving_active = *b,
        Action::SetAutoControl(m) => state.auto_control = *m,
        Action::SetMute(m) => state.is_muted = *m,
        Action::SetHp(hp) => state.hp = *hp,
        _ => {},
    }
}

/// The engine: turns each health sample into alerts, clicks and writes to the shared state.
pub struct AutoControl {
    pub config: Config,
    pub thieving_switch_button_coords: [i32; 2],
    pub tick_rate_ms: u64,
    /// Set once the high-health alert played; cleared when health falls below the threshold.
    pub high_hp_notified: bool,
    /// The engine's view of the shared state in the current cycle.
    pub app_state: CurrentState,
}

impl AutoControl {
    pub open spec fn click_action(self, delay_ms: u64) -> Action {
        Action::Click {
            x: self.thieving_switch_button_coords@[0],
            y: self.thieving_switch_button_coords@[1],
            delay_ms,
        }
    }

    /// What starting the automated action does: nothing unless auto mode is on and the
    /// action is idle; then mark it active and click at once.
    pub open spec fn spec_start_actions(self) -> Seq<Action> {
        if self.app_state.auto_control.is_engaging() && !self.app_state.is_thieving_active {
            seq![Action::SetThievingActive(true), self.click_action(0)]
        } else {
            Seq::empty()
        }
    }

    /// What stopping the automated action does: where it is active, drop temporary auto
    /// mode to off, click after the delay and mark it idle, whatever the mode.
    pub open spec fn spec_stop_actions(self) -> Seq<Action> {
        let s = self.app_state;
        (if s.auto_control == AutoControlMode::Temporarily && s.is_thieving_active {
            seq![Action::SetAutoControl(AutoControlMode::Off)]
        } else {
            Seq::empty()
        }) + (if s.is_thieving_active {
            seq![self.click_action(STOP_CLICK_DELAY_MS), Action::SetThievingActive(false)]
        } else {
            Seq::empty()
        })
    }
}

impl AutoControl {
    /// The engine as starting the automated action leaves it.
    pub open spec fn spec_after_start(self) -> AutoControl {
        if self.app_state.auto_control.is_engaging() && !self.app_state.is_thieving_active {
            AutoControl {
                app_state: CurrentState { is_thieving_active: true, ..self.app_state },
                ..self
            }
        } else {
            self
        }
    }

    /// The engine as stopping the automated action leaves it.
    pub open spec fn spec_after_stop(self) -> AutoControl {
        if self.app_state.is_thieving_active {
            AutoControl {
                app_state: CurrentState { is_thieving_active: false, ..self.app_state },
                ..self
            }
        } else {
            self
        }
    }

    pub open spec fn is_low(self, hp: CurrentHpState) -> bool {
        hp.below(self.config.signal_threshold as int)
    }

    /// The engine at the start of a cycle that saw `snapshot` of the shared state.
    pub open spec fn spec_begin(self, snapshot: CurrentState) -> AutoControl {
        AutoControl { app_state: snapshot, ..self }
    }

    /// The cycle's actions at 99% or more: start the action and, unless already done in
    /// this stretch, play the high-health alert.
    pub open spec fn spec_high_part(self, snapshot: CurrentState, hp: CurrentHpState) -> Seq<
        Action,
    > {
        if hp.at_least(HIGH_HP_PERCENT as int) {
            self.spec_begin(snapshot).spec_start_actions() + if !self.high_hp_notified {
                seq![Action::PlayHighHpAlert]
            } else {
                Seq::empty()
            }
        } else {
            Seq::empty()
        }
    }

    /// The engine's view of the shared state once the high-health part is done.
    pub open spec fn spec_state_after_high(self, snapshot: CurrentState, hp: CurrentHpState) -> CurrentState {
        if hp.at_least(HIGH_HP_PERCENT as int) {
            self.spec_begin(snapshot).spec_after_start().app_state
        } else {
            snapshot
        }
    }

    /// The alert part of a low-health cycle: the alert where unmuted, the end of a
    /// temporary mute.
    pub open spec fn spec_low_alert_part(mute: MuteOptions) -> Seq<Action> {
        (if mute == MuteOptions::Unmute {
            seq![Action::PlayLowHpAlert]
        } else {
            Seq::empty()
        }) + (if mute == MuteOptions::TempMute {
            seq![Action::SetMute(MuteOptions::Unmute)]
        } else {
            Seq::empty()
        })
    }

    /// The cycle's actions below the threshold: stop the action, play the low-health alert
    /// where unmuted, end a temporary mute.
    pub open spec fn spec_low_part(self, snapshot: CurrentState, hp: CurrentHpState) -> Seq<
        Action,
    > {
        if self.is_low(hp) {
            self.spec_begin(self.spec_state_after_high(snapshot, hp)).spec_stop_actions()
                + AutoControl::spec_low_alert_part(snapshot.is_muted)
        } else {
            Seq::empty()
        }
    }

    /// The pause before the next cycle: the low-alert pause where that alert played, else
    /// one tick.
    pub open spec fn spec_sleep_ms(self, snapshot: CurrentState, hp: CurrentHpState) -> u64 {
        if self.is_low(hp) && snapshot.is_muted == MuteOptions::Unmute {
            LOW_HP_SLEEP_MS
        } else {
            self.tick_rate_ms
        }
    }

    /// What a cycle with reading `hp` does, in order: the high-health part, the low-health
    /// part, then record the reading and sleep.
    pub open spec fn spec_cycle_actions(self, snapshot: CurrentState, hp: CurrentHpState) -> Seq<
        Action,
    > {
        self.spec_high_part(snapshot, hp) + self.spec_low_part(snapshot, hp) + seq![
            Action::SetHp(hp),
            Action::Sleep { ms: self.spec_sleep_ms(snapshot, hp) },
        ]
    }

    /// The high-health latch after a cycle with reading `hp`.
    pub open spec fn spec_cycle_latch(self, hp: CurrentHpState) -> bool {
        if self.is_low(hp) {
            false
        } else if hp.at_least(HIGH_HP_PERCENT as int) {
            true
        } else {
            self.high_hp_notified
        }
    }

    /// The engine's view of the shared state after a cycle.
    pub open spec fn spec_cycle_state(self, snapshot: CurrentState, hp: CurrentHpState) -> CurrentState {
        let s1 = self.spec_state_after_high(snapshot, hp);
        if self.is_low(hp) {
            self.spec_begin(s1).spec_after_stop().app_state
        } else {
            s1
        }
    }

    /// An engine that has not played the high-health alert yet.
    pub fn new(
        config: Config,
        thieving_switch_button_coords: [i32; 2],
        tick_rate_ms: u64,
        app_state: &CurrentState,
    ) -> (r: AutoControl)
        ensures
            r == (AutoControl {
                config,
                thieving_switch_button_coords,
                tick_rate_ms,
                high_hp_notified: false,
                app_state: *app_state,
            }),
    {
        AutoControl {
            config,
            thieving_switch_button_coords,
            tick_rate_ms,
            high_hp_notified: false,
            app_state: *app_state,
        }
    }

    fn click(&self, delay_ms: u64) -> (a: Action)
        ensures
            a == self.click_action(delay_ms),
    {
        Action::Click {
            x: self.thieving_switch_button_coords[0],
            y: self.thieving_switch_button_coords[1],
            delay_ms,
        }
    }

    /// Appends what stopping the automated action does.
    pub fn stop_thieving(&mut self, actions: &mut Vec<Action>)
        ensures
            final(actions)@ == old(actions)@ + old(self).spec_stop_actions(),
            *final(self) == old(self).spec_after_stop(),
    {
        let mode = self.app_state.auto_control;
        let active = self.app_state.is_thieving_active;
        if mode == AutoControlMode::Temporarily && active {
            actions.push(Action::SetAutoControl(AutoControlMode::Off));
        }
        if active {
            let click = self.click(STOP_CLICK_DELAY_MS);
            actions.push(click);
            actions.push(Action::SetThievingActive(false));
            self.app_state.is_thieving_active = false;
        }
        assert(final(actions)@ =~= old(actions)@ + old(self).spec_stop_actions());
    }

    /// Appends what starting the automated action does.
    fn start_thieving(&mut self, actions: &mut Vec<Action>)
        ensures
            final(actions)@ == old(actions)@ + old(self).spec_start_actions(),
            *final(self) == old(self).spec_after_start(),
    {
        let mode = self.app_state.auto_control;
        if (mode == AutoControlMode::On || mode == AutoControlMode::Temporarily)
            && !self.app_state.is_thieving_active {
            self.app_state.is_thieving_active = true;
            actions.push(Action::SetThievingActive(true));
            let click = self.click(0);
            actions.push(click);
        }
        assert(final(actions)@ =~= old(actions)@ + old(self).spec_start_actions());
    }

    /// Appends the high-health part of a cycle whose view of the shared state is set.
    fn plan_high(&mut self, hp: CurrentHpState, actions: &mut Vec<Action>)
        ensures
            final(actions)@ == old(actions)@ + old(self).spec_high_part(old(self).app_state, hp),
            final(self).app_state == old(self).spec_state_after_high(old(self).app_state, hp),
            final(self).high_hp_notified == (old(self).high_hp_notified || hp.at_least(
                HIGH_HP_PERCENT as int,
            )),
            final(self).config == old(self).config,
            final(self).thieving_switch_button_coords == old(self).thieving_switch_button_coords,
            final(self).tick_rate_ms == old(self).tick_rate_ms,
    {
        let ghost e = *old(self);
        assert(e.spec_begin(e.app_state) == e);
        if hp.is_high() {
            self.start_thieving(actions);
            if !self.high_hp_notified {
                self.high_hp_notified = true;
                actions.push(Action::PlayHighHpAlert);
            }
        }
        assert(final(actions)@ =~= old(actions)@ + e.spec_high_part(e.app_state, hp));
    }

    /// Appends the low-health part of a cycle and returns the pause before the next one;
    /// `snapshot` is the shared state as read at the start of the cycle.
    fn plan_low(&mut self, snapshot: &CurrentState, hp: CurrentHpState, actions: &mut Vec<Action>) -> (sleep_ms: u64)
        requires
            old(self).app_state.is_muted == snapshot.is_muted,
        ensures
            final(actions)@ == old(actions)@ + if old(self).is_low(hp) {
                old(self).spec_stop_actions() + AutoControl::spec_low_alert_part(snapshot.is_muted)
            } else {
                Seq::empty()
            },
            sleep_ms == old(self).spec_sleep_ms(*snapshot, hp),
            final(self).app_state == if old(self).is_low(hp) {
                old(self).spec_after_stop().app_state
            } else {
                old(self).app_state
            },
            final(self).high_hp_notified == (old(self).high_hp_notified && !old(self).is_low(hp)),
            final(self).config == old(self).config,
            final(self).thieving_switch_button_coords == old(self).thieving_switch_button_coords,
            final(self).tick_rate_ms == old(self).tick_rate_ms,
    {
        let ghost e = *old(self);
        let mut sleep_ms = self.tick_rate_ms;
        if hp.is_below(self.config.signal_threshold) {
            self.stop_thieving(actions);
            self.high_hp_notified = false;
            if self.app_state.is_muted == MuteOptions::Unmute {
                actions.push(Action::PlayLowHpAlert);
                sleep_ms = LOW_HP_SLEEP_MS;
            }
            if self.app_state.is_muted == MuteOptions::TempMute {
                actions.push(Action::SetMute(MuteOptions::Unmute));
            }
        }
        assert(final(actions)@ =~= old(actions)@ + if e.is_low(hp) {
            e.spec_stop_actions() + AutoControl::spec_low_alert_part(snapshot.is_muted)
        } else {
            Seq::empty()
        });
        sleep_ms
    }

    /// Decides one cycle from the shared state as read at its start and a fresh reading.
    pub fn plan_cycle(&mut self, snapshot: &CurrentState, hp: CurrentHpState) -> (actions: Vec<
        Action,
    >)
        ensures
            actions@ == old(self).spec_cycle_actions(*snapshot, hp),
            final(self).high_hp_notified == old(self).spec_cycle_latch(hp),
            final(self).app_state == old(self).spec_cycle_state(*snapshot, hp),
            final(self).config == old(self).config,
            final(self).thieving_switch_button_coords == old(self).thieving_switch_button_coords,
            final(self).tick_rate_ms == old(self).tick_rate_ms,
    {
        let ghost e = *old(self);
        self.app_state.update_from(snapshot);
        let mut actions: Vec<Action> = Vec::new();
        self.plan_high(hp, &mut actions);
        let ghost high_part = actions@;
        let sleep_ms = self.plan_low(snapshot, hp, &mut actions);
        actions.push(Action::SetHp(hp));
        actions.push(Action::Sleep { ms: sleep_ms });
        assert(actions@ =~= e.spec_cycle_actions(*snapshot, hp));
        actions
    }
}

/// Runs the stop actions of an engine whose view has the action running.
proof fn lemma_apply_stop(e: AutoControl, s: CurrentState)
    requires
        e.app_state.is_thieving_active,
    ensures
        !spec_apply_actions(s, e.spec_stop_actions()).is_thieving_active,
        e.app_state.auto_control == AutoControlMode::Temporarily ==> spec_apply_actions(
            s,
            e.spec_stop_actions(),
        ).auto_control == AutoControlMode::Off,
        spec_apply_actions(s, e.spec_stop_actions()).is_muted == s.is_muted,
{
    let first: Seq<Action> = if e.app_state.auto_control == AutoControlMode::Temporarily {
        seq![Action::SetAutoControl(AutoControlMode::Off)]
    } else {
        Seq::empty()
    };
    let click = e.click_action(STOP_CLICK_DELAY_MS);
    assert(e.spec_stop_actions() =~= first + seq![click] + seq![Action::SetThievingActive(false)]);
    lemma_apply_concat(s, first + seq![click], seq![Action::SetThievingActive(false)]);
    lemma_apply_concat(s, first, seq![click]);
    let s1 = spec_apply_actions(s, first);
    if e.app_state.auto_control == AutoControlMode::Temporarily {
        lemma_apply_one(s, Action::SetAutoControl(AutoControlMode::Off));
    } else {
        assert(s1 == s);
    }
    lemma_apply_one(s1, click);
    lemma_apply_one(spec_apply_actions(s1, seq![click]), Action::SetThievingActive(false));
}

/// Neither the alert part of a low-health cycle nor its closing writes touch the action
/// or the auto mode.
proof fn lemma_apply_low_tail(
    s: CurrentState,
    mute: MuteOptions,
    hp: CurrentHpState,
    ms: u64,
)
    ensures
        ({
            let t = AutoControl::spec_low_alert_part(mute) + seq![
                Action::SetHp(hp),
                Action::Sleep { ms },
            ];
            &&& spec_apply_actions(s, t).auto_control == s.auto_control
            &&& spec_apply_actions(s, t).is_thieving_active == s.is_thieving_active
        }),
{
    let t = AutoControl::spec_low_alert_part(mute) + seq![Action::SetHp(hp), Action::Sleep { ms }];
    assert forall|i: int| 0 <= i < t.len() implies !writes_auto_control(#[trigger] t[i])
        && !writes_thieving(t[i]) by {}
    lemma_apply_frame(s, t);
}

/// Once temporary auto mode has the action running, a cycle with a reading below the
/// threshold leaves auto mode off and the action stopped, where nothing else writes the
/// shared state during the cycle.
pub proof fn lemma_temporary_auto_ends_on_low_hp(
    engine: AutoControl,
    snapshot: CurrentState,
    hp: CurrentHpState,
)
    requires
        snapshot.auto_control == AutoControlMode::Temporarily,
        snapshot.is_thieving_active,
        engine.is_low(hp),
    ensures
        spec_apply_actions(snapshot, engine.spec_cycle_actions(snapshot, hp)).auto_control
            == AutoControlMode::Off,
        !spec_apply_actions(snapshot, engine.spec_cycle_actions(snapshot, hp)).is_thieving_active,
        !engine.spec_cycle_state(snapshot, hp).is_thieving_active,
{
    let e0 = engine.spec_begin(snapshot);
    assert(engine.spec_state_after_high(snapshot, hp) == snapshot);
    let h = engine.spec_high_part(snapshot, hp);
    let stop = e0.spec_stop_actions();
    let tail = AutoControl::spec_low_alert_part(snapshot.is_muted) + seq![
        Action::SetHp(hp),
        Action::Sleep { ms: engine.spec_sleep_ms(snapshot, hp) },
    ];
    assert(engine.spec_cycle_actions(snapshot, hp) =~= h + stop + tail);
    lemma_apply_concat(snapshot, h + stop, tail);
    lemma_apply_concat(snapshot, h, stop);
    let s1 = spec_apply_actions(snapshot, h);
    lemma_apply_stop(e0, s1);
    lemma_apply_low_tail(
        spec_apply_actions(s1, stop),
        snapshot.is_muted,
        hp,
        engine.spec_sleep_ms(snapshot, hp),
    );
}

/// In a cycle whose reading is below the threshold, a temporary mute ends and the
/// low-health alert stays silent, where nothing else writes the shared state during the
/// cycle.
pub proof fn lemma_temporary_mute_ends_on_low_hp(
    engine: AutoControl,
    snapshot: CurrentState,
    hp: CurrentHpState,
)
    requires
        snapshot.is_muted == MuteOptions::TempMute,
        engine.is_low(hp),
    ensures
        spec_apply_actions(snapshot, engine.spec_cycle_actions(snapshot, hp)).is_muted
            == MuteOptions::Unmute,
        !engine.spec_cycle_actions(snapshot, hp).contains(Action::PlayLowHpAlert),
{
    let actions = engine.spec_cycle_actions(snapshot, hp);
    let hs = engine.spec_high_part(snapshot, hp) + engine.spec_begin(
        engine.spec_state_after_high(snapshot, hp),
    ).spec_stop_actions();
    let tail = seq![Action::SetHp(hp), Action::Sleep { ms: engine.spec_sleep_ms(snapshot, hp) }];
    let unmute = Action::SetMute(MuteOptions::Unmute);
    assert(actions =~= hs + seq![unmute] + tail);
    assert forall|i: int| 0 <= i < hs.len() implies !writes_mute(#[trigger] hs[i]) by {}
    assert forall|i: int| 0 <= i < tail.len() implies !writes_mute(#[trigger] tail[i]) by {}
    lemma_apply_frame(snapshot, hs);
    lemma_apply_concat(snapshot, hs + seq![unmute], tail);
    lemma_apply_concat(snapshot, hs, seq![unmute]);
    lemma_apply_one(spec_apply_actions(snapshot, hs), unmute);
    lemma_apply_frame(spec_apply_actions(snapshot, hs + seq![unmute]), tail);
    assert forall|i: int| 0 <= i < actions.len() implies actions[i] != Action::PlayLowHpAlert by {}
}

/// The high-health alert plays in a cycle exactly where the reading is 99% or more and
/// it has not played since health was last below the threshold.
pub proof fn lemma_high_hp_alert_when_unlatched(
    engine: AutoControl,
    snapshot: CurrentState,
    hp: CurrentHpState,
)
    ensures
        engine.spec_cycle_actions(snapshot, hp).contains(Action::PlayHighHpAlert) <==> (hp.at_least(
            HIGH_HP_PERCENT as int,
        ) && !engine.high_hp_notified),
{
    let actions = engine.spec_cycle_actions(snapshot, hp);
    let h = engine.spec_high_part(snapshot, hp);
    let start = engine.spec_begin(snapshot).spec_start_actions();
    let rest = engine.spec_low_part(snapshot, hp) + seq![
        Action::SetHp(hp),
        Action::Sleep { ms: engine.spec_sleep_ms(snapshot, hp) },
    ];
    assert(actions =~= h + rest);
    assert forall|i: int| 0 <= i < rest.len() implies rest[i] != Action::PlayHighHpAlert by {}
    assert forall|i: int| 0 <= i < start.len() implies start[i] != Action::PlayHighHpAlert by {}
    if hp.at_least(HIGH_HP_PERCENT as int) && !engine.high_hp_notified {
        assert(actions[start.len() as int] == Action::PlayHighHpAlert);
    } else {
        assert forall|i: int| 0 <= i < actions.len() implies actions[i] != Action::PlayHighHpAlert by {
            if i < h.len() {
                assert(h =~= start || !hp.at_least(HIGH_HP_PERCENT as int));
            }
        }
    }
}

/// The high-health latch after cycles with readings `readings`, the last one latest.
pub open spec fn spec_run_latch(engine: AutoControl, readings: Seq<CurrentHpState>) -> bool
    decreases readings.len(),
{
    if readings.len() == 0 {
        engine.high_hp_notified
    } else {
        AutoControl {
            high_hp_notified: spec_run_latch(engine, readings.drop_last()),
            ..engine
        }.spec_cycle_latch(readings.last())
    }
}

/// How many of the cycles with readings `readings` play the high-health alert.
pub open spec fn spec_run_high_alerts(engine: AutoControl, readings: Seq<CurrentHpState>) -> nat
    decreases readings.len(),
{
    if readings.len() == 0 {
        0
    } else {
        spec_run_high_alerts(engine, readings.drop_last()) + if readings.last().at_least(
            HIGH_HP_PERCENT as int,
        ) && !spec_run_latch(engine, readings.drop_last()) {
            1nat
        } else {
            0nat
        }
    }
}

/// Over a stretch of cycles none of whose readings is below the threshold, the high-health
/// alert plays at most once, and not at all where it had played before the stretch.
pub proof fn lemma_high_hp_alert_at_most_once(engine: AutoControl, readings: Seq<CurrentHpState>)
    requires
        forall|i: int| 0 <= i < readings.len() ==> !engine.is_low(#[trigger] readings[i]),
    ensures
        spec_run_high_alerts(engine, readings) <= 1,
        spec_run_high_alerts(engine, readings) == 1 ==> spec_run_latch(engine, readings),
        engine.high_hp_notified ==> spec_run_high_alerts(engine, readings) == 0 && spec_run_latch(
            engine,
            readings,
        ),
    decreases readings.len(),
{
    if readings.len() > 0 {
        let prev = readings.drop_last();
        assert forall|i: int| 0 <= i < prev.len() implies !engine.is_low(#[trigger] prev[i]) by {
            assert(prev[i] == readings[i]);
        }
        lemma_high_hp_alert_at_most_once(engine, prev);
        assert(!engine.is_low(readings[readings.len() - 1]));
    }
}

/// With auto mode on or temporary and the action idle, a cycle with a reading of 99% or
/// more that is not below the threshold marks the action active, clicks once at once,
/// plays the high-health alert unless it already played in this stretch, and records the
/// reading; where nothing else writes the shared state meanwhile, the action ends active
/// and the auto mode as it was.
pub proof fn lemma_full_health_starts_action(
    engine: AutoControl,
    snapshot: CurrentState,
    hp: CurrentHpState,
)
    requires
        snapshot.auto_control.is_engaging(),
        !snapshot.is_thieving_active,
        hp.at_least(HIGH_HP_PERCENT as int),
        !engine.is_low(hp),
    ensures
        engine.spec_cycle_actions(snapshot, hp) == seq![
            Action::SetThievingActive(true),
            engine.click_action(0),
        ] + (if engine.high_hp_notified {
            Seq::empty()
        } else {
            seq![Action::PlayHighHpAlert]
        }) + seq![Action::SetHp(hp), Action::Sleep { ms: engine.tick_rate_ms }],
        spec_apply_actions(snapshot, engine.spec_cycle_actions(snapshot, hp)).is_thieving_active,
        spec_apply_actions(snapshot, engine.spec_cycle_actions(snapshot, hp)).auto_control
            == snapshot.auto_control,
        engine.spec_cycle_state(snapshot, hp).is_thieving_active,
{
    let actions = engine.spec_cycle_actions(snapshot, hp);
    let first = Action::SetThievingActive(true);
    let rest = seq![engine.click_action(0)] + (if engine.high_hp_notified {
        Seq::empty()
    } else {
        seq![Action::PlayHighHpAlert]
    }) + seq![Action::SetHp(hp), Action::Sleep { ms: engine.tick_rate_ms }];
    assert(actions =~= seq![first] + rest);
    lemma_apply_concat(snapshot, seq![first], rest);
    lemma_apply_one(snapshot, first);
    assert forall|i: int| 0 <= i < rest.len() implies !writes_auto_control(#[trigger] rest[i])
        && !writes_thieving(rest[i]) by {}
    lemma_apply_frame(spec_apply_actions(snapshot, seq![first]), rest);
    lemma_apply_frame(snapshot, seq![first]);
}

} // verus!
