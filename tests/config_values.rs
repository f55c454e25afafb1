use mlv_screensaver::config::{
    AutoControlMode, Config, CurrentHpState, CurrentState, MuteOptions,
};

#[test]
fn threshold_is_min_share_of_max() {
    let mut config = Config { max_hp: 100, min_hp: 20, volume_percent: 50, signal_threshold: 0 };
    assert!(config.update_signal_threshold());
    assert_eq!(config.signal_threshold, 20);
    assert_eq!(config.volume_percent, 50);
    assert_eq!(Config::signal_threshold_for(99, 50), Some(50));
    assert_eq!(Config::signal_threshold_for(3, 1), Some(33));
}

#[test]
fn threshold_undefined_without_max() {
    let mut config = Config { max_hp: 0, min_hp: 20, volume_percent: 50, signal_threshold: 7 };
    assert!(!config.update_signal_threshold());
    assert_eq!(config.signal_threshold, 7);
    assert_eq!(Config::signal_threshold_for(0, 0), None);
}

#[test]
fn threshold_that_overflows_is_undefined() {
    assert_eq!(Config::signal_threshold_for(1, u32::MAX), None);
    assert_eq!(Config::signal_threshold_for(100, u32::MAX), Some(u32::MAX));
}

#[test]
fn default_config_is_zero() {
    assert_eq!(
        Config::default(),
        Config { max_hp: 0, min_hp: 0, volume_percent: 0, signal_threshold: 0 }
    );
}

#[test]
fn mute_key_cycles_between_muted_and_unmuted() {
    let first = MuteOptions::Unmute.toggle_mute();
    assert_eq!(first, MuteOptions::Mute);
    assert_eq!(first.toggle_mute(), MuteOptions::Unmute);
    assert_eq!(MuteOptions::TempMute.toggle_mute(), MuteOptions::Mute);
}

#[test]
fn temp_mute_key_transitions() {
    assert_eq!(MuteOptions::Mute.toggle_temp_mute(), MuteOptions::TempMute);
    assert_eq!(MuteOptions::TempMute.toggle_temp_mute(), MuteOptions::Unmute);
    assert_eq!(MuteOptions::Unmute.toggle_temp_mute(), MuteOptions::TempMute);
}

#[test]
fn auto_keys_transitions() {
    assert_eq!(AutoControlMode::Off.toggle_auto(), AutoControlMode::On);
    assert_eq!(AutoControlMode::On.toggle_auto(), AutoControlMode::Off);
    assert_eq!(AutoControlMode::Temporarily.toggle_auto(), AutoControlMode::On);
    assert_eq!(AutoControlMode::Off.toggle_temp_auto(), AutoControlMode::Temporarily);
    assert_eq!(AutoControlMode::On.toggle_temp_auto(), AutoControlMode::Temporarily);
    assert_eq!(AutoControlMode::Temporarily.toggle_temp_auto(), AutoControlMode::Off);
}

#[test]
fn labels() {
    assert_eq!(AutoControlMode::On.label(), "On");
    assert_eq!(AutoControlMode::Off.label(), "Off");
    assert_eq!(AutoControlMode::Temporarily.label(), "Temporarily");
    assert_eq!(MuteOptions::Mute.label(), "Yes");
    assert_eq!(MuteOptions::TempMute.label(), "Temporarily");
    assert_eq!(MuteOptions::Unmute.label(), "No");
}

#[test]
fn health_comparisons_are_exact() {
    let high = CurrentHpState::Hp { full: 99, total: 100 };
    assert!(high.is_high());
    assert!(!CurrentHpState::Hp { full: 98, total: 99 }.is_high());
    assert!(CurrentHpState::Hp { full: 199, total: 200 }.is_high());
    assert!(CurrentHpState::Hp { full: 15, total: 100 }.is_below(20));
    assert!(!CurrentHpState::Hp { full: 20, total: 100 }.is_below(20));
    assert!(!CurrentHpState::BarNotFound.is_below(100));
    assert!(!CurrentHpState::BarNotFound.is_high());
    assert!(CurrentHpState::Hp { full: u32::MAX - 1, total: u32::MAX }.is_below(100));
}

#[test]
fn state_defaults_and_copies() {
    let d = CurrentState::default();
    assert_eq!(d.hp, CurrentHpState::Hp { full: 0, total: 1 });
    assert!(!d.on_top_replica_found);
    assert_eq!(d.is_muted, MuteOptions::Unmute);
    assert_eq!(d.auto_control, AutoControlMode::Off);
    assert!(!d.is_thieving_active);
    assert!(d.is_running);
    let other = CurrentState { is_muted: MuteOptions::Mute, is_running: false, ..d };
    let mut copy = d;
    copy.update_from(&other);
    assert_eq!(copy, other);
    assert_eq!(CurrentState::from(&other), other);
}
