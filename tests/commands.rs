use std::sync::Arc;

use mlv_screensaver::config::{AutoControlMode, CurrentState, MuteOptions};
use mlv_screensaver::interface::{
    command_of, Command, KeyCode, KeyEvent, KeyEventKind, KeyOutcome, KeyboardKeyPressProcessor,
};
use mlv_screensaver::shared::SharedState;

fn press(c: char) -> KeyEvent {
    KeyEvent { code: KeyCode::Char(c), kind: KeyEventKind::Press }
}

fn setup() -> (Arc<SharedState>, KeyboardKeyPressProcessor) {
    let shared = Arc::new(SharedState::new(CurrentState::default()));
    let processor = KeyboardKeyPressProcessor::new(shared.clone());
    (shared, processor)
}

#[test]
fn mute_key_twice_from_unmuted() {
    let (shared, mut processor) = setup();
    assert_eq!(
        processor.update(&press('m')),
        Some(KeyOutcome::Mute { before: MuteOptions::Unmute, after: MuteOptions::Mute })
    );
    assert_eq!(shared.snapshot().is_muted, MuteOptions::Mute);
    assert_eq!(
        processor.update(&press('M')),
        Some(KeyOutcome::Mute { before: MuteOptions::Mute, after: MuteOptions::Unmute })
    );
    assert_eq!(shared.snapshot().is_muted, MuteOptions::Unmute);
}

#[test]
fn escape_and_t_toggle_temporary_mute() {
    let (shared, mut processor) = setup();
    let esc = KeyEvent { code: KeyCode::Esc, kind: KeyEventKind::Press };
    assert_eq!(
        processor.update(&esc),
        Some(KeyOutcome::TempMute { before: MuteOptions::Unmute, after: MuteOptions::TempMute })
    );
    assert_eq!(shared.snapshot().is_muted, MuteOptions::TempMute);
    processor.update(&press('t'));
    assert_eq!(shared.snapshot().is_muted, MuteOptions::Unmute);
    processor.update(&press('m'));
    processor.update(&press('T'));
    assert_eq!(shared.snapshot().is_muted, MuteOptions::TempMute);
}

#[test]
fn auto_keys_change_the_mode() {
    let (shared, mut processor) = setup();
    processor.update(&press('a'));
    assert_eq!(shared.snapshot().auto_control, AutoControlMode::On);
    assert_eq!(
        processor.update(&press('s')),
        Some(KeyOutcome::TempAuto {
            before: AutoControlMode::On,
            after: AutoControlMode::Temporarily,
        })
    );
    assert_eq!(shared.snapshot().auto_control, AutoControlMode::Temporarily);
    processor.update(&press('A'));
    assert_eq!(shared.snapshot().auto_control, AutoControlMode::On);
    processor.update(&press('a'));
    assert_eq!(shared.snapshot().auto_control, AutoControlMode::Off);
    processor.update(&press('S'));
    processor.update(&press('s'));
    assert_eq!(shared.snapshot().auto_control, AutoControlMode::Off);
}

#[test]
fn action_key_flips_the_flag() {
    let (shared, mut processor) = setup();
    assert_eq!(
        processor.update(&press('b')),
        Some(KeyOutcome::Thieving { before: false, after: true })
    );
    assert!(shared.snapshot().is_thieving_active);
    processor.update(&press('B'));
    assert!(!shared.snapshot().is_thieving_active);
}

#[test]
fn quit_key_stops_every_loop() {
    let (shared, mut processor) = setup();
    assert!(processor.is_running());
    assert_eq!(processor.update(&press('q')), Some(KeyOutcome::Quit));
    assert!(!shared.is_running());
    assert!(!processor.is_running());
}

#[test]
fn releases_and_other_keys_do_nothing() {
    let (shared, mut processor) = setup();
    let release = KeyEvent { code: KeyCode::Char('m'), kind: KeyEventKind::Release };
    assert_eq!(processor.update(&release), None);
    assert_eq!(processor.update(&press('x')), None);
    let other = KeyEvent { code: KeyCode::Other, kind: KeyEventKind::Press };
    assert_eq!(processor.update(&other), None);
    assert_eq!(shared.snapshot(), CurrentState::default());
}

#[test]
fn repeats_do_nothing() {
    let repeat = KeyEvent { code: KeyCode::Char('q'), kind: KeyEventKind::Repeat };
    assert_eq!(command_of(&repeat), None);
    let (shared, mut processor) = setup();
    assert_eq!(processor.update(&repeat), None);
    assert!(shared.is_running());
    assert!(processor.is_running());
}

#[test]
fn russian_layout_aliases() {
    assert_eq!(command_of(&press('ь')), Some(Command::ToggleMute));
    assert_eq!(command_of(&press('Ь')), Some(Command::ToggleMute));
    assert_eq!(command_of(&press('е')), Some(Command::ToggleTempMute));
    assert_eq!(command_of(&press('Ф')), Some(Command::ToggleAuto));
    assert_eq!(command_of(&press('ы')), Some(Command::ToggleTempAuto));
    assert_eq!(command_of(&press('И')), Some(Command::ToggleThieving));
    assert_eq!(command_of(&press('й')), Some(Command::Quit));
}
