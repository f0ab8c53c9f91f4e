//! The trigger daemon's re-arm protocol, simulated tick by tick.

use cleave::hotkey::parse_hotkey;
use cleave::trigger::{interpret_spawn, Daemon, DaemonError, KeyAction, SpawnOutcome};
use cleave::keys::KeyCode;

fn down(key: KeyCode) -> KeyAction {
    KeyAction { key, pressed: true }
}

fn up(key: KeyCode) -> KeyAction {
    KeyAction { key, pressed: false }
}

#[test]
fn one_shot_fires_exactly_once_while_held() {
    let hotkey = parse_hotkey("Shift+X", false).unwrap();
    let mut d = Daemon::new(hotkey, false);
    assert!(d.tick(&vec![down(KeyCode::ShiftLeft), down(KeyCode::KeyX)]));
    // the key stays held: later ticks see no new edges and must not re-fire.
    assert!(!d.tick(&vec![]));
    assert!(!d.tick(&vec![]));
    // even a fresh press cannot re-fire a one-shot daemon.
    assert!(!d.tick(&vec![up(KeyCode::KeyX), up(KeyCode::ShiftLeft)]));
    assert!(!d.tick(&vec![down(KeyCode::ShiftLeft), down(KeyCode::KeyX)]));
}

#[test]
fn persistent_refires_after_release_and_repress() {
    let hotkey = parse_hotkey("Shift+X", false).unwrap();
    let mut d = Daemon::new(hotkey, true);
    assert!(d.tick(&vec![down(KeyCode::ShiftLeft), down(KeyCode::KeyX)]));
    // held across ticks: no re-fire.
    assert!(!d.tick(&vec![]));
    // releasing and pressing the combination again fires a second time.
    assert!(!d.tick(&vec![up(KeyCode::KeyX), up(KeyCode::ShiftLeft)]));
    assert!(d.tick(&vec![down(KeyCode::ShiftLeft), down(KeyCode::KeyX)]));
}

#[test]
fn explicit_rearm_restores_a_one_shot_daemon() {
    let hotkey = parse_hotkey("Shift+X", false).unwrap();
    let mut d = Daemon::new(hotkey, false);
    assert!(d.tick(&vec![down(KeyCode::ShiftLeft), down(KeyCode::KeyX)]));
    assert!(!d.tick(&vec![down(KeyCode::ShiftLeft), down(KeyCode::KeyX)]));
    d.start_listening();
    // the last tick's edges are still in the pressed set.
    assert!(d.tick(&vec![]));
}

#[test]
fn edges_update_the_pressed_set() {
    let hotkey = parse_hotkey("Shift+X", false).unwrap();
    let mut d = Daemon::new(hotkey, false);
    d.apply_edge(down(KeyCode::ShiftLeft));
    d.apply_edge(down(KeyCode::KeyX));
    d.apply_edge(up(KeyCode::KeyX));
    // the main key was released before the poll: no match.
    assert!(!d.get_pressed());
    d.apply_edge(down(KeyCode::KeyX));
    assert!(d.get_pressed());
    // the fire cleared the set and disarmed the daemon.
    assert!(!d.get_pressed());
}

#[test]
fn spawn_outcomes_map_to_the_daemon_taxonomy() {
    assert_eq!(interpret_spawn(SpawnOutcome::Started), Ok(()));
    assert_eq!(
        interpret_spawn(SpawnOutcome::NotFound),
        Err(DaemonError::SpawnNotFound)
    );
    assert_eq!(
        interpret_spawn(SpawnOutcome::Failed("boom".to_string())),
        Err(DaemonError::SpawnFailed("boom".to_string()))
    );
}
