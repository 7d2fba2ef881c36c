use coderadio::ui::{
    apply_volume_key, clamp_volume, command, handle_key, Command, KeyEvent, UiState, CLOCK_START,
    DEBOUNCE,
};

fn raw(volume: u8, prev: Option<u8>) -> UiState {
    UiState {
        playing: true,
        volume,
        prev,
        song: String::new(),
        quit: false,
    }
}

fn press(c: char) -> KeyEvent {
    KeyEvent {
        pressed: true,
        char: Some(c),
        control: false,
    }
}

#[test]
fn zero_toggles_mute_and_restores_previous() {
    let mut s = raw(80, None);
    assert_eq!(apply_volume_key(&mut s, '0'), 0, "mute sets 0");
    assert_eq!(s.prev, Some(80), "remembers previous volume");
    assert_eq!(
        apply_volume_key(&mut s, '0'),
        80,
        "unmute restores previous"
    );
}

#[test]
fn zero_unmute_with_no_previous_falls_back_to_100() {
    let mut s = raw(0, None); // already muted, never set
    assert_eq!(apply_volume_key(&mut s, '0'), 100, "no previous -> 100");
}

#[test]
fn digit_records_prev_then_zero_cycles() {
    let mut s = raw(0, None);
    assert_eq!(apply_volume_key(&mut s, '9'), 100);
    assert_eq!(s.prev, Some(100));
    assert_eq!(apply_volume_key(&mut s, '0'), 0, "mute");
    assert_eq!(
        apply_volume_key(&mut s, '0'),
        100,
        "restore to remembered 100"
    );
}

#[test]
fn digit_overrides_mute_state() {
    let mut s = raw(0, Some(80));
    assert_eq!(
        apply_volume_key(&mut s, '3'),
        33,
        "digit sets a concrete volume"
    );
    assert_eq!(s.prev, Some(33), "becomes new restore point");
}

#[test]
fn every_digit_is_the_rounded_share() {
    for (i, c) in ('1'..='9').enumerate() {
        let d = i + 1;
        let mut s = raw(50, None);
        let rounded = (d as f32 * 100.0 / 9.0).round() as u8;
        assert_eq!(apply_volume_key(&mut s, c), rounded, "digit {d}");
    }
    let volumes: Vec<u8> = ('1'..='9')
        .map(|c| apply_volume_key(&mut raw(0, None), c))
        .collect();
    assert_eq!(volumes, vec![11, 22, 33, 44, 56, 67, 78, 89, 100]);
}

#[test]
fn unmuting_twice_is_silent() {
    let mut s = raw(0, None);
    apply_volume_key(&mut s, '0');
    assert_eq!(apply_volume_key(&mut s, '0'), 0);
    assert_eq!(s.prev, Some(100));
}

#[test]
fn unmuting_forgets_what_it_restored() {
    let mut s = raw(0, Some(40));
    assert_eq!(apply_volume_key(&mut s, '0'), 40);
    assert_eq!(s.prev, None);
}

#[test]
fn other_characters_change_no_volume() {
    let mut s = raw(42, Some(7));
    for c in ['a', ' ', 'c', '/', ':', '٣'] {
        assert_eq!(apply_volume_key(&mut s, c), 42);
    }
    assert_eq!(s.prev, Some(7));
    assert!(s.playing && !s.quit);
}

#[test]
fn start_up_state() {
    let s = UiState::new(70);
    assert!(s.playing && !s.quit);
    assert_eq!((s.volume, s.prev), (70, None));
    assert_eq!(s.song, "");
    assert_eq!(UiState::new(255).volume, 100);
    assert_eq!(UiState::new(0).volume, 0);
    assert_eq!(clamp_volume(99), 99);
    assert_eq!(clamp_volume(100), 100);
    assert_eq!(clamp_volume(101), 100);
}

#[test]
fn commands_of_keys() {
    assert!(matches!(command(&press(' ')), Command::TogglePlay));
    assert!(matches!(command(&press('0')), Command::ToggleMute));
    assert!(matches!(command(&press('1')), Command::SetVolume('1')));
    assert!(matches!(command(&press('9')), Command::SetVolume('9')));
    assert!(matches!(command(&press('c')), Command::Ignore));
    assert!(matches!(command(&press('x')), Command::Ignore));
    let ctrl_c = KeyEvent {
        control: true,
        ..press('c')
    };
    assert!(matches!(command(&ctrl_c), Command::Quit));
    let ctrl_space = KeyEvent {
        control: true,
        ..press(' ')
    };
    assert!(matches!(command(&ctrl_space), Command::TogglePlay));
    let arrow = KeyEvent {
        pressed: true,
        char: None,
        control: false,
    };
    assert!(matches!(command(&arrow), Command::Ignore));
    let released = KeyEvent {
        pressed: false,
        ..press(' ')
    };
    assert!(matches!(command(&released), Command::Ignore));
}

#[test]
fn space_toggles_and_phantom_presses_do_not() {
    let mut s = raw(80, None);
    let mut last = 0;
    let t = CLOCK_START;
    assert_eq!(handle_key(&mut s, &mut last, &press(' '), t), None);
    assert!(!s.playing);
    assert_eq!(last, t);
    assert_eq!(
        handle_key(&mut s, &mut last, &press(' '), t + DEBOUNCE - 1),
        None
    );
    assert!(!s.playing, "too soon");
    assert_eq!(last, t);
    handle_key(&mut s, &mut last, &press(' '), t + DEBOUNCE);
    assert!(s.playing);
}

#[test]
fn mute_shares_the_debounce_with_space() {
    let mut s = raw(80, None);
    let mut last = 0;
    let t = CLOCK_START;
    handle_key(&mut s, &mut last, &press(' '), t);
    assert_eq!(
        handle_key(&mut s, &mut last, &press('0'), t + 1_000_000),
        None
    );
    assert_eq!(s.volume, 80);
    assert_eq!(
        handle_key(&mut s, &mut last, &press('0'), t + 200_000_000),
        Some(0)
    );
    assert_eq!((s.volume, s.prev), (0, Some(80)));
    assert_eq!(handle_key(&mut s, &mut last, &press('0'), 0), None);
}

#[test]
fn digits_are_not_debounced() {
    let mut s = raw(80, None);
    let mut last = 5;
    assert_eq!(handle_key(&mut s, &mut last, &press('5'), 6), Some(56));
    assert_eq!(handle_key(&mut s, &mut last, &press('1'), 6), Some(11));
    assert_eq!(last, 5);
}

#[test]
fn control_c_quits() {
    let mut s = raw(80, None);
    let mut last = 0;
    let ctrl_c = KeyEvent {
        control: true,
        ..press('c')
    };
    assert_eq!(handle_key(&mut s, &mut last, &press('c'), CLOCK_START), None);
    assert!(!s.quit);
    assert_eq!(handle_key(&mut s, &mut last, &ctrl_c, CLOCK_START), None);
    assert!(s.quit);
}

#[test]
fn held_keys_do_nothing_more() {
    let mut s = raw(80, None);
    let mut last = 0;
    for c in [' ', '0', '7', 'c'] {
        let held = KeyEvent {
            pressed: false,
            char: Some(c),
            control: true,
        };
        assert_eq!(handle_key(&mut s, &mut last, &held, CLOCK_START), None);
    }
    assert!(s.playing && !s.quit);
    assert_eq!(s.volume, 80);
}
