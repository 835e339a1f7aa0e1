use delta_pico_sim::input::{
    button_mapping, fuzz_candidates, random_fuzz_button, scan_keys, ButtonEvent, ButtonInput,
    KeyMapping, PhysicalKey,
};
use delta_pico_sim::simulator::{Simulator, SimulatorConfig};

fn sim(fuzz: bool) -> Simulator {
    Simulator::new(SimulatorConfig { run_tests: false, fuzz })
}

#[test]
fn shift_eight_is_multiply() {
    let s = sim(false);
    let r = s.scan_keyboard(&vec![PhysicalKey::Key8], true);
    assert_eq!(r, Some(ButtonEvent::Press(ButtonInput::Multiply)));
}

#[test]
fn plain_eight_is_digit() {
    let s = sim(false);
    let r = s.scan_keyboard(&vec![PhysicalKey::Key8], false);
    assert_eq!(r, Some(ButtonEvent::Press(ButtonInput::Digit(8))));
}

#[test]
fn shift_six_is_power_and_shift_equal_is_add() {
    let table = button_mapping();
    assert_eq!(scan_keys(&table, &vec![PhysicalKey::Key6], true), Some(ButtonInput::Power));
    assert_eq!(scan_keys(&table, &vec![PhysicalKey::Equal], true), Some(ButtonInput::Add));
    assert_eq!(scan_keys(&table, &vec![PhysicalKey::Equal], false), None);
}

#[test]
fn unshifted_line_does_not_fire_with_shift_held() {
    let table = button_mapping();
    assert_eq!(scan_keys(&table, &vec![PhysicalKey::Left], true), None);
    assert_eq!(scan_keys(&table, &vec![PhysicalKey::Left], false), Some(ButtonInput::MoveLeft));
}

#[test]
fn nothing_pressed_gives_none() {
    let s = sim(false);
    assert_eq!(s.scan_keyboard(&Vec::new(), false), None);
    assert_eq!(s.scan_keyboard(&Vec::new(), true), None);
}

#[test]
fn earlier_line_wins_when_two_fire() {
    let table = button_mapping();
    // Right is listed after Left; order of the pressed keys does not matter.
    let pressed = vec![PhysicalKey::Period, PhysicalKey::Right, PhysicalKey::Left];
    assert_eq!(scan_keys(&table, &pressed, false), Some(ButtonInput::MoveLeft));
    let pressed = vec![PhysicalKey::Backspace, PhysicalKey::Key3];
    assert_eq!(scan_keys(&table, &pressed, false), Some(ButtonInput::Digit(3)));
}

#[test]
fn both_brackets_give_parentheses() {
    let table = button_mapping();
    assert_eq!(scan_keys(&table, &vec![PhysicalKey::LeftBracket], false), Some(ButtonInput::Parentheses));
    assert_eq!(scan_keys(&table, &vec![PhysicalKey::RightBracket], false), Some(ButtonInput::Parentheses));
}

#[test]
fn layout_has_every_line_in_order() {
    let table = button_mapping();
    assert_eq!(table.len(), 27);
    assert_eq!(table[0], KeyMapping { shifted: false, key: PhysicalKey::Left, input: ButtonInput::MoveLeft });
    assert_eq!(table[5].input, ButtonInput::Menu);
    assert_eq!(table[23], KeyMapping { shifted: true, key: PhysicalKey::Key8, input: ButtonInput::Multiply });
    assert_eq!(table[26].input, ButtonInput::Point);
}

#[test]
fn fuzz_candidates_drop_only_menu() {
    let table = button_mapping();
    let c = fuzz_candidates(&table);
    assert_eq!(c.len(), 26);
    assert!(!c.contains(&ButtonInput::Menu));
    assert_eq!(c[0], ButtonInput::MoveLeft);
    assert_eq!(c[5], ButtonInput::List);
}

#[test]
fn fuzz_starts_with_exe_then_never_menu() {
    let mut s = sim(true);
    assert!(s.is_fuzzing());
    assert_eq!(s.fuzz_input(), ButtonEvent::Press(ButtonInput::Exe));
    let table = button_mapping();
    for _ in 0..2000 {
        let ButtonEvent::Press(b) = s.fuzz_input();
        assert_ne!(b, ButtonInput::Menu);
        assert!(table.iter().any(|e| e.input == b));
    }
}

#[test]
fn random_draw_from_single_candidate() {
    let table = vec![
        KeyMapping { shifted: false, key: PhysicalKey::Escape, input: ButtonInput::Menu },
        KeyMapping { shifted: true, key: PhysicalKey::Key6, input: ButtonInput::Power },
        KeyMapping { shifted: false, key: PhysicalKey::Escape, input: ButtonInput::Menu },
    ];
    for _ in 0..50 {
        assert_eq!(random_fuzz_button(&table), ButtonInput::Power);
    }
}

#[test]
fn poll_event_is_always_none() {
    let mut s = sim(false);
    assert_eq!(s.poll_event(), None);
    let mut f = sim(true);
    assert_eq!(f.poll_event(), None);
}
