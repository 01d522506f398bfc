use digital_rain::input::{Command, Key, KeyPress, Modifiers};

const NONE: Modifiers = Modifiers { shift: false, control: false, alt: false };
const SHIFT: Modifiers = Modifiers { shift: true, control: false, alt: false };
const CONTROL: Modifiers = Modifiers { shift: false, control: true, alt: false };
const ALT: Modifiers = Modifiers { shift: false, control: false, alt: true };

fn press(c: char, modifiers: Modifiers) -> KeyPress {
    KeyPress { key: Key::Char(c), modifiers }
}

#[test]
fn digit_zero_selects_the_fastest_speed() {
    assert_eq!(press('0', NONE).command(), Command::Speed(10));
}

#[test]
fn other_digits_select_their_value() {
    let digits = ['1', '2', '3', '4', '5', '6', '7', '8', '9'];
    for (i, d) in digits.iter().enumerate() {
        assert_eq!(press(*d, NONE).command(), Command::Speed(i as u16 + 1));
    }
}

#[test]
fn digits_count_whatever_is_held_down() {
    assert_eq!(press('3', SHIFT).command(), Command::Speed(3));
    assert_eq!(press('3', CONTROL).command(), Command::Speed(3));
    assert_eq!(press('0', ALT).command(), Command::Speed(10));
}

#[test]
fn plain_x_quits() {
    assert_eq!(press('x', NONE).command(), Command::Quit);
}

#[test]
fn x_with_a_modifier_is_ignored() {
    assert_eq!(press('x', SHIFT).command(), Command::Ignore);
    assert_eq!(press('x', CONTROL).command(), Command::Ignore);
    assert_eq!(press('x', ALT).command(), Command::Ignore);
}

#[test]
fn control_c_quits() {
    assert_eq!(press('c', CONTROL).command(), Command::Quit);
    let both = Modifiers { shift: true, control: true, alt: false };
    assert_eq!(press('c', both).command(), Command::Quit);
}

#[test]
fn c_without_control_is_ignored() {
    assert_eq!(press('c', NONE).command(), Command::Ignore);
    assert_eq!(press('c', SHIFT).command(), Command::Ignore);
    assert_eq!(press('c', ALT).command(), Command::Ignore);
}

#[test]
fn other_keys_are_ignored() {
    assert_eq!(press('q', NONE).command(), Command::Ignore);
    assert_eq!(press('X', NONE).command(), Command::Ignore);
    assert_eq!(press('/', NONE).command(), Command::Ignore);
    assert_eq!(press(':', NONE).command(), Command::Ignore);
    assert_eq!(press('\u{FF10}', NONE).command(), Command::Ignore);
    assert_eq!(KeyPress { key: Key::Other, modifiers: NONE }.command(), Command::Ignore);
    assert_eq!(KeyPress { key: Key::Other, modifiers: CONTROL }.command(), Command::Ignore);
}
