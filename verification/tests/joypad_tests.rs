use dendynes::joypad::{Joypad, JoypadButtons};

#[test]
fn joypad_reports_buttons_from_a_to_right() {
    let mut pad = Joypad::new();
    pad.press_button(JoypadButtons::from_bits(JoypadButtons::A));
    pad.press_button(JoypadButtons::from_bits(JoypadButtons::START));
    pad.press_button(JoypadButtons::from_bits(JoypadButtons::RIGHT));
    pad.write();
    let reads: Vec<u8> = (0..8).map(|_| pad.read()).collect();
    assert_eq!(reads, vec![1, 0, 0, 1, 0, 0, 0, 1]);
    assert_eq!(pad.read(), 0);
}

#[test]
fn pressing_and_releasing_changes_only_the_named_buttons() {
    let mut pad = Joypad::new();
    assert_eq!(pad.buttons_pressed, JoypadButtons::empty());
    pad.press_button(JoypadButtons::from_bits(JoypadButtons::A | JoypadButtons::B));
    pad.release_button(JoypadButtons::from_bits(JoypadButtons::B | JoypadButtons::UP));
    assert_eq!(pad.buttons_pressed.bits(), JoypadButtons::A);
    assert!(pad.buttons_pressed.contains(JoypadButtons::from_bits(JoypadButtons::A)));
    assert!(!pad.buttons_pressed.contains(JoypadButtons::from_bits(JoypadButtons::B)));
    assert_eq!(pad.read(), 0);
    pad.write();
    pad.release_button(JoypadButtons::from_bits(JoypadButtons::A));
    assert_eq!(pad.read(), 1);
    assert_eq!(pad.read(), 0);
}

#[test]
fn button_sets() {
    let mut set = JoypadButtons::empty();
    set.insert(JoypadButtons::from_bits(JoypadButtons::LEFT));
    set.insert(JoypadButtons::from_bits(JoypadButtons::SELECT | JoypadButtons::DOWN));
    assert_eq!(set.bits(), 0b0010_0110);
    set.remove(JoypadButtons::from_bits(JoypadButtons::LEFT | JoypadButtons::RIGHT));
    assert_eq!(set.bits(), 0b0010_0100);
    assert!(set.contains(JoypadButtons::from_bits(0b0010_0100)));
    assert!(!set.contains(JoypadButtons::from_bits(0b0010_0101)));
}
