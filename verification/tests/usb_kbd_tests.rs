use clawtype_chords::keycodes::{CTRL_FLAG, DELETE, SHIFT_FLAG};
use clawtype_chords::usb_kbd::{as_modifier_mask, split_key_with_flags, Error, StateReport};

#[test]
fn modifier_masks() {
    assert_eq!(as_modifier_mask(224), Some(0b0000_0001)); // Left Ctrl
    assert_eq!(as_modifier_mask(225), Some(0b0000_0010)); // Left Shift
    assert_eq!(as_modifier_mask(231), Some(0b1000_0000)); // Right GUI
    assert_eq!(as_modifier_mask(223), None);
    assert_eq!(as_modifier_mask(232), None);
    assert_eq!(as_modifier_mask(4), None); // the letter A
}

#[test]
fn press_and_release_ordinary_keys() {
    let mut rep = StateReport::default();
    assert_eq!(rep.press(4), Ok(()));
    assert_eq!(rep.keycode(0), 4);
    assert_eq!(rep.press(5), Ok(()));
    assert_eq!(rep.keycode(1), 5);
    // pressing a held key again is refused
    assert_eq!(rep.press(4), Err(Error::AlreadyPressed));
    // releasing empties the slot, which the next press reuses
    assert_eq!(rep.release(4), Ok(()));
    assert_eq!(rep.keycode(0), 0);
    assert_eq!(rep.press(6), Ok(()));
    assert_eq!(rep.keycode(0), 6);
    // releasing a key that is not held is refused
    assert_eq!(rep.release(4), Err(Error::AlreadyReleased));
}

#[test]
fn press_overflow() {
    let mut rep = StateReport::default();
    for key in 4..10 {
        assert_eq!(rep.press(key), Ok(()));
    }
    assert_eq!(rep.press(10), Err(Error::TooManyKeysPressed));
    // a modifier still fits: it lives in the modifier byte, not a slot
    assert_eq!(rep.press(224), Ok(()));
    assert_eq!(rep.modifier(), 1);
}

#[test]
fn press_and_release_modifiers() {
    let mut rep = StateReport::default();
    assert_eq!(rep.press(224), Ok(())); // Left Ctrl
    assert_eq!(rep.press(226), Ok(())); // Left Alt
    assert_eq!(rep.modifier(), 0b0000_0101);
    assert_eq!(rep.press(224), Err(Error::AlreadyPressed));
    assert_eq!(rep.release(224), Ok(()));
    assert_eq!(rep.modifier(), 0b0000_0100);
    assert_eq!(rep.release(224), Err(Error::AlreadyReleased));
}

#[test]
fn clear_empties_the_report() {
    let mut rep = StateReport::default();
    assert_eq!(rep.press(4), Ok(()));
    assert_eq!(rep.press(224), Ok(()));
    rep.clear();
    assert_eq!(rep.modifier(), 0);
    for i in 0..6 {
        assert_eq!(rep.keycode(i), 0);
    }
}

#[test]
fn split_into_modifier_and_keycode() {
    assert_eq!(split_key_with_flags(DELETE | CTRL_FLAG), (0x01, 76));
    assert_eq!(split_key_with_flags(SHIFT_FLAG | 4), (0x02, 4));
    assert_eq!(split_key_with_flags(0), (0, 0));
    assert_eq!(split_key_with_flags(0xFFFF), (0xFF, 0xFF));
}
