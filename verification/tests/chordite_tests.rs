use clawtype_chords::chordite::Chordite;
use clawtype_chords::chordite::UsbOutcome::{KeyHit as Hit, Nothing};
use clawtype_chords::keycodes::{
    self, ALT_FLAG, BACKSPACE, C, CTRL_FLAG, DELETE, E, ESC, GUI_FLAG, SHIFT_FLAG, UP,
};
use clawtype_chords::pattern::chord;
use clawtype_chords::SwitchSet;
use clawtype_chords::SwitchSet as S;

#[test]
fn zero() {
    let mut ch = Chordite::default();
    assert_eq!(ch.handle(SwitchSet(0)), Nothing);
}

#[test]
fn key_up_incremental_then_decremental_then_esc_instant() {
    let mut ch = Chordite::default();
    assert_eq!(ch.handle(S(0b00_10_00_00)), Nothing);
    assert_eq!(ch.handle(S(0b00_10_00_10)), Nothing);
    assert_eq!(ch.handle(S(0b00_10_00_11)), Nothing);
    assert_eq!(ch.handle(S(0b00_10_00_01)), Nothing);
    assert_eq!(ch.handle(S(0b00_00_00_01)), Nothing);
    assert_eq!(ch.handle(S(0)), Hit(UP));

    assert_eq!(ch.handle(S(chord("vvvv"))), Nothing);
    assert_eq!(ch.handle(S(0)), Hit(ESC));
}

#[test]
fn key_from_shift_layer() {
    let mut ch = Chordite::default();
    assert_eq!(ch.handle(S(chord("_v__"))), Nothing);
    assert_eq!(ch.handle(S(chord("_vv_"))), Nothing); // "shift"
    assert_eq!(ch.handle(S(0)), Nothing);
    // "shifted" key
    assert_eq!(ch.handle(S(chord("_^__"))), Nothing);
    assert_eq!(ch.handle(S(0)), Hit(DELETE));
    // back to "unshifted" key
    assert_eq!(ch.handle(S(chord("_^__"))), Nothing);
    assert_eq!(ch.handle(S(0)), Hit(BACKSPACE));
}

#[test]
fn upper_case_letter_from_shift_layer() {
    let mut ch = Chordite::default();
    assert_eq!(ch.handle(S(chord("_v__"))), Nothing);
    assert_eq!(ch.handle(S(chord("_vv_"))), Nothing); // "shift"
    assert_eq!(ch.handle(S(0)), Nothing);
    // "shifted" key
    assert_eq!(ch.handle(S(chord("___^"))), Nothing);
    assert_eq!(ch.handle(S(0)), Hit(E | SHIFT_FLAG));
    // back to "unshifted" key
    assert_eq!(ch.handle(S(chord("___^"))), Nothing);
    assert_eq!(ch.handle(S(0)), Hit(E));

    // another try

    assert_eq!(ch.handle(S(chord("_v__"))), Nothing);
    assert_eq!(ch.handle(S(chord("_vv_"))), Nothing); // "shift"
    assert_eq!(ch.handle(S(0)), Nothing);
    // "shifted" key
    assert_eq!(ch.handle(S(chord("__vv"))), Nothing);
    assert_eq!(ch.handle(S(0)), Hit(C | SHIFT_FLAG));
    // back to "unshifted" key
    assert_eq!(ch.handle(S(chord("__vv"))), Nothing);
    assert_eq!(ch.handle(S(0)), Hit(C));
}

#[test]
fn masking_keys() {
    let mut ch = Chordite::default();

    // ctrl-alt-del
    assert_eq!(ch.handle(S(chord("_^^_"))), Nothing); // Ctrl
    assert_eq!(ch.handle(S(0)), Nothing);
    assert_eq!(ch.handle(S(chord("%%__"))), Nothing); // Alt
    assert_eq!(ch.handle(S(0)), Nothing);
    assert_eq!(ch.handle(S(chord("_vv_"))), Nothing); // SHIFT layer
    assert_eq!(ch.handle(S(0)), Nothing);
    assert_eq!(ch.handle(S(chord("_^__"))), Nothing); // DEL
    assert_eq!(ch.handle(S(0)), Hit(DELETE | CTRL_FLAG | ALT_FLAG));

    // Win-shift-s = Snippet tool on Windows
    assert_eq!(ch.handle(S(chord("_%%_"))), Nothing); // Gui
    assert_eq!(ch.handle(S(0)), Nothing);
    assert_eq!(ch.handle(S(chord("_vv_"))), Nothing); // SHIFT layer
    assert_eq!(ch.handle(S(0)), Nothing);
    assert_eq!(ch.handle(S(chord("^___"))), Nothing); // S
    assert_eq!(ch.handle(S(0)), Hit(keycodes::S | SHIFT_FLAG | GUI_FLAG));
}
