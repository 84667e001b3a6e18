use clawtype_chords::keycodes::{
    self, ALT_FLAG, BACKSPACE, C, CTRL_FLAG, DELETE, E, ESC, GUI_FLAG, HACK_MOUSE_LEFT_BTN,
    HACK_MOUSE_RIGHT_BTN, RIGHT_ALT_FLAG, SHIFT_FLAG, UP, A,
};
use clawtype_chords::pattern::chord;
use clawtype_chords::sample_layers::SampleLayers as L;
use clawtype_chords::Engine;
use clawtype_chords::SwitchSet as S;
use clawtype_chords::UsbOutcome::{KeyHit as Hit, KeyPress as Press, KeyRelease as Release, Nothing};

#[test]
fn lib_zero() {
    let mut eng = Engine::<L>::default();
    assert_eq!(eng.handle(S(0)), Nothing);
}

#[test]
fn lib_key_up_incremental_then_decremental_then_esc_instant() {
    let mut eng = Engine::<L>::default();
    assert_eq!(eng.handle(S(0b00_10_00_00)), Nothing);
    assert_eq!(eng.handle(S(0b00_10_00_10)), Nothing);
    assert_eq!(eng.handle(S(0b00_10_00_11)), Nothing);
    assert_eq!(eng.handle(S(0b00_10_00_01)), Nothing);
    assert_eq!(eng.handle(S(0b00_00_00_01)), Nothing);
    assert_eq!(eng.handle(S(0)), Hit(UP));

    assert_eq!(eng.handle(S(chord("vvvv"))), Nothing);
    assert_eq!(eng.handle(S(0)), Hit(ESC));
}

#[test]
fn lib_key_from_shift_layer() {
    let mut eng = Engine::<L>::default();
    assert_eq!(eng.handle(S(chord("_v__"))), Nothing);
    assert_eq!(eng.handle(S(chord("_vv_"))), Nothing); // "shift"
    assert_eq!(eng.handle(S(0)), Nothing);
    // "shifted" key
    assert_eq!(eng.handle(S(chord("_^__"))), Nothing);
    assert_eq!(eng.handle(S(0)), Hit(DELETE));
    // back to "unshifted" key
    assert_eq!(eng.handle(S(chord("_^__"))), Nothing);
    assert_eq!(eng.handle(S(0)), Hit(BACKSPACE));
}

#[test]
fn lib_upper_case_letter_from_shift_layer() {
    let mut eng = Engine::<L>::default();
    assert_eq!(eng.handle(S(chord("_v__"))), Nothing);
    assert_eq!(eng.handle(S(chord("_vv_"))), Nothing); // "shift"
    assert_eq!(eng.handle(S(0)), Nothing);
    // "shifted" key
    assert_eq!(eng.handle(S(chord("___^"))), Nothing);
    assert_eq!(eng.handle(S(0)), Hit(E | SHIFT_FLAG));
    // back to "unshifted" key
    assert_eq!(eng.handle(S(chord("___^"))), Nothing);
    assert_eq!(eng.handle(S(0)), Hit(E));

    // another try

    assert_eq!(eng.handle(S(chord("_v__"))), Nothing);
    assert_eq!(eng.handle(S(chord("_vv_"))), Nothing); // "shift"
    assert_eq!(eng.handle(S(0)), Nothing);
    // "shifted" key
    assert_eq!(eng.handle(S(chord("__vv"))), Nothing);
    assert_eq!(eng.handle(S(0)), Hit(C | SHIFT_FLAG));
    // back to "unshifted" key
    assert_eq!(eng.handle(S(chord("__vv"))), Nothing);
    assert_eq!(eng.handle(S(0)), Hit(C));
}

#[test]
fn lib_masking_keys() {
    let mut eng = Engine::<L>::default();

    // ctrl-alt-del
    assert_eq!(eng.handle(S(chord("_^^_"))), Nothing); // Ctrl
    assert_eq!(eng.handle(S(0)), Nothing);
    assert_eq!(eng.handle(S(chord("%%__"))), Nothing); // Alt
    assert_eq!(eng.handle(S(0)), Nothing);
    assert_eq!(eng.handle(S(chord("_vv_"))), Nothing); // SHIFT layer
    assert_eq!(eng.handle(S(0)), Nothing);
    assert_eq!(eng.handle(S(chord("_^__"))), Nothing); // DEL
    assert_eq!(eng.handle(S(0)), Hit(DELETE | CTRL_FLAG | ALT_FLAG));

    // Win-shift-s = Snippet tool on Windows
    assert_eq!(eng.handle(S(chord("_%%_"))), Nothing); // Gui
    assert_eq!(eng.handle(S(0)), Nothing);
    assert_eq!(eng.handle(S(chord("_vv_"))), Nothing); // SHIFT layer
    assert_eq!(eng.handle(S(0)), Nothing);
    assert_eq!(eng.handle(S(chord("^___"))), Nothing); // S
    assert_eq!(eng.handle(S(0)), Hit(keycodes::S | SHIFT_FLAG | GUI_FLAG));
}

#[test]
fn shift_with_other_modifier_and_letter() {
    let mut eng = Engine::<L>::default();

    // shift-r_alt-e => Ę
    assert_eq!(eng.handle(S(chord("_vv_"))), Nothing);
    assert_eq!(eng.handle(S(0)), Nothing);
    assert_eq!(eng.handle(S(chord("%%_^"))), Nothing);
    assert_eq!(eng.handle(S(0)), Nothing);
    assert_eq!(eng.handle(S(chord("___^"))), Nothing);
    assert_eq!(eng.handle(S(0)), Hit(keycodes::E | SHIFT_FLAG | RIGHT_ALT_FLAG));

    // r_alt-shift-e => also Ę
    assert_eq!(eng.handle(S(chord("%%_^"))), Nothing);
    assert_eq!(eng.handle(S(0)), Nothing);
    assert_eq!(eng.handle(S(chord("_vv_"))), Nothing);
    assert_eq!(eng.handle(S(0)), Nothing);
    assert_eq!(eng.handle(S(chord("___^"))), Nothing);
    assert_eq!(eng.handle(S(0)), Hit(keycodes::E | SHIFT_FLAG | RIGHT_ALT_FLAG));
}

// Pressing switch bits incrementally while never fully releasing resolves, on
// release, the union of all bits ever pressed, not the final pre-release mask.
#[test]
fn accumulate_then_resolve_union() {
    let mut eng = Engine::<L>::default();
    assert_eq!(eng.handle(S(0b00_10_00_00)), Nothing);
    assert_eq!(eng.handle(S(0b00_10_00_10)), Nothing);
    assert_eq!(eng.handle(S(0b00_10_00_11)), Nothing);
    assert_eq!(eng.handle(S(0b00_00_00_01)), Nothing);
    // The final pre-release mask alone was 0b00_00_00_01 = "___v" = T; the
    // union 0b00_10_00_11 = "_^_%" = UP is what resolves.
    assert_eq!(eng.handle(S(0)), Hit(UP));
}

// A chord with no exact entry on the active layer resolves via the layer's
// chord-0 entry: here layer 1's default delegates to layer 0 plus Shift.
#[test]
fn fallback_to_zero_chord() {
    let mut eng = Engine::<L>::default();
    assert_eq!(eng.handle(S(chord("_vv_"))), Nothing); // SHIFT layer
    assert_eq!(eng.handle(S(0)), Nothing);
    assert_eq!(eng.handle(S(chord("__v_"))), Nothing); // A: no layer-1 entry
    assert_eq!(eng.handle(S(0)), Hit(A | SHIFT_FLAG));
}

// A sticky TogglePlusMask applies to every subsequent emission until
// ClearState resets it; a temporary mask is consumed by one emission.
#[test]
fn sticky_mask_until_clear_state() {
    let mut eng = Engine::<L>::default();
    assert_eq!(eng.handle(S(chord("%_^^"))), Nothing); // sticky ALT
    assert_eq!(eng.handle(S(0)), Nothing);
    assert_eq!(eng.handle(S(chord("___^"))), Nothing);
    assert_eq!(eng.handle(S(0)), Hit(E | ALT_FLAG));
    assert_eq!(eng.handle(S(chord("___v"))), Nothing);
    assert_eq!(eng.handle(S(0)), Hit(keycodes::T | ALT_FLAG)); // still applies
    assert_eq!(eng.handle(S(chord("%%%%"))), Nothing); // ClearState
    assert_eq!(eng.handle(S(0)), Nothing);
    assert_eq!(eng.handle(S(chord("___^"))), Nothing);
    assert_eq!(eng.handle(S(0)), Hit(E)); // mask gone
}

// Within an unchorded-enabled layer, pressing one unchorded bit yields
// KeyPress on the transition call and KeyRelease when it clears, with the
// modifier masks active at press time applied to the press event.
#[test]
fn unchorded_press_and_release() {
    let mut eng = Engine::<L>::default();
    // enter the TEST layer, whose index-finger tips are mouse buttons
    assert_eq!(eng.handle(S(chord("v^_v"))), Nothing);
    assert_eq!(eng.handle(S(0)), Nothing); // resolves LayerSwitch{2}
    // immediate press of mouse button, then release (a click)
    assert_eq!(eng.handle(S(chord("___^"))), Press(HACK_MOUSE_LEFT_BTN));
    assert_eq!(eng.handle(S(chord("____"))), Release(HACK_MOUSE_LEFT_BTN));
    // ctrl-press, then release
    assert_eq!(eng.handle(S(chord("^^__"))), Nothing); // CTRL chord
    assert_eq!(eng.handle(S(0)), Nothing);
    assert_eq!(eng.handle(S(chord("___^"))), Press(HACK_MOUSE_LEFT_BTN | CTRL_FLAG));
    assert_eq!(eng.handle(S(chord("____"))), Release(HACK_MOUSE_LEFT_BTN));
    // back to the base layer
    assert_eq!(eng.handle(S(chord("v^_v"))), Nothing);
    assert_eq!(eng.handle(S(0)), Nothing);
}

// Exiting an unchorded layer while keys are held forces exactly one
// KeyRelease per held key on subsequent calls, ignoring input while
// draining; the temporary layer is cleared once the drain finishes.
#[test]
fn layer_exit_shunts_held_keys() {
    let mut eng = Engine::<L>::default();
    // enter the TEST layer
    assert_eq!(eng.handle(S(chord("v^_v"))), Nothing);
    assert_eq!(eng.handle(S(0)), Nothing);
    // hold both unchorded mouse buttons, one edge per call
    assert_eq!(eng.handle(S(chord("___^"))), Press(HACK_MOUSE_LEFT_BTN));
    assert_eq!(eng.handle(S(chord("__^^"))), Press(HACK_MOUSE_RIGHT_BTN));
    // with both still held, chord "vv__" = TemporaryLayerSwitch{2}: the
    // chord bits accumulate first, then resolve once only unchorded bits
    // remain pressed, shunting the held keys
    assert_eq!(eng.handle(S(chord("vv^^"))), Nothing);
    assert_eq!(eng.handle(S(chord("__^^"))), Nothing);
    // drain: one release per call, most significant first, input ignored
    assert_eq!(eng.handle(S(chord("__^^"))), Release(HACK_MOUSE_RIGHT_BTN));
    assert_eq!(eng.handle(S(0)), Release(HACK_MOUSE_LEFT_BTN));
    // drained: temporary layer consumed, engine quiet again
    assert_eq!(eng.handle(S(0)), Nothing);
}
