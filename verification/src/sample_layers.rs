//! A sample layout: three layers of chord tables for the engine.
//!
//! Layer 0 is the base layer, layer 1 a one-shot "SHIFT" layer reached by a
//! chord on the base layer, and layer 2 a test layer whose index-finger
//! switches act as unchorded mouse buttons.

use vstd::prelude::*;

verus! {

use crate::{LayerInfo, LayerOutcome, Lookup, SwitchSet};
use crate::keycodes::{
    KeyWithFlags, ALT_FLAG, CTRL_FLAG, GUI_FLAG, RIGHT_ALT_FLAG, SHIFT_FLAG, A, B, C, D, E, F, G,
    H, I, J, K, L, M, N, O, P, Q, R, S, T, U, V, W, X, Y, Z, KEY_0, KEY_1, KEY_2, KEY_3, KEY_4,
    KEY_5, KEY_6, KEY_7, KEY_8, KEY_9, BACKSLASH, BACKSPACE, COMMA, DELETE, DOWN, END, ENTER,
    EQUAL, ESC, HACK_MOUSE_LEFT_BTN, HACK_MOUSE_RIGHT_BTN, HOME, LEFT, LEFT_BRACE, MINUS,
    PAGE_DOWN, PAGE_UP, PERIOD, QUOTE, RIGHT, RIGHT_BRACE, SEMICOLON, SLASH, SPACE, TAB, TILDE,
    UP,
};
use crate::LayerOutcome::{
    ClearState, Emit, FromOtherPlusMask, LayerSwitch, TemporaryLayerSwitch, TemporaryPlusMask,
    TogglePlusMask,
};
use crate::UsbOutcome::KeyHit as Hit;

/// A sample layout with a base layer, a "SHIFT" layer and a test layer.
pub struct SampleLayers {}

impl SampleLayers {
    /// The base layer's table.
    pub open spec fn spec_layer0(chord: u8) -> Option<LayerOutcome<KeyWithFlags>> {
        match chord {
            0b00_10_00_11 => Some(Emit(Hit(UP))),  // "_^_%"
            0b00_01_00_11 => Some(Emit(Hit(DOWN))),  // "_v_%"
            0b10_00_00_11 => Some(Emit(Hit(LEFT))),  // "^__%"
            0b01_00_00_11 => Some(Emit(Hit(RIGHT))),  // "v__%"
            0b10_10_00_11 => Some(Emit(Hit(PAGE_UP))),  // "^^_%"
            0b01_01_00_01 => Some(Emit(Hit(PAGE_DOWN))),  // "vv_v"
            0b00_00_10_00 => Some(Emit(Hit(SPACE))),  // "__^_"
            0b00_10_00_00 => Some(Emit(Hit(BACKSPACE))),  // "_^__"
            0b00_00_00_10 => Some(Emit(Hit(E))),  // "___^"
            0b00_00_00_01 => Some(Emit(Hit(T))),  // "___v"
            0b00_00_01_00 => Some(Emit(Hit(A))),  // "__v_"
            0b00_00_00_11 => Some(Emit(Hit(I))),  // "___%"
            0b00_00_11_00 => Some(Emit(Hit(O))),  // "__%_"
            0b00_01_00_00 => Some(Emit(Hit(N))),  // "_v__"
            0b10_00_00_00 => Some(Emit(Hit(S))),  // "^___"
            0b00_11_00_00 => Some(Emit(Hit(H))),  // "_%__"
            0b01_00_00_00 => Some(Emit(Hit(R))),  // "v___"
            0b11_00_00_00 => Some(Emit(Hit(L))),  // "%___"
            0b00_00_10_10 => Some(Emit(Hit(D))),  // "__^^"
            0b00_00_01_01 => Some(Emit(Hit(C))),  // "__vv"
            0b00_00_10_01 => Some(Emit(Hit(U))),  // "__^v"
            0b10_10_00_00 => Some(Emit(Hit(M))),  // "^^__"
            0b00_01_01_00 => Some(TemporaryLayerSwitch { layer: 1 }),  // "_vv_" SHIFT
            0b00_10_10_00 => Some(TemporaryPlusMask { mask: CTRL_FLAG }),  // "_^^_" CTRL
            0b11_11_00_00 => Some(TemporaryPlusMask { mask: ALT_FLAG }),  // "%%__" ALT
            0b11_11_00_10 => Some(TemporaryPlusMask { mask: RIGHT_ALT_FLAG }),  // "%%_^" R-ALT
            0b00_11_11_00 => Some(TemporaryPlusMask { mask: GUI_FLAG }),  // "_%%_" GUI
            0b00_10_00_10 => Some(Emit(Hit(TAB))),  // "_^_^"
            0b00_00_10_11 => Some(Emit(Hit(W))),  // "__^%"
            0b00_10_00_01 => Some(Emit(Hit(G))),  // "_^_v"
            0b00_00_11_01 => Some(Emit(Hit(F))),  // "__%v"
            0b00_00_11_11 => Some(Emit(Hit(Y))),  // "__%%"
            0b00_01_00_01 => Some(Emit(Hit(P))),  // "_v_v"
            0b01_00_00_01 => Some(Emit(Hit(B))),  // "v__v"
            0b10_00_00_10 => Some(Emit(Hit(COMMA))),  // "^__^"
            0b00_10_10_10 => Some(Emit(Hit(PERIOD))),  // "_^^^"
            0b00_01_01_01 => Some(Emit(Hit(V))),  // "_vvv"
            0b00_11_00_11 => Some(Emit(Hit(ENTER))),  // "_%_%"
            0b01_01_01_01 => Some(Emit(Hit(ESC))),  // "vvvv"
            0b10_00_00_01 => Some(Emit(Hit(K))),  // "^__v"
            0b11_00_00_11 => Some(Emit(Hit(QUOTE))),  // "%__%"
            0b11_00_00_01 => Some(Emit(Hit(QUOTE | SHIFT_FLAG))),  // "%__v" \"
            0b01_01_01_00 => Some(Emit(Hit(MINUS))),  // "vvv_"
            0b00_00_01_11 => Some(Emit(Hit(X))),  // "__v%"
            0b00_11_11_11 => Some(Emit(Hit(J))),  // "_%%%"
            0b00_11_00_01 => Some(Emit(Hit(SEMICOLON))),  // "_%_v"
            0b10_10_10_00 => Some(Emit(Hit(KEY_9 | SHIFT_FLAG))),  // "^^^_" (
            0b10_00_10_00 => Some(Emit(Hit(KEY_0 | SHIFT_FLAG))),  // "^_^_" )
            0b10_10_10_10 => Some(Emit(Hit(Q))),  // "^^^^"
            0b00_10_10_01 => Some(Emit(Hit(SLASH))),  // "_^^v"
            0b00_10_10_11 => Some(Emit(Hit(Z))),  // "_^^%"
            0b10_10_00_01 => Some(Emit(Hit(SEMICOLON | SHIFT_FLAG))),  // "^^_v" :
            0b00_10_11_00 => Some(Emit(Hit(KEY_0))),  // "_^%_"
            0b01_00_01_00 => Some(Emit(Hit(KEY_1))),  // "v_v_"
            0b11_00_11_00 => Some(Emit(Hit(KEY_2))),  // "%_%_"
            0b11_11_11_00 => Some(Emit(Hit(KEY_3))),  // "%%%_"
            0b10_10_10_11 => Some(Emit(Hit(KEY_4))),  // "^^^%"
            0b00_01_01_11 => Some(Emit(Hit(EQUAL))),  // "_vv%"
            0b11_10_00_00 => Some(Emit(Hit(KEY_4 | SHIFT_FLAG))),  // "%^__" $
            0b10_00_11_00 => Some(Emit(Hit(LEFT_BRACE | SHIFT_FLAG))),  // "^_%_" {
            0b01_00_11_00 => Some(Emit(Hit(RIGHT_BRACE | SHIFT_FLAG))),  // "v_%_" }
            0b11_11_11_11 => Some(ClearState),  // "%%%%"
            0b11_00_10_10 => Some(TogglePlusMask { mask: ALT_FLAG }),  // "%_^^" sticky ALT
            0b01_10_00_01 => Some(LayerSwitch { layer: 2 }),  // "v^_v" TEST layer, unchorded mouse keys
            _ => None,
        }
    }

    /// The "SHIFT" layer's table; anything it does not map falls back, via
    /// its entry at chord 0, to the base layer with the Shift flag added.
    pub open spec fn spec_layer1(chord: u8) -> Option<LayerOutcome<KeyWithFlags>> {
        match chord {
            0b00_00_00_00 => Some(FromOtherPlusMask { layer: 0, mask: SHIFT_FLAG }),  // default: base layer + Shift
            0b00_10_11_00 => Some(Emit(Hit(KEY_5))),  // "_^%_" S-0 5
            0b01_00_01_00 => Some(Emit(Hit(KEY_6))),  // "v_v_" S-1 6
            0b11_00_11_00 => Some(Emit(Hit(KEY_7))),  // "%_%_" S-2 7
            0b11_11_11_00 => Some(Emit(Hit(KEY_8))),  // "%%%_" S-3 8
            0b10_10_10_11 => Some(Emit(Hit(KEY_9))),  // "^^^%" S-4 9
            0b10_00_00_10 => Some(Emit(Hit(SLASH | SHIFT_FLAG))),  // "^__^" S-, ?
            0b00_10_10_10 => Some(Emit(Hit(KEY_1 | SHIFT_FLAG))),  // "_^^^" S-. !
            0b01_01_01_00 => Some(Emit(Hit(MINUS | SHIFT_FLAG))),  // "vvv_" S-- _
            0b11_00_00_11 => Some(Emit(Hit(TILDE))),  // "%__%" S-' `
            0b10_10_10_00 => Some(Emit(Hit(LEFT_BRACE))),  // "^^^_" S-( [
            0b10_00_10_00 => Some(Emit(Hit(RIGHT_BRACE))),  // "^_^_" S-) ]
            0b00_01_01_11 => Some(Emit(Hit(EQUAL | SHIFT_FLAG))),  // "_vv%" S-= +
            0b10_00_11_00 => Some(Emit(Hit(COMMA | SHIFT_FLAG))),  // "^_%_" S-{ <
            0b01_00_11_00 => Some(Emit(Hit(PERIOD | SHIFT_FLAG))),  // "v_%_" S-} >
            0b11_00_00_01 => Some(Emit(Hit(KEY_7 | SHIFT_FLAG))),  // "%__v" S-\" &
            0b00_11_00_01 => Some(Emit(Hit(KEY_2 | SHIFT_FLAG))),  // "_%_v" S-; @
            0b00_10_10_01 => Some(Emit(Hit(BACKSLASH))),  // "_^^v" S-/ \\
            0b10_10_00_01 => Some(Emit(Hit(BACKSLASH | SHIFT_FLAG))),  // "^^_v" S-: |
            0b11_10_00_00 => Some(Emit(Hit(TILDE | SHIFT_FLAG))),  // "%^__" S-$ ~
            0b10_10_00_11 => Some(Emit(Hit(KEY_6 | SHIFT_FLAG))),  // "^^_%" S-* ^
            0b00_10_00_00 => Some(Emit(Hit(DELETE))),  // "_^__" S-Backspace
            0b00_10_00_11 => Some(Emit(Hit(HOME))),  // "_^_%" S-Up
            0b00_01_00_11 => Some(Emit(Hit(END))),  // "_v_%" S-Down
            _ => None,
        }
    }

    /// The test layer's table; its index-finger bits are unchorded keys.
    pub open spec fn spec_layer2(chord: u8) -> Option<LayerOutcome<KeyWithFlags>> {
        match chord {
            0b10_10_00_00 => Some(TemporaryPlusMask { mask: CTRL_FLAG }),  // "^^__" CTRL
            0b01_10_00_01 => Some(LayerSwitch { layer: 0 }),  // "v^_v" back to the base layer
            0b01_01_00_00 => Some(TemporaryLayerSwitch { layer: 2 }),  // "vv__" park here while held releases drain
            0b11_11_01_01 => Some(ClearState),  // "%%vv"
            _ => None,
        }
    }

    /// The base layer's table.
    pub fn layer0(chord: u8) -> (r: Option<LayerOutcome<KeyWithFlags>>)
        ensures
            r == Self::spec_layer0(chord),
    {
        match chord {
            0b00_10_00_11 => Some(Emit(Hit(UP))),  // "_^_%"
            0b00_01_00_11 => Some(Emit(Hit(DOWN))),  // "_v_%"
            0b10_00_00_11 => Some(Emit(Hit(LEFT))),  // "^__%"
            0b01_00_00_11 => Some(Emit(Hit(RIGHT))),  // "v__%"
            0b10_10_00_11 => Some(Emit(Hit(PAGE_UP))),  // "^^_%"
            0b01_01_00_01 => Some(Emit(Hit(PAGE_DOWN))),  // "vv_v"
            0b00_00_10_00 => Some(Emit(Hit(SPACE))),  // "__^_"
            0b00_10_00_00 => Some(Emit(Hit(BACKSPACE))),  // "_^__"
            0b00_00_00_10 => Some(Emit(Hit(E))),  // "___^"
            0b00_00_00_01 => Some(Emit(Hit(T))),  // "___v"
            0b00_00_01_00 => Some(Emit(Hit(A))),  // "__v_"
            0b00_00_00_11 => Some(Emit(Hit(I))),  // "___%"
            0b00_00_11_00 => Some(Emit(Hit(O))),  // "__%_"
            0b00_01_00_00 => Some(Emit(Hit(N))),  // "_v__"
            0b10_00_00_00 => Some(Emit(Hit(S))),  // "^___"
            0b00_11_00_00 => Some(Emit(Hit(H))),  // "_%__"
            0b01_00_00_00 => Some(Emit(Hit(R))),  // "v___"
            0b11_00_00_00 => Some(Emit(Hit(L))),  // "%___"
            0b00_00_10_10 => Some(Emit(Hit(D))),  // "__^^"
            0b00_00_01_01 => Some(Emit(Hit(C))),  // "__vv"
            0b00_00_10_01 => Some(Emit(Hit(U))),  // "__^v"
            0b10_10_00_00 => Some(Emit(Hit(M))),  // "^^__"
            0b00_01_01_00 => Some(TemporaryLayerSwitch { layer: 1 }),  // "_vv_" SHIFT
            0b00_10_10_00 => Some(TemporaryPlusMask { mask: CTRL_FLAG }),  // "_^^_" CTRL
            0b11_11_00_00 => Some(TemporaryPlusMask { mask: ALT_FLAG }),  // "%%__" ALT
            0b11_11_00_10 => Some(TemporaryPlusMask { mask: RIGHT_ALT_FLAG }),  // "%%_^" R-ALT
            0b00_11_11_00 => Some(TemporaryPlusMask { mask: GUI_FLAG }),  // "_%%_" GUI
            0b00_10_00_10 => Some(Emit(Hit(TAB))),  // "_^_^"
            0b00_00_10_11 => Some(Emit(Hit(W))),  // "__^%"
            0b00_10_00_01 => Some(Emit(Hit(G))),  // "_^_v"
            0b00_00_11_01 => Some(Emit(Hit(F))),  // "__%v"
            0b00_00_11_11 => Some(Emit(Hit(Y))),  // "__%%"
            0b00_01_00_01 => Some(Emit(Hit(P))),  // "_v_v"
            0b01_00_00_01 => Some(Emit(Hit(B))),  // "v__v"
            0b10_00_00_10 => Some(Emit(Hit(COMMA))),  // "^__^"
            0b00_10_10_10 => Some(Emit(Hit(PERIOD))),  // "_^^^"
            0b00_01_01_01 => Some(Emit(Hit(V))),  // "_vvv"
            0b00_11_00_11 => Some(Emit(Hit(ENTER))),  // "_%_%"
            0b01_01_01_01 => Some(Emit(Hit(ESC))),  // "vvvv"
            0b10_00_00_01 => Some(Emit(Hit(K))),  // "^__v"
            0b11_00_00_11 => Some(Emit(Hit(QUOTE))),  // "%__%"
            0b11_00_00_01 => Some(Emit(Hit(QUOTE | SHIFT_FLAG))),  // "%__v" \"
            0b01_01_01_00 => Some(Emit(Hit(MINUS))),  // "vvv_"
            0b00_00_01_11 => Some(Emit(Hit(X))),  // "__v%"
            0b00_11_11_11 => Some(Emit(Hit(J))),  // "_%%%"
            0b00_11_00_01 => Some(Emit(Hit(SEMICOLON))),  // "_%_v"
            0b10_10_10_00 => Some(Emit(Hit(KEY_9 | SHIFT_FLAG))),  // "^^^_" (
            0b10_00_10_00 => Some(Emit(Hit(KEY_0 | SHIFT_FLAG))),  // "^_^_" )
            0b10_10_10_10 => Some(Emit(Hit(Q))),  // "^^^^"
            0b00_10_10_01 => Some(Emit(Hit(SLASH))),  // "_^^v"
            0b00_10_10_11 => Some(Emit(Hit(Z))),  // "_^^%"
            0b10_10_00_01 => Some(Emit(Hit(SEMICOLON | SHIFT_FLAG))),  // "^^_v" :
            0b00_10_11_00 => Some(Emit(Hit(KEY_0))),  // "_^%_"
            0b01_00_01_00 => Some(Emit(Hit(KEY_1))),  // "v_v_"
            0b11_00_11_00 => Some(Emit(Hit(KEY_2))),  // "%_%_"
            0b11_11_11_00 => Some(Emit(Hit(KEY_3))),  // "%%%_"
            0b10_10_10_11 => Some(Emit(Hit(KEY_4))),  // "^^^%"
            0b00_01_01_11 => Some(Emit(Hit(EQUAL))),  // "_vv%"
            0b11_10_00_00 => Some(Emit(Hit(KEY_4 | SHIFT_FLAG))),  // "%^__" $
            0b10_00_11_00 => Some(Emit(Hit(LEFT_BRACE | SHIFT_FLAG))),  // "^_%_" {
            0b01_00_11_00 => Some(Emit(Hit(RIGHT_BRACE | SHIFT_FLAG))),  // "v_%_" }
            0b11_11_11_11 => Some(ClearState),  // "%%%%"
            0b11_00_10_10 => Some(TogglePlusMask { mask: ALT_FLAG }),  // "%_^^" sticky ALT
            0b01_10_00_01 => Some(LayerSwitch { layer: 2 }),  // "v^_v" TEST layer, unchorded mouse keys
            _ => None,
        }
    }

    /// The "SHIFT" layer's table.
    pub fn layer1(chord: u8) -> (r: Option<LayerOutcome<KeyWithFlags>>)
        ensures
            r == Self::spec_layer1(chord),
    {
        match chord {
            0b00_00_00_00 => Some(FromOtherPlusMask { layer: 0, mask: SHIFT_FLAG }),  // default: base layer + Shift
            0b00_10_11_00 => Some(Emit(Hit(KEY_5))),  // "_^%_" S-0 5
            0b01_00_01_00 => Some(Emit(Hit(KEY_6))),  // "v_v_" S-1 6
            0b11_00_11_00 => Some(Emit(Hit(KEY_7))),  // "%_%_" S-2 7
            0b11_11_11_00 => Some(Emit(Hit(KEY_8))),  // "%%%_" S-3 8
            0b10_10_10_11 => Some(Emit(Hit(KEY_9))),  // "^^^%" S-4 9
            0b10_00_00_10 => Some(Emit(Hit(SLASH | SHIFT_FLAG))),  // "^__^" S-, ?
            0b00_10_10_10 => Some(Emit(Hit(KEY_1 | SHIFT_FLAG))),  // "_^^^" S-. !
            0b01_01_01_00 => Some(Emit(Hit(MINUS | SHIFT_FLAG))),  // "vvv_" S-- _
            0b11_00_00_11 => Some(Emit(Hit(TILDE))),  // "%__%" S-' `
            0b10_10_10_00 => Some(Emit(Hit(LEFT_BRACE))),  // "^^^_" S-( [
            0b10_00_10_00 => Some(Emit(Hit(RIGHT_BRACE))),  // "^_^_" S-) ]
            0b00_01_01_11 => Some(Emit(Hit(EQUAL | SHIFT_FLAG))),  // "_vv%" S-= +
            0b10_00_11_00 => Some(Emit(Hit(COMMA | SHIFT_FLAG))),  // "^_%_" S-{ <
            0b01_00_11_00 => Some(Emit(Hit(PERIOD | SHIFT_FLAG))),  // "v_%_" S-} >
            0b11_00_00_01 => Some(Emit(Hit(KEY_7 | SHIFT_FLAG))),  // "%__v" S-\" &
            0b00_11_00_01 => Some(Emit(Hit(KEY_2 | SHIFT_FLAG))),  // "_%_v" S-; @
            0b00_10_10_01 => Some(Emit(Hit(BACKSLASH))),  // "_^^v" S-/ \\
            0b10_10_00_01 => Some(Emit(Hit(BACKSLASH | SHIFT_FLAG))),  // "^^_v" S-: |
            0b11_10_00_00 => Some(Emit(Hit(TILDE | SHIFT_FLAG))),  // "%^__" S-$ ~
            0b10_10_00_11 => Some(Emit(Hit(KEY_6 | SHIFT_FLAG))),  // "^^_%" S-* ^
            0b00_10_00_00 => Some(Emit(Hit(DELETE))),  // "_^__" S-Backspace
            0b00_10_00_11 => Some(Emit(Hit(HOME))),  // "_^_%" S-Up
            0b00_01_00_11 => Some(Emit(Hit(END))),  // "_v_%" S-Down
            _ => None,
        }
    }

    /// The test layer's table.
    pub fn layer2(chord: u8) -> (r: Option<LayerOutcome<KeyWithFlags>>)
        ensures
            r == Self::spec_layer2(chord),
    {
        match chord {
            0b10_10_00_00 => Some(TemporaryPlusMask { mask: CTRL_FLAG }),  // "^^__" CTRL
            0b01_10_00_01 => Some(LayerSwitch { layer: 0 }),  // "v^_v" back to the base layer
            0b01_01_00_00 => Some(TemporaryLayerSwitch { layer: 2 }),  // "vv__" park here while held releases drain
            0b11_11_01_01 => Some(ClearState),  // "%%vv"
            _ => None,
        }
    }
}

impl Lookup for SampleLayers {
    open spec fn spec_lookup(layer: i32, chord: u8) -> Option<LayerOutcome<KeyWithFlags>> {
        if layer == 1 {
            Self::spec_layer1(chord)
        } else if layer == 2 {
            Self::spec_layer2(chord)
        } else {
            Self::spec_layer0(chord)
        }
    }

    open spec fn spec_unchorded_mask(layer: i32) -> u8 {
        if layer == 2 {
            0b00_00_10_10  // "__^^": both index-side tips
        } else {
            0
        }
    }

    open spec fn spec_unchorded_key(layer: i32, switch: u8) -> Option<KeyWithFlags> {
        if layer == 2 && switch == 0b00_00_00_10 {
            Some(HACK_MOUSE_LEFT_BTN)  // "___^"
        } else if layer == 2 && switch == 0b00_00_10_00 {
            Some(HACK_MOUSE_RIGHT_BTN)  // "__^_"
        } else {
            None
        }
    }

    fn lookup(layer: i32, chord: u8) -> (r: Option<LayerOutcome<KeyWithFlags>>) {
        if layer == 1 {
            Self::layer1(chord)  // "SHIFT"
        } else if layer == 2 {
            Self::layer2(chord)  // "TEST"
        } else {
            Self::layer0(chord)
        }
    }

    fn info(layer: i32) -> (r: LayerInfo) {
        let unchorded_mask = SwitchSet(
            if layer == 2 {
                0b00_00_10_10
            } else {
                0
            },
        );
        LayerInfo { unchorded_mask }
    }

    fn unchorded_key(layer: i32, switch: SwitchSet) -> (r: Option<KeyWithFlags>) {
        if layer == 2 && switch.0 == 0b00_00_00_10 {
            Some(HACK_MOUSE_LEFT_BTN)
        } else if layer == 2 && switch.0 == 0b00_00_10_00 {
            Some(HACK_MOUSE_RIGHT_BTN)
        } else {
            None
        }
    }
}

} // verus!
