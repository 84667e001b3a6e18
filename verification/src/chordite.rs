//! The previous generation of the chord engine, with its layout built in.
//!
//! [`Chordite`] predates the generic [`crate::Engine`]: it has no persistent
//! layer switching, no sticky plus mask and no unchorded mode, only chord
//! accumulation, a one-shot temporary layer and a one-shot plus mask. Its
//! base and "SHIFT" tables are embedded rather than injected.

use vstd::prelude::*;

verus! {

use crate::SwitchSet;
use crate::keycodes::{
    KeyWithFlags, ALT_FLAG, CTRL_FLAG, GUI_FLAG, SHIFT_FLAG, A, B, C, D, E, F, G, H, I, J, K, L,
    M, N, O, P, Q, R, S, T, U, V, W, X, Y, Z, KEY_0, KEY_1, KEY_2, KEY_3, KEY_4, KEY_5, KEY_6,
    KEY_7, KEY_8, KEY_9, BACKSLASH, BACKSPACE, COMMA, DELETE, DOWN, END, ENTER, EQUAL, ESC, HOME,
    LEFT, LEFT_BRACE, MINUS, PAGE_DOWN, PAGE_UP, PERIOD, QUOTE, RIGHT, RIGHT_BRACE, SEMICOLON,
    SLASH, SPACE, TAB, TILDE, UP,
};
use self::LayerOutcome::{Emit, FromOtherPlusMask, TemporaryLayerSwitch, TemporaryPlusMask};
use self::UsbOutcome::KeyHit as Hit;

/// One USB event produced by [`Chordite`]: a complete key hit, or nothing.
#[derive(Clone, Copy, Debug, PartialEq, Eq)]
pub enum UsbOutcome {
    Nothing,
    KeyHit(KeyWithFlags),
}

/// ORs `mask` into an outcome's key; `Nothing` stays `Nothing`.
pub open spec fn spec_or_mask(v: UsbOutcome, mask: KeyWithFlags) -> UsbOutcome {
    match v {
        UsbOutcome::Nothing => UsbOutcome::Nothing,
        UsbOutcome::KeyHit(k) => UsbOutcome::KeyHit(k | mask),
    }
}

impl UsbOutcome {
    /// ORs `mask` into the outcome's key; `Nothing` stays `Nothing`.
    pub fn or_mask(self, mask: KeyWithFlags) -> (r: UsbOutcome)
        ensures
            r == spec_or_mask(self, mask),
    {
        match self {
            UsbOutcome::Nothing => UsbOutcome::Nothing,
            UsbOutcome::KeyHit(k) => UsbOutcome::KeyHit(k | mask),
        }
    }
}

/// What a resolved chord means on one of [`Chordite`]'s layers.
#[derive(Clone, Copy)]
pub enum LayerOutcome {
    /// Produce a key event, modulated by the one-shot plus mask.
    Emit(UsbOutcome),
    /// Add a modifier mask, like Alt, Shift or GUI, for the next resolution.
    TemporaryPlusMask { mask: KeyWithFlags },
    /// Switch the layer for exactly the next one chord resolution.
    TemporaryLayerSwitch { layer: i32 },
    /// Resolve the same chord on another layer, ORing an extra modifier mask
    /// into whatever that resolution emits.
    FromOtherPlusMask { layer: i32, mask: KeyWithFlags },
}

/// The abstract state of a [`Chordite`]: what its contracts speak of.
pub struct ChorditeView {
    /// Bitwise OR of all switches seen pressed since the last full release.
    pub most: u8,
    /// If set, overrides layer 0 for exactly the next chord resolution.
    pub temporary_layer: Option<i32>,
    /// Modifier flags ORed into the next emitted key only.
    pub temporary_plus_mask: KeyWithFlags,
}

impl ChorditeView {
    /// The state a fresh engine starts in: nothing accumulated or armed.
    pub open spec fn initial() -> ChorditeView {
        ChorditeView { most: 0, temporary_layer: None, temporary_plus_mask: 0 }
    }
}

/// The previous-generation chord engine, with its layout built in.
pub struct Chordite {
    most: SwitchSet,
    temporary_layer: Option<i32>,
    temporary_plus_mask: KeyWithFlags,
}

impl View for Chordite {
    type V = ChorditeView;

    closed spec fn view(&self) -> ChorditeView {
        ChorditeView {
            most: self.most.0,
            temporary_layer: self.temporary_layer,
            temporary_plus_mask: self.temporary_plus_mask,
        }
    }
}

impl Default for Chordite {
    /// A fresh engine in [`ChorditeView::initial`] state.
    fn default() -> (r: Self)
        ensures
            r@ == ChorditeView::initial(),
    {
        Chordite { most: SwitchSet(0), temporary_layer: None, temporary_plus_mask: 0 }
    }
}

/// Resolution of one chord on one layer, with `depth` delegation hops left.
///
/// As in [`crate::spec_resolve`], a layer with no entry for the exact chord
/// falls back to its entry at the impossible chord 0.
pub open spec fn spec_resolve(st: ChorditeView, layer: i32, chord: u8, depth: nat) -> (
    ChorditeView,
    UsbOutcome,
)
    decreases depth,
{
    let entry = if Chordite::spec_lookup(layer, chord) is Some {
        Chordite::spec_lookup(layer, chord)
    } else {
        Chordite::spec_lookup(layer, 0)
    };
    match entry {
        None => (st, UsbOutcome::Nothing),
        Some(outcome) => match outcome {
            LayerOutcome::Emit(v) => (
                ChorditeView { temporary_plus_mask: 0, ..st },
                spec_or_mask(v, st.temporary_plus_mask),
            ),
            LayerOutcome::TemporaryPlusMask { mask } => (
                ChorditeView { temporary_plus_mask: st.temporary_plus_mask | mask, ..st },
                UsbOutcome::Nothing,
            ),
            LayerOutcome::TemporaryLayerSwitch { layer: l } => (
                ChorditeView { temporary_layer: Some(l), ..st },
                UsbOutcome::Nothing,
            ),
            LayerOutcome::FromOtherPlusMask { layer: l, mask } => {
                if depth == 0 {
                    (st, UsbOutcome::Nothing)
                } else {
                    let (st2, out) = spec_resolve(st, l, chord, (depth - 1) as nat);
                    (st2, spec_or_mask(out, mask))
                }
            },
        },
    }
}

/// One step of the engine on sample `switches`: the new state and the event.
///
/// Pressed switches accumulate; on full release the accumulated chord is
/// resolved on the temporary layer if armed, else on the base layer.
pub open spec fn spec_handle(st: ChorditeView, switches: u8) -> (ChorditeView, UsbOutcome) {
    if switches != 0 {
        (ChorditeView { most: st.most | switches, ..st }, UsbOutcome::Nothing)
    } else if st.most == 0 {
        (st, UsbOutcome::Nothing)
    } else {
        let layer = match st.temporary_layer {
            Some(l) => l,
            None => 0,
        };
        spec_resolve(
            ChorditeView { most: 0, temporary_layer: None, ..st },
            layer,
            st.most,
            crate::FROM_OTHER_LIMIT as nat,
        )
    }
}

impl Chordite {
    /// The table entry for `chord` on `layer`, or `None` if absent.
    pub open spec fn spec_lookup(layer: i32, chord: u8) -> Option<LayerOutcome> {
        if layer == 1 {
            Self::spec_lookup1(chord)
        } else {
            Self::spec_lookup0(chord)
        }
    }

    /// The base layer's table.
    pub open spec fn spec_lookup0(chord: u8) -> Option<LayerOutcome> {
        match chord {
            0b00_10_00_11 => Some(Emit(Hit(UP))),  // "_^_%"
            0b00_01_00_11 => Some(Emit(Hit(DOWN))),  // "_v_%"
            0b10_00_00_11 => Some(Emit(Hit(LEFT))),  // "^__%"
            0b01_00_00_11 => Some(Emit(Hit(RIGHT))),  // "v__%"
            0b10_10_00_11 => Some(Emit(Hit(PAGE_UP))),  // "^^_%"
            0b01_01_00_01 => Some(Emit(Hit(PAGE_DOWN))),  // "vv_v"
            0b00_00_10_00 => Some(Emit(Hit(SPACE))),  // "__^_"
            0b00_10_00_00 => Some(Emit(Hit(BACKSPACE))),  // "_^__"
            0b00_00_00_10 => Some(Emit(Hit(E))),  // "___^"
            0b00_00_00_01 => Some(Emit(Hit(T))),  // "___v"
            0b00_00_01_00 => Some(Emit(Hit(A))),  // "__v_"
            0b00_00_00_11 => Some(Emit(Hit(I))),  // "___%"
            0b00_00_11_00 => Some(Emit(Hit(O))),  // "__%_"
            0b00_01_00_00 => Some(Emit(Hit(N))),  // "_v__"
            0b10_00_00_00 => Some(Emit(Hit(S))),  // "^___"
            0b00_11_00_00 => Some(Emit(Hit(H))),  // "_%__"
            0b01_00_00_00 => Some(Emit(Hit(R))),  // "v___"
            0b11_00_00_00 => Some(Emit(Hit(L))),  // "%___"
            0b00_00_10_10 => Some(Emit(Hit(D))),  // "__^^"
            0b00_00_01_01 => Some(Emit(Hit(C))),  // "__vv"
            0b00_00_10_01 => Some(Emit(Hit(U))),  // "__^v"
            0b10_10_00_00 => Some(Emit(Hit(M))),  // "^^__"
            0b00_01_01_00 => Some(TemporaryLayerSwitch { layer: 1 }),  // "_vv_" SHIFT
            0b00_10_10_00 => Some(TemporaryPlusMask { mask: CTRL_FLAG }),  // "_^^_" CTRL
            0b11_11_00_00 => Some(TemporaryPlusMask { mask: ALT_FLAG }),  // "%%__" ALT
            0b00_11_11_00 => Some(TemporaryPlusMask { mask: GUI_FLAG }),  // "_%%_" GUI
            0b00_10_00_10 => Some(Emit(Hit(TAB))),  // "_^_^"
            0b00_00_10_11 => Some(Emit(Hit(W))),  // "__^%"
            0b00_10_00_01 => Some(Emit(Hit(G))),  // "_^_v"
            0b00_00_11_01 => Some(Emit(Hit(F))),  // "__%v"
            0b00_00_11_11 => Some(Emit(Hit(Y))),  // "__%%"
            0b00_01_00_01 => Some(Emit(Hit(P))),  // "_v_v"
            0b01_00_00_01 => Some(Emit(Hit(B))),  // "v__v"
            0b10_00_00_10 => Some(Emit(Hit(COMMA))),  // "^__^"
            0b00_10_10_10 => Some(Emit(Hit(PERIOD))),  // "_^^^"
            0b00_01_01_01 => Some(Emit(Hit(V))),  // "_vvv"
            0b00_11_00_11 => Some(Emit(Hit(ENTER))),  // "_%_%"
            0b01_01_01_01 => Some(Emit(Hit(ESC))),  // "vvvv"
            0b10_00_00_01 => Some(Emit(Hit(K))),  // "^__v"
            0b11_00_00_11 => Some(Emit(Hit(QUOTE))),  // "%__%"
            0b11_00_00_01 => Some(Emit(Hit(QUOTE | SHIFT_FLAG))),  // "%__v" \"
            0b01_01_01_00 => Some(Emit(Hit(MINUS))),  // "vvv_"
            0b00_00_01_11 => Some(Emit(Hit(X))),  // "__v%"
            0b00_11_11_11 => Some(Emit(Hit(J))),  // "_%%%"
            0b00_11_00_01 => Some(Emit(Hit(SEMICOLON))),  // "_%_v"
            0b10_10_10_00 => Some(Emit(Hit(KEY_9 | SHIFT_FLAG))),  // "^^^_" (
            0b10_00_10_00 => Some(Emit(Hit(KEY_0 | SHIFT_FLAG))),  // "^_^_" )
            0b10_10_10_10 => Some(Emit(Hit(Q))),  // "^^^^"
            0b00_10_10_01 => Some(Emit(Hit(SLASH))),  // "_^^v"
            0b00_10_10_11 => Some(Emit(Hit(Z))),  // "_^^%"
            0b10_10_00_01 => Some(Emit(Hit(SEMICOLON | SHIFT_FLAG))),  // "^^_v" :
            0b00_10_11_00 => Some(Emit(Hit(KEY_0))),  // "_^%_"
            0b01_00_01_00 => Some(Emit(Hit(KEY_1))),  // "v_v_"
            0b11_00_11_00 => Some(Emit(Hit(KEY_2))),  // "%_%_"
            0b11_11_11_00 => Some(Emit(Hit(KEY_3))),  // "%%%_"
            0b10_10_10_11 => Some(Emit(Hit(KEY_4))),  // "^^^%"
            0b00_01_01_11 => Some(Emit(Hit(EQUAL))),  // "_vv%"
            0b11_10_00_00 => Some(Emit(Hit(KEY_4 | SHIFT_FLAG))),  // "%^__" $
            0b10_00_11_00 => Some(Emit(Hit(LEFT_BRACE | SHIFT_FLAG))),  // "^_%_" {
            0b01_00_11_00 => Some(Emit(Hit(RIGHT_BRACE | SHIFT_FLAG))),  // "v_%_" }
            _ => None,
        }
    }

    /// The "SHIFT" layer's table; anything it does not map falls back, via
    /// its entry at chord 0, to the base layer with the Shift flag added.
    pub open spec fn spec_lookup1(chord: u8) -> Option<LayerOutcome> {
        match chord {
            0b00_00_00_00 => Some(FromOtherPlusMask { layer: 0, mask: SHIFT_FLAG }),  // default: base layer + Shift
            0b00_10_11_00 => Some(Emit(Hit(KEY_5))),  // "_^%_" S-0 5
            0b01_00_01_00 => Some(Emit(Hit(KEY_6))),  // "v_v_" S-1 6
            0b11_00_11_00 => Some(Emit(Hit(KEY_7))),  // "%_%_" S-2 7
            0b11_11_11_00 => Some(Emit(Hit(KEY_8))),  // "%%%_" S-3 8
            0b10_10_10_11 => Some(Emit(Hit(KEY_9))),  // "^^^%" S-4 9
            0b10_00_00_10 => Some(Emit(Hit(SLASH | SHIFT_FLAG))),  // "^__^" S-, ?
            0b00_10_10_10 => Some(Emit(Hit(KEY_1 | SHIFT_FLAG))),  // "_^^^" S-. !
            0b01_01_01_00 => Some(Emit(Hit(MINUS | SHIFT_FLAG))),  // "vvv_" S-- _
            0b11_00_00_11 => Some(Emit(Hit(TILDE))),  // "%__%" S-' `
            0b10_10_10_00 => Some(Emit(Hit(LEFT_BRACE))),  // "^^^_" S-( [
            0b10_00_10_00 => Some(Emit(Hit(RIGHT_BRACE))),  // "^_^_" S-) ]
            0b00_01_01_11 => Some(Emit(Hit(EQUAL | SHIFT_FLAG))),  // "_vv%" S-= +
            0b10_00_11_00 => Some(Emit(Hit(COMMA | SHIFT_FLAG))),  // "^_%_" S-{ <
            0b01_00_11_00 => Some(Emit(Hit(PERIOD | SHIFT_FLAG))),  // "v_%_" S-} >
            0b11_00_00_01 => Some(Emit(Hit(KEY_7 | SHIFT_FLAG))),  // "%__v" S-\" &
            0b00_11_00_01 => Some(Emit(Hit(KEY_2 | SHIFT_FLAG))),  // "_%_v" S-; @
            0b00_10_10_01 => Some(Emit(Hit(BACKSLASH))),  // "_^^v" S-/ \\
            0b10_10_00_01 => Some(Emit(Hit(BACKSLASH | SHIFT_FLAG))),  // "^^_v" S-: |
            0b11_10_00_00 => Some(Emit(Hit(TILDE | SHIFT_FLAG))),  // "%^__" S-$ ~
            0b10_10_00_11 => Some(Emit(Hit(KEY_6 | SHIFT_FLAG))),  // "^^_%" S-* ^
            0b00_10_00_00 => Some(Emit(Hit(DELETE))),  // "_^__" S-Backspace
            0b00_10_00_11 => Some(Emit(Hit(HOME))),  // "_^_%" S-Up
            0b00_01_00_11 => Some(Emit(Hit(END))),  // "_v_%" S-Down
            _ => None,
        }
    }

    /// Processes one switch sample and returns the one resulting USB event,
    /// exactly as [`spec_handle`] prescribes.
    pub fn handle(&mut self, switches: SwitchSet) -> (out: UsbOutcome)
        ensures
            ({
                let (post, o) = spec_handle(old(self)@, switches.0);
                final(self)@ == post && out == o
            }),
    {
        // Some switches pressed? Accumulate; nothing resolves yet.
        if switches.0 != 0 {
            self.most.0 = self.most.0 | switches.0;
            return UsbOutcome::Nothing;
        }
        // All switches released: resolve what was accumulated, if anything.
        let most = self.most.0;
        self.most = SwitchSet(0);
        if most == 0 {
            return UsbOutcome::Nothing;
        }
        let layer = match self.temporary_layer {
            Some(l) => {
                self.temporary_layer = None;
                l
            },
            None => 0,
        };
        self.resolve(layer, most, crate::FROM_OTHER_LIMIT)
    }

    /// Resolves `chord` on `layer` with `depth` delegation hops left,
    /// exactly as [`spec_resolve`] prescribes.
    pub fn resolve(&mut self, layer: i32, chord: u8, depth: u8) -> (out: UsbOutcome)
        ensures
            ({
                let (post, o) = spec_resolve(old(self)@, layer, chord, depth as nat);
                final(self)@ == post && out == o
            }),
        decreases depth,
    {
        let entry = match self.lookup(layer, chord) {
            Some(v) => v,
            // As a fallback, look for a default action at the empty chord 0:
            // that chord can never be produced by real presses, so a layer
            // may use it as its default entry.
            None => match self.lookup(layer, 0) {
                Some(v) => v,
                None => {
                    return UsbOutcome::Nothing;
                },
            },
        };
        match entry {
            LayerOutcome::Emit(v) => {
                let t = self.temporary_plus_mask;
                self.temporary_plus_mask = 0;
                v.or_mask(t)
            },
            LayerOutcome::TemporaryPlusMask { mask } => {
                self.temporary_plus_mask = self.temporary_plus_mask | mask;
                UsbOutcome::Nothing
            },
            LayerOutcome::TemporaryLayerSwitch { layer: l } => {
                self.temporary_layer = Some(l);
                UsbOutcome::Nothing
            },
            LayerOutcome::FromOtherPlusMask { layer: l, mask } => {
                if depth == 0 {
                    UsbOutcome::Nothing
                } else {
                    self.resolve(l, chord, depth - 1).or_mask(mask)
                }
            },
        }
    }

    /// The table entry for `chord` on `layer`, or `None` if absent.
    pub fn lookup(&self, layer: i32, chord: u8) -> (r: Option<LayerOutcome>)
        ensures
            r == Self::spec_lookup(layer, chord),
    {
        if layer == 1 {
            Self::lookup1(chord)  // "SHIFT"
        } else {
            Self::lookup0(chord)
        }
    }

    /// The base layer's table.
    pub fn lookup0(chord: u8) -> (r: Option<LayerOutcome>)
        ensures
            r == Self::spec_lookup0(chord),
    {
        match chord {
            0b00_10_00_11 => Some(Emit(Hit(UP))),  // "_^_%"
            0b00_01_00_11 => Some(Emit(Hit(DOWN))),  // "_v_%"
            0b10_00_00_11 => Some(Emit(Hit(LEFT))),  // "^__%"
            0b01_00_00_11 => Some(Emit(Hit(RIGHT))),  // "v__%"
            0b10_10_00_11 => Some(Emit(Hit(PAGE_UP))),  // "^^_%"
            0b01_01_00_01 => Some(Emit(Hit(PAGE_DOWN))),  // "vv_v"
            0b00_00_10_00 => Some(Emit(Hit(SPACE))),  // "__^_"
            0b00_10_00_00 => Some(Emit(Hit(BACKSPACE))),  // "_^__"
            0b00_00_00_10 => Some(Emit(Hit(E))),  // "___^"
            0b00_00_00_01 => Some(Emit(Hit(T))),  // "___v"
            0b00_00_01_00 => Some(Emit(Hit(A))),  // "__v_"
            0b00_00_00_11 => Some(Emit(Hit(I))),  // "___%"
            0b00_00_11_00 => Some(Emit(Hit(O))),  // "__%_"
            0b00_01_00_00 => Some(Emit(Hit(N))),  // "_v__"
            0b10_00_00_00 => Some(Emit(Hit(S))),  // "^___"
            0b00_11_00_00 => Some(Emit(Hit(H))),  // "_%__"
            0b01_00_00_00 => Some(Emit(Hit(R))),  // "v___"
            0b11_00_00_00 => Some(Emit(Hit(L))),  // "%___"
            0b00_00_10_10 => Some(Emit(Hit(D))),  // "__^^"
            0b00_00_01_01 => Some(Emit(Hit(C))),  // "__vv"
            0b00_00_10_01 => Some(Emit(Hit(U))),  // "__^v"
            0b10_10_00_00 => Some(Emit(Hit(M))),  // "^^__"
            0b00_01_01_00 => Some(TemporaryLayerSwitch { layer: 1 }),  // "_vv_" SHIFT
            0b00_10_10_00 => Some(TemporaryPlusMask { mask: CTRL_FLAG }),  // "_^^_" CTRL
            0b11_11_00_00 => Some(TemporaryPlusMask { mask: ALT_FLAG }),  // "%%__" ALT
            0b00_11_11_00 => Some(TemporaryPlusMask { mask: GUI_FLAG }),  // "_%%_" GUI
            0b00_10_00_10 => Some(Emit(Hit(TAB))),  // "_^_^"
            0b00_00_10_11 => Some(Emit(Hit(W))),  // "__^%"
            0b00_10_00_01 => Some(Emit(Hit(G))),  // "_^_v"
            0b00_00_11_01 => Some(Emit(Hit(F))),  // "__%v"
            0b00_00_11_11 => Some(Emit(Hit(Y))),  // "__%%"
            0b00_01_00_01 => Some(Emit(Hit(P))),  // "_v_v"
            0b01_00_00_01 => Some(Emit(Hit(B))),  // "v__v"
            0b10_00_00_10 => Some(Emit(Hit(COMMA))),  // "^__^"
            0b00_10_10_10 => Some(Emit(Hit(PERIOD))),  // "_^^^"
            0b00_01_01_01 => Some(Emit(Hit(V))),  // "_vvv"
            0b00_11_00_11 => Some(Emit(Hit(ENTER))),  // "_%_%"
            0b01_01_01_01 => Some(Emit(Hit(ESC))),  // "vvvv"
            0b10_00_00_01 => Some(Emit(Hit(K))),  // "^__v"
            0b11_00_00_11 => Some(Emit(Hit(QUOTE))),  // "%__%"
            0b11_00_00_01 => Some(Emit(Hit(QUOTE | SHIFT_FLAG))),  // "%__v" \"
            0b01_01_01_00 => Some(Emit(Hit(MINUS))),  // "vvv_"
            0b00_00_01_11 => Some(Emit(Hit(X))),  // "__v%"
            0b00_11_11_11 => Some(Emit(Hit(J))),  // "_%%%"
            0b00_11_00_01 => Some(Emit(Hit(SEMICOLON))),  // "_%_v"
            0b10_10_10_00 => Some(Emit(Hit(KEY_9 | SHIFT_FLAG))),  // "^^^_" (
            0b10_00_10_00 => Some(Emit(Hit(KEY_0 | SHIFT_FLAG))),  // "^_^_" )
            0b10_10_10_10 => Some(Emit(Hit(Q))),  // "^^^^"
            0b00_10_10_01 => Some(Emit(Hit(SLASH))),  // "_^^v"
            0b00_10_10_11 => Some(Emit(Hit(Z))),  // "_^^%"
            0b10_10_00_01 => Some(Emit(Hit(SEMICOLON | SHIFT_FLAG))),  // "^^_v" :
            0b00_10_11_00 => Some(Emit(Hit(KEY_0))),  // "_^%_"
            0b01_00_01_00 => Some(Emit(Hit(KEY_1))),  // "v_v_"
            0b11_00_11_00 => Some(Emit(Hit(KEY_2))),  // "%_%_"
            0b11_11_11_00 => Some(Emit(Hit(KEY_3))),  // "%%%_"
            0b10_10_10_11 => Some(Emit(Hit(KEY_4))),  // "^^^%"
            0b00_01_01_11 => Some(Emit(Hit(EQUAL))),  // "_vv%"
            0b11_10_00_00 => Some(Emit(Hit(KEY_4 | SHIFT_FLAG))),  // "%^__" $
            0b10_00_11_00 => Some(Emit(Hit(LEFT_BRACE | SHIFT_FLAG))),  // "^_%_" {
            0b01_00_11_00 => Some(Emit(Hit(RIGHT_BRACE | SHIFT_FLAG))),  // "v_%_" }
            _ => None,
        }
    }

    /// The "SHIFT" layer's table.
    pub fn lookup1(chord: u8) -> (r: Option<LayerOutcome>)
        ensures
            r == Self::spec_lookup1(chord),
    {
        match chord {
            0b00_00_00_00 => Some(FromOtherPlusMask { layer: 0, mask: SHIFT_FLAG }),  // default: base layer + Shift
            0b00_10_11_00 => Some(Emit(Hit(KEY_5))),  // "_^%_" S-0 5
            0b01_00_01_00 => Some(Emit(Hit(KEY_6))),  // "v_v_" S-1 6
            0b11_00_11_00 => Some(Emit(Hit(KEY_7))),  // "%_%_" S-2 7
            0b11_11_11_00 => Some(Emit(Hit(KEY_8))),  // "%%%_" S-3 8
            0b10_10_10_11 => Some(Emit(Hit(KEY_9))),  // "^^^%" S-4 9
            0b10_00_00_10 => Some(Emit(Hit(SLASH | SHIFT_FLAG))),  // "^__^" S-, ?
            0b00_10_10_10 => Some(Emit(Hit(KEY_1 | SHIFT_FLAG))),  // "_^^^" S-. !
            0b01_01_01_00 => Some(Emit(Hit(MINUS | SHIFT_FLAG))),  // "vvv_" S-- _
            0b11_00_00_11 => Some(Emit(Hit(TILDE))),  // "%__%" S-' `
            0b10_10_10_00 => Some(Emit(Hit(LEFT_BRACE))),  // "^^^_" S-( [
            0b10_00_10_00 => Some(Emit(Hit(RIGHT_BRACE))),  // "^_^_" S-) ]
            0b00_01_01_11 => Some(Emit(Hit(EQUAL | SHIFT_FLAG))),  // "_vv%" S-= +
            0b10_00_11_00 => Some(Emit(Hit(COMMA | SHIFT_FLAG))),  // "^_%_" S-{ <
            0b01_00_11_00 => Some(Emit(Hit(PERIOD | SHIFT_FLAG))),  // "v_%_" S-} >
            0b11_00_00_01 => Some(Emit(Hit(KEY_7 | SHIFT_FLAG))),  // "%__v" S-\" &
            0b00_11_00_01 => Some(Emit(Hit(KEY_2 | SHIFT_FLAG))),  // "_%_v" S-; @
            0b00_10_10_01 => Some(Emit(Hit(BACKSLASH))),  // "_^^v" S-/ \\
            0b10_10_00_01 => Some(Emit(Hit(BACKSLASH | SHIFT_FLAG))),  // "^^_v" S-: |
            0b11_10_00_00 => Some(Emit(Hit(TILDE | SHIFT_FLAG))),  // "%^__" S-$ ~
            0b10_10_00_11 => Some(Emit(Hit(KEY_6 | SHIFT_FLAG))),  // "^^_%" S-* ^
            0b00_10_00_00 => Some(Emit(Hit(DELETE))),  // "_^__" S-Backspace
            0b00_10_00_11 => Some(Emit(Hit(HOME))),  // "_^_%" S-Up
            0b00_01_00_11 => Some(Emit(Hit(END))),  // "_v_%" S-Down
            _ => None,
        }
    }
}

} // verus!
