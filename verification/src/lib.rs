//! Chord-resolution engine for a chorded keyboard.
//!
//! Eight physical switches (tip and base for four fingers) are sampled as an
//! 8-bit [`SwitchSet`] once per scan tick and fed to [`Engine::handle`], which
//! turns completed chords into USB key events ([`UsbOutcome`]). The layout —
//! which chord means what on which layer — is supplied through the [`Lookup`]
//! trait; the engine itself only implements the resolution state machine:
//! switch accumulation, layer switching, modifier-mask composition, the
//! per-layer "unchorded" key mode, and deferred release shunting.

use vstd::prelude::*;

pub mod chordite;
pub mod keycodes;
pub mod laws;
pub mod pattern;
pub mod sample_layers;
pub mod usb_kbd;
pub mod usb_simpler;

verus! {

use crate::keycodes::KeyWithFlags;

/// Which of the eight physical switches are currently down.
///
/// The most significant bit is the pinky finger's tip switch, then the pinky
/// finger's base switch. Subsequent bit pairs are the tip and base of the
/// ring, middle, and index fingers. E.g. `0b10_00_00_01` is: pinky tip +
/// index base pressed.
#[derive(Clone, Copy, PartialEq, Eq, Structural)]
pub struct SwitchSet(pub u8);

/// One USB event produced by the engine: at most one per call to `handle`.
///
/// `KeyHit` is a complete press-and-release of a key; `KeyPress` and
/// `KeyRelease` are the make and break halves of a held key (used by the
/// unchorded mode).
#[derive(Clone, Copy, Debug, PartialEq, Eq)]
pub enum UsbOutcome<K> {
    Nothing,
    KeyHit(K),
    KeyPress(K),
    KeyRelease(K),
}

/// Per-layer metadata reported by a layout.
pub struct LayerInfo {
    /// Which switch bits act as individual make/break keys on this layer
    /// instead of contributing to chords.
    pub unchorded_mask: SwitchSet,
}

/// What a resolved chord means on some layer.
#[derive(Clone, Copy)]
pub enum LayerOutcome<K> {
    /// Reset layer, temporary layer and both plus masks to their defaults.
    ClearState,
    /// Produce a key event, modulated by the active plus masks.
    Emit(UsbOutcome<K>),
    /// Switch the persistent layer.
    LayerSwitch { layer: i32 },
    /// Switch the layer for exactly the next one chord resolution.
    TemporaryLayerSwitch { layer: i32 },
    /// Toggle a sticky modifier mask, like Alt, Shift, GUI or RAlt.
    TogglePlusMask { mask: K },
    /// Add a modifier mask for the next resolution only.
    TemporaryPlusMask { mask: K },
    /// Resolve the same chord on another layer, with an extra modifier mask.
    FromOtherPlusMask { layer: i32, mask: K },
}

/// A layout: the externally supplied tables that give chords their meaning.
///
/// Each exec method is paired with a spec function so that the engine's own
/// contract can state exactly which table entries a call consults.
pub trait Lookup {
    /// The table entry for `chord` on `layer`, or `None` if absent.
    spec fn spec_lookup(layer: i32, chord: u8) -> Option<LayerOutcome<KeyWithFlags>>;

    /// Which switch bits are unchorded keys on `layer`.
    spec fn spec_unchorded_mask(layer: i32) -> u8;

    /// The key bound to the single unchorded switch bit `switch` on `layer`.
    spec fn spec_unchorded_key(layer: i32, switch: u8) -> Option<KeyWithFlags>;

    fn lookup(layer: i32, chord: u8) -> (r: Option<LayerOutcome<KeyWithFlags>>)
        ensures
            r == Self::spec_lookup(layer, chord),
    ;

    fn info(layer: i32) -> (r: LayerInfo)
        ensures
            r.unchorded_mask.0 == Self::spec_unchorded_mask(layer),
    ;

    fn unchorded_key(layer: i32, switch: SwitchSet) -> (r: Option<KeyWithFlags>)
        ensures
            r == Self::spec_unchorded_key(layer, switch.0),
    ;
}

/// How many `FromOtherPlusMask` delegations one resolution may chain through.
///
/// The delegation chain walks layout data, so a cyclic layout could make it
/// recurse forever; past this many hops the engine gives up and yields
/// `Nothing`. Any acyclic layout resolves in far fewer hops.
pub const FROM_OTHER_LIMIT: u8 = 8;

/// The chord-resolution engine: a pure, synchronous state reducer.
///
/// Feed it one debounced [`SwitchSet`] sample per scan tick via [`Engine::handle`]
/// and dispatch the returned [`UsbOutcome`]. Its whole behaviour is given by
/// [`spec_handle`] over its abstract state [`EngineView`].
pub struct Engine<L: Lookup> {
    most: SwitchSet,
    layer: i32,
    temporary_layer: Option<i32>,
    plus_mask: KeyWithFlags,
    temporary_plus_mask: KeyWithFlags,
    unchorded_state: SwitchSet,
    unchorded_shunt: SwitchSet,
    layout: core::marker::PhantomData<L>,
}

/// The abstract state of an [`Engine`]: what its contracts speak of.
pub struct EngineView {
    /// Bitwise OR of all switches seen pressed since the last full release.
    pub most: u8,
    /// The persistent active layer; 0 is the base layer.
    pub layer: i32,
    /// If set, overrides `layer` for exactly the next chord resolution.
    pub temporary_layer: Option<i32>,
    /// Modifier flags ORed into every emitted key until cleared.
    pub plus_mask: KeyWithFlags,
    /// Modifier flags ORed into the next emitted key only.
    pub temporary_plus_mask: KeyWithFlags,
    /// Which unchorded switches are currently held down.
    pub unchorded_state: u8,
    /// Unchorded switches whose release is still owed after a layer exit.
    pub unchorded_shunt: u8,
}

impl EngineView {
    /// The state a fresh engine starts in: base layer, nothing accumulated.
    pub open spec fn initial() -> EngineView {
        EngineView {
            most: 0,
            layer: 0,
            temporary_layer: None,
            plus_mask: 0,
            temporary_plus_mask: 0,
            unchorded_state: 0,
            unchorded_shunt: 0,
        }
    }
}

impl<L: Lookup> View for Engine<L> {
    type V = EngineView;

    closed spec fn view(&self) -> EngineView {
        EngineView {
            most: self.most.0,
            layer: self.layer,
            temporary_layer: self.temporary_layer,
            plus_mask: self.plus_mask,
            temporary_plus_mask: self.temporary_plus_mask,
            unchorded_state: self.unchorded_state.0,
            unchorded_shunt: self.unchorded_shunt.0,
        }
    }
}

/// Composes the active modifier masks into `key`, consuming the temporary
/// mask: the new state and the composed key.
pub open spec fn spec_apply_masks(st: EngineView, key: KeyWithFlags) -> (EngineView, KeyWithFlags) {
    (
        EngineView { temporary_plus_mask: 0, ..st },
        key | st.temporary_plus_mask | st.plus_mask,
    )
}

/// The effect of an `Emit` outcome: non-`Nothing` events get the active
/// modifier masks composed in, consuming the temporary mask.
pub open spec fn spec_emit(st: EngineView, v: UsbOutcome<KeyWithFlags>) -> (
    EngineView,
    UsbOutcome<KeyWithFlags>,
) {
    match v {
        UsbOutcome::Nothing => (st, UsbOutcome::Nothing),
        UsbOutcome::KeyHit(k) => {
            let (st2, k2) = spec_apply_masks(st, k);
            (st2, UsbOutcome::KeyHit(k2))
        },
        UsbOutcome::KeyPress(k) => {
            let (st2, k2) = spec_apply_masks(st, k);
            (st2, UsbOutcome::KeyPress(k2))
        },
        UsbOutcome::KeyRelease(k) => {
            let (st2, k2) = spec_apply_masks(st, k);
            (st2, UsbOutcome::KeyRelease(k2))
        },
    }
}

/// Resolution of one chord on one layer, with `depth` delegation hops left.
///
/// The exact chord is looked up first; a layer with no entry for it falls
/// back to its entry at chord 0 (that chord can never be produced by real
/// presses, so it serves as the layer's default). A chord with no entry
/// either way resolves to `Nothing`.
pub open spec fn spec_resolve<L: Lookup>(
    st: EngineView,
    layer: i32,
    chord: u8,
    depth: nat,
) -> (EngineView, UsbOutcome<KeyWithFlags>)
    decreases depth, 1int,
{
    let entry = if L::spec_lookup(layer, chord) is Some {
        L::spec_lookup(layer, chord)
    } else {
        L::spec_lookup(layer, 0)
    };
    spec_dispatch::<L>(st, entry, chord, depth)
}

/// The effect of one looked-up table entry (or of its absence) on the state:
/// how [`spec_resolve`] acts once the entry to apply is settled.
pub open spec fn spec_dispatch<L: Lookup>(
    st: EngineView,
    entry: Option<LayerOutcome<KeyWithFlags>>,
    chord: u8,
    depth: nat,
) -> (EngineView, UsbOutcome<KeyWithFlags>)
    decreases depth, 0int,
{
    match entry {
        None => (st, UsbOutcome::Nothing),
        Some(outcome) => match outcome {
            LayerOutcome::ClearState => (
                EngineView {
                    layer: 0,
                    temporary_layer: None,
                    plus_mask: 0,
                    temporary_plus_mask: 0,
                    unchorded_state: 0,
                    unchorded_shunt: st.unchorded_state,
                    ..st
                },
                UsbOutcome::Nothing,
            ),
            LayerOutcome::Emit(v) => spec_emit(st, v),
            LayerOutcome::LayerSwitch { layer: l } => (
                EngineView { layer: l, unchorded_state: 0, unchorded_shunt: st.unchorded_state, ..st },
                UsbOutcome::Nothing,
            ),
            LayerOutcome::TemporaryLayerSwitch { layer: l } => (
                EngineView {
                    temporary_layer: Some(l),
                    unchorded_state: 0,
                    unchorded_shunt: st.unchorded_state,
                    ..st
                },
                UsbOutcome::Nothing,
            ),
            LayerOutcome::TogglePlusMask { mask } => (
                EngineView {
                    temporary_plus_mask: st.temporary_plus_mask & !mask,
                    plus_mask: st.plus_mask | mask,
                    ..st
                },
                UsbOutcome::Nothing,
            ),
            LayerOutcome::TemporaryPlusMask { mask } => (
                EngineView { temporary_plus_mask: st.temporary_plus_mask | mask, ..st },
                UsbOutcome::Nothing,
            ),
            LayerOutcome::FromOtherPlusMask { layer: l, mask } => {
                let st2 = EngineView { temporary_plus_mask: st.temporary_plus_mask | mask, ..st };
                if depth == 0 {
                    (st2, UsbOutcome::Nothing)
                } else {
                    spec_resolve::<L>(st2, l, chord, (depth - 1) as nat)
                }
            },
        },
    }
}

/// The unchorded mask in effect: the current layer's, except that unchorded
/// mode is off (mask 0) while a temporary layer is armed.
pub open spec fn spec_effective_unchorded_mask<L: Lookup>(st: EngineView) -> u8 {
    if st.temporary_layer is None {
        L::spec_unchorded_mask(st.layer)
    } else {
        0
    }
}

/// One step of the engine on sample `switches`: the new state and the event.
///
/// In priority order: drain one pending shunted release; report one unchorded
/// key edge; accumulate pressed chord bits; on full release, resolve the
/// accumulated chord on the temporary layer if armed, else the persistent one.
pub open spec fn spec_handle<L: Lookup>(st: EngineView, switches: u8) -> (
    EngineView,
    UsbOutcome<KeyWithFlags>,
) {
    if st.unchorded_shunt != 0 {
        match st.temporary_layer {
            None => (EngineView { unchorded_shunt: 0, ..st }, UsbOutcome::Nothing),
            Some(layer) => {
                let msb = spec_top_bit(st.unchorded_shunt);
                let shunt2 = st.unchorded_shunt & !msb;
                let st2 = EngineView {
                    unchorded_shunt: shunt2,
                    temporary_layer: if shunt2 == 0 {
                        None
                    } else {
                        st.temporary_layer
                    },
                    ..st
                };
                match L::spec_unchorded_key(layer, msb) {
                    None => (st2, UsbOutcome::Nothing),
                    Some(key) => {
                        let (st3, k2) = spec_apply_masks(st2, key);
                        (st3, UsbOutcome::KeyRelease(k2))
                    },
                }
            },
        }
    } else {
        let umask = spec_effective_unchorded_mask::<L>(st);
        let unchorded = switches & umask;
        let msb = spec_top_bit(unchorded ^ st.unchorded_state);
        if unchorded != st.unchorded_state && L::spec_unchorded_key(st.layer, msb) is Some {
            let key = L::spec_unchorded_key(st.layer, msb).unwrap();
            let (st2, k2) = spec_apply_masks(st, key);
            let out = if st.unchorded_state & msb == 0 {
                UsbOutcome::KeyPress(k2)
            } else {
                UsbOutcome::KeyRelease(k2)
            };
            (EngineView { unchorded_state: st.unchorded_state ^ msb, ..st2 }, out)
        } else {
            let chord_bits = switches & !umask;
            if chord_bits != 0 {
                (EngineView { most: st.most | chord_bits, ..st }, UsbOutcome::Nothing)
            } else if st.most == 0 {
                (st, UsbOutcome::Nothing)
            } else {
                let layer = match st.temporary_layer {
                    Some(l) => l,
                    None => st.layer,
                };
                spec_resolve::<L>(
                    EngineView { most: 0, temporary_layer: None, ..st },
                    layer,
                    st.most,
                    FROM_OTHER_LIMIT as nat,
                )
            }
        }
    }
}

impl<L: Lookup> Default for Engine<L> {
    /// A fresh engine in [`EngineView::initial`] state.
    fn default() -> (r: Self)
        ensures
            r@ == EngineView::initial(),
    {
        Engine {
            most: SwitchSet(0),
            layer: 0,
            temporary_layer: None,
            plus_mask: 0,
            temporary_plus_mask: 0,
            unchorded_state: SwitchSet(0),
            unchorded_shunt: SwitchSet(0),
            layout: core::marker::PhantomData,
        }
    }
}

impl<L: Lookup> Engine<L> {
    /// Processes one switch sample and returns the one resulting USB event,
    /// exactly as [`spec_handle`] prescribes.
    pub fn handle(&mut self, switches: SwitchSet) -> (out: UsbOutcome<KeyWithFlags>)
        ensures
            ({
                let (post, o) = spec_handle::<L>(old(self)@, switches.0);
                final(self)@ == post && out == o
            }),
    {
        // Unchorded keys still pressed on an exited layer? Drain their
        // releases one per call, ignoring all other input until done.
        if self.unchorded_shunt.0 != 0 {
            let msb = top_bit(self.unchorded_shunt.0);
            self.unchorded_shunt.0 = self.unchorded_shunt.0 & !msb;
            let layer = match self.temporary_layer {
                Some(l) => l,
                None => {
                    // The previous layer should have been parked in
                    // temporary_layer; without it the drain cannot resolve
                    // keys, so give up on the pending releases.
                    self.unchorded_shunt = SwitchSet(0);
                    return UsbOutcome::Nothing;
                },
            };
            if self.unchorded_shunt.0 == 0 {
                self.temporary_layer = None;
            }
            let key = match L::unchorded_key(layer, SwitchSet(msb)) {
                Some(k) => k,
                None => {
                    return UsbOutcome::Nothing;
                },
            };
            return UsbOutcome::KeyRelease(self.plus_masked(key));
        }
        // Check unchorded switches for an edge; not on temporary layers,
        // unchorded mode is incompatible with them.
        let unchorded_mask: u8 = match self.temporary_layer {
            None => L::info(self.layer).unchorded_mask.0,
            Some(_) => 0,
        };
        let unchorded = switches.0 & unchorded_mask;
        if unchorded != self.unchorded_state.0 {
            // The topmost bit that differs between the previous and the
            // current unchorded state is reported; further edges wait for
            // later calls.
            let msb = top_bit(unchorded ^ self.unchorded_state.0);
            match L::unchorded_key(self.layer, SwitchSet(msb)) {
                Some(key) => {
                    let key = self.plus_masked(key);
                    let out = if self.unchorded_state.0 & msb == 0 {
                        UsbOutcome::KeyPress(key)
                    } else {
                        UsbOutcome::KeyRelease(key)
                    };
                    self.unchorded_state.0 = self.unchorded_state.0 ^ msb;
                    return out;
                },
                None => {
                    // A layout gap: treat the bit as a chord bit instead.
                },
            }
        }
        let chord_bits = switches.0 & !unchorded_mask;
        // Some switches pressed? Accumulate; nothing resolves yet.
        if chord_bits != 0 {
            self.most.0 = self.most.0 | chord_bits;
            return UsbOutcome::Nothing;
        }
        // All switches released: resolve what was accumulated, if anything.
        let most = self.most.0;
        self.most = SwitchSet(0);
        if most == 0 {
            return UsbOutcome::Nothing;
        }
        let layer = match self.temporary_layer {
            Some(l) => {
                self.temporary_layer = None;
                l
            },
            None => self.layer,
        };
        self.resolve(layer, most, FROM_OTHER_LIMIT)
    }

    /// Resolves `chord` on `layer` with `depth` delegation hops left,
    /// exactly as [`spec_resolve`] prescribes.
    pub fn resolve(&mut self, layer: i32, chord: u8, depth: u8) -> (out: UsbOutcome<KeyWithFlags>)
        ensures
            ({
                let (post, o) = spec_resolve::<L>(old(self)@, layer, chord, depth as nat);
                final(self)@ == post && out == o
            }),
        decreases depth,
    {
        let entry = match L::lookup(layer, chord) {
            Some(v) => v,
            // As a fallback, look for a default action at the empty chord 0:
            // that chord can never be produced by real presses, so a layer
            // may use it as its default entry.
            None => match L::lookup(layer, 0) {
                Some(v) => v,
                None => {
                    return UsbOutcome::Nothing;
                },
            },
        };
        match entry {
            LayerOutcome::ClearState => {
                self.layer = 0;
                self.temporary_layer = None;
                self.plus_mask = 0;
                self.temporary_plus_mask = 0;
                self.shunt_unchorded();
                UsbOutcome::Nothing
            },
            LayerOutcome::Emit(v) => match v {
                UsbOutcome::Nothing => UsbOutcome::Nothing,
                UsbOutcome::KeyHit(k) => UsbOutcome::KeyHit(self.plus_masked(k)),
                UsbOutcome::KeyPress(k) => UsbOutcome::KeyPress(self.plus_masked(k)),
                UsbOutcome::KeyRelease(k) => UsbOutcome::KeyRelease(self.plus_masked(k)),
            },
            LayerOutcome::LayerSwitch { layer: l } => {
                self.layer = l;
                self.shunt_unchorded();
                UsbOutcome::Nothing
            },
            LayerOutcome::TemporaryLayerSwitch { layer: l } => {
                self.temporary_layer = Some(l);
                self.shunt_unchorded();
                UsbOutcome::Nothing
            },
            LayerOutcome::TogglePlusMask { mask } => {
                self.temporary_plus_mask = self.temporary_plus_mask & !mask;
                self.plus_mask = self.plus_mask | mask;
                UsbOutcome::Nothing
            },
            LayerOutcome::TemporaryPlusMask { mask } => {
                self.temporary_plus_mask = self.temporary_plus_mask | mask;
                UsbOutcome::Nothing
            },
            LayerOutcome::FromOtherPlusMask { layer: l, mask } => {
                self.temporary_plus_mask = self.temporary_plus_mask | mask;
                if depth == 0 {
                    UsbOutcome::Nothing
                } else {
                    self.resolve(l, chord, depth - 1)
                }
            },
        }
    }

    /// Composes the active modifier masks into `key`, consuming the
    /// temporary mask.
    fn plus_masked(&mut self, key: KeyWithFlags) -> (r: KeyWithFlags)
        ensures
            ({
                let (post, k2) = spec_apply_masks(old(self)@, key);
                final(self)@ == post && r == k2
            }),
    {
        let t = self.temporary_plus_mask;
        self.temporary_plus_mask = 0;
        key | t | self.plus_mask
    }

    /// Moves the currently held unchorded keys into the shunt set, so their
    /// releases get delivered on subsequent calls.
    fn shunt_unchorded(&mut self)
        ensures
            final(self)@ == (EngineView {
                unchorded_state: 0,
                unchorded_shunt: old(self)@.unchorded_state,
                ..old(self)@
            }),
    {
        self.unchorded_shunt = SwitchSet(self.unchorded_state.0);
        self.unchorded_state = SwitchSet(0);
    }
}

/// The first entry for `chord` in `layout` at index `i` or later, if any.
pub open spec fn spec_lookup_in_slice_from<K>(
    chord: u8,
    layout: Seq<(u8, LayerOutcome<K>)>,
    i: int,
) -> Option<LayerOutcome<K>>
    decreases layout.len() - i,
{
    if i < 0 || i >= layout.len() {
        None
    } else if layout[i].0 == chord {
        Some(layout[i].1)
    } else {
        spec_lookup_in_slice_from(chord, layout, i + 1)
    }
}

/// The first entry for `chord` in `layout`, if any.
pub open spec fn spec_lookup_in_slice<K>(chord: u8, layout: Seq<(u8, LayerOutcome<K>)>) -> Option<
    LayerOutcome<K>,
> {
    spec_lookup_in_slice_from(chord, layout, 0)
}

/// Finds the first entry for `chord` in a layout table held as a slice of
/// `(chord, outcome)` pairs.
pub fn lookup_in_slice<'a, K>(chord: u8, layout: &'a [(u8, LayerOutcome<K>)]) -> (r: Option<
    &'a LayerOutcome<K>,
>)
    ensures
        (match r {
            Some(o) => Some(*o),
            None => None,
        }) == spec_lookup_in_slice(chord, layout@),
{
    let n = layout.len();
    let mut i: usize = 0;
    while i < n
        invariant
            0 <= i <= n == layout@.len(),
            spec_lookup_in_slice_from(chord, layout@, 0) == spec_lookup_in_slice_from(
                chord,
                layout@,
                i as int,
            ),
        decreases n - i,
    {
        if layout[i].0 == chord {
            return Some(&layout[i].1);
        }
        i = i + 1;
    }
    None
}

/// Returns the highest power of two no greater than `v`, i.e. `v`'s most
/// significant set bit, or 0 when `v` is 0.
pub open spec fn spec_top_bit(v: u8) -> u8 {
    if v >= 128 {
        128
    } else if v >= 64 {
        64
    } else if v >= 32 {
        32
    } else if v >= 16 {
        16
    } else if v >= 8 {
        8
    } else if v >= 4 {
        4
    } else if v >= 2 {
        2
    } else if v >= 1 {
        1
    } else {
        0
    }
}

/// The most significant set bit of `v`, or 0 when `v` is 0.
pub fn top_bit(v: u8) -> (r: u8)
    ensures
        r == spec_top_bit(v),
{
    if v >= 128 {
        128
    } else if v >= 64 {
        64
    } else if v >= 32 {
        32
    } else if v >= 16 {
        16
    } else if v >= 8 {
        8
    } else if v >= 4 {
        4
    } else if v >= 2 {
        2
    } else if v >= 1 {
        1
    } else {
        0
    }
}

} // verus!
