//! The engine's laws: properties of [`spec_handle`] and [`spec_resolve`]
//! that hold for every layout and every reachable state, each proved here.

use vstd::prelude::*;

verus! {

use crate::{
    spec_dispatch, spec_effective_unchorded_mask, spec_handle, spec_resolve, spec_top_bit,
    EngineView, LayerOutcome, Lookup, UsbOutcome, FROM_OTHER_LIMIT,
};
use crate::keycodes::KeyWithFlags;

/// Law: an all-zero sample in a quiet state does nothing. When no switches
/// were previously accumulated, no unchorded keys are held and no shunt is
/// pending, `handle` with an all-zero `SwitchSet` returns `Nothing` and
/// leaves the state untouched.
pub proof fn lemma_idle<L: Lookup>(st: EngineView)
    requires
        st.unchorded_shunt == 0,
        st.unchorded_state == 0,
        st.most == 0,
    ensures
        spec_handle::<L>(st, 0) == (st, UsbOutcome::<KeyWithFlags>::Nothing),
{
    let m = spec_effective_unchorded_mask::<L>(st);
    assert(0u8 & m == 0 && 0u8 & !m == 0) by (bit_vector);
}

/// Law: presses accumulate. While any chord switch remains pressed (and no
/// unchorded edge or pending shunt intervenes), a sample only ORs its chord
/// bits into the accumulator and emits `Nothing`; the order in which the
/// switches of a chord go down therefore cannot matter.
pub proof fn lemma_accumulate<L: Lookup>(st: EngineView, switches: u8)
    requires
        st.unchorded_shunt == 0,
        switches & spec_effective_unchorded_mask::<L>(st) == st.unchorded_state,
        switches & !spec_effective_unchorded_mask::<L>(st) != 0,
    ensures
        spec_handle::<L>(st, switches) == (
            (EngineView {
                most: st.most | (switches & !spec_effective_unchorded_mask::<L>(st)),
                ..st
            }),
            UsbOutcome::<KeyWithFlags>::Nothing,
        ),
{
}

/// Law: full release resolves the accumulated union. When every switch is
/// released with a non-empty accumulator (and no unchorded key is held and no
/// shunt is pending), the whole OR-accumulated chord is resolved on the
/// temporary layer if one is armed, else on the persistent layer; the
/// accumulator is emptied and the temporary layer is consumed before
/// resolution.
pub proof fn lemma_release_resolves<L: Lookup>(st: EngineView)
    requires
        st.unchorded_shunt == 0,
        st.unchorded_state == 0,
        st.most != 0,
    ensures
        spec_handle::<L>(st, 0) == spec_resolve::<L>(
            (EngineView { most: 0, temporary_layer: None, ..st }),
            (match st.temporary_layer {
                Some(l) => l,
                None => st.layer,
            }),
            st.most,
            FROM_OTHER_LIMIT as nat,
        ),
{
    let m = spec_effective_unchorded_mask::<L>(st);
    assert(0u8 & m == 0 && 0u8 & !m == 0) by (bit_vector);
}

/// Law: an `Emit` entry composes and consumes the modifier masks. Resolving a
/// chord whose entry emits a key yields that key ORed with the temporary and
/// the persistent plus masks; the temporary mask is zeroed by exactly this
/// one use and the persistent mask, and all other state, is kept.
pub proof fn lemma_emit_applies_masks<L: Lookup>(
    st: EngineView,
    layer: i32,
    chord: u8,
    k: KeyWithFlags,
    depth: nat,
)
    requires
        L::spec_lookup(layer, chord) == Some(
            LayerOutcome::<KeyWithFlags>::Emit(UsbOutcome::KeyHit(k)),
        ),
    ensures
        spec_resolve::<L>(st, layer, chord, depth) == (
            (EngineView { temporary_plus_mask: 0, ..st }),
            UsbOutcome::KeyHit(k | st.temporary_plus_mask | st.plus_mask),
        ),
{
}

/// Law: a sticky toggle moves a mask from temporary to persistent. Resolving
/// a `TogglePlusMask` entry clears the mask's bits from the temporary plus
/// mask, ORs them into the persistent plus mask — which then applies to every
/// subsequent emission until cleared — and emits `Nothing`.
pub proof fn lemma_toggle_plus_mask<L: Lookup>(
    st: EngineView,
    layer: i32,
    chord: u8,
    mask: KeyWithFlags,
    depth: nat,
)
    requires
        L::spec_lookup(layer, chord) == Some(
            LayerOutcome::<KeyWithFlags>::TogglePlusMask { mask },
        ),
    ensures
        spec_resolve::<L>(st, layer, chord, depth) == (
            (EngineView {
                temporary_plus_mask: st.temporary_plus_mask & !mask,
                plus_mask: st.plus_mask | mask,
                ..st
            }),
            UsbOutcome::<KeyWithFlags>::Nothing,
        ),
{
}

/// Law: a one-shot mask accumulates until consumed. Resolving a
/// `TemporaryPlusMask` entry ORs the mask into the temporary plus mask and
/// emits `Nothing`; together with [`lemma_emit_applies_masks`] this gives the
/// temporary mask exactly one use.
pub proof fn lemma_temporary_plus_mask<L: Lookup>(
    st: EngineView,
    layer: i32,
    chord: u8,
    mask: KeyWithFlags,
    depth: nat,
)
    requires
        L::spec_lookup(layer, chord) == Some(
            LayerOutcome::<KeyWithFlags>::TemporaryPlusMask { mask },
        ),
    ensures
        spec_resolve::<L>(st, layer, chord, depth) == (
            (EngineView { temporary_plus_mask: st.temporary_plus_mask | mask, ..st }),
            UsbOutcome::<KeyWithFlags>::Nothing,
        ),
{
}

/// Law: a temporary layer with a delegating entry round-trips. With a
/// temporary layer armed whose entry for the accumulated chord delegates to
/// another layer with an extra mask (the shift-layer pattern), and that other
/// layer emitting a key for the same chord, the full release emits the other
/// layer's key ORed with the extra mask, the prior temporary mask and the
/// persistent mask — and the temporary layer is consumed by exactly this one
/// resolution.
pub proof fn lemma_shift_layer_round_trip<L: Lookup>(
    st: EngineView,
    t: i32,
    base: i32,
    m: KeyWithFlags,
    k: KeyWithFlags,
)
    requires
        st.unchorded_shunt == 0,
        st.unchorded_state == 0,
        st.most != 0,
        st.temporary_layer == Some(t),
        L::spec_lookup(t, st.most) == Some(
            LayerOutcome::<KeyWithFlags>::FromOtherPlusMask { layer: base, mask: m },
        ),
        L::spec_lookup(base, st.most) == Some(
            LayerOutcome::<KeyWithFlags>::Emit(UsbOutcome::KeyHit(k)),
        ),
    ensures
        spec_handle::<L>(st, 0) == (
            (EngineView { most: 0, temporary_layer: None, temporary_plus_mask: 0, ..st }),
            UsbOutcome::KeyHit(k | (st.temporary_plus_mask | m) | st.plus_mask),
        ),
{
    lemma_release_resolves::<L>(st);
    let st1 = EngineView { most: 0, temporary_layer: None, ..st };
    let st2 = EngineView { temporary_plus_mask: st.temporary_plus_mask | m, ..st1 };
    assert(spec_resolve::<L>(st1, t, st.most, FROM_OTHER_LIMIT as nat) == spec_resolve::<L>(
        st2,
        base,
        st.most,
        (FROM_OTHER_LIMIT - 1) as nat,
    ));
    lemma_emit_applies_masks::<L>(st2, base, st.most, k, (FROM_OTHER_LIMIT - 1) as nat);
}

/// Law: an unchorded make edge reports one key press. With no shunt pending
/// and no temporary layer armed, a sample that newly sets exactly the topmost
/// differing unchorded bit — a bit the layout maps to a key — yields
/// `KeyPress` of that key with the modifier masks active at press time
/// composed in (consuming the temporary mask), and only that bit's tracked
/// state changes; chord accumulation is left alone.
pub proof fn lemma_unchorded_press<L: Lookup>(st: EngineView, switches: u8, k: KeyWithFlags)
    requires
        st.unchorded_shunt == 0,
        st.temporary_layer is None,
        switches & spec_effective_unchorded_mask::<L>(st) != st.unchorded_state,
        ({
            let msb = spec_top_bit(
                (switches & spec_effective_unchorded_mask::<L>(st)) ^ st.unchorded_state,
            );
            L::spec_unchorded_key(st.layer, msb) == Some(k) && st.unchorded_state & msb == 0
        }),
    ensures
        ({
            let msb = spec_top_bit(
                (switches & spec_effective_unchorded_mask::<L>(st)) ^ st.unchorded_state,
            );
            spec_handle::<L>(st, switches) == (
                (EngineView {
                    unchorded_state: st.unchorded_state ^ msb,
                    temporary_plus_mask: 0,
                    ..st
                }),
                UsbOutcome::KeyPress(k | st.temporary_plus_mask | st.plus_mask),
            )
        }),
{
}

/// Law: an unchorded break edge reports one key release. The counterpart of
/// [`lemma_unchorded_press`]: a sample that newly clears the topmost
/// differing unchorded bit yields `KeyRelease` of its key, with the same
/// mask composition and the same single-bit state change.
pub proof fn lemma_unchorded_release<L: Lookup>(st: EngineView, switches: u8, k: KeyWithFlags)
    requires
        st.unchorded_shunt == 0,
        st.temporary_layer is None,
        switches & spec_effective_unchorded_mask::<L>(st) != st.unchorded_state,
        ({
            let msb = spec_top_bit(
                (switches & spec_effective_unchorded_mask::<L>(st)) ^ st.unchorded_state,
            );
            L::spec_unchorded_key(st.layer, msb) == Some(k) && st.unchorded_state & msb != 0
        }),
    ensures
        ({
            let msb = spec_top_bit(
                (switches & spec_effective_unchorded_mask::<L>(st)) ^ st.unchorded_state,
            );
            spec_handle::<L>(st, switches) == (
                (EngineView {
                    unchorded_state: st.unchorded_state ^ msb,
                    temporary_plus_mask: 0,
                    ..st
                }),
                UsbOutcome::KeyRelease(k | st.temporary_plus_mask | st.plus_mask),
            )
        }),
{
}

/// Law: leaving a layer shunts the held unchorded keys. Resolving a
/// `TemporaryLayerSwitch` entry arms the temporary layer, moves the whole
/// set of currently held unchorded keys into the shunt set — so that their
/// releases get delivered on subsequent calls — and emits `Nothing`.
/// (`LayerSwitch` and `ClearState` trigger the same shunt.)
pub proof fn lemma_layer_exit_shunts<L: Lookup>(
    st: EngineView,
    layer: i32,
    chord: u8,
    l: i32,
    depth: nat,
)
    requires
        L::spec_lookup(layer, chord) == Some(
            LayerOutcome::<KeyWithFlags>::TemporaryLayerSwitch { layer: l },
        ),
    ensures
        spec_resolve::<L>(st, layer, chord, depth) == (
            (EngineView {
                temporary_layer: Some(l),
                unchorded_state: 0,
                unchorded_shunt: st.unchorded_state,
                ..st
            }),
            UsbOutcome::<KeyWithFlags>::Nothing,
        ),
{
}

/// Law: the shunt drains one release per call, ignoring all input. While a
/// shunt is pending and the exited layer is parked in `temporary_layer`,
/// `handle` releases exactly the topmost pending key per call — whatever the
/// sample says — shrinking the shunt strictly each time, and clears the
/// temporary layer exactly when the last pending release goes out.
pub proof fn lemma_shunt_drain_step<L: Lookup>(
    st: EngineView,
    switches: u8,
    t: i32,
    k: KeyWithFlags,
)
    requires
        st.unchorded_shunt != 0,
        st.temporary_layer == Some(t),
        L::spec_unchorded_key(t, spec_top_bit(st.unchorded_shunt)) == Some(k),
    ensures
        ({
            let shunt2 = st.unchorded_shunt & !spec_top_bit(st.unchorded_shunt);
            spec_handle::<L>(st, switches) == (
                (EngineView {
                    unchorded_shunt: shunt2,
                    temporary_layer: if shunt2 == 0 {
                        None
                    } else {
                        Some(t)
                    },
                    temporary_plus_mask: 0,
                    ..st
                }),
                UsbOutcome::KeyRelease(k | st.temporary_plus_mask | st.plus_mask),
            )
        }),
        st.unchorded_shunt & !spec_top_bit(st.unchorded_shunt) < st.unchorded_shunt,
{
    let v = st.unchorded_shunt;
    assert(v != 0 ==> v & !spec_top_bit(v) < v) by (bit_vector);
}

/// Law: `ClearState` resets the modifier and layer state. Resolving a
/// `ClearState` entry restores the base layer, disarms the temporary layer,
/// zeroes both plus masks, shunts any held unchorded keys and emits
/// `Nothing`; the chord accumulator is untouched.
pub proof fn lemma_clear_state<L: Lookup>(st: EngineView, layer: i32, chord: u8, depth: nat)
    requires
        L::spec_lookup(layer, chord) == Some(LayerOutcome::<KeyWithFlags>::ClearState),
    ensures
        spec_resolve::<L>(st, layer, chord, depth) == (
            (EngineView {
                layer: 0,
                temporary_layer: None,
                plus_mask: 0,
                temporary_plus_mask: 0,
                unchorded_state: 0,
                unchorded_shunt: st.unchorded_state,
                ..st
            }),
            UsbOutcome::<KeyWithFlags>::Nothing,
        ),
{
}

/// Law: a persistent layer switch shunts too. Resolving a `LayerSwitch`
/// entry sets the persistent layer, moves the held unchorded keys into the
/// shunt set and emits `Nothing`; the old layer is not parked in
/// `temporary_layer`, so such a drain delivers no releases (see
/// [`lemma_drain_aborts_without_layer`]).
pub proof fn lemma_layer_switch_shunts<L: Lookup>(
    st: EngineView,
    layer: i32,
    chord: u8,
    l: i32,
    depth: nat,
)
    requires
        L::spec_lookup(layer, chord) == Some(LayerOutcome::<KeyWithFlags>::LayerSwitch { layer: l }),
    ensures
        spec_resolve::<L>(st, layer, chord, depth) == (
            (EngineView {
                layer: l,
                unchorded_state: 0,
                unchorded_shunt: st.unchorded_state,
                ..st
            }),
            UsbOutcome::<KeyWithFlags>::Nothing,
        ),
{
}

/// Law: a drain without a parked layer gives up silently. With a shunt
/// pending but no temporary layer to resolve its keys on — which correct
/// usage does not produce — one call abandons the whole shunt and emits
/// `Nothing`, whatever the sample says: malformed state never panics or
/// blocks input processing.
pub proof fn lemma_drain_aborts_without_layer<L: Lookup>(st: EngineView, switches: u8)
    requires
        st.unchorded_shunt != 0,
        st.temporary_layer is None,
    ensures
        spec_handle::<L>(st, switches) == (
            (EngineView { unchorded_shunt: 0, ..st }),
            UsbOutcome::<KeyWithFlags>::Nothing,
        ),
{
}

/// Law: a missing entry falls back to the chord-0 entry. A layer with no
/// exact-match entry for a chord resolves exactly as its entry at chord 0
/// dictates (and to `Nothing` if that is absent too): the dispatched entry is
/// the chord-0 one, while any delegation still carries the original chord.
pub proof fn lemma_fallback_to_zero_chord<L: Lookup>(
    st: EngineView,
    layer: i32,
    chord: u8,
    depth: nat,
)
    requires
        L::spec_lookup(layer, chord) is None,
    ensures
        spec_resolve::<L>(st, layer, chord, depth) == spec_dispatch::<L>(
            st,
            L::spec_lookup(layer, 0),
            chord,
            depth,
        ),
{
}

} // verus!
