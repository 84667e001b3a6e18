//! Chord patterns written as four-character strings.
//!
//! A pattern like `"v^_%"` names one chord: each character gives one finger's
//! pair of switches (pinky to index, left to right) as a crumb, i.e. two
//! bits. `'^'` is the tip switch (`0b10`), `'v'` the base switch (`0b01`),
//! `'_'` or `'.'` neither (`0b00`), and `'%'` both (`0b11`).

use vstd::prelude::*;

verus! {

use vstd::string::StringSliceAdditionalSpecFns;

/// The byte `'^'`: the finger's tip switch.
pub const TIP: u8 = 0x5E;

/// The byte `'v'`: the finger's base switch.
pub const BASE: u8 = 0x76;

/// The byte `'_'`: neither switch.
pub const NEITHER: u8 = 0x5F;

/// The byte `'.'`: neither switch, alternate spelling.
pub const NEITHER_DOT: u8 = 0x2E;

/// The byte `'%'`: both switches.
pub const BOTH: u8 = 0x25;

/// Whether `b` is a byte that names a crumb in a chord pattern.
pub open spec fn valid_crumb(b: u8) -> bool {
    b == TIP || b == BASE || b == NEITHER || b == NEITHER_DOT || b == BOTH
}

/// The two-bit value a pattern byte stands for.
pub open spec fn spec_crumb(b: u8) -> u8 {
    if b == TIP {
        0b10
    } else if b == BASE {
        0b01
    } else if b == BOTH {
        0b11
    } else {
        0b00
    }
}

/// The chord byte a four-byte pattern stands for.
pub open spec fn spec_chord(s: Seq<u8>) -> u8
    recommends
        s.len() == 4,
{
    (spec_crumb(s[0]) << 6) | (spec_crumb(s[1]) << 4) | (spec_crumb(s[2]) << 2) | spec_crumb(s[3])
}

/// Converts one pattern byte to its crumb, shifted into place.
pub fn b2c(b: u8, shift: usize) -> (r: u8)
    requires
        valid_crumb(b),
        shift <= 6,
    ensures
        r == spec_crumb(b) << shift,
{
    let c: u8 = if b == TIP {
        0b10
    } else if b == BASE {
        0b01
    } else if b == BOTH {
        0b11
    } else {
        0b00
    };
    c << shift
}

/// Converts a four-character pattern like `"v^_%"` to its chord byte.
pub fn chord(pattern: &str) -> (r: u8)
    requires
        pattern.spec_bytes().len() == 4,
        forall|i: int| 0 <= i < 4 ==> valid_crumb(#[trigger] pattern.spec_bytes()[i]),
    ensures
        r == spec_chord(pattern.spec_bytes()),
{
    let bytes = pattern.as_bytes();
    let r = b2c(bytes[0], 6) | b2c(bytes[1], 4) | b2c(bytes[2], 2) | b2c(bytes[3], 0);
    proof {
        let c0 = spec_crumb(pattern.spec_bytes()[0]);
        let c1 = spec_crumb(pattern.spec_bytes()[1]);
        let c2 = spec_crumb(pattern.spec_bytes()[2]);
        let c3 = spec_crumb(pattern.spec_bytes()[3]);
        assert((c0 << 6usize) | (c1 << 4usize) | (c2 << 2usize) | (c3 << 0usize) == (c0 << 6) | (
        c1 << 4) | (c2 << 2) | c3) by (bit_vector);
    }
    r
}

} // verus!
