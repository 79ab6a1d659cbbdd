//! The indicator LED's wire format: one pixel, 24 bits in GRB order, each
//! bit sent as a high/low pulse pair whose durations pick the bit value. The
//! pulse generator itself is a vendor peripheral; this module computes the
//! exact pulse sequence it must send.

use vstd::prelude::*;

verus! {

/// Nanoseconds high for a `0` bit.
pub const ZERO_HIGH_NS: u16 = 350;

/// Nanoseconds low for a `0` bit.
pub const ZERO_LOW_NS: u16 = 800;

/// Nanoseconds high for a `1` bit.
pub const ONE_HIGH_NS: u16 = 700;

/// Nanoseconds low for a `1` bit.
pub const ONE_LOW_NS: u16 = 600;

/// How many bits one pixel takes.
pub const SIGNAL_LEN: usize = 24;

/// The 24-bit pixel word: green in the low byte, then red, then blue.
pub open spec fn spec_grb_word(r: u8, g: u8, b: u8) -> u32 {
    (g as u32) | ((r as u32) << 8) | ((b as u32) << 16)
}

/// Whether bit `i` of the pixel word is set.
pub open spec fn spec_bit(word: u32, i: int) -> bool {
    word >> (i as u32) & 1 == 1
}

/// The pulse pair for one bit of the pixel word.
pub open spec fn spec_pulse(word: u32, i: int) -> (u16, u16) {
    if spec_bit(word, i) {
        (ONE_HIGH_NS, ONE_LOW_NS)
    } else {
        (ZERO_HIGH_NS, ZERO_LOW_NS)
    }
}

/// The pulse pairs that show a color: one `(high, low)` nanosecond pair per
/// bit of the GRB word, lowest bit first.
pub fn color_signal(r: u8, g: u8, b: u8) -> (signal: Vec<(u16, u16)>)
    ensures
        signal@.len() == SIGNAL_LEN,
        forall|i: int|
            0 <= i < SIGNAL_LEN ==> signal@[i] == spec_pulse(spec_grb_word(r, g, b), i),
{
    let word: u32 = (g as u32) | ((r as u32) << 8) | ((b as u32) << 16);
    let mut signal: Vec<(u16, u16)> = Vec::new();
    let mut i: usize = 0;
    while i < SIGNAL_LEN
        invariant
            word == spec_grb_word(r, g, b),
            i <= SIGNAL_LEN,
            signal@.len() == i,
            forall|j: int| 0 <= j < i ==> signal@[j] == spec_pulse(word, j),
        decreases SIGNAL_LEN - i,
    {
        if word >> (i as u32) & 1 == 1 {
            signal.push((ONE_HIGH_NS, ONE_LOW_NS));
        } else {
            signal.push((ZERO_HIGH_NS, ZERO_LOW_NS));
        }
        i += 1;
    }
    signal
}

} // verus!
