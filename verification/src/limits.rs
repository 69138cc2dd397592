//! The ranges of the values that a caller may hand to a session, and the
//! values that stand in where the caller gives none.

use vstd::prelude::*;

verus! {

/// Greatest brightness that the device takes.
pub const MAX_BRIGHTNESS: u8 = 50;

/// Greatest speed of an effect.
pub const MAX_SPEED: u8 = 10;

/// Number of custom slots on the device; they are counted from 0.
pub const SLOT_COUNT: u8 = 5;

/// Brightness where none is asked for.
pub const DEFAULT_BRIGHTNESS: u8 = 26;

/// Speed where none is asked for.
pub const DEFAULT_SPEED: u8 = 5;

/// Whether `brightness` is one that the device takes: 0 to 50.
pub fn brightness_in_range(brightness: u8) -> (ok: bool)
    ensures
        ok == (brightness <= 50),
{
    brightness <= MAX_BRIGHTNESS
}

/// Whether `speed` is a speed of an effect: 0 to 10.
pub fn speed_in_range(speed: u8) -> (ok: bool)
    ensures
        ok == (speed <= 10),
{
    speed <= MAX_SPEED
}

/// Whether `slot` is the index of a custom slot: 0 to 4.
pub fn slot_in_range(slot: u8) -> (ok: bool)
    ensures
        ok == (slot < 5),
{
    slot < SLOT_COUNT
}

} // verus!
