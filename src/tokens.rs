//! Protocol tokens derived from a wall-clock reading. The reading itself is
//! taken by the caller; these functions only shape it.

use vstd::prelude::*;

verus! {

/// A non-negative count wrapped to a 64-bit signed value: its low 64 bits,
/// read as two's complement.
pub open spec fn wrap64(m: int) -> int {
    let low = m % 0x1_0000_0000_0000_0000;
    if low < 0x8000_0000_0000_0000 {
        low
    } else {
        low - 0x1_0000_0000_0000_0000
    }
}

/// A non-negative count wrapped to a 32-bit signed value: its low 32 bits,
/// read as two's complement.
pub open spec fn wrap32(m: int) -> int {
    let low = m % 0x1_0000_0000;
    if low < 0x8000_0000 {
        low
    } else {
        low - 0x1_0000_0000
    }
}

/// Seed of a sound effect, from microseconds since the epoch.
pub fn sound_seed(micros: u128) -> (r: i64)
    ensures
        r == wrap64(micros as int),
{
    let low = (micros % 0x1_0000_0000_0000_0000) as u64;
    if low < 0x8000_0000_0000_0000 {
        low as i64
    } else {
        (low as i128 - 0x1_0000_0000_0000_0000) as i64
    }
}

/// Correlation token of a position synchronisation, from milliseconds since
/// the epoch: the low 32 bits, read as a signed value.
pub fn correlation_token(millis: u128) -> (r: i32)
    ensures
        r == wrap32(millis as int),
{
    let low = (millis % 0x1_0000_0000) as u32;
    if low < 0x8000_0000 {
        low as i32
    } else {
        (low as i64 - 0x1_0000_0000) as i32
    }
}

/// Keep-alive nonce, from whole seconds since the epoch.
pub fn keep_alive_nonce(secs: u64) -> (r: i64)
    ensures
        r == wrap64(secs as int),
{
    if secs < 0x8000_0000_0000_0000 {
        secs as i64
    } else {
        (secs as i128 - 0x1_0000_0000_0000_0000) as i64
    }
}

} // verus!
