//! Debounce times and their half-resolution wire encoding.

use vstd::prelude::*;

verus! {

/// Shortest debounce time the firmware accepts, in milliseconds.
pub const MIN_DEBOUNCE_MS: u8 = 2;

/// Longest debounce time the firmware accepts, in milliseconds.
pub const MAX_DEBOUNCE_MS: u8 = 16;

/// A value in milliseconds that may be written to the device.
pub open spec fn in_range(v: int) -> bool {
    MIN_DEBOUNCE_MS <= v <= MAX_DEBOUNCE_MS
}

/// The byte sent for a debounce time: the device counts in steps of 2 ms.
pub open spec fn encoded(ms: int) -> int {
    ms / 2
}

/// The debounce time, in milliseconds, that a byte read from the device means.
pub open spec fn decoded(b: int) -> int {
    2 * b
}

/// A debounce time in milliseconds, always within
/// `MIN_DEBOUNCE_MS..=MAX_DEBOUNCE_MS`.
#[derive(Clone, Copy, Debug, PartialEq, Eq)]
pub struct DebounceTime {
    ms: u8,
}

impl View for DebounceTime {
    type V = int;

    closed spec fn view(&self) -> int {
        self.ms as int
    }
}

impl DebounceTime {
    #[verifier::type_invariant]
    spec fn inv(self) -> bool {
        in_range(self.ms as int)
    }

    /// The value in milliseconds.
    pub fn ms(&self) -> (r: u8)
        ensures
            r as int == self@,
            in_range(r as int),
    {
        proof {
            use_type_invariant(self);
        }
        self.ms
    }
}

/// A requested debounce time outside `MIN_DEBOUNCE_MS..=MAX_DEBOUNCE_MS`.
#[derive(Clone, Copy, Debug, PartialEq, Eq)]
pub struct RangeError {
    pub value: u64,
}

/// Accepts `value` as a debounce time exactly when it lies in the range.
pub fn validate(value: u64) -> (r: Result<DebounceTime, RangeError>)
    ensures
        r is Ok <==> in_range(value as int),
        r matches Ok(d) ==> d@ == value as int,
        r matches Err(e) ==> e.value == value,
{
    if value < MIN_DEBOUNCE_MS as u64 || value > MAX_DEBOUNCE_MS as u64 {
        Err(RangeError { value })
    } else {
        Ok(DebounceTime { ms: value as u8 })
    }
}

/// The byte that carries `ms` on the wire.
pub fn encode(ms: u8) -> (r: u8)
    ensures
        r as int == encoded(ms as int),
{
    ms / 2
}

/// The debounce time, in milliseconds, that the byte `b` stands for.
pub fn decode(b: u8) -> (r: u16)
    ensures
        r as int == decoded(b as int),
{
    2 * (b as u16)
}

/// An even debounce time survives encoding and decoding unchanged.
pub proof fn lemma_even_round_trip(v: int)
    requires
        in_range(v),
        v % 2 == 0,
    ensures
        decoded(encoded(v)) == v,
{
}

/// An odd debounce time comes back one millisecond shorter: the wire
/// format has no room for the odd half step.
pub proof fn lemma_odd_round_trip(v: int)
    requires
        in_range(v),
        v % 2 == 1,
    ensures
        decoded(encoded(v)) == v - 1,
{
}

} // verus!
