//! Event timestamps and the distance between two of them.

use vstd::prelude::*;

verus! {

/// Microseconds in one second.
pub const MICROS_PER_SECOND: u64 = 1_000_000;

/// The moment an event was recorded: whole seconds and microseconds.
///
/// The microsecond part is not required to stay below one second; a stamp
/// stands for `seconds * 1_000_000 + microseconds` microseconds.
#[derive(Clone, Copy, Debug, PartialEq, Eq, Structural)]
pub struct Timestamp {
    pub seconds: u64,
    pub microseconds: u32,
}

impl Timestamp {
    /// The stamp as a count of microseconds.
    pub open spec fn micros(self) -> int {
        self.seconds * MICROS_PER_SECOND + self.microseconds
    }

    /// Microseconds from `earlier` to `self`; negative when `self` is the
    /// earlier one.
    pub open spec fn micros_after(self, earlier: Timestamp) -> int {
        self.micros() - earlier.micros()
    }

    pub fn new(seconds: u64, microseconds: u32) -> (t: Timestamp)
        ensures
            t.seconds == seconds,
            t.microseconds == microseconds,
    {
        Timestamp { seconds, microseconds }
    }

    /// The stamp that every detector starts from.
    pub fn zero() -> (t: Timestamp)
        ensures
            t.seconds == 0,
            t.microseconds == 0,
            t.micros() == 0,
    {
        Timestamp { seconds: 0, microseconds: 0 }
    }

    pub fn total_micros(&self) -> (m: u128)
        ensures
            m == self.micros(),
    {
        let whole: u128 = self.seconds as u128 * 1_000_000;
        whole + self.microseconds as u128
    }

    /// Microseconds elapsed since `earlier`, or `None` when `earlier` lies
    /// after `self`.
    pub fn elapsed_since(&self, earlier: &Timestamp) -> (elapsed: Option<u128>)
        ensures
            elapsed is Some <==> self.micros_after(*earlier) >= 0,
            elapsed matches Some(d) ==> d == self.micros_after(*earlier),
    {
        let now: u128 = self.total_micros();
        let then: u128 = earlier.total_micros();
        if now >= then {
            Some(now - then)
        } else {
            None
        }
    }
}

} // verus!
