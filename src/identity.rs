use vstd::prelude::*;

verus! {

/// An opaque 256-bit caller identity, held as its low and high 128-bit halves.
#[derive(PartialEq, Eq, Structural, Clone, Copy, Debug, Hash)]
pub struct Identity {
    pub lo: u128,
    pub hi: u128,
}

/// A point in time, in microseconds since the Unix epoch.
#[derive(PartialEq, Eq, Structural, Clone, Copy, Debug, Hash)]
pub struct Timestamp {
    pub micros_since_unix_epoch: i64,
}

impl Identity {
    pub fn from_halves(lo: u128, hi: u128) -> (r: Identity)
        ensures
            r.lo == lo,
            r.hi == hi,
    {
        Identity { lo, hi }
    }
}

impl Timestamp {
    pub fn from_micros_since_unix_epoch(micros: i64) -> (r: Timestamp)
        ensures
            r.micros_since_unix_epoch == micros,
    {
        Timestamp { micros_since_unix_epoch: micros }
    }

    pub fn to_micros_since_unix_epoch(self) -> (r: i64)
        ensures
            r == self.micros_since_unix_epoch,
    {
        self.micros_since_unix_epoch
    }
}

} // verus!
