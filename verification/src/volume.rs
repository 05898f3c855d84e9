//! The sampled scalar the bar renders and the presses set.
//!
//! The host's volume is a scalar in `[0, 1]`.  Inside the library it is held
//! exactly, as a fraction `num / den`, so that the bar classification
//! (marker / filled / empty) is decided by exact integer comparison; the
//! collaborator that talks to the mixer converts to and from its own scale at
//! the boundary.

use vstd::prelude::*;

verus! {

/// Largest denominator a [`Volume`] may carry; keeps all bar arithmetic
/// comfortably inside machine integers.
pub const VOLUME_DEN_MAX: u32 = 10000;

/// A scalar in `[0, 1]`, held exactly as the fraction `num / den`.
#[derive(Clone, Copy, Debug, PartialEq, Eq, Structural)]
pub struct Volume {
    pub num: u32,
    pub den: u32,
}

impl Volume {
    /// The fraction is proper and its denominator bounded.
    pub open spec fn wf(self) -> bool {
        1 <= self.den <= VOLUME_DEN_MAX && self.num <= self.den
    }

    pub fn new(num: u32, den: u32) -> (v: Volume)
        requires
            1 <= den <= VOLUME_DEN_MAX,
            num <= den,
        ensures
            v == (Volume { num, den }),
            v.wf(),
    {
        Volume { num, den }
    }

    /// The proportional value of position `idx` out of `0 ..= last`, as in
    /// "pressing the pad at index `idx` asks for volume `idx / last`".
    pub fn of_index(idx: u8, last: u8) -> (v: Volume)
        requires
            1 <= last,
            idx <= last,
        ensures
            v == (Volume { num: idx as u32, den: last as u32 }),
            v.wf(),
    {
        Volume { num: idx as u32, den: last as u32 }
    }
}

} // verus!
