//! The intensity of a beat.
use vstd::prelude::*;

verus! {

/// The intensity of a beat: the absolute value of its highest peak in thousandths of full
/// scale, so 1000 stands for 1.0.
#[derive(Debug, Clone, Copy, PartialEq, Eq, Structural, PartialOrd, Ord)]
pub struct BeatIntensity(u32);

impl BeatIntensity {
    /// The intensity in thousandths of full scale.
    pub closed spec fn spec_val(&self) -> nat {
        self.0 as nat
    }

    /// An intensity of `val` thousandths of full scale.
    pub fn new(val: u32) -> (r: Self)
        ensures
            r.spec_val() == val,
    {
        Self(val)
    }

    /// The intensity in thousandths of full scale.
    pub fn val(self) -> (r: u32)
        ensures
            r == self.spec_val(),
    {
        self.0
    }
}

} // verus!
