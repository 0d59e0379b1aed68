use vstd::prelude::*;

verus! {

/// The two ways in which building a colour or a gradient can fail.
#[derive(Debug, Clone, Copy, PartialEq, Eq, Structural)]
pub enum GradientError {
    /// A packed colour value was larger than `0xFFFFFF`.
    InvalidHex,
    /// A gradient was built before both of its colours were set.
    UnconfiguredGradient,
}

} // verus!
