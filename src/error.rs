use vstd::prelude::*;

verus! {

/// Why a tissue-model operation was refused.
#[derive(Clone, Copy, Debug, PartialEq, Eq, Structural)]
pub enum DecoError {
    /// A half-life that is not positive, or a gradient factor outside `(0, 1]` or with `lo > hi`.
    InvalidParameter,
    /// A gradient was asked of a compartment whose pressure equals its M0.
    DegenerateGradient,
    /// The breathing mix differs between the two ends of a linear exposure.
    MixMismatch,
}

} // verus!
