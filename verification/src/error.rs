//! The reasons for which the library declines to produce a result.

use vstd::prelude::*;

verus! {

/// Why a plane index, a file name or a companion document could not be produced.
#[derive(Clone, Copy, Debug, PartialEq, Eq, Structural)]
pub enum CompanionError {
    /// The document holds no image to act on.
    MissingImage,
    /// The image spans more or fewer than exactly one time point.
    UnsupportedTimeCount,
    /// The target depth count is zero or has more than three digits.
    UnsupportedDepthCount,
    /// The dimension order is not one of the six known permutations.
    InvalidDimensionOrder,
    /// A plane index does not fit in a machine word.
    IndexOverflow,
}

/// The text that describes a reason.
pub open spec fn message_of(reason: CompanionError) -> Seq<char> {
    match reason {
        CompanionError::MissingImage => "The document holds no image"@,
        CompanionError::UnsupportedTimeCount => "The image must have exactly one time point"@,
        CompanionError::UnsupportedDepthCount => "Invalid size_z"@,
        CompanionError::InvalidDimensionOrder => "Invalid dimension order"@,
        CompanionError::IndexOverflow => "A plane index is too large"@,
    }
}

impl CompanionError {
    /// Describes the reason in words, for a reader.
    pub fn message(&self) -> (text: &'static str)
        ensures
            text@ == message_of(*self),
    {
        match self {
            CompanionError::MissingImage => "The document holds no image",
            CompanionError::UnsupportedTimeCount => "The image must have exactly one time point",
            CompanionError::UnsupportedDepthCount => "Invalid size_z",
            CompanionError::InvalidDimensionOrder => "Invalid dimension order",
            CompanionError::IndexOverflow => "A plane index is too large",
        }
    }
}

} // verus!
