//! Failures an operation can report.

use vstd::prelude::*;

verus! {

/// Why an operation was rejected. Every failure is all-or-nothing: the
/// records it was given are left untouched.
#[derive(Clone, Copy, Debug, PartialEq, Eq)]
pub enum ErrorCode {
    /// A pixel coordinate lies outside the canvas.
    InvalidPixel,
    /// The charity identifier is outside the configured range.
    InvalidCharity,
    /// A counter or the fund accumulator would exceed its representable
    /// range; the operation fails rather than wrap.
    ArithmeticOverflow,
}

} // verus!
