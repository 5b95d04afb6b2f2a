//! Array dimensions: one axis of a declared array type.

use vstd::prelude::*;

verus! {

/// One array axis, defined by inclusive start and end bounds.
///
/// The length of the axis is `end_offset - start_offset + 1`. A negative or
/// zero length indicates a semantic error that the surrounding compiler is
/// expected to catch; this crate does not reject such dimensions.
#[derive(Clone, Copy, PartialEq, Eq, Structural, Debug)]
pub struct Dimension {
    pub start_offset: i32,
    pub end_offset: i32,
}

impl Dimension {
    /// The mathematical length of the axis: `end - start + 1`.
    pub open spec fn spec_length(self) -> int {
        self.end_offset - self.start_offset + 1
    }

    /// [`Self::get_length`] as a mathematical function: the length clamped
    /// into the `u32` range.
    pub open spec fn spec_length_u32(self) -> u32 {
        (if self.spec_length() < 0 {
            0int
        } else if self.spec_length() > u32::MAX {
            u32::MAX as int
        } else {
            self.spec_length()
        }) as u32
    }

    /// The number of elements along this axis, clamped into the `u32` range
    /// (a negative length yields 0; the clamping only matters for dimensions
    /// that are already semantically invalid or degenerate).
    pub fn get_length(&self) -> (r: u32)
        ensures
            r == self.spec_length_u32(),
    {
        let len: i64 = (self.end_offset as i64) - (self.start_offset as i64) + 1;
        if len < 0 {
            0
        } else if len > (u32::MAX as i64) {
            u32::MAX
        } else {
            len as u32
        }
    }
}

} // verus!
