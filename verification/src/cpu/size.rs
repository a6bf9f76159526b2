//! Operand widths: every sized instruction works on 1, 2, 4 or 8 bytes.

use vstd::prelude::*;

verus! {

/// The width, in bytes, of one operand.
#[derive(Debug, Clone, Copy, PartialEq, Eq, Structural)]
pub enum Size {
    One,
    Two,
    Four,
    Eight,
}

impl Size {
    /// The number of bytes this width covers.
    pub open spec fn spec_bytes(self) -> nat {
        match self {
            Size::One => 1,
            Size::Two => 2,
            Size::Four => 4,
            Size::Eight => 8,
        }
    }

    /// The number of bytes this width covers.
    pub fn bytes(self) -> (n: u64)
        ensures
            n == self.spec_bytes(),
    {
        match self {
            Size::One => 1,
            Size::Two => 2,
            Size::Four => 4,
            Size::Eight => 8,
        }
    }

    /// The width standing for a byte count, if that count is one of the
    /// four defined widths.
    pub fn try_from_u64(value: u64) -> (r: Option<Size>)
        ensures
            r == (match value {
                1u64 => Some(Size::One),
                2u64 => Some(Size::Two),
                4u64 => Some(Size::Four),
                8u64 => Some(Size::Eight),
                _ => None::<Size>,
            }),
    {
        match value {
            1 => Some(Size::One),
            2 => Some(Size::Two),
            4 => Some(Size::Four),
            8 => Some(Size::Eight),
            _ => None,
        }
    }
}

} // verus!
