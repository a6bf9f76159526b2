//! Register identifiers: seven 64-bit general registers, addressed by the
//! small integers 1 through 7; 0 stands for "no register" in encodings.

use vstd::prelude::*;

verus! {

/// One of the CPU's seven registers.
#[derive(Debug, Clone, Copy, PartialEq, Eq, Structural)]
pub enum RegisterId {
    X0,
    X1,
    X2,
    X3,
    X4,
    Sp,
    Ip,
}

/// The register an encoded identifier stands for: 1 through 7 name the
/// registers in order, everything else (0 in particular) names none.
pub open spec fn spec_register_from_u8(value: u8) -> Option<RegisterId> {
    match value {
        1u8 => Some(RegisterId::X0),
        2u8 => Some(RegisterId::X1),
        3u8 => Some(RegisterId::X2),
        4u8 => Some(RegisterId::X3),
        5u8 => Some(RegisterId::X4),
        6u8 => Some(RegisterId::Sp),
        7u8 => Some(RegisterId::Ip),
        _ => None,
    }
}

impl RegisterId {
    /// The register's place in the register file; one less than its
    /// identifier, which starts at 1.
    pub fn to_index(self) -> (r: usize)
        ensures
            r == (match self {
                RegisterId::X0 => 0int,
                RegisterId::X1 => 1,
                RegisterId::X2 => 2,
                RegisterId::X3 => 3,
                RegisterId::X4 => 4,
                RegisterId::Sp => 5,
                RegisterId::Ip => 6,
            }),
    {
        match self {
            RegisterId::X0 => 0,
            RegisterId::X1 => 1,
            RegisterId::X2 => 2,
            RegisterId::X3 => 3,
            RegisterId::X4 => 4,
            RegisterId::Sp => 5,
            RegisterId::Ip => 6,
        }
    }

    /// The register an encoded identifier stands for, if any.
    pub fn from_u8(value: u8) -> (r: Option<RegisterId>)
        ensures
            r == spec_register_from_u8(value),
    {
        match value {
            1 => Some(RegisterId::X0),
            2 => Some(RegisterId::X1),
            3 => Some(RegisterId::X2),
            4 => Some(RegisterId::X3),
            5 => Some(RegisterId::X4),
            6 => Some(RegisterId::Sp),
            7 => Some(RegisterId::Ip),
            _ => None,
        }
    }
}

} // verus!
