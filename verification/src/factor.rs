//! Factors: single-precision numbers that the library carries and compares but
//! does not compute with.

use vstd::prelude::*;

verus! {

/// A single-precision number, held as its bit pattern. Two factors are equal
/// when their bits are.
#[derive(Clone, Copy, PartialEq, Eq, Debug, Structural)]
pub struct Factor {
    pub bits: u32,
}

pub const ZERO: u32 = 0x0000_0000;

pub const F_0_04: u32 = 0x3D23_D70A;

pub const F_0_15: u32 = 0x3E19_999A;

pub const F_0_2: u32 = 0x3E4C_CCCD;

pub const F_0_35: u32 = 0x3EB3_3333;

pub const F_0_4: u32 = 0x3ECC_CCCD;

pub const F_0_5: u32 = 0x3F00_0000;

pub const F_0_55: u32 = 0x3F0C_CCCD;

pub const F_0_6: u32 = 0x3F19_999A;

pub const F_0_9: u32 = 0x3F66_6666;

pub const F_1_0: u32 = 0x3F80_0000;

pub const F_1_2: u32 = 0x3F99_999A;

pub const F_1_5: u32 = 0x3FC0_0000;

pub const F_2_0: u32 = 0x4000_0000;

pub const F_2_2: u32 = 0x400C_CCCD;

pub const F_2_4: u32 = 0x4019_999A;

pub const F_3_0: u32 = 0x4040_0000;

pub const F_3_5: u32 = 0x4060_0000;

pub open spec fn factor(bits: u32) -> Factor {
    Factor { bits }
}

} // verus!
