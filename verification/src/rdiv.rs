//! Output R-divider: the per-channel power-of-two post-divider that brings
//! an out-of-range multisynth ratio back into the chip's valid divider
//! window.

use vstd::prelude::*;
use crate::error::Error;

verus! {

/// Power-of-two output post-divider selector, one of 1, 2, 4, ..., 128,
/// represented in the chip by a 3-bit code.
#[derive(Debug, Clone, Copy, PartialEq, Eq, Structural)]
pub enum RDiv {
    Div1,
    Div2,
    Div4,
    Div8,
    Div16,
    Div32,
    Div64,
    Div128,
}

/// The smallest power of two that is at least `max(x, 1)`, for `x <= 128`:
/// the division factor the R-divider stage must provide so that the
/// remaining multisynth divider stays inside its valid window.
pub open spec fn min_rdiv_divider(x: u16) -> u16 {
    if x <= 1 {
        1
    } else if x <= 2 {
        2
    } else if x <= 4 {
        4
    } else if x <= 8 {
        8
    } else if x <= 16 {
        16
    } else if x <= 32 {
        32
    } else if x <= 64 {
        64
    } else {
        128
    }
}

impl RDiv {
    /// The selector's 3-bit register code.
    pub open spec fn spec_code(self) -> u8 {
        match self {
            RDiv::Div1 => 0,
            RDiv::Div2 => 1,
            RDiv::Div4 => 2,
            RDiv::Div8 => 3,
            RDiv::Div16 => 4,
            RDiv::Div32 => 5,
            RDiv::Div64 => 6,
            RDiv::Div128 => 7,
        }
    }

    /// The division factor this selector stands for: `2^code`.
    pub open spec fn spec_divider(self) -> u8 {
        match self {
            RDiv::Div1 => 1,
            RDiv::Div2 => 2,
            RDiv::Div4 => 4,
            RDiv::Div8 => 8,
            RDiv::Div16 => 16,
            RDiv::Div32 => 32,
            RDiv::Div64 => 64,
            RDiv::Div128 => 128,
        }
    }

    /// The selector's 3-bit register code.
    pub fn code(&self) -> (c: u8)
        ensures
            c == self.spec_code(),
    {
        match self {
            RDiv::Div1 => 0,
            RDiv::Div2 => 1,
            RDiv::Div4 => 2,
            RDiv::Div8 => 3,
            RDiv::Div16 => 4,
            RDiv::Div32 => 5,
            RDiv::Div64 => 6,
            RDiv::Div128 => 7,
        }
    }

    /// The division factor this selector stands for.
    pub fn denominator_u8(&self) -> (d: u8)
        ensures
            d == self.spec_divider(),
    {
        match self {
            RDiv::Div1 => 1,
            RDiv::Div2 => 2,
            RDiv::Div4 => 4,
            RDiv::Div8 => 8,
            RDiv::Div16 => 16,
            RDiv::Div32 => 32,
            RDiv::Div64 => 64,
            RDiv::Div128 => 128,
        }
    }

    /// The minimal selector whose division factor is at least
    /// `desired_divider`, or `ParameterOutOfRange` when even 128 is not
    /// enough.
    pub fn min_divider(desired_divider: u16) -> (r: Result<RDiv, Error>)
        ensures
            r is Ok <==> desired_divider <= 128,
            r matches Ok(d) ==> d.spec_divider() == min_rdiv_divider(desired_divider),
            desired_divider > 128 ==> r == Err::<RDiv, Error>(Error::ParameterOutOfRange),
    {
        if desired_divider <= 1 {
            Ok(RDiv::Div1)
        } else if desired_divider <= 2 {
            Ok(RDiv::Div2)
        } else if desired_divider <= 4 {
            Ok(RDiv::Div4)
        } else if desired_divider <= 8 {
            Ok(RDiv::Div8)
        } else if desired_divider <= 16 {
            Ok(RDiv::Div16)
        } else if desired_divider <= 32 {
            Ok(RDiv::Div32)
        } else if desired_divider <= 64 {
            Ok(RDiv::Div64)
        } else if desired_divider <= 128 {
            Ok(RDiv::Div128)
        } else {
            Err(Error::ParameterOutOfRange)
        }
    }
}

/// The chosen division factor really is a power of two that covers the
/// request, and it is minimal: halving it would fall short of the request.
pub proof fn lemma_min_divider_covers(x: u16)
    requires
        x <= 128,
    ensures
        min_rdiv_divider(x) >= x,
        1 <= min_rdiv_divider(x) <= 128,
        min_rdiv_divider(x) < 2 * (if x <= 1 { 1 } else { x as int }),
{
}

/// The minimal covering division factor is monotonic, non-decreasing in the
/// requested ratio, over the whole valid request range.
pub proof fn lemma_min_divider_monotonic(x: u16, y: u16)
    requires
        x <= y,
        y <= 128,
    ensures
        min_rdiv_divider(x) <= min_rdiv_divider(y),
{
}

} // verus!
