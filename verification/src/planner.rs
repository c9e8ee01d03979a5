//! Top-level frequency planning: given only a target output frequency,
//! derive a consistent (PLL multiplier + fraction, multisynth divider,
//! R-divider) triple.
//!
//! All fractional correction is pushed into the PLL stage, which has a
//! 20-bit fraction field regardless, so the multisynth stage always runs
//! in its lower-jitter integer mode.

use vstd::prelude::*;
use crate::error::Error;
use crate::rdiv::{min_rdiv_divider, RDiv};
use vstd::arithmetic::div_mod::{
    lemma_div_is_ordered, lemma_div_is_ordered_by_denominator, lemma_div_nonincreasing,
    lemma_multiply_divide_lt,
};
use vstd::arithmetic::mul::lemma_mul_upper_bound;

verus! {

/// The VCO ceiling the planner fills toward, in Hz.
pub const VCO_CEILING_HZ: u32 = 900_000_000;

/// The chip's practical multisynth ceiling the planner enforces. The
/// register field nominally allows up to 2048; stopping at 1800 is a
/// deliberate safety margin, not a field-width limit.
pub const MS_DIVIDER_CEILING: u32 = 1800;

/// The fixed 20-bit denominator the planner uses for the PLL fraction.
pub const PLAN_DENOMINATOR: u32 = 0xfffff;

/// The largest total divider achievable at the VCO ceiling:
/// `floor(900 MHz / target)`.
pub open spec fn spec_total_divider(freq: u32) -> int {
    (VCO_CEILING_HZ as int) / (freq as int)
}

/// How far the total divider exceeds the multisynth window: the ratio
/// the R-divider stage must absorb.
pub open spec fn spec_excess(freq: u32) -> int {
    spec_total_divider(freq) / 900
}

/// The division factor of the minimal R-divider that absorbs the excess.
/// Meaningful only when the excess is at most 128.
pub open spec fn spec_rdiv_den(freq: u32) -> int {
    min_rdiv_divider(spec_excess(freq) as u16) as int
}

/// The planned multisynth divider: the remaining total divider rounded
/// down to even, raised to the chip's minimum of 6.
pub open spec fn spec_ms_div(freq: u32) -> int {
    let d = spec_total_divider(freq) / (2 * spec_rdiv_den(freq)) * 2;
    if d < 6 {
        6
    } else {
        d
    }
}

/// The planned overall division: multisynth stage times R-divider stage.
pub open spec fn spec_total_div(freq: u32) -> int {
    spec_ms_div(freq) * spec_rdiv_den(freq)
}

/// The exact PLL output frequency needed to hit the target through the
/// planned divider chain.
pub open spec fn spec_pll_hz(freq: u32) -> int {
    freq * spec_total_div(freq)
}

/// The planned integer PLL feedback multiplier.
pub open spec fn spec_mult(crystal: u32, freq: u32) -> int {
    spec_pll_hz(freq) / (crystal as int)
}

/// The planned 20-bit PLL fraction numerator, over the fixed denominator
/// [`PLAN_DENOMINATOR`].
pub open spec fn spec_num(crystal: u32, freq: u32) -> int {
    (spec_pll_hz(freq) % (crystal as int)) * (PLAN_DENOMINATOR as int) / (crystal as int)
}

/// Whether a target frequency is reachable by the divider chain at all:
/// the R-divider stage can absorb the excess, and the planned multisynth
/// divider stays under the safety ceiling.
pub open spec fn plan_in_range(freq: u32) -> bool {
    &&& freq >= 1
    &&& spec_excess(freq) <= 128
    &&& spec_ms_div(freq) <= MS_DIVIDER_CEILING
}

/// A planned (R-divider, multisynth divider, PLL multiplier + fraction)
/// triple for one target frequency.
#[derive(Debug, Clone, Copy, PartialEq, Eq, Structural)]
pub struct FreqPlan {
    pub rdiv: RDiv,
    pub ms_div: u32,
    pub mult: u32,
    pub num: u32,
    pub denom: u32,
}

/// Derives the divider triple for a target frequency: the minimal
/// R-divider that brings the remaining multisynth divider into its
/// window, the even multisynth divider, and the PLL multiplier and
/// 20-bit fraction that hit the target exactly through that chain.
///
/// Fails with `ParameterOutOfRange`, before anything is programmed, when
/// the excess ratio exceeds the largest R-divider or the multisynth
/// divider would exceed its safety ceiling. The returned multiplier is
/// not yet validated against the PLL window 15..90; the PLL programming
/// call checks it.
pub fn plan_frequency(crystal: u32, freq: u32) -> (r: Result<FreqPlan, Error>)
    requires
        freq >= 1,
        crystal == 25_000_000 || crystal == 27_000_000,
    ensures
        r is Ok <==> plan_in_range(freq),
        !plan_in_range(freq) ==> r == Err::<FreqPlan, Error>(Error::ParameterOutOfRange),
        r matches Ok(p) ==> {
            &&& p.rdiv.spec_divider() == spec_rdiv_den(freq)
            &&& p.ms_div == spec_ms_div(freq)
            &&& 6 <= p.ms_div <= MS_DIVIDER_CEILING
            &&& p.ms_div % 2 == 0
            &&& p.mult == spec_mult(crystal, freq)
            &&& p.num == spec_num(crystal, freq)
            &&& p.num <= 0xfffff
            &&& p.denom == PLAN_DENOMINATOR
        },
{
    let total_divider: u32 = VCO_CEILING_HZ / freq;
    let excess: u32 = total_divider / 900;
    if excess > 0xffff {
        return Err(Error::ParameterOutOfRange);
    }
    let rdiv = match RDiv::min_divider(excess as u16) {
        Ok(d) => d,
        Err(e) => {
            return Err(e);
        },
    };
    let rden: u32 = rdiv.denominator_u8() as u32;
    proof {
        lemma_div_nonincreasing(total_divider as int, (2 * rden) as int);
    }
    let ms_raw: u32 = total_divider / (2 * rden) * 2;
    let ms_div: u32 = if ms_raw < 6 {
        6
    } else {
        ms_raw
    };
    if ms_div > MS_DIVIDER_CEILING {
        return Err(Error::ParameterOutOfRange);
    }
    proof {
        lemma_mul_upper_bound(ms_div as int, 1800, rden as int, 128);
    }
    let total_div: u64 = (ms_div as u64) * (rden as u64);
    proof {
        lemma_mul_upper_bound(freq as int, 0xffffffff, total_div as int, 230400);
    }
    let pll_hz: u64 = (freq as u64) * total_div;
    let mult64: u64 = pll_hz / (crystal as u64);
    let rem: u64 = pll_hz % (crystal as u64);
    proof {
        lemma_div_is_ordered_by_denominator(pll_hz as int, 25_000_000, crystal as int);
        lemma_div_is_ordered(pll_hz as int, 0xffffffffu64 * 230400, 25_000_000);
        lemma_mul_upper_bound(rem as int, (crystal - 1) as int, 0xfffff, 0xfffff);
        lemma_multiply_divide_lt((rem * 0xfffff) as int, crystal as int, 0x100000);
    }
    let num64: u64 = rem * 0xfffff / (crystal as u64);
    Ok(FreqPlan { rdiv, ms_div, mult: mult64 as u32, num: num64 as u32, denom: PLAN_DENOMINATOR })
}

} // verus!
