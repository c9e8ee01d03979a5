//! Register codec: pure functions mapping a rational divider (integer part
//! `a`, numerator `b`, denominator `c`, standing for `a + b/c`) to the
//! chip's three packed register fields P1 (18 bits), P2 (20 bits) and
//! P3 (20 bits), and back.
//!
//! The same equations serve the PLL feedback divider and the multisynth
//! output divider; only the register base address differs. The codec
//! performs no range validation itself: callers validate before encoding.

use vstd::prelude::*;
use vstd::arithmetic::div_mod::{
    lemma_fundamental_div_mod, lemma_fundamental_div_mod_converse_div,
    lemma_fundamental_div_mod_converse_mod, lemma_multiply_divide_le, lemma_multiply_divide_lt,
    lemma_remainder,
};
use vstd::arithmetic::mul::lemma_mul_upper_bound;

verus! {

/// A rational divider `integer_part + numerator/denominator`.
///
/// A numerator of 0 signals pure-integer mode, which changes both the
/// packed register values and a mode bit in the channel control register.
/// The denominator must never be 0: a zero denominator is a defined
/// validation error in the callers, not a fault.
#[derive(Debug, Clone, Copy, PartialEq, Eq, Structural)]
pub struct RationalDivider {
    pub integer_part: u32,
    pub numerator: u32,
    pub denominator: u32,
}

/// The three packed register fields, the only form the chip accepts.
#[derive(Debug, Clone, Copy, PartialEq, Eq, Structural)]
pub struct PackedFields {
    pub p1: u32,
    pub p2: u32,
    pub p3: u32,
}

impl RationalDivider {
    /// The ranges under which the encoding equations are defined: an
    /// integer part covering both the PLL window (15..90) and the
    /// multisynth window (4..2048), and 20-bit fraction terms with a
    /// non-zero denominator.
    pub open spec fn encodable(self) -> bool {
        &&& 4 <= self.integer_part <= 2048
        &&& 1 <= self.denominator <= 0xfffff
        &&& self.numerator <= 0xfffff
    }
}

/// `floor(128 * b / c)`: the fixed-point fraction term of the encoding.
pub open spec fn spec_ratio(b: u32, c: u32) -> int {
    (128 * b) / (c as int)
}

/// The P1 field: `128*a + floor(128*b/c) - 512`, with the fraction term
/// dropped in integer mode.
pub open spec fn spec_p1(a: u32, b: u32, c: u32) -> int {
    if b == 0 {
        128 * a - 512
    } else {
        128 * a + spec_ratio(b, c) - 512
    }
}

/// The P2 field: `128*b - c*floor(128*b/c)`, or 0 in integer mode.
pub open spec fn spec_p2(a: u32, b: u32, c: u32) -> int {
    if b == 0 {
        0
    } else {
        128 * b - c * spec_ratio(b, c)
    }
}

/// The P3 field: the denominator itself.
pub open spec fn spec_p3(a: u32, b: u32, c: u32) -> int {
    c as int
}

/// The packed form of an encodable divider.
pub open spec fn spec_encode(d: RationalDivider) -> PackedFields {
    PackedFields {
        p1: spec_p1(d.integer_part, d.numerator, d.denominator) as u32,
        p2: spec_p2(d.integer_part, d.numerator, d.denominator) as u32,
        p3: spec_p3(d.integer_part, d.numerator, d.denominator) as u32,
    }
}

/// The divider a packed form stands for, under the inverse equations:
/// the fraction term is the P1 residue modulo 128, the integer part the
/// P1 quotient, and the numerator is recovered from P2 and P3.
pub open spec fn spec_decode(f: PackedFields) -> RationalDivider {
    RationalDivider {
        integer_part: (((f.p1 + 512) as int) / 128) as u32,
        numerator: (((f.p2 + f.p3 * (((f.p1 + 512) as int) % 128)) as int) / 128) as u32,
        denominator: f.p3,
    }
}

/// Packs a rational divider into the chip's P1/P2/P3 register fields.
pub fn encode(divider: &RationalDivider) -> (f: PackedFields)
    requires
        divider.encodable(),
    ensures
        f == spec_encode(*divider),
{
    let a = divider.integer_part;
    let b = divider.numerator;
    let c = divider.denominator;
    if b == 0 {
        PackedFields { p1: 128 * a - 512, p2: 0, p3: c }
    } else {
        let ratio = (128 * b) / c;
        proof {
            lemma_fundamental_div_mod((128 * b) as int, c as int);
            lemma_remainder((128 * b) as int, c as int);
        }
        PackedFields { p1: 128 * a + ratio - 512, p2: 128 * b - c * ratio, p3: c }
    }
}

/// The multisynth P1 field. The encoding has three branches, not two:
/// integer mode, a denominator-1 shortcut, and the general fractional
/// case (the same equations as the PLL path).
pub open spec fn spec_ms_p1(a: u32, b: u32, c: u32) -> int {
    if b == 0 {
        128 * a - 512
    } else if c == 1 {
        128 * a + 128 * b - 512
    } else {
        128 * a + spec_ratio(b, c) - 512
    }
}

/// The multisynth P2 field. In the denominator-1 shortcut this is
/// `128*(b - 1)`, which is *not* what the general equations would give
/// for a unit denominator (they give 0): the shortcut is a documented,
/// intentional special case of the chip programming sequence, kept here
/// bit for bit rather than unified with the general branch.
pub open spec fn spec_ms_p2(a: u32, b: u32, c: u32) -> int {
    if b == 0 {
        0
    } else if c == 1 {
        128 * b - 128
    } else {
        128 * b - c * spec_ratio(b, c)
    }
}

/// The multisynth P3 field: the denominator in every branch.
pub open spec fn spec_ms_p3(a: u32, b: u32, c: u32) -> int {
    c as int
}

/// The packed form of an encodable divider on the multisynth path.
pub open spec fn spec_encode_multisynth(d: RationalDivider) -> PackedFields {
    PackedFields {
        p1: spec_ms_p1(d.integer_part, d.numerator, d.denominator) as u32,
        p2: spec_ms_p2(d.integer_part, d.numerator, d.denominator) as u32,
        p3: spec_ms_p3(d.integer_part, d.numerator, d.denominator) as u32,
    }
}

/// Packs a rational divider for the multisynth output stage, with its
/// three-branch encoding: pure integer mode, the denominator-1 fractional
/// shortcut, and the general fractional case.
pub fn encode_multisynth(divider: &RationalDivider) -> (f: PackedFields)
    requires
        divider.encodable(),
    ensures
        f == spec_encode_multisynth(*divider),
{
    let a = divider.integer_part;
    let b = divider.numerator;
    let c = divider.denominator;
    if b == 0 {
        PackedFields { p1: 128 * a - 512, p2: 0, p3: c }
    } else if c == 1 {
        PackedFields { p1: 128 * a + 128 * b - 512, p2: 128 * b - 128, p3: 1 }
    } else {
        let ratio = (128 * b) / c;
        proof {
            lemma_fundamental_div_mod((128 * b) as int, c as int);
            lemma_remainder((128 * b) as int, c as int);
        }
        PackedFields { p1: 128 * a + ratio - 512, p2: 128 * b - c * ratio, p3: c }
    }
}

/// Recovers the rational divider a packed form stands for.
///
/// Exact on everything `encode` produces from a proper fraction
/// (`numerator < denominator`) or from integer mode; see
/// [`lemma_encode_decode_round_trip`].
pub fn decode(fields: &PackedFields) -> (d: RationalDivider)
    requires
        fields.p1 <= 0x3ffff,
        fields.p2 <= 0xfffff,
        1 <= fields.p3 <= 0xfffff,
    ensures
        d == spec_decode(*fields),
{
    let ratio = (fields.p1 + 512) % 128;
    let a = (fields.p1 + 512) / 128;
    proof {
        lemma_mul_upper_bound(fields.p3 as int, 0xfffff, ratio as int, 127);
    }
    let b = (fields.p2 + fields.p3 * ratio) / 128;
    RationalDivider { integer_part: a, numerator: b, denominator: fields.p3 }
}

/// For every divider within the callers' validated ranges whose fraction
/// does not exceed one (`numerator <= denominator`, including integer
/// mode), the packed fields fit the chip's register widths: P1 in 18 bits,
/// P2 and P3 in 20 bits.
pub proof fn lemma_encode_fields_in_range(d: RationalDivider)
    requires
        d.encodable(),
        d.numerator <= d.denominator,
    ensures
        0 <= spec_p1(d.integer_part, d.numerator, d.denominator) <= 0x3ffff,
        0 <= spec_p2(d.integer_part, d.numerator, d.denominator) <= 0xfffff,
        0 <= spec_p3(d.integer_part, d.numerator, d.denominator) <= 0xfffff,
{
    let a = d.integer_part;
    let b = d.numerator;
    let c = d.denominator;
    if b != 0 {
        assert(128 * b <= (c as int) * 128);
        lemma_multiply_divide_le((128 * b) as int, c as int, 128);
        lemma_fundamental_div_mod((128 * b) as int, c as int);
        lemma_remainder((128 * b) as int, c as int);
    }
}

/// Round trip: decoding an encoded divider recovers it exactly, for
/// integer mode (`numerator == 0`, covering `encode(a, 0, 1)`) and for
/// every proper fraction (`numerator < denominator`).
pub proof fn lemma_encode_decode_round_trip(d: RationalDivider)
    requires
        d.encodable(),
        d.numerator == 0 || d.numerator < d.denominator,
    ensures
        spec_decode(spec_encode(d)) == d,
{
    let a = d.integer_part;
    let b = d.numerator;
    let c = d.denominator;
    let f = spec_encode(d);
    if b == 0 {
        assert(f.p1 == 128 * a - 512 && f.p2 == 0 && f.p3 == c);
        lemma_fundamental_div_mod_converse_div((f.p1 + 512) as int, 128, a as int, 0);
        lemma_fundamental_div_mod_converse_mod((f.p1 + 512) as int, 128, a as int, 0);
        assert(((f.p1 + 512) as int) / 128 == a);
        assert(((f.p1 + 512) as int) % 128 == 0);
        assert((f.p3 * 0) as int / 128 == 0);
    } else {
        let q = spec_ratio(b, c);
        assert(128 * b < (c as int) * 128);
        lemma_multiply_divide_lt((128 * b) as int, c as int, 128);
        lemma_fundamental_div_mod((128 * b) as int, c as int);
        lemma_remainder((128 * b) as int, c as int);
        assert(0 <= q < 128);
        assert(0 <= 128 * b - c * q < c);
        assert(f.p1 == 128 * a + q - 512);
        assert(f.p2 == 128 * b - c * q);
        assert(f.p3 == c);
        lemma_fundamental_div_mod_converse_div((f.p1 + 512) as int, 128, a as int, q);
        lemma_fundamental_div_mod_converse_mod((f.p1 + 512) as int, 128, a as int, q);
        assert(((f.p1 + 512) as int) / 128 == a);
        assert(((f.p1 + 512) as int) % 128 == q);
        assert((f.p2 + f.p3 * q) as int == 128 * b);
        lemma_fundamental_div_mod_converse_div((128 * b) as int, 128, b as int, 0);
        assert(((f.p2 + f.p3 * q) as int) / 128 == b);
    }
}

} // verus!
