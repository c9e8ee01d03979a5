//! Tests of the pure planning and encoding layers: register codec,
//! R-divider selection and frequency planning.

use si5351::codec::{decode, encode, encode_multisynth, PackedFields, RationalDivider};
use si5351::planner::plan_frequency;
use si5351::{check, Error, RDiv};

fn divider(a: u32, b: u32, c: u32) -> RationalDivider {
    RationalDivider { integer_part: a, numerator: b, denominator: c }
}

#[test]
fn check_reports_the_given_error() {
    assert_eq!(check(true, Error::ParameterOutOfRange), Ok(()));
    assert_eq!(check(false, Error::ParameterOutOfRange), Err(Error::ParameterOutOfRange));
    assert_eq!(check(false, Error::PrerequisiteNotMet), Err(Error::PrerequisiteNotMet));
}

#[test]
fn encode_integer_mode_exact_fields() {
    // Integer mode: p1 = 128*a - 512, p2 = 0, p3 = c.
    let f = encode(&divider(35, 0, 1));
    assert_eq!(f.p1, 128 * 35 - 512);
    assert_eq!(f.p2, 0);
    assert_eq!(f.p3, 1);
}

#[test]
fn encode_fractional_exact_fields() {
    // a + b/c = 31 + 45728/100000: ratio = floor(128*45728/100000) = 58.
    let f = encode(&divider(31, 45728, 100_000));
    assert_eq!(f.p1, 128 * 31 + 58 - 512);
    assert_eq!(f.p2, 128 * 45728 - 100_000 * 58);
    assert_eq!(f.p3, 100_000);
}

#[test]
fn encode_fields_fit_register_widths_at_extremes() {
    // Largest proper fraction at both ends of the integer window.
    for &(a, b, c) in
        &[(15u32, 0xffffeu32, 0xfffffu32), (90, 0xffffe, 0xfffff), (4, 1, 2), (2048, 0, 1)]
    {
        let f = encode(&divider(a, b, c));
        assert!(f.p1 <= 0x3ffff);
        assert!(f.p2 <= 0xfffff);
        assert!(f.p3 <= 0xfffff);
    }
}

#[test]
fn decode_recovers_integer_mode() {
    // Integer-mode round trip for every multiplier in the PLL window.
    for a in 15..=90u32 {
        let f = encode(&divider(a, 0, 1));
        assert_eq!(decode(&f), divider(a, 0, 1));
    }
}

#[test]
fn decode_recovers_proper_fractions() {
    let cases = [(31u32, 45728u32, 100_000u32), (15, 1, 0xfffff), (90, 0xffffe, 0xfffff), (36, 1, 2)];
    for &(a, b, c) in &cases {
        let f = encode(&divider(a, b, c));
        assert_eq!(decode(&f), divider(a, b, c));
    }
}

#[test]
fn multisynth_encoding_matches_general_case() {
    // With numerator 0 or a denominator above 1, the multisynth path
    // encodes exactly as the PLL path does.
    assert_eq!(encode_multisynth(&divider(72, 0, 1)), encode(&divider(72, 0, 1)));
    assert_eq!(
        encode_multisynth(&divider(10, 45728, 100_000)),
        encode(&divider(10, 45728, 100_000))
    );
}

#[test]
fn multisynth_denominator_one_shortcut_is_distinct() {
    // The denominator-1 fractional shortcut writes p2 = 128*(b-1), not
    // the 0 the general equations would give: a deliberately preserved
    // special case of the programming sequence (suspicious edge case,
    // kept bit for bit).
    let f = encode_multisynth(&divider(10, 5, 1));
    assert_eq!(f.p1, 128 * 10 + 128 * 5 - 512);
    assert_eq!(f.p2, 128 * 5 - 128);
    assert_eq!(f.p3, 1);
    let general = encode(&divider(10, 5, 1));
    assert_eq!(general.p2, 0);
    assert_ne!(f.p2, general.p2);
}

#[test]
fn packed_fields_compare_by_value() {
    assert_eq!(PackedFields { p1: 1, p2: 2, p3: 3 }, PackedFields { p1: 1, p2: 2, p3: 3 });
}

#[test]
fn min_divider_picks_minimal_power_of_two() {
    assert_eq!(RDiv::min_divider(1), Ok(RDiv::Div1));
    assert_eq!(RDiv::min_divider(2), Ok(RDiv::Div2));
    assert_eq!(RDiv::min_divider(3), Ok(RDiv::Div4));
    assert_eq!(RDiv::min_divider(128), Ok(RDiv::Div128));
    assert_eq!(RDiv::min_divider(129), Err(Error::ParameterOutOfRange));
}

#[test]
fn min_divider_handles_degenerate_and_edge_requests() {
    assert_eq!(RDiv::min_divider(0), Ok(RDiv::Div1));
    assert_eq!(RDiv::min_divider(5), Ok(RDiv::Div8));
    assert_eq!(RDiv::min_divider(65), Ok(RDiv::Div128));
    assert_eq!(RDiv::min_divider(0xffff), Err(Error::ParameterOutOfRange));
}

#[test]
fn min_divider_is_monotonic_over_valid_requests() {
    let mut previous = 0u8;
    for x in 0..=128u16 {
        let d = RDiv::min_divider(x).unwrap().denominator_u8();
        assert!(d >= previous);
        assert!(u16::from(d) >= x);
        previous = d;
    }
}

#[test]
fn rdiv_codes_and_denominators() {
    let selectors = [
        (RDiv::Div1, 0u8, 1u8),
        (RDiv::Div2, 1, 2),
        (RDiv::Div4, 2, 4),
        (RDiv::Div8, 3, 8),
        (RDiv::Div16, 4, 16),
        (RDiv::Div32, 5, 32),
        (RDiv::Div64, 6, 64),
        (RDiv::Div128, 7, 128),
    ];
    for &(d, code, den) in &selectors {
        assert_eq!(d.code(), code);
        assert_eq!(d.denominator_u8(), den);
    }
}

#[test]
fn plan_for_midrange_target() {
    // 12.288 MHz from a 25 MHz crystal: total divider 73, no R-divider
    // needed, multisynth 72, PLL at 884.736 MHz.
    let p = plan_frequency(25_000_000, 12_288_000).unwrap();
    assert_eq!(p.rdiv, RDiv::Div1);
    assert_eq!(p.ms_div, 72);
    assert_eq!(p.mult, 35);
    assert_eq!(p.denom, 0xfffff);
    // num = floor((884736000 % 25000000) * 0xfffff / 25000000)
    assert_eq!(p.num, (9_736_000u64 * 0xfffff / 25_000_000) as u32);
}

#[test]
fn plan_engages_r_divider_for_low_targets() {
    // 100 kHz: total divider 9000, excess 10, minimal R-divider 16.
    let p = plan_frequency(25_000_000, 100_000).unwrap();
    assert_eq!(p.rdiv, RDiv::Div16);
    assert_eq!(p.ms_div, 9000 / 32 * 2);
    assert_eq!(p.mult, 35);
}

#[test]
fn plan_divider_is_always_even_and_in_window() {
    let targets = [10_000u32, 100_000, 1_500_000, 12_288_000, 50_000_000, 150_000_000,
        300_000_000];
    for &freq in &targets {
        let p = plan_frequency(25_000_000, freq).unwrap();
        assert_eq!(p.ms_div % 2, 0);
        assert!((6..=1800).contains(&p.ms_div));
        assert!(p.num <= 0xfffff);
        assert_eq!(p.denom, 0xfffff);
    }
}

#[test]
fn plan_rejects_unreachable_targets() {
    // 1 kHz needs a total divider of 900000; even the largest R-divider
    // cannot absorb the excess.
    assert_eq!(plan_frequency(25_000_000, 1_000), Err(Error::ParameterOutOfRange));
}

#[test]
fn plan_raises_small_dividers_to_the_minimum() {
    // 300 MHz: total divider 3, multisynth raised to the minimum of 6.
    let p = plan_frequency(25_000_000, 300_000_000).unwrap();
    assert_eq!(p.rdiv, RDiv::Div1);
    assert_eq!(p.ms_div, 6);
}
