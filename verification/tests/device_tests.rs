//! Tests of the register-programming engine against a scripted bus
//! transport that records every transaction and models the chip's
//! register file.

use si5351::codec::{decode, PackedFields};
use si5351::{CrystalFreq, Error, MultisynthDiv, RDiv, Si5351, Transport, TransportError, PLL};

/// One recorded bus transaction.
#[derive(Debug, Clone, PartialEq, Eq)]
enum Op {
    Write(u8, Vec<u8>),
    WriteRead(u8, Vec<u8>, Vec<u8>),
}

/// A bench bus: applies writes to a 256-byte register file, answers
/// reads from it, records every transaction, and can be scripted to
/// fail from the n-th transaction on.
struct MockBus {
    regs: [u8; 256],
    ops: Vec<Op>,
    fail_from: Option<usize>,
}

impl MockBus {
    fn new() -> Self {
        MockBus { regs: [0; 256], ops: Vec::new(), fail_from: None }
    }

    fn attempts(&self) -> usize {
        self.ops.len()
    }

    fn clear_log(&mut self) {
        self.ops.clear();
    }

    fn failing(&self) -> bool {
        match self.fail_from {
            Some(n) => self.ops.len() >= n,
            None => false,
        }
    }

    /// The PLL A feedback fields as last written to registers 26..=33.
    fn plla_fields(&self) -> PackedFields {
        let r = &self.regs;
        let p3 = (u32::from(r[31] >> 4) << 16) | (u32::from(r[26]) << 8) | u32::from(r[27]);
        let p1 = (u32::from(r[28] & 0x03) << 16) | (u32::from(r[29]) << 8) | u32::from(r[30]);
        let p2 = (u32::from(r[31] & 0x0f) << 16) | (u32::from(r[32]) << 8) | u32::from(r[33]);
        PackedFields { p1, p2, p3 }
    }
}

impl Transport for MockBus {
    fn write(&mut self, addr: u8, data: &[u8]) -> Result<(), TransportError> {
        if self.failing() {
            return Err(TransportError);
        }
        if data.len() >= 2 {
            let base = data[0] as usize;
            for (i, &value) in data[1..].iter().enumerate() {
                self.regs[base + i] = value;
            }
        }
        self.ops.push(Op::Write(addr, data.to_vec()));
        Ok(())
    }

    fn write_then_read(
        &mut self,
        addr: u8,
        data: &[u8],
        read_len: usize,
    ) -> Result<Vec<u8>, TransportError> {
        if self.failing() {
            return Err(TransportError);
        }
        let base = data[0] as usize;
        let mut response = Vec::new();
        for i in 0..read_len {
            response.push(self.regs[base + i]);
        }
        self.ops.push(Op::WriteRead(addr, data.to_vec(), response.clone()));
        Ok(response)
    }
}

fn brought_up() -> (Si5351, MockBus) {
    let mut clock = Si5351::new();
    let mut bus = MockBus::new();
    clock.begin(&mut bus).unwrap();
    bus.clear_log();
    (clock, bus)
}

#[test]
fn begin_runs_the_bring_up_sequence() {
    let mut clock = Si5351::new();
    let mut bus = MockBus::new();
    clock.begin(&mut bus).unwrap();
    // Disable outputs, power down the eight drivers, set load
    // capacitance, read-modify-write spread spectrum off: 12
    // transactions.
    assert_eq!(bus.attempts(), 12);
    assert_eq!(bus.ops[0], Op::Write(0x60, vec![3, 0xff]));
    for channel in 0..8u8 {
        assert_eq!(bus.ops[1 + channel as usize], Op::Write(0x60, vec![16 + channel, 0x80]));
    }
    // Default crystal load is 10 pF.
    assert_eq!(bus.ops[9], Op::Write(0x60, vec![183, 0xc0]));
    assert_eq!(bus.ops[10], Op::WriteRead(0x60, vec![149], vec![0x00]));
    assert_eq!(bus.ops[11], Op::Write(0x60, vec![149, 0x00]));
}

#[test]
fn operations_require_bring_up() {
    let mut clock = Si5351::new();
    let mut bus = MockBus::new();
    assert_eq!(clock.setup_pll(&mut bus, PLL::A, 35, 0, 1), Err(Error::PrerequisiteNotMet));
    assert_eq!(
        clock.setup_multisynth(&mut bus, 0, PLL::A, 36, 0, 1),
        Err(Error::PrerequisiteNotMet)
    );
    assert_eq!(clock.enable_outputs(&mut bus, true), Err(Error::PrerequisiteNotMet));
    assert_eq!(clock.set_clock_builder_data(&mut bus), Err(Error::PrerequisiteNotMet));
    assert_eq!(bus.attempts(), 0);
}

#[test]
fn setup_pll_validates_parameters() {
    let (mut clock, mut bus) = brought_up();
    assert_eq!(clock.setup_pll(&mut bus, PLL::A, 14, 0, 1), Err(Error::ParameterOutOfRange));
    assert_eq!(clock.setup_pll(&mut bus, PLL::A, 91, 0, 1), Err(Error::ParameterOutOfRange));
    assert_eq!(clock.setup_pll(&mut bus, PLL::A, 35, 0, 0), Err(Error::ParameterOutOfRange));
    assert_eq!(
        clock.setup_pll(&mut bus, PLL::A, 35, 0, 0x100000),
        Err(Error::ParameterOutOfRange)
    );
    assert_eq!(
        clock.setup_pll(&mut bus, PLL::A, 35, 0x100000, 1),
        Err(Error::ParameterOutOfRange)
    );
    assert_eq!(bus.attempts(), 0);
}

#[test]
fn setup_pll_int_writes_integer_mode_block() {
    let (mut clock, mut bus) = brought_up();
    clock.setup_pll_int(&mut bus, PLL::A, 35).unwrap();
    // p1 = 128*35 - 512 = 3968 = 0x0f80, p2 = 0, p3 = 1.
    assert_eq!(bus.attempts(), 9);
    assert_eq!(bus.ops[0], Op::Write(0x60, vec![26, 0x00]));
    assert_eq!(bus.ops[1], Op::Write(0x60, vec![27, 0x01]));
    assert_eq!(bus.ops[2], Op::Write(0x60, vec![28, 0x00]));
    assert_eq!(bus.ops[3], Op::Write(0x60, vec![29, 0x0f]));
    assert_eq!(bus.ops[4], Op::Write(0x60, vec![30, 0x80]));
    assert_eq!(bus.ops[5], Op::Write(0x60, vec![31, 0x00]));
    assert_eq!(bus.ops[6], Op::Write(0x60, vec![32, 0x00]));
    assert_eq!(bus.ops[7], Op::Write(0x60, vec![33, 0x00]));
    // Reset pulse covers both PLLs: bits 7 and 5.
    assert_eq!(bus.ops[8], Op::Write(0x60, vec![177, 0xa0]));
}

#[test]
fn setup_pll_fractional_packs_exact_fields() {
    let (mut clock, mut bus) = brought_up();
    clock.setup_pll(&mut bus, PLL::A, 31, 45728, 100_000).unwrap();
    let f = bus.plla_fields();
    // ratio = floor(128 * 45728 / 100000) = 58.
    assert_eq!(f.p1, 128 * 31 + 58 - 512);
    assert_eq!(f.p2, 128 * 45728 - 100_000 * 58);
    assert_eq!(f.p3, 100_000);
}

#[test]
fn setup_pll_b_uses_its_own_register_block() {
    let (mut clock, mut bus) = brought_up();
    clock.setup_pll_int(&mut bus, PLL::B, 40).unwrap();
    assert_eq!(bus.ops[0], Op::Write(0x60, vec![34, 0x00]));
    // p1 = 128*40 - 512 = 4608 = 0x1200.
    assert_eq!(bus.ops[3], Op::Write(0x60, vec![37, 0x12]));
}

#[test]
fn multisynth_requires_configured_pll() {
    // A channel can never be pointed at a PLL that was never configured.
    let (mut clock, mut bus) = brought_up();
    assert_eq!(
        clock.setup_multisynth(&mut bus, 0, PLL::A, 36, 0, 1),
        Err(Error::PrerequisiteNotMet)
    );
    clock.setup_pll_int(&mut bus, PLL::A, 35).unwrap();
    assert_eq!(
        clock.setup_multisynth(&mut bus, 0, PLL::B, 36, 0, 1),
        Err(Error::PrerequisiteNotMet)
    );
    assert_eq!(clock.setup_multisynth(&mut bus, 0, PLL::A, 36, 0, 1), Ok(()));
}

#[test]
fn multisynth_validates_parameters() {
    let (mut clock, mut bus) = brought_up();
    clock.setup_pll_int(&mut bus, PLL::A, 35).unwrap();
    bus.clear_log();
    assert_eq!(
        clock.setup_multisynth(&mut bus, 3, PLL::A, 36, 0, 1),
        Err(Error::ParameterOutOfRange)
    );
    assert_eq!(
        clock.setup_multisynth(&mut bus, 0, PLL::A, 3, 0, 1),
        Err(Error::ParameterOutOfRange)
    );
    assert_eq!(
        clock.setup_multisynth(&mut bus, 0, PLL::A, 2049, 0, 1),
        Err(Error::ParameterOutOfRange)
    );
    assert_eq!(
        clock.setup_multisynth(&mut bus, 0, PLL::A, 36, 0, 0),
        Err(Error::ParameterOutOfRange)
    );
    assert_eq!(
        clock.setup_multisynth(&mut bus, 0, PLL::A, 36, 0x100000, 1),
        Err(Error::ParameterOutOfRange)
    );
    assert_eq!(bus.attempts(), 0);
}

#[test]
fn multisynth_writes_burst_and_control_byte() {
    let (mut clock, mut bus) = brought_up();
    clock.setup_pll_int(&mut bus, PLL::A, 35).unwrap();
    bus.clear_log();
    clock.setup_multisynth(&mut bus, 1, PLL::A, 72, 0, 1).unwrap();
    assert_eq!(bus.attempts(), 2);
    // p1 = 128*72 - 512 = 8704 = 0x2200, p2 = 0, p3 = 1; channel 1
    // block starts at register 50.
    assert_eq!(
        bus.ops[0],
        Op::Write(0x60, vec![50, 0x00, 0x01, 0x00, 0x22, 0x00, 0x00, 0x00, 0x00])
    );
    // Control byte: 0x0f base, integer mode bit set, PLL A source.
    assert_eq!(bus.ops[1], Op::Write(0x60, vec![17, 0x4f]));
}

#[test]
fn multisynth_control_byte_reflects_source_and_mode() {
    let (mut clock, mut bus) = brought_up();
    clock.setup_pll_int(&mut bus, PLL::B, 35).unwrap();
    bus.clear_log();
    clock.setup_multisynth(&mut bus, 0, PLL::B, 10, 5, 7).unwrap();
    // Fractional mode from PLL B: 0x0f | 0x20, integer bit clear.
    assert_eq!(bus.ops[1], Op::Write(0x60, vec![16, 0x2f]));
}

#[test]
fn setup_multisynth_int_accepts_the_named_dividers() {
    let (mut clock, mut bus) = brought_up();
    clock.setup_pll_int(&mut bus, PLL::A, 35).unwrap();
    bus.clear_log();
    clock.setup_multisynth_int(&mut bus, 0, PLL::A, MultisynthDiv::Div4).unwrap();
    clock.setup_multisynth_int(&mut bus, 0, PLL::A, MultisynthDiv::Div6).unwrap();
    clock.setup_multisynth_int(&mut bus, 0, PLL::A, MultisynthDiv::Div8).unwrap();
    // Div8: p1 = 128*8 - 512 = 512 = 0x0200.
    assert_eq!(
        bus.ops[4],
        Op::Write(0x60, vec![42, 0x00, 0x01, 0x00, 0x02, 0x00, 0x00, 0x00, 0x00])
    );
}

#[test]
fn rdiv_bits_persist_into_later_multisynth_writes() {
    let (mut clock, mut bus) = brought_up();
    clock.setup_pll_int(&mut bus, PLL::A, 35).unwrap();
    clock.setup_rdiv(&mut bus, 1, RDiv::Div4).unwrap();
    // Channel 1 shares register 52: low nibble preserved, code 2 shifted
    // into bits 4..6.
    assert_eq!(bus.regs[52], 0x20);
    bus.clear_log();
    clock.setup_multisynth(&mut bus, 1, PLL::A, 72, 0, 1).unwrap();
    // The burst's P1-high byte merges the stored R-divider bits back in.
    assert_eq!(
        bus.ops[0],
        Op::Write(0x60, vec![50, 0x00, 0x01, 0x20, 0x22, 0x00, 0x00, 0x00, 0x00])
    );
    assert_eq!(bus.regs[52], 0x20);
}

#[test]
fn setup_rdiv_preserves_low_nibble() {
    let (mut clock, mut bus) = brought_up();
    bus.regs[44] = 0x03;
    clock.setup_rdiv(&mut bus, 0, RDiv::Div128).unwrap();
    assert_eq!(bus.ops.last().unwrap(), &Op::Write(0x60, vec![44, 0x73]));
    assert_eq!(clock.setup_rdiv(&mut bus, 3, RDiv::Div2), Err(Error::ParameterOutOfRange));
}

#[test]
fn enable_outputs_round_trip_restores_all_enabled() {
    // Disabling and re-enabling always lands the output-enable register
    // back at 0x00, whatever was written before.
    let (mut clock, mut bus) = brought_up();
    bus.regs[3] = 0xa5;
    clock.enable_outputs(&mut bus, false).unwrap();
    assert_eq!(bus.regs[3], 0xff);
    clock.enable_outputs(&mut bus, true).unwrap();
    assert_eq!(bus.regs[3], 0x00);
    assert_eq!(bus.ops, vec![Op::Write(0x60, vec![3, 0xff]), Op::Write(0x60, vec![3, 0x00])]);
}

#[test]
fn enable_spread_spectrum_is_a_read_modify_write() {
    let (mut clock, mut bus) = brought_up();
    bus.regs[149] = 0x5a;
    clock.enable_spread_spectrum(&mut bus, true).unwrap();
    assert_eq!(bus.regs[149], 0xda);
    clock.enable_spread_spectrum(&mut bus, false).unwrap();
    assert_eq!(bus.regs[149], 0x5a);
}

#[test]
fn set_freq_end_to_end_hits_the_target_within_one_hertz() {
    let (mut clock, mut bus) = brought_up();
    clock.set_freq(&mut bus, 0, PLL::A, 12_288_000).unwrap();

    // Exactly one PLL block write (8 bytes as 8 register writes) plus
    // reset pulse, one 9-byte multisynth burst plus control byte, one
    // R-divider read-modify-write.
    assert_eq!(bus.attempts(), 13);
    for op in &bus.ops[0..8] {
        assert!(matches!(op, Op::Write(0x60, d) if d.len() == 2 && (26..=33).contains(&d[0])));
    }
    assert_eq!(bus.ops[8], Op::Write(0x60, vec![177, 0xa0]));
    assert!(matches!(&bus.ops[9], Op::Write(0x60, d) if d.len() == 9 && d[0] == 42));
    assert_eq!(bus.ops[10], Op::Write(0x60, vec![16, 0x4f]));
    assert_eq!(bus.ops[11], Op::WriteRead(0x60, vec![44], vec![0x00]));
    assert_eq!(bus.ops[12], Op::Write(0x60, vec![44, 0x00]));

    // Recover the programmed configuration from the register file:
    // total divider 73 keeps r = 1, ms = 72.
    let pll = decode(&bus.plla_fields());
    assert_eq!(pll.integer_part, 35);
    assert_eq!(pll.denominator, 0xfffff);
    let ms_p1 = (u32::from(bus.regs[44] & 0x03) << 16) | (u32::from(bus.regs[45]) << 8)
        | u32::from(bus.regs[46]);
    let ms = (ms_p1 + 512) / 128;
    assert_eq!(ms, 72);

    // crystal * (mult + num/denom) / (ms * r) == 12288000 within 1 Hz:
    // |crystal*(mult*denom + num) - target*denom*ms*r| <= denom*ms*r.
    let crystal = 25_000_000u64;
    let denom = u64::from(pll.denominator);
    let lhs = crystal * (u64::from(pll.integer_part) * denom + u64::from(pll.numerator));
    let total = denom * u64::from(ms);
    let rhs = 12_288_000u64 * total;
    let distance = lhs.abs_diff(rhs);
    assert!(distance <= total, "off by {} / {}", distance, total);
}

#[test]
fn set_freq_low_target_engages_r_divider() {
    let (mut clock, mut bus) = brought_up();
    clock.set_freq(&mut bus, 2, PLL::B, 100_000).unwrap();
    // Excess 10 needs the 16-fold R-divider: code 4 in bits 4..6 of the
    // channel-2 shared register.
    assert_eq!(bus.regs[60] >> 4, 4);
    // PLL A's block stays untouched; PLL B's block was written instead.
    assert_eq!(bus.regs[29] | bus.regs[30], 0);
    assert_ne!(bus.regs[34] | bus.regs[35] | bus.regs[37] | bus.regs[38], 0);
}

#[test]
fn set_freq_unreachable_target_writes_nothing() {
    // A target far below what the maxed-out R-divider can reach fails
    // with ParameterOutOfRange before any register write.
    let (mut clock, mut bus) = brought_up();
    assert_eq!(clock.set_freq(&mut bus, 0, PLL::A, 1_000), Err(Error::ParameterOutOfRange));
    assert_eq!(bus.attempts(), 0);
    // The PLL stays unconfigured, so the multisynth still refuses it.
    assert_eq!(
        clock.setup_multisynth(&mut bus, 0, PLL::A, 36, 0, 1),
        Err(Error::PrerequisiteNotMet)
    );
}

#[test]
fn set_freq_requires_bring_up_after_planning() {
    let mut clock = Si5351::new();
    let mut bus = MockBus::new();
    assert_eq!(clock.set_freq(&mut bus, 0, PLL::A, 12_288_000), Err(Error::PrerequisiteNotMet));
    assert_eq!(bus.attempts(), 0);
}

#[test]
fn bus_faults_surface_as_transaction_failures() {
    let (mut clock, mut bus) = brought_up();
    bus.fail_from = Some(4);
    assert_eq!(clock.set_freq(&mut bus, 0, PLL::A, 12_288_000), Err(Error::BusTransactionFailed));
    // Earlier writes stay in place; nothing rolls back.
    assert_eq!(bus.attempts(), 4);
}

#[test]
fn clock_builder_load_writes_the_full_tables() {
    let (mut clock, mut bus) = brought_up();
    clock.set_clock_builder_data(&mut bus).unwrap();
    // Disable, 78 table writes, 22 clears, soft reset, enable: 103.
    assert_eq!(bus.attempts(), 103);
    assert_eq!(bus.ops[1], Op::Write(0x60, vec![15, 0x00]));
    assert_eq!(bus.ops[2], Op::Write(0x60, vec![16, 0x4f]));
    // Register 30 carries table value 0x66.
    assert_eq!(bus.regs[30], 0x66);
    assert_eq!(bus.regs[43], 0x01);
    assert_eq!(bus.regs[53], 0x1c);
    for reg in 149..=170usize {
        assert_eq!(bus.regs[reg], 0x00);
    }
    assert_eq!(bus.ops[101], Op::Write(0x60, vec![177, 0xac]));
    assert_eq!(bus.ops[102], Op::Write(0x60, vec![3, 0x00]));
    assert_eq!(bus.regs[3], 0x00);
}

#[test]
fn begin_resets_pll_records() {
    let (mut clock, mut bus) = brought_up();
    clock.setup_pll_int(&mut bus, PLL::A, 35).unwrap();
    clock.begin(&mut bus).unwrap();
    // After a second bring-up the PLL must be configured again.
    assert_eq!(
        clock.setup_multisynth(&mut bus, 0, PLL::A, 36, 0, 1),
        Err(Error::PrerequisiteNotMet)
    );
}

#[test]
fn crystal_frequency_values() {
    assert_eq!(CrystalFreq::MHZ25.hz(), 25_000_000);
    assert_eq!(CrystalFreq::MHZ27.hz(), 27_000_000);
}
