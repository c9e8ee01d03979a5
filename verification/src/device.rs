//! The Si5351 programming engine: device state, PLL feedback programming,
//! multisynth output programming, R-divider programming and top-level
//! frequency planning.

use vstd::prelude::*;
use crate::codec::{
    encode, encode_multisynth, spec_encode, spec_encode_multisynth, PackedFields, RationalDivider,
};
use crate::error::{check, Error};
use crate::planner::{
    plan_frequency, plan_in_range, spec_ms_div, spec_mult, spec_num, spec_rdiv_den,
    PLAN_DENOMINATOR,
};
use crate::rdiv::RDiv;
use crate::transport::{last_write_to, BusOp, Transport};
use vstd::arithmetic::div_mod::lemma_div_nonincreasing;
use vstd::arithmetic::mul::lemma_mul_upper_bound;

verus! {

/// The chip's 7-bit bus address.
pub const DEVICE_ADDRESS: u8 = 0x60;

/// Output-enable control register: one disable bit per channel, all clear
/// means all outputs enabled.
pub const REG_OUTPUT_ENABLE_CONTROL: u8 = 3;

/// Control register of channel 0; channels 1..7 follow consecutively.
pub const REG_CLK0_CONTROL: u8 = 16;

/// First register of the PLL A feedback parameter block (8 bytes).
pub const REG_PLL_A_PARAMETERS: u8 = 26;

/// First register of the PLL B feedback parameter block (8 bytes).
pub const REG_PLL_B_PARAMETERS: u8 = 34;

/// First register of the channel-0 multisynth parameter block (8 bytes);
/// channels 1 and 2 follow at 50 and 58.
pub const REG_MULTISYNTH0_PARAMETERS: u8 = 42;

/// Spread-spectrum parameter register; bit 7 enables the feature.
pub const REG_SPREAD_SPECTRUM_PARAMETERS: u8 = 149;

/// PLL reset register; bit 7 resets PLL B, bit 5 resets PLL A.
pub const REG_PLL_RESET: u8 = 177;

/// Crystal internal load capacitance register.
pub const REG_CRYSTAL_LOAD: u8 = 183;

/// One of the chip's two PLLs.
#[derive(Debug, Clone, Copy, PartialEq, Eq, Structural)]
pub enum PLL {
    A,
    B,
}

/// Crystal load capacitance selection.
#[derive(Debug, Clone, Copy, PartialEq, Eq, Structural)]
pub enum CrystalLoad {
    PF6,
    PF8,
    PF10,
}

/// Reference crystal frequency, one of the two the chip supports.
#[derive(Debug, Clone, Copy, PartialEq, Eq, Structural)]
pub enum CrystalFreq {
    MHZ25,
    MHZ27,
}

/// The three standard integer multisynth dividers accepted by the
/// integer-mode convenience entry point.
#[derive(Debug, Clone, Copy, PartialEq, Eq, Structural)]
pub enum MultisynthDiv {
    Div4,
    Div6,
    Div8,
}

impl PLL {
    /// Base address of this PLL's feedback parameter block.
    pub open spec fn spec_param_base(self) -> u8 {
        match self {
            PLL::A => REG_PLL_A_PARAMETERS,
            PLL::B => REG_PLL_B_PARAMETERS,
        }
    }
}

impl CrystalLoad {
    /// The load capacitance register value for this selection.
    pub open spec fn spec_register_value(self) -> u8 {
        match self {
            CrystalLoad::PF6 => 0x40,
            CrystalLoad::PF8 => 0x80,
            CrystalLoad::PF10 => 0xc0,
        }
    }

    /// The load capacitance register value for this selection.
    pub fn register_value(&self) -> (v: u8)
        ensures
            v == self.spec_register_value(),
    {
        match self {
            CrystalLoad::PF6 => 0x40,
            CrystalLoad::PF8 => 0x80,
            CrystalLoad::PF10 => 0xc0,
        }
    }
}

impl CrystalFreq {
    /// The reference frequency in Hz.
    pub open spec fn spec_hz(self) -> u32 {
        match self {
            CrystalFreq::MHZ25 => 25_000_000,
            CrystalFreq::MHZ27 => 27_000_000,
        }
    }

    /// The reference frequency in Hz.
    pub fn hz(&self) -> (v: u32)
        ensures
            v == self.spec_hz(),
    {
        match self {
            CrystalFreq::MHZ25 => 25_000_000,
            CrystalFreq::MHZ27 => 27_000_000,
        }
    }
}

impl MultisynthDiv {
    /// The divider value this selection stands for.
    pub open spec fn spec_divider(self) -> u32 {
        match self {
            MultisynthDiv::Div4 => 4,
            MultisynthDiv::Div6 => 6,
            MultisynthDiv::Div8 => 8,
        }
    }

    /// The divider value this selection stands for.
    pub fn divider(&self) -> (v: u32)
        ensures
            v == self.spec_divider(),
    {
        match self {
            MultisynthDiv::Div4 => 4,
            MultisynthDiv::Div6 => 6,
            MultisynthDiv::Div8 => 8,
        }
    }
}

/// Model of one PLL's recorded state: whether it has ever been
/// configured, and the VCO frequency recorded at its last configuration.
/// The frequency is meaningful only while `configured` holds.
pub struct PllState {
    pub configured: bool,
    pub vco_hz: int,
}

/// Model of the whole device-state record: bring-up flag, crystal
/// selection, the two PLL records, and the last-applied R-divider bit
/// pattern of each of the three output channels (kept because multisynth
/// writes must merge it back into a shared register byte).
pub struct DeviceState {
    pub initialised: bool,
    pub crystal: CrystalFreq,
    pub crystal_load: CrystalLoad,
    pub plla: PllState,
    pub pllb: PllState,
    pub rdiv_bits: Seq<u8>,
}

impl DeviceState {
    /// The record of the given PLL.
    pub open spec fn pll(self, pll: PLL) -> PllState {
        match pll {
            PLL::A => self.plla,
            PLL::B => self.pllb,
        }
    }

    /// This state with the given PLL's record replaced.
    pub open spec fn with_pll(self, pll: PLL, st: PllState) -> DeviceState {
        match pll {
            PLL::A => DeviceState { plla: st, ..self },
            PLL::B => DeviceState { pllb: st, ..self },
        }
    }
}

/// Process-lifetime record of the device: which PLLs have been configured
/// and at what VCO frequency, whether bring-up has completed, and each
/// channel's last-applied R-divider bit pattern. Gates all programming
/// calls; the bus transport is borrowed per call, never owned.
pub struct Si5351 {
    initialised: bool,
    crystal_freq: CrystalFreq,
    crystal_load: CrystalLoad,
    plla_configured: bool,
    plla_freq: u64,
    pllb_configured: bool,
    pllb_freq: u64,
    rdiv0: u8,
    rdiv1: u8,
    rdiv2: u8,
}

impl View for Si5351 {
    type V = DeviceState;

    closed spec fn view(&self) -> DeviceState {
        DeviceState {
            initialised: self.initialised,
            crystal: self.crystal_freq,
            crystal_load: self.crystal_load,
            plla: PllState { configured: self.plla_configured, vco_hz: self.plla_freq as int },
            pllb: PllState { configured: self.pllb_configured, vco_hz: self.pllb_freq as int },
            rdiv_bits: seq![self.rdiv0, self.rdiv1, self.rdiv2],
        }
    }
}

/// The transaction that writes `value` to the single register `reg`.
pub open spec fn write_op(reg: u8, value: u8) -> BusOp {
    BusOp::Write { addr: DEVICE_ADDRESS, data: seq![reg, value] }
}

/// The transaction that selects register `reg` and reads one byte, which
/// came back as `response`.
pub open spec fn read_op(reg: u8, response: u8) -> BusOp {
    BusOp::WriteRead { addr: DEVICE_ADDRESS, data: seq![reg], response: seq![response] }
}

/// The ClockBuilder register table for registers 15..=92, as a vector.
fn clock_builder_table() -> (t: Vec<u8>)
    ensures
        t@ == builder_regs_15_92(),
{
    let t: Vec<u8> = vec![
        0x00, 0x4f, 0x4f, 0x6f, 0x80, 0x80, 0x80, 0x80, 0x80, 0x00, 0x00, 0x00, 0x05, 0x00, 0x0c,
        0x66, 0x00, 0x00, 0x02, 0x02, 0x71, 0x00, 0x0c, 0x1a, 0x00, 0x00, 0x86, 0x00, 0x01, 0x00,
        0x01, 0x00, 0x00, 0x00, 0x00, 0x00, 0x01, 0x00, 0x1c, 0x00, 0x00, 0x00, 0x00, 0x00, 0x01,
        0x00, 0x18, 0x00, 0x00, 0x00, 0x00, 0x00, 0x00, 0x00, 0x00, 0x00, 0x00, 0x00, 0x00, 0x00,
        0x00, 0x00, 0x00, 0x00, 0x00, 0x00, 0x00, 0x00, 0x00, 0x00, 0x00, 0x00, 0x00, 0x00, 0x00,
        0x00, 0x00, 0x00,
    ];
    proof {
        assert(t@ =~= builder_regs_15_92());
    }
    t
}

/// Writes one register byte over the bus.
fn write8<T: Transport>(bus: &mut T, reg: u8, value: u8) -> (r: Result<(), Error>)
    ensures
        r is Ok ==> final(bus).ops() == old(bus).ops().push(write_op(reg, value)),
        r is Err ==> r == Err::<(), Error>(Error::BusTransactionFailed),
{
    let mut data: Vec<u8> = Vec::new();
    data.push(reg);
    data.push(value);
    proof {
        assert(data@ =~= seq![reg, value]);
    }
    match bus.write(DEVICE_ADDRESS, data.as_slice()) {
        Ok(()) => Ok(()),
        Err(_) => Err(Error::BusTransactionFailed),
    }
}

/// Reads one register byte over the bus.
fn read8<T: Transport>(bus: &mut T, reg: u8) -> (r: Result<u8, Error>)
    ensures
        r matches Ok(v) ==> final(bus).ops() == old(bus).ops().push(read_op(reg, v)),
        r is Err ==> r == Err::<u8, Error>(Error::BusTransactionFailed),
{
    let mut data: Vec<u8> = Vec::new();
    data.push(reg);
    proof {
        assert(data@ =~= seq![reg]);
    }
    match bus.write_then_read(DEVICE_ADDRESS, data.as_slice(), 1) {
        Ok(response) => {
            let v = response[0];
            proof {
                assert(response@ =~= seq![v]);
            }
            Ok(v)
        },
        Err(_) => Err(Error::BusTransactionFailed),
    }
}

/// Writes a burst of bytes over the bus: the first byte selects the
/// starting register, the chip auto-increments for the rest.
fn write_n<T: Transport>(bus: &mut T, data: &Vec<u8>) -> (r: Result<(), Error>)
    ensures
        r is Ok ==> final(bus).ops() == old(bus).ops().push(
            BusOp::Write { addr: DEVICE_ADDRESS, data: data@ },
        ),
        r is Err ==> r == Err::<(), Error>(Error::BusTransactionFailed),
{
    match bus.write(DEVICE_ADDRESS, data.as_slice()) {
        Ok(()) => Ok(()),
        Err(_) => Err(Error::BusTransactionFailed),
    }
}

/// The eight bytes of a packed P1/P2/P3 parameter block, in chip register
/// order. `p1_hi_extra` is OR'd into the byte that carries P1's top two
/// bits: the multisynth path merges the channel's R-divider code there,
/// the PLL path passes 0.
pub open spec fn param_block_bytes(f: PackedFields, p1_hi_extra: u8) -> Seq<u8> {
    seq![
        ((f.p3 & 0xff00) >> 8) as u8,
        (f.p3 & 0xff) as u8,
        (((f.p1 & 0x30000) >> 16) as u8) | p1_hi_extra,
        ((f.p1 & 0xff00) >> 8) as u8,
        (f.p1 & 0xff) as u8,
        (((f.p3 & 0xf0000) >> 12) as u8) | (((f.p2 & 0xf0000) >> 16) as u8),
        ((f.p2 & 0xff00) >> 8) as u8,
        (f.p2 & 0xff) as u8,
    ]
}

/// The nine transactions of one PLL feedback programming call: each of
/// the eight parameter-block bytes in its own register write, then one
/// reset pulse covering both PLLs. Resetting both PLLs even when only one
/// was reprogrammed is deliberate chip behaviour: a lone reset can leave
/// the other PLL's output glitching.
pub open spec fn pll_setup_ops(pll: PLL, f: PackedFields) -> Seq<BusOp> {
    let base = pll.spec_param_base();
    let bytes = param_block_bytes(f, 0);
    seq![
        write_op(base, bytes[0]),
        write_op((base + 1) as u8, bytes[1]),
        write_op((base + 2) as u8, bytes[2]),
        write_op((base + 3) as u8, bytes[3]),
        write_op((base + 4) as u8, bytes[4]),
        write_op((base + 5) as u8, bytes[5]),
        write_op((base + 6) as u8, bytes[6]),
        write_op((base + 7) as u8, bytes[7]),
        write_op(REG_PLL_RESET, 0xa0),
    ]
}

/// The VCO frequency a feedback configuration yields:
/// `crystal * (mult + num/denom)`, truncated to integer Hz.
pub open spec fn spec_vco_hz(crystal: u32, mult: u32, num: u32, denom: u32) -> int {
    crystal * mult + (crystal * num) / (denom as int)
}

/// The validation a PLL programming call performs, in order: bring-up
/// done, multiplier in its window, then 20-bit fraction terms with a
/// non-zero denominator.
pub open spec fn pll_args_valid(st: DeviceState, mult: u32, num: u32, denom: u32) -> bool {
    &&& st.initialised
    &&& 15 <= mult <= 90
    &&& 1 <= denom <= 0xfffff
    &&& num <= 0xfffff
}

/// First register of the given channel's multisynth parameter block.
pub open spec fn spec_ms_param_base(output: int) -> u8 {
    (REG_MULTISYNTH0_PARAMETERS + 8 * output) as u8
}

/// The register that carries the channel's P1 top bits and R-divider
/// code: third register of the channel's multisynth parameter block.
pub open spec fn spec_ms_rdiv_reg(output: int) -> u8 {
    (spec_ms_param_base(output) + 2) as u8
}

/// The given channel's control register.
pub open spec fn spec_clk_control_reg(output: int) -> u8 {
    (REG_CLK0_CONTROL + output) as u8
}

/// The channel control byte: 0x0f selects 8 mA drive strength, the
/// multisynth as clock source, output not inverted and powered up;
/// bit 5 selects PLL B as the multisynth source, bit 6 integer mode.
pub open spec fn spec_clk_control_byte(pll_source: PLL, integer_mode: bool) -> u8 {
    match pll_source {
        PLL::B => if integer_mode {
            0x6f
        } else {
            0x2f
        },
        PLL::A => if integer_mode {
            0x4f
        } else {
            0x0f
        },
    }
}

/// The validation a multisynth programming call performs, in order:
/// bring-up done, channel in range, divider and fraction terms in their
/// windows, and the source PLL already configured.
pub open spec fn ms_args_valid(
    st: DeviceState,
    output: usize,
    pll_source: PLL,
    div: u32,
    num: u32,
    denom: u32,
) -> bool {
    &&& st.initialised
    &&& output < 3
    &&& 4 <= div <= 2048
    &&& 1 <= denom <= 0xfffff
    &&& num <= 0xfffff
    &&& st.pll(pll_source).configured
}

/// The two transactions of one multisynth programming call: the 9-byte
/// burst write of the parameter block (first byte selects the starting
/// register, the chip auto-increments), with the channel's stored
/// R-divider code `rdiv_bits` merged into the P1 high byte, then the
/// one-byte channel control write.
pub open spec fn multisynth_setup_ops(
    output: int,
    pll_source: PLL,
    f: PackedFields,
    rdiv_bits: u8,
    integer_mode: bool,
) -> Seq<BusOp> {
    seq![
        BusOp::Write {
            addr: DEVICE_ADDRESS,
            data: seq![spec_ms_param_base(output)] + param_block_bytes(f, rdiv_bits),
        },
        write_op(spec_clk_control_reg(output), spec_clk_control_byte(pll_source, integer_mode)),
    ]
}

/// The R-divider bit pattern a selector occupies in the shared register
/// byte: the 3-bit code shifted into bits 4..6.
pub open spec fn rdiv_reg_bits(div: RDiv) -> u8 {
    (div.spec_code() * 16) as u8
}

/// The two transactions of one R-divider programming call, given the
/// byte `v` the read returned: read the shared register, write it back
/// with the low 4 bits (the multisynth P1 high bits) preserved and the
/// high bits replaced by the selector's pattern.
pub open spec fn rdiv_setup_ops(output: int, div: RDiv, v: u8) -> Seq<BusOp> {
    seq![
        read_op(spec_ms_rdiv_reg(output), v),
        write_op(spec_ms_rdiv_reg(output), (v & 0x0f) | rdiv_reg_bits(div)),
    ]
}

/// The transactions of the bring-up sequence, given the byte `v` the
/// spread-spectrum read returned: disable all outputs, power down all
/// eight output drivers, set the crystal load capacitance, then disable
/// spread spectrum by read-modify-write.
pub open spec fn begin_ops(load: CrystalLoad, v: u8) -> Seq<BusOp> {
    seq![
        write_op(REG_OUTPUT_ENABLE_CONTROL, 0xff),
        write_op(16, 0x80),
        write_op(17, 0x80),
        write_op(18, 0x80),
        write_op(19, 0x80),
        write_op(20, 0x80),
        write_op(21, 0x80),
        write_op(22, 0x80),
        write_op(23, 0x80),
        write_op(REG_CRYSTAL_LOAD, load.spec_register_value()),
    ] + spread_spectrum_ops(false, v)
}

/// The register values a ClockBuilder-generated configuration writes to
/// registers 15..=92: PLL setup, multisynth setup and the per-channel
/// blocks for 120 MHz, 12 MHz and 13.56 MHz outputs.
pub open spec fn builder_regs_15_92() -> Seq<u8> {
    seq![
        0x00u8, 0x4f, 0x4f, 0x6f, 0x80, 0x80, 0x80, 0x80, 0x80, 0x00, 0x00, 0x00, 0x05, 0x00,
        0x0c, 0x66, 0x00, 0x00, 0x02, 0x02, 0x71, 0x00, 0x0c, 0x1a, 0x00, 0x00, 0x86, 0x00, 0x01,
        0x00, 0x01, 0x00, 0x00, 0x00, 0x00, 0x00, 0x01, 0x00, 0x1c, 0x00, 0x00, 0x00, 0x00, 0x00,
        0x01, 0x00, 0x18, 0x00, 0x00, 0x00, 0x00, 0x00, 0x00, 0x00, 0x00, 0x00, 0x00, 0x00, 0x00,
        0x00, 0x00, 0x00, 0x00, 0x00, 0x00, 0x00, 0x00, 0x00, 0x00, 0x00, 0x00, 0x00, 0x00, 0x00,
        0x00, 0x00, 0x00, 0x00,
    ]
}

/// The transactions of a full ClockBuilder configuration load: disable
/// all outputs, write registers 15..=92 from the generated table, clear
/// registers 149..=170, apply a soft reset, then enable all outputs.
pub open spec fn builder_load_ops() -> Seq<BusOp> {
    seq![write_op(REG_OUTPUT_ENABLE_CONTROL, 0xff)] + Seq::new(
        78,
        |k: int| write_op((15 + k) as u8, builder_regs_15_92()[k]),
    ) + Seq::new(22, |k: int| write_op((149 + k) as u8, 0x00)) + seq![
        write_op(REG_PLL_RESET, 0xac),
        write_op(REG_OUTPUT_ENABLE_CONTROL, 0x00),
    ]
}

/// The R-divider selector with the given division factor; 128 for any
/// value that is not a valid factor.
pub open spec fn rdiv_for_den(d: int) -> RDiv {
    if d == 1 {
        RDiv::Div1
    } else if d == 2 {
        RDiv::Div2
    } else if d == 4 {
        RDiv::Div4
    } else if d == 8 {
        RDiv::Div8
    } else if d == 16 {
        RDiv::Div16
    } else if d == 32 {
        RDiv::Div32
    } else if d == 64 {
        RDiv::Div64
    } else {
        RDiv::Div128
    }
}

/// The R-divider selector a frequency plan picks.
pub open spec fn spec_plan_rdiv(freq: u32) -> RDiv {
    rdiv_for_den(spec_rdiv_den(freq))
}

/// Whether a `set_freq` call reaches the programming stage: the target
/// is within the divider chain's reach, bring-up is done, and the
/// derived multiplier lands in the PLL window.
pub open spec fn set_freq_args_ok(st: DeviceState, freq: u32) -> bool {
    &&& plan_in_range(freq)
    &&& st.initialised
    &&& 15 <= spec_mult(st.crystal.spec_hz(), freq) <= 90
}

/// The packed PLL fields a `set_freq` call programs.
pub open spec fn pll_fields_for_plan(st: DeviceState, freq: u32) -> PackedFields {
    spec_encode(
        RationalDivider {
            integer_part: spec_mult(st.crystal.spec_hz(), freq) as u32,
            numerator: spec_num(st.crystal.spec_hz(), freq) as u32,
            denominator: PLAN_DENOMINATOR,
        },
    )
}

/// The PLL transactions a `set_freq` call issues.
pub open spec fn pll_setup_ops_for_plan(st: DeviceState, pll: PLL, freq: u32) -> Seq<BusOp> {
    pll_setup_ops(pll, pll_fields_for_plan(st, freq))
}

/// The device record after the PLL stage of a `set_freq` call.
pub open spec fn pll_state_for_plan(st: DeviceState, pll: PLL, freq: u32) -> DeviceState {
    st.with_pll(
        pll,
        PllState {
            configured: true,
            vco_hz: spec_vco_hz(
                st.crystal.spec_hz(),
                spec_mult(st.crystal.spec_hz(), freq) as u32,
                spec_num(st.crystal.spec_hz(), freq) as u32,
                PLAN_DENOMINATOR,
            ),
        },
    )
}

/// All thirteen transactions of a successful `set_freq` call, in order:
/// the nine PLL transactions, the two multisynth transactions (integer
/// mode, merging the channel's previously stored R-divider bits), and
/// the two R-divider transactions, whose read returned `v`.
pub open spec fn set_freq_ops(st: DeviceState, output: int, pll: PLL, freq: u32, v: u8) -> Seq<
    BusOp,
> {
    pll_setup_ops_for_plan(st, pll, freq) + multisynth_setup_ops(
        output,
        pll,
        spec_encode_multisynth(
            RationalDivider {
                integer_part: spec_ms_div(freq) as u32,
                numerator: 0,
                denominator: 1,
            },
        ),
        st.rdiv_bits[output],
        true,
    ) + rdiv_setup_ops(output, spec_plan_rdiv(freq), v)
}

/// The device record after a successful `set_freq` call: the chosen PLL
/// configured at the planned VCO frequency, and the channel's R-divider
/// bit pattern replaced by the planned selector's.
pub open spec fn set_freq_state(st: DeviceState, output: int, pll: PLL, freq: u32) -> DeviceState {
    let after_pll = pll_state_for_plan(st, pll, freq);
    DeviceState {
        rdiv_bits: after_pll.rdiv_bits.update(output, rdiv_reg_bits(spec_plan_rdiv(freq))),
        ..after_pll
    }
}

/// The byte a given output-enable setting writes to the output-enable
/// control register: all disable bits set, or all clear.
pub open spec fn output_enable_byte(enabled: bool) -> u8 {
    if enabled {
        0x00
    } else {
        0xff
    }
}

impl Si5351 {
    /// A fresh, not-yet-brought-up device record: 25 MHz crystal, 10 pF
    /// load, no PLL configured, no R-divider applied.
    pub fn new() -> (s: Si5351)
        ensures
            !s@.initialised,
            s@.crystal == CrystalFreq::MHZ25,
            s@.crystal_load == CrystalLoad::PF10,
            !s@.plla.configured,
            !s@.pllb.configured,
            s@.rdiv_bits =~= seq![0u8, 0u8, 0u8],
    {
        Si5351 {
            initialised: false,
            crystal_freq: CrystalFreq::MHZ25,
            crystal_load: CrystalLoad::PF10,
            plla_configured: false,
            plla_freq: 0,
            pllb_configured: false,
            pllb_freq: 0,
            rdiv0: 0,
            rdiv1: 0,
            rdiv2: 0,
        }
    }

    /// Runs the device bring-up sequence: disables all outputs, powers
    /// down all eight output drivers, sets the crystal load capacitance
    /// and disables spread spectrum; then resets both PLL records and
    /// marks bring-up complete, gating all later programming calls.
    ///
    /// Calling it again re-runs the sequence and clears both PLL
    /// records. On a bus fault the device record is left unchanged.
    pub fn begin<T: Transport>(&mut self, bus: &mut T) -> (r: Result<(), Error>)
        ensures
            match r {
                Ok(()) => (exists|v: u8|
                    final(bus).ops() == old(bus).ops() + begin_ops(old(self)@.crystal_load, v))
                    && final(self)@ == DeviceState {
                    initialised: true,
                    plla: PllState { configured: false, vco_hz: 0 },
                    pllb: PllState { configured: false, vco_hz: 0 },
                    ..old(self)@
                },
                Err(e) => e == Error::BusTransactionFailed && *final(self) == *old(self),
            },
    {
        if write8(bus, REG_OUTPUT_ENABLE_CONTROL, 0xff).is_err() {
            return Err(Error::BusTransactionFailed);
        }
        if write8(bus, 16, 0x80).is_err() {
            return Err(Error::BusTransactionFailed);
        }
        if write8(bus, 17, 0x80).is_err() {
            return Err(Error::BusTransactionFailed);
        }
        if write8(bus, 18, 0x80).is_err() {
            return Err(Error::BusTransactionFailed);
        }
        if write8(bus, 19, 0x80).is_err() {
            return Err(Error::BusTransactionFailed);
        }
        if write8(bus, 20, 0x80).is_err() {
            return Err(Error::BusTransactionFailed);
        }
        if write8(bus, 21, 0x80).is_err() {
            return Err(Error::BusTransactionFailed);
        }
        if write8(bus, 22, 0x80).is_err() {
            return Err(Error::BusTransactionFailed);
        }
        if write8(bus, 23, 0x80).is_err() {
            return Err(Error::BusTransactionFailed);
        }
        let load = self.crystal_load.register_value();
        if write8(bus, REG_CRYSTAL_LOAD, load).is_err() {
            return Err(Error::BusTransactionFailed);
        }
        let ghost ops_mid = bus.ops();
        match self.enable_spread_spectrum(bus, false) {
            Ok(()) => {},
            Err(e) => {
                return Err(e);
            },
        }
        self.plla_configured = false;
        self.plla_freq = 0;
        self.pllb_configured = false;
        self.pllb_freq = 0;
        self.initialised = true;
        proof {
            let v = choose|v: u8| bus.ops() == ops_mid + spread_spectrum_ops(false, v);
            assert(bus.ops() =~= old(bus).ops() + begin_ops(old(self)@.crystal_load, v));
        }
        Ok(())
    }

    /// Writes a full externally generated ClockBuilder configuration:
    /// disables all outputs, loads registers 15..=92 and 149..=170 from
    /// the fixed tables, applies a soft reset and enables all outputs.
    ///
    /// Running it should yield 120 MHz on channel 0, 12 MHz on channel 1
    /// and 13.56 MHz on channel 2. It overwrites every configuration
    /// register, and is not part of the planning algorithm.
    #[verifier::loop_isolation(false)]
    pub fn set_clock_builder_data<T: Transport>(&mut self, bus: &mut T) -> (r: Result<(), Error>)
        ensures
            *final(self) == *old(self),
            !old(self)@.initialised ==> r == Err::<(), Error>(Error::PrerequisiteNotMet)
                && final(bus).ops() == old(bus).ops(),
            old(self)@.initialised ==> match r {
                Ok(()) => final(bus).ops() == old(bus).ops() + builder_load_ops(),
                Err(e) => e == Error::BusTransactionFailed,
            },
    {
        match check(self.initialised, Error::PrerequisiteNotMet) {
            Ok(()) => {},
            Err(e) => {
                return Err(e);
            },
        }
        if write8(bus, REG_OUTPUT_ENABLE_CONTROL, 0xff).is_err() {
            return Err(Error::BusTransactionFailed);
        }
        let ghost ops_head = bus.ops();
        let table = clock_builder_table();
        let mut i: usize = 0;
        while i < 78
            invariant
                i <= 78,
                table@ == builder_regs_15_92(),
                bus.ops() == ops_head + Seq::new(
                    i as nat,
                    |k: int| write_op((15 + k) as u8, builder_regs_15_92()[k]),
                ),
            decreases 78 - i,
        {
            if write8(bus, (15 + i) as u8, table[i]).is_err() {
                return Err(Error::BusTransactionFailed);
            }
            proof {
                assert(bus.ops() =~= ops_head + Seq::new(
                    (i + 1) as nat,
                    |k: int| write_op((15 + k) as u8, builder_regs_15_92()[k]),
                ));
            }
            i = i + 1;
        }
        let ghost ops_mid = bus.ops();
        let mut j: usize = 0;
        while j < 22
            invariant
                j <= 22,
                bus.ops() == ops_mid + Seq::new(
                    j as nat,
                    |k: int| write_op((149 + k) as u8, 0x00),
                ),
            decreases 22 - j,
        {
            if write8(bus, (149 + j) as u8, 0x00).is_err() {
                return Err(Error::BusTransactionFailed);
            }
            proof {
                assert(bus.ops() =~= ops_mid + Seq::new(
                    (j + 1) as nat,
                    |k: int| write_op((149 + k) as u8, 0x00),
                ));
            }
            j = j + 1;
        }
        if write8(bus, REG_PLL_RESET, 0xac).is_err() {
            return Err(Error::BusTransactionFailed);
        }
        if write8(bus, REG_OUTPUT_ENABLE_CONTROL, 0x00).is_err() {
            return Err(Error::BusTransactionFailed);
        }
        proof {
            assert(bus.ops() =~= old(bus).ops() + builder_load_ops());
        }
        Ok(())
    }

    /// Enables or disables all clock outputs in one register write.
    ///
    /// Enabling always writes 0x00 (all outputs enabled), whatever
    /// per-channel disable state was written before.
    pub fn enable_outputs<T: Transport>(&mut self, bus: &mut T, enabled: bool) -> (r: Result<
        (),
        Error,
    >)
        ensures
            *final(self) == *old(self),
            !old(self)@.initialised ==> r == Err::<(), Error>(Error::PrerequisiteNotMet)
                && final(bus).ops() == old(bus).ops(),
            old(self)@.initialised ==> match r {
                Ok(()) => final(bus).ops() == old(bus).ops().push(
                    write_op(REG_OUTPUT_ENABLE_CONTROL, output_enable_byte(enabled)),
                ),
                Err(e) => e == Error::BusTransactionFailed,
            },
    {
        match check(self.initialised, Error::PrerequisiteNotMet) {
            Ok(()) => {},
            Err(e) => {
                return Err(e);
            },
        }
        let value = if enabled {
            0x00
        } else {
            0xff
        };
        write8(bus, REG_OUTPUT_ENABLE_CONTROL, value)
    }

    /// Programs the feedback divider of the given PLL to
    /// `mult + num/denom`, writes the packed parameter block, issues a
    /// reset pulse covering both PLLs, and records the resulting VCO
    /// frequency for the multisynth stage.
    ///
    /// Validation failures, each reported before any bus transaction:
    /// bring-up not completed, `mult` outside 15..90, `denom` outside
    /// 1..0xfffff, `num` above 0xfffff. With valid arguments the call
    /// either completes with exactly the nine transactions of
    /// [`pll_setup_ops`], or reports a bus fault with the device record
    /// unchanged.
    pub fn setup_pll<T: Transport>(
        &mut self,
        bus: &mut T,
        pll: PLL,
        mult: u32,
        num: u32,
        denom: u32,
    ) -> (r: Result<(), Error>)
        ensures
            !old(self)@.initialised ==> r == Err::<(), Error>(Error::PrerequisiteNotMet),
            old(self)@.initialised && !(15 <= mult <= 90) ==> r == Err::<(), Error>(
                Error::ParameterOutOfRange,
            ),
            old(self)@.initialised && 15 <= mult <= 90 && !(1 <= denom <= 0xfffff && num
                <= 0xfffff) ==> r == Err::<(), Error>(Error::ParameterOutOfRange),
            !pll_args_valid(old(self)@, mult, num, denom) ==> *final(self) == *old(self)
                && final(bus).ops() == old(bus).ops(),
            pll_args_valid(old(self)@, mult, num, denom) ==> match r {
                Ok(()) => final(bus).ops() == old(bus).ops() + pll_setup_ops(
                    pll,
                    spec_encode(
                        RationalDivider { integer_part: mult, numerator: num, denominator: denom },
                    ),
                ) && final(self)@ == old(self)@.with_pll(
                    pll,
                    PllState {
                        configured: true,
                        vco_hz: spec_vco_hz(old(self)@.crystal.spec_hz(), mult, num, denom),
                    },
                ),
                Err(e) => e == Error::BusTransactionFailed && *final(self) == *old(self),
            },
    {
        match check(self.initialised, Error::PrerequisiteNotMet) {
            Ok(()) => {},
            Err(e) => {
                return Err(e);
            },
        }
        match check(mult > 14 && mult < 91, Error::ParameterOutOfRange) {
            Ok(()) => {},
            Err(e) => {
                return Err(e);
            },
        }
        match check(denom > 0 && denom <= 0xfffff, Error::ParameterOutOfRange) {
            Ok(()) => {},
            Err(e) => {
                return Err(e);
            },
        }
        match check(num <= 0xfffff, Error::ParameterOutOfRange) {
            Ok(()) => {},
            Err(e) => {
                return Err(e);
            },
        }
        let divider = RationalDivider { integer_part: mult, numerator: num, denominator: denom };
        let f = encode(&divider);
        let base_addr = match pll {
            PLL::A => REG_PLL_A_PARAMETERS,
            PLL::B => REG_PLL_B_PARAMETERS,
        };
        if write8(bus, base_addr, ((f.p3 & 0xff00) >> 8) as u8).is_err() {
            return Err(Error::BusTransactionFailed);
        }
        if write8(bus, base_addr + 1, (f.p3 & 0xff) as u8).is_err() {
            return Err(Error::BusTransactionFailed);
        }
        if write8(bus, base_addr + 2, ((f.p1 & 0x30000) >> 16) as u8).is_err() {
            return Err(Error::BusTransactionFailed);
        }
        if write8(bus, base_addr + 3, ((f.p1 & 0xff00) >> 8) as u8).is_err() {
            return Err(Error::BusTransactionFailed);
        }
        if write8(bus, base_addr + 4, (f.p1 & 0xff) as u8).is_err() {
            return Err(Error::BusTransactionFailed);
        }
        if write8(
            bus,
            base_addr + 5,
            (((f.p3 & 0xf0000) >> 12) as u8) | (((f.p2 & 0xf0000) >> 16) as u8),
        ).is_err() {
            return Err(Error::BusTransactionFailed);
        }
        if write8(bus, base_addr + 6, ((f.p2 & 0xff00) >> 8) as u8).is_err() {
            return Err(Error::BusTransactionFailed);
        }
        if write8(bus, base_addr + 7, (f.p2 & 0xff) as u8).is_err() {
            return Err(Error::BusTransactionFailed);
        }
        if write8(bus, REG_PLL_RESET, 0xa0).is_err() {
            return Err(Error::BusTransactionFailed);
        }
        proof {
            let p1 = f.p1;
            assert((((p1 & 0x30000) >> 16) as u8) | 0u8 == (((p1 & 0x30000) >> 16) as u8))
                by (bit_vector);
            assert(param_block_bytes(f, 0)[2] == ((f.p1 & 0x30000) >> 16) as u8);
            assert(bus.ops() =~= old(bus).ops() + pll_setup_ops(pll, f));
        }
        let crystal = self.crystal_freq.hz();
        proof {
            lemma_mul_upper_bound(crystal as int, 27_000_000, mult as int, 90);
            lemma_mul_upper_bound(crystal as int, 27_000_000, num as int, 0xfffff);
            lemma_div_nonincreasing((crystal as int) * (num as int), denom as int);
        }
        let fvco: u64 = (crystal as u64) * (mult as u64) + ((crystal as u64) * (num as u64)) / (
        denom as u64);
        match pll {
            PLL::A => {
                self.plla_configured = true;
                self.plla_freq = fvco;
            },
            PLL::B => {
                self.pllb_configured = true;
                self.pllb_freq = fvco;
            },
        }
        Ok(())
    }

    /// Programs the given PLL's feedback divider to the pure integer
    /// `mult`, the lower-jitter integer mode.
    pub fn setup_pll_int<T: Transport>(&mut self, bus: &mut T, pll: PLL, mult: u32) -> (r: Result<
        (),
        Error,
    >)
        ensures
            !old(self)@.initialised ==> r == Err::<(), Error>(Error::PrerequisiteNotMet),
            old(self)@.initialised && !(15 <= mult <= 90) ==> r == Err::<(), Error>(
                Error::ParameterOutOfRange,
            ),
            !pll_args_valid(old(self)@, mult, 0, 1) ==> *final(self) == *old(self)
                && final(bus).ops() == old(bus).ops(),
            pll_args_valid(old(self)@, mult, 0, 1) ==> match r {
                Ok(()) => final(bus).ops() == old(bus).ops() + pll_setup_ops(
                    pll,
                    spec_encode(
                        RationalDivider { integer_part: mult, numerator: 0, denominator: 1 },
                    ),
                ) && final(self)@ == old(self)@.with_pll(
                    pll,
                    PllState {
                        configured: true,
                        vco_hz: spec_vco_hz(old(self)@.crystal.spec_hz(), mult, 0, 1),
                    },
                ),
                Err(e) => e == Error::BusTransactionFailed && *final(self) == *old(self),
            },
    {
        self.setup_pll(bus, pll, mult, 0, 1)
    }

    /// Programs the multisynth divider of an output channel to
    /// `div + num/denom` from the given PLL's output, writing the packed
    /// parameter block in one burst and the channel control byte in a
    /// second transaction.
    ///
    /// Validation failures, each reported before any bus transaction, in
    /// order: bring-up not completed (`PrerequisiteNotMet`), channel
    /// above 2, `div` outside 4..2048, `denom` outside 1..0xfffff, `num`
    /// above 0xfffff (all `ParameterOutOfRange`), and a source PLL that
    /// was never configured (`PrerequisiteNotMet`: a channel can never be
    /// pointed at an unconfigured PLL).
    ///
    /// The burst merges the channel's stored R-divider bit pattern into
    /// the P1 high byte: multisynth writes and R-divider writes share
    /// that register byte and must not clobber each other's bits.
    pub fn setup_multisynth<T: Transport>(
        &mut self,
        bus: &mut T,
        output: usize,
        pll_source: PLL,
        div: u32,
        num: u32,
        denom: u32,
    ) -> (r: Result<(), Error>)
        ensures
            *final(self) == *old(self),
            !old(self)@.initialised ==> r == Err::<(), Error>(Error::PrerequisiteNotMet),
            old(self)@.initialised && !(output < 3) ==> r == Err::<(), Error>(
                Error::ParameterOutOfRange,
            ),
            old(self)@.initialised && output < 3 && !(4 <= div <= 2048) ==> r == Err::<(), Error>(
                Error::ParameterOutOfRange,
            ),
            old(self)@.initialised && output < 3 && 4 <= div <= 2048 && !(1 <= denom <= 0xfffff
                && num <= 0xfffff) ==> r == Err::<(), Error>(Error::ParameterOutOfRange),
            old(self)@.initialised && output < 3 && 4 <= div <= 2048 && 1 <= denom <= 0xfffff && num
                <= 0xfffff && !old(self)@.pll(pll_source).configured ==> r == Err::<(), Error>(
                Error::PrerequisiteNotMet,
            ),
            !ms_args_valid(old(self)@, output, pll_source, div, num, denom) ==> final(bus).ops()
                == old(bus).ops(),
            ms_args_valid(old(self)@, output, pll_source, div, num, denom) ==> match r {
                Ok(()) => final(bus).ops() == old(bus).ops() + multisynth_setup_ops(
                    output as int,
                    pll_source,
                    spec_encode_multisynth(
                        RationalDivider { integer_part: div, numerator: num, denominator: denom },
                    ),
                    old(self)@.rdiv_bits[output as int],
                    num == 0,
                ),
                Err(e) => e == Error::BusTransactionFailed,
            },
    {
        match check(self.initialised, Error::PrerequisiteNotMet) {
            Ok(()) => {},
            Err(e) => {
                return Err(e);
            },
        }
        match check(output < 3, Error::ParameterOutOfRange) {
            Ok(()) => {},
            Err(e) => {
                return Err(e);
            },
        }
        match check(div > 3 && div < 2049, Error::ParameterOutOfRange) {
            Ok(()) => {},
            Err(e) => {
                return Err(e);
            },
        }
        match check(denom > 0 && denom <= 0xfffff, Error::ParameterOutOfRange) {
            Ok(()) => {},
            Err(e) => {
                return Err(e);
            },
        }
        match check(num <= 0xfffff, Error::ParameterOutOfRange) {
            Ok(()) => {},
            Err(e) => {
                return Err(e);
            },
        }
        let configured = match pll_source {
            PLL::A => self.plla_configured,
            PLL::B => self.pllb_configured,
        };
        match check(configured, Error::PrerequisiteNotMet) {
            Ok(()) => {},
            Err(e) => {
                return Err(e);
            },
        }
        let divider = RationalDivider { integer_part: div, numerator: num, denominator: denom };
        let f = encode_multisynth(&divider);
        let base_addr = if output == 0 {
            42
        } else if output == 1 {
            50
        } else {
            58
        };
        let rdiv_bits = if output == 0 {
            self.rdiv0
        } else if output == 1 {
            self.rdiv1
        } else {
            self.rdiv2
        };
        let mut buffer: Vec<u8> = Vec::new();
        buffer.push(base_addr);
        buffer.push(((f.p3 & 0xff00) >> 8) as u8);
        buffer.push((f.p3 & 0xff) as u8);
        buffer.push((((f.p1 & 0x30000) >> 16) as u8) | rdiv_bits);
        buffer.push(((f.p1 & 0xff00) >> 8) as u8);
        buffer.push((f.p1 & 0xff) as u8);
        buffer.push((((f.p3 & 0xf0000) >> 12) as u8) | (((f.p2 & 0xf0000) >> 16) as u8));
        buffer.push(((f.p2 & 0xff00) >> 8) as u8);
        buffer.push((f.p2 & 0xff) as u8);
        proof {
            assert(buffer@ =~= seq![spec_ms_param_base(output as int)] + param_block_bytes(
                f,
                old(self)@.rdiv_bits[output as int],
            ));
        }
        if write_n(bus, &buffer).is_err() {
            return Err(Error::BusTransactionFailed);
        }
        let clk_control_reg = if output == 0 {
            16
        } else if output == 1 {
            17
        } else {
            18
        };
        let clk_control_value: u8 = match pll_source {
            PLL::B => if num == 0 {
                0x6f
            } else {
                0x2f
            },
            PLL::A => if num == 0 {
                0x4f
            } else {
                0x0f
            },
        };
        let r = write8(bus, clk_control_reg, clk_control_value);
        match r {
            Ok(()) => {
                proof {
                    assert(bus.ops() =~= old(bus).ops() + multisynth_setup_ops(
                        output as int,
                        pll_source,
                        f,
                        old(self)@.rdiv_bits[output as int],
                        num == 0,
                    ));
                }
                Ok(())
            },
            Err(_) => Err(Error::BusTransactionFailed),
        }
    }

    /// Programs an output channel's multisynth to one of the three named
    /// standard integer dividers, in pure integer mode.
    pub fn setup_multisynth_int<T: Transport>(
        &mut self,
        bus: &mut T,
        output: usize,
        pll_source: PLL,
        div: MultisynthDiv,
    ) -> (r: Result<(), Error>)
        ensures
            *final(self) == *old(self),
            !old(self)@.initialised ==> r == Err::<(), Error>(Error::PrerequisiteNotMet),
            old(self)@.initialised && !(output < 3) ==> r == Err::<(), Error>(
                Error::ParameterOutOfRange,
            ),
            old(self)@.initialised && output < 3 && !old(self)@.pll(pll_source).configured ==> r
                == Err::<(), Error>(Error::PrerequisiteNotMet),
            ms_args_valid(old(self)@, output, pll_source, div.spec_divider(), 0, 1) ==> match r {
                Ok(()) => final(bus).ops() == old(bus).ops() + multisynth_setup_ops(
                    output as int,
                    pll_source,
                    spec_encode_multisynth(
                        RationalDivider {
                            integer_part: div.spec_divider(),
                            numerator: 0,
                            denominator: 1,
                        },
                    ),
                    old(self)@.rdiv_bits[output as int],
                    true,
                ),
                Err(e) => e == Error::BusTransactionFailed,
            },
    {
        self.setup_multisynth(bus, output, pll_source, div.divider(), 0, 1)
    }

    /// Programs an output channel's R-divider: reads the shared register,
    /// preserves its low 4 bits (the multisynth P1 high bits), overwrites
    /// the high bits with the selector's pattern, and persists the
    /// pattern so a later multisynth write can merge it back in.
    ///
    /// The pattern is recorded before the final write goes out, as the
    /// write path does it: after a bus fault the recorded pattern may
    /// correspond to either the old or the new selector.
    pub fn setup_rdiv<T: Transport>(&mut self, bus: &mut T, output: usize, div: RDiv) -> (r: Result<
        (),
        Error,
    >)
        ensures
            output >= 3 ==> r == Err::<(), Error>(Error::ParameterOutOfRange) && *final(self)
                == *old(self) && final(bus).ops() == old(bus).ops(),
            output < 3 ==> match r {
                Ok(()) => exists|v: u8|
                    final(bus).ops() == old(bus).ops() + rdiv_setup_ops(output as int, div, v)
                        && final(self)@ == DeviceState {
                        rdiv_bits: old(self)@.rdiv_bits.update(
                            output as int,
                            rdiv_reg_bits(div),
                        ),
                        ..old(self)@
                    },
                Err(e) => e == Error::BusTransactionFailed && (*final(self) == *old(self)
                    || final(self)@ == DeviceState {
                    rdiv_bits: old(self)@.rdiv_bits.update(output as int, rdiv_reg_bits(div)),
                    ..old(self)@
                }),
            },
    {
        if output >= 3 {
            return Err(Error::ParameterOutOfRange);
        }
        let r_reg = if output == 0 {
            44
        } else if output == 1 {
            52
        } else {
            60
        };
        let regval = match read8(bus, r_reg) {
            Ok(v) => v,
            Err(_) => {
                return Err(Error::BusTransactionFailed);
            },
        };
        let divider = div.code() * 16;
        let value = (regval & 0x0f) | divider;
        if output == 0 {
            self.rdiv0 = divider;
        } else if output == 1 {
            self.rdiv1 = divider;
        } else {
            self.rdiv2 = divider;
        }
        proof {
            assert(self@.rdiv_bits =~= old(self)@.rdiv_bits.update(
                output as int,
                rdiv_reg_bits(div),
            ));
        }
        let r = write8(bus, r_reg, value);
        match r {
            Ok(()) => {
                proof {
                    assert(bus.ops() =~= old(bus).ops() + rdiv_setup_ops(
                        output as int,
                        div,
                        regval,
                    ));
                }
                Ok(())
            },
            Err(_) => Err(Error::BusTransactionFailed),
        }
    }

    /// Programs one output channel to the target frequency from the
    /// given PLL, deriving the whole divider chain: the minimal
    /// R-divider that keeps the multisynth divider in its window, an
    /// even multisynth divider run in integer mode, and the PLL
    /// multiplier and 20-bit fraction that hit the target exactly
    /// through that chain.
    ///
    /// Fails with `ParameterOutOfRange`, before any register write, when
    /// the target is out of the divider chain's reach (see
    /// [`plan_in_range`]) or the derived multiplier falls outside the
    /// PLL window; with `PrerequisiteNotMet` when bring-up has not
    /// completed. On success it issues exactly the nine PLL
    /// transactions, the two multisynth transactions and the two
    /// R-divider transactions, in that order. A bus fault surfaces as
    /// `BusTransactionFailed` and leaves earlier-written registers in
    /// place; the caller re-runs the whole call to reach a known state.
    pub fn set_freq<T: Transport>(
        &mut self,
        bus: &mut T,
        output: usize,
        pll: PLL,
        freq: u32,
    ) -> (r: Result<(), Error>)
        requires
            freq >= 1,
        ensures
            !plan_in_range(freq) ==> r == Err::<(), Error>(Error::ParameterOutOfRange)
                && *final(self) == *old(self) && final(bus).ops() == old(bus).ops(),
            plan_in_range(freq) && !old(self)@.initialised ==> r == Err::<(), Error>(
                Error::PrerequisiteNotMet,
            ) && *final(self) == *old(self) && final(bus).ops() == old(bus).ops(),
            plan_in_range(freq) && old(self)@.initialised && !(15 <= spec_mult(
                old(self)@.crystal.spec_hz(),
                freq,
            ) <= 90) ==> r == Err::<(), Error>(Error::ParameterOutOfRange)
                && *final(self) == *old(self) && final(bus).ops() == old(bus).ops(),
            set_freq_args_ok(old(self)@, freq) && output < 3 ==> match r {
                Ok(()) => exists|v: u8|
                    final(bus).ops() == old(bus).ops() + set_freq_ops(
                        old(self)@,
                        output as int,
                        pll,
                        freq,
                        v,
                    ) && final(self)@ == set_freq_state(old(self)@, output as int, pll, freq),
                Err(e) => e == Error::BusTransactionFailed,
            },
            set_freq_args_ok(old(self)@, freq) && output >= 3 ==> r is Err && (r == Err::<
                (),
                Error,
            >(Error::ParameterOutOfRange) ==> final(bus).ops() == old(bus).ops()
                + pll_setup_ops_for_plan(old(self)@, pll, freq) && final(self)@ == pll_state_for_plan(
                old(self)@,
                pll,
                freq,
            )) && (r != Err::<(), Error>(Error::ParameterOutOfRange) ==> r == Err::<(), Error>(
                Error::BusTransactionFailed,
            )),
    {
        let crystal = self.crystal_freq.hz();
        let plan = match plan_frequency(crystal, freq) {
            Ok(p) => p,
            Err(e) => {
                return Err(e);
            },
        };
        match self.setup_pll(bus, pll, plan.mult, plan.num, plan.denom) {
            Ok(()) => {},
            Err(e) => {
                return Err(e);
            },
        }
        match self.setup_multisynth(bus, output, pll, plan.ms_div, 0, 1) {
            Ok(()) => {},
            Err(e) => {
                return Err(e);
            },
        }
        let ghost ops_after_ms = bus.ops();
        let r = self.setup_rdiv(bus, output, plan.rdiv);
        match r {
            Ok(()) => {
                proof {
                    let v = choose|v: u8|
                        bus.ops() == ops_after_ms + rdiv_setup_ops(output as int, plan.rdiv, v);
                    assert(bus.ops() =~= old(bus).ops() + set_freq_ops(
                        old(self)@,
                        output as int,
                        pll,
                        freq,
                        v,
                    ));
                    assert(self@.rdiv_bits =~= set_freq_state(
                        old(self)@,
                        output as int,
                        pll,
                        freq,
                    ).rdiv_bits);
                }
                Ok(())
            },
            Err(e) => Err(e),
        }
    }

    /// Enables or disables spread spectrum by a read-modify-write of
    /// bit 7 of the spread-spectrum parameter register.
    pub fn enable_spread_spectrum<T: Transport>(&mut self, bus: &mut T, enabled: bool) -> (r:
        Result<(), Error>)
        ensures
            *final(self) == *old(self),
            r is Ok ==> exists|v: u8|
                final(bus).ops() == old(bus).ops() + spread_spectrum_ops(enabled, v),
            r is Err ==> r == Err::<(), Error>(Error::BusTransactionFailed),
    {
        let current = match read8(bus, REG_SPREAD_SPECTRUM_PARAMETERS) {
            Ok(v) => v,
            Err(_) => {
                return Err(Error::BusTransactionFailed);
            },
        };
        let value = if enabled {
            current | 0x80
        } else {
            current & 0x7f
        };
        let r = write8(bus, REG_SPREAD_SPECTRUM_PARAMETERS, value);
        match r {
            Ok(()) => {
                proof {
                    assert(bus.ops() =~= old(bus).ops() + spread_spectrum_ops(enabled, current));
                }
                Ok(())
            },
            Err(_) => Err(Error::BusTransactionFailed),
        }
    }
}

/// The two transactions of a spread-spectrum enable/disable call, given
/// the byte `v` the read returned: read the parameter register, write it
/// back with bit 7 forced to the requested setting.
pub open spec fn spread_spectrum_ops(enabled: bool, v: u8) -> Seq<BusOp> {
    seq![
        read_op(REG_SPREAD_SPECTRUM_PARAMETERS, v),
        write_op(
            REG_SPREAD_SPECTRUM_PARAMETERS,
            if enabled {
                v | 0x80
            } else {
                v & 0x7f
            },
        ),
    ]
}

/// Disabling all outputs and then enabling them again always leaves the
/// output-enable control register at 0x00 — every output enabled —
/// whatever per-channel disable pattern any earlier transactions wrote.
pub proof fn lemma_enable_outputs_restores(ops: Seq<BusOp>)
    ensures
        last_write_to(
            ops.push(write_op(REG_OUTPUT_ENABLE_CONTROL, output_enable_byte(false))).push(
                write_op(REG_OUTPUT_ENABLE_CONTROL, output_enable_byte(true)),
            ),
            REG_OUTPUT_ENABLE_CONTROL,
        ) == Some(0u8),
{
}

} // verus!
