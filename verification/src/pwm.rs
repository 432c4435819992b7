//! FlexTimer (FTM) driver: PWM, output compare, input capture, combined
//! channel pairs and quadrature decoding.

use vstd::prelude::*;
use core::marker::PhantomData;

use crate::clocks::Clocks;
use crate::regs::{RegOp, Width, write_op, modify_op, bit, masked_update, reg_after, lemma_update_bit, lemma_update_two_bits, lemma_reg_after_single};
use crate::time::Hertz;
use vstd::arithmetic::power2::{pow2, lemma2_to64};
use vstd::arithmetic::div_mod::{lemma_div_denominator, lemma_fundamental_div_mod, lemma_mod_pos_bound, lemma_div_is_ordered_by_denominator};

verus! {

// =====================================================================
// Instances and registers
// =====================================================================

/// A FlexTimer module: register block base and its SIM clock gate.
pub trait FtmInstance {
    spec fn spec_base() -> u32;
    /// SIM clock gate register address.
    spec fn spec_gate_reg() -> u32;
    /// SIM clock gate bit mask.
    spec fn spec_gate_bit() -> u32;

    fn base() -> (r: u32)
        ensures
            r == Self::spec_base(),
            0x4000_0000 <= r <= 0x4010_0000;

    fn gate_reg() -> (r: u32)
        ensures
            r == Self::spec_gate_reg();

    fn gate_bit() -> (r: u32)
        ensures
            r == Self::spec_gate_bit();
}

/// Marker type for FTM0.
pub struct Ftm0;

/// Marker type for FTM1.
pub struct Ftm1;

/// Marker type for FTM2.
pub struct Ftm2;

/// SIM system clock gating control registers 6 and 3.
pub const SIM_SCGC6: u32 = 0x4004_803C;
pub const SIM_SCGC3: u32 = 0x4004_8030;

impl FtmInstance for Ftm0 {
    open spec fn spec_base() -> u32 { 0x4003_8000 }
    open spec fn spec_gate_reg() -> u32 { SIM_SCGC6 }
    open spec fn spec_gate_bit() -> u32 { 0x0100_0000 }
    fn base() -> (r: u32) { 0x4003_8000 }
    fn gate_reg() -> (r: u32) { SIM_SCGC6 }
    fn gate_bit() -> (r: u32) { 0x0100_0000 }
}

impl FtmInstance for Ftm1 {
    open spec fn spec_base() -> u32 { 0x4003_9000 }
    open spec fn spec_gate_reg() -> u32 { SIM_SCGC6 }
    open spec fn spec_gate_bit() -> u32 { 0x0200_0000 }
    fn base() -> (r: u32) { 0x4003_9000 }
    fn gate_reg() -> (r: u32) { SIM_SCGC6 }
    fn gate_bit() -> (r: u32) { 0x0200_0000 }
}

impl FtmInstance for Ftm2 {
    open spec fn spec_base() -> u32 { 0x400B_8000 }
    open spec fn spec_gate_reg() -> u32 { SIM_SCGC3 }
    open spec fn spec_gate_bit() -> u32 { 0x0100_0000 }
    fn base() -> (r: u32) { 0x400B_8000 }
    fn gate_reg() -> (r: u32) { SIM_SCGC3 }
    fn gate_bit() -> (r: u32) { 0x0100_0000 }
}

/// FTM register offsets.
pub const FTM_SC: u32 = 0x00;
pub const FTM_CNT: u32 = 0x04;
pub const FTM_MOD: u32 = 0x08;
pub const FTM_C0SC: u32 = 0x0C;
pub const FTM_C0V: u32 = 0x10;
pub const FTM_CNTIN: u32 = 0x4C;
pub const FTM_MODE: u32 = 0x54;
pub const FTM_SYNC: u32 = 0x58;
pub const FTM_OUTINIT: u32 = 0x5C;
pub const FTM_COMBINE: u32 = 0x64;
pub const FTM_DEADTIME: u32 = 0x68;
pub const FTM_POL: u32 = 0x70;
pub const FTM_FILTER: u32 = 0x78;
pub const FTM_QDCTRL: u32 = 0x80;
pub const FTM_SYNCONF: u32 = 0x8C;
pub const FTM_INVCTRL: u32 = 0x90;
pub const FTM_SWOCTRL: u32 = 0x94;

/// SC fields.
pub const SC_PS_MASK: u32 = 0x07;
pub const SC_CLKS_MASK: u32 = 0x18;
pub const SC_CLKS_SYSTEM: u32 = 0x08;
pub const SC_CPWMS: u32 = 0x20;
pub const SC_TOIE: u32 = 0x40;
pub const SC_TOF: u32 = 0x80;

/// CnSC fields.
pub const CSC_DMA: u32 = 0x01;
pub const CSC_ELSA: u32 = 0x04;
pub const CSC_ELSB: u32 = 0x08;
pub const CSC_MSA: u32 = 0x10;
pub const CSC_MSB: u32 = 0x20;
pub const CSC_CHIE: u32 = 0x40;
pub const CSC_CHF: u32 = 0x80;

/// Address of FTM register `off`.
pub open spec fn ftm_reg<FTM: FtmInstance>(off: u32) -> u32 {
    (FTM::spec_base() + off) as u32
}

/// Address of channel `ch`'s status and control register.
pub open spec fn csc_reg<FTM: FtmInstance>(ch: int) -> u32 {
    (FTM::spec_base() + FTM_C0SC + 8 * ch) as u32
}

/// Address of channel `ch`'s value register.
pub open spec fn cv_reg<FTM: FtmInstance>(ch: int) -> u32 {
    (FTM::spec_base() + FTM_C0V + 8 * ch) as u32
}

fn reg<FTM: FtmInstance>(off: u32) -> (r: u32)
    requires
        off <= 0x100,
    ensures
        r == ftm_reg::<FTM>(off),
{
    FTM::base() + off
}

fn csc<FTM: FtmInstance>(ch: u8) -> (r: u32)
    requires
        ch < 8,
    ensures
        r == csc_reg::<FTM>(ch as int),
{
    FTM::base() + FTM_C0SC + 8 * (ch as u32)
}

fn cv<FTM: FtmInstance>(ch: u8) -> (r: u32)
    requires
        ch < 8,
    ensures
        r == cv_reg::<FTM>(ch as int),
{
    FTM::base() + FTM_C0V + 8 * (ch as u32)
}

// =====================================================================
// Prescaler
// =====================================================================

/// FTM counter clock prescaler divisor (SC.PS values 0-7).
#[derive(Clone, Copy, Debug, PartialEq, Eq, Structural)]
pub enum Prescaler {
    Div1,
    Div2,
    Div4,
    Div8,
    Div16,
    Div32,
    Div64,
    Div128,
}

/// The SC.PS field value of a prescaler.
pub open spec fn prescaler_index(p: Prescaler) -> u8 {
    match p {
        Prescaler::Div1 => 0,
        Prescaler::Div2 => 1,
        Prescaler::Div4 => 2,
        Prescaler::Div8 => 3,
        Prescaler::Div16 => 4,
        Prescaler::Div32 => 5,
        Prescaler::Div64 => 6,
        Prescaler::Div128 => 7,
    }
}

/// The prescaler an SC.PS field value selects (values above 7 saturate).
pub open spec fn prescaler_of_index(idx: u8) -> Prescaler {
    if idx == 0 {
        Prescaler::Div1
    } else if idx == 1 {
        Prescaler::Div2
    } else if idx == 2 {
        Prescaler::Div4
    } else if idx == 3 {
        Prescaler::Div8
    } else if idx == 4 {
        Prescaler::Div16
    } else if idx == 5 {
        Prescaler::Div32
    } else if idx == 6 {
        Prescaler::Div64
    } else {
        Prescaler::Div128
    }
}

impl Prescaler {
    /// Convert prescaler to the SC.PS field index (0-7).
    pub fn to_idx(self) -> (r: u8)
        ensures
            r == prescaler_index(self),
            r < 8,
    {
        match self {
            Prescaler::Div1 => 0,
            Prescaler::Div2 => 1,
            Prescaler::Div4 => 2,
            Prescaler::Div8 => 3,
            Prescaler::Div16 => 4,
            Prescaler::Div32 => 5,
            Prescaler::Div64 => 6,
            Prescaler::Div128 => 7,
        }
    }

    /// Convert an SC.PS field index to a prescaler.
    pub fn from_idx(idx: u8) -> (r: Self)
        ensures
            r == prescaler_of_index(idx),
    {
        match idx {
            0 => Prescaler::Div1,
            1 => Prescaler::Div2,
            2 => Prescaler::Div4,
            3 => Prescaler::Div8,
            4 => Prescaler::Div16,
            5 => Prescaler::Div32,
            6 => Prescaler::Div64,
            _ => Prescaler::Div128,
        }
    }
}

/// Converting a prescaler to its field value and back gives it back.
pub proof fn lemma_prescaler_index_roundtrip(p: Prescaler)
    ensures
        prescaler_of_index(prescaler_index(p)) == p,
{
}

// =====================================================================
// Prescaler / modulo selection for a target frequency
// =====================================================================

/// Clock divisor of prescaler index `idx` (2^idx).
pub open spec fn ftm_divisor(idx: int) -> int {
    if idx == 0 {
        1
    } else if idx == 1 {
        2
    } else if idx == 2 {
        4
    } else if idx == 3 {
        8
    } else if idx == 4 {
        16
    } else if idx == 5 {
        32
    } else if idx == 6 {
        64
    } else {
        128
    }
}

/// Number of counter ticks per period at prescaler index `idx`.
pub open spec fn ftm_period_ticks(bus_clk: u32, target: u32, idx: int) -> int {
    (bus_clk as int / ftm_divisor(idx)) / (target as int)
}

/// Whether prescaler index `idx` gives a period the 16-bit counter can hold.
pub open spec fn ftm_period_fits(bus_clk: u32, target: u32, idx: int) -> bool {
    0 < ftm_period_ticks(bus_clk, target, idx) <= 65536
}

fn ftm_divisor_exec(idx: u8) -> (d: u32)
    requires
        idx < 8,
    ensures
        d as int == ftm_divisor(idx as int),
        d >= 1,
{
    match idx {
        0 => 1,
        1 => 2,
        2 => 4,
        3 => 8,
        4 => 16,
        5 => 32,
        6 => 64,
        _ => 128,
    }
}

/// The first prescaler index from `idx` on whose period fits the counter,
/// with its modulo; `(7, 0xFFFF)` when none does.
pub open spec fn first_fit_from(bus_clk: u32, target: u32, idx: int) -> (u8, u16)
    decreases 8 - idx,
{
    if idx >= 8 || idx < 0 {
        (7u8, 0xFFFFu16)
    } else if ftm_period_fits(bus_clk, target, idx) {
        (idx as u8, (ftm_period_ticks(bus_clk, target, idx) - 1) as u16)
    } else {
        first_fit_from(bus_clk, target, idx + 1)
    }
}

/// The prescaler index and modulo chosen for a target frequency.
pub open spec fn calc_prescaler_spec(bus_clk: u32, target: u32) -> (u8, u16) {
    first_fit_from(bus_clk, target, 0)
}

proof fn lemma_first_fit(bus_clk: u32, target: u32, idx: int, k: int)
    requires
        0 <= idx <= k < 8,
        ftm_period_fits(bus_clk, target, k),
    ensures
        ({
            let (ps, m) = first_fit_from(bus_clk, target, idx);
            &&& idx <= ps <= k
            &&& ftm_period_fits(bus_clk, target, ps as int)
            &&& m as int == ftm_period_ticks(bus_clk, target, ps as int) - 1
            &&& forall|j: int| idx <= j < ps ==> !ftm_period_fits(bus_clk, target, j)
        }),
    decreases k - idx,
{
    if !ftm_period_fits(bus_clk, target, idx) {
        lemma_first_fit(bus_clk, target, idx + 1, k);
    }
}

/// Prescaler index `idx` divides the bus clock by 2^idx, and the period
/// chosen for a target frequency `f` is the whole number of divided ticks
/// in one period: with `(PS, MOD)` the choice,
/// `(MOD + 1) · 2^PS · f ≤ bus < (MOD + 2) · 2^PS · f`, and every smaller
/// prescaler would need more than the 65536 ticks the counter holds.
pub proof fn lemma_prescaler_period(bus_clk: u32, target: u32)
    requires
        target > 0,
        exists|i: int| 0 <= i < 8 && ftm_period_fits(bus_clk, target, i),
    ensures
        forall|i: int| 0 <= i < 8 ==> #[trigger] ftm_divisor(i) == pow2(i as nat),
        ({
            let (ps, m) = calc_prescaler_spec(bus_clk, target);
            &&& ps < 8
            &&& (m + 1) * pow2(ps as nat) * target <= bus_clk
            &&& bus_clk < (m + 2) * pow2(ps as nat) * target
            &&& forall|j: int| 0 <= j < ps ==> bus_clk as int / (#[trigger] pow2(j as nat) * target) > 65536
        }),
{
    lemma2_to64();
    assert forall|i: int| 0 <= i < 8 implies #[trigger] ftm_divisor(i) == pow2(i as nat) by {
        lemma2_to64();
    }
    let k = choose|i: int| 0 <= i < 8 && ftm_period_fits(bus_clk, target, i);
    lemma_first_fit(bus_clk, target, 0, k);
    let (ps, m) = calc_prescaler_spec(bus_clk, target);
    let d = ftm_divisor(ps as int);
    let t = target as int;
    let b = bus_clk as int;
    lemma_div_denominator(b, d, t);
    let q = b / (d * t);
    assert(q == m + 1);
    lemma_fundamental_div_mod(b, d * t);
    lemma_mod_pos_bound(b, d * t);
    assert((m + 1) * d * t <= b < (m + 2) * d * t) by (nonlinear_arith)
        requires
            b == (d * t) * q + b % (d * t),
            0 <= b % (d * t) < d * t,
            q == m + 1,
    ;
    assert forall|j: int| 0 <= j < ps implies b / (#[trigger] pow2(j as nat) * t) > 65536 by {
        let dj = ftm_divisor(j);
        assert(dj == pow2(j as nat));
        assert(!ftm_period_fits(bus_clk, target, j));
        lemma_div_denominator(b, dj, t);
        assert(1 <= dj <= d);
        assert(dj * t <= d * t) by (nonlinear_arith)
            requires
                1 <= dj <= d,
                t > 0,
        ;
        assert(1 <= dj * t) by (nonlinear_arith)
            requires
                1 <= dj,
                t > 0,
        ;
        lemma_div_is_ordered_by_denominator(b, dj * t, d * t);
    }
}

/// Calculate prescaler index and modulo value for a target PWM frequency.
///
/// Picks the smallest prescaler whose period (`bus_clk / 2^idx / target`
/// counter ticks) fits the 16-bit counter, and returns `(idx, ticks - 1)`.
/// When none fits, falls back to the slowest setting `(7, 0xFFFF)`.
pub fn calc_prescaler(bus_clk: u32, target_freq: u32) -> (r: (u8, u16))
    requires
        target_freq > 0,
    ensures
        r == calc_prescaler_spec(bus_clk, target_freq),
        (exists|i: int| 0 <= i < 8 && ftm_period_fits(bus_clk, target_freq, i)) ==> {
            &&& r.0 < 8
            &&& ftm_period_fits(bus_clk, target_freq, r.0 as int)
            &&& r.1 as int == ftm_period_ticks(bus_clk, target_freq, r.0 as int) - 1
            &&& forall|j: int| 0 <= j < r.0 ==> !ftm_period_fits(bus_clk, target_freq, j)
        },
        !(exists|i: int| 0 <= i < 8 && ftm_period_fits(bus_clk, target_freq, i)) ==> r == (7u8, 0xFFFFu16),
{
    let mut idx: u8 = 0;
    while idx < 8
        invariant
            idx <= 8,
            target_freq > 0,
            forall|j: int| 0 <= j < idx ==> !ftm_period_fits(bus_clk, target_freq, j),
            calc_prescaler_spec(bus_clk, target_freq) == first_fit_from(bus_clk, target_freq, idx as int),
        decreases 8 - idx,
    {
        let div = ftm_divisor_exec(idx);
        let counter_clk = bus_clk / div;
        let mod_val = counter_clk / target_freq;
        assert(mod_val as int == ftm_period_ticks(bus_clk, target_freq, idx as int));
        if mod_val > 0 && mod_val <= 65536 {
            assert(ftm_period_fits(bus_clk, target_freq, idx as int));
            return (idx, (mod_val - 1) as u16);
        }
        idx = idx + 1;
    }
    (7, 0xFFFF)
}

} // verus!

verus! {

// =====================================================================
// Mode enums
// =====================================================================

/// PWM alignment mode (timer-wide SC.CPWMS).
#[derive(Clone, Copy, Debug, PartialEq, Eq, Structural)]
pub enum PwmAlignment {
    /// Edge-aligned PWM (counter counts up only). Period = MOD+1 ticks.
    EdgeAligned,
    /// Center-aligned PWM (counter counts up-down). Period = 2*MOD ticks.
    CenterAligned,
}

/// PWM output polarity (CnSC ELS bits).
#[derive(Clone, Copy, Debug, PartialEq, Eq, Structural)]
pub enum PwmPolarity {
    /// High-true pulses. ELSB=1, ELSA=0.
    HighTrue,
    /// Low-true pulses. ELSB=0, ELSA=1.
    LowTrue,
}

/// Logic level for OUTINIT and SWOCTRL.
#[derive(Clone, Copy, Debug, PartialEq, Eq, Structural)]
pub enum OutputLevel {
    Low,
    High,
}

/// Hardware output polarity (POL register).
#[derive(Clone, Copy, Debug, PartialEq, Eq, Structural)]
pub enum Polarity {
    ActiveHigh,
    ActiveLow,
}

/// Dead-time insertion prescaler (DEADTIME.DTPS).
#[derive(Clone, Copy, Debug, PartialEq, Eq, Structural)]
pub enum DeadtimePrescaler {
    /// Divide by 1 (DTPS = 0x).
    Div1,
    /// Divide by 4 (DTPS = 10).
    Div4,
    /// Divide by 16 (DTPS = 11).
    Div16,
}

/// Output inversion state of a combined pair (INVCTRL).
#[derive(Clone, Copy, Debug, PartialEq, Eq, Structural)]
pub enum PairInversion {
    Normal,
    Inverted,
}

/// Edge detection mode for input capture.
#[derive(Clone, Copy, Debug, PartialEq, Eq, Structural)]
pub enum CaptureEdge {
    Rising,
    Falling,
    Both,
}

/// Action on a compare match.
#[derive(Clone, Copy, Debug, PartialEq, Eq, Structural)]
pub enum CompareAction {
    /// Toggle the output on match.
    Toggle,
    /// Clear the output on match (drive low).
    Clear,
    /// Set the output on match (drive high).
    SetOutput,
}

/// Quadrature decoder encoding mode.
#[derive(Clone, Copy, Debug, PartialEq, Eq, Structural)]
pub enum QuadMode {
    PhaseAB,
    CountDirection,
}

/// Counting direction reported by the quadrature decoder.
#[derive(Clone, Copy, Debug, PartialEq, Eq, Structural)]
pub enum Direction {
    Up,
    Down,
}

// =====================================================================
// Per-channel and per-pair bit updates
// =====================================================================

/// Set a channel's OUTINIT bit (initial output value on MODE.INIT).
pub fn set_outinit_bit<FTM: FtmInstance>(ch: u8, high: bool) -> (r: Vec<RegOp>)
    requires
        ch < 8,
    ensures
        r@ == seq![RegOp::Modify { addr: ftm_reg::<FTM>(FTM_OUTINIT), width: Width::W32, clear: 1u32 << ch, set: if high { 1u32 << ch } else { 0 } }],
{
    let b: u32 = 1u32 << ch;
    modify_op(reg::<FTM>(FTM_OUTINIT), Width::W32, b, if high { b } else { 0 })
}

/// Set a channel's POL bit (output inversion).
pub fn set_pol_bit<FTM: FtmInstance>(ch: u8, active_low: bool) -> (r: Vec<RegOp>)
    requires
        ch < 8,
    ensures
        r@ == seq![RegOp::Modify { addr: ftm_reg::<FTM>(FTM_POL), width: Width::W32, clear: 1u32 << ch, set: if active_low { 1u32 << ch } else { 0 } }],
{
    let b: u32 = 1u32 << ch;
    modify_op(reg::<FTM>(FTM_POL), Width::W32, b, if active_low { b } else { 0 })
}

/// Bit of a pair's field in COMBINE: pair `pair` occupies bits `8*pair..`;
/// COMBINE is bit 0, COMP bit 1, DTEN bit 4, SYNCEN bit 5.
pub open spec fn combine_bit(pair: u8, field: u32) -> u32 {
    1u32 << ((8 * pair as u32 + field) as u32)
}

fn set_combine_field<FTM: FtmInstance>(pair: u8, field: u32, enable: bool) -> (r: Vec<RegOp>)
    requires
        pair < 4,
        field < 8,
    ensures
        r@ == seq![RegOp::Modify { addr: ftm_reg::<FTM>(FTM_COMBINE), width: Width::W32, clear: combine_bit(pair, field), set: if enable { combine_bit(pair, field) } else { 0 } }],
{
    let b: u32 = 1u32 << (8 * (pair as u32) + field);
    modify_op(reg::<FTM>(FTM_COMBINE), Width::W32, b, if enable { b } else { 0 })
}

/// Set a pair's COMBINE bit (combined mode).
pub fn set_combine_bit<FTM: FtmInstance>(pair: u8, enable: bool) -> (r: Vec<RegOp>)
    requires
        pair < 4,
    ensures
        r@ == seq![RegOp::Modify { addr: ftm_reg::<FTM>(FTM_COMBINE), width: Width::W32, clear: combine_bit(pair, 0), set: if enable { combine_bit(pair, 0) } else { 0 } }],
{
    set_combine_field::<FTM>(pair, 0, enable)
}

/// Set a pair's COMP bit (complementary output).
pub fn set_comp_bit<FTM: FtmInstance>(pair: u8, enable: bool) -> (r: Vec<RegOp>)
    requires
        pair < 4,
    ensures
        r@ == seq![RegOp::Modify { addr: ftm_reg::<FTM>(FTM_COMBINE), width: Width::W32, clear: combine_bit(pair, 1), set: if enable { combine_bit(pair, 1) } else { 0 } }],
{
    set_combine_field::<FTM>(pair, 1, enable)
}

/// Set a pair's DTEN bit (dead-time insertion).
pub fn set_dten_bit<FTM: FtmInstance>(pair: u8, enable: bool) -> (r: Vec<RegOp>)
    requires
        pair < 4,
    ensures
        r@ == seq![RegOp::Modify { addr: ftm_reg::<FTM>(FTM_COMBINE), width: Width::W32, clear: combine_bit(pair, 4), set: if enable { combine_bit(pair, 4) } else { 0 } }],
{
    set_combine_field::<FTM>(pair, 4, enable)
}

/// Set a pair's SYNCEN bit (PWM synchronization).
pub fn set_syncen_bit<FTM: FtmInstance>(pair: u8, enable: bool) -> (r: Vec<RegOp>)
    requires
        pair < 4,
    ensures
        r@ == seq![RegOp::Modify { addr: ftm_reg::<FTM>(FTM_COMBINE), width: Width::W32, clear: combine_bit(pair, 5), set: if enable { combine_bit(pair, 5) } else { 0 } }],
{
    set_combine_field::<FTM>(pair, 5, enable)
}

/// Set a pair's INVnEN bit in INVCTRL.
pub fn set_inv_bit<FTM: FtmInstance>(pair: u8, enable: bool) -> (r: Vec<RegOp>)
    requires
        pair < 4,
    ensures
        r@ == seq![RegOp::Modify { addr: ftm_reg::<FTM>(FTM_INVCTRL), width: Width::W32, clear: 1u32 << pair, set: if enable { 1u32 << pair } else { 0 } }],
{
    let b: u32 = 1u32 << pair;
    modify_op(reg::<FTM>(FTM_INVCTRL), Width::W32, b, if enable { b } else { 0 })
}

/// Set a channel's software output control: with `enable`, CHnOC is set
/// and CHnOCV (bit `ch + 8`) takes `high`; without, only CHnOC is cleared.
pub fn set_swoctrl<FTM: FtmInstance>(ch: u8, enable: bool, high: bool) -> (r: Vec<RegOp>)
    requires
        ch < 8,
    ensures
        enable ==> r@ == seq![RegOp::Modify {
            addr: ftm_reg::<FTM>(FTM_SWOCTRL),
            width: Width::W32,
            clear: (1u32 << ch) | (1u32 << ((ch + 8) as u32)),
            set: (1u32 << ch) | (if high { 1u32 << ((ch + 8) as u32) } else { 0 }),
        }],
        !enable ==> r@ == seq![RegOp::Modify { addr: ftm_reg::<FTM>(FTM_SWOCTRL), width: Width::W32, clear: 1u32 << ch, set: 0 }],
{
    let oc: u32 = 1u32 << ch;
    let ocv: u32 = 1u32 << (ch as u32 + 8);
    if enable {
        modify_op(reg::<FTM>(FTM_SWOCTRL), Width::W32, oc | ocv, oc | (if high { ocv } else { 0 }))
    } else {
        modify_op(reg::<FTM>(FTM_SWOCTRL), Width::W32, oc, 0)
    }
}

} // verus!

verus! {

/// DEADTIME.DTPS field value of a dead-time prescaler.
pub open spec fn dtps_code(p: DeadtimePrescaler) -> u32 {
    match p {
        DeadtimePrescaler::Div1 => 0,
        DeadtimePrescaler::Div4 => 2,
        DeadtimePrescaler::Div16 => 3,
    }
}

/// Central FTM timer handle: counter, period, prescaler and the timer-wide
/// features (alignment, output initialization, dead time, synchronization).
pub struct FtmTimer<FTM> {
    _ftm: PhantomData<FTM>,
}

impl<FTM: FtmInstance> FtmTimer<FTM> {
    /// Stop the counter (CLKS = none).
    pub fn stop(&mut self) -> (r: Vec<RegOp>)
        ensures
            r@ == seq![RegOp::Modify { addr: ftm_reg::<FTM>(FTM_SC), width: Width::W32, clear: SC_CLKS_MASK, set: 0 }],
    {
        modify_op(reg::<FTM>(FTM_SC), Width::W32, SC_CLKS_MASK, 0)
    }

    /// Start the counter with the system (bus) clock.
    pub fn start(&mut self) -> (r: Vec<RegOp>)
        ensures
            r@ == seq![RegOp::Modify { addr: ftm_reg::<FTM>(FTM_SC), width: Width::W32, clear: SC_CLKS_MASK, set: SC_CLKS_SYSTEM }],
    {
        modify_op(reg::<FTM>(FTM_SC), Width::W32, SC_CLKS_MASK, SC_CLKS_SYSTEM)
    }

    /// Whether the counter is running (CLKS != none), given SC.
    pub fn is_running(&self, sc: u32) -> (r: bool)
        ensures
            r == (sc & SC_CLKS_MASK != 0),
    {
        sc & SC_CLKS_MASK != 0
    }

    /// Set the modulo (period) value. The PWM period is MOD + 1 ticks.
    pub fn set_modulo(&mut self, mod_val: u16) -> (r: Vec<RegOp>)
        ensures
            r@ == seq![RegOp::Write { addr: ftm_reg::<FTM>(FTM_MOD), width: Width::W32, value: mod_val as u32 }],
    {
        write_op(reg::<FTM>(FTM_MOD), Width::W32, mod_val as u32)
    }

    /// The modulo value, given MOD.
    pub fn modulo(&self, mod_reg: u32) -> (r: u16)
        ensures
            r == (mod_reg & 0xFFFF) as u16,
    {
        (mod_reg & 0xFFFF) as u16
    }

    /// Reset the counter to CNTIN (any write to CNT does).
    pub fn reset_counter(&mut self) -> (r: Vec<RegOp>)
        ensures
            r@ == seq![RegOp::Write { addr: ftm_reg::<FTM>(FTM_CNT), width: Width::W32, value: 0 }],
    {
        write_op(reg::<FTM>(FTM_CNT), Width::W32, 0)
    }

    /// The counter value, given CNT.
    pub fn counter(&self, cnt: u32) -> (r: u16)
        ensures
            r == (cnt & 0xFFFF) as u16,
    {
        (cnt & 0xFFFF) as u16
    }

    /// Set the prescaler divisor (SC.PS).
    pub fn set_prescaler(&mut self, ps: Prescaler) -> (r: Vec<RegOp>)
        ensures
            r@ == seq![RegOp::Modify { addr: ftm_reg::<FTM>(FTM_SC), width: Width::W32, clear: SC_PS_MASK, set: prescaler_index(ps) as u32 }],
    {
        modify_op(reg::<FTM>(FTM_SC), Width::W32, SC_PS_MASK, ps.to_idx() as u32)
    }

    /// The prescaler, given SC.
    pub fn prescaler(&self, sc: u32) -> (r: Prescaler)
        ensures
            r == prescaler_of_index((sc & SC_PS_MASK) as u8),
    {
        Prescaler::from_idx((sc & SC_PS_MASK) as u8)
    }

    /// Calculate and set prescaler + MOD for a target frequency (see
    /// [`calc_prescaler`]): stop the counter, write MOD, reset the counter,
    /// and rewrite SC with the prescaler, keeping only CPWMS. The counter
    /// stays stopped.
    pub fn set_frequency(&mut self, freq: Hertz, clocks: &Clocks) -> (r: Vec<RegOp>)
        requires
            freq.0 > 0,
        ensures
            r@.len() == 4,
            r@[0] == (RegOp::Modify { addr: ftm_reg::<FTM>(FTM_SC), width: Width::W32, clear: SC_CLKS_MASK, set: 0 }),
            r@[2] == (RegOp::Write { addr: ftm_reg::<FTM>(FTM_CNT), width: Width::W32, value: 0 }),
            ({
                let m = r@[1]->Write_value;
                let ps = r@[3]->Modify_set;
                &&& r@[1] == RegOp::Write { addr: ftm_reg::<FTM>(FTM_MOD), width: Width::W32, value: m }
                &&& r@[3] == RegOp::Modify { addr: ftm_reg::<FTM>(FTM_SC), width: Width::W32, clear: !SC_CPWMS, set: ps }
                &&& ps < 8 && m <= 0xFFFF
                &&& (exists|i: int| 0 <= i < 8 && ftm_period_fits(clocks.bus_hz(), freq.0, i)) ==> {
                    &&& ftm_period_fits(clocks.bus_hz(), freq.0, ps as int)
                    &&& m as int == ftm_period_ticks(clocks.bus_hz(), freq.0, ps as int) - 1
                    &&& forall|j: int| 0 <= j < ps ==> !ftm_period_fits(clocks.bus_hz(), freq.0, j)
                }
                &&& !(exists|i: int| 0 <= i < 8 && ftm_period_fits(clocks.bus_hz(), freq.0, i)) ==> ps == 7 && m == 0xFFFF
            }),
    {
        let (ps_idx, mod_val) = calc_prescaler(clocks.bus_clk().raw(), freq.raw());
        let mut ops: Vec<RegOp> = Vec::new();
        ops.push(RegOp::Modify { addr: reg::<FTM>(FTM_SC), width: Width::W32, clear: SC_CLKS_MASK, set: 0 });
        ops.push(RegOp::Write { addr: reg::<FTM>(FTM_MOD), width: Width::W32, value: mod_val as u32 });
        ops.push(RegOp::Write { addr: reg::<FTM>(FTM_CNT), width: Width::W32, value: 0 });
        ops.push(RegOp::Modify { addr: reg::<FTM>(FTM_SC), width: Width::W32, clear: !SC_CPWMS, set: ps_idx as u32 });
        ops
    }

    /// Set PWM alignment (SC.CPWMS).
    pub fn set_alignment(&mut self, alignment: PwmAlignment) -> (r: Vec<RegOp>)
        ensures
            r@ == seq![RegOp::Modify { addr: ftm_reg::<FTM>(FTM_SC), width: Width::W32, clear: SC_CPWMS, set: if alignment == PwmAlignment::CenterAligned { SC_CPWMS } else { 0 } }],
    {
        let set: u32 = match alignment {
            PwmAlignment::EdgeAligned => 0,
            PwmAlignment::CenterAligned => SC_CPWMS,
        };
        modify_op(reg::<FTM>(FTM_SC), Width::W32, SC_CPWMS, set)
    }

    /// The alignment mode, given SC.
    pub fn alignment(&self, sc: u32) -> (r: PwmAlignment)
        ensures
            r == if sc & SC_CPWMS != 0 { PwmAlignment::CenterAligned } else { PwmAlignment::EdgeAligned },
    {
        if sc & SC_CPWMS != 0 {
            PwmAlignment::CenterAligned
        } else {
            PwmAlignment::EdgeAligned
        }
    }

    /// Trigger the output initialization (MODE.INIT loads OUTINIT).
    pub fn trigger_output_init(&mut self) -> (r: Vec<RegOp>)
        ensures
            r@ == seq![RegOp::Modify { addr: ftm_reg::<FTM>(FTM_MODE), width: Width::W32, clear: 0, set: 0x02 }],
    {
        modify_op(reg::<FTM>(FTM_MODE), Width::W32, 0, 0x02)
    }

    /// Bulk-set OUTINIT (bit N = channel N starts high) and trigger the
    /// initialization.
    pub fn init_outputs(&mut self, channel_mask: u8) -> (r: Vec<RegOp>)
        ensures
            r@ == seq![
                RegOp::Write { addr: ftm_reg::<FTM>(FTM_OUTINIT), width: Width::W32, value: channel_mask as u32 },
                RegOp::Modify { addr: ftm_reg::<FTM>(FTM_MODE), width: Width::W32, clear: 0, set: 0x02 },
            ],
    {
        let mut ops = write_op(reg::<FTM>(FTM_OUTINIT), Width::W32, channel_mask as u32);
        ops.push(RegOp::Modify { addr: reg::<FTM>(FTM_MODE), width: Width::W32, clear: 0, set: 0x02 });
        ops
    }

    /// Configure the dead-time prescaler and value (DTVAL masked to 6 bits).
    pub fn set_deadtime(&mut self, prescaler: DeadtimePrescaler, dtval: u8) -> (r: Vec<RegOp>)
        ensures
            r@ == seq![RegOp::Write { addr: ftm_reg::<FTM>(FTM_DEADTIME), width: Width::W32, value: (dtps_code(prescaler) << 6u32) | ((dtval & 0x3F) as u32) }],
    {
        let code: u32 = match prescaler {
            DeadtimePrescaler::Div1 => 0,
            DeadtimePrescaler::Div4 => 2,
            DeadtimePrescaler::Div16 => 3,
        };
        write_op(reg::<FTM>(FTM_DEADTIME), Width::W32, (code << 6u32) | ((dtval & 0x3F) as u32))
    }

    /// The dead-time prescaler, given DEADTIME.
    pub fn deadtime_prescaler(&self, deadtime: u32) -> (r: DeadtimePrescaler)
        ensures
            r == if (deadtime >> 6u32) & 3 == 2 {
                DeadtimePrescaler::Div4
            } else if (deadtime >> 6u32) & 3 == 3 {
                DeadtimePrescaler::Div16
            } else {
                DeadtimePrescaler::Div1
            },
    {
        let dtps = (deadtime >> 6u32) & 3;
        if dtps == 2 {
            DeadtimePrescaler::Div4
        } else if dtps == 3 {
            DeadtimePrescaler::Div16
        } else {
            DeadtimePrescaler::Div1
        }
    }

    /// The dead-time value (DTVAL), given DEADTIME.
    pub fn deadtime_value(&self, deadtime: u32) -> (r: u8)
        ensures
            r == (deadtime & 0x3F) as u8,
    {
        (deadtime & 0x3F) as u8
    }

    /// Trigger a software synchronization (SYNC.SWSYNC).
    pub fn software_sync(&mut self) -> (r: Vec<RegOp>)
        ensures
            r@ == seq![RegOp::Modify { addr: ftm_reg::<FTM>(FTM_SYNC), width: Width::W32, clear: 0, set: 0x80 }],
    {
        modify_op(reg::<FTM>(FTM_SYNC), Width::W32, 0, 0x80)
    }

    /// Choose the synchronization loading points (SYNC.CNTMIN, SYNC.CNTMAX).
    pub fn set_sync_loading_points(&mut self, at_min: bool, at_max: bool) -> (r: Vec<RegOp>)
        ensures
            r@ == seq![RegOp::Modify { addr: ftm_reg::<FTM>(FTM_SYNC), width: Width::W32, clear: 0x03, set: (if at_min { 1u32 } else { 0u32 }) | (if at_max { 2u32 } else { 0u32 }) }],
    {
        let set: u32 = (if at_min { 1u32 } else { 0u32 }) | (if at_max { 2u32 } else { 0u32 });
        modify_op(reg::<FTM>(FTM_SYNC), Width::W32, 0x03, set)
    }
}

} // verus!

verus! {

/// CnSC value for PWM with a polarity: MSB plus ELSB (high-true) or ELSA.
pub open spec fn pwm_csc(p: PwmPolarity) -> u32 {
    CSC_MSB | (if p == PwmPolarity::HighTrue { CSC_ELSB } else { CSC_ELSA })
}

/// CnSC value for output compare with an action.
pub open spec fn compare_csc(a: CompareAction) -> u32 {
    CSC_MSA | match a {
        CompareAction::Toggle => CSC_ELSA,
        CompareAction::Clear => CSC_ELSB,
        CompareAction::SetOutput => CSC_ELSA | CSC_ELSB,
    }
}

/// CnSC value for input capture on an edge.
pub open spec fn capture_csc(e: CaptureEdge) -> u32 {
    match e {
        CaptureEdge::Rising => CSC_ELSA,
        CaptureEdge::Falling => CSC_ELSB,
        CaptureEdge::Both => CSC_ELSA | CSC_ELSB,
    }
}

/// Decode an output level from a register bit.
pub open spec fn level_of(high: bool) -> OutputLevel {
    if high { OutputLevel::High } else { OutputLevel::Low }
}

/// A single FTM channel: PWM, output compare, input capture and DMA.
pub struct FtmChannel<FTM, const CH: u8> {
    _ftm: PhantomData<FTM>,
}

impl<FTM: FtmInstance, const CH: u8> FtmChannel<FTM, CH> {
    /// Edge-aligned PWM, high-true (MSB:MSA=10, ELSB:ELSA=10).
    pub fn set_pwm(&mut self) -> (r: Vec<RegOp>)
        requires
            CH < 8,
        ensures
            r@ == seq![RegOp::Write { addr: csc_reg::<FTM>(CH as int), width: Width::W32, value: CSC_MSB | CSC_ELSB }],
    {
        write_op(csc::<FTM>(CH), Width::W32, CSC_MSB | CSC_ELSB)
    }

    /// PWM with an explicit polarity.
    pub fn set_pwm_polarity(&mut self, polarity: PwmPolarity) -> (r: Vec<RegOp>)
        requires
            CH < 8,
        ensures
            r@ == seq![RegOp::Write { addr: csc_reg::<FTM>(CH as int), width: Width::W32, value: pwm_csc(polarity) }],
    {
        let v: u32 = match polarity {
            PwmPolarity::HighTrue => CSC_MSB | CSC_ELSB,
            PwmPolarity::LowTrue => CSC_MSB | CSC_ELSA,
        };
        write_op(csc::<FTM>(CH), Width::W32, v)
    }

    /// Output compare: configure CnSC for the action, then write CnV.
    pub fn set_output_compare(&mut self, action: CompareAction, compare: u16) -> (r: Vec<RegOp>)
        requires
            CH < 8,
        ensures
            r@ == seq![
                RegOp::Write { addr: csc_reg::<FTM>(CH as int), width: Width::W32, value: compare_csc(action) },
                RegOp::Write { addr: cv_reg::<FTM>(CH as int), width: Width::W32, value: compare as u32 },
            ],
    {
        let v: u32 = match action {
            CompareAction::Toggle => CSC_MSA | CSC_ELSA,
            CompareAction::Clear => CSC_MSA | CSC_ELSB,
            CompareAction::SetOutput => CSC_MSA | (CSC_ELSA | CSC_ELSB),
        };
        let mut ops = write_op(csc::<FTM>(CH), Width::W32, v);
        ops.push(RegOp::Write { addr: cv::<FTM>(CH), width: Width::W32, value: compare as u32 });
        ops
    }

    /// Input capture on an edge (MSB:MSA=00).
    pub fn set_input_capture(&mut self, edge: CaptureEdge) -> (r: Vec<RegOp>)
        requires
            CH < 8,
        ensures
            r@ == seq![RegOp::Write { addr: csc_reg::<FTM>(CH as int), width: Width::W32, value: capture_csc(edge) }],
    {
        let v: u32 = match edge {
            CaptureEdge::Rising => CSC_ELSA,
            CaptureEdge::Falling => CSC_ELSB,
            CaptureEdge::Both => CSC_ELSA | CSC_ELSB,
        };
        write_op(csc::<FTM>(CH), Width::W32, v)
    }

    /// Disable the channel (CnSC = 0).
    pub fn disable(&mut self) -> (r: Vec<RegOp>)
        requires
            CH < 8,
        ensures
            r@ == seq![RegOp::Write { addr: csc_reg::<FTM>(CH as int), width: Width::W32, value: 0 }],
    {
        write_op(csc::<FTM>(CH), Width::W32, 0)
    }

    /// Set the compare / duty value (CnV).
    pub fn set_value(&mut self, val: u16) -> (r: Vec<RegOp>)
        requires
            CH < 8,
        ensures
            r@ == seq![RegOp::Write { addr: cv_reg::<FTM>(CH as int), width: Width::W32, value: val as u32 }],
    {
        write_op(cv::<FTM>(CH), Width::W32, val as u32)
    }

    /// The CnV value, given CnV.
    pub fn value(&self, cnv: u32) -> (r: u16)
        ensures
            r == (cnv & 0xFFFF) as u16,
    {
        (cnv & 0xFFFF) as u16
    }

    /// Whether the channel flag (CHF) is set, given CnSC.
    pub fn has_flag(&self, cnsc: u32) -> (r: bool)
        ensures
            r == (cnsc & CSC_CHF != 0),
    {
        cnsc & CSC_CHF != 0
    }

    /// Clear the channel flag: write back the CnSC value just read (`cnsc`)
    /// with CHF forced to 0 (writing 1 to CHF has no effect).
    pub fn clear_flag(&mut self, cnsc: u32) -> (r: Vec<RegOp>)
        requires
            CH < 8,
        ensures
            r@ == seq![RegOp::Write { addr: csc_reg::<FTM>(CH as int), width: Width::W32, value: cnsc & !CSC_CHF }],
    {
        write_op(csc::<FTM>(CH), Width::W32, cnsc & !CSC_CHF)
    }

    /// Enable the channel interrupt (CHIE).
    pub fn enable_interrupt(&mut self) -> (r: Vec<RegOp>)
        requires
            CH < 8,
        ensures
            r@ == seq![RegOp::Modify { addr: csc_reg::<FTM>(CH as int), width: Width::W32, clear: 0, set: CSC_CHIE }],
    {
        modify_op(csc::<FTM>(CH), Width::W32, 0, CSC_CHIE)
    }

    /// Disable the channel interrupt (CHIE).
    pub fn disable_interrupt(&mut self) -> (r: Vec<RegOp>)
        requires
            CH < 8,
        ensures
            r@ == seq![RegOp::Modify { addr: csc_reg::<FTM>(CH as int), width: Width::W32, clear: CSC_CHIE, set: 0 }],
    {
        modify_op(csc::<FTM>(CH), Width::W32, CSC_CHIE, 0)
    }

    /// Enable DMA requests on channel events (DMA and CHIE both set).
    pub fn enable_dma(&mut self) -> (r: Vec<RegOp>)
        requires
            CH < 8,
        ensures
            r@ == seq![RegOp::Modify { addr: csc_reg::<FTM>(CH as int), width: Width::W32, clear: 0, set: CSC_DMA | CSC_CHIE }],
    {
        modify_op(csc::<FTM>(CH), Width::W32, 0, CSC_DMA | CSC_CHIE)
    }

    /// Disable DMA requests on channel events.
    pub fn disable_dma(&mut self) -> (r: Vec<RegOp>)
        requires
            CH < 8,
        ensures
            r@ == seq![RegOp::Modify { addr: csc_reg::<FTM>(CH as int), width: Width::W32, clear: CSC_DMA | CSC_CHIE, set: 0 }],
    {
        modify_op(csc::<FTM>(CH), Width::W32, CSC_DMA | CSC_CHIE, 0)
    }

    /// Set this channel's initial output value (OUTINIT).
    pub fn set_output_init(&mut self, level: OutputLevel) -> (r: Vec<RegOp>)
        requires
            CH < 8,
        ensures
            r@ == seq![RegOp::Modify { addr: ftm_reg::<FTM>(FTM_OUTINIT), width: Width::W32, clear: 1u32 << CH, set: if level == OutputLevel::High { 1u32 << CH } else { 0 } }],
    {
        set_outinit_bit::<FTM>(CH, level == OutputLevel::High)
    }

    /// This channel's initial output value, given OUTINIT.
    pub fn output_init(&self, outinit: u32) -> (r: OutputLevel)
        requires
            CH < 8,
        ensures
            r == level_of(bit(outinit, CH as u32)),
    {
        if outinit & (1u32 << CH) != 0 { OutputLevel::High } else { OutputLevel::Low }
    }

    /// Set the hardware output polarity (POL).
    pub fn set_polarity(&mut self, pol: Polarity) -> (r: Vec<RegOp>)
        requires
            CH < 8,
        ensures
            r@ == seq![RegOp::Modify { addr: ftm_reg::<FTM>(FTM_POL), width: Width::W32, clear: 1u32 << CH, set: if pol == Polarity::ActiveLow { 1u32 << CH } else { 0 } }],
    {
        set_pol_bit::<FTM>(CH, pol == Polarity::ActiveLow)
    }

    /// The hardware output polarity, given POL.
    pub fn polarity(&self, pol: u32) -> (r: Polarity)
        requires
            CH < 8,
        ensures
            r == if bit(pol, CH as u32) { Polarity::ActiveLow } else { Polarity::ActiveHigh },
    {
        if pol & (1u32 << CH) != 0 { Polarity::ActiveLow } else { Polarity::ActiveHigh }
    }

    /// Force the output to a level (software output control).
    pub fn force_output(&mut self, level: OutputLevel) -> (r: Vec<RegOp>)
        requires
            CH < 8,
        ensures
            r@ == seq![RegOp::Modify {
                addr: ftm_reg::<FTM>(FTM_SWOCTRL),
                width: Width::W32,
                clear: (1u32 << CH) | (1u32 << ((CH + 8) as u32)),
                set: (1u32 << CH) | (if level == OutputLevel::High { 1u32 << ((CH + 8) as u32) } else { 0 }),
            }],
    {
        set_swoctrl::<FTM>(CH, true, level == OutputLevel::High)
    }

    /// Release software output control.
    pub fn release_output(&mut self) -> (r: Vec<RegOp>)
        requires
            CH < 8,
        ensures
            r@ == seq![RegOp::Modify { addr: ftm_reg::<FTM>(FTM_SWOCTRL), width: Width::W32, clear: 1u32 << CH, set: 0 }],
    {
        set_swoctrl::<FTM>(CH, false, false)
    }

    /// Whether software output control is active, given SWOCTRL.
    pub fn is_output_forced(&self, swoctrl: u32) -> (r: bool)
        requires
            CH < 8,
        ensures
            r == bit(swoctrl, CH as u32),
    {
        swoctrl & (1u32 << CH) != 0
    }

    /// The forced output level if software control is active, given SWOCTRL.
    pub fn forced_output(&self, swoctrl: u32) -> (r: Option<OutputLevel>)
        requires
            CH < 8,
        ensures
            r == if bit(swoctrl, CH as u32) { Some(level_of(bit(swoctrl, (CH + 8) as u32))) } else { None },
    {
        if swoctrl & (1u32 << CH) == 0 {
            return None;
        }
        let high = swoctrl & (1u32 << (CH as u32 + 8)) != 0;
        Some(if high { OutputLevel::High } else { OutputLevel::Low })
    }

    /// Take a captured value: given CnSC and CnV, if the flag is set, the
    /// value and the update that clears the flag (CHF written 0).
    pub fn capture(&mut self, cnsc: u32, cnv: u32) -> (r: (Option<u16>, Vec<RegOp>))
        requires
            CH < 8,
        ensures
            cnsc & CSC_CHF != 0 ==> r.0 == Some((cnv & 0xFFFF) as u16) && r.1@ == seq![RegOp::Modify { addr: csc_reg::<FTM>(CH as int), width: Width::W32, clear: CSC_CHF, set: 0 }],
            cnsc & CSC_CHF == 0 ==> r.0 == None::<u16> && r.1@ == Seq::<RegOp>::empty(),
    {
        if cnsc & CSC_CHF != 0 {
            (Some((cnv & 0xFFFF) as u16), modify_op(csc::<FTM>(CH), Width::W32, CSC_CHF, 0))
        } else {
            (None, Vec::new())
        }
    }

    /// Address of the timer's MOD register (read for the maximum duty).
    pub fn mod_addr(&self) -> (r: u32)
        ensures
            r == ftm_reg::<FTM>(FTM_MOD),
    {
        reg::<FTM>(FTM_MOD)
    }

    /// Maximum duty value (the MOD register), given MOD.
    pub fn max_duty_cycle(&self, mod_reg: u32) -> (r: u16)
        ensures
            r == (mod_reg & 0xFFFF) as u16,
    {
        (mod_reg & 0xFFFF) as u16
    }

    /// Set the duty cycle (CnV).
    pub fn set_duty_cycle(&mut self, duty: u16) -> (r: Vec<RegOp>)
        requires
            CH < 8,
        ensures
            r@ == seq![RegOp::Write { addr: cv_reg::<FTM>(CH as int), width: Width::W32, value: duty as u32 }],
    {
        self.set_value(duty)
    }
}

} // verus!

verus! {

/// A pair of adjacent channels in combined mode: CnV (even channel) is the
/// leading edge, C(n+1)V (odd channel) the trailing edge.
pub struct FtmChannelPair<FTM, const PAIR: u8> {
    _ftm: PhantomData<FTM>,
}

/// The program that puts pair `pair` into combined mode.
pub open spec fn combine_program<FTM: FtmInstance>(pair: u8) -> Seq<RegOp> {
    seq![
        RegOp::Write { addr: csc_reg::<FTM>(2 * pair as int), width: Width::W32, value: CSC_MSB | CSC_ELSB },
        RegOp::Write { addr: csc_reg::<FTM>(2 * pair as int + 1), width: Width::W32, value: CSC_MSB | CSC_ELSB },
        RegOp::Write { addr: cv_reg::<FTM>(2 * pair as int), width: Width::W32, value: 0 },
        RegOp::Write { addr: cv_reg::<FTM>(2 * pair as int + 1), width: Width::W32, value: 0 },
        RegOp::Modify { addr: ftm_reg::<FTM>(FTM_SYNCONF), width: Width::W32, clear: 0, set: 0x200 },
        RegOp::Modify { addr: ftm_reg::<FTM>(FTM_SYNC), width: Width::W32, clear: 0, set: 0x01 },
        RegOp::Modify { addr: ftm_reg::<FTM>(FTM_COMBINE), width: Width::W32, clear: combine_bit(pair, 5), set: combine_bit(pair, 5) },
        RegOp::Modify { addr: ftm_reg::<FTM>(FTM_COMBINE), width: Width::W32, clear: combine_bit(pair, 0), set: combine_bit(pair, 0) },
    ]
}

impl<FTM: FtmInstance, const CH: u8> FtmChannel<FTM, CH> {
    /// Consume this even channel and its odd partner to form a combined
    /// pair: both channels high-true combined PWM at 0% duty, buffered
    /// CnV updates on software sync (SYNCONF.SWWRBUF), loading at counter
    /// minimum, then SYNCEN and COMBINE for the pair.
    pub fn into_combined<const ODD: u8, const PAIR: u8>(self, partner: FtmChannel<FTM, ODD>) -> (r: (FtmChannelPair<FTM, PAIR>, Vec<RegOp>))
        requires
            CH < 8,
            CH % 2 == 0,
            ODD == CH + 1,
            PAIR == CH / 2,
        ensures
            r.1@ == combine_program::<FTM>(PAIR),
    {
        let even: u8 = 2 * PAIR;
        let mut ops = write_op(csc::<FTM>(even), Width::W32, CSC_MSB | CSC_ELSB);
        ops.push(RegOp::Write { addr: csc::<FTM>(even + 1), width: Width::W32, value: CSC_MSB | CSC_ELSB });
        ops.push(RegOp::Write { addr: cv::<FTM>(even), width: Width::W32, value: 0 });
        ops.push(RegOp::Write { addr: cv::<FTM>(even + 1), width: Width::W32, value: 0 });
        ops.push(RegOp::Modify { addr: reg::<FTM>(FTM_SYNCONF), width: Width::W32, clear: 0, set: 0x200 });
        ops.push(RegOp::Modify { addr: reg::<FTM>(FTM_SYNC), width: Width::W32, clear: 0, set: 0x01 });
        let mut s = set_syncen_bit::<FTM>(PAIR, true);
        ops.append(&mut s);
        let mut c = set_combine_bit::<FTM>(PAIR, true);
        ops.append(&mut c);
        (FtmChannelPair { _ftm: PhantomData }, ops)
    }
}

impl<FTM: FtmInstance, const PAIR: u8> FtmChannelPair<FTM, PAIR> {
    /// Release the pair into two independent channels: COMBINE, COMP, DTEN
    /// and SYNCEN cleared for the pair.
    pub fn into_channels<const EVEN: u8, const ODD: u8>(self) -> (r: (FtmChannel<FTM, EVEN>, FtmChannel<FTM, ODD>, Vec<RegOp>))
        requires
            PAIR < 4,
            EVEN == 2 * PAIR,
            ODD == 2 * PAIR + 1,
        ensures
            r.2@ == seq![
                RegOp::Modify { addr: ftm_reg::<FTM>(FTM_COMBINE), width: Width::W32, clear: combine_bit(PAIR, 0), set: 0 },
                RegOp::Modify { addr: ftm_reg::<FTM>(FTM_COMBINE), width: Width::W32, clear: combine_bit(PAIR, 1), set: 0 },
                RegOp::Modify { addr: ftm_reg::<FTM>(FTM_COMBINE), width: Width::W32, clear: combine_bit(PAIR, 4), set: 0 },
                RegOp::Modify { addr: ftm_reg::<FTM>(FTM_COMBINE), width: Width::W32, clear: combine_bit(PAIR, 5), set: 0 },
            ],
    {
        let mut ops = set_combine_bit::<FTM>(PAIR, false);
        let mut a = set_comp_bit::<FTM>(PAIR, false);
        let mut b = set_dten_bit::<FTM>(PAIR, false);
        let mut c = set_syncen_bit::<FTM>(PAIR, false);
        ops.append(&mut a);
        ops.append(&mut b);
        ops.append(&mut c);
        (FtmChannel { _ftm: PhantomData }, FtmChannel { _ftm: PhantomData }, ops)
    }

    /// Set the leading edge (CnV of the even channel).
    pub fn set_leading_edge(&mut self, val: u16) -> (r: Vec<RegOp>)
        requires
            PAIR < 4,
        ensures
            r@ == seq![RegOp::Write { addr: cv_reg::<FTM>(2 * PAIR as int), width: Width::W32, value: val as u32 }],
    {
        write_op(cv::<FTM>(2 * PAIR), Width::W32, val as u32)
    }

    /// Set the trailing edge (CnV of the odd channel).
    pub fn set_trailing_edge(&mut self, val: u16) -> (r: Vec<RegOp>)
        requires
            PAIR < 4,
        ensures
            r@ == seq![RegOp::Write { addr: cv_reg::<FTM>(2 * PAIR as int + 1), width: Width::W32, value: val as u32 }],
    {
        write_op(cv::<FTM>(2 * PAIR + 1), Width::W32, val as u32)
    }

    /// Set both edges: the active pulse spans `leading..trailing` counts.
    pub fn set_edges(&mut self, leading: u16, trailing: u16) -> (r: Vec<RegOp>)
        requires
            PAIR < 4,
        ensures
            r@ == seq![
                RegOp::Write { addr: cv_reg::<FTM>(2 * PAIR as int), width: Width::W32, value: leading as u32 },
                RegOp::Write { addr: cv_reg::<FTM>(2 * PAIR as int + 1), width: Width::W32, value: trailing as u32 },
            ],
    {
        let mut ops = write_op(cv::<FTM>(2 * PAIR), Width::W32, leading as u32);
        ops.push(RegOp::Write { addr: cv::<FTM>(2 * PAIR + 1), width: Width::W32, value: trailing as u32 });
        ops
    }

    /// The leading edge, given the even channel's CnV.
    pub fn leading_edge(&self, cnv: u32) -> (r: u16)
        ensures
            r == (cnv & 0xFFFF) as u16,
    {
        (cnv & 0xFFFF) as u16
    }

    /// The trailing edge, given the odd channel's CnV.
    pub fn trailing_edge(&self, cnv: u32) -> (r: u16)
        ensures
            r == (cnv & 0xFFFF) as u16,
    {
        (cnv & 0xFFFF) as u16
    }

    /// Symmetric duty: `set_edges(0, duty)`.
    pub fn set_duty(&mut self, duty: u16) -> (r: Vec<RegOp>)
        requires
            PAIR < 4,
        ensures
            r@ == seq![
                RegOp::Write { addr: cv_reg::<FTM>(2 * PAIR as int), width: Width::W32, value: 0 },
                RegOp::Write { addr: cv_reg::<FTM>(2 * PAIR as int + 1), width: Width::W32, value: duty as u32 },
            ],
    {
        self.set_edges(0, duty)
    }

    /// Maximum duty value (MOD), given MOD.
    pub fn max_duty(&self, mod_reg: u32) -> (r: u16)
        ensures
            r == (mod_reg & 0xFFFF) as u16,
    {
        (mod_reg & 0xFFFF) as u16
    }

    /// Enable complementary output (COMP).
    pub fn enable_complementary(&mut self) -> (r: Vec<RegOp>)
        requires
            PAIR < 4,
        ensures
            r@ == seq![RegOp::Modify { addr: ftm_reg::<FTM>(FTM_COMBINE), width: Width::W32, clear: combine_bit(PAIR, 1), set: combine_bit(PAIR, 1) }],
    {
        set_comp_bit::<FTM>(PAIR, true)
    }

    /// Disable complementary output.
    pub fn disable_complementary(&mut self) -> (r: Vec<RegOp>)
        requires
            PAIR < 4,
        ensures
            r@ == seq![RegOp::Modify { addr: ftm_reg::<FTM>(FTM_COMBINE), width: Width::W32, clear: combine_bit(PAIR, 1), set: 0 }],
    {
        set_comp_bit::<FTM>(PAIR, false)
    }

    /// Whether complementary output is enabled, given COMBINE.
    pub fn is_complementary(&self, combine: u32) -> (r: bool)
        requires
            PAIR < 4,
        ensures
            r == bit(combine, (8 * PAIR as u32 + 1) as u32),
    {
        combine & (1u32 << (8 * (PAIR as u32) + 1)) != 0
    }

    /// Enable dead-time insertion (DTEN).
    pub fn enable_deadtime(&mut self) -> (r: Vec<RegOp>)
        requires
            PAIR < 4,
        ensures
            r@ == seq![RegOp::Modify { addr: ftm_reg::<FTM>(FTM_COMBINE), width: Width::W32, clear: combine_bit(PAIR, 4), set: combine_bit(PAIR, 4) }],
    {
        set_dten_bit::<FTM>(PAIR, true)
    }

    /// Disable dead-time insertion.
    pub fn disable_deadtime(&mut self) -> (r: Vec<RegOp>)
        requires
            PAIR < 4,
        ensures
            r@ == seq![RegOp::Modify { addr: ftm_reg::<FTM>(FTM_COMBINE), width: Width::W32, clear: combine_bit(PAIR, 4), set: 0 }],
    {
        set_dten_bit::<FTM>(PAIR, false)
    }

    /// Whether dead-time insertion is enabled, given COMBINE.
    pub fn is_deadtime_enabled(&self, combine: u32) -> (r: bool)
        requires
            PAIR < 4,
        ensures
            r == bit(combine, (8 * PAIR as u32 + 4) as u32),
    {
        combine & (1u32 << (8 * (PAIR as u32) + 4)) != 0
    }

    /// Enable PWM synchronization (SYNCEN).
    pub fn enable_sync(&mut self) -> (r: Vec<RegOp>)
        requires
            PAIR < 4,
        ensures
            r@ == seq![RegOp::Modify { addr: ftm_reg::<FTM>(FTM_COMBINE), width: Width::W32, clear: combine_bit(PAIR, 5), set: combine_bit(PAIR, 5) }],
    {
        set_syncen_bit::<FTM>(PAIR, true)
    }

    /// Disable PWM synchronization.
    pub fn disable_sync(&mut self) -> (r: Vec<RegOp>)
        requires
            PAIR < 4,
        ensures
            r@ == seq![RegOp::Modify { addr: ftm_reg::<FTM>(FTM_COMBINE), width: Width::W32, clear: combine_bit(PAIR, 5), set: 0 }],
    {
        set_syncen_bit::<FTM>(PAIR, false)
    }

    /// Whether PWM synchronization is enabled, given COMBINE.
    pub fn is_sync_enabled(&self, combine: u32) -> (r: bool)
        requires
            PAIR < 4,
        ensures
            r == bit(combine, (8 * PAIR as u32 + 5) as u32),
    {
        combine & (1u32 << (8 * (PAIR as u32) + 5)) != 0
    }

    /// Set the output inversion (INVnEN).
    pub fn set_inversion(&mut self, inv: PairInversion) -> (r: Vec<RegOp>)
        requires
            PAIR < 4,
        ensures
            r@ == seq![RegOp::Modify { addr: ftm_reg::<FTM>(FTM_INVCTRL), width: Width::W32, clear: 1u32 << PAIR, set: if inv == PairInversion::Inverted { 1u32 << PAIR } else { 0 } }],
    {
        set_inv_bit::<FTM>(PAIR, inv == PairInversion::Inverted)
    }

    /// The output inversion, given INVCTRL.
    pub fn inversion(&self, invctrl: u32) -> (r: PairInversion)
        requires
            PAIR < 4,
        ensures
            r == if bit(invctrl, PAIR as u32) { PairInversion::Inverted } else { PairInversion::Normal },
    {
        if invctrl & (1u32 << PAIR) != 0 { PairInversion::Inverted } else { PairInversion::Normal }
    }

    /// PWM polarity of the pair (ELS bits of the even channel).
    pub fn set_pwm_polarity(&mut self, pol: PwmPolarity) -> (r: Vec<RegOp>)
        requires
            PAIR < 4,
        ensures
            r@ == seq![RegOp::Write { addr: csc_reg::<FTM>(2 * PAIR as int), width: Width::W32, value: pwm_csc(pol) }],
    {
        let v: u32 = match pol {
            PwmPolarity::HighTrue => CSC_MSB | CSC_ELSB,
            PwmPolarity::LowTrue => CSC_MSB | CSC_ELSA,
        };
        write_op(csc::<FTM>(2 * PAIR), Width::W32, v)
    }
}

} // verus!

verus! {

// =====================================================================
// Splitting a FlexTimer into a timer handle and channel handles
// =====================================================================

/// The program that brings a FlexTimer out of reset for use: clock gate
/// on, counter stopped, write protection off, enhanced synchronization
/// (SYNCONF.SYNCMODE, written while FTMEN is still 0), FTMEN on, and
/// CNTIN and CNT cleared.
pub open spec fn split_program<FTM: FtmInstance>() -> Seq<RegOp> {
    seq![
        RegOp::Modify { addr: FTM::spec_gate_reg(), width: Width::W32, clear: 0, set: FTM::spec_gate_bit() },
        RegOp::Write { addr: ftm_reg::<FTM>(FTM_SC), width: Width::W32, value: 0 },
        RegOp::Write { addr: ftm_reg::<FTM>(FTM_MODE), width: Width::W32, value: 0x04 },
        RegOp::Write { addr: ftm_reg::<FTM>(FTM_SYNCONF), width: Width::W32, value: 0x80 },
        RegOp::Modify { addr: ftm_reg::<FTM>(FTM_MODE), width: Width::W32, clear: 0, set: 0x01 },
        RegOp::Write { addr: ftm_reg::<FTM>(FTM_CNTIN), width: Width::W32, value: 0 },
        RegOp::Write { addr: ftm_reg::<FTM>(FTM_CNT), width: Width::W32, value: 0 },
    ]
}

/// The program that configures edge-aligned PWM with prescaler index `ps`
/// and modulo `mod_val`, then starts the counter on the system clock.
pub open spec fn pwm_program<FTM: FtmInstance>(ps: u8, mod_val: u16) -> Seq<RegOp> {
    seq![
        RegOp::Modify { addr: FTM::spec_gate_reg(), width: Width::W32, clear: 0, set: FTM::spec_gate_bit() },
        RegOp::Write { addr: ftm_reg::<FTM>(FTM_SC), width: Width::W32, value: 0 },
        RegOp::Write { addr: ftm_reg::<FTM>(FTM_MODE), width: Width::W32, value: 0x04 },
        RegOp::Write { addr: ftm_reg::<FTM>(FTM_SYNCONF), width: Width::W32, value: 0x80 },
        RegOp::Modify { addr: ftm_reg::<FTM>(FTM_MODE), width: Width::W32, clear: 0, set: 0x01 },
        RegOp::Write { addr: ftm_reg::<FTM>(FTM_CNTIN), width: Width::W32, value: 0 },
        RegOp::Write { addr: ftm_reg::<FTM>(FTM_MOD), width: Width::W32, value: mod_val as u32 },
        RegOp::Write { addr: ftm_reg::<FTM>(FTM_CNT), width: Width::W32, value: 0 },
        RegOp::Write { addr: ftm_reg::<FTM>(FTM_SC), width: Width::W32, value: SC_CLKS_SYSTEM | (ps as u32) },
    ]
}

fn split_ops<FTM: FtmInstance>() -> (r: Vec<RegOp>)
    ensures
        r@ == split_program::<FTM>(),
{
    let mut ops = modify_op(FTM::gate_reg(), Width::W32, 0, FTM::gate_bit());
    ops.push(RegOp::Write { addr: reg::<FTM>(FTM_SC), width: Width::W32, value: 0 });
    ops.push(RegOp::Write { addr: reg::<FTM>(FTM_MODE), width: Width::W32, value: 0x04 });
    ops.push(RegOp::Write { addr: reg::<FTM>(FTM_SYNCONF), width: Width::W32, value: 0x80 });
    ops.push(RegOp::Modify { addr: reg::<FTM>(FTM_MODE), width: Width::W32, clear: 0, set: 0x01 });
    ops.push(RegOp::Write { addr: reg::<FTM>(FTM_CNTIN), width: Width::W32, value: 0 });
    ops.push(RegOp::Write { addr: reg::<FTM>(FTM_CNT), width: Width::W32, value: 0 });
    ops
}

fn pwm_ops<FTM: FtmInstance>(frequency: Hertz, clocks: &Clocks) -> (r: Vec<RegOp>)
    requires
        frequency.0 > 0,
    ensures
        r@ == pwm_program::<FTM>(calc_prescaler_spec(clocks.bus_hz(), frequency.0).0, calc_prescaler_spec(clocks.bus_hz(), frequency.0).1),
{
    let (ps, mod_val) = calc_prescaler(clocks.bus_clk().raw(), frequency.raw());
    let mut ops = modify_op(FTM::gate_reg(), Width::W32, 0, FTM::gate_bit());
    ops.push(RegOp::Write { addr: reg::<FTM>(FTM_SC), width: Width::W32, value: 0 });
    ops.push(RegOp::Write { addr: reg::<FTM>(FTM_MODE), width: Width::W32, value: 0x04 });
    ops.push(RegOp::Write { addr: reg::<FTM>(FTM_SYNCONF), width: Width::W32, value: 0x80 });
    ops.push(RegOp::Modify { addr: reg::<FTM>(FTM_MODE), width: Width::W32, clear: 0, set: 0x01 });
    ops.push(RegOp::Write { addr: reg::<FTM>(FTM_CNTIN), width: Width::W32, value: 0 });
    ops.push(RegOp::Write { addr: reg::<FTM>(FTM_MOD), width: Width::W32, value: mod_val as u32 });
    ops.push(RegOp::Write { addr: reg::<FTM>(FTM_CNT), width: Width::W32, value: 0 });
    ops.push(RegOp::Write { addr: reg::<FTM>(FTM_SC), width: Width::W32, value: SC_CLKS_SYSTEM | (ps as u32) });
    ops
}

/// PWM channels of FTM0 (8 channels), as handed out by [`Ftm0Channels::pwm`].
pub struct Ftm0Channels {
    pub ch0: FtmChannel<Ftm0, 0>,
    pub ch1: FtmChannel<Ftm0, 1>,
    pub ch2: FtmChannel<Ftm0, 2>,
    pub ch3: FtmChannel<Ftm0, 3>,
    pub ch4: FtmChannel<Ftm0, 4>,
    pub ch5: FtmChannel<Ftm0, 5>,
    pub ch6: FtmChannel<Ftm0, 6>,
    pub ch7: FtmChannel<Ftm0, 7>,
}

/// PWM channels of FTM1 (2 channels).
pub struct Ftm1Channels {
    pub ch0: FtmChannel<Ftm1, 0>,
    pub ch1: FtmChannel<Ftm1, 1>,
}

/// PWM channels of FTM2 (2 channels).
pub struct Ftm2Channels {
    pub ch0: FtmChannel<Ftm2, 0>,
    pub ch1: FtmChannel<Ftm2, 1>,
}

/// FTM0 split into its timer handle and 8 channel handles.
pub struct Ftm0Parts {
    pub timer: FtmTimer<Ftm0>,
    pub ch0: FtmChannel<Ftm0, 0>,
    pub ch1: FtmChannel<Ftm0, 1>,
    pub ch2: FtmChannel<Ftm0, 2>,
    pub ch3: FtmChannel<Ftm0, 3>,
    pub ch4: FtmChannel<Ftm0, 4>,
    pub ch5: FtmChannel<Ftm0, 5>,
    pub ch6: FtmChannel<Ftm0, 6>,
    pub ch7: FtmChannel<Ftm0, 7>,
}

/// FTM1 split into its timer handle and 2 channel handles.
pub struct Ftm1Parts {
    pub timer: FtmTimer<Ftm1>,
    pub ch0: FtmChannel<Ftm1, 0>,
    pub ch1: FtmChannel<Ftm1, 1>,
}

/// FTM2 split into its timer handle and 2 channel handles.
pub struct Ftm2Parts {
    pub timer: FtmTimer<Ftm2>,
    pub ch0: FtmChannel<Ftm2, 0>,
    pub ch1: FtmChannel<Ftm2, 1>,
}

impl Ftm0Parts {
    /// Split FTM0: returns the handles and [`split_program`], which leaves
    /// the counter stopped.
    pub fn split(clocks: &Clocks) -> (r: (Self, Vec<RegOp>))
        ensures
            r.1@ == split_program::<Ftm0>(),
    {
        let parts = Ftm0Parts {
            timer: FtmTimer { _ftm: PhantomData },
            ch0: FtmChannel { _ftm: PhantomData },
            ch1: FtmChannel { _ftm: PhantomData },
            ch2: FtmChannel { _ftm: PhantomData },
            ch3: FtmChannel { _ftm: PhantomData },
            ch4: FtmChannel { _ftm: PhantomData },
            ch5: FtmChannel { _ftm: PhantomData },
            ch6: FtmChannel { _ftm: PhantomData },
            ch7: FtmChannel { _ftm: PhantomData },
        };
        (parts, split_ops::<Ftm0>())
    }
}

impl Ftm1Parts {
    /// Split FTM1 (see [`Ftm0Parts::split`]).
    pub fn split(clocks: &Clocks) -> (r: (Self, Vec<RegOp>))
        ensures
            r.1@ == split_program::<Ftm1>(),
    {
        let parts = Ftm1Parts {
            timer: FtmTimer { _ftm: PhantomData },
            ch0: FtmChannel { _ftm: PhantomData },
            ch1: FtmChannel { _ftm: PhantomData },
        };
        (parts, split_ops::<Ftm1>())
    }
}

impl Ftm2Parts {
    /// Split FTM2 (see [`Ftm0Parts::split`]).
    pub fn split(clocks: &Clocks) -> (r: (Self, Vec<RegOp>))
        ensures
            r.1@ == split_program::<Ftm2>(),
    {
        let parts = Ftm2Parts {
            timer: FtmTimer { _ftm: PhantomData },
            ch0: FtmChannel { _ftm: PhantomData },
            ch1: FtmChannel { _ftm: PhantomData },
        };
        (parts, split_ops::<Ftm2>())
    }
}

impl Ftm0Channels {
    /// Configure FTM0 for edge-aligned PWM at `frequency` and start it.
    /// The prescaler and modulo are those of [`calc_prescaler`] on the bus
    /// clock; all channels start disabled.
    pub fn pwm(frequency: Hertz, clocks: &Clocks) -> (r: (Self, Vec<RegOp>))
        requires
            frequency.0 > 0,
        ensures
            r.1@ == pwm_program::<Ftm0>(calc_prescaler_spec(clocks.bus_hz(), frequency.0).0, calc_prescaler_spec(clocks.bus_hz(), frequency.0).1),
    {
        let ops = pwm_ops::<Ftm0>(frequency, clocks);
        let chans = Ftm0Channels {
            ch0: FtmChannel { _ftm: PhantomData },
            ch1: FtmChannel { _ftm: PhantomData },
            ch2: FtmChannel { _ftm: PhantomData },
            ch3: FtmChannel { _ftm: PhantomData },
            ch4: FtmChannel { _ftm: PhantomData },
            ch5: FtmChannel { _ftm: PhantomData },
            ch6: FtmChannel { _ftm: PhantomData },
            ch7: FtmChannel { _ftm: PhantomData },
        };
        (chans, ops)
    }
}

impl Ftm1Channels {
    /// Configure FTM1 for edge-aligned PWM (see [`Ftm0Channels::pwm`]).
    pub fn pwm(frequency: Hertz, clocks: &Clocks) -> (r: (Self, Vec<RegOp>))
        requires
            frequency.0 > 0,
        ensures
            r.1@ == pwm_program::<Ftm1>(calc_prescaler_spec(clocks.bus_hz(), frequency.0).0, calc_prescaler_spec(clocks.bus_hz(), frequency.0).1),
    {
        let ops = pwm_ops::<Ftm1>(frequency, clocks);
        (Ftm1Channels { ch0: FtmChannel { _ftm: PhantomData }, ch1: FtmChannel { _ftm: PhantomData } }, ops)
    }
}

impl Ftm2Channels {
    /// Configure FTM2 for edge-aligned PWM (see [`Ftm0Channels::pwm`]).
    pub fn pwm(frequency: Hertz, clocks: &Clocks) -> (r: (Self, Vec<RegOp>))
        requires
            frequency.0 > 0,
        ensures
            r.1@ == pwm_program::<Ftm2>(calc_prescaler_spec(clocks.bus_hz(), frequency.0).0, calc_prescaler_spec(clocks.bus_hz(), frequency.0).1),
    {
        let ops = pwm_ops::<Ftm2>(frequency, clocks);
        (Ftm2Channels { ch0: FtmChannel { _ftm: PhantomData }, ch1: FtmChannel { _ftm: PhantomData } }, ops)
    }
}

} // verus!

verus! {

// =====================================================================
// Quadrature decoder
// =====================================================================

/// QDCTRL fields.
pub const QD_QUADEN: u32 = 0x01;
pub const QD_QUADIR: u32 = 0x04;
pub const QD_QUADMODE: u32 = 0x08;
pub const QD_PHBPOL: u32 = 0x10;
pub const QD_PHAPOL: u32 = 0x20;
pub const QD_PHBFLTREN: u32 = 0x40;
pub const QD_PHAFLTREN: u32 = 0x80;

/// QDCTRL value that enables the decoder in a mode.
pub open spec fn qdctrl_of(mode: QuadMode) -> u32 {
    match mode {
        QuadMode::PhaseAB => QD_QUADEN,
        QuadMode::CountDirection => QD_QUADEN | QD_QUADMODE,
    }
}

/// The program that configures a FlexTimer as a quadrature decoder: clock
/// gate on, counter stopped, FTMEN and WPDIS, free-running 16-bit count
/// from 0, and QDCTRL with QUADEN and the encoding mode.
pub open spec fn quad_program<FTM: FtmInstance>(mode: QuadMode) -> Seq<RegOp> {
    seq![
        RegOp::Modify { addr: FTM::spec_gate_reg(), width: Width::W32, clear: 0, set: FTM::spec_gate_bit() },
        RegOp::Write { addr: ftm_reg::<FTM>(FTM_SC), width: Width::W32, value: 0 },
        RegOp::Write { addr: ftm_reg::<FTM>(FTM_MODE), width: Width::W32, value: 0x05 },
        RegOp::Write { addr: ftm_reg::<FTM>(FTM_CNTIN), width: Width::W32, value: 0 },
        RegOp::Write { addr: ftm_reg::<FTM>(FTM_MOD), width: Width::W32, value: 0xFFFF },
        RegOp::Write { addr: ftm_reg::<FTM>(FTM_CNT), width: Width::W32, value: 0 },
        RegOp::Write { addr: ftm_reg::<FTM>(FTM_QDCTRL), width: Width::W32, value: qdctrl_of(mode) },
    ]
}

/// Quadrature decoder on a FlexTimer: Phase A on the channel 0 input,
/// Phase B on the channel 1 input.
pub struct QuadratureDecoder<FTM> {
    _ftm: PhantomData<FTM>,
}

impl<FTM: FtmInstance> QuadratureDecoder<FTM> {
    /// Configure the FlexTimer for quadrature decoding in `mode`.
    pub fn new(mode: QuadMode) -> (r: (Self, Vec<RegOp>))
        ensures
            r.1@ == quad_program::<FTM>(mode),
    {
        let q: u32 = match mode {
            QuadMode::PhaseAB => QD_QUADEN,
            QuadMode::CountDirection => QD_QUADEN | QD_QUADMODE,
        };
        let mut ops = modify_op(FTM::gate_reg(), Width::W32, 0, FTM::gate_bit());
        ops.push(RegOp::Write { addr: reg::<FTM>(FTM_SC), width: Width::W32, value: 0 });
        ops.push(RegOp::Write { addr: reg::<FTM>(FTM_MODE), width: Width::W32, value: 0x05 });
        ops.push(RegOp::Write { addr: reg::<FTM>(FTM_CNTIN), width: Width::W32, value: 0 });
        ops.push(RegOp::Write { addr: reg::<FTM>(FTM_MOD), width: Width::W32, value: 0xFFFF });
        ops.push(RegOp::Write { addr: reg::<FTM>(FTM_CNT), width: Width::W32, value: 0 });
        ops.push(RegOp::Write { addr: reg::<FTM>(FTM_QDCTRL), width: Width::W32, value: q });
        (QuadratureDecoder { _ftm: PhantomData }, ops)
    }

    /// The counter value, given CNT.
    pub fn count(&self, cnt: u32) -> (r: u16)
        ensures
            r == (cnt & 0xFFFF) as u16,
    {
        (cnt & 0xFFFF) as u16
    }

    /// The counting direction, given QDCTRL (QUADIR set means up).
    pub fn direction(&self, qdctrl: u32) -> (r: Direction)
        ensures
            r == if qdctrl & QD_QUADIR != 0 { Direction::Up } else { Direction::Down },
    {
        if qdctrl & QD_QUADIR != 0 { Direction::Up } else { Direction::Down }
    }

    /// Reset the counter to zero.
    pub fn reset_count(&mut self) -> (r: Vec<RegOp>)
        ensures
            r@ == seq![RegOp::Write { addr: ftm_reg::<FTM>(FTM_CNT), width: Width::W32, value: 0 }],
    {
        write_op(reg::<FTM>(FTM_CNT), Width::W32, 0)
    }

    /// Set the modulo (the counter wraps at MOD).
    pub fn set_modulo(&mut self, modulo: u16) -> (r: Vec<RegOp>)
        ensures
            r@ == seq![RegOp::Write { addr: ftm_reg::<FTM>(FTM_MOD), width: Width::W32, value: modulo as u32 }],
    {
        write_op(reg::<FTM>(FTM_MOD), Width::W32, modulo as u32)
    }

    /// Enable the timer overflow interrupt (SC.TOIE).
    pub fn enable_overflow_interrupt(&mut self) -> (r: Vec<RegOp>)
        ensures
            r@ == seq![RegOp::Modify { addr: ftm_reg::<FTM>(FTM_SC), width: Width::W32, clear: SC_TOIE, set: SC_TOIE }],
    {
        modify_op(reg::<FTM>(FTM_SC), Width::W32, SC_TOIE, SC_TOIE)
    }

    /// Disable the timer overflow interrupt.
    pub fn disable_overflow_interrupt(&mut self) -> (r: Vec<RegOp>)
        ensures
            r@ == seq![RegOp::Modify { addr: ftm_reg::<FTM>(FTM_SC), width: Width::W32, clear: SC_TOIE, set: 0 }],
    {
        modify_op(reg::<FTM>(FTM_SC), Width::W32, SC_TOIE, 0)
    }

    /// Check and clear the overflow flag, given SC: whether TOF was set,
    /// and, when it was, the read-modify-write that writes TOF back as 0.
    pub fn overflow_flag(&self, sc: u32) -> (r: (bool, Vec<RegOp>))
        ensures
            r.0 == (sc & SC_TOF != 0),
            r.0 ==> r.1@ == seq![RegOp::Modify { addr: ftm_reg::<FTM>(FTM_SC), width: Width::W32, clear: SC_TOF, set: 0 }],
            !r.0 ==> r.1@ == Seq::<RegOp>::empty(),
    {
        if sc & SC_TOF != 0 {
            (true, modify_op(reg::<FTM>(FTM_SC), Width::W32, SC_TOF, 0))
        } else {
            (false, Vec::new())
        }
    }

    /// Set the input filters of Phase A and Phase B (4-bit values; 0 turns a
    /// filter off): FILTER.CH0FVAL/CH1FVAL, then PHAFLTREN/PHBFLTREN.
    pub fn set_filter(&mut self, phase_a: u8, phase_b: u8) -> (r: Vec<RegOp>)
        ensures
            r@ == seq![
                RegOp::Modify { addr: ftm_reg::<FTM>(FTM_FILTER), width: Width::W32, clear: 0xFF, set: ((phase_a & 0x0F) as u32) | (((phase_b & 0x0F) as u32) << 4u32) },
                RegOp::Modify {
                    addr: ftm_reg::<FTM>(FTM_QDCTRL),
                    width: Width::W32,
                    clear: QD_PHAFLTREN | QD_PHBFLTREN,
                    set: (if phase_a > 0 { QD_PHAFLTREN } else { 0 }) | (if phase_b > 0 { QD_PHBFLTREN } else { 0 }),
                },
            ],
    {
        let fval: u32 = ((phase_a & 0x0F) as u32) | (((phase_b & 0x0F) as u32) << 4u32);
        let en: u32 = (if phase_a > 0 { QD_PHAFLTREN } else { 0 }) | (if phase_b > 0 { QD_PHBFLTREN } else { 0 });
        let mut ops = modify_op(reg::<FTM>(FTM_FILTER), Width::W32, 0xFF, fval);
        ops.push(RegOp::Modify { addr: reg::<FTM>(FTM_QDCTRL), width: Width::W32, clear: QD_PHAFLTREN | QD_PHBFLTREN, set: en });
        ops
    }

    /// Set the input polarity of Phase A and Phase B (true inverts).
    pub fn set_polarity(&mut self, phase_a_invert: bool, phase_b_invert: bool) -> (r: Vec<RegOp>)
        ensures
            r@ == seq![RegOp::Modify {
                addr: ftm_reg::<FTM>(FTM_QDCTRL),
                width: Width::W32,
                clear: QD_PHAPOL | QD_PHBPOL,
                set: (if phase_a_invert { QD_PHAPOL } else { 0 }) | (if phase_b_invert { QD_PHBPOL } else { 0 }),
            }],
    {
        let set: u32 = (if phase_a_invert { QD_PHAPOL } else { 0 }) | (if phase_b_invert { QD_PHBPOL } else { 0 });
        modify_op(reg::<FTM>(FTM_QDCTRL), Width::W32, QD_PHAPOL | QD_PHBPOL, set)
    }
}

} // verus!

verus! {

// =====================================================================
// Laws: what a setter writes, the matching getter reads back
// =====================================================================

/// Setting a channel's output polarity and reading POL back gives the
/// polarity that was set, whatever POL held before.
pub proof fn lemma_channel_polarity_roundtrip<FTM: FtmInstance>(ch: u8, pol: Polarity, old: u32)
    requires
        ch < 8,
    ensures
        ({
            let v = reg_after(
                seq![RegOp::Modify { addr: ftm_reg::<FTM>(FTM_POL), width: Width::W32, clear: 1u32 << ch, set: if pol == Polarity::ActiveLow { 1u32 << ch } else { 0 } }],
                ftm_reg::<FTM>(FTM_POL),
                old,
            );
            (if bit(v, ch as u32) { Polarity::ActiveLow } else { Polarity::ActiveHigh }) == pol
        }),
{
    let op = RegOp::Modify { addr: ftm_reg::<FTM>(FTM_POL), width: Width::W32, clear: 1u32 << ch, set: if pol == Polarity::ActiveLow { 1u32 << ch } else { 0 } };
    lemma_reg_after_single(op, old);
    lemma_update_bit(old, ch as u32, pol == Polarity::ActiveLow);
}

/// Setting a channel's initial output level and reading OUTINIT back gives
/// the level that was set.
pub proof fn lemma_output_init_roundtrip<FTM: FtmInstance>(ch: u8, level: OutputLevel, old: u32)
    requires
        ch < 8,
    ensures
        level_of(bit(
            reg_after(
                seq![RegOp::Modify { addr: ftm_reg::<FTM>(FTM_OUTINIT), width: Width::W32, clear: 1u32 << ch, set: if level == OutputLevel::High { 1u32 << ch } else { 0 } }],
                ftm_reg::<FTM>(FTM_OUTINIT),
                old,
            ),
            ch as u32,
        )) == level,
{
    let op = RegOp::Modify { addr: ftm_reg::<FTM>(FTM_OUTINIT), width: Width::W32, clear: 1u32 << ch, set: if level == OutputLevel::High { 1u32 << ch } else { 0 } };
    lemma_reg_after_single(op, old);
    lemma_update_bit(old, ch as u32, level == OutputLevel::High);
}

/// Forcing a channel's output and reading SWOCTRL back reports that level
/// as forced; releasing it reports no forced level.
pub proof fn lemma_forced_output_roundtrip<FTM: FtmInstance>(ch: u8, level: OutputLevel, old: u32)
    requires
        ch < 8,
    ensures
        ({
            let v = reg_after(
                seq![RegOp::Modify {
                    addr: ftm_reg::<FTM>(FTM_SWOCTRL),
                    width: Width::W32,
                    clear: (1u32 << ch) | (1u32 << ((ch + 8) as u32)),
                    set: (1u32 << ch) | (if level == OutputLevel::High { 1u32 << ((ch + 8) as u32) } else { 0 }),
                }],
                ftm_reg::<FTM>(FTM_SWOCTRL),
                old,
            );
            (if bit(v, ch as u32) { Some(level_of(bit(v, (ch + 8) as u32))) } else { None }) == Some(level)
        }),
        ({
            let v = reg_after(
                seq![RegOp::Modify { addr: ftm_reg::<FTM>(FTM_SWOCTRL), width: Width::W32, clear: 1u32 << ch, set: 0 }],
                ftm_reg::<FTM>(FTM_SWOCTRL),
                old,
            );
            !bit(v, ch as u32)
        }),
{
    let hi: u32 = if level == OutputLevel::High { 1u32 << ((ch + 8) as u32) } else { 0 };
    let op = RegOp::Modify {
        addr: ftm_reg::<FTM>(FTM_SWOCTRL),
        width: Width::W32,
        clear: (1u32 << ch) | (1u32 << ((ch + 8) as u32)),
        set: (1u32 << ch) | hi,
    };
    lemma_reg_after_single(op, old);
    lemma_update_two_bits(old, ch as u32, (ch + 8) as u32, hi);
    let rel = RegOp::Modify { addr: ftm_reg::<FTM>(FTM_SWOCTRL), width: Width::W32, clear: 1u32 << ch, set: 0 };
    lemma_reg_after_single(rel, old);
    lemma_update_bit(old, ch as u32, false);
}

/// Setting the prescaler and reading SC back gives the prescaler set.
pub proof fn lemma_prescaler_roundtrip<FTM: FtmInstance>(ps: Prescaler, old: u32)
    ensures
        prescaler_of_index((reg_after(
            seq![RegOp::Modify { addr: ftm_reg::<FTM>(FTM_SC), width: Width::W32, clear: SC_PS_MASK, set: prescaler_index(ps) as u32 }],
            ftm_reg::<FTM>(FTM_SC),
            old,
        ) & SC_PS_MASK) as u8) == ps,
{
    let idx: u32 = prescaler_index(ps) as u32;
    let op = RegOp::Modify { addr: ftm_reg::<FTM>(FTM_SC), width: Width::W32, clear: SC_PS_MASK, set: idx };
    lemma_reg_after_single(op, old);
    assert(idx < 8);
    assert(((old & !7u32) | idx) & 7u32 == idx) by (bit_vector)
        requires
            idx < 8,
    ;
    lemma_prescaler_index_roundtrip(ps);
}

/// Setting the alignment and reading SC back gives the alignment set.
pub proof fn lemma_alignment_roundtrip<FTM: FtmInstance>(alignment: PwmAlignment, old: u32)
    ensures
        ({
            let v = reg_after(
                seq![RegOp::Modify { addr: ftm_reg::<FTM>(FTM_SC), width: Width::W32, clear: SC_CPWMS, set: if alignment == PwmAlignment::CenterAligned { SC_CPWMS } else { 0 } }],
                ftm_reg::<FTM>(FTM_SC),
                old,
            );
            (if v & SC_CPWMS != 0 { PwmAlignment::CenterAligned } else { PwmAlignment::EdgeAligned }) == alignment
        }),
{
    let op = RegOp::Modify { addr: ftm_reg::<FTM>(FTM_SC), width: Width::W32, clear: SC_CPWMS, set: if alignment == PwmAlignment::CenterAligned { SC_CPWMS } else { 0 } };
    lemma_reg_after_single(op, old);
    assert(((old & !0x20u32) | 0x20u32) & 0x20u32 != 0 && ((old & !0x20u32) | 0u32) & 0x20u32 == 0) by (bit_vector);
}

/// Setting the dead time and reading DEADTIME back gives the prescaler set
/// and the value set, masked to its 6 bits.
pub proof fn lemma_deadtime_roundtrip<FTM: FtmInstance>(prescaler: DeadtimePrescaler, dtval: u8, old: u32)
    ensures
        ({
            let v = reg_after(
                seq![RegOp::Write { addr: ftm_reg::<FTM>(FTM_DEADTIME), width: Width::W32, value: (dtps_code(prescaler) << 6u32) | ((dtval & 0x3F) as u32) }],
                ftm_reg::<FTM>(FTM_DEADTIME),
                old,
            );
            &&& (if (v >> 6u32) & 3 == 2 {
                DeadtimePrescaler::Div4
            } else if (v >> 6u32) & 3 == 3 {
                DeadtimePrescaler::Div16
            } else {
                DeadtimePrescaler::Div1
            }) == prescaler
            &&& (v & 0x3F) as u8 == dtval & 0x3F
        }),
{
    let c: u32 = dtps_code(prescaler);
    let d: u32 = (dtval & 0x3F) as u32;
    let op = RegOp::Write { addr: ftm_reg::<FTM>(FTM_DEADTIME), width: Width::W32, value: (c << 6u32) | d };
    lemma_reg_after_single(op, old);
    assert(((c << 6u32) | d) >> 6u32 & 3 == c && ((c << 6u32) | d) & 0x3F == d) by (bit_vector)
        requires
            c < 4,
            d == (dtval & 0x3F) as u32,
    ;
}

/// Setting a pair's output inversion and reading INVCTRL back gives the
/// inversion set.
pub proof fn lemma_pair_inversion_roundtrip<FTM: FtmInstance>(pair: u8, inv: PairInversion, old: u32)
    requires
        pair < 4,
    ensures
        ({
            let v = reg_after(
                seq![RegOp::Modify { addr: ftm_reg::<FTM>(FTM_INVCTRL), width: Width::W32, clear: 1u32 << pair, set: if inv == PairInversion::Inverted { 1u32 << pair } else { 0 } }],
                ftm_reg::<FTM>(FTM_INVCTRL),
                old,
            );
            (if bit(v, pair as u32) { PairInversion::Inverted } else { PairInversion::Normal }) == inv
        }),
{
    let op = RegOp::Modify { addr: ftm_reg::<FTM>(FTM_INVCTRL), width: Width::W32, clear: 1u32 << pair, set: if inv == PairInversion::Inverted { 1u32 << pair } else { 0 } };
    lemma_reg_after_single(op, old);
    lemma_update_bit(old, pair as u32, inv == PairInversion::Inverted);
}

/// Enabling or disabling a pair feature in COMBINE (field 1: complementary,
/// 4: dead time, 5: synchronization) and reading the bit back gives the
/// state that was set.
pub proof fn lemma_pair_feature_roundtrip<FTM: FtmInstance>(pair: u8, field: u32, enable: bool, old: u32)
    requires
        pair < 4,
        field == 1 || field == 4 || field == 5,
    ensures
        bit(
            reg_after(
                seq![RegOp::Modify { addr: ftm_reg::<FTM>(FTM_COMBINE), width: Width::W32, clear: combine_bit(pair, field), set: if enable { combine_bit(pair, field) } else { 0 } }],
                ftm_reg::<FTM>(FTM_COMBINE),
                old,
            ),
            (8 * pair as u32 + field) as u32,
        ) == enable,
{
    let op = RegOp::Modify { addr: ftm_reg::<FTM>(FTM_COMBINE), width: Width::W32, clear: combine_bit(pair, field), set: if enable { combine_bit(pair, field) } else { 0 } };
    lemma_reg_after_single(op, old);
    lemma_update_bit(old, (8 * pair as u32 + field) as u32, enable);
}

} // verus!
