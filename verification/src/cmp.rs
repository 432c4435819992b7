//! Analog comparators (CMP0-CMP2) with their 6-bit reference DACs.
//!
//! The status register SCR mixes configuration bits with the
//! write-one-to-clear edge flags CFF and CFR; every SCR write here keeps the
//! configuration bits read from it and writes the flags as 0, except when
//! clearing them is the point.

use vstd::prelude::*;
use core::marker::PhantomData;

use crate::regs::{RegOp, Width, write_op, modify_op};

verus! {

/// SIM_SCGC4 and its comparator clock gate (shared by all instances).
pub const SIM_SCGC4: u32 = 0x4004_8034;
pub const SCGC4_CMP: u32 = 0x0008_0000;

/// Register offsets.
pub const CMP_CR0: u32 = 0;
pub const CMP_CR1: u32 = 1;
pub const CMP_SCR: u32 = 3;
pub const CMP_DACCR: u32 = 4;
pub const CMP_MUXCR: u32 = 5;

/// SCR bits.
pub const SCR_COUT: u8 = 0x01;
pub const SCR_CFF: u8 = 0x02;
pub const SCR_CFR: u8 = 0x04;
pub const SCR_IEF: u8 = 0x08;
pub const SCR_IER: u8 = 0x10;
pub const SCR_DMAEN: u8 = 0x40;
/// CR1 bits.
pub const CR1_EN: u32 = 0x01;
pub const CR1_INV: u32 = 0x08;
/// DACCR bits.
pub const DACCR_VRSEL: u32 = 0x40;
pub const DACCR_DACEN: u32 = 0x80;

/// Comparator input selection (0-7; input 7 is the internal DAC).
#[derive(Clone, Copy, Debug, PartialEq, Eq, Structural)]
pub struct Input(pub u8);

impl Input {
    /// The internal 6-bit DAC (input 7).
    pub fn internal_dac() -> (r: Self)
        ensures
            r.0 == 7,
    {
        Input(7)
    }
}

/// Reference voltage of the internal DAC.
#[derive(Clone, Copy, Debug, PartialEq, Eq, Structural)]
pub enum CmpDacVref {
    Vin1,
    Vin2,
}

/// Hysteresis level.
#[derive(Clone, Copy, Debug, PartialEq, Eq, Structural)]
pub enum Hysteresis {
    Level0,
    Level1,
    Level2,
    Level3,
}

/// A comparator instance.
pub trait CmpInstance {
    spec fn spec_base() -> u32;

    fn base() -> (r: u32)
        ensures
            r == Self::spec_base(),
            0x4007_3000 <= r <= 0x4007_3010;
}

/// Marker types of the instances.
pub struct Cmp0;

pub struct Cmp1;

pub struct Cmp2;

impl CmpInstance for Cmp0 {
    open spec fn spec_base() -> u32 { 0x4007_3000 }
    fn base() -> (r: u32) { 0x4007_3000 }
}

impl CmpInstance for Cmp1 {
    open spec fn spec_base() -> u32 { 0x4007_3008 }
    fn base() -> (r: u32) { 0x4007_3008 }
}

impl CmpInstance for Cmp2 {
    open spec fn spec_base() -> u32 { 0x4007_3010 }
    fn base() -> (r: u32) { 0x4007_3010 }
}

/// Address of a comparator register.
pub open spec fn comparator_reg<INST: CmpInstance>(off: u32) -> u32 {
    (INST::spec_base() + off) as u32
}

fn reg<INST: CmpInstance>(off: u32) -> (r: u32)
    requires
        off < 8,
    ensures
        r == comparator_reg::<INST>(off),
{
    INST::base() + off
}

/// The SCR configuration bits (IEF, IER, DMAEN) of a value read from it;
/// the edge flags read as 0.
pub open spec fn scr_config(scr: u8) -> u8 {
    scr & (SCR_IEF | SCR_IER | SCR_DMAEN)
}

/// HYSTCTR code.
pub open spec fn hyst_code(h: Hysteresis) -> u32 {
    match h {
        Hysteresis::Level0 => 0,
        Hysteresis::Level1 => 1,
        Hysteresis::Level2 => 2,
        Hysteresis::Level3 => 3,
    }
}

/// MUXCR value of a pair of inputs (each masked to 3 bits).
pub open spec fn muxcr_value(plus: Input, minus: Input) -> u32 {
    (((plus.0 & 0x07) as u32) << 3u32) | ((minus.0 & 0x07) as u32)
}

/// The program that brings a comparator up: clock gate, no hysteresis and
/// no filter, the inputs, internal DAC off, SCR cleared, and the
/// comparator enabled.
pub open spec fn init_program<INST: CmpInstance>(plus: Input, minus: Input) -> Seq<RegOp> {
    seq![
        RegOp::Modify { addr: SIM_SCGC4, width: Width::W32, clear: 0, set: SCGC4_CMP },
        RegOp::Write { addr: comparator_reg::<INST>(CMP_CR0), width: Width::W8, value: 0 },
        RegOp::Write { addr: comparator_reg::<INST>(CMP_MUXCR), width: Width::W8, value: muxcr_value(plus, minus) },
        RegOp::Write { addr: comparator_reg::<INST>(CMP_DACCR), width: Width::W8, value: 0 },
        RegOp::Write { addr: comparator_reg::<INST>(CMP_SCR), width: Width::W8, value: 0 },
        RegOp::Write { addr: comparator_reg::<INST>(CMP_CR1), width: Width::W8, value: CR1_EN },
    ]
}

/// Comparator driver.
pub struct Cmp<INST> {
    _inst: PhantomData<INST>,
}

impl<INST: CmpInstance> Cmp<INST> {
    /// Bring the comparator up comparing `plus` against `minus` (see
    /// [`init_program`]).
    pub fn new(plus: Input, minus: Input) -> (r: (Self, Vec<RegOp>))
        ensures
            r.1@ == init_program::<INST>(plus, minus),
    {
        let mut ops = modify_op(SIM_SCGC4, Width::W32, 0, SCGC4_CMP);
        ops.push(RegOp::Write { addr: reg::<INST>(CMP_CR0), width: Width::W8, value: 0 });
        ops.push(RegOp::Write { addr: reg::<INST>(CMP_MUXCR), width: Width::W8, value: (((plus.0 & 0x07) as u32) << 3u32) | ((minus.0 & 0x07) as u32) });
        ops.push(RegOp::Write { addr: reg::<INST>(CMP_DACCR), width: Width::W8, value: 0 });
        ops.push(RegOp::Write { addr: reg::<INST>(CMP_SCR), width: Width::W8, value: 0 });
        ops.push(RegOp::Write { addr: reg::<INST>(CMP_CR1), width: Width::W8, value: CR1_EN });
        (Cmp { _inst: PhantomData }, ops)
    }

    /// The comparator output, given SCR (COUT).
    pub fn output(&self, scr: u8) -> (r: bool)
        ensures
            r == (scr & SCR_COUT != 0),
    {
        scr & SCR_COUT != 0
    }

    /// Select the plus input (MUXCR.PSEL).
    pub fn set_plus_input(&mut self, input: Input) -> (r: Vec<RegOp>)
        ensures
            r@ == seq![RegOp::Modify { addr: comparator_reg::<INST>(CMP_MUXCR), width: Width::W8, clear: 0x38, set: ((input.0 & 0x07) as u32) << 3u32 }],
    {
        modify_op(reg::<INST>(CMP_MUXCR), Width::W8, 0x38, ((input.0 & 0x07) as u32) << 3u32)
    }

    /// Select the minus input (MUXCR.MSEL).
    pub fn set_minus_input(&mut self, input: Input) -> (r: Vec<RegOp>)
        ensures
            r@ == seq![RegOp::Modify { addr: comparator_reg::<INST>(CMP_MUXCR), width: Width::W8, clear: 0x07, set: (input.0 & 0x07) as u32 }],
    {
        modify_op(reg::<INST>(CMP_MUXCR), Width::W8, 0x07, (input.0 & 0x07) as u32)
    }

    /// Enable the internal DAC at `level` (6 bits) of the chosen reference.
    pub fn set_internal_dac(&mut self, level: u8, vref: CmpDacVref) -> (r: Vec<RegOp>)
        ensures
            r@ == seq![RegOp::Write {
                addr: comparator_reg::<INST>(CMP_DACCR),
                width: Width::W8,
                value: DACCR_DACEN | ((level & 0x3F) as u32) | (if vref == CmpDacVref::Vin2 { DACCR_VRSEL } else { 0 }),
            }],
    {
        let v: u32 = DACCR_DACEN | ((level & 0x3F) as u32) | (match vref {
            CmpDacVref::Vin1 => 0,
            CmpDacVref::Vin2 => DACCR_VRSEL,
        });
        write_op(reg::<INST>(CMP_DACCR), Width::W8, v)
    }

    /// Disable the internal DAC.
    pub fn disable_internal_dac(&mut self) -> (r: Vec<RegOp>)
        ensures
            r@ == seq![RegOp::Write { addr: comparator_reg::<INST>(CMP_DACCR), width: Width::W8, value: 0 }],
    {
        write_op(reg::<INST>(CMP_DACCR), Width::W8, 0)
    }

    /// Set the hysteresis level (CR0.HYSTCTR).
    pub fn set_hysteresis(&mut self, level: Hysteresis) -> (r: Vec<RegOp>)
        ensures
            r@ == seq![RegOp::Modify { addr: comparator_reg::<INST>(CMP_CR0), width: Width::W8, clear: 0x03, set: hyst_code(level) }],
    {
        let h: u32 = match level {
            Hysteresis::Level0 => 0,
            Hysteresis::Level1 => 1,
            Hysteresis::Level2 => 2,
            Hysteresis::Level3 => 3,
        };
        modify_op(reg::<INST>(CMP_CR0), Width::W8, 0x03, h)
    }

    /// Invert the output or not (CR1.INV).
    pub fn set_inverted(&mut self, inverted: bool) -> (r: Vec<RegOp>)
        ensures
            r@ == seq![RegOp::Modify { addr: comparator_reg::<INST>(CMP_CR1), width: Width::W8, clear: CR1_INV, set: if inverted { CR1_INV } else { 0 } }],
    {
        modify_op(reg::<INST>(CMP_CR1), Width::W8, CR1_INV, if inverted { CR1_INV } else { 0 })
    }

    /// Enable the comparator (CR1.EN).
    pub fn enable(&mut self) -> (r: Vec<RegOp>)
        ensures
            r@ == seq![RegOp::Modify { addr: comparator_reg::<INST>(CMP_CR1), width: Width::W8, clear: CR1_EN, set: CR1_EN }],
    {
        modify_op(reg::<INST>(CMP_CR1), Width::W8, CR1_EN, CR1_EN)
    }

    /// Disable the comparator.
    pub fn disable(&mut self) -> (r: Vec<RegOp>)
        ensures
            r@ == seq![RegOp::Modify { addr: comparator_reg::<INST>(CMP_CR1), width: Width::W8, clear: CR1_EN, set: 0 }],
    {
        modify_op(reg::<INST>(CMP_CR1), Width::W8, CR1_EN, 0)
    }

    /// Whether a rising edge was seen, given SCR (CFR).
    pub fn rising_edge(&self, scr: u8) -> (r: bool)
        ensures
            r == (scr & SCR_CFR != 0),
    {
        scr & SCR_CFR != 0
    }

    /// Whether a falling edge was seen, given SCR (CFF).
    pub fn falling_edge(&self, scr: u8) -> (r: bool)
        ensures
            r == (scr & SCR_CFF != 0),
    {
        scr & SCR_CFF != 0
    }

    /// Clear both edge flags, given SCR: the configuration bits are written
    /// back with CFF and CFR set (write one to clear).
    pub fn clear_flags(&mut self, scr: u8) -> (r: Vec<RegOp>)
        ensures
            r@ == seq![RegOp::Write { addr: comparator_reg::<INST>(CMP_SCR), width: Width::W8, value: (scr_config(scr) | SCR_CFF | SCR_CFR) as u32 }],
    {
        let cfg: u8 = scr & (SCR_IEF | SCR_IER | SCR_DMAEN);
        write_op(reg::<INST>(CMP_SCR), Width::W8, (cfg | SCR_CFF | SCR_CFR) as u32)
    }

    /// Enable the rising-edge interrupt, given SCR (IER set, flags kept).
    pub fn enable_rising_interrupt(&mut self, scr: u8) -> (r: Vec<RegOp>)
        ensures
            r@ == seq![RegOp::Write { addr: comparator_reg::<INST>(CMP_SCR), width: Width::W8, value: (scr_config(scr) | SCR_IER) as u32 }],
    {
        let cfg: u8 = scr & (SCR_IEF | SCR_IER | SCR_DMAEN);
        write_op(reg::<INST>(CMP_SCR), Width::W8, (cfg | SCR_IER) as u32)
    }

    /// Enable the falling-edge interrupt, given SCR (IEF set, flags kept).
    pub fn enable_falling_interrupt(&mut self, scr: u8) -> (r: Vec<RegOp>)
        ensures
            r@ == seq![RegOp::Write { addr: comparator_reg::<INST>(CMP_SCR), width: Width::W8, value: (scr_config(scr) | SCR_IEF) as u32 }],
    {
        let cfg: u8 = scr & (SCR_IEF | SCR_IER | SCR_DMAEN);
        write_op(reg::<INST>(CMP_SCR), Width::W8, (cfg | SCR_IEF) as u32)
    }

    /// Disable both edge interrupts, given SCR (IEF and IER cleared, DMA
    /// setting and flags kept).
    pub fn disable_interrupts(&mut self, scr: u8) -> (r: Vec<RegOp>)
        ensures
            r@ == seq![RegOp::Write { addr: comparator_reg::<INST>(CMP_SCR), width: Width::W8, value: (scr_config(scr) & !(SCR_IEF | SCR_IER)) as u32 }],
    {
        let cfg: u8 = scr & (SCR_IEF | SCR_IER | SCR_DMAEN);
        write_op(reg::<INST>(CMP_SCR), Width::W8, (cfg & !(SCR_IEF | SCR_IER)) as u32)
    }
}

/// The interrupt updates of SCR never clear a pending edge flag (they write
/// CFF and CFR as 0) and keep the DMA setting read from SCR.
pub proof fn lemma_scr_writes_keep_flags(scr: u8)
    ensures
        (scr_config(scr) | SCR_IER) & (SCR_CFF | SCR_CFR) == 0,
        (scr_config(scr) | SCR_IEF) & (SCR_CFF | SCR_CFR) == 0,
        (scr_config(scr) & !(SCR_IEF | SCR_IER)) & (SCR_CFF | SCR_CFR) == 0,
        (scr_config(scr) | SCR_IER) & SCR_DMAEN == scr & SCR_DMAEN,
        (scr_config(scr) | SCR_IEF) & SCR_DMAEN == scr & SCR_DMAEN,
        (scr_config(scr) & !(SCR_IEF | SCR_IER)) & SCR_DMAEN == scr & SCR_DMAEN,
        (scr_config(scr) | SCR_CFF | SCR_CFR) & (SCR_IEF | SCR_IER | SCR_DMAEN) == scr & (SCR_IEF | SCR_IER | SCR_DMAEN),
{
    assert((scr_config(scr) | SCR_IER) & (SCR_CFF | SCR_CFR) == 0
        && (scr_config(scr) | SCR_IEF) & (SCR_CFF | SCR_CFR) == 0
        && (scr_config(scr) & !(SCR_IEF | SCR_IER)) & (SCR_CFF | SCR_CFR) == 0
        && (scr_config(scr) | SCR_IER) & SCR_DMAEN == scr & SCR_DMAEN
        && (scr_config(scr) | SCR_IEF) & SCR_DMAEN == scr & SCR_DMAEN
        && (scr_config(scr) & !(SCR_IEF | SCR_IER)) & SCR_DMAEN == scr & SCR_DMAEN
        && (scr_config(scr) | SCR_CFF | SCR_CFR) & (SCR_IEF | SCR_IER | SCR_DMAEN) == scr & (SCR_IEF | SCR_IER | SCR_DMAEN)) by (bit_vector);
}

/// Taking a comparator: the instance markers stand for the peripherals.
pub trait CmpExt: Sized {
    type Instance;

    /// Bring the comparator up comparing `plus` against `minus`.
    fn cmp(self, plus: Input, minus: Input) -> (Cmp<Self::Instance>, Vec<RegOp>);
}

impl CmpExt for Cmp0 {
    type Instance = Cmp0;

    fn cmp(self, plus: Input, minus: Input) -> (r: (Cmp<Cmp0>, Vec<RegOp>))
        ensures
            r.1@ == init_program::<Cmp0>(plus, minus),
    {
        Cmp::<Cmp0>::new(plus, minus)
    }
}

impl CmpExt for Cmp1 {
    type Instance = Cmp1;

    fn cmp(self, plus: Input, minus: Input) -> (r: (Cmp<Cmp1>, Vec<RegOp>))
        ensures
            r.1@ == init_program::<Cmp1>(plus, minus),
    {
        Cmp::<Cmp1>::new(plus, minus)
    }
}

impl CmpExt for Cmp2 {
    type Instance = Cmp2;

    fn cmp(self, plus: Input, minus: Input) -> (r: (Cmp<Cmp2>, Vec<RegOp>))
        ensures
            r.1@ == init_program::<Cmp2>(plus, minus),
    {
        Cmp::<Cmp2>::new(plus, minus)
    }
}

} // verus!
