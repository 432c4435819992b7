//! 12-bit DAC0, used in software-trigger mode with its buffer disabled.

use vstd::prelude::*;

use crate::regs::{RegOp, Width, write_op, modify_op};

verus! {

/// DAC0 and SIM register addresses (8-bit registers).
pub const DAC0_DAT0L: u32 = 0x400C_C000;
pub const DAC0_DAT0H: u32 = 0x400C_C001;
pub const DAC0_C0: u32 = 0x400C_C021;
pub const DAC0_C1: u32 = 0x400C_C022;
pub const DAC0_C2: u32 = 0x400C_C023;
pub const SIM_SCGC2: u32 = 0x4004_802C;
/// SIM_SCGC2 clock gate of DAC0.
pub const SCGC2_DAC0: u32 = 0x1000;

/// C0 bits.
pub const C0_DACEN: u32 = 0x80;
pub const C0_DACRFS: u32 = 0x40;
pub const C0_DACTRGSEL: u32 = 0x20;

/// Reference voltage.
#[derive(Clone, Copy, Debug, PartialEq, Eq, Structural)]
pub enum VrefSource {
    /// DACREF_1 (VDDA).
    Vref1,
    /// DACREF_2.
    Vref2,
}

/// The program that brings DAC0 up: clock gate, output 0, C1 and C2 at
/// their reset values (buffer off), then C0: enabled, DACREF_1, software
/// trigger, high power.
pub open spec fn init_program() -> Seq<RegOp> {
    seq![
        RegOp::Modify { addr: SIM_SCGC2, width: Width::W32, clear: 0, set: SCGC2_DAC0 },
        RegOp::Write { addr: DAC0_DAT0L, width: Width::W8, value: 0 },
        RegOp::Write { addr: DAC0_DAT0H, width: Width::W8, value: 0 },
        RegOp::Write { addr: DAC0_C1, width: Width::W8, value: 0 },
        RegOp::Write { addr: DAC0_C2, width: Width::W8, value: 0x0F },
        RegOp::Write { addr: DAC0_C0, width: Width::W8, value: C0_DACEN | C0_DACTRGSEL },
    ]
}

/// The 12-bit output value held by the data registers.
pub open spec fn dac_value(datl: u8, dath: u8) -> u16 {
    (((dath as u16) & 0x0F) << 8u16) | (datl as u16)
}

/// DAC driver.
pub struct Dac {
    _private: (),
}

impl Dac {
    /// Bring DAC0 up (see [`init_program`]).
    pub fn new() -> (r: (Self, Vec<RegOp>))
        ensures
            r.1@ == init_program(),
    {
        let mut ops = modify_op(SIM_SCGC2, Width::W32, 0, SCGC2_DAC0);
        ops.push(RegOp::Write { addr: DAC0_DAT0L, width: Width::W8, value: 0 });
        ops.push(RegOp::Write { addr: DAC0_DAT0H, width: Width::W8, value: 0 });
        ops.push(RegOp::Write { addr: DAC0_C1, width: Width::W8, value: 0 });
        ops.push(RegOp::Write { addr: DAC0_C2, width: Width::W8, value: 0x0F });
        ops.push(RegOp::Write { addr: DAC0_C0, width: Width::W8, value: C0_DACEN | C0_DACTRGSEL });
        (Dac { _private: () }, ops)
    }

    /// Set the output to `value`, masked to 12 bits: low byte to DAT0L,
    /// high nibble to DAT0H.
    pub fn set_value(&mut self, value: u16) -> (r: Vec<RegOp>)
        ensures
            r@ == seq![
                RegOp::Write { addr: DAC0_DAT0L, width: Width::W8, value: ((value & 0x0FFF) as u8) as u32 },
                RegOp::Write { addr: DAC0_DAT0H, width: Width::W8, value: (((value & 0x0FFF) >> 8u16) as u8) as u32 },
            ],
    {
        let v: u16 = value & 0x0FFF;
        let mut ops = write_op(DAC0_DAT0L, Width::W8, (v as u8) as u32);
        ops.push(RegOp::Write { addr: DAC0_DAT0H, width: Width::W8, value: ((v >> 8u16) as u8) as u32 });
        ops
    }

    /// The output value, given DAT0L and DAT0H.
    pub fn get_value(&self, datl: u8, dath: u8) -> (r: u16)
        ensures
            r == dac_value(datl, dath),
    {
        (((dath as u16) & 0x0F) << 8u16) | (datl as u16)
    }

    /// Select the reference voltage (C0.DACRFS).
    pub fn set_vref(&mut self, vref: VrefSource) -> (r: Vec<RegOp>)
        ensures
            r@ == seq![RegOp::Modify { addr: DAC0_C0, width: Width::W8, clear: C0_DACRFS, set: if vref == VrefSource::Vref2 { C0_DACRFS } else { 0 } }],
    {
        modify_op(DAC0_C0, Width::W8, C0_DACRFS, match vref {
            VrefSource::Vref1 => 0,
            VrefSource::Vref2 => C0_DACRFS,
        })
    }

    /// Enable the DAC (C0.DACEN).
    pub fn enable(&mut self) -> (r: Vec<RegOp>)
        ensures
            r@ == seq![RegOp::Modify { addr: DAC0_C0, width: Width::W8, clear: C0_DACEN, set: C0_DACEN }],
    {
        modify_op(DAC0_C0, Width::W8, C0_DACEN, C0_DACEN)
    }

    /// Disable the DAC.
    pub fn disable(&mut self) -> (r: Vec<RegOp>)
        ensures
            r@ == seq![RegOp::Modify { addr: DAC0_C0, width: Width::W8, clear: C0_DACEN, set: 0 }],
    {
        modify_op(DAC0_C0, Width::W8, C0_DACEN, 0)
    }
}

/// Reading back the data registers after [`Dac::set_value`] gives the value
/// that was set, masked to 12 bits.
pub proof fn lemma_set_get_value(value: u16)
    ensures
        dac_value((value & 0x0FFF) as u8, ((value & 0x0FFF) >> 8u16) as u8) == value & 0x0FFF,
{
    assert((((((value & 0x0FFF) >> 8u16) as u8 as u16) & 0x0F) << 8u16) | ((value & 0x0FFF) as u8 as u16) == value & 0x0FFF)
        by (bit_vector);
}

/// The DAC0 peripheral.
pub struct Dac0Peripheral;

/// Taking DAC0.
pub trait DacExt {
    /// Bring DAC0 up and return the driver.
    fn dac(self) -> (Dac, Vec<RegOp>);
}

impl DacExt for Dac0Peripheral {
    fn dac(self) -> (r: (Dac, Vec<RegOp>))
        ensures
            r.1@ == init_program(),
    {
        Dac::new()
    }
}

} // verus!
