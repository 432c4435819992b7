//! Programmable Delay Block (PDB0): a counter started by a trigger that
//! fires the ADC pre-triggers after programmed delays.

use vstd::prelude::*;

use crate::regs::{RegOp, Width, write_op, modify_op};

verus! {

/// Number of PDB channels (one per ADC).
pub const NUM_CHANNELS: u8 = 2;

/// PDB0 register addresses.
pub const PDB_SC: u32 = 0x4003_6000;
pub const PDB_MOD: u32 = 0x4003_6004;
pub const PDB_CNT: u32 = 0x4003_6008;
/// Channel 0's registers; channel n's are 0x28 * n further.
pub const PDB_CH0C1: u32 = 0x4003_6010;
pub const PDB_CH0S: u32 = 0x4003_6014;
pub const PDB_CH0DLY0: u32 = 0x4003_6018;
pub const PDB_CH0DLY1: u32 = 0x4003_601C;
pub const PDB_CH_STRIDE: u32 = 0x28;
pub const SIM_SCGC6: u32 = 0x4004_803C;
/// SIM_SCGC6 clock gate of the PDB.
pub const SCGC6_PDB: u32 = 0x0040_0000;

/// SC bits.
pub const SC_LDOK: u32 = 0x0001;
pub const SC_CONT: u32 = 0x0002;
pub const SC_PDBEN: u32 = 0x0080;
pub const SC_SWTRIG: u32 = 0x0001_0000;

/// Trigger input.
#[derive(Clone, Copy, Debug, PartialEq, Eq, Structural)]
pub enum TriggerSource {
    Trigger0,
    Trigger1,
    Trigger2,
    Trigger3,
    Trigger4,
    Trigger5,
    Trigger6,
    Trigger7,
    Trigger8,
    Trigger9,
    Trigger10,
    Trigger11,
    Trigger12,
    Trigger13,
    Trigger14,
    /// Software trigger (SC.SWTRIG).
    Software,
}

/// Counter clock prescaler.
#[derive(Clone, Copy, Debug, PartialEq, Eq, Structural)]
pub enum Prescaler {
    Div1,
    Div2,
    Div4,
    Div8,
    Div16,
    Div32,
    Div64,
    Div128,
}

/// Further prescaler multiplication factor.
#[derive(Clone, Copy, Debug, PartialEq, Eq, Structural)]
pub enum Multiplier {
    Mult1,
    Mult10,
    Mult20,
    Mult40,
}

/// TRGSEL code of a trigger source.
pub open spec fn trgsel_code(t: TriggerSource) -> u32 {
    match t {
        TriggerSource::Trigger0 => 0,
        TriggerSource::Trigger1 => 1,
        TriggerSource::Trigger2 => 2,
        TriggerSource::Trigger3 => 3,
        TriggerSource::Trigger4 => 4,
        TriggerSource::Trigger5 => 5,
        TriggerSource::Trigger6 => 6,
        TriggerSource::Trigger7 => 7,
        TriggerSource::Trigger8 => 8,
        TriggerSource::Trigger9 => 9,
        TriggerSource::Trigger10 => 10,
        TriggerSource::Trigger11 => 11,
        TriggerSource::Trigger12 => 12,
        TriggerSource::Trigger13 => 13,
        TriggerSource::Trigger14 => 14,
        TriggerSource::Software => 15,
    }
}

/// PRESCALER code.
pub open spec fn prescaler_code(p: Prescaler) -> u32 {
    match p {
        Prescaler::Div1 => 0,
        Prescaler::Div2 => 1,
        Prescaler::Div4 => 2,
        Prescaler::Div8 => 3,
        Prescaler::Div16 => 4,
        Prescaler::Div32 => 5,
        Prescaler::Div64 => 6,
        Prescaler::Div128 => 7,
    }
}

/// MULT code.
pub open spec fn mult_code(m: Multiplier) -> u32 {
    match m {
        Multiplier::Mult1 => 0,
        Multiplier::Mult10 => 1,
        Multiplier::Mult20 => 2,
        Multiplier::Mult40 => 3,
    }
}

/// The SC value of a configuration: TRGSEL, PRESCALER and MULT, with the
/// registers loaded immediately on LDOK (LDMOD = 0).
pub open spec fn sc_value(t: TriggerSource, p: Prescaler, m: Multiplier) -> u32 {
    (trgsel_code(t) << 8u32) | (prescaler_code(p) << 12u32) | (mult_code(m) << 2u32)
}

/// Address of a channel register (`off` is channel 0's address).
pub open spec fn ch_reg(off: u32, ch: u8) -> u32 {
    (off + PDB_CH_STRIDE * ch) as u32
}

fn ch(off: u32, channel: u8) -> (r: u32)
    requires
        channel < NUM_CHANNELS,
        off <= PDB_CH0DLY1,
    ensures
        r == ch_reg(off, channel),
{
    off + PDB_CH_STRIDE * channel as u32
}

/// Programmable delay block driver.
pub struct Pdb {
    _private: (),
}

impl Pdb {
    /// Enable the PDB clock gate.
    pub fn new() -> (r: (Self, Vec<RegOp>))
        ensures
            r.1@ == seq![RegOp::Modify { addr: SIM_SCGC6, width: Width::W32, clear: 0, set: SCGC6_PDB }],
    {
        (Pdb { _private: () }, modify_op(SIM_SCGC6, Width::W32, 0, SCGC6_PDB))
    }

    /// Configure the trigger, prescaler, multiplier and modulus (the
    /// counter period in prescaled ticks).
    pub fn configure(&mut self, trigger: TriggerSource, prescaler: Prescaler, multiplier: Multiplier, modulus: u16) -> (r: Vec<RegOp>)
        ensures
            r@ == seq![
                RegOp::Write { addr: PDB_SC, width: Width::W32, value: sc_value(trigger, prescaler, multiplier) },
                RegOp::Write { addr: PDB_MOD, width: Width::W32, value: modulus as u32 },
            ],
    {
        let t: u32 = match trigger {
            TriggerSource::Trigger0 => 0,
            TriggerSource::Trigger1 => 1,
            TriggerSource::Trigger2 => 2,
            TriggerSource::Trigger3 => 3,
            TriggerSource::Trigger4 => 4,
            TriggerSource::Trigger5 => 5,
            TriggerSource::Trigger6 => 6,
            TriggerSource::Trigger7 => 7,
            TriggerSource::Trigger8 => 8,
            TriggerSource::Trigger9 => 9,
            TriggerSource::Trigger10 => 10,
            TriggerSource::Trigger11 => 11,
            TriggerSource::Trigger12 => 12,
            TriggerSource::Trigger13 => 13,
            TriggerSource::Trigger14 => 14,
            TriggerSource::Software => 15,
        };
        let p: u32 = match prescaler {
            Prescaler::Div1 => 0,
            Prescaler::Div2 => 1,
            Prescaler::Div4 => 2,
            Prescaler::Div8 => 3,
            Prescaler::Div16 => 4,
            Prescaler::Div32 => 5,
            Prescaler::Div64 => 6,
            Prescaler::Div128 => 7,
        };
        let m: u32 = match multiplier {
            Multiplier::Mult1 => 0,
            Multiplier::Mult10 => 1,
            Multiplier::Mult20 => 2,
            Multiplier::Mult40 => 3,
        };
        let mut ops = write_op(PDB_SC, Width::W32, (t << 8u32) | (p << 12u32) | (m << 2u32));
        ops.push(RegOp::Write { addr: PDB_MOD, width: Width::W32, value: modulus as u32 });
        ops
    }

    /// Continuous mode on or off (SC.CONT).
    pub fn set_continuous(&mut self, enabled: bool) -> (r: Vec<RegOp>)
        ensures
            r@ == seq![RegOp::Modify { addr: PDB_SC, width: Width::W32, clear: SC_CONT, set: if enabled { SC_CONT } else { 0 } }],
    {
        modify_op(PDB_SC, Width::W32, SC_CONT, if enabled { SC_CONT } else { 0 })
    }

    /// Set a pre-trigger's delay (CHnDLY0 or CHnDLY1).
    pub fn set_pretrigger_delay(&mut self, channel: u8, pretrigger: u8, delay_ticks: u16) -> (r: Vec<RegOp>)
        requires
            channel < NUM_CHANNELS,
            pretrigger <= 1,
        ensures
            r@ == seq![RegOp::Write {
                addr: ch_reg(if pretrigger == 0 { PDB_CH0DLY0 } else { PDB_CH0DLY1 }, channel),
                width: Width::W32,
                value: delay_ticks as u32,
            }],
    {
        let off: u32 = if pretrigger == 0 { PDB_CH0DLY0 } else { PDB_CH0DLY1 };
        write_op(ch(off, channel), Width::W32, delay_ticks as u32)
    }

    /// Enable a pre-trigger with its delay in effect (EN and TOS bits).
    pub fn enable_pretrigger(&mut self, channel: u8, pretrigger: u8) -> (r: Vec<RegOp>)
        requires
            channel < NUM_CHANNELS,
            pretrigger <= 1,
        ensures
            r@ == seq![RegOp::Modify {
                addr: ch_reg(PDB_CH0C1, channel),
                width: Width::W32,
                clear: 0,
                set: (1u32 << pretrigger) | (1u32 << ((pretrigger + 8) as u32)),
            }],
    {
        modify_op(ch(PDB_CH0C1, channel), Width::W32, 0, (1u32 << pretrigger) | (1u32 << (pretrigger as u32 + 8)))
    }

    /// Disable a pre-trigger.
    pub fn disable_pretrigger(&mut self, channel: u8, pretrigger: u8) -> (r: Vec<RegOp>)
        requires
            channel < NUM_CHANNELS,
            pretrigger <= 1,
        ensures
            r@ == seq![RegOp::Modify {
                addr: ch_reg(PDB_CH0C1, channel),
                width: Width::W32,
                clear: (1u32 << pretrigger) | (1u32 << ((pretrigger + 8) as u32)),
                set: 0,
            }],
    {
        modify_op(ch(PDB_CH0C1, channel), Width::W32, (1u32 << pretrigger) | (1u32 << (pretrigger as u32 + 8)), 0)
    }

    /// Back-to-back mode for a pre-trigger (BB bit).
    pub fn enable_back_to_back(&mut self, channel: u8, pretrigger: u8) -> (r: Vec<RegOp>)
        requires
            channel < NUM_CHANNELS,
            pretrigger <= 1,
        ensures
            r@ == seq![RegOp::Modify { addr: ch_reg(PDB_CH0C1, channel), width: Width::W32, clear: 0, set: 1u32 << ((pretrigger + 16) as u32) }],
    {
        modify_op(ch(PDB_CH0C1, channel), Width::W32, 0, 1u32 << (pretrigger as u32 + 16))
    }

    /// Back-to-back mode off for a pre-trigger.
    pub fn disable_back_to_back(&mut self, channel: u8, pretrigger: u8) -> (r: Vec<RegOp>)
        requires
            channel < NUM_CHANNELS,
            pretrigger <= 1,
        ensures
            r@ == seq![RegOp::Modify { addr: ch_reg(PDB_CH0C1, channel), width: Width::W32, clear: 1u32 << ((pretrigger + 16) as u32), set: 0 }],
    {
        modify_op(ch(PDB_CH0C1, channel), Width::W32, 1u32 << (pretrigger as u32 + 16), 0)
    }

    /// Load the buffered MOD, IDLY and delay values (SC.LDOK).
    pub fn load_ok(&mut self) -> (r: Vec<RegOp>)
        ensures
            r@ == seq![RegOp::Modify { addr: PDB_SC, width: Width::W32, clear: 0, set: SC_LDOK }],
    {
        modify_op(PDB_SC, Width::W32, 0, SC_LDOK)
    }

    /// Enable the PDB (SC.PDBEN).
    pub fn enable(&mut self) -> (r: Vec<RegOp>)
        ensures
            r@ == seq![RegOp::Modify { addr: PDB_SC, width: Width::W32, clear: SC_PDBEN, set: SC_PDBEN }],
    {
        modify_op(PDB_SC, Width::W32, SC_PDBEN, SC_PDBEN)
    }

    /// Disable the PDB.
    pub fn disable(&mut self) -> (r: Vec<RegOp>)
        ensures
            r@ == seq![RegOp::Modify { addr: PDB_SC, width: Width::W32, clear: SC_PDBEN, set: 0 }],
    {
        modify_op(PDB_SC, Width::W32, SC_PDBEN, 0)
    }

    /// Start the counter by software (SC.SWTRIG).
    pub fn software_trigger(&mut self) -> (r: Vec<RegOp>)
        ensures
            r@ == seq![RegOp::Modify { addr: PDB_SC, width: Width::W32, clear: 0, set: SC_SWTRIG }],
    {
        modify_op(PDB_SC, Width::W32, 0, SC_SWTRIG)
    }

    /// The counter value, given CNT.
    pub fn counter(&self, cnt: u32) -> (r: u16)
        ensures
            r == (cnt & 0xFFFF) as u16,
    {
        (cnt & 0xFFFF) as u16
    }

    /// Read and clear a channel's sequence error flags, given CHnS: the ERR
    /// bits, and, when any is set, the write of 0 that clears them.
    pub fn clear_errors(&mut self, channel: u8, chs: u32) -> (r: (u8, Vec<RegOp>))
        requires
            channel < NUM_CHANNELS,
        ensures
            r.0 == (chs & 0xFF) as u8,
            r.0 != 0 ==> r.1@ == seq![RegOp::Write { addr: ch_reg(PDB_CH0S, channel), width: Width::W32, value: 0 }],
            r.0 == 0 ==> r.1@ == Seq::<RegOp>::empty(),
    {
        let err: u8 = (chs & 0xFF) as u8;
        if err != 0 {
            (err, write_op(ch(PDB_CH0S, channel), Width::W32, 0))
        } else {
            (err, Vec::new())
        }
    }
}

/// The PDB0 peripheral.
pub struct Pdb0Peripheral;

/// Taking the programmable delay block.
pub trait PdbExt {
    /// Enable the PDB clock gate and return the driver.
    fn constrain(self) -> (Pdb, Vec<RegOp>);
}

impl PdbExt for Pdb0Peripheral {
    fn constrain(self) -> (r: (Pdb, Vec<RegOp>))
        ensures
            r.1@ == seq![RegOp::Modify { addr: SIM_SCGC6, width: Width::W32, clear: 0, set: SCGC6_PDB }],
    {
        Pdb::new()
    }
}

} // verus!
