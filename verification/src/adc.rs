//! 16-bit SAR ADCs (ADC0, ADC1): single conversions, hardware averaging,
//! self-calibration, DMA streaming, and PDB-triggered continuous scans of
//! one or two channels.

use vstd::prelude::*;
use core::marker::PhantomData;

use crate::clocks::Clocks;
use crate::regs::{RegOp, Width, write_op, modify_op, masked_update};
use crate::dma::{DmaChannel, DmaSource, TransferConfig, TransferSize, tcd_program, peripheral_read_config, chcfg_reg, CHCFG_ENBL, DMAMUX_CHCFG_BASE, DMA_SERQ, DMA_CERQ, DMA_CDNE};
use crate::pdb::{Pdb, Prescaler, Multiplier, TriggerSource, sc_value, ch_reg, PDB_SC, PDB_MOD, PDB_CH0C1, PDB_CH0DLY0, SC_CONT, SC_LDOK, SC_PDBEN, SC_SWTRIG};

verus! {

/// Register offsets.
pub const ADC_SC1A: u32 = 0x00;
pub const ADC_SC1B: u32 = 0x04;
pub const ADC_CFG1: u32 = 0x08;
pub const ADC_CFG2: u32 = 0x0C;
pub const ADC_RA: u32 = 0x10;
pub const ADC_SC2: u32 = 0x20;
pub const ADC_SC3: u32 = 0x24;
pub const ADC_PG: u32 = 0x2C;
pub const ADC_MG: u32 = 0x30;

/// SC1 fields.
pub const SC1_ADCH_OFF: u32 = 0x1F;
pub const SC1_COCO: u32 = 0x80;
/// SC2 bits.
pub const SC2_DMAEN: u32 = 0x04;
pub const SC2_ADTRG: u32 = 0x40;
/// SC3 bits.
pub const SC3_AVGE: u32 = 0x04;
pub const SC3_ADCO: u32 = 0x08;
pub const SC3_CALF: u32 = 0x40;
pub const SC3_CAL: u32 = 0x80;
/// CFG1 for normal use: bus/2, 10-bit, long sample, divide by 4.
pub const CFG1_INIT: u32 = 0x59;
/// CFG1 for calibration: bus/2, 16-bit, long sample, divide by 8.
pub const CFG1_CAL: u32 = 0x7D;
/// CFG1.MODE field.
pub const CFG1_MODE_MASK: u32 = 0x0C;

/// An ADC instance.
pub trait AdcInstance {
    spec fn spec_base() -> u32;
    spec fn spec_gate_reg() -> u32;
    /// DMAMUX slot of the instance's conversion-complete request.
    spec fn spec_dma_slot() -> u8;
    /// PDB channel that triggers the instance.
    spec fn spec_pdb_channel() -> u8;

    fn base() -> (r: u32)
        ensures
            r == Self::spec_base(),
            r == 0x4003_B000 || r == 0x400B_B000;

    fn gate_reg() -> (r: u32)
        ensures
            r == Self::spec_gate_reg();

    fn dma_slot() -> (r: u8)
        ensures
            r == Self::spec_dma_slot(),
            r == 40 || r == 41;

    fn pdb_channel() -> (r: u8)
        ensures
            r == Self::spec_pdb_channel(),
            r < 2;
}

/// ADC0 (clock gate in SIM_SCGC6).
pub struct Adc0;

/// ADC1 (clock gate in SIM_SCGC3).
pub struct Adc1;

/// Clock gate bit of both ADCs in their SIM register.
pub const SCGC_ADC: u32 = 0x0800_0000;

impl AdcInstance for Adc0 {
    open spec fn spec_base() -> u32 { 0x4003_B000 }
    open spec fn spec_gate_reg() -> u32 { 0x4004_803C }
    open spec fn spec_dma_slot() -> u8 { 40 }
    open spec fn spec_pdb_channel() -> u8 { 0 }
    fn base() -> (r: u32) { 0x4003_B000 }
    fn gate_reg() -> (r: u32) { 0x4004_803C }
    fn dma_slot() -> (r: u8) { DmaSource::ADC0 }
    fn pdb_channel() -> (r: u8) { 0 }
}

impl AdcInstance for Adc1 {
    open spec fn spec_base() -> u32 { 0x400B_B000 }
    open spec fn spec_gate_reg() -> u32 { 0x4004_8030 }
    open spec fn spec_dma_slot() -> u8 { 41 }
    open spec fn spec_pdb_channel() -> u8 { 1 }
    fn base() -> (r: u32) { 0x400B_B000 }
    fn gate_reg() -> (r: u32) { 0x4004_8030 }
    fn dma_slot() -> (r: u8) { DmaSource::ADC1 }
    fn pdb_channel() -> (r: u8) { 1 }
}

/// Address of an ADC register.
pub open spec fn adc_reg<ADC: AdcInstance>(off: u32) -> u32 {
    (ADC::spec_base() + off) as u32
}

fn reg<ADC: AdcInstance>(off: u32) -> (r: u32)
    requires
        off <= 0x70,
    ensures
        r == adc_reg::<ADC>(off),
{
    ADC::base() + off
}

/// Conversion resolution.
#[derive(Clone, Copy, Debug, PartialEq, Eq, Structural)]
pub enum Resolution {
    Bits8,
    Bits10,
    Bits12,
    Bits16,
}

/// Hardware averaging.
#[derive(Clone, Copy, Debug, PartialEq, Eq, Structural)]
pub enum Averaging {
    Disabled,
    Avg4,
    Avg8,
    Avg16,
    Avg32,
}

/// CFG1.MODE code of a resolution.
pub open spec fn mode_code(r: Resolution) -> u32 {
    match r {
        Resolution::Bits8 => 0,
        Resolution::Bits12 => 1,
        Resolution::Bits10 => 2,
        Resolution::Bits16 => 3,
    }
}

/// Number of result bits a resolution stands for.
pub open spec fn resolution_bits(r: Resolution) -> nat {
    match r {
        Resolution::Bits8 => 8,
        Resolution::Bits10 => 10,
        Resolution::Bits12 => 12,
        Resolution::Bits16 => 16,
    }
}

/// Single-ended conversion width that the hardware selects for a CFG1.MODE
/// field value: 0b00 8-bit, 0b01 12-bit, 0b10 10-bit, 0b11 16-bit.
pub open spec fn cfg1_mode_width(mode: u32) -> nat {
    if mode == 0 {
        8
    } else if mode == 1 {
        12
    } else if mode == 2 {
        10
    } else {
        16
    }
}

/// Setting a resolution makes the converter produce that many bits: after
/// the read-modify-write of CFG1 that [`Adc::set_resolution`] returns, the
/// MODE field (bits 2-3) selects a conversion of `resolution_bits(res)` bits,
/// whatever CFG1 held, and the bits outside MODE are kept.
pub proof fn lemma_resolution_mode(res: Resolution, old: u32)
    ensures
        ({
            let new = masked_update(old, CFG1_MODE_MASK, mode_code(res) << 2u32);
            &&& cfg1_mode_width((new >> 2u32) & 3) == resolution_bits(res)
            &&& new & !CFG1_MODE_MASK == old & !CFG1_MODE_MASK
        }),
{
    let c: u32 = mode_code(res);
    assert(c < 4);
    assert((((old & !0x0Cu32) | (c << 2u32)) >> 2u32) & 3 == c
        && ((old & !0x0Cu32) | (c << 2u32)) & !0x0Cu32 == old & !0x0Cu32) by (bit_vector)
        requires
            c < 4,
    ;
}

/// SC3 value of an averaging setting.
pub open spec fn sc3_avg(a: Averaging) -> u32 {
    match a {
        Averaging::Disabled => 0,
        Averaging::Avg4 => SC3_AVGE,
        Averaging::Avg8 => SC3_AVGE | 1,
        Averaging::Avg16 => SC3_AVGE | 2,
        Averaging::Avg32 => SC3_AVGE | 3,
    }
}

/// Calibration failed (SC3.CALF).
#[derive(Clone, Copy, Debug, PartialEq, Eq, Structural)]
pub struct CalibrationError;

/// Register values saved while the ADC calibrates.
#[derive(Clone, Copy, Debug, PartialEq, Eq, Structural)]
pub struct Calibration {
    pub saved_cfg1: u32,
    pub saved_sc3: u32,
}

/// The calibrated gain of a side: half the sum of its six calibration
/// results, with bit 15 set.
pub open spec fn gain(v: Seq<u16>) -> u16 {
    ((((v[0] + v[1] + v[2] + v[3] + v[4] + v[5]) / 2) as u32) | 0x8000u32) as u16
}

fn gain_exec(v: &[u16; 6]) -> (r: u16)
    ensures
        r == gain(v@),
{
    let sum: u32 = v[0] as u32 + v[1] as u32 + v[2] as u32 + v[3] as u32 + v[4] as u32 + v[5] as u32;
    ((sum / 2) | 0x8000) as u16
}

/// The program that brings an ADC up: clock gate, CFG1 (bus/2, 10-bit,
/// long sample, divide by 4), CFG2, SC2 (software trigger, default
/// reference), SC3 (no averaging, no continuous), and SC1A with no channel.
pub open spec fn init_program<ADC: AdcInstance>() -> Seq<RegOp> {
    seq![
        RegOp::Modify { addr: ADC::spec_gate_reg(), width: Width::W32, clear: 0, set: SCGC_ADC },
        RegOp::Write { addr: adc_reg::<ADC>(ADC_CFG1), width: Width::W32, value: CFG1_INIT },
        RegOp::Write { addr: adc_reg::<ADC>(ADC_CFG2), width: Width::W32, value: 0 },
        RegOp::Write { addr: adc_reg::<ADC>(ADC_SC2), width: Width::W32, value: 0 },
        RegOp::Write { addr: adc_reg::<ADC>(ADC_SC3), width: Width::W32, value: 0 },
        RegOp::Write { addr: adc_reg::<ADC>(ADC_SC1A), width: Width::W32, value: SC1_ADCH_OFF },
    ]
}

/// Start a conversion of `channel` and wait for it.
pub open spec fn convert_program<ADC: AdcInstance>(channel: u8) -> Seq<RegOp> {
    seq![
        RegOp::Write { addr: adc_reg::<ADC>(ADC_SC1A), width: Width::W32, value: (channel & 0x1F) as u32 },
        RegOp::WaitUntil { addr: adc_reg::<ADC>(ADC_SC1A), width: Width::W32, mask: SC1_COCO, value: SC1_COCO },
    ]
}

/// Finish a calibration, given SC3 after it and the plus and minus
/// calibration results (CLPS, CLP4..CLP0 and CLMS, CLM4..CLM0): on CALF,
/// clear it and restore CFG1 and SC3 (without CALF); otherwise write both
/// gains, then restore CFG1 and SC3 (without CAL and CALF).
pub open spec fn finish_program<ADC: AdcInstance>(c: Calibration, sc3: u32, plus: Seq<u16>, minus: Seq<u16>) -> Seq<RegOp> {
    if sc3 & SC3_CALF != 0 {
        seq![
            RegOp::Write { addr: adc_reg::<ADC>(ADC_SC3), width: Width::W32, value: SC3_CALF },
            RegOp::Write { addr: adc_reg::<ADC>(ADC_CFG1), width: Width::W32, value: c.saved_cfg1 },
            RegOp::Write { addr: adc_reg::<ADC>(ADC_SC3), width: Width::W32, value: c.saved_sc3 & !SC3_CALF },
        ]
    } else {
        seq![
            RegOp::Write { addr: adc_reg::<ADC>(ADC_PG), width: Width::W32, value: gain(plus) as u32 },
            RegOp::Write { addr: adc_reg::<ADC>(ADC_MG), width: Width::W32, value: gain(minus) as u32 },
            RegOp::Write { addr: adc_reg::<ADC>(ADC_CFG1), width: Width::W32, value: c.saved_cfg1 },
            RegOp::Write { addr: adc_reg::<ADC>(ADC_SC3), width: Width::W32, value: c.saved_sc3 & !(SC3_CAL | SC3_CALF) },
        ]
    }
}

/// ADC driver.
pub struct Adc<ADC> {
    _adc: PhantomData<ADC>,
}

impl<ADC: AdcInstance> Adc<ADC> {
    /// Bring the ADC up (see [`init_program`]).
    pub fn new(clocks: &Clocks) -> (r: (Self, Vec<RegOp>))
        ensures
            r.1@ == init_program::<ADC>(),
    {
        let mut ops = modify_op(ADC::gate_reg(), Width::W32, 0, SCGC_ADC);
        ops.push(RegOp::Write { addr: reg::<ADC>(ADC_CFG1), width: Width::W32, value: CFG1_INIT });
        ops.push(RegOp::Write { addr: reg::<ADC>(ADC_CFG2), width: Width::W32, value: 0 });
        ops.push(RegOp::Write { addr: reg::<ADC>(ADC_SC2), width: Width::W32, value: 0 });
        ops.push(RegOp::Write { addr: reg::<ADC>(ADC_SC3), width: Width::W32, value: 0 });
        ops.push(RegOp::Write { addr: reg::<ADC>(ADC_SC1A), width: Width::W32, value: SC1_ADCH_OFF });
        (Adc { _adc: PhantomData }, ops)
    }

    /// Set the resolution (CFG1.MODE).
    pub fn set_resolution(&mut self, res: Resolution) -> (r: Vec<RegOp>)
        ensures
            r@ == seq![RegOp::Modify { addr: adc_reg::<ADC>(ADC_CFG1), width: Width::W32, clear: CFG1_MODE_MASK, set: mode_code(res) << 2u32 }],
    {
        let m: u32 = match res {
            Resolution::Bits8 => 0,
            Resolution::Bits12 => 1,
            Resolution::Bits10 => 2,
            Resolution::Bits16 => 3,
        };
        modify_op(reg::<ADC>(ADC_CFG1), Width::W32, CFG1_MODE_MASK, m << 2u32)
    }

    /// Set hardware averaging. SC3 is written whole, never read back, so
    /// that a pending CALF (write one to clear) is left alone.
    pub fn set_averaging(&mut self, avg: Averaging) -> (r: Vec<RegOp>)
        ensures
            r@ == seq![RegOp::Write { addr: adc_reg::<ADC>(ADC_SC3), width: Width::W32, value: sc3_avg(avg) }],
    {
        let v: u32 = match avg {
            Averaging::Disabled => 0,
            Averaging::Avg4 => SC3_AVGE,
            Averaging::Avg8 => SC3_AVGE | 1,
            Averaging::Avg16 => SC3_AVGE | 2,
            Averaging::Avg32 => SC3_AVGE | 3,
        };
        write_op(reg::<ADC>(ADC_SC3), Width::W32, v)
    }

    /// Start self-calibration, given the current CFG1 and SC3 (saved for
    /// restoring): CFG1 for calibration (16-bit, divide by 8), SC3 with CAL
    /// and 32-sample averaging, and the wait for COCO. Then read SC3 and
    /// the calibration results and call [`Adc::finish_calibration`].
    pub fn calibrate(&mut self, cfg1: u32, sc3: u32) -> (r: (Calibration, Vec<RegOp>))
        ensures
            r.0 == (Calibration { saved_cfg1: cfg1, saved_sc3: sc3 }),
            r.1@ == seq![
                RegOp::Write { addr: adc_reg::<ADC>(ADC_CFG1), width: Width::W32, value: CFG1_CAL },
                RegOp::Write { addr: adc_reg::<ADC>(ADC_SC3), width: Width::W32, value: SC3_CAL | SC3_AVGE | 3 },
                RegOp::WaitUntil { addr: adc_reg::<ADC>(ADC_SC1A), width: Width::W32, mask: SC1_COCO, value: SC1_COCO },
            ],
    {
        let mut ops = write_op(reg::<ADC>(ADC_CFG1), Width::W32, CFG1_CAL);
        ops.push(RegOp::Write { addr: reg::<ADC>(ADC_SC3), width: Width::W32, value: SC3_CAL | SC3_AVGE | 3 });
        ops.push(RegOp::WaitUntil { addr: reg::<ADC>(ADC_SC1A), width: Width::W32, mask: SC1_COCO, value: SC1_COCO });
        (Calibration { saved_cfg1: cfg1, saved_sc3: sc3 }, ops)
    }

    /// Finish a calibration (see [`finish_program`]): `Err` exactly when
    /// SC3 reports CALF.
    pub fn finish_calibration(&mut self, c: Calibration, sc3: u32, plus: &[u16; 6], minus: &[u16; 6]) -> (r: (Result<(), CalibrationError>, Vec<RegOp>))
        ensures
            r.0 is Err <==> sc3 & SC3_CALF != 0,
            r.1@ == finish_program::<ADC>(c, sc3, plus@, minus@),
    {
        if sc3 & SC3_CALF != 0 {
            let mut ops = write_op(reg::<ADC>(ADC_SC3), Width::W32, SC3_CALF);
            ops.push(RegOp::Write { addr: reg::<ADC>(ADC_CFG1), width: Width::W32, value: c.saved_cfg1 });
            ops.push(RegOp::Write { addr: reg::<ADC>(ADC_SC3), width: Width::W32, value: c.saved_sc3 & !SC3_CALF });
            return (Err(CalibrationError), ops);
        }
        let pg = gain_exec(plus);
        let mg = gain_exec(minus);
        let mut ops = write_op(reg::<ADC>(ADC_PG), Width::W32, pg as u32);
        ops.push(RegOp::Write { addr: reg::<ADC>(ADC_MG), width: Width::W32, value: mg as u32 });
        ops.push(RegOp::Write { addr: reg::<ADC>(ADC_CFG1), width: Width::W32, value: c.saved_cfg1 });
        ops.push(RegOp::Write { addr: reg::<ADC>(ADC_SC3), width: Width::W32, value: c.saved_sc3 & !(SC3_CAL | SC3_CALF) });
        (Ok(()), ops)
    }

    /// Convert `channel` (single-ended, no interrupt) and wait for the
    /// result; read it from RA with [`Adc::result`].
    pub fn read(&mut self, channel: u8) -> (r: Vec<RegOp>)
        ensures
            r@ == convert_program::<ADC>(channel),
    {
        let mut ops = write_op(reg::<ADC>(ADC_SC1A), Width::W32, (channel & 0x1F) as u32);
        ops.push(RegOp::WaitUntil { addr: reg::<ADC>(ADC_SC1A), width: Width::W32, mask: SC1_COCO, value: SC1_COCO });
        ops
    }

    /// The conversion result, given RA.
    pub fn result(&self, ra: u32) -> (r: u16)
        ensures
            r == (ra & 0xFFFF) as u16,
    {
        (ra & 0xFFFF) as u16
    }

    /// Address of the result register RA (the DMA source).
    pub fn result_dma_addr() -> (r: u32)
        ensures
            r == adc_reg::<ADC>(ADC_RA),
    {
        reg::<ADC>(ADC_RA)
    }

    /// Stream conversions of `channel` into the `count` 16-bit slots at
    /// `buffer` by DMA: DMA requests and continuous conversion on, the DMA
    /// channel set up to read RA into the buffer, routed to the ADC's
    /// request and enabled, and the first conversion started.
    pub fn read_dma<const DMA_CH: u8>(&mut self, channel: u8, buffer: u32, count: u16, ch: &mut DmaChannel<DMA_CH>) -> (r: Vec<RegOp>)
        requires
            DMA_CH < 16,
        ensures
            r@ == seq![
                RegOp::Modify { addr: adc_reg::<ADC>(ADC_SC2), width: Width::W32, clear: 0, set: SC2_DMAEN },
                RegOp::Write { addr: adc_reg::<ADC>(ADC_SC3), width: Width::W32, value: SC3_ADCO },
            ] + tcd_program(DMA_CH, peripheral_read_config(adc_reg::<ADC>(ADC_RA), buffer, TransferSize::Bits16, count))
                + seq![
                RegOp::Write { addr: chcfg_reg(DMA_CH), width: Width::W8, value: 0 },
                RegOp::Write { addr: chcfg_reg(DMA_CH), width: Width::W8, value: (ADC::spec_dma_slot() as u32) | CHCFG_ENBL },
                RegOp::Write { addr: DMA_SERQ, width: Width::W8, value: DMA_CH as u32 },
                RegOp::Write { addr: adc_reg::<ADC>(ADC_SC1A), width: Width::W32, value: (channel & 0x1F) as u32 },
            ],
    {
        let mut ops = modify_op(reg::<ADC>(ADC_SC2), Width::W32, 0, SC2_DMAEN);
        ops.push(RegOp::Write { addr: reg::<ADC>(ADC_SC3), width: Width::W32, value: SC3_ADCO });
        let mut tcd = ch.configure_peripheral_read(Self::result_dma_addr(), buffer, TransferSize::Bits16, count);
        ops.append(&mut tcd);
        let slot = ADC::dma_slot();
        assert(slot & 0x3F == slot) by (bit_vector)
            requires
                slot == 40 || slot == 41,
        ;
        let src = DmaSource::new(slot);
        let mut s = ch.set_source(src);
        ops.append(&mut s);
        let mut e = ch.enable_request();
        ops.append(&mut e);
        ops.push(RegOp::Write { addr: reg::<ADC>(ADC_SC1A), width: Width::W32, value: (channel & 0x1F) as u32 });
        ops
    }
}

/// A PDB-triggered scan: one or two channels converted once per PDB period.
pub struct ScanConfig {
    /// Channels to convert (one or two).
    pub channels: Vec<u8>,
    /// PDB period in prescaled ticks.
    pub modulus: u16,
    pub prescaler: Prescaler,
    pub multiplier: Multiplier,
}

/// A running continuous scan; the DMA keeps the latest result of channel
/// `i` in slot `i` of the results buffer.
pub struct ContinuousScan<const DMA_CH: u8> {
    results: u32,
    num_channels: usize,
}

/// The DMA transfer of a scan: RA into consecutive 16-bit slots, one per
/// request, moving back to the buffer's start after `n` results.
pub open spec fn scan_transfer<ADC: AdcInstance>(results: u32, n: u16) -> TransferConfig {
    TransferConfig {
        source_addr: adc_reg::<ADC>(ADC_RA),
        dest_addr: results,
        source_size: TransferSize::Bits16,
        dest_size: TransferSize::Bits16,
        source_offset: 0,
        dest_offset: 2,
        minor_loop_bytes: 2,
        major_loop_count: n,
        source_last_adjust: 0,
        dest_last_adjust: -(2 * n) as i32,
    }
}

/// The program that starts a scan of `chans` (one or two channels):
/// hardware trigger and DMA on, continuous conversion off, SC1A (and SC1B)
/// loaded with the channels; the PDB on its software trigger, continuous,
/// pre-trigger 0 with no delay (and pre-trigger 1 back-to-back after it),
/// values loaded; the DMA transfer ([`scan_transfer`]) routed to the ADC's
/// request and enabled; then the PDB enabled and triggered.
pub open spec fn scan_program<ADC: AdcInstance>(chans: Seq<u8>, prescaler: Prescaler, multiplier: Multiplier, modulus: u16, results: u32, dma_ch: u8) -> Seq<RegOp> {
    let pc = ADC::spec_pdb_channel();
    let two = chans.len() >= 2;
    seq![
        RegOp::Modify { addr: adc_reg::<ADC>(ADC_SC2), width: Width::W32, clear: 0, set: SC2_ADTRG | SC2_DMAEN },
        RegOp::Write { addr: adc_reg::<ADC>(ADC_SC3), width: Width::W32, value: 0 },
        RegOp::Write { addr: adc_reg::<ADC>(ADC_SC1A), width: Width::W32, value: (chans[0] & 0x1F) as u32 },
    ] + (if two { seq![RegOp::Write { addr: adc_reg::<ADC>(ADC_SC1B), width: Width::W32, value: (chans[1] & 0x1F) as u32 }] } else { Seq::empty() })
        + seq![
        RegOp::Write { addr: PDB_SC, width: Width::W32, value: sc_value(TriggerSource::Software, prescaler, multiplier) },
        RegOp::Write { addr: PDB_MOD, width: Width::W32, value: modulus as u32 },
        RegOp::Modify { addr: PDB_SC, width: Width::W32, clear: SC_CONT, set: SC_CONT },
        RegOp::Write { addr: ch_reg(PDB_CH0DLY0, pc), width: Width::W32, value: 0 },
        RegOp::Modify { addr: ch_reg(PDB_CH0C1, pc), width: Width::W32, clear: 0, set: (1u32 << 0u8) | (1u32 << 8u32) },
    ] + (if two {
        seq![
            RegOp::Modify { addr: ch_reg(PDB_CH0C1, pc), width: Width::W32, clear: 0, set: (1u32 << 1u8) | (1u32 << 9u32) },
            RegOp::Modify { addr: ch_reg(PDB_CH0C1, pc), width: Width::W32, clear: 0, set: 1u32 << 17u32 },
        ]
    } else {
        Seq::empty()
    }) + seq![RegOp::Modify { addr: PDB_SC, width: Width::W32, clear: 0, set: SC_LDOK }]
        + tcd_program(dma_ch, scan_transfer::<ADC>(results, chans.len() as u16))
        + seq![
        RegOp::Write { addr: chcfg_reg(dma_ch), width: Width::W8, value: (ADC::spec_dma_slot() as u32) | CHCFG_ENBL },
        RegOp::Write { addr: DMA_SERQ, width: Width::W8, value: dma_ch as u32 },
        RegOp::Modify { addr: PDB_SC, width: Width::W32, clear: SC_PDBEN, set: SC_PDBEN },
        RegOp::Modify { addr: PDB_SC, width: Width::W32, clear: 0, set: SC_SWTRIG },
    ]
}

impl<ADC: AdcInstance> Adc<ADC> {
    /// Start a continuous scan (see [`scan_program`]) that keeps the latest
    /// results in the 16-bit slots at `results`.
    pub fn start_continuous_scan<const DMA_CH: u8>(
        &mut self,
        config: &ScanConfig,
        results: u32,
        results_len: usize,
        dma_ch: &mut DmaChannel<DMA_CH>,
        pdb: &mut Pdb,
    ) -> (r: (ContinuousScan<DMA_CH>, Vec<RegOp>))
        requires
            1 <= config.channels@.len() <= 2,
            results_len >= config.channels@.len(),
            results + 2 * results_len <= u32::MAX,
            DMA_CH < 16,
        ensures
            r.0.slots() == config.channels@.len(),
            r.0.buffer() == results,
            r.0.buffer() + 2 * r.0.slots() <= u32::MAX,
            r.1@ == scan_program::<ADC>(config.channels@, config.prescaler, config.multiplier, config.modulus, results, DMA_CH),
    {
        let n: usize = config.channels.len();
        let pc = ADC::pdb_channel();
        let mut ops = modify_op(reg::<ADC>(ADC_SC2), Width::W32, 0, SC2_ADTRG | SC2_DMAEN);
        ops.push(RegOp::Write { addr: reg::<ADC>(ADC_SC3), width: Width::W32, value: 0 });
        ops.push(RegOp::Write { addr: reg::<ADC>(ADC_SC1A), width: Width::W32, value: (config.channels[0] & 0x1F) as u32 });
        if n >= 2 {
            ops.push(RegOp::Write { addr: reg::<ADC>(ADC_SC1B), width: Width::W32, value: (config.channels[1] & 0x1F) as u32 });
        }
        let mut p = pdb.configure(TriggerSource::Software, config.prescaler, config.multiplier, config.modulus);
        ops.append(&mut p);
        let mut p = pdb.set_continuous(true);
        ops.append(&mut p);
        let mut p = pdb.set_pretrigger_delay(pc, 0, 0);
        ops.append(&mut p);
        let mut p = pdb.enable_pretrigger(pc, 0);
        ops.append(&mut p);
        if n >= 2 {
            let mut p = pdb.enable_pretrigger(pc, 1);
            ops.append(&mut p);
            let mut p = pdb.enable_back_to_back(pc, 1);
            ops.append(&mut p);
        }
        let mut p = pdb.load_ok();
        ops.append(&mut p);
        let count: u16 = n as u16;
        let transfer = TransferConfig {
            source_addr: Self::result_dma_addr(),
            dest_addr: results,
            source_size: TransferSize::Bits16,
            dest_size: TransferSize::Bits16,
            source_offset: 0,
            dest_offset: 2,
            minor_loop_bytes: 2,
            major_loop_count: count,
            source_last_adjust: 0,
            dest_last_adjust: -(2 * count as i32),
        };
        let mut t = dma_ch.configure(&transfer);
        ops.append(&mut t);
        ops.push(RegOp::Write { addr: DMAMUX_CHCFG_BASE + DMA_CH as u32, width: Width::W8, value: (ADC::dma_slot() as u32) | CHCFG_ENBL });
        let mut e = dma_ch.enable_request();
        ops.append(&mut e);
        let mut p = pdb.enable();
        ops.append(&mut p);
        let mut p = pdb.software_trigger();
        ops.append(&mut p);
        (ContinuousScan { results, num_channels: n }, ops)
    }
}

impl<const DMA_CH: u8> ContinuousScan<DMA_CH> {
    /// Number of result slots.
    pub closed spec fn slots(&self) -> nat {
        self.num_channels as nat
    }

    /// Address of the results buffer.
    pub closed spec fn buffer(&self) -> u32 {
        self.results
    }

    /// Address of the latest result of channel `index` (read it there).
    pub fn read_latest(&self, index: usize) -> (r: u32)
        requires
            index < self.slots(),
            self.buffer() + 2 * self.slots() <= u32::MAX,
        ensures
            r == self.buffer() + 2 * index,
    {
        self.results + 2 * index as u32
    }

    /// Stop the scan: PDB disabled, DMA requests off, DONE cleared.
    pub fn stop(self) -> (r: Vec<RegOp>)
        requires
            DMA_CH < 16,
        ensures
            r@ == seq![
                RegOp::Modify { addr: PDB_SC, width: Width::W32, clear: SC_PDBEN, set: 0 },
                RegOp::Write { addr: DMA_CERQ, width: Width::W8, value: DMA_CH as u32 },
                RegOp::Write { addr: DMA_CDNE, width: Width::W8, value: DMA_CH as u32 },
            ],
    {
        let mut ops = modify_op(PDB_SC, Width::W32, SC_PDBEN, 0);
        ops.push(RegOp::Write { addr: DMA_CERQ, width: Width::W8, value: DMA_CH as u32 });
        ops.push(RegOp::Write { addr: DMA_CDNE, width: Width::W8, value: DMA_CH as u32 });
        ops
    }
}

} // verus!
