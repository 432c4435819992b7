//! DSPI master driver: baud rate selection and register programs.

use vstd::prelude::*;
use core::marker::PhantomData;

use crate::clocks::Clocks;
use crate::time::Hertz;
use crate::regs::{RegOp, Width, write_op, modify_op};
use crate::dma::{DmaChannel, DmaSource, TransferSize, tcd_program, peripheral_write_config, chcfg_reg, CHCFG_ENBL, DMA_SERQ};

verus! {

// ----- Baud Rate Calculation -----

/// Baud rate scaler table (CTAR.BR field value → divider).
pub const BR_SCALERS: [u16; 16] = [
    2, 4, 6, 8, 16, 32, 64, 128, 256, 512, 1024, 2048, 4096, 8192, 16384, 32768,
];

/// Baud rate prescaler table (CTAR.PBR field value → divider).
pub const PBR_PRESCALERS: [u16; 4] = [2, 3, 5, 7];

/// Baud rate of candidate `k`: PBR index `k / 32`, BR index `(k / 2) % 16`,
/// DBR set when `k` is odd.
pub open spec fn spi_candidate_baud(bus_clk: u32, k: int) -> int {
    (bus_clk as int * (if k % 2 == 1 { 2int } else { 1int })) / (PBR_PRESCALERS@[k / 32] as int
        * BR_SCALERS@[(k / 2) % 16] as int)
}

/// The candidate number of a (BR, PBR, DBR) choice, in search order.
pub open spec fn spi_candidate(br: u8, pbr: u8, dbr: bool) -> int {
    pbr as int * 32 + br as int * 2 + (if dbr { 1int } else { 0int })
}

proof fn lemma_spi_tables(k: int)
    requires
        0 <= k < 128,
    ensures
        2 <= PBR_PRESCALERS@[k / 32] <= 7,
        2 <= BR_SCALERS@[(k / 2) % 16] <= 32768,
{
    assert(PBR_PRESCALERS@ =~= seq![2u16, 3, 5, 7]);
    assert(BR_SCALERS@ =~= seq![
        2u16, 4, 6, 8, 16, 32, 64, 128, 256, 512, 1024, 2048, 4096, 8192, 16384, 32768,
    ]);
}

/// Whether `c` is the baud selection for `target`: the highest candidate
/// rate at or below `target`, the first such in search order; `(0, 0,
/// false)` when no candidate gives a non-zero rate at or below it.
pub open spec fn spi_baud_choice(bus_clk: u32, target: u32, c: (u8, u8, bool)) -> bool {
    &&& (c.0 < 16)
    &&& (c.1 < 4)
    &&& ((exists|k: int| 0 <= k < 128 && 0 < #[trigger] spi_candidate_baud(bus_clk, k) <= target) ==> {
            let best = spi_candidate(c.0, c.1, c.2);
            &&& 0 < spi_candidate_baud(bus_clk, best) <= target
            &&& forall|k: int| 0 <= k < 128 && #[trigger] spi_candidate_baud(bus_clk, k) <= target
                ==> spi_candidate_baud(bus_clk, k) <= spi_candidate_baud(bus_clk, best)
            &&& forall|k: int| 0 <= k < best && #[trigger] spi_candidate_baud(bus_clk, k) <= target
                ==> spi_candidate_baud(bus_clk, k) < spi_candidate_baud(bus_clk, best)
        })
    &&& (!(exists|k: int| 0 <= k < 128 && 0 < #[trigger] spi_candidate_baud(bus_clk, k) <= target)
            ==> c == (0u8, 0u8, false))
}

/// Calculate BR scaler index, PBR prescaler index, and DBR flag for a target
/// baud rate: the highest rate `bus_clk × (DBR ? 2 : 1) / (PBR × BR)` that
/// does not exceed `target`; among equal rates the first in search order
/// (PBR outer, BR middle, DBR inner) wins. When no candidate gives a non-zero
/// rate at or below `target`, returns `(0, 0, false)`.
pub fn calc_baud(bus_clk: u32, target: u32) -> (r: (u8, u8, bool))
    ensures
        r.0 < 16,
        r.1 < 4,
        (exists|k: int| 0 <= k < 128 && 0 < #[trigger] spi_candidate_baud(bus_clk, k) <= target) ==> {
            let best = spi_candidate(r.0, r.1, r.2);
            &&& 0 < spi_candidate_baud(bus_clk, best) <= target
            &&& forall|k: int| 0 <= k < 128 && #[trigger] spi_candidate_baud(bus_clk, k) <= target
                ==> spi_candidate_baud(bus_clk, k) <= spi_candidate_baud(bus_clk, best)
            &&& forall|k: int| 0 <= k < best && #[trigger] spi_candidate_baud(bus_clk, k) <= target
                ==> spi_candidate_baud(bus_clk, k) < spi_candidate_baud(bus_clk, best)
        },
        !(exists|k: int| 0 <= k < 128 && 0 < #[trigger] spi_candidate_baud(bus_clk, k) <= target)
            ==> r == (0u8, 0u8, false),
{
    let mut best_br: u8 = 0;
    let mut best_pbr: u8 = 0;
    let mut best_dbr = false;
    let mut best_baud: u32 = 0;
    let mut k: usize = 0;
    while k < 128
        invariant
            k <= 128,
            best_br < 16,
            best_pbr < 4,
            best_baud == 0 ==> best_br == 0 && best_pbr == 0 && !best_dbr,
            best_baud > 0 ==> {
                let best = spi_candidate(best_br, best_pbr, best_dbr);
                &&& best < k
                &&& best_baud as int == spi_candidate_baud(bus_clk, best)
                &&& best_baud <= target
                &&& forall|j: int| 0 <= j < best && #[trigger] spi_candidate_baud(bus_clk, j) <= target
                    ==> spi_candidate_baud(bus_clk, j) < best_baud
            },
            forall|j: int| 0 <= j < k && #[trigger] spi_candidate_baud(bus_clk, j) <= target
                ==> spi_candidate_baud(bus_clk, j) <= best_baud,
        decreases 128 - k,
    {
        let pbr_idx: u8 = (k / 32) as u8;
        let br_idx: u8 = ((k / 2) % 16) as u8;
        let dbr: bool = k % 2 == 1;
        proof {
            lemma_spi_tables(k as int);
        }
        let pbr = PBR_PRESCALERS[pbr_idx as usize];
        let br = BR_SCALERS[br_idx as usize];
        assert(pbr == PBR_PRESCALERS@[k as int / 32]);
        assert(br == BR_SCALERS@[(k as int / 2) % 16]);
        assert(2 <= pbr <= 7 && 2 <= br <= 32768);
        let mult: u64 = if dbr { 2 } else { 1 };
        let num: u64 = bus_clk as u64 * mult;
        assert(4 <= (pbr as u32) * (br as u32) <= 7 * 32768) by (nonlinear_arith)
            requires
                2 <= pbr <= 7,
                2 <= br <= 32768,
        ;
        let den32: u32 = (pbr as u32) * (br as u32);
        let den: u64 = den32 as u64;
        let q: u64 = num / den;
        assert(q <= bus_clk as u64) by (nonlinear_arith)
            requires
                q == num / den,
                num <= bus_clk as u64 * 2,
                den >= 4,
        ;
        let baud = q as u32;
        assert(baud as int == spi_candidate_baud(bus_clk, k as int));
        assert(spi_candidate(br_idx, pbr_idx, dbr) == k as int);
        if baud <= target && baud > best_baud {
            best_baud = baud;
            best_br = br_idx;
            best_pbr = pbr_idx;
            best_dbr = dbr;
        }
        k = k + 1;
    }
    (best_br, best_pbr, best_dbr)
}

// ----- Configuration -----

/// Clock polarity.
#[derive(Clone, Copy, Debug, PartialEq, Eq, Structural)]
pub enum Polarity {
    IdleLow,
    IdleHigh,
}

/// Clock phase.
#[derive(Clone, Copy, Debug, PartialEq, Eq, Structural)]
pub enum Phase {
    CaptureOnFirstTransition,
    CaptureOnSecondTransition,
}

/// SPI mode: clock polarity and phase.
#[derive(Clone, Copy, Debug, PartialEq, Eq, Structural)]
pub struct Mode {
    pub polarity: Polarity,
    pub phase: Phase,
}

impl Mode {
    /// Mode 0: idle low, capture on the first transition.
    pub fn mode_0() -> (r: Self)
        ensures
            r == (Mode { polarity: Polarity::IdleLow, phase: Phase::CaptureOnFirstTransition }),
    {
        Mode { polarity: Polarity::IdleLow, phase: Phase::CaptureOnFirstTransition }
    }

    /// Mode 1: idle low, capture on the second transition.
    pub fn mode_1() -> (r: Self)
        ensures
            r == (Mode { polarity: Polarity::IdleLow, phase: Phase::CaptureOnSecondTransition }),
    {
        Mode { polarity: Polarity::IdleLow, phase: Phase::CaptureOnSecondTransition }
    }

    /// Mode 2: idle high, capture on the first transition.
    pub fn mode_2() -> (r: Self)
        ensures
            r == (Mode { polarity: Polarity::IdleHigh, phase: Phase::CaptureOnFirstTransition }),
    {
        Mode { polarity: Polarity::IdleHigh, phase: Phase::CaptureOnFirstTransition }
    }

    /// Mode 3: idle high, capture on the second transition.
    pub fn mode_3() -> (r: Self)
        ensures
            r == (Mode { polarity: Polarity::IdleHigh, phase: Phase::CaptureOnSecondTransition }),
    {
        Mode { polarity: Polarity::IdleHigh, phase: Phase::CaptureOnSecondTransition }
    }
}

/// SPI configuration.
#[derive(Clone, Copy)]
pub struct Config {
    pub baudrate: Hertz,
    pub mode: Mode,
}

impl Config {
    /// Mode 0 at `baudrate`.
    pub fn new(baudrate: Hertz) -> (r: Self)
        ensures
            r.baudrate == baudrate,
            r.mode == (Mode { polarity: Polarity::IdleLow, phase: Phase::CaptureOnFirstTransition }),
    {
        Config { baudrate, mode: Mode::mode_0() }
    }

    /// The configuration with `mode`.
    pub fn mode(self, mode: Mode) -> (r: Self)
        ensures
            r == (Config { mode, ..self }),
    {
        Config { mode, ..self }
    }
}

/// SPI error.
#[derive(Clone, Copy, Debug, PartialEq, Eq, Structural)]
pub enum Error {
    /// The receive FIFO overflowed.
    Overrun,
}

// ----- Instances and registers -----

/// Register offsets.
pub const SPI_MCR: u32 = 0x00;
pub const SPI_CTAR0: u32 = 0x0C;
pub const SPI_SR: u32 = 0x2C;
pub const SPI_RSER: u32 = 0x30;
pub const SPI_PUSHR: u32 = 0x34;
pub const SPI_POPR: u32 = 0x38;
pub const SIM_SCGC6: u32 = 0x4004_803C;

/// MCR values and bits.
pub const MCR_INIT: u32 = 0x8001_0001;
pub const MCR_CLR_FIFOS: u32 = 0x0C00;
pub const MCR_MDIS: u32 = 0x4000;
pub const MCR_HALT: u32 = 0x0001;
/// SR bits.
pub const SR_TCF: u32 = 0x8000_0000;
pub const SR_TFFF: u32 = 0x0200_0000;
pub const SR_RFOF: u32 = 0x0008_0000;
pub const SR_RFDF: u32 = 0x0002_0000;
pub const SR_TXCTR: u32 = 0x0000_F000;
/// All the write-one-to-clear SR flags (TCF, EOQF, TFUF, TFFF, RFOF, RFDF).
pub const SR_CLEAR_ALL: u32 = 0x9A0A_0000;
/// RSER bits.
pub const RSER_TCF_RE: u32 = 0x8000_0000;
pub const RSER_TFFF_DMA: u32 = 0x0300_0000;
/// PUSHR chip select 0.
pub const PUSHR_PCS0: u32 = 0x0001_0000;

/// A DSPI instance.
pub trait SpiInstance {
    spec fn spec_base() -> u32;
    spec fn spec_gate_bit() -> u32;
    spec fn spec_tx_slot() -> u8;

    fn base() -> (r: u32)
        ensures
            r == Self::spec_base(),
            r == 0x4002_C000 || r == 0x4002_D000;

    fn gate_bit() -> (r: u32)
        ensures
            r == Self::spec_gate_bit();

    fn tx_slot() -> (r: u8)
        ensures
            r == Self::spec_tx_slot(),
            r < 64;
}

/// SPI0.
pub struct Spi0;

/// SPI1.
pub struct Spi1;

impl SpiInstance for Spi0 {
    open spec fn spec_base() -> u32 { 0x4002_C000 }
    open spec fn spec_gate_bit() -> u32 { 0x1000 }
    open spec fn spec_tx_slot() -> u8 { 17 }
    fn base() -> (r: u32) { 0x4002_C000 }
    fn gate_bit() -> (r: u32) { 0x1000 }
    fn tx_slot() -> (r: u8) { DmaSource::SPI0_TX }
}

impl SpiInstance for Spi1 {
    open spec fn spec_base() -> u32 { 0x4002_D000 }
    open spec fn spec_gate_bit() -> u32 { 0x2000 }
    open spec fn spec_tx_slot() -> u8 { 19 }
    fn base() -> (r: u32) { 0x4002_D000 }
    fn gate_bit() -> (r: u32) { 0x2000 }
    fn tx_slot() -> (r: u8) { DmaSource::SPI1_TX }
}

/// Address of a DSPI register.
pub open spec fn spi_reg<SPI: SpiInstance>(off: u32) -> u32 {
    (SPI::spec_base() + off) as u32
}

fn reg<SPI: SpiInstance>(off: u32) -> (r: u32)
    requires
        off < 0x40,
    ensures
        r == spi_reg::<SPI>(off),
{
    SPI::base() + off
}

/// The CTAR0 value: 8-bit frames, MSB first, the mode, and the baud
/// selection (BR index, PBR index, DBR); no extra delays.
pub open spec fn ctar_value(mode: Mode, br: u8, pbr: u8, dbr: bool) -> u32 {
    (if dbr { 0x8000_0000u32 } else { 0 }) | (7u32 << 27u32)
        | (if mode.polarity == Polarity::IdleHigh { 0x0400_0000u32 } else { 0 })
        | (if mode.phase == Phase::CaptureOnSecondTransition { 0x0200_0000u32 } else { 0 })
        | ((pbr as u32) << 16u32) | (br as u32)
}

/// The program that brings a DSPI up as master: clock gate, MCR (master,
/// halted, PCS0 inactive high, module enabled), FIFOs flushed, every status
/// flag cleared, CTAR0, then the halt released.
pub open spec fn init_program<SPI: SpiInstance>(mode: Mode, br: u8, pbr: u8, dbr: bool) -> Seq<RegOp> {
    seq![
        RegOp::Modify { addr: SIM_SCGC6, width: Width::W32, clear: 0, set: SPI::spec_gate_bit() },
        RegOp::Write { addr: spi_reg::<SPI>(SPI_MCR), width: Width::W32, value: MCR_INIT },
        RegOp::Modify { addr: spi_reg::<SPI>(SPI_MCR), width: Width::W32, clear: 0, set: MCR_CLR_FIFOS },
        RegOp::Write { addr: spi_reg::<SPI>(SPI_SR), width: Width::W32, value: SR_CLEAR_ALL },
        RegOp::Write { addr: spi_reg::<SPI>(SPI_CTAR0), width: Width::W32, value: ctar_value(mode, br, pbr, dbr) },
        RegOp::Modify { addr: spi_reg::<SPI>(SPI_MCR), width: Width::W32, clear: MCR_HALT, set: 0 },
    ]
}

/// The first half of a byte transfer: wait for room in the TX FIFO, clear
/// TFFF, push the byte with PCS0 asserted (CTAR0), and wait for a received
/// byte.
pub open spec fn transfer_start_program<SPI: SpiInstance>(byte: u8) -> Seq<RegOp> {
    seq![
        RegOp::WaitUntil { addr: spi_reg::<SPI>(SPI_SR), width: Width::W32, mask: SR_TFFF, value: SR_TFFF },
        RegOp::Write { addr: spi_reg::<SPI>(SPI_SR), width: Width::W32, value: SR_TFFF },
        RegOp::Write { addr: spi_reg::<SPI>(SPI_PUSHR), width: Width::W32, value: (byte as u32) | PUSHR_PCS0 },
        RegOp::WaitUntil { addr: spi_reg::<SPI>(SPI_SR), width: Width::W32, mask: SR_RFDF, value: SR_RFDF },
    ]
}

/// DSPI master driver.
pub struct Spi<SPI> {
    _spi: PhantomData<SPI>,
}

impl<SPI: SpiInstance> Spi<SPI> {
    /// Bring the DSPI up with `config` on the bus clock (see
    /// [`init_program`], with the baud selection of [`calc_baud`]).
    pub fn new(config: Config, clocks: &Clocks) -> (r: (Self, Vec<RegOp>))
        ensures
            exists|br: u8, pbr: u8, dbr: bool| #[trigger] spi_baud_choice(clocks.bus_hz(), config.baudrate.0, (br, pbr, dbr))
                && r.1@ == init_program::<SPI>(config.mode, br, pbr, dbr),
    {
        let (br, pbr, dbr) = calc_baud(clocks.bus_clk().raw(), config.baudrate.raw());
        assert(spi_baud_choice(clocks.bus_hz(), config.baudrate.0, (br, pbr, dbr)));
        let ctar: u32 = (if dbr { 0x8000_0000u32 } else { 0 }) | (7u32 << 27u32)
            | (if config.mode.polarity == Polarity::IdleHigh { 0x0400_0000u32 } else { 0 })
            | (if config.mode.phase == Phase::CaptureOnSecondTransition { 0x0200_0000u32 } else { 0 })
            | ((pbr as u32) << 16u32) | (br as u32);
        let mut ops = modify_op(SIM_SCGC6, Width::W32, 0, SPI::gate_bit());
        ops.push(RegOp::Write { addr: reg::<SPI>(SPI_MCR), width: Width::W32, value: MCR_INIT });
        ops.push(RegOp::Modify { addr: reg::<SPI>(SPI_MCR), width: Width::W32, clear: 0, set: MCR_CLR_FIFOS });
        ops.push(RegOp::Write { addr: reg::<SPI>(SPI_SR), width: Width::W32, value: SR_CLEAR_ALL });
        ops.push(RegOp::Write { addr: reg::<SPI>(SPI_CTAR0), width: Width::W32, value: ctar });
        ops.push(RegOp::Modify { addr: reg::<SPI>(SPI_MCR), width: Width::W32, clear: MCR_HALT, set: 0 });
        assert(spi_baud_choice(clocks.bus_hz(), config.baudrate.0, (br, pbr, dbr)) && ops@ == init_program::<SPI>(config.mode, br, pbr, dbr));
        (Spi { _spi: PhantomData }, ops)
    }

    /// Start a byte transfer (see [`transfer_start_program`]); then read SR
    /// and call [`Spi::transfer_finish`].
    pub fn transfer_start(&mut self, byte: u8) -> (r: Vec<RegOp>)
        ensures
            r@ == transfer_start_program::<SPI>(byte),
    {
        let mut ops: Vec<RegOp> = Vec::new();
        ops.push(RegOp::WaitUntil { addr: reg::<SPI>(SPI_SR), width: Width::W32, mask: SR_TFFF, value: SR_TFFF });
        ops.push(RegOp::Write { addr: reg::<SPI>(SPI_SR), width: Width::W32, value: SR_TFFF });
        ops.push(RegOp::Write { addr: reg::<SPI>(SPI_PUSHR), width: Width::W32, value: (byte as u32) | PUSHR_PCS0 });
        ops.push(RegOp::WaitUntil { addr: reg::<SPI>(SPI_SR), width: Width::W32, mask: SR_RFDF, value: SR_RFDF });
        ops
    }

    /// Finish a byte transfer, given SR: on receive overflow, clear RFOF
    /// and RFDF, discard POPR and fail with `Overrun`; otherwise clear RFDF
    /// and succeed, the received byte being POPR read afterwards (see
    /// [`Spi::rx_byte`]).
    pub fn transfer_finish(&mut self, sr: u32) -> (r: (Result<(), Error>, Vec<RegOp>))
        ensures
            sr & SR_RFOF != 0 ==> r.0 == Err::<(), Error>(Error::Overrun) && r.1@ == seq![
                RegOp::Write { addr: spi_reg::<SPI>(SPI_SR), width: Width::W32, value: SR_RFOF },
                RegOp::Write { addr: spi_reg::<SPI>(SPI_SR), width: Width::W32, value: SR_RFDF },
                RegOp::Read { addr: spi_reg::<SPI>(SPI_POPR), width: Width::W32 },
            ],
            sr & SR_RFOF == 0 ==> r.0 == Ok::<(), Error>(()) && r.1@ == seq![
                RegOp::Write { addr: spi_reg::<SPI>(SPI_SR), width: Width::W32, value: SR_RFDF },
            ],
    {
        if sr & SR_RFOF != 0 {
            let mut ops = write_op(reg::<SPI>(SPI_SR), Width::W32, SR_RFOF);
            ops.push(RegOp::Write { addr: reg::<SPI>(SPI_SR), width: Width::W32, value: SR_RFDF });
            ops.push(RegOp::Read { addr: reg::<SPI>(SPI_POPR), width: Width::W32 });
            return (Err(Error::Overrun), ops);
        }
        (Ok(()), write_op(reg::<SPI>(SPI_SR), Width::W32, SR_RFDF))
    }

    /// The received byte, given POPR.
    pub fn rx_byte(&self, popr: u32) -> (r: u8)
        ensures
            r == popr as u8,
    {
        popr as u8
    }

    /// Wait until the TX FIFO is empty (SR.TXCTR = 0).
    pub fn flush(&mut self) -> (r: Vec<RegOp>)
        ensures
            r@ == seq![RegOp::WaitUntil { addr: spi_reg::<SPI>(SPI_SR), width: Width::W32, mask: SR_TXCTR, value: 0 }],
    {
        let mut ops: Vec<RegOp> = Vec::new();
        ops.push(RegOp::WaitUntil { addr: reg::<SPI>(SPI_SR), width: Width::W32, mask: SR_TXCTR, value: 0 });
        ops
    }

    /// Address of the status register SR.
    pub fn status_addr() -> (r: u32)
        ensures
            r == spi_reg::<SPI>(SPI_SR),
    {
        reg::<SPI>(SPI_SR)
    }

    /// Address of PUSHR (the DMA target for transmission).
    pub fn tx_dma_addr() -> (r: u32)
        ensures
            r == spi_reg::<SPI>(SPI_PUSHR),
    {
        reg::<SPI>(SPI_PUSHR)
    }

    /// Address of POPR (the DMA source for reception).
    pub fn rx_dma_addr() -> (r: u32)
        ensures
            r == spi_reg::<SPI>(SPI_POPR),
    {
        reg::<SPI>(SPI_POPR)
    }

    /// Send the `len` bytes at `buf` by DMA: the channel set up to write
    /// them to PUSHR, routed to the transmit request, TFFF DMA requests
    /// enabled (RSER.TFFF_RE and TFFF_DIRS), and the channel's requests on.
    pub fn write_dma<const CH: u8>(&mut self, buf: u32, len: usize, ch: &mut DmaChannel<CH>) -> (r: Vec<RegOp>)
        requires
            CH < 16,
        ensures
            r@ == tcd_program(CH, peripheral_write_config(buf, spi_reg::<SPI>(SPI_PUSHR), TransferSize::Bits8, len as u16)) + seq![
                RegOp::Write { addr: chcfg_reg(CH), width: Width::W8, value: 0 },
                RegOp::Write { addr: chcfg_reg(CH), width: Width::W8, value: (SPI::spec_tx_slot() as u32) | CHCFG_ENBL },
                RegOp::Modify { addr: spi_reg::<SPI>(SPI_RSER), width: Width::W32, clear: 0, set: RSER_TFFF_DMA },
                RegOp::Write { addr: DMA_SERQ, width: Width::W8, value: CH as u32 },
            ],
    {
        let mut ops = ch.configure_peripheral_write(buf, Self::tx_dma_addr(), TransferSize::Bits8, len as u16);
        let slot = SPI::tx_slot();
        assert(slot & 0x3F == slot) by (bit_vector)
            requires
                slot < 64,
        ;
        let mut s = ch.set_source(DmaSource::new(slot));
        ops.append(&mut s);
        ops.push(RegOp::Modify { addr: reg::<SPI>(SPI_RSER), width: Width::W32, clear: 0, set: RSER_TFFF_DMA });
        let mut e = ch.enable_request();
        ops.append(&mut e);
        ops
    }

    /// Release the DSPI: halted and the module disabled.
    pub fn release(self) -> (r: Vec<RegOp>)
        ensures
            r@ == seq![RegOp::Modify { addr: spi_reg::<SPI>(SPI_MCR), width: Width::W32, clear: 0, set: MCR_HALT | MCR_MDIS }],
    {
        modify_op(reg::<SPI>(SPI_MCR), Width::W32, 0, MCR_HALT | MCR_MDIS)
    }
}

/// The bytes a full-duplex transfer sends: `write`, padded with zeros to
/// the longer of the two buffers.
pub fn transfer_tx_bytes(read_len: usize, write: &[u8]) -> (r: Vec<u8>)
    ensures
        r@.len() == if read_len > write@.len() { read_len as int } else { write@.len() as int },
        forall|i: int| 0 <= i < r@.len() ==> r@[i] == if i < write@.len() { write@[i] } else { 0u8 },
{
    let len: usize = if read_len > write.len() { read_len } else { write.len() };
    let mut out: Vec<u8> = Vec::new();
    let mut i: usize = 0;
    while i < len
        invariant
            len == if read_len > write@.len() { read_len as int } else { write@.len() as int },
            i <= len,
            out@.len() == i,
            forall|k: int| 0 <= k < i ==> out@[k] == if k < write@.len() { write@[k] } else { 0u8 },
        decreases len - i,
    {
        let b: u8 = if i < write.len() { write[i] } else { 0 };
        out.push(b);
        i = i + 1;
    }
    out
}

/// The transfer-complete interrupt handler's program: clear TCF and
/// disable its interrupt.
pub open spec fn isr_program<SPI: SpiInstance>() -> Seq<RegOp> {
    seq![
        RegOp::Write { addr: spi_reg::<SPI>(SPI_SR), width: Width::W32, value: SR_TCF },
        RegOp::Modify { addr: spi_reg::<SPI>(SPI_RSER), width: Width::W32, clear: RSER_TCF_RE, set: 0 },
    ]
}

fn on_spi_interrupt<SPI: SpiInstance>(sr: u32) -> (r: (bool, Vec<RegOp>))
    ensures
        r.0 == (sr & SR_TCF != 0),
        r.0 ==> r.1@ == isr_program::<SPI>(),
        !r.0 ==> r.1@ == Seq::<RegOp>::empty(),
{
    if sr & SR_TCF != 0 {
        let mut ops = write_op(reg::<SPI>(SPI_SR), Width::W32, SR_TCF);
        ops.push(RegOp::Modify { addr: reg::<SPI>(SPI_RSER), width: Width::W32, clear: RSER_TCF_RE, set: 0 });
        (true, ops)
    } else {
        (false, Vec::new())
    }
}

/// SPI0 interrupt handler, given SR: whether to wake the waiting task.
pub fn on_spi0_interrupt(sr: u32) -> (r: (bool, Vec<RegOp>))
    ensures
        r.0 == (sr & SR_TCF != 0),
        r.0 ==> r.1@ == isr_program::<Spi0>(),
        !r.0 ==> r.1@ == Seq::<RegOp>::empty(),
{
    on_spi_interrupt::<Spi0>(sr)
}

/// SPI1 interrupt handler, given SR.
pub fn on_spi1_interrupt(sr: u32) -> (r: (bool, Vec<RegOp>))
    ensures
        r.0 == (sr & SR_TCF != 0),
        r.0 ==> r.1@ == isr_program::<Spi1>(),
        !r.0 ==> r.1@ == Seq::<RegOp>::empty(),
{
    on_spi_interrupt::<Spi1>(sr)
}

} // verus!
