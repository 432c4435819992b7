//! UART driver: baud rate divisors, register programs, and the decoding of
//! the status register for non-blocking reads and writes.

use vstd::prelude::*;
use core::marker::PhantomData;

use crate::clocks::Clocks;
use crate::time::Hertz;
use crate::regs::{RegOp, Width, write_op, modify_op};
use crate::dma::{DmaChannel, DmaSource, TransferSize, tcd_program, peripheral_read_config, peripheral_write_config, chcfg_reg, CHCFG_ENBL, DMA_SERQ};

verus! {

// ----- Baud Rate Calculation -----

/// The baud divisor in 1/32 units, rounded to nearest:
/// `module_clk * 2 / baudrate` (kept to 32 bits as the register path does).
pub open spec fn baud_divisor_32(module_clk: u32, baudrate: u32) -> u32 {
    ((2 * module_clk as int + baudrate as int / 2) / baudrate as int) as u32
}

/// Calculate SBR and BRFA for the target baud rate.
///
/// `baud = module_clk / (16 * (SBR + BRFA/32))`: SBR is the whole part of the
/// divisor (clamped to 1..=0x1FFF) and BRFA its fraction in 1/32 steps.
pub fn calc_baud(module_clk: u32, baudrate: u32) -> (r: (u16, u8))
    requires
        baudrate > 0,
    ensures
        r.0 as int == if baud_divisor_32(module_clk, baudrate) / 32 < 1 {
            1
        } else if baud_divisor_32(module_clk, baudrate) / 32 > 0x1FFF {
            0x1FFF
        } else {
            baud_divisor_32(module_clk, baudrate) / 32
        },
        r.1 as int == baud_divisor_32(module_clk, baudrate) % 32,
{
    let sbr32 = ((2 * module_clk as u64 + baudrate as u64 / 2) / baudrate as u64) as u32;
    let whole = sbr32 / 32;
    let sbr: u16 = if whole < 1 {
        1
    } else if whole > 0x1FFF {
        0x1FFF
    } else {
        whole as u16
    };
    let brfa = (sbr32 % 32) as u8;
    (sbr, brfa)
}

// ----- Configuration -----

/// Parity mode.
#[derive(Clone, Copy, Debug, PartialEq, Eq, Structural)]
pub enum Parity {
    /// No parity bit.
    NoParity,
    Even,
    Odd,
}

/// Data word length.
#[derive(Clone, Copy, Debug, PartialEq, Eq, Structural)]
pub enum WordLength {
    Bits8,
    Bits9,
}

/// Serial configuration.
#[derive(Clone, Copy)]
pub struct Config {
    pub baudrate: Hertz,
    pub parity: Parity,
    pub word_length: WordLength,
}

impl Config {
    /// 8 data bits, no parity, at `baudrate`.
    pub fn new(baudrate: Hertz) -> (r: Self)
        ensures
            r.baudrate == baudrate,
            r.parity == Parity::NoParity,
            r.word_length == WordLength::Bits8,
    {
        Config { baudrate, parity: Parity::NoParity, word_length: WordLength::Bits8 }
    }

    /// The configuration with `parity`.
    pub fn parity(self, parity: Parity) -> (r: Self)
        ensures
            r == (Config { parity, ..self }),
    {
        Config { parity, ..self }
    }

    /// The configuration with `word_length`.
    pub fn word_length(self, word_length: WordLength) -> (r: Self)
        ensures
            r == (Config { word_length, ..self }),
    {
        Config { word_length, ..self }
    }
}

/// Receive error, as S1 reports it.
#[derive(Clone, Copy, Debug, PartialEq, Eq, Structural)]
pub enum Error {
    Overrun,
    Framing,
    Parity,
    Noise,
}

// ----- Instances and registers -----

/// Register offsets.
pub const UART_BDH: u32 = 0x00;
pub const UART_BDL: u32 = 0x01;
pub const UART_C1: u32 = 0x02;
pub const UART_C2: u32 = 0x03;
pub const UART_S1: u32 = 0x04;
pub const UART_D: u32 = 0x07;
pub const UART_C4: u32 = 0x0A;
pub const UART_C5: u32 = 0x0B;
pub const UART_PFIFO: u32 = 0x10;
pub const UART_CFIFO: u32 = 0x11;
pub const UART_TWFIFO: u32 = 0x13;
pub const UART_RWFIFO: u32 = 0x15;
/// SIM_SCGC4, which holds the UART clock gates.
pub const SIM_SCGC4: u32 = 0x4004_8034;

/// C1 bits.
pub const C1_PT: u32 = 0x01;
pub const C1_PE: u32 = 0x02;
pub const C1_M: u32 = 0x10;
/// C2 bits.
pub const C2_RE: u32 = 0x04;
pub const C2_TE: u32 = 0x08;
pub const C2_RIE: u32 = 0x20;
pub const C2_TCIE: u32 = 0x40;
pub const C2_TIE: u32 = 0x80;
/// S1 bits.
pub const S1_PF: u8 = 0x01;
pub const S1_FE: u8 = 0x02;
pub const S1_NF: u8 = 0x04;
pub const S1_OR: u8 = 0x08;
pub const S1_RDRF: u8 = 0x20;
pub const S1_TC: u8 = 0x40;
pub const S1_TDRE: u8 = 0x80;
/// C5 DMA bits.
pub const C5_RDMAS: u32 = 0x20;
pub const C5_TDMAS: u32 = 0x80;

/// A UART instance.
pub trait UartInstance {
    spec fn spec_base() -> u32;
    /// SIM_SCGC4 clock gate bit.
    spec fn spec_gate_bit() -> u32;
    /// Whether the module runs on the core clock (else the bus clock).
    spec fn spec_core_clocked() -> bool;
    spec fn spec_tx_slot() -> u8;
    spec fn spec_rx_slot() -> u8;

    fn base() -> (r: u32)
        ensures
            r == Self::spec_base(),
            0x4006_A000 <= r <= 0x4006_C000;

    fn gate_bit() -> (r: u32)
        ensures
            r == Self::spec_gate_bit();

    fn core_clocked() -> (r: bool)
        ensures
            r == Self::spec_core_clocked();

    fn tx_slot() -> (r: u8)
        ensures
            r == Self::spec_tx_slot(),
            r < 64;

    fn rx_slot() -> (r: u8)
        ensures
            r == Self::spec_rx_slot(),
            r < 64;
}

/// UART0 (core clock).
pub struct Uart0;

/// UART1 (core clock).
pub struct Uart1;

/// UART2 (bus clock).
pub struct Uart2;

impl UartInstance for Uart0 {
    open spec fn spec_base() -> u32 { 0x4006_A000 }
    open spec fn spec_gate_bit() -> u32 { 0x0400 }
    open spec fn spec_core_clocked() -> bool { true }
    open spec fn spec_tx_slot() -> u8 { 3 }
    open spec fn spec_rx_slot() -> u8 { 2 }
    fn base() -> (r: u32) { 0x4006_A000 }
    fn gate_bit() -> (r: u32) { 0x0400 }
    fn core_clocked() -> (r: bool) { true }
    fn tx_slot() -> (r: u8) { DmaSource::UART0_TX }
    fn rx_slot() -> (r: u8) { DmaSource::UART0_RX }
}

impl UartInstance for Uart1 {
    open spec fn spec_base() -> u32 { 0x4006_B000 }
    open spec fn spec_gate_bit() -> u32 { 0x0800 }
    open spec fn spec_core_clocked() -> bool { true }
    open spec fn spec_tx_slot() -> u8 { 5 }
    open spec fn spec_rx_slot() -> u8 { 4 }
    fn base() -> (r: u32) { 0x4006_B000 }
    fn gate_bit() -> (r: u32) { 0x0800 }
    fn core_clocked() -> (r: bool) { true }
    fn tx_slot() -> (r: u8) { DmaSource::UART1_TX }
    fn rx_slot() -> (r: u8) { DmaSource::UART1_RX }
}

impl UartInstance for Uart2 {
    open spec fn spec_base() -> u32 { 0x4006_C000 }
    open spec fn spec_gate_bit() -> u32 { 0x1000 }
    open spec fn spec_core_clocked() -> bool { false }
    open spec fn spec_tx_slot() -> u8 { 7 }
    open spec fn spec_rx_slot() -> u8 { 6 }
    fn base() -> (r: u32) { 0x4006_C000 }
    fn gate_bit() -> (r: u32) { 0x1000 }
    fn core_clocked() -> (r: bool) { false }
    fn tx_slot() -> (r: u8) { DmaSource::UART2_TX }
    fn rx_slot() -> (r: u8) { DmaSource::UART2_RX }
}

/// Address of a UART register.
pub open spec fn uart_reg<UART: UartInstance>(off: u32) -> u32 {
    (UART::spec_base() + off) as u32
}

fn reg<UART: UartInstance>(off: u32) -> (r: u32)
    requires
        off < 0x20,
    ensures
        r == uart_reg::<UART>(off),
{
    UART::base() + off
}

/// The C1 value of a configuration: 9-bit frames when asked for or when a
/// parity bit is added to 8 data bits; parity enable and type.
pub open spec fn c1_value(c: Config) -> u32 {
    (if c.word_length == WordLength::Bits9 || c.parity != Parity::NoParity { C1_M } else { 0 })
        | (if c.parity != Parity::NoParity { C1_PE } else { 0 })
        | (if c.parity == Parity::Odd { C1_PT } else { 0 })
}

/// The module clock of an instance.
pub open spec fn module_clock<UART: UartInstance>(clocks: Clocks) -> u32 {
    if UART::spec_core_clocked() { clocks.core_hz() } else { clocks.bus_hz() }
}

/// The program that brings a UART up: clock gate, transmitter and receiver
/// off, BRFA, C1, the divisor (BDH then BDL, which latches the pair), FIFOs
/// enabled and flushed, watermarks (TX 0, RX 1), and transmitter and
/// receiver on.
pub open spec fn init_program<UART: UartInstance>(c: Config, sbr: u16, brfa: u8) -> Seq<RegOp> {
    seq![
        RegOp::Modify { addr: SIM_SCGC4, width: Width::W32, clear: 0, set: UART::spec_gate_bit() },
        RegOp::Write { addr: uart_reg::<UART>(UART_C2), width: Width::W8, value: 0 },
        RegOp::Write { addr: uart_reg::<UART>(UART_C4), width: Width::W8, value: brfa as u32 },
        RegOp::Write { addr: uart_reg::<UART>(UART_C1), width: Width::W8, value: c1_value(c) },
        RegOp::Write { addr: uart_reg::<UART>(UART_BDH), width: Width::W8, value: (sbr >> 8u16) as u8 as u32 },
        RegOp::Write { addr: uart_reg::<UART>(UART_BDL), width: Width::W8, value: sbr as u8 as u32 },
        RegOp::Modify { addr: uart_reg::<UART>(UART_PFIFO), width: Width::W8, clear: 0, set: 0x88 },
        RegOp::Write { addr: uart_reg::<UART>(UART_CFIFO), width: Width::W8, value: 0xC0 },
        RegOp::Write { addr: uart_reg::<UART>(UART_TWFIFO), width: Width::W8, value: 0 },
        RegOp::Write { addr: uart_reg::<UART>(UART_RWFIFO), width: Width::W8, value: 1 },
        RegOp::Write { addr: uart_reg::<UART>(UART_C2), width: Width::W8, value: C2_TE | C2_RE },
    ]
}

/// The SBR divisor the baud rate calculation chooses.
pub open spec fn sbr_of(module_clk: u32, baudrate: u32) -> u16 {
    let w = baud_divisor_32(module_clk, baudrate) / 32;
    if w < 1 { 1 } else if w > 0x1FFF { 0x1FFF } else { w as u16 }
}

/// The BRFA fraction the baud rate calculation chooses.
pub open spec fn brfa_of(module_clk: u32, baudrate: u32) -> u8 {
    (baud_divisor_32(module_clk, baudrate) % 32) as u8
}

// ----- Driver types -----

/// A UART with both directions.
pub struct Serial<UART> {
    _uart: PhantomData<UART>,
}

/// The transmit half.
pub struct Tx<UART> {
    _uart: PhantomData<UART>,
}

/// The receive half.
pub struct Rx<UART> {
    _uart: PhantomData<UART>,
}

/// What a non-blocking receive found.
#[derive(Clone, Copy, Debug, PartialEq, Eq, Structural)]
pub enum RxStatus {
    /// A byte is waiting in D: read it.
    Ready,
    /// Nothing received yet.
    WouldBlock,
    /// A receive error; the program returned reads D to clear it.
    Failed(Error),
}

/// The receive error S1 reports, in the order overrun, framing, noise,
/// parity.
pub open spec fn s1_error(s1: u8) -> Option<Error> {
    if s1 & S1_OR != 0 {
        Some(Error::Overrun)
    } else if s1 & S1_FE != 0 {
        Some(Error::Framing)
    } else if s1 & S1_NF != 0 {
        Some(Error::Noise)
    } else if s1 & S1_PF != 0 {
        Some(Error::Parity)
    } else {
        None
    }
}

/// Non-blocking receive, given S1: a receive error first (cleared by
/// reading D after S1), then no data, then a byte ready in D.
pub fn nb_read<UART: UartInstance>(s1: u8) -> (r: (RxStatus, Vec<RegOp>))
    ensures
        s1_error(s1) matches Some(e) ==> r.0 == RxStatus::Failed(e) && r.1@ == seq![RegOp::Read { addr: uart_reg::<UART>(UART_D), width: Width::W8 }],
        s1_error(s1) is None && s1 & S1_RDRF == 0 ==> r.0 == RxStatus::WouldBlock && r.1@ == Seq::<RegOp>::empty(),
        s1_error(s1) is None && s1 & S1_RDRF != 0 ==> r.0 == RxStatus::Ready && r.1@ == Seq::<RegOp>::empty(),
{
    if s1 & S1_OR != 0 || s1 & S1_FE != 0 || s1 & S1_NF != 0 || s1 & S1_PF != 0 {
        let err = if s1 & S1_OR != 0 {
            Error::Overrun
        } else if s1 & S1_FE != 0 {
            Error::Framing
        } else if s1 & S1_NF != 0 {
            Error::Noise
        } else {
            Error::Parity
        };
        let mut ops: Vec<RegOp> = Vec::new();
        ops.push(RegOp::Read { addr: reg::<UART>(UART_D), width: Width::W8 });
        return (RxStatus::Failed(err), ops);
    }
    if s1 & S1_RDRF == 0 {
        return (RxStatus::WouldBlock, Vec::new());
    }
    (RxStatus::Ready, Vec::new())
}

/// Non-blocking transmit of `byte`, given S1: `None` (would block) while
/// the transmit buffer is full, else the write of D.
pub fn nb_write<UART: UartInstance>(s1: u8, byte: u8) -> (r: Option<Vec<RegOp>>)
    ensures
        s1 & S1_TDRE == 0 ==> r is None,
        s1 & S1_TDRE != 0 ==> r is Some && r->Some_0@ == seq![RegOp::Write { addr: uart_reg::<UART>(UART_D), width: Width::W8, value: byte as u32 }],
{
    if s1 & S1_TDRE == 0 {
        return None;
    }
    Some(write_op(reg::<UART>(UART_D), Width::W8, byte as u32))
}

/// Non-blocking flush, given S1: done once transmission is complete (TC).
pub fn nb_flush(s1: u8) -> (r: bool)
    ensures
        r == (s1 & S1_TC != 0),
{
    s1 & S1_TC != 0
}

impl<UART: UartInstance> Serial<UART> {
    /// Bring the UART up with `config` on its module clock (see
    /// [`init_program`], with the divisor of [`calc_baud`]).
    pub fn new(config: Config, clocks: &Clocks) -> (r: (Self, Vec<RegOp>))
        requires
            config.baudrate.0 > 0,
        ensures
            r.1@ == init_program::<UART>(
                config,
                sbr_of(module_clock::<UART>(*clocks), config.baudrate.0),
                brfa_of(module_clock::<UART>(*clocks), config.baudrate.0),
            ),
    {
        let clk: u32 = if UART::core_clocked() { clocks.core_clk().raw() } else { clocks.bus_clk().raw() };
        let (sbr, brfa) = calc_baud(clk, config.baudrate.raw());
        let m: u32 = if config.word_length == WordLength::Bits9 || config.parity != Parity::NoParity { C1_M } else { 0 };
        let pe: u32 = if config.parity != Parity::NoParity { C1_PE } else { 0 };
        let pt: u32 = if config.parity == Parity::Odd { C1_PT } else { 0 };
        let mut ops = modify_op(SIM_SCGC4, Width::W32, 0, UART::gate_bit());
        ops.push(RegOp::Write { addr: reg::<UART>(UART_C2), width: Width::W8, value: 0 });
        ops.push(RegOp::Write { addr: reg::<UART>(UART_C4), width: Width::W8, value: brfa as u32 });
        ops.push(RegOp::Write { addr: reg::<UART>(UART_C1), width: Width::W8, value: m | pe | pt });
        ops.push(RegOp::Write { addr: reg::<UART>(UART_BDH), width: Width::W8, value: (sbr >> 8u16) as u8 as u32 });
        ops.push(RegOp::Write { addr: reg::<UART>(UART_BDL), width: Width::W8, value: sbr as u8 as u32 });
        ops.push(RegOp::Modify { addr: reg::<UART>(UART_PFIFO), width: Width::W8, clear: 0, set: 0x88 });
        ops.push(RegOp::Write { addr: reg::<UART>(UART_CFIFO), width: Width::W8, value: 0xC0 });
        ops.push(RegOp::Write { addr: reg::<UART>(UART_TWFIFO), width: Width::W8, value: 0 });
        ops.push(RegOp::Write { addr: reg::<UART>(UART_RWFIFO), width: Width::W8, value: 1 });
        ops.push(RegOp::Write { addr: reg::<UART>(UART_C2), width: Width::W8, value: C2_TE | C2_RE });
        (Serial { _uart: PhantomData }, ops)
    }

    /// Split into the transmit and receive halves.
    pub fn split(self) -> (r: (Tx<UART>, Rx<UART>)) {
        (Tx { _uart: PhantomData }, Rx { _uart: PhantomData })
    }

    /// Put the halves back together.
    pub fn join(tx: Tx<UART>, rx: Rx<UART>) -> (r: Self) {
        Serial { _uart: PhantomData }
    }

    /// Address of the status register S1.
    pub fn status_addr() -> (r: u32)
        ensures
            r == uart_reg::<UART>(UART_S1),
    {
        reg::<UART>(UART_S1)
    }

    /// Address of the data register D (the DMA target or source).
    pub fn data_dma_addr() -> (r: u32)
        ensures
            r == uart_reg::<UART>(UART_D),
    {
        reg::<UART>(UART_D)
    }

    /// Send the `len` bytes at `buf` by DMA: the channel set up to write
    /// them to D, routed to the transmit request, TX DMA requests (C5.TDMAS
    /// and C2.TIE) enabled, and the channel's requests enabled.
    pub fn write_dma<const CH: u8>(&mut self, buf: u32, len: usize, ch: &mut DmaChannel<CH>) -> (r: Vec<RegOp>)
        requires
            CH < 16,
        ensures
            r@ == tcd_program(CH, peripheral_write_config(buf, uart_reg::<UART>(UART_D), TransferSize::Bits8, len as u16)) + seq![
                RegOp::Write { addr: chcfg_reg(CH), width: Width::W8, value: 0 },
                RegOp::Write { addr: chcfg_reg(CH), width: Width::W8, value: (UART::spec_tx_slot() as u32) | CHCFG_ENBL },
                RegOp::Modify { addr: uart_reg::<UART>(UART_C5), width: Width::W8, clear: 0, set: C5_TDMAS },
                RegOp::Modify { addr: uart_reg::<UART>(UART_C2), width: Width::W8, clear: 0, set: C2_TIE },
                RegOp::Write { addr: DMA_SERQ, width: Width::W8, value: CH as u32 },
            ],
    {
        let mut ops = ch.configure_peripheral_write(buf, Self::data_dma_addr(), TransferSize::Bits8, len as u16);
        let slot = UART::tx_slot();
        assert(slot & 0x3F == slot) by (bit_vector)
            requires
                slot < 64,
        ;
        let mut s = ch.set_source(DmaSource::new(slot));
        ops.append(&mut s);
        ops.push(RegOp::Modify { addr: reg::<UART>(UART_C5), width: Width::W8, clear: 0, set: C5_TDMAS });
        ops.push(RegOp::Modify { addr: reg::<UART>(UART_C2), width: Width::W8, clear: 0, set: C2_TIE });
        let mut e = ch.enable_request();
        ops.append(&mut e);
        ops
    }

    /// Receive `len` bytes into `buf` by DMA: the channel set up to read D
    /// into the buffer, routed to the receive request, RX DMA requests
    /// (C5.RDMAS and C2.RIE) enabled, and the channel's requests enabled.
    pub fn read_dma<const CH: u8>(&mut self, buf: u32, len: usize, ch: &mut DmaChannel<CH>) -> (r: Vec<RegOp>)
        requires
            CH < 16,
        ensures
            r@ == tcd_program(CH, peripheral_read_config(uart_reg::<UART>(UART_D), buf, TransferSize::Bits8, len as u16)) + seq![
                RegOp::Write { addr: chcfg_reg(CH), width: Width::W8, value: 0 },
                RegOp::Write { addr: chcfg_reg(CH), width: Width::W8, value: (UART::spec_rx_slot() as u32) | CHCFG_ENBL },
                RegOp::Modify { addr: uart_reg::<UART>(UART_C5), width: Width::W8, clear: 0, set: C5_RDMAS },
                RegOp::Modify { addr: uart_reg::<UART>(UART_C2), width: Width::W8, clear: 0, set: C2_RIE },
                RegOp::Write { addr: DMA_SERQ, width: Width::W8, value: CH as u32 },
            ],
    {
        let mut ops = ch.configure_peripheral_read(Self::data_dma_addr(), buf, TransferSize::Bits8, len as u16);
        let slot = UART::rx_slot();
        assert(slot & 0x3F == slot) by (bit_vector)
            requires
                slot < 64,
        ;
        let mut s = ch.set_source(DmaSource::new(slot));
        ops.append(&mut s);
        ops.push(RegOp::Modify { addr: reg::<UART>(UART_C5), width: Width::W8, clear: 0, set: C5_RDMAS });
        ops.push(RegOp::Modify { addr: reg::<UART>(UART_C2), width: Width::W8, clear: 0, set: C2_RIE });
        let mut e = ch.enable_request();
        ops.append(&mut e);
        ops
    }

    /// Release the UART: transmitter and receiver off.
    pub fn release(self) -> (r: Vec<RegOp>)
        ensures
            r@ == seq![RegOp::Write { addr: uart_reg::<UART>(UART_C2), width: Width::W8, value: 0 }],
    {
        write_op(reg::<UART>(UART_C2), Width::W8, 0)
    }
}

// ----- Interrupt handling -----

/// What the receive/transmit interrupt handler decided.
#[derive(Clone, Copy, Debug, PartialEq, Eq, Structural)]
pub struct UartWake {
    /// Wake the task waiting to receive.
    pub rx: bool,
    /// Wake the task waiting to transmit or flush.
    pub tx: bool,
}

/// The interrupt handler's program, given S1: TIE off when the transmit
/// buffer is empty, TCIE off when transmission is complete.
pub open spec fn isr_program<UART: UartInstance>(s1: u8) -> Seq<RegOp> {
    (if s1 & S1_TDRE != 0 { seq![RegOp::Modify { addr: uart_reg::<UART>(UART_C2), width: Width::W8, clear: C2_TIE, set: 0 }] } else { Seq::empty() })
        + (if s1 & S1_TC != 0 { seq![RegOp::Modify { addr: uart_reg::<UART>(UART_C2), width: Width::W8, clear: C2_TCIE, set: 0 }] } else { Seq::empty() })
}

fn on_uart_rx_tx_interrupt<UART: UartInstance>(s1: u8) -> (r: (UartWake, Vec<RegOp>))
    ensures
        r.0.rx == (s1 & S1_RDRF != 0 || s1 & S1_OR != 0 || s1 & S1_FE != 0 || s1 & S1_NF != 0 || s1 & S1_PF != 0),
        r.0.tx == (s1 & S1_TDRE != 0 || s1 & S1_TC != 0),
        r.1@ == isr_program::<UART>(s1),
{
    let rx = s1 & S1_RDRF != 0 || s1 & S1_OR != 0 || s1 & S1_FE != 0 || s1 & S1_NF != 0 || s1 & S1_PF != 0;
    let mut ops: Vec<RegOp> = Vec::new();
    let mut tx = false;
    if s1 & S1_TDRE != 0 {
        ops.push(RegOp::Modify { addr: reg::<UART>(UART_C2), width: Width::W8, clear: C2_TIE, set: 0 });
        tx = true;
    }
    let ghost first = ops@;
    if s1 & S1_TC != 0 {
        ops.push(RegOp::Modify { addr: reg::<UART>(UART_C2), width: Width::W8, clear: C2_TCIE, set: 0 });
        tx = true;
    }
    assert(first + Seq::<RegOp>::empty() =~= first);
    (UartWake { rx, tx }, ops)
}

/// UART0 receive/transmit interrupt handler, given S1.
pub fn on_uart0_rx_tx_interrupt(s1: u8) -> (r: (UartWake, Vec<RegOp>))
    ensures
        r.0.rx == (s1 & S1_RDRF != 0 || s1 & S1_OR != 0 || s1 & S1_FE != 0 || s1 & S1_NF != 0 || s1 & S1_PF != 0),
        r.0.tx == (s1 & S1_TDRE != 0 || s1 & S1_TC != 0),
        r.1@ == isr_program::<Uart0>(s1),
{
    on_uart_rx_tx_interrupt::<Uart0>(s1)
}

/// UART1 receive/transmit interrupt handler, given S1.
pub fn on_uart1_rx_tx_interrupt(s1: u8) -> (r: (UartWake, Vec<RegOp>))
    ensures
        r.0.rx == (s1 & S1_RDRF != 0 || s1 & S1_OR != 0 || s1 & S1_FE != 0 || s1 & S1_NF != 0 || s1 & S1_PF != 0),
        r.0.tx == (s1 & S1_TDRE != 0 || s1 & S1_TC != 0),
        r.1@ == isr_program::<Uart1>(s1),
{
    on_uart_rx_tx_interrupt::<Uart1>(s1)
}

/// UART2 receive/transmit interrupt handler, given S1.
pub fn on_uart2_rx_tx_interrupt(s1: u8) -> (r: (UartWake, Vec<RegOp>))
    ensures
        r.0.rx == (s1 & S1_RDRF != 0 || s1 & S1_OR != 0 || s1 & S1_FE != 0 || s1 & S1_NF != 0 || s1 & S1_PF != 0),
        r.0.tx == (s1 & S1_TDRE != 0 || s1 & S1_TC != 0),
        r.1@ == isr_program::<Uart2>(s1),
{
    on_uart_rx_tx_interrupt::<Uart2>(s1)
}

/// A receive error always takes precedence over received data, and the
/// error reported is the first set of overrun, framing, noise and parity.
pub proof fn lemma_error_precedence(s1: u8)
    ensures
        s1 & S1_OR != 0 ==> s1_error(s1) == Some(Error::Overrun),
        s1_error(s1) is None <==> (s1 & S1_OR == 0 && s1 & S1_FE == 0 && s1 & S1_NF == 0 && s1 & S1_PF == 0),
{
}

} // verus!
