//! eDMA engine with DMAMUX request routing (16 channels on the MK20DX256).
//!
//! Each channel's Transfer Control Descriptor (TCD) is written as a register
//! program; status registers are decoded from the values the platform layer
//! reads.

use vstd::prelude::*;

use crate::regs::{RegOp, Width, write_op, modify_op};

verus! {

/// Number of eDMA channels.
pub const NUM_CHANNELS: u8 = 16;

/// eDMA and DMAMUX register addresses.
pub const DMA_BASE: u32 = 0x4000_8000;
pub const DMA_CR: u32 = 0x4000_8000;
pub const DMA_ES: u32 = 0x4000_8004;
pub const DMA_ERR: u32 = 0x4000_802C;
pub const DMA_CEEI: u32 = 0x4000_8018;
pub const DMA_SEEI: u32 = 0x4000_8019;
pub const DMA_CERQ: u32 = 0x4000_801A;
pub const DMA_SERQ: u32 = 0x4000_801B;
pub const DMA_CDNE: u32 = 0x4000_801C;
pub const DMA_SSRT: u32 = 0x4000_801D;
pub const DMA_CERR: u32 = 0x4000_801E;
pub const DMA_CINT: u32 = 0x4000_801F;
pub const DMA_DCHPRI_BASE: u32 = 0x4000_8100;
pub const DMA_TCD_BASE: u32 = 0x4000_9000;
pub const DMAMUX_CHCFG_BASE: u32 = 0x4002_1000;
pub const SIM_SCGC6: u32 = 0x4004_803C;
pub const SIM_SCGC7: u32 = 0x4004_8040;

/// TCD register offsets.
pub const TCD_SADDR: u32 = 0x00;
pub const TCD_SOFF: u32 = 0x04;
pub const TCD_ATTR: u32 = 0x06;
pub const TCD_NBYTES: u32 = 0x08;
pub const TCD_SLAST: u32 = 0x0C;
pub const TCD_DADDR: u32 = 0x10;
pub const TCD_DOFF: u32 = 0x14;
pub const TCD_CITER: u32 = 0x16;
pub const TCD_DLASTSGA: u32 = 0x18;
pub const TCD_CSR: u32 = 0x1C;
pub const TCD_BITER: u32 = 0x1E;

/// TCD CSR bits.
pub const CSR_INTMAJOR: u32 = 0x02;
pub const CSR_DREQ: u32 = 0x08;
pub const CSR_ACTIVE: u32 = 0x40;
pub const CSR_DONE: u32 = 0x80;

/// DMAMUX CHCFG enable bit.
pub const CHCFG_ENBL: u32 = 0x80;

/// Address of a TCD register of channel `ch`.
pub open spec fn tcd_reg(ch: u8, off: u32) -> u32 {
    (DMA_TCD_BASE + 32 * ch + off) as u32
}

/// Address of channel `ch`'s DMAMUX configuration register.
pub open spec fn chcfg_reg(ch: u8) -> u32 {
    (DMAMUX_CHCFG_BASE + ch) as u32
}

/// Priority register index of channel `ch`: the DCHPRI registers are
/// byte-swapped within each 32-bit group.
pub open spec fn dchpri_slot(ch: u8) -> u8 {
    ch ^ 3
}

fn dchpri_index(ch: u8) -> (r: u8)
    requires
        ch < 16,
    ensures
        r == dchpri_slot(ch),
        r < 16,
{
    assert(ch ^ 3 < 16) by (bit_vector)
        requires
            ch < 16,
    ;
    ch ^ 3
}

/// The priority registers are a permutation of the channels: swapping a
/// channel's index twice gives the channel back, and distinct channels get
/// distinct registers.
pub proof fn lemma_dchpri_slot_bijective(a: u8, b: u8)
    requires
        a < 16,
        b < 16,
    ensures
        dchpri_slot(a) < 16,
        dchpri_slot(dchpri_slot(a)) == a,
        a != b ==> dchpri_slot(a) != dchpri_slot(b),
{
    assert((a ^ 3) < 16 && (a ^ 3) ^ 3 == a && (a != b ==> (a ^ 3) != (b ^ 3))) by (bit_vector)
        requires
            a < 16,
            b < 16,
    ;
}

fn tcd(ch: u8, off: u32) -> (r: u32)
    requires
        ch < 16,
        off < 32,
    ensures
        r == tcd_reg(ch, off),
{
    DMA_TCD_BASE + 32 * (ch as u32) + off
}

// ----- Transfer size -----

/// Transfer data size (the TCD ATTR SSIZE/DSIZE encoding).
#[derive(Clone, Copy, Debug, PartialEq, Eq, Structural)]
pub enum TransferSize {
    Bits8,
    Bits16,
    Bits32,
    Burst16,
}

/// Bytes per transfer unit.
pub open spec fn size_bytes(s: TransferSize) -> u32 {
    match s {
        TransferSize::Bits8 => 1,
        TransferSize::Bits16 => 2,
        TransferSize::Bits32 => 4,
        TransferSize::Burst16 => 16,
    }
}

/// ATTR field encoding of a transfer size.
pub open spec fn size_code(s: TransferSize) -> u32 {
    match s {
        TransferSize::Bits8 => 0,
        TransferSize::Bits16 => 1,
        TransferSize::Bits32 => 2,
        TransferSize::Burst16 => 4,
    }
}

impl TransferSize {
    /// Number of bytes per transfer unit.
    pub fn bytes(self) -> (r: u32)
        ensures
            r == size_bytes(self),
    {
        match self {
            TransferSize::Bits8 => 1,
            TransferSize::Bits16 => 2,
            TransferSize::Bits32 => 4,
            TransferSize::Burst16 => 16,
        }
    }

    fn code(self) -> (r: u32)
        ensures
            r == size_code(self),
            r < 8,
    {
        match self {
            TransferSize::Bits8 => 0,
            TransferSize::Bits16 => 1,
            TransferSize::Bits32 => 2,
            TransferSize::Burst16 => 4,
        }
    }
}

// ----- Transfer configuration -----

/// A complete transfer description (one TCD).
#[derive(Clone, Copy)]
pub struct TransferConfig {
    /// Source address (aligned to `source_size`).
    pub source_addr: u32,
    /// Destination address (aligned to `dest_size`).
    pub dest_addr: u32,
    pub source_size: TransferSize,
    pub dest_size: TransferSize,
    /// Signed offset added to the source address after each read.
    pub source_offset: i16,
    /// Signed offset added to the destination address after each write.
    pub dest_offset: i16,
    /// Bytes per activation (minor loop).
    pub minor_loop_bytes: u32,
    /// Minor loops per major loop (at least 1).
    pub major_loop_count: u16,
    /// Source address adjustment after the major loop.
    pub source_last_adjust: i32,
    /// Destination address adjustment after the major loop.
    pub dest_last_adjust: i32,
}

/// The program that writes channel `ch`'s TCD for `c`: every TCD register,
/// CITER and BITER with channel linking off, and CSR with DREQ so the
/// hardware request turns itself off when the major loop completes.
pub open spec fn tcd_program(ch: u8, c: TransferConfig) -> Seq<RegOp> {
    seq![
        RegOp::Write { addr: tcd_reg(ch, TCD_SADDR), width: Width::W32, value: c.source_addr },
        RegOp::Write { addr: tcd_reg(ch, TCD_SOFF), width: Width::W16, value: c.source_offset as u16 as u32 },
        RegOp::Write { addr: tcd_reg(ch, TCD_ATTR), width: Width::W16, value: (size_code(c.source_size) << 8u32) | size_code(c.dest_size) },
        RegOp::Write { addr: tcd_reg(ch, TCD_NBYTES), width: Width::W32, value: c.minor_loop_bytes },
        RegOp::Write { addr: tcd_reg(ch, TCD_SLAST), width: Width::W32, value: c.source_last_adjust as u32 },
        RegOp::Write { addr: tcd_reg(ch, TCD_DADDR), width: Width::W32, value: c.dest_addr },
        RegOp::Write { addr: tcd_reg(ch, TCD_DOFF), width: Width::W16, value: c.dest_offset as u16 as u32 },
        RegOp::Write { addr: tcd_reg(ch, TCD_CITER), width: Width::W16, value: (c.major_loop_count & 0x7FFF) as u32 },
        RegOp::Write { addr: tcd_reg(ch, TCD_DLASTSGA), width: Width::W32, value: c.dest_last_adjust as u32 },
        RegOp::Write { addr: tcd_reg(ch, TCD_CSR), width: Width::W16, value: CSR_DREQ },
        RegOp::Write { addr: tcd_reg(ch, TCD_BITER), width: Width::W16, value: (c.major_loop_count & 0x7FFF) as u32 },
    ]
}

// ----- DMAMUX sources -----

/// A DMAMUX request source (slot 0-63).
#[derive(Clone, Copy, Debug, PartialEq, Eq, Structural)]
pub struct DmaSource(u8);

impl DmaSource {
    /// The source with slot number `slot`, masked to 6 bits.
    pub fn new(slot: u8) -> (r: Self)
        ensures
            r.spec_slot() == slot & 0x3F,
    {
        DmaSource(slot & 0x3F)
    }

    /// The slot number.
    pub fn slot(self) -> (r: u8)
        ensures
            r == self.spec_slot(),
    {
        self.0
    }

    /// The slot number, in specifications.
    pub closed spec fn spec_slot(self) -> u8 {
        self.0
    }

    // Slot numbers of the request sources; `DmaSource::new(DmaSource::UART0_RX)`
    // routes UART0 receive.

    pub const DISABLED: u8 = 0;
    pub const UART0_RX: u8 = 2;
    pub const UART0_TX: u8 = 3;
    pub const UART1_RX: u8 = 4;
    pub const UART1_TX: u8 = 5;
    pub const UART2_RX: u8 = 6;
    pub const UART2_TX: u8 = 7;
    pub const I2S0_RX: u8 = 14;
    pub const I2S0_TX: u8 = 15;
    pub const SPI0_RX: u8 = 16;
    pub const SPI0_TX: u8 = 17;
    pub const SPI1_RX: u8 = 18;
    pub const SPI1_TX: u8 = 19;
    pub const I2C0: u8 = 22;
    pub const I2C1: u8 = 23;
    pub const FTM0_CH0: u8 = 24;
    pub const FTM0_CH1: u8 = 25;
    pub const FTM0_CH2: u8 = 26;
    pub const FTM0_CH3: u8 = 27;
    pub const FTM0_CH4: u8 = 28;
    pub const FTM0_CH5: u8 = 29;
    pub const FTM0_CH6: u8 = 30;
    pub const FTM0_CH7: u8 = 31;
    pub const FTM1_CH0: u8 = 32;
    pub const FTM1_CH1: u8 = 33;
    pub const FTM2_CH0: u8 = 34;
    pub const FTM2_CH1: u8 = 35;
    pub const ADC0: u8 = 40;
    pub const ADC1: u8 = 41;
    pub const CMP0: u8 = 42;
    pub const CMP1: u8 = 43;
    pub const CMP2: u8 = 44;
    pub const DAC0: u8 = 45;
    pub const CMT: u8 = 47;
    pub const PDB: u8 = 48;
    pub const PORT_A: u8 = 49;
    pub const PORT_B: u8 = 50;
    pub const PORT_C: u8 = 51;
    pub const PORT_D: u8 = 52;
    pub const PORT_E: u8 = 53;
    pub const ALWAYS_ON0: u8 = 54;
    pub const ALWAYS_ON1: u8 = 55;
    pub const ALWAYS_ON2: u8 = 56;
    pub const ALWAYS_ON3: u8 = 57;
    pub const ALWAYS_ON4: u8 = 58;
    pub const ALWAYS_ON5: u8 = 59;
    pub const ALWAYS_ON6: u8 = 60;
    pub const ALWAYS_ON7: u8 = 61;
    pub const ALWAYS_ON8: u8 = 62;
    pub const ALWAYS_ON9: u8 = 63;
}

// ----- Errors -----

/// Cause of a DMA error, as recorded in the ES register.
#[derive(Clone, Copy, Debug, PartialEq, Eq, Structural)]
pub enum DmaError {
    SourceAddressError,
    SourceOffsetError,
    DestAddressError,
    DestOffsetError,
    NbytesConfigError,
    ScatterGatherError,
    SourceBusError,
    DestBusError,
    Cancelled,
}

/// ES register bits.
pub const ES_DBE: u32 = 0x0000_0001;
pub const ES_SBE: u32 = 0x0000_0002;
pub const ES_SGE: u32 = 0x0000_0004;
pub const ES_NCE: u32 = 0x0000_0008;
pub const ES_DOE: u32 = 0x0000_0010;
pub const ES_DAE: u32 = 0x0000_0020;
pub const ES_SOE: u32 = 0x0000_0040;
pub const ES_SAE: u32 = 0x0000_0080;
pub const ES_ECX: u32 = 0x0001_0000;
pub const ES_VLD: u32 = 0x8000_0000;

/// The error that ES reports for channel `ch`: none unless VLD is set and
/// ERRCHN names the channel; otherwise the first set cause in the order
/// SAE, SOE, DAE, DOE, NCE, SGE, SBE, DBE, ECX.
pub open spec fn es_error(es: u32, ch: u8) -> Option<DmaError> {
    if es & ES_VLD == 0 || (es >> 8u32) & 0x0F != ch as u32 {
        None
    } else if es & ES_SAE != 0 {
        Some(DmaError::SourceAddressError)
    } else if es & ES_SOE != 0 {
        Some(DmaError::SourceOffsetError)
    } else if es & ES_DAE != 0 {
        Some(DmaError::DestAddressError)
    } else if es & ES_DOE != 0 {
        Some(DmaError::DestOffsetError)
    } else if es & ES_NCE != 0 {
        Some(DmaError::NbytesConfigError)
    } else if es & ES_SGE != 0 {
        Some(DmaError::ScatterGatherError)
    } else if es & ES_SBE != 0 {
        Some(DmaError::SourceBusError)
    } else if es & ES_DBE != 0 {
        Some(DmaError::DestBusError)
    } else if es & ES_ECX != 0 {
        Some(DmaError::Cancelled)
    } else {
        None
    }
}

// ----- Channels -----

/// One eDMA channel.
pub struct DmaChannel<const CH: u8>;

impl<const CH: u8> DmaChannel<CH> {
    /// Route DMAMUX source `source` to this channel: CHCFG is cleared first
    /// (the source may only change while the channel is disabled), then
    /// written with the source and ENBL.
    pub fn set_source(&mut self, source: DmaSource) -> (r: Vec<RegOp>)
        requires
            CH < 16,
        ensures
            r@ == seq![
                RegOp::Write { addr: chcfg_reg(CH), width: Width::W8, value: 0 },
                RegOp::Write { addr: chcfg_reg(CH), width: Width::W8, value: (source.spec_slot() as u32) | CHCFG_ENBL },
            ],
    {
        let a: u32 = DMAMUX_CHCFG_BASE + CH as u32;
        let mut ops = write_op(a, Width::W8, 0);
        ops.push(RegOp::Write { addr: a, width: Width::W8, value: (source.slot() as u32) | CHCFG_ENBL });
        ops
    }

    /// Disable this channel's DMAMUX source.
    pub fn disable_source(&mut self) -> (r: Vec<RegOp>)
        requires
            CH < 16,
        ensures
            r@ == seq![RegOp::Write { addr: chcfg_reg(CH), width: Width::W8, value: 0 }],
    {
        write_op(DMAMUX_CHCFG_BASE + CH as u32, Width::W8, 0)
    }

    /// Write this channel's TCD for `config` (see [`tcd_program`]).
    pub fn configure(&mut self, config: &TransferConfig) -> (r: Vec<RegOp>)
        requires
            CH < 16,
        ensures
            r@ == tcd_program(CH, *config),
    {
        let attr: u32 = (config.source_size.code() << 8u32) | config.dest_size.code();
        let iter: u32 = (config.major_loop_count & 0x7FFF) as u32;
        let mut ops = write_op(tcd(CH, TCD_SADDR), Width::W32, config.source_addr);
        ops.push(RegOp::Write { addr: tcd(CH, TCD_SOFF), width: Width::W16, value: config.source_offset as u16 as u32 });
        ops.push(RegOp::Write { addr: tcd(CH, TCD_ATTR), width: Width::W16, value: attr });
        ops.push(RegOp::Write { addr: tcd(CH, TCD_NBYTES), width: Width::W32, value: config.minor_loop_bytes });
        ops.push(RegOp::Write { addr: tcd(CH, TCD_SLAST), width: Width::W32, value: config.source_last_adjust as u32 });
        ops.push(RegOp::Write { addr: tcd(CH, TCD_DADDR), width: Width::W32, value: config.dest_addr });
        ops.push(RegOp::Write { addr: tcd(CH, TCD_DOFF), width: Width::W16, value: config.dest_offset as u16 as u32 });
        ops.push(RegOp::Write { addr: tcd(CH, TCD_CITER), width: Width::W16, value: iter });
        ops.push(RegOp::Write { addr: tcd(CH, TCD_DLASTSGA), width: Width::W32, value: config.dest_last_adjust as u32 });
        ops.push(RegOp::Write { addr: tcd(CH, TCD_CSR), width: Width::W16, value: CSR_DREQ });
        ops.push(RegOp::Write { addr: tcd(CH, TCD_BITER), width: Width::W16, value: iter });
        ops
    }

    /// Enable hardware requests (SERQ).
    pub fn enable_request(&mut self) -> (r: Vec<RegOp>)
        requires
            CH < 16,
        ensures
            r@ == seq![RegOp::Write { addr: DMA_SERQ, width: Width::W8, value: CH as u32 }],
    {
        write_op(DMA_SERQ, Width::W8, CH as u32)
    }

    /// Disable hardware requests (CERQ).
    pub fn disable_request(&mut self) -> (r: Vec<RegOp>)
        requires
            CH < 16,
        ensures
            r@ == seq![RegOp::Write { addr: DMA_CERQ, width: Width::W8, value: CH as u32 }],
    {
        write_op(DMA_CERQ, Width::W8, CH as u32)
    }

    /// Start one activation by software (SSRT).
    pub fn start(&mut self) -> (r: Vec<RegOp>)
        requires
            CH < 16,
        ensures
            r@ == seq![RegOp::Write { addr: DMA_SSRT, width: Width::W8, value: CH as u32 }],
    {
        write_op(DMA_SSRT, Width::W8, CH as u32)
    }

    /// Whether the major loop completed, given the TCD's CSR (DONE).
    pub fn is_complete(&self, csr: u32) -> (r: bool)
        ensures
            r == (csr & CSR_DONE != 0),
    {
        csr & CSR_DONE != 0
    }

    /// Whether this channel has an error, given ERR.
    pub fn has_error(&self, err: u32) -> (r: bool)
        requires
            CH < 16,
        ensures
            r == (err & (1u32 << CH) != 0),
    {
        err & (1u32 << CH) != 0
    }

    /// Whether this channel is transferring, given the TCD's CSR (ACTIVE).
    pub fn is_active(&self, csr: u32) -> (r: bool)
        ensures
            r == (csr & CSR_ACTIVE != 0),
    {
        csr & CSR_ACTIVE != 0
    }

    /// The error recorded for this channel, given ES (see [`es_error`]).
    pub fn error_status(&self, es: u32) -> (r: Option<DmaError>)
        requires
            CH < 16,
        ensures
            r == es_error(es, CH),
    {
        if es & ES_VLD == 0 {
            return None;
        }
        if (es >> 8u32) & 0x0F != CH as u32 {
            return None;
        }
        if es & ES_SAE != 0 {
            Some(DmaError::SourceAddressError)
        } else if es & ES_SOE != 0 {
            Some(DmaError::SourceOffsetError)
        } else if es & ES_DAE != 0 {
            Some(DmaError::DestAddressError)
        } else if es & ES_DOE != 0 {
            Some(DmaError::DestOffsetError)
        } else if es & ES_NCE != 0 {
            Some(DmaError::NbytesConfigError)
        } else if es & ES_SGE != 0 {
            Some(DmaError::ScatterGatherError)
        } else if es & ES_SBE != 0 {
            Some(DmaError::SourceBusError)
        } else if es & ES_DBE != 0 {
            Some(DmaError::DestBusError)
        } else if es & ES_ECX != 0 {
            Some(DmaError::Cancelled)
        } else {
            None
        }
    }

    /// Clear DONE (CDNE).
    pub fn clear_done(&mut self) -> (r: Vec<RegOp>)
        requires
            CH < 16,
        ensures
            r@ == seq![RegOp::Write { addr: DMA_CDNE, width: Width::W8, value: CH as u32 }],
    {
        write_op(DMA_CDNE, Width::W8, CH as u32)
    }

    /// Clear the interrupt request (CINT).
    pub fn clear_interrupt(&mut self) -> (r: Vec<RegOp>)
        requires
            CH < 16,
        ensures
            r@ == seq![RegOp::Write { addr: DMA_CINT, width: Width::W8, value: CH as u32 }],
    {
        write_op(DMA_CINT, Width::W8, CH as u32)
    }

    /// Clear the error flag (CERR).
    pub fn clear_error(&mut self) -> (r: Vec<RegOp>)
        requires
            CH < 16,
        ensures
            r@ == seq![RegOp::Write { addr: DMA_CERR, width: Width::W8, value: CH as u32 }],
    {
        write_op(DMA_CERR, Width::W8, CH as u32)
    }

    /// Interrupt on major loop completion (CSR.INTMAJOR).
    pub fn enable_interrupt(&mut self) -> (r: Vec<RegOp>)
        requires
            CH < 16,
        ensures
            r@ == seq![RegOp::Modify { addr: tcd_reg(CH, TCD_CSR), width: Width::W16, clear: CSR_INTMAJOR, set: CSR_INTMAJOR }],
    {
        modify_op(tcd(CH, TCD_CSR), Width::W16, CSR_INTMAJOR, CSR_INTMAJOR)
    }

    /// No interrupt on major loop completion.
    pub fn disable_interrupt(&mut self) -> (r: Vec<RegOp>)
        requires
            CH < 16,
        ensures
            r@ == seq![RegOp::Modify { addr: tcd_reg(CH, TCD_CSR), width: Width::W16, clear: CSR_INTMAJOR, set: 0 }],
    {
        modify_op(tcd(CH, TCD_CSR), Width::W16, CSR_INTMAJOR, 0)
    }

    /// Enable the error interrupt (SEEI).
    pub fn enable_error_interrupt(&mut self) -> (r: Vec<RegOp>)
        requires
            CH < 16,
        ensures
            r@ == seq![RegOp::Write { addr: DMA_SEEI, width: Width::W8, value: CH as u32 }],
    {
        write_op(DMA_SEEI, Width::W8, CH as u32)
    }

    /// Disable the error interrupt (CEEI).
    pub fn disable_error_interrupt(&mut self) -> (r: Vec<RegOp>)
        requires
            CH < 16,
        ensures
            r@ == seq![RegOp::Write { addr: DMA_CEEI, width: Width::W8, value: CH as u32 }],
    {
        write_op(DMA_CEEI, Width::W8, CH as u32)
    }

    /// Configure a memory-to-memory copy of `len` bytes from address `src`
    /// to address `dst` as a single major iteration: 32-bit units when both
    /// addresses and the length are multiples of 4, bytes otherwise; both
    /// addresses are moved back by `len` after the copy.
    pub fn configure_memcpy(&mut self, src: u32, dst: u32, len: u32) -> (r: Vec<RegOp>)
        requires
            CH < 16,
            len != 0x8000_0000,
        ensures
            r@ == tcd_program(CH, memcpy_config(src, dst, len)),
    {
        let (size, offset) = if src % 4 == 0 && dst % 4 == 0 && len % 4 == 0 {
            (TransferSize::Bits32, 4i16)
        } else {
            (TransferSize::Bits8, 1i16)
        };
        // -(len as i32) in two's complement: 2^32 - len, taken as i32.
        let neg: u32 = if len == 0 { 0 } else { u32::MAX - len + 1 };
        let back: i32 = neg as i32;
        let config = TransferConfig {
            source_addr: src,
            dest_addr: dst,
            source_size: size,
            dest_size: size,
            source_offset: offset,
            dest_offset: offset,
            minor_loop_bytes: len,
            major_loop_count: 1,
            source_last_adjust: back,
            dest_last_adjust: back,
        };
        self.configure(&config)
    }

    /// Configure a peripheral-to-memory transfer: `count` units of
    /// `transfer_size` read from the fixed address `periph_addr` into the
    /// buffer at `buffer`, one unit per request; the destination moves back
    /// to the buffer's start afterwards.
    pub fn configure_peripheral_read(&mut self, periph_addr: u32, buffer: u32, transfer_size: TransferSize, count: u16) -> (r: Vec<RegOp>)
        requires
            CH < 16,
        ensures
            r@ == tcd_program(CH, peripheral_read_config(periph_addr, buffer, transfer_size, count)),
    {
        let ts: u32 = transfer_size.bytes();
        let config = TransferConfig {
            source_addr: periph_addr,
            dest_addr: buffer,
            source_size: transfer_size,
            dest_size: transfer_size,
            source_offset: 0,
            dest_offset: ts as i16,
            minor_loop_bytes: ts,
            major_loop_count: count,
            source_last_adjust: 0,
            dest_last_adjust: -(count as i32 * ts as i32),
        };
        self.configure(&config)
    }

    /// Configure a memory-to-peripheral transfer: `count` units of
    /// `transfer_size` from the buffer at `buffer` written to the fixed
    /// address `periph_addr`; the source moves back afterwards.
    pub fn configure_peripheral_write(&mut self, buffer: u32, periph_addr: u32, transfer_size: TransferSize, count: u16) -> (r: Vec<RegOp>)
        requires
            CH < 16,
        ensures
            r@ == tcd_program(CH, peripheral_write_config(buffer, periph_addr, transfer_size, count)),
    {
        let ts: u32 = transfer_size.bytes();
        let config = TransferConfig {
            source_addr: buffer,
            dest_addr: periph_addr,
            source_size: transfer_size,
            dest_size: transfer_size,
            source_offset: ts as i16,
            dest_offset: 0,
            minor_loop_bytes: ts,
            major_loop_count: count,
            source_last_adjust: -(count as i32 * ts as i32),
            dest_last_adjust: 0,
        };
        self.configure(&config)
    }
}

/// The transfer that copies `len` bytes from `src` to `dst`.
pub open spec fn memcpy_config(src: u32, dst: u32, len: u32) -> TransferConfig {
    let aligned = src % 4 == 0 && dst % 4 == 0 && len % 4 == 0;
    let neg = (if len == 0 { 0 } else { 0x1_0000_0000 - len }) as u32;
    TransferConfig {
        source_addr: src,
        dest_addr: dst,
        source_size: if aligned { TransferSize::Bits32 } else { TransferSize::Bits8 },
        dest_size: if aligned { TransferSize::Bits32 } else { TransferSize::Bits8 },
        source_offset: if aligned { 4 } else { 1 },
        dest_offset: if aligned { 4 } else { 1 },
        minor_loop_bytes: len,
        major_loop_count: 1,
        source_last_adjust: neg as i32,
        dest_last_adjust: neg as i32,
    }
}

/// A copy moves whole transfer units: the unit (source and destination
/// alike) divides the length and both addresses, each address advances by
/// one unit per transfer, the one minor loop moves all `len` bytes, and
/// 32-bit units are used whenever the addresses and length allow them,
/// single bytes otherwise.
pub proof fn lemma_memcpy_whole_units(src: u32, dst: u32, len: u32)
    ensures
        ({
            let c = memcpy_config(src, dst, len);
            let u = size_bytes(c.source_size);
            &&& c.dest_size == c.source_size
            &&& u == 1 || u == 4
            &&& len % u == 0 && src % u == 0 && dst % u == 0
            &&& c.source_offset as int == u as int && c.dest_offset as int == u as int
            &&& c.minor_loop_bytes == len && c.major_loop_count == 1
            &&& c.source_addr == src && c.dest_addr == dst
            &&& (src % 4 == 0 && dst % 4 == 0 && len % 4 == 0) <==> u == 4
        }),
{
}

/// The transfer that reads `count` units from a peripheral into a buffer.
pub open spec fn peripheral_read_config(periph_addr: u32, buffer: u32, s: TransferSize, count: u16) -> TransferConfig {
    TransferConfig {
        source_addr: periph_addr,
        dest_addr: buffer,
        source_size: s,
        dest_size: s,
        source_offset: 0,
        dest_offset: size_bytes(s) as i16,
        minor_loop_bytes: size_bytes(s),
        major_loop_count: count,
        source_last_adjust: 0,
        dest_last_adjust: -(count * size_bytes(s)) as i32,
    }
}

/// The transfer that writes `count` units from a buffer to a peripheral.
pub open spec fn peripheral_write_config(buffer: u32, periph_addr: u32, s: TransferSize, count: u16) -> TransferConfig {
    TransferConfig {
        source_addr: buffer,
        dest_addr: periph_addr,
        source_size: s,
        dest_size: s,
        source_offset: size_bytes(s) as i16,
        dest_offset: 0,
        minor_loop_bytes: size_bytes(s),
        major_loop_count: count,
        source_last_adjust: -(count * size_bytes(s)) as i32,
        dest_last_adjust: 0,
    }
}

/// All sixteen channels, as handed out by [`DmaChannels::split`].
pub struct DmaChannels {
    pub ch0: DmaChannel<0>,
    pub ch1: DmaChannel<1>,
    pub ch2: DmaChannel<2>,
    pub ch3: DmaChannel<3>,
    pub ch4: DmaChannel<4>,
    pub ch5: DmaChannel<5>,
    pub ch6: DmaChannel<6>,
    pub ch7: DmaChannel<7>,
    pub ch8: DmaChannel<8>,
    pub ch9: DmaChannel<9>,
    pub ch10: DmaChannel<10>,
    pub ch11: DmaChannel<11>,
    pub ch12: DmaChannel<12>,
    pub ch13: DmaChannel<13>,
    pub ch14: DmaChannel<14>,
    pub ch15: DmaChannel<15>,
}

/// Priority writes: channel `k` gets priority `k`, preemptable (ECP), in
/// its byte-swapped DCHPRI register.
pub open spec fn priority_ops() -> Seq<RegOp> {
    Seq::new(16, |k: int| RegOp::Write { addr: (DMA_DCHPRI_BASE + dchpri_slot(k as u8)) as u32, width: Width::W8, value: (k as u32) | 0x80 })
}

/// DMAMUX writes that disable every channel's source.
pub open spec fn mux_off_ops() -> Seq<RegOp> {
    Seq::new(16, |k: int| RegOp::Write { addr: chcfg_reg(k as u8), width: Width::W8, value: 0 })
}

/// The program that brings up the eDMA engine: DMAMUX and DMA clock gates,
/// CR with EDBG (stall in debug) and fixed-priority arbitration, default
/// channel priorities, and every DMAMUX channel disabled.
pub open spec fn split_program() -> Seq<RegOp> {
    seq![
        RegOp::Modify { addr: SIM_SCGC6, width: Width::W32, clear: 0, set: 0x02 },
        RegOp::Modify { addr: SIM_SCGC7, width: Width::W32, clear: 0, set: 0x02 },
        RegOp::Write { addr: DMA_CR, width: Width::W32, value: 0x02 },
    ] + priority_ops() + mux_off_ops()
}

impl DmaChannels {
    /// Bring up the eDMA engine (see [`split_program`]) and hand out the
    /// channel handles.
    pub fn split() -> (r: (Self, Vec<RegOp>))
        ensures
            r.1@ == split_program(),
    {
        let mut ops = modify_op(SIM_SCGC6, Width::W32, 0, 0x02);
        ops.push(RegOp::Modify { addr: SIM_SCGC7, width: Width::W32, clear: 0, set: 0x02 });
        ops.push(RegOp::Write { addr: DMA_CR, width: Width::W32, value: 0x02 });
        let ghost p0 = ops@;
        let mut ch: u8 = 0;
        while ch < NUM_CHANNELS
            invariant
                ch <= 16,
                ops@ == p0 + priority_ops().take(ch as int),
            decreases 16 - ch,
        {
            let idx = dchpri_index(ch);
            ops.push(RegOp::Write { addr: DMA_DCHPRI_BASE + idx as u32, width: Width::W8, value: (ch as u32) | 0x80 });
            assert(priority_ops().take(ch as int + 1) == priority_ops().take(ch as int).push(priority_ops()[ch as int]));
            ch = ch + 1;
        }
        assert(priority_ops().take(16) == priority_ops());
        let ghost p1 = ops@;
        let mut ch: u8 = 0;
        while ch < NUM_CHANNELS
            invariant
                ch <= 16,
                ops@ == p1 + mux_off_ops().take(ch as int),
            decreases 16 - ch,
        {
            ops.push(RegOp::Write { addr: DMAMUX_CHCFG_BASE + ch as u32, width: Width::W8, value: 0 });
            assert(mux_off_ops().take(ch as int + 1) == mux_off_ops().take(ch as int).push(mux_off_ops()[ch as int]));
            ch = ch + 1;
        }
        assert(mux_off_ops().take(16) == mux_off_ops());
        let chans = DmaChannels {
            ch0: DmaChannel,
            ch1: DmaChannel,
            ch2: DmaChannel,
            ch3: DmaChannel,
            ch4: DmaChannel,
            ch5: DmaChannel,
            ch6: DmaChannel,
            ch7: DmaChannel,
            ch8: DmaChannel,
            ch9: DmaChannel,
            ch10: DmaChannel,
            ch11: DmaChannel,
            ch12: DmaChannel,
            ch13: DmaChannel,
            ch14: DmaChannel,
            ch15: DmaChannel,
        };
        (chans, ops)
    }
}

/// The eDMA and DMAMUX peripherals.
pub struct DmaPeripheral;

/// Taking the eDMA engine.
pub trait DmaExt {
    /// Bring the engine up and hand out the channels.
    fn split(self) -> (DmaChannels, Vec<RegOp>);
}

impl DmaExt for DmaPeripheral {
    fn split(self) -> (r: (DmaChannels, Vec<RegOp>))
        ensures
            r.1@ == split_program(),
    {
        DmaChannels::split()
    }
}

} // verus!
