//! Hardware CRC engine: programmable polynomial, seed, 16- or 32-bit width
//! and bit/byte transposition of written data and of the result.

use vstd::prelude::*;

use crate::regs::{RegOp, Width, write_op, modify_op};

verus! {

/// CRC and SIM register addresses.
pub const CRC_DATA: u32 = 0x4003_2000;
pub const CRC_GPOLY: u32 = 0x4003_2004;
pub const CRC_CTRL: u32 = 0x4003_2008;
pub const SIM_SCGC6: u32 = 0x4004_803C;
/// SIM_SCGC6 clock gate of the CRC engine.
pub const SCGC6_CRC: u32 = 0x0004_0000;

/// CTRL fields.
pub const CTRL_TCRC: u32 = 0x0100_0000;
pub const CTRL_WAS: u32 = 0x0200_0000;
pub const CTRL_FXOR: u32 = 0x0400_0000;

/// CRC width.
#[derive(Clone, Copy, Debug, PartialEq, Eq, Structural)]
pub enum CrcWidth {
    Bits16,
    Bits32,
}

/// Transposition of written data or of the read result.
#[derive(Clone, Copy, Debug, PartialEq, Eq, Structural)]
pub enum Transpose {
    /// No transposition.
    NoTranspose,
    /// Bits within each byte.
    BitsInBytes,
    /// Bits and bytes.
    BitsAndBytes,
    /// Bytes only.
    BytesOnly,
}

/// A CRC configuration.
#[derive(Clone, Copy, Debug)]
pub struct CrcConfig {
    pub polynomial: u32,
    pub seed: u32,
    pub width: CrcWidth,
    /// XOR the result with all ones.
    pub complement_result: bool,
    pub write_transpose: Transpose,
    pub read_transpose: Transpose,
}

impl CrcConfig {
    /// CRC-16-CCITT: polynomial 0x1021, seed 0xFFFF, no transposition.
    pub fn crc16_ccitt() -> (r: Self)
        ensures
            r.polynomial == 0x1021,
            r.seed == 0xFFFF,
            r.width == CrcWidth::Bits16,
            !r.complement_result,
            r.write_transpose == Transpose::NoTranspose,
            r.read_transpose == Transpose::NoTranspose,
    {
        CrcConfig {
            polynomial: 0x1021,
            seed: 0xFFFF,
            width: CrcWidth::Bits16,
            complement_result: false,
            write_transpose: Transpose::NoTranspose,
            read_transpose: Transpose::NoTranspose,
        }
    }

    /// CRC-32 (Ethernet, ZIP): polynomial 0x04C11DB7, seed 0xFFFFFFFF,
    /// bit-reversed input and output, complemented result.
    pub fn crc32() -> (r: Self)
        ensures
            r.polynomial == 0x04C1_1DB7,
            r.seed == 0xFFFF_FFFF,
            r.width == CrcWidth::Bits32,
            r.complement_result,
            r.write_transpose == Transpose::BitsInBytes,
            r.read_transpose == Transpose::BitsAndBytes,
    {
        CrcConfig {
            polynomial: 0x04C1_1DB7,
            seed: 0xFFFF_FFFF,
            width: CrcWidth::Bits32,
            complement_result: true,
            write_transpose: Transpose::BitsInBytes,
            read_transpose: Transpose::BitsAndBytes,
        }
    }
}

/// Two-bit code of a transposition.
pub open spec fn tot_code(t: Transpose) -> u32 {
    match t {
        Transpose::NoTranspose => 0,
        Transpose::BitsInBytes => 1,
        Transpose::BitsAndBytes => 2,
        Transpose::BytesOnly => 3,
    }
}

fn tot(t: Transpose) -> (r: u32)
    ensures
        r == tot_code(t),
{
    match t {
        Transpose::NoTranspose => 0,
        Transpose::BitsInBytes => 1,
        Transpose::BitsAndBytes => 2,
        Transpose::BytesOnly => 3,
    }
}

/// The CTRL value of a configuration, with WAS set so that the next write
/// to the data register loads the seed.
pub open spec fn ctrl_value(c: CrcConfig) -> u32 {
    (if c.width == CrcWidth::Bits32 { CTRL_TCRC } else { 0 })
        | (if c.complement_result { CTRL_FXOR } else { 0 })
        | (tot_code(c.write_transpose) << 30u32)
        | (tot_code(c.read_transpose) << 28u32)
        | CTRL_WAS
}

/// A 32-bit value written as its two 16-bit halves.
pub open spec fn halves(x: u32) -> u32 {
    (x as u16 as u32) | (((x >> 16u32) as u16 as u32) << 16u32)
}

/// A 32-bit value written or read as its four bytes.
pub open spec fn bytes4(x: u32) -> u32 {
    ((((x >> 24u32) as u8 as u32) << 24u32) | (((x >> 16u32) as u8 as u32) << 16u32))
        | ((((x >> 8u32) as u8 as u32) << 8u32) | (x as u8 as u32))
}

/// Splitting a word into halves or bytes and putting it back together
/// gives the word.
pub proof fn lemma_split_join(x: u32)
    ensures
        halves(x) == x,
        bytes4(x) == x,
{
    assert((x & 0xFFFF) | (((x >> 16u32) & 0xFFFF) << 16u32) == x) by (bit_vector);
    assert(((((x >> 24u32) & 0xFF) << 24u32) | (((x >> 16u32) & 0xFF) << 16u32)) | ((((x >> 8u32) & 0xFF) << 8u32) | (x & 0xFF)) == x) by (bit_vector);
    assert(x as u16 as u32 == x & 0xFFFF) by (bit_vector);
    assert((x >> 16u32) as u16 as u32 == (x >> 16u32) & 0xFFFF) by (bit_vector);
    assert(x as u8 as u32 == x & 0xFF && (x >> 8u32) as u8 as u32 == (x >> 8u32) & 0xFF && (x >> 16u32) as u8 as u32 == (x >> 16u32) & 0xFF
        && (x >> 24u32) as u8 as u32 == (x >> 24u32) & 0xFF) by (bit_vector);
}

/// The program that loads a seed: WAS on, the seed written, WAS off.
pub open spec fn seed_program(seed: u32) -> Seq<RegOp> {
    seq![
        RegOp::Modify { addr: CRC_CTRL, width: Width::W32, clear: 0, set: CTRL_WAS },
        RegOp::Write { addr: CRC_DATA, width: Width::W32, value: seed },
        RegOp::Modify { addr: CRC_CTRL, width: Width::W32, clear: CTRL_WAS, set: 0 },
    ]
}

/// The program that configures the engine: CTRL (with WAS), the polynomial,
/// the seed, then WAS off so that further writes are data.
pub open spec fn configure_program(c: CrcConfig) -> Seq<RegOp> {
    seq![
        RegOp::Write { addr: CRC_CTRL, width: Width::W32, value: ctrl_value(c) },
        RegOp::Write { addr: CRC_GPOLY, width: Width::W32, value: c.polynomial },
        RegOp::Write { addr: CRC_DATA, width: Width::W32, value: c.seed },
        RegOp::Modify { addr: CRC_CTRL, width: Width::W32, clear: CTRL_WAS, set: 0 },
    ]
}

/// The program that feeds `data`, one byte write to the low data byte each.
pub open spec fn feed_program(data: Seq<u8>) -> Seq<RegOp> {
    Seq::new(data.len(), |i: int| RegOp::Write { addr: CRC_DATA, width: Width::W8, value: data[i] as u32 })
}

/// Hardware CRC engine driver.
pub struct Crc {
    _private: (),
}

impl Crc {
    /// Enable the CRC clock gate.
    pub fn new() -> (r: (Self, Vec<RegOp>))
        ensures
            r.1@ == seq![RegOp::Modify { addr: SIM_SCGC6, width: Width::W32, clear: 0, set: SCGC6_CRC }],
    {
        (Crc { _private: () }, modify_op(SIM_SCGC6, Width::W32, 0, SCGC6_CRC))
    }

    /// Configure the engine (see [`configure_program`]); afterwards it
    /// accepts data.
    pub fn configure(&mut self, config: CrcConfig) -> (r: Vec<RegOp>)
        ensures
            r@ == configure_program(config),
    {
        let ctrl: u32 = (if config.width == CrcWidth::Bits32 { CTRL_TCRC } else { 0 })
            | (if config.complement_result { CTRL_FXOR } else { 0 })
            | (tot(config.write_transpose) << 30u32)
            | (tot(config.read_transpose) << 28u32)
            | CTRL_WAS;
        let poly: u32 = (config.polynomial as u16 as u32) | (((config.polynomial >> 16u32) as u16 as u32) << 16u32);
        let seed: u32 = ((((config.seed >> 24u32) as u8 as u32) << 24u32) | (((config.seed >> 16u32) as u8 as u32) << 16u32))
            | ((((config.seed >> 8u32) as u8 as u32) << 8u32) | (config.seed as u8 as u32));
        proof {
            lemma_split_join(config.polynomial);
            lemma_split_join(config.seed);
        }
        let mut ops = write_op(CRC_CTRL, Width::W32, ctrl);
        ops.push(RegOp::Write { addr: CRC_GPOLY, width: Width::W32, value: poly });
        ops.push(RegOp::Write { addr: CRC_DATA, width: Width::W32, value: seed });
        ops.push(RegOp::Modify { addr: CRC_CTRL, width: Width::W32, clear: CTRL_WAS, set: 0 });
        ops
    }

    /// Feed data bytes (see [`feed_program`]).
    pub fn feed(&mut self, data: &[u8]) -> (r: Vec<RegOp>)
        ensures
            r@ == feed_program(data@),
    {
        let mut ops: Vec<RegOp> = Vec::new();
        let mut i: usize = 0;
        while i < data.len()
            invariant
                i <= data.len(),
                ops@ == feed_program(data@).take(i as int),
            decreases data.len() - i,
        {
            ops.push(RegOp::Write { addr: CRC_DATA, width: Width::W8, value: data[i] as u32 });
            assert(feed_program(data@).take(i as int + 1) == feed_program(data@).take(i as int).push(feed_program(data@)[i as int]));
            i = i + 1;
        }
        assert(feed_program(data@).take(data@.len() as int) == feed_program(data@));
        ops
    }

    /// The CRC result, given the data register read as four bytes.
    pub fn result(&self, crc: u32) -> (r: u32)
        ensures
            r == crc,
    {
        proof {
            lemma_split_join(crc);
        }
        ((((crc >> 24u32) as u8 as u32) << 24u32) | (((crc >> 16u32) as u8 as u32) << 16u32))
            | ((((crc >> 8u32) as u8 as u32) << 8u32) | (crc as u8 as u32))
    }

    /// The 16-bit result (the low half), given the data register.
    pub fn result_u16(&self, crc: u32) -> (r: u16)
        ensures
            r == crc as u16,
    {
        self.result(crc) as u16
    }

    /// Reload the seed (see [`seed_program`]).
    pub fn reset(&mut self, seed: u32) -> (r: Vec<RegOp>)
        ensures
            r@ == seed_program(seed),
    {
        let s: u32 = ((((seed >> 24u32) as u8 as u32) << 24u32) | (((seed >> 16u32) as u8 as u32) << 16u32))
            | ((((seed >> 8u32) as u8 as u32) << 8u32) | (seed as u8 as u32));
        proof {
            lemma_split_join(seed);
        }
        let mut ops = modify_op(CRC_CTRL, Width::W32, 0, CTRL_WAS);
        ops.push(RegOp::Write { addr: CRC_DATA, width: Width::W32, value: s });
        ops.push(RegOp::Modify { addr: CRC_CTRL, width: Width::W32, clear: CTRL_WAS, set: 0 });
        ops
    }
}

/// The CRC peripheral.
pub struct CrcPeripheral;

/// Taking the CRC engine.
pub trait CrcExt {
    /// Enable the CRC clock gate and return the driver.
    fn crc_engine(self) -> (Crc, Vec<RegOp>);
}

impl CrcExt for CrcPeripheral {
    fn crc_engine(self) -> (r: (Crc, Vec<RegOp>))
        ensures
            r.1@ == seq![RegOp::Modify { addr: SIM_SCGC6, width: Width::W32, clear: 0, set: SCGC6_CRC }],
    {
        Crc::new()
    }
}

} // verus!
