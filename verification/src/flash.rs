//! Program flash (FTFL): sector erase and longword programming, with the
//! protection and bounds checks done before any command is issued.
//!
//! A flash command is a register program: wait for CCIF, load the FCCOB
//! registers, clear the error flags, launch, and wait for CCIF again. The
//! platform layer runs it from RAM with interrupts masked and hands the
//! final FSTAT to [`Flash::check_errors`].

use vstd::prelude::*;

use crate::regs::{RegOp, Width};

verus! {

/// FTFL register addresses.
pub const FTFL_BASE: u32 = 0x4002_0000;
pub const FTFL_FSTAT: u32 = 0x4002_0000;
pub const FTFL_FCNFG: u32 = 0x4002_0001;
pub const FTFL_FSEC: u32 = 0x4002_0002;
/// The four FPROT bytes, in address order (FPROT3 first).
pub const FTFL_FPROT3: u32 = 0x4002_0010;
/// FCCOB registers: big-endian within each 4-byte group.
pub const FTFL_FCCOB0: u32 = 0x4002_0007;
pub const FTFL_FCCOB1: u32 = 0x4002_0006;
pub const FTFL_FCCOB2: u32 = 0x4002_0005;
pub const FTFL_FCCOB3: u32 = 0x4002_0004;
pub const FTFL_FCCOB4: u32 = 0x4002_000B;
pub const FTFL_FCCOB5: u32 = 0x4002_000A;
pub const FTFL_FCCOB6: u32 = 0x4002_0009;
pub const FTFL_FCCOB7: u32 = 0x4002_0008;

/// Flash sector (erase unit) size.
pub const SECTOR_SIZE: u32 = 2048;
/// Addresses below this (the vector table and the flash configuration
/// field) are never erased or programmed.
pub const SAFETY_FLOOR: u32 = 0x800;
/// Program flash size.
pub const FLASH_SIZE: u32 = 0x4_0000;
/// Size of one of the 32 protection regions.
pub const PROTECTION_REGION_SIZE: u32 = 0x2000;

/// Command codes.
pub const CMD_ERASE_SECTOR: u32 = 0x09;
pub const CMD_PROGRAM_LONGWORD: u32 = 0x06;

/// FSTAT bits.
pub const FSTAT_CCIF: u8 = 0x80;
pub const FSTAT_ACCERR: u8 = 0x20;
pub const FSTAT_FPVIOL: u8 = 0x10;
pub const FSTAT_MGSTAT0: u8 = 0x01;

/// Flash operation error.
#[derive(Clone, Copy, Debug, PartialEq, Eq, Structural)]
pub enum FlashError {
    /// Address or length not aligned to the operation's unit.
    NotAligned,
    /// Outside the flash.
    OutOfBounds,
    /// Below the safety floor or in a protected region.
    Protected,
    /// FSTAT.ACCERR after the command.
    AccessError,
    /// FSTAT.FPVIOL after the command.
    ProtectionViolation,
    /// FSTAT.MGSTAT0 after the command.
    CommandFailure,
}

/// Wait until no command is in progress.
pub open spec fn ccif_wait() -> RegOp {
    RegOp::WaitUntil { addr: FTFL_FSTAT, width: Width::W8, mask: FSTAT_CCIF as u32, value: FSTAT_CCIF as u32 }
}

/// Clear ACCERR and FPVIOL (write one to clear), launch (CCIF written
/// one), and wait for completion.
pub open spec fn launch_ops() -> Seq<RegOp> {
    seq![
        RegOp::Write { addr: FTFL_FSTAT, width: Width::W8, value: 0x30 },
        RegOp::Write { addr: FTFL_FSTAT, width: Width::W8, value: 0x80 },
        ccif_wait(),
    ]
}

/// The byte of a 24-bit flash address that FCCOB1..3 take.
pub open spec fn addr_byte(a: u32, shift: u32) -> u32 {
    (a >> shift) as u8 as u32
}

/// The program of a sector erase command for the sector at `aligned`.
pub open spec fn erase_program(aligned: u32) -> Seq<RegOp> {
    seq![
        ccif_wait(),
        RegOp::Write { addr: FTFL_FCCOB0, width: Width::W8, value: CMD_ERASE_SECTOR },
        RegOp::Write { addr: FTFL_FCCOB1, width: Width::W8, value: addr_byte(aligned, 16) },
        RegOp::Write { addr: FTFL_FCCOB2, width: Width::W8, value: addr_byte(aligned, 8) },
        RegOp::Write { addr: FTFL_FCCOB3, width: Width::W8, value: addr_byte(aligned, 0) },
    ] + launch_ops()
}

/// The program of a longword program command.
pub open spec fn program_longword_program(address: u32, data: Seq<u8>) -> Seq<RegOp> {
    seq![
        ccif_wait(),
        RegOp::Write { addr: FTFL_FCCOB0, width: Width::W8, value: CMD_PROGRAM_LONGWORD },
        RegOp::Write { addr: FTFL_FCCOB1, width: Width::W8, value: addr_byte(address, 16) },
        RegOp::Write { addr: FTFL_FCCOB2, width: Width::W8, value: addr_byte(address, 8) },
        RegOp::Write { addr: FTFL_FCCOB3, width: Width::W8, value: addr_byte(address, 0) },
        RegOp::Write { addr: FTFL_FCCOB4, width: Width::W8, value: data[0] as u32 },
        RegOp::Write { addr: FTFL_FCCOB5, width: Width::W8, value: data[1] as u32 },
        RegOp::Write { addr: FTFL_FCCOB6, width: Width::W8, value: data[2] as u32 },
        RegOp::Write { addr: FTFL_FCCOB7, width: Width::W8, value: data[3] as u32 },
    ] + launch_ops()
}

/// Whether `address` is protected, given the four FPROT bytes in address
/// order (`fprot[0]` is FPROT3, regions 0-7, up to `fprot[3]`, FPROT0,
/// regions 24-31): outside the flash counts as protected; inside, a clear
/// region bit means protected.
pub open spec fn protected(address: u32, fprot: Seq<u8>) -> bool {
    if address >= FLASH_SIZE {
        true
    } else {
        let region = address / PROTECTION_REGION_SIZE;
        fprot[(region / 8) as int] & (1u8 << ((region % 8) as u8)) == 0
    }
}

/// The result a command's final FSTAT reports: protection violation first,
/// then access error, then command failure.
pub open spec fn fstat_result(fstat: u8) -> Result<(), FlashError> {
    if fstat & FSTAT_FPVIOL != 0 {
        Err(FlashError::ProtectionViolation)
    } else if fstat & FSTAT_ACCERR != 0 {
        Err(FlashError::AccessError)
    } else if fstat & FSTAT_MGSTAT0 != 0 {
        Err(FlashError::CommandFailure)
    } else {
        Ok(())
    }
}

/// The checks of a sector erase at `address` (rounded down to its sector).
pub open spec fn erase_check(address: u32, fprot: Seq<u8>) -> Result<u32, FlashError> {
    let aligned = (address - address % SECTOR_SIZE) as u32;
    if aligned >= FLASH_SIZE {
        Err(FlashError::OutOfBounds)
    } else if aligned < SAFETY_FLOOR {
        Err(FlashError::Protected)
    } else if protected(aligned, fprot) {
        Err(FlashError::Protected)
    } else {
        Ok(aligned)
    }
}

/// The checks of a longword program at `address`.
pub open spec fn program_check(address: u32, fprot: Seq<u8>) -> Result<(), FlashError> {
    if address % 4 != 0 {
        Err(FlashError::NotAligned)
    } else if address + 4 > FLASH_SIZE {
        Err(FlashError::OutOfBounds)
    } else if address < SAFETY_FLOOR {
        Err(FlashError::Protected)
    } else if protected(address, fprot) {
        Err(FlashError::Protected)
    } else {
        Ok(())
    }
}

fn launch_push(ops: &mut Vec<RegOp>)
    ensures
        final(ops)@ == old(ops)@ + launch_ops(),
{
    ops.push(RegOp::Write { addr: FTFL_FSTAT, width: Width::W8, value: 0x30 });
    ops.push(RegOp::Write { addr: FTFL_FSTAT, width: Width::W8, value: 0x80 });
    ops.push(RegOp::WaitUntil { addr: FTFL_FSTAT, width: Width::W8, mask: FSTAT_CCIF as u32, value: FSTAT_CCIF as u32 });
}

/// Program flash driver.
pub struct Flash {
    _ftfl: (),
}

impl Flash {
    /// The flash controller needs no setup.
    pub fn new() -> (r: Self) {
        Flash { _ftfl: () }
    }

    /// Whether `address` is protected, given the FPROT bytes in address
    /// order (see [`protected`]).
    pub fn is_protected(&self, address: u32, fprot: &[u8; 4]) -> (r: bool)
        ensures
            r == protected(address, fprot@),
    {
        if address >= FLASH_SIZE {
            return true;
        }
        let region: u32 = address / PROTECTION_REGION_SIZE;
        let idx: usize = (region / 8) as usize;
        let b: u8 = (region % 8) as u8;
        fprot[idx] & (1u8 << b) == 0
    }

    /// The security byte, given FSEC.
    pub fn security_status(&self, fsec: u8) -> (r: u8)
        ensures
            r == fsec,
    {
        fsec
    }

    /// The outcome of a command, given the FSTAT it ended with.
    pub fn check_errors(fstat: u8) -> (r: Result<(), FlashError>)
        ensures
            r == fstat_result(fstat),
    {
        if fstat & FSTAT_FPVIOL != 0 {
            Err(FlashError::ProtectionViolation)
        } else if fstat & FSTAT_ACCERR != 0 {
            Err(FlashError::AccessError)
        } else if fstat & FSTAT_MGSTAT0 != 0 {
            Err(FlashError::CommandFailure)
        } else {
            Ok(())
        }
    }

    /// Erase the sector that holds `address`: the checks of
    /// [`erase_check`], then the command program for the sector's start.
    pub fn erase_sector(&mut self, address: u32, fprot: &[u8; 4]) -> (r: Result<Vec<RegOp>, FlashError>)
        ensures
            match erase_check(address, fprot@) {
                Ok(aligned) => r is Ok && r->Ok_0@ == erase_program(aligned),
                Err(e) => r == Err::<Vec<RegOp>, FlashError>(e),
            },
    {
        let aligned: u32 = address - address % SECTOR_SIZE;
        if aligned >= FLASH_SIZE {
            return Err(FlashError::OutOfBounds);
        }
        if aligned < SAFETY_FLOOR {
            return Err(FlashError::Protected);
        }
        if self.is_protected(aligned, fprot) {
            return Err(FlashError::Protected);
        }
        let mut ops: Vec<RegOp> = Vec::new();
        ops.push(RegOp::WaitUntil { addr: FTFL_FSTAT, width: Width::W8, mask: FSTAT_CCIF as u32, value: FSTAT_CCIF as u32 });
        ops.push(RegOp::Write { addr: FTFL_FCCOB0, width: Width::W8, value: CMD_ERASE_SECTOR });
        ops.push(RegOp::Write { addr: FTFL_FCCOB1, width: Width::W8, value: (aligned >> 16u32) as u8 as u32 });
        ops.push(RegOp::Write { addr: FTFL_FCCOB2, width: Width::W8, value: (aligned >> 8u32) as u8 as u32 });
        ops.push(RegOp::Write { addr: FTFL_FCCOB3, width: Width::W8, value: (aligned >> 0u32) as u8 as u32 });
        launch_push(&mut ops);
        Ok(ops)
    }

    /// Program the 4 bytes `data` at `address`: the checks of
    /// [`program_check`], then the command program.
    pub fn program_longword(&mut self, address: u32, data: &[u8; 4], fprot: &[u8; 4]) -> (r: Result<Vec<RegOp>, FlashError>)
        ensures
            match program_check(address, fprot@) {
                Ok(_) => r is Ok && r->Ok_0@ == program_longword_program(address, data@),
                Err(e) => r == Err::<Vec<RegOp>, FlashError>(e),
            },
    {
        if address % 4 != 0 {
            return Err(FlashError::NotAligned);
        }
        if address > FLASH_SIZE - 4 {
            return Err(FlashError::OutOfBounds);
        }
        if address < SAFETY_FLOOR {
            return Err(FlashError::Protected);
        }
        if self.is_protected(address, fprot) {
            return Err(FlashError::Protected);
        }
        let mut ops: Vec<RegOp> = Vec::new();
        ops.push(RegOp::WaitUntil { addr: FTFL_FSTAT, width: Width::W8, mask: FSTAT_CCIF as u32, value: FSTAT_CCIF as u32 });
        ops.push(RegOp::Write { addr: FTFL_FCCOB0, width: Width::W8, value: CMD_PROGRAM_LONGWORD });
        ops.push(RegOp::Write { addr: FTFL_FCCOB1, width: Width::W8, value: (address >> 16u32) as u8 as u32 });
        ops.push(RegOp::Write { addr: FTFL_FCCOB2, width: Width::W8, value: (address >> 8u32) as u8 as u32 });
        ops.push(RegOp::Write { addr: FTFL_FCCOB3, width: Width::W8, value: (address >> 0u32) as u8 as u32 });
        ops.push(RegOp::Write { addr: FTFL_FCCOB4, width: Width::W8, value: data[0] as u32 });
        ops.push(RegOp::Write { addr: FTFL_FCCOB5, width: Width::W8, value: data[1] as u32 });
        ops.push(RegOp::Write { addr: FTFL_FCCOB6, width: Width::W8, value: data[2] as u32 });
        ops.push(RegOp::Write { addr: FTFL_FCCOB7, width: Width::W8, value: data[3] as u32 });
        launch_push(&mut ops);
        Ok(ops)
    }

    /// The check of a read of `len` bytes at `offset`: the range must lie
    /// in the flash (which is memory-mapped from address 0).
    pub fn check_read(&self, offset: u32, len: usize) -> (r: Result<(), FlashError>)
        ensures
            r is Ok <==> offset + len <= FLASH_SIZE,
            r is Err ==> r == Err::<(), FlashError>(FlashError::OutOfBounds),
    {
        if len > FLASH_SIZE as usize {
            return Err(FlashError::OutOfBounds);
        }
        let end: u64 = offset as u64 + len as u64;
        if end > FLASH_SIZE as u64 {
            return Err(FlashError::OutOfBounds);
        }
        Ok(())
    }

    /// The flash size in bytes.
    pub fn capacity(&self) -> (r: usize)
        ensures
            r == FLASH_SIZE,
    {
        FLASH_SIZE as usize
    }

    /// The sectors an erase of `from..to` covers, after its checks: both
    /// ends sector-aligned, else `NotAligned`; `from <= to <= FLASH_SIZE`,
    /// else `OutOfBounds`. Each sector is then erased with
    /// [`Flash::erase_sector`], stopping at the first error.
    pub fn erase_plan(&self, from: u32, to: u32) -> (r: Result<Vec<u32>, FlashError>)
        ensures
            (from % SECTOR_SIZE != 0 || to % SECTOR_SIZE != 0) ==> r == Err::<Vec<u32>, FlashError>(FlashError::NotAligned),
            (from % SECTOR_SIZE == 0 && to % SECTOR_SIZE == 0 && (from > to || to > FLASH_SIZE)) ==> r == Err::<Vec<u32>, FlashError>(FlashError::OutOfBounds),
            (from % SECTOR_SIZE == 0 && to % SECTOR_SIZE == 0 && from <= to <= FLASH_SIZE) ==> {
                &&& r is Ok
                &&& r->Ok_0@.len() == (to - from) / SECTOR_SIZE as int
                &&& forall|i: int| 0 <= i < r->Ok_0@.len() ==> r->Ok_0@[i] == from + SECTOR_SIZE * i
            },
    {
        if from % SECTOR_SIZE != 0 || to % SECTOR_SIZE != 0 {
            return Err(FlashError::NotAligned);
        }
        if from > to || to > FLASH_SIZE {
            return Err(FlashError::OutOfBounds);
        }
        let mut sectors: Vec<u32> = Vec::new();
        let mut addr: u32 = from;
        while addr < to
            invariant
                from <= addr <= to <= FLASH_SIZE,
                addr % SECTOR_SIZE == 0,
                from % SECTOR_SIZE == 0,
                to % SECTOR_SIZE == 0,
                sectors@.len() == (addr - from) / SECTOR_SIZE as int,
                forall|i: int| 0 <= i < sectors@.len() ==> sectors@[i] == from + SECTOR_SIZE * i,
            decreases to - addr,
        {
            assert(addr + SECTOR_SIZE <= to) by (nonlinear_arith)
                requires
                    addr < to,
                    addr % 2048 == 0,
                    to % 2048 == 0,
            ;
            sectors.push(addr);
            addr = addr + SECTOR_SIZE;
        }
        Ok(sectors)
    }

    /// The longwords a write of `bytes` at `offset` programs, after its
    /// checks: offset and length multiples of 4, else `NotAligned`; the
    /// range inside the flash, else `OutOfBounds`. Each longword is then
    /// programmed with [`Flash::program_longword`], stopping at the first
    /// error.
    pub fn write_plan(&self, offset: u32, bytes: &[u8]) -> (r: Result<Vec<(u32, [u8; 4])>, FlashError>)
        ensures
            (offset % 4 != 0 || bytes@.len() % 4 != 0) ==> r == Err::<Vec<(u32, [u8; 4])>, FlashError>(FlashError::NotAligned),
            (offset % 4 == 0 && bytes@.len() % 4 == 0 && offset + bytes@.len() > FLASH_SIZE) ==> r == Err::<Vec<(u32, [u8; 4])>, FlashError>(FlashError::OutOfBounds),
            (offset % 4 == 0 && bytes@.len() % 4 == 0 && offset + bytes@.len() <= FLASH_SIZE) ==> {
                &&& r is Ok
                &&& r->Ok_0@.len() == bytes@.len() / 4
                &&& forall|i: int| #![trigger r->Ok_0@[i]] 0 <= i < r->Ok_0@.len() ==> {
                    &&& r->Ok_0@[i].0 == offset + 4 * i
                    &&& r->Ok_0@[i].1@ == bytes@.subrange(4 * i, 4 * i + 4)
                }
            },
    {
        if offset % 4 != 0 || bytes.len() % 4 != 0 {
            return Err(FlashError::NotAligned);
        }
        if bytes.len() > FLASH_SIZE as usize || offset as u64 + bytes.len() as u64 > FLASH_SIZE as u64 {
            return Err(FlashError::OutOfBounds);
        }
        let n: usize = bytes.len() / 4;
        let mut words: Vec<(u32, [u8; 4])> = Vec::new();
        let mut i: usize = 0;
        while i < n
            invariant
                n == bytes@.len() / 4,
                bytes@.len() % 4 == 0,
                offset + bytes@.len() <= FLASH_SIZE,
                i <= n,
                words@.len() == i,
                forall|k: int| #![trigger words@[k]] 0 <= k < i ==> {
                    &&& words@[k].0 == offset + 4 * k
                    &&& words@[k].1@ == bytes@.subrange(4 * k, 4 * k + 4)
                },
            decreases n - i,
        {
            let data: [u8; 4] = [bytes[4 * i], bytes[4 * i + 1], bytes[4 * i + 2], bytes[4 * i + 3]];
            assert(data@ =~= bytes@.subrange(4 * i as int, 4 * i as int + 4));
            words.push((offset + 4 * (i as u32), data));
            i = i + 1;
        }
        Ok(words)
    }
}

/// A sector erase or longword program is never issued below the safety
/// floor or in a protected region: whenever the checks pass, the target is
/// at or above the floor, inside the flash, and unprotected.
pub proof fn lemma_checks_guard_protected(address: u32, fprot: Seq<u8>)
    ensures
        erase_check(address, fprot) matches Ok(a) ==> a >= SAFETY_FLOOR && a < FLASH_SIZE && !protected(a, fprot) && a % SECTOR_SIZE == 0 && a <= address,
        program_check(address, fprot) is Ok ==> address >= SAFETY_FLOOR && address + 4 <= FLASH_SIZE && !protected(address, fprot) && address % 4 == 0,
{
}

/// The flash controller peripheral.
pub struct FtflPeripheral;

/// Taking the flash controller.
pub trait FlashExt {
    /// Return the flash driver.
    fn flash(self) -> Flash;
}

impl FlashExt for FtflPeripheral {
    fn flash(self) -> (r: Flash) {
        Flash::new()
    }
}

} // verus!
