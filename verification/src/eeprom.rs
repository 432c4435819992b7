//! Emulated EEPROM (EEE) on FlexNVM and FlexRAM: byte reads and writes to
//! the FlexRAM window, partitioning, and the FlexRAM function switch.
//!
//! Partitioning is a one-time operation on a blank device; afterwards the
//! FlexRAM holds the EEPROM contents and every write to it is backed up to
//! FlexNVM by the hardware.

use vstd::prelude::*;

use crate::regs::{RegOp, Width};
use crate::flash::{ccif_wait, launch_ops, FTFL_FSTAT, FTFL_FCCOB0, FTFL_FCCOB1, FTFL_FCCOB4, FTFL_FCCOB5, FSTAT_CCIF, FSTAT_ACCERR, FSTAT_FPVIOL, FSTAT_MGSTAT0};

verus! {

/// FlexRAM window base address.
pub const FLEXRAM_BASE: u32 = 0x1400_0000;
/// FlexRAM size in bytes.
pub const FLEXRAM_SIZE: u16 = 2048;
/// FCNFG bits: EEPROM ready, RAM ready.
pub const FCNFG_EEERDY: u8 = 0x01;
pub const FCNFG_RAMRDY: u8 = 0x02;
/// Command codes.
pub const CMD_SET_FLEXRAM: u32 = 0x81;
pub const CMD_PROGRAM_PARTITION: u32 = 0x80;

/// EEPROM operation error.
#[derive(Clone, Copy, Debug, PartialEq, Eq, Structural)]
pub enum EepromError {
    /// The EEPROM has not been partitioned (EEERDY clear).
    NotPartitioned,
    /// The EEPROM is not ready.
    NotReady,
    /// Outside the FlexRAM window.
    OutOfBounds,
    /// FSTAT.ACCERR.
    AccessError,
    /// FSTAT.FPVIOL.
    ProtectionViolation,
    /// FSTAT.MGSTAT0.
    CommandFailure,
}

/// EEPROM data set size.
#[derive(Clone, Copy, Debug, PartialEq, Eq, Structural)]
pub enum EepromSize {
    Bytes2048,
    Bytes1024,
    Bytes512,
    Bytes256,
    Bytes128,
    Bytes64,
    Bytes32,
    /// No EEPROM.
    NoEeprom,
}

/// EEESIZE code of a size.
pub open spec fn eeesize_code(s: EepromSize) -> u32 {
    match s {
        EepromSize::Bytes2048 => 0x03,
        EepromSize::Bytes1024 => 0x04,
        EepromSize::Bytes512 => 0x05,
        EepromSize::Bytes256 => 0x06,
        EepromSize::Bytes128 => 0x07,
        EepromSize::Bytes64 => 0x08,
        EepromSize::Bytes32 => 0x09,
        EepromSize::NoEeprom => 0x3F,
    }
}

/// Bytes of a size.
pub open spec fn size_bytes(s: EepromSize) -> u16 {
    match s {
        EepromSize::Bytes2048 => 2048,
        EepromSize::Bytes1024 => 1024,
        EepromSize::Bytes512 => 512,
        EepromSize::Bytes256 => 256,
        EepromSize::Bytes128 => 128,
        EepromSize::Bytes64 => 64,
        EepromSize::Bytes32 => 32,
        EepromSize::NoEeprom => 0,
    }
}

impl EepromSize {
    fn code(self) -> (r: u32)
        ensures
            r == eeesize_code(self),
    {
        match self {
            EepromSize::Bytes2048 => 0x03,
            EepromSize::Bytes1024 => 0x04,
            EepromSize::Bytes512 => 0x05,
            EepromSize::Bytes256 => 0x06,
            EepromSize::Bytes128 => 0x07,
            EepromSize::Bytes64 => 0x08,
            EepromSize::Bytes32 => 0x09,
            EepromSize::NoEeprom => 0x3F,
        }
    }

    /// Number of bytes.
    pub fn bytes(self) -> (r: u16)
        ensures
            r == size_bytes(self),
    {
        match self {
            EepromSize::Bytes2048 => 2048,
            EepromSize::Bytes1024 => 1024,
            EepromSize::Bytes512 => 512,
            EepromSize::Bytes256 => 256,
            EepromSize::Bytes128 => 128,
            EepromSize::Bytes64 => 64,
            EepromSize::Bytes32 => 32,
            EepromSize::NoEeprom => 0,
        }
    }
}

/// How the 32 KB FlexNVM is split between data flash and EEPROM backup.
#[derive(Clone, Copy, Debug, PartialEq, Eq, Structural)]
pub enum FlexNvmPartition {
    /// All 32 KB data flash, no EEPROM backup.
    DataFlash32K,
    /// 24 KB data flash, 8 KB backup.
    DataFlash24K,
    /// All 32 KB EEPROM backup.
    EeBackup32K,
}

/// DEPART code of a partition.
pub open spec fn depart_code(p: FlexNvmPartition) -> u32 {
    match p {
        FlexNvmPartition::DataFlash32K => 0x00,
        FlexNvmPartition::DataFlash24K => 0x08,
        FlexNvmPartition::EeBackup32K => 0x03,
    }
}

/// The program of the FlexRAM function command (EEPROM or plain RAM).
pub open spec fn flexram_program(eeprom: bool) -> Seq<RegOp> {
    seq![
        ccif_wait(),
        RegOp::Write { addr: FTFL_FCCOB0, width: Width::W8, value: CMD_SET_FLEXRAM },
        RegOp::Write { addr: FTFL_FCCOB1, width: Width::W8, value: if eeprom { 0x00 } else { 0xFF } },
    ] + launch_ops()
}

/// The program of the partition command.
pub open spec fn partition_program(size: EepromSize, part: FlexNvmPartition) -> Seq<RegOp> {
    seq![
        ccif_wait(),
        RegOp::Write { addr: FTFL_FCCOB0, width: Width::W8, value: CMD_PROGRAM_PARTITION },
        RegOp::Write { addr: FTFL_FCCOB1, width: Width::W8, value: 0x00 },
        RegOp::Write { addr: FTFL_FCCOB4, width: Width::W8, value: eeesize_code(size) },
        RegOp::Write { addr: FTFL_FCCOB5, width: Width::W8, value: depart_code(part) },
    ] + launch_ops()
}

/// The result a command's final FSTAT reports.
pub open spec fn eeprom_fstat_result(fstat: u8) -> Result<(), EepromError> {
    if fstat & FSTAT_FPVIOL != 0 {
        Err(EepromError::ProtectionViolation)
    } else if fstat & FSTAT_ACCERR != 0 {
        Err(EepromError::AccessError)
    } else if fstat & FSTAT_MGSTAT0 != 0 {
        Err(EepromError::CommandFailure)
    } else {
        Ok(())
    }
}

/// One poll while a write settles, given FCNFG and FSTAT: done when EEERDY
/// is set, failed on an access error or protection violation, still
/// waiting otherwise.
pub open spec fn eeerdy_poll(fcnfg: u8, fstat: u8) -> Option<Result<(), EepromError>> {
    if fcnfg & FCNFG_EEERDY != 0 {
        Some(Ok(()))
    } else if fstat & FSTAT_ACCERR != 0 {
        Some(Err(EepromError::AccessError))
    } else if fstat & FSTAT_FPVIOL != 0 {
        Some(Err(EepromError::ProtectionViolation))
    } else {
        None
    }
}

fn launch_push(ops: &mut Vec<RegOp>)
    ensures
        final(ops)@ == old(ops)@ + launch_ops(),
{
    ops.push(RegOp::Write { addr: FTFL_FSTAT, width: Width::W8, value: 0x30 });
    ops.push(RegOp::Write { addr: FTFL_FSTAT, width: Width::W8, value: 0x80 });
    ops.push(RegOp::WaitUntil { addr: FTFL_FSTAT, width: Width::W8, mask: FSTAT_CCIF as u32, value: FSTAT_CCIF as u32 });
}

/// Emulated EEPROM driver.
pub struct Eeprom {
    _ftfl: (),
}

impl Eeprom {
    /// The EEPROM shares the flash controller; nothing to set up.
    pub fn new() -> (r: Self) {
        Eeprom { _ftfl: () }
    }

    /// Whether the EEPROM is partitioned and ready, given FCNFG (EEERDY).
    pub fn is_eee_enabled(&self, fcnfg: u8) -> (r: bool)
        ensures
            r == (fcnfg & FCNFG_EEERDY != 0),
    {
        fcnfg & FCNFG_EEERDY != 0
    }

    /// Whether FlexRAM is plain RAM, given FCNFG (RAMRDY).
    pub fn is_ram_mode(&self, fcnfg: u8) -> (r: bool)
        ensures
            r == (fcnfg & FCNFG_RAMRDY != 0),
    {
        fcnfg & FCNFG_RAMRDY != 0
    }

    /// The FlexRAM address of the byte at `offset` (read it directly).
    pub fn read(&self, offset: u16) -> (r: u32)
        requires
            offset < FLEXRAM_SIZE,
        ensures
            r == FLEXRAM_BASE + offset,
    {
        FLEXRAM_BASE + offset as u32
    }

    /// The FlexRAM address of `len` bytes at `offset`, if the range lies in
    /// the window; `OutOfBounds` otherwise.
    pub fn read_slice(&self, offset: u16, len: usize) -> (r: Result<u32, EepromError>)
        ensures
            offset + len <= FLEXRAM_SIZE ==> r == Ok::<u32, EepromError>((FLEXRAM_BASE + offset) as u32),
            offset + len > FLEXRAM_SIZE ==> r == Err::<u32, EepromError>(EepromError::OutOfBounds),
    {
        if len > FLEXRAM_SIZE as usize || offset as usize + len > FLEXRAM_SIZE as usize {
            return Err(EepromError::OutOfBounds);
        }
        Ok(FLEXRAM_BASE + offset as u32)
    }

    /// Write one byte, given FCNFG: `NotPartitioned` unless EEERDY is set,
    /// `OutOfBounds` past the window; otherwise the byte store, after which
    /// the write settles as [`Eeprom::wait_step`] reports.
    pub fn write(&mut self, offset: u16, value: u8, fcnfg: u8) -> (r: Result<Vec<RegOp>, EepromError>)
        ensures
            fcnfg & FCNFG_EEERDY == 0 ==> r == Err::<Vec<RegOp>, EepromError>(EepromError::NotPartitioned),
            fcnfg & FCNFG_EEERDY != 0 && offset >= FLEXRAM_SIZE ==> r == Err::<Vec<RegOp>, EepromError>(EepromError::OutOfBounds),
            fcnfg & FCNFG_EEERDY != 0 && offset < FLEXRAM_SIZE ==> r is Ok
                && r->Ok_0@ == seq![RegOp::Write { addr: (FLEXRAM_BASE + offset) as u32, width: Width::W8, value: value as u32 }],
    {
        if !self.is_eee_enabled(fcnfg) {
            return Err(EepromError::NotPartitioned);
        }
        if offset >= FLEXRAM_SIZE {
            return Err(EepromError::OutOfBounds);
        }
        let mut ops: Vec<RegOp> = Vec::new();
        ops.push(RegOp::Write { addr: FLEXRAM_BASE + offset as u32, width: Width::W8, value: value as u32 });
        Ok(ops)
    }

    /// Write `data` at `offset`, given FCNFG: the checks of
    /// [`Eeprom::write`] for the whole range, then one byte store per byte,
    /// each to be followed by waiting with [`Eeprom::wait_step`].
    pub fn write_slice(&mut self, offset: u16, data: &[u8], fcnfg: u8) -> (r: Result<Vec<RegOp>, EepromError>)
        ensures
            fcnfg & FCNFG_EEERDY == 0 ==> r == Err::<Vec<RegOp>, EepromError>(EepromError::NotPartitioned),
            fcnfg & FCNFG_EEERDY != 0 && offset + data@.len() > FLEXRAM_SIZE ==> r == Err::<Vec<RegOp>, EepromError>(EepromError::OutOfBounds),
            fcnfg & FCNFG_EEERDY != 0 && offset + data@.len() <= FLEXRAM_SIZE ==> {
                &&& r is Ok
                &&& r->Ok_0@.len() == data@.len()
                &&& forall|i: int| 0 <= i < data@.len() ==> r->Ok_0@[i] == (RegOp::Write { addr: (FLEXRAM_BASE + offset + i) as u32, width: Width::W8, value: data@[i] as u32 })
            },
    {
        if !self.is_eee_enabled(fcnfg) {
            return Err(EepromError::NotPartitioned);
        }
        if data.len() > FLEXRAM_SIZE as usize || offset as usize + data.len() > FLEXRAM_SIZE as usize {
            return Err(EepromError::OutOfBounds);
        }
        let mut ops: Vec<RegOp> = Vec::new();
        let mut i: usize = 0;
        while i < data.len()
            invariant
                offset + data@.len() <= FLEXRAM_SIZE,
                i <= data@.len(),
                ops@.len() == i,
                forall|k: int| 0 <= k < i ==> ops@[k] == (RegOp::Write { addr: (FLEXRAM_BASE + offset + k) as u32, width: Width::W8, value: data@[k] as u32 }),
            decreases data.len() - i,
        {
            ops.push(RegOp::Write { addr: FLEXRAM_BASE + offset as u32 + i as u32, width: Width::W8, value: data[i] as u32 });
            i = i + 1;
        }
        Ok(ops)
    }

    /// One poll while a write settles, given FCNFG and FSTAT (see
    /// [`eeerdy_poll`]); `None` means poll again.
    pub fn wait_step(&self, fcnfg: u8, fstat: u8) -> (r: Option<Result<(), EepromError>>)
        ensures
            r == eeerdy_poll(fcnfg, fstat),
    {
        if fcnfg & FCNFG_EEERDY != 0 {
            Some(Ok(()))
        } else if fstat & FSTAT_ACCERR != 0 {
            Some(Err(EepromError::AccessError))
        } else if fstat & FSTAT_FPVIOL != 0 {
            Some(Err(EepromError::ProtectionViolation))
        } else {
            None
        }
    }

    /// Switch FlexRAM between EEPROM and plain RAM (see
    /// [`flexram_program`]); the result is [`Eeprom::check_errors`] of the
    /// final FSTAT.
    pub fn set_flexram_mode(&mut self, eeprom: bool) -> (r: Vec<RegOp>)
        ensures
            r@ == flexram_program(eeprom),
    {
        let mut ops: Vec<RegOp> = Vec::new();
        ops.push(RegOp::WaitUntil { addr: FTFL_FSTAT, width: Width::W8, mask: FSTAT_CCIF as u32, value: FSTAT_CCIF as u32 });
        ops.push(RegOp::Write { addr: FTFL_FCCOB0, width: Width::W8, value: CMD_SET_FLEXRAM });
        ops.push(RegOp::Write { addr: FTFL_FCCOB1, width: Width::W8, value: if eeprom { 0x00 } else { 0xFF } });
        launch_push(&mut ops);
        ops
    }

    /// Partition FlexNVM for the EEPROM (see [`partition_program`]). This
    /// is a one-time operation on a blank device.
    pub fn partition(&mut self, eeprom_size: EepromSize, partition: FlexNvmPartition) -> (r: Vec<RegOp>)
        ensures
            r@ == partition_program(eeprom_size, partition),
    {
        let depart: u32 = match partition {
            FlexNvmPartition::DataFlash32K => 0x00,
            FlexNvmPartition::DataFlash24K => 0x08,
            FlexNvmPartition::EeBackup32K => 0x03,
        };
        let mut ops: Vec<RegOp> = Vec::new();
        ops.push(RegOp::WaitUntil { addr: FTFL_FSTAT, width: Width::W8, mask: FSTAT_CCIF as u32, value: FSTAT_CCIF as u32 });
        ops.push(RegOp::Write { addr: FTFL_FCCOB0, width: Width::W8, value: CMD_PROGRAM_PARTITION });
        ops.push(RegOp::Write { addr: FTFL_FCCOB1, width: Width::W8, value: 0x00 });
        ops.push(RegOp::Write { addr: FTFL_FCCOB4, width: Width::W8, value: eeprom_size.code() });
        ops.push(RegOp::Write { addr: FTFL_FCCOB5, width: Width::W8, value: depart });
        launch_push(&mut ops);
        ops
    }

    /// The FlexRAM window size in bytes.
    pub fn capacity(&self) -> (r: usize)
        ensures
            r == FLEXRAM_SIZE,
    {
        FLEXRAM_SIZE as usize
    }

    /// The outcome of a command, given the FSTAT it ended with.
    pub fn check_errors(fstat: u8) -> (r: Result<(), EepromError>)
        ensures
            r == eeprom_fstat_result(fstat),
    {
        if fstat & FSTAT_FPVIOL != 0 {
            Err(EepromError::ProtectionViolation)
        } else if fstat & FSTAT_ACCERR != 0 {
            Err(EepromError::AccessError)
        } else if fstat & FSTAT_MGSTAT0 != 0 {
            Err(EepromError::CommandFailure)
        } else {
            Ok(())
        }
    }
}

} // verus!
