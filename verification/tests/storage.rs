use std::collections::HashMap;

use mk20dx_hal::crc_module::{Crc, CrcConfig, CrcWidth, Transpose};
use mk20dx_hal::eeprom::{Eeprom, EepromError, EepromSize, FlexNvmPartition};
use mk20dx_hal::flash::{Flash, FlashError};
use mk20dx_hal::flash_config::flash_config;
use mk20dx_hal::regs::{RegOp, Width};

const OPEN: [u8; 4] = [0xFF, 0xFF, 0xFF, 0xFF];

#[test]
fn erase_sector_checks() {
    let mut f = Flash::new();
    assert_eq!(f.erase_sector(0x4_0000, &OPEN).unwrap_err(), FlashError::OutOfBounds);
    assert_eq!(f.erase_sector(0x7FF, &OPEN).unwrap_err(), FlashError::Protected);
    assert_eq!(f.erase_sector(0x1000, &[0xFE, 0xFF, 0xFF, 0xFF]).unwrap_err(), FlashError::Protected);
    let ops = f.erase_sector(0x1_2345, &OPEN).unwrap();
    assert_eq!(ops.len(), 8);
    assert_eq!(ops[1], RegOp::Write { addr: 0x4002_0007, width: Width::W8, value: 0x09 });
    assert_eq!(ops[2], RegOp::Write { addr: 0x4002_0006, width: Width::W8, value: 0x01 });
    assert_eq!(ops[3], RegOp::Write { addr: 0x4002_0005, width: Width::W8, value: 0x20 });
    assert_eq!(ops[4], RegOp::Write { addr: 0x4002_0004, width: Width::W8, value: 0x00 });
    assert_eq!(ops[6], RegOp::Write { addr: 0x4002_0000, width: Width::W8, value: 0x80 });
}

#[test]
fn program_longword_checks() {
    let mut f = Flash::new();
    let data = [1u8, 2, 3, 4];
    assert_eq!(f.program_longword(0x1002, &data, &OPEN).unwrap_err(), FlashError::NotAligned);
    assert_eq!(f.program_longword(0x4_0000, &data, &OPEN).unwrap_err(), FlashError::OutOfBounds);
    assert_eq!(f.program_longword(0x400, &data, &OPEN).unwrap_err(), FlashError::Protected);
    let ops = f.program_longword(0x3_FFFC, &data, &OPEN).unwrap();
    assert_eq!(ops[5], RegOp::Write { addr: 0x4002_000B, width: Width::W8, value: 1 });
    assert_eq!(ops[8], RegOp::Write { addr: 0x4002_0008, width: Width::W8, value: 4 });
}

#[test]
fn flash_protection_regions() {
    let f = Flash::new();
    // Region 9 (0x1_2000..0x1_4000) lives in the second FPROT byte, bit 1.
    assert!(f.is_protected(0x1_2000, &[0xFF, 0xFD, 0xFF, 0xFF]));
    assert!(!f.is_protected(0x1_2000, &[0x00, 0xFF, 0x00, 0x00]));
    assert!(f.is_protected(0x4_0000, &OPEN));
    assert_eq!(f.capacity(), 0x4_0000);
}

#[test]
fn flash_command_results() {
    assert_eq!(Flash::check_errors(0x80), Ok(()));
    assert_eq!(Flash::check_errors(0x90), Err(FlashError::ProtectionViolation));
    assert_eq!(Flash::check_errors(0xB0), Err(FlashError::ProtectionViolation));
    assert_eq!(Flash::check_errors(0xA0), Err(FlashError::AccessError));
    assert_eq!(Flash::check_errors(0x81), Err(FlashError::CommandFailure));
}

#[test]
fn flash_erase_and_write_plans() {
    let f = Flash::new();
    assert_eq!(f.erase_plan(0x800, 0x2000).unwrap(), vec![0x800, 0x1000, 0x1800]);
    assert_eq!(f.erase_plan(0x800, 0x800).unwrap(), Vec::<u32>::new());
    assert_eq!(f.erase_plan(0x801, 0x2000).unwrap_err(), FlashError::NotAligned);
    assert_eq!(f.erase_plan(0x2000, 0x800).unwrap_err(), FlashError::OutOfBounds);
    assert_eq!(f.erase_plan(0x800, 0x4_0800).unwrap_err(), FlashError::OutOfBounds);
    let plan = f.write_plan(0x1000, &[1, 2, 3, 4, 5, 6, 7, 8]).unwrap();
    assert_eq!(plan, vec![(0x1000, [1, 2, 3, 4]), (0x1004, [5, 6, 7, 8])]);
    assert_eq!(f.write_plan(0x1001, &[0; 4]).unwrap_err(), FlashError::NotAligned);
    assert_eq!(f.write_plan(0x1000, &[0; 3]).unwrap_err(), FlashError::NotAligned);
    assert_eq!(f.write_plan(0x3_FFFC, &[0; 8]).unwrap_err(), FlashError::OutOfBounds);
    assert_eq!(f.check_read(0x3_FFFF, 1), Ok(()));
    assert_eq!(f.check_read(0x3_FFFF, 2), Err(FlashError::OutOfBounds));
}

#[test]
fn flash_config_is_unsecured() {
    let c = flash_config();
    assert_eq!(c[12], 0xFE);
    assert_eq!(c[12] & 0x03, 0x02);
    assert!(c[8..12].iter().all(|&b| b == 0xFF));
}

#[test]
fn eeprom_write_checks() {
    let mut e = Eeprom::new();
    assert_eq!(e.write(0, 1, 0x00).unwrap_err(), EepromError::NotPartitioned);
    assert_eq!(e.write(2048, 1, 0x01).unwrap_err(), EepromError::OutOfBounds);
    assert_eq!(e.write(5, 0xAB, 0x01).unwrap(), vec![RegOp::Write { addr: 0x1400_0005, width: Width::W8, value: 0xAB }]);
    assert_eq!(e.write_slice(2046, &[1, 2, 3], 0x01).unwrap_err(), EepromError::OutOfBounds);
    let ops = e.write_slice(10, &[7, 8], 0x01).unwrap();
    assert_eq!(ops[1], RegOp::Write { addr: 0x1400_000B, width: Width::W8, value: 8 });
    assert_eq!(e.read_slice(2040, 8), Ok(0x1400_07F8));
    assert_eq!(e.read_slice(2040, 9), Err(EepromError::OutOfBounds));
    assert_eq!(e.read(7), 0x1400_0007);
}

#[test]
fn eeprom_wait_and_errors() {
    let e = Eeprom::new();
    assert_eq!(e.wait_step(0x01, 0x20), Some(Ok(())));
    assert_eq!(e.wait_step(0x00, 0x20), Some(Err(EepromError::AccessError)));
    assert_eq!(e.wait_step(0x00, 0x10), Some(Err(EepromError::ProtectionViolation)));
    assert_eq!(e.wait_step(0x00, 0x00), None);
    assert_eq!(Eeprom::check_errors(0x81), Err(EepromError::CommandFailure));
    assert_eq!(EepromSize::Bytes2048.bytes(), 2048);
    assert_eq!(EepromSize::NoEeprom.bytes(), 0);
}

#[test]
fn eeprom_partition_command() {
    let mut e = Eeprom::new();
    let ops = e.partition(EepromSize::Bytes2048, FlexNvmPartition::EeBackup32K);
    assert_eq!(ops[3], RegOp::Write { addr: 0x4002_000B, width: Width::W8, value: 0x03 });
    assert_eq!(ops[4], RegOp::Write { addr: 0x4002_000A, width: Width::W8, value: 0x03 });
    let ops = e.set_flexram_mode(false);
    assert_eq!(ops[2], RegOp::Write { addr: 0x4002_0006, width: Width::W8, value: 0xFF });
}

#[test]
fn crc_presets_and_program() {
    let c = CrcConfig::crc32();
    assert_eq!(c.polynomial, 0x04C1_1DB7);
    assert_eq!(c.width, CrcWidth::Bits32);
    let (mut crc, _) = Crc::new();
    let ops = crc.configure(c);
    assert_eq!(ops[0], RegOp::Write { addr: 0x4003_2008, width: Width::W32, value: 0x0100_0000 | 0x0400_0000 | (1 << 30) | (2 << 28) | 0x0200_0000 });
    assert_eq!(ops[1], RegOp::Write { addr: 0x4003_2004, width: Width::W32, value: 0x04C1_1DB7 });
    assert_eq!(ops[2], RegOp::Write { addr: 0x4003_2000, width: Width::W32, value: 0xFFFF_FFFF });
    let ccitt = CrcConfig::crc16_ccitt();
    assert_eq!(ccitt.write_transpose, Transpose::NoTranspose);
    assert_eq!(crc.configure(ccitt)[0], RegOp::Write { addr: 0x4003_2008, width: Width::W32, value: 0x0200_0000 });
    assert_eq!(crc.feed(&[1, 2]), vec![
        RegOp::Write { addr: 0x4003_2000, width: Width::W8, value: 1 },
        RegOp::Write { addr: 0x4003_2000, width: Width::W8, value: 2 },
    ]);
    assert_eq!(crc.result(0xDEAD_BEEF), 0xDEAD_BEEF);
    assert_eq!(crc.result_u16(0xDEAD_BEEF), 0xBEEF);
    assert_eq!(crc.reset(0x1234)[1], RegOp::Write { addr: 0x4003_2000, width: Width::W32, value: 0x1234 });
    let _ = HashMap::<u32, u32>::new();
}
