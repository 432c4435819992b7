//! Hardware abstraction layer for the NXP Kinetis MK20DX256 (Teensy 3.1/3.2).
use vstd::prelude::*;

pub mod regs;
pub mod time;
pub mod clocks;
pub mod delay;
pub mod pwm;
pub mod i2c;
pub mod spi;
pub mod uart;
pub mod usb;
pub mod dma;
pub mod lptmr;
pub mod crc_module;
pub mod llwu;
pub mod power;
pub mod flash;
pub mod eeprom;
pub mod pdb;
pub mod rtc;
pub mod cmp;
pub mod dac;
pub mod watchdog;
pub mod flash_config;
pub mod timer;
pub mod gpio;
pub mod adc;

verus! {

} // verus!
