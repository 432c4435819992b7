use std::collections::HashMap;

use mk20dx_hal::dma::{DmaChannels, DmaError, DmaSource, TransferSize};
use mk20dx_hal::gpio::{GpioExt, PortC};
use mk20dx_hal::llwu::{Llwu, LlwuModule, LlwuPin, WakeEdge};
use mk20dx_hal::power::{PowerControl, PowerMode, StopMode, VlprPoll};
use mk20dx_hal::regs::{RegOp, Width};
use mk20dx_hal::rtc::{Rtc, TimeInvalid};
use mk20dx_hal::watchdog::{Wdog, WdogExt};

fn run(ops: &[RegOp], mem: &mut HashMap<u32, u32>) {
    for op in ops {
        match *op {
            RegOp::Write { addr, value, .. } => {
                mem.insert(addr, value);
            }
            RegOp::Modify { addr, clear, set, .. } => {
                let old = *mem.get(&addr).unwrap_or(&0);
                mem.insert(addr, (old & !clear) | set);
            }
            _ => {}
        }
    }
}

#[test]
fn dma_split_priorities() {
    let (_chans, ops) = DmaChannels::split();
    assert_eq!(ops.len(), 3 + 16 + 16);
    let mut mem = HashMap::new();
    run(&ops, &mut mem);
    // Channel 0's priority register is DCHPRI3, channel 3's is DCHPRI0.
    assert_eq!(mem[&0x4000_8103], 0x80);
    assert_eq!(mem[&0x4000_8100], 0x83);
    for ch in 0..16u32 {
        assert_eq!(mem[&(0x4000_8100 + (ch ^ 3))], ch | 0x80);
        assert_eq!(mem[&(0x4002_1000 + ch)], 0);
    }
}

#[test]
fn dma_error_decoding() {
    let (chans, _) = DmaChannels::split();
    let vld = 0x8000_0000u32;
    assert_eq!(chans.ch5.error_status(vld | (5 << 8) | 0x80), Some(DmaError::SourceAddressError));
    assert_eq!(chans.ch5.error_status(vld | (5 << 8) | 0x01 | 0x10), Some(DmaError::DestOffsetError));
    assert_eq!(chans.ch5.error_status(vld | (5 << 8) | 0x0001_0000), Some(DmaError::Cancelled));
    assert_eq!(chans.ch5.error_status(vld | (4 << 8) | 0x80), None);
    assert_eq!(chans.ch5.error_status((5 << 8) | 0x80), None);
    assert_eq!(chans.ch5.error_status(vld | (5 << 8)), None);
    assert!(chans.ch5.has_error(1 << 5));
    assert!(!chans.ch5.has_error(1 << 4));
    assert!(chans.ch5.is_complete(0x80));
    assert!(chans.ch5.is_active(0x40));
}

#[test]
fn dma_memcpy_sizes() {
    let (mut chans, _) = DmaChannels::split();
    let ops = chans.ch0.configure_memcpy(0x2000_0000, 0x2000_1000, 64);
    assert_eq!(ops[2], RegOp::Write { addr: 0x4000_9006, width: Width::W16, value: 0x0202 });
    assert_eq!(ops[1], RegOp::Write { addr: 0x4000_9004, width: Width::W16, value: 4 });
    assert_eq!(ops[4], RegOp::Write { addr: 0x4000_900C, width: Width::W32, value: (-64i32) as u32 });
    assert_eq!(ops[7], RegOp::Write { addr: 0x4000_9016, width: Width::W16, value: 1 });
    assert_eq!(ops[9], RegOp::Write { addr: 0x4000_901C, width: Width::W16, value: 0x08 });
    let ops = chans.ch0.configure_memcpy(0x2000_0001, 0x2000_1000, 64);
    assert_eq!(ops[2], RegOp::Write { addr: 0x4000_9006, width: Width::W16, value: 0 });
    let ops = chans.ch1.configure_peripheral_read(0x4003_B010, 0x2000_0000, TransferSize::Bits16, 10);
    assert_eq!(ops[6], RegOp::Write { addr: 0x4000_9034, width: Width::W16, value: 2 });
    assert_eq!(ops[8], RegOp::Write { addr: 0x4000_9038, width: Width::W32, value: (-20i32) as u32 });
    assert_eq!(DmaSource::new(0xFF).slot(), 0x3F);
    assert_eq!(chans.ch1.set_source(DmaSource::new(DmaSource::UART0_RX))[1], RegOp::Write { addr: 0x4002_1001, width: Width::W8, value: 0x82 });
    assert_eq!(TransferSize::Burst16.bytes(), 16);
}

#[test]
fn vlpr_poll_times_out_after_limit() {
    let mut pc = PowerControl::new();
    let (mut state, ops) = pc.enter_vlpr();
    assert_eq!(ops[0], RegOp::Modify { addr: 0x4007_E001, width: Width::W8, clear: 0x60, set: 0x40 });
    let mut reads = 0;
    while let VlprPoll::Pending(n) = state {
        state = pc.vlpr_step(n, 0x01);
        reads += 1;
    }
    assert_eq!(state, VlprPoll::TimedOut);
    assert_eq!(reads, 1000);
    assert_eq!(pc.vlpr_step(1, 0x04), VlprPoll::Confirmed);
    assert_eq!(pc.vlpr_step(7, 0x01), VlprPoll::Pending(6));
}

#[test]
fn stop_mode_programs() {
    let mut pc = PowerControl::new();
    let (before, after) = pc.enter_stop(StopMode::Vlls1);
    assert_eq!(before, vec![
        RegOp::Modify { addr: 0x4007_E001, width: Width::W8, clear: 7, set: 4 },
        RegOp::Write { addr: 0x4007_E002, width: Width::W8, value: 1 },
        RegOp::Modify { addr: 0xE000_ED10, width: Width::W32, clear: 0, set: 4 },
    ]);
    assert_eq!(after, vec![RegOp::Modify { addr: 0xE000_ED10, width: Width::W32, clear: 4, set: 0 }]);
    let (before, _) = pc.enter_stop(StopMode::Lls);
    assert_eq!(before.len(), 2);
    assert_eq!(pc.current_mode(1), PowerMode::Run);
    assert_eq!(pc.current_mode(4), PowerMode::Vlpr);
    assert_eq!(pc.current_mode(8), PowerMode::Unknown(8));
    assert!(pc.stop_aborted(0x08));
    assert_eq!(pc.allow_all(), vec![RegOp::Write { addr: 0x4007_E000, width: Width::W8, value: 0x2A }]);
}

#[test]
fn llwu_pin_fields() {
    let mut l = Llwu::new();
    let mut mem = HashMap::new();
    mem.insert(0x4007_C001, 0xFF);
    run(&l.enable_pin(LlwuPin::P5, WakeEdge::Falling), &mut mem);
    assert_eq!(mem[&0x4007_C001], 0xFB);
    run(&l.disable_pin(LlwuPin::P7), &mut mem);
    assert_eq!(mem[&0x4007_C001], 0x3B);
    assert_eq!(l.pin_flags(0x01, 0x80), 0x8001);
    assert!(l.pin_woke(0x00, 0x80, LlwuPin::P15));
    assert!(!l.pin_woke(0x00, 0x80, LlwuPin::P14));
    assert_eq!(l.clear_pin_flag(LlwuPin::P9), vec![RegOp::Write { addr: 0x4007_C006, width: Width::W8, value: 2 }]);
    assert_eq!(l.enable_module(LlwuModule::RtcAlarm), vec![RegOp::Modify { addr: 0x4007_C004, width: Width::W8, clear: 0, set: 0x20 }]);
    assert!(l.module_woke(0x80, LlwuModule::RtcSeconds));
}

#[test]
fn rtc_time_and_init() {
    let (mut rtc, ops) = Rtc::new(0x0001, 0x01);
    assert_eq!(ops.len(), 3);
    assert_eq!(rtc.seconds(0x01, 42), Err(TimeInvalid));
    assert_eq!(rtc.seconds(0x10, 42), Ok(42));
    assert!(!rtc.time_is_valid(0x01));
    let (_, ops) = Rtc::new(0x0100, 0x00);
    assert_eq!(ops, vec![
        RegOp::Write { addr: 0x4003_D01C, width: Width::W32, value: 0 },
        RegOp::Write { addr: 0x4003_D014, width: Width::W32, value: 0x10 },
    ]);
    assert_eq!(rtc.set_time(1000)[1], RegOp::Write { addr: 0x4003_D000, width: Width::W32, value: 1000 });
}

#[test]
fn watchdog_unlock_sequence() {
    let ops = Wdog.disable();
    assert_eq!(ops, vec![
        RegOp::Write { addr: 0x4005_200E, width: Width::W16, value: 0xC520 },
        RegOp::Write { addr: 0x4005_200E, width: Width::W16, value: 0xD928 },
        RegOp::Write { addr: 0x4005_2000, width: Width::W16, value: 0x01D2 },
    ]);
}

#[test]
fn gpio_mode_programs() {
    let (pins, gate) = PortC.split();
    assert_eq!(gate, vec![RegOp::Modify { addr: 0x4004_8038, width: Width::W32, clear: 0, set: 0x800 }]);
    let (mut led, ops) = pins.pc5.into_push_pull_output();
    assert_eq!(ops, vec![
        RegOp::Modify { addr: 0x400F_F094, width: Width::W32, clear: 0, set: 1 << 5 },
        RegOp::Write { addr: 0x4004_B014, width: Width::W32, value: 0x100 },
    ]);
    assert_eq!(led.set_high(), vec![RegOp::Write { addr: 0x400F_F084, width: Width::W32, value: 1 << 5 }]);
    assert_eq!(led.toggle(), vec![RegOp::Write { addr: 0x400F_F08C, width: Width::W32, value: 1 << 5 }]);
    assert!(led.is_set_high(1 << 5));
    let (button, ops) = pins.pc6.into_pull_up_input();
    assert_eq!(ops[1], RegOp::Write { addr: 0x4004_B018, width: Width::W32, value: 0x103 });
    assert!(button.is_low(0));
    let (_alt, ops) = pins.pc7.into_alternate::<3>();
    assert_eq!(ops, vec![RegOp::Modify { addr: 0x4004_B01C, width: Width::W32, clear: 0x700, set: 0x300 }]);
}
