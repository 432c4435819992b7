use std::collections::HashMap;

use mk20dx_hal::clocks::{ClockSpeed, Mcg};
use mk20dx_hal::delay::Delay;
use mk20dx_hal::lptmr::{Lptmr, LptmrClock, Prescaler as LptmrPrescaler, WaitResult};
use mk20dx_hal::regs::{RegOp, Width};
use mk20dx_hal::time::{Hertz, U32Ext};
use mk20dx_hal::timer::{ms_to_us, ns_to_us, on_pit0_interrupt, PitChannels, PitPoll};
use mk20dx_hal::usb::usb_clock_divider;

fn run(ops: &[RegOp], mem: &mut HashMap<u32, u32>) {
    for op in ops {
        match *op {
            RegOp::Write { addr, value, .. } => {
                mem.insert(addr, value);
            }
            RegOp::Modify { addr, clear, set, .. } => {
                let old = *mem.get(&addr).unwrap_or(&0);
                mem.insert(addr, (old & !clear) | set);
            }
            _ => {}
        }
    }
}

#[test]
fn preset_frequencies() {
    let (c72, _) = Mcg::new().freeze();
    assert_eq!(c72.core_clk().raw(), 72_000_000);
    assert_eq!(c72.bus_clk().raw(), 36_000_000);
    assert_eq!(c72.flash_clk().raw(), 24_000_000);
    let (c96, _) = Mcg::new().freeze_at(ClockSpeed::Mhz96);
    assert_eq!(c96.core_clk().raw(), 96_000_000);
    assert_eq!(c96.bus_clk().raw(), 48_000_000);
    let (c120, _) = Mcg::new().freeze_at(ClockSpeed::Mhz120);
    assert_eq!(c120.core_clk().raw(), 120_000_000);
    assert_eq!(c120.bus_clk().raw(), 60_000_000);
    assert_eq!(c120.flash_clk().raw(), 24_000_000);
}

#[test]
fn freeze_ends_in_pee() {
    let (_, ops) = Mcg::new().freeze();
    match ops.last() {
        Some(RegOp::WaitUntil { mask, value, .. }) => {
            assert_eq!(*mask, 0x0C);
            assert_eq!(*value, 0x0C);
        }
        _ => panic!("freeze must end waiting for the PLL clock source"),
    }
}

#[test]
fn blpi_round_trip_restores_dividers() {
    let (clocks, _) = Mcg::new().freeze();
    let saved: u32 = 0x0113_0000;
    let (blpi, pee, enter) = clocks.enter_blpi(saved);
    assert_eq!(blpi.core_clk().raw(), 4_000_000);
    let mut mem = HashMap::new();
    run(&enter, &mut mem);
    let (back, exit) = mk20dx_hal::clocks::Clocks::exit_blpi(blpi, pee);
    run(&exit, &mut mem);
    assert_eq!(mem[&0x4004_8044], saved);
    assert_eq!(back.core_clk().raw(), 72_000_000);
}

#[test]
fn usb_divider_gives_48mhz() {
    for pll in [72_000_000u32, 96_000_000, 120_000_000] {
        let (frac, div) = usb_clock_divider(pll);
        let mult: u64 = if frac { 2 } else { 1 };
        assert_eq!(pll as u64 * mult, 48_000_000 * (div as u64 + 1));
    }
    assert_eq!(usb_clock_divider(72_000_000), (true, 2));
}

#[test]
fn delay_reloads_round_up() {
    let (clocks, _) = Mcg::new().freeze();
    let mut d = Delay::new(&clocks);
    assert_eq!(d.cycles_per_us(), 72);
    assert_eq!(d.delay_ns(1000), vec![72]);
    assert_eq!(d.delay_ns(1), vec![1]);
    assert_eq!(d.delay_ns(0), Vec::<u32>::new());
    let long = d.delay_ns(1_000_000_000);
    assert_eq!(long.iter().map(|&r| r as u64).sum::<u64>(), 72_000_000);
    assert!(long[..long.len() - 1].iter().all(|&r| r == 0x00FF_FFFF));
}

#[test]
fn pit_period_ticks() {
    let (clocks, _) = Mcg::new().freeze();
    let (mut chans, ops) = PitChannels::split(&clocks);
    assert_eq!(ops[1], RegOp::Write { addr: 0x4003_7000, width: Width::W32, value: 0x01 });
    let start = chans.ch1.start(1_000_000);
    assert_eq!(start[1], RegOp::Write { addr: 0x4003_7110, width: Width::W32, value: 35_999_999 });
    let start = chans.ch0.start(1000);
    assert_eq!(start[1], RegOp::Write { addr: 0x4003_7100, width: Width::W32, value: 35_999 });
    let start = chans.ch0.start(0);
    assert_eq!(start[1], RegOp::Write { addr: 0x4003_7100, width: Width::W32, value: 0 });
    assert!(chans.ch2.delay_us(0).is_none());
}

#[test]
fn pit_wait_and_interrupt() {
    let (clocks, _) = Mcg::new().freeze();
    let (mut chans, _) = PitChannels::split(&clocks);
    assert_eq!(chans.ch3.wait(0).0, PitPoll::Pending);
    let (p, ops) = chans.ch3.wait(1);
    assert_eq!(p, PitPoll::Expired);
    assert_eq!(ops, vec![RegOp::Write { addr: 0x4003_713C, width: Width::W32, value: 1 }]);
    let (wake, ops) = on_pit0_interrupt(1);
    assert!(wake);
    assert_eq!(ops.len(), 2);
    assert!(!on_pit0_interrupt(0).0);
}

#[test]
fn delay_unit_conversions() {
    assert_eq!(ns_to_us(1), 1);
    assert_eq!(ns_to_us(1000), 1);
    assert_eq!(ns_to_us(1001), 2);
    assert_eq!(ns_to_us(u32::MAX), u32::MAX / 1000);
    assert_eq!(ms_to_us(5), 5000);
    assert_eq!(ms_to_us(u32::MAX), u32::MAX);
}

#[test]
fn lptmr_compare_values() {
    let (mut t, _) = Lptmr::new();
    let ops = t.start(1000, LptmrClock::ErClk32k);
    assert_eq!(ops[1], RegOp::Write { addr: 0x4004_0004, width: Width::W32, value: 0x06 });
    assert_eq!(ops[2], RegOp::Write { addr: 0x4004_0008, width: Width::W32, value: 32768 });
    let ops = t.start(500, LptmrClock::Lpo1kHz);
    assert_eq!(ops[2], RegOp::Write { addr: 0x4004_0008, width: Width::W32, value: 500 });
    let ops = t.start(0, LptmrClock::Lpo1kHz);
    assert_eq!(ops[2], RegOp::Write { addr: 0x4004_0008, width: Width::W32, value: 1 });
    let ops = t.start(100_000, LptmrClock::Lpo1kHz);
    assert_eq!(ops[2], RegOp::Write { addr: 0x4004_0008, width: Width::W32, value: 65535 });
}

#[test]
fn lptmr_start_raw_prescaler() {
    let (mut t, _) = Lptmr::new();
    let ops = t.start_raw(LptmrClock::Lpo1kHz, LptmrPrescaler::Div8, 10);
    assert_eq!(ops[1], RegOp::Write { addr: 0x4004_0004, width: Width::W32, value: 1 | (2 << 3) });
    let ops = t.start_raw(LptmrClock::McgIrClk, LptmrPrescaler::Bypass, 0);
    assert_eq!(ops[1], RegOp::Write { addr: 0x4004_0004, width: Width::W32, value: 0x04 });
    assert_eq!(ops[2], RegOp::Write { addr: 0x4004_0008, width: Width::W32, value: 1 });
    assert_eq!(t.wait(0).0, WaitResult::WouldBlock);
    assert_eq!(t.wait(0x80).0, WaitResult::Fired);
}

#[test]
fn frequency_helpers() {
    assert_eq!(8_000_000u32.Hz(), Hertz(8_000_000));
    assert_eq!(400u32.kHz().0, 400);
    assert_eq!(72u32.MHz().0, 72);
    assert_eq!(Hertz::from_raw(5).to_raw(), 5);
}
