use std::collections::HashMap;

use mk20dx_hal::clocks::Mcg;
use mk20dx_hal::pwm::{
    calc_prescaler, CompareAction, DeadtimePrescaler, Direction, Ftm0, Ftm0Channels, Ftm0Parts, Ftm1, OutputLevel,
    PairInversion, Polarity, Prescaler, PwmAlignment, QuadMode, QuadratureDecoder,
};
use mk20dx_hal::regs::{RegOp, Width};
use mk20dx_hal::time::Hertz;

fn run(ops: &[RegOp], mem: &mut HashMap<u32, u32>) {
    for op in ops {
        match *op {
            RegOp::Write { addr, value, .. } => {
                mem.insert(addr, value);
            }
            RegOp::Modify { addr, clear, set, .. } => {
                let old = *mem.get(&addr).unwrap_or(&0);
                mem.insert(addr, (old & !clear) | set);
            }
            _ => {}
        }
    }
}

const FTM0: u32 = 0x4003_8000;

#[test]
fn prescaler_first_fit() {
    assert_eq!(calc_prescaler(36_000_000, 1000), (0, 35_999));
    assert_eq!(calc_prescaler(36_000_000, 100), (3, 44_999));
    assert_eq!(calc_prescaler(36_000_000, 1), (7, 0xFFFF));
    assert_eq!(calc_prescaler(65_536, 1), (0, 65_535));
    assert_eq!(calc_prescaler(65_537, 1), (1, 32_767));
    assert_eq!(calc_prescaler(1000, 2000), (7, 0xFFFF));
}

#[test]
fn pwm_program_starts_counter() {
    let (clocks, _) = Mcg::new().freeze();
    let (_chans, ops) = Ftm0Channels::pwm(Hertz(1000), &clocks);
    assert_eq!(ops.len(), 9);
    assert_eq!(ops[6], RegOp::Write { addr: FTM0 + 0x08, width: Width::W32, value: 35_999 });
    assert_eq!(ops[8], RegOp::Write { addr: FTM0, width: Width::W32, value: 0x08 });
    let (_parts, split) = Ftm0Parts::split(&clocks);
    assert_eq!(split[3], RegOp::Write { addr: FTM0 + 0x8C, width: Width::W32, value: 0x80 });
}

#[test]
fn timer_setters_read_back() {
    let (clocks, _) = Mcg::new().freeze();
    let (mut parts, _) = Ftm0Parts::split(&clocks);
    let mut mem = HashMap::new();
    run(&parts.timer.set_prescaler(Prescaler::Div16), &mut mem);
    assert_eq!(parts.timer.prescaler(mem[&FTM0]), Prescaler::Div16);
    run(&parts.timer.set_alignment(PwmAlignment::CenterAligned), &mut mem);
    assert_eq!(parts.timer.alignment(mem[&FTM0]), PwmAlignment::CenterAligned);
    assert_eq!(parts.timer.prescaler(mem[&FTM0]), Prescaler::Div16);
    run(&parts.timer.set_deadtime(DeadtimePrescaler::Div16, 0x7F), &mut mem);
    assert_eq!(parts.timer.deadtime_prescaler(mem[&(FTM0 + 0x68)]), DeadtimePrescaler::Div16);
    assert_eq!(parts.timer.deadtime_value(mem[&(FTM0 + 0x68)]), 0x3F);
    run(&parts.timer.start(), &mut mem);
    assert!(parts.timer.is_running(mem[&FTM0]));
    run(&parts.timer.stop(), &mut mem);
    assert!(!parts.timer.is_running(mem[&FTM0]));
}

#[test]
fn set_frequency_keeps_counter_stopped() {
    let (clocks, _) = Mcg::new().freeze();
    let (mut parts, _) = Ftm0Parts::split(&clocks);
    let mut mem = HashMap::new();
    mem.insert(FTM0, 0x28);
    run(&parts.timer.set_frequency(Hertz(100), &clocks), &mut mem);
    assert_eq!(mem[&FTM0], 0x20 | 3);
    assert_eq!(mem[&(FTM0 + 0x08)], 44_999);
    assert!(!parts.timer.is_running(mem[&FTM0]));
}

#[test]
fn channel_settings_read_back() {
    let (clocks, _) = Mcg::new().freeze();
    let (mut parts, _) = Ftm0Parts::split(&clocks);
    let mut mem = HashMap::new();
    run(&parts.ch3.set_polarity(Polarity::ActiveLow), &mut mem);
    run(&parts.ch4.set_polarity(Polarity::ActiveHigh), &mut mem);
    assert_eq!(parts.ch3.polarity(mem[&(FTM0 + 0x70)]), Polarity::ActiveLow);
    assert_eq!(parts.ch4.polarity(mem[&(FTM0 + 0x70)]), Polarity::ActiveHigh);
    run(&parts.ch5.set_output_init(OutputLevel::High), &mut mem);
    assert_eq!(parts.ch5.output_init(mem[&(FTM0 + 0x5C)]), OutputLevel::High);
    run(&parts.ch2.force_output(OutputLevel::Low), &mut mem);
    assert_eq!(parts.ch2.forced_output(mem[&(FTM0 + 0x94)]), Some(OutputLevel::Low));
    run(&parts.ch2.force_output(OutputLevel::High), &mut mem);
    assert_eq!(parts.ch2.forced_output(mem[&(FTM0 + 0x94)]), Some(OutputLevel::High));
    assert!(parts.ch2.is_output_forced(mem[&(FTM0 + 0x94)]));
    run(&parts.ch2.release_output(), &mut mem);
    assert_eq!(parts.ch2.forced_output(mem[&(FTM0 + 0x94)]), None);
}

#[test]
fn channel_modes() {
    let (clocks, _) = Mcg::new().freeze();
    let (mut parts, _) = Ftm0Parts::split(&clocks);
    assert_eq!(parts.ch1.set_pwm(), vec![RegOp::Write { addr: FTM0 + 0x14, width: Width::W32, value: 0x28 }]);
    let oc = parts.ch0.set_output_compare(CompareAction::Toggle, 500);
    assert!(oc.contains(&RegOp::Write { addr: FTM0 + 0x10, width: Width::W32, value: 500 }));
    let (v, ops) = parts.ch6.capture(0x80, 0x1234_5678);
    assert_eq!(v, Some(0x5678));
    assert_eq!(ops, vec![RegOp::Modify { addr: FTM0 + 0x3C, width: Width::W32, clear: 0x80, set: 0 }]);
    let (v, ops) = parts.ch6.capture(0, 7);
    assert_eq!(v, None);
    assert!(ops.is_empty());
    assert_eq!(parts.ch7.set_duty_cycle(9), vec![RegOp::Write { addr: FTM0 + 0x48, width: Width::W32, value: 9 }]);
}

#[test]
fn combined_pair_round_trip() {
    let (clocks, _) = Mcg::new().freeze();
    let (parts, _) = Ftm0Parts::split(&clocks);
    let (mut pair, ops) = parts.ch2.into_combined::<3, 1>(parts.ch3);
    assert_eq!(ops.len(), 8);
    let mut mem = HashMap::new();
    run(&ops, &mut mem);
    assert_eq!(mem[&(FTM0 + 0x64)] & 0x0100, 0x0100);
    run(&pair.enable_complementary(), &mut mem);
    run(&pair.enable_deadtime(), &mut mem);
    assert!(pair.is_complementary(mem[&(FTM0 + 0x64)]));
    assert!(pair.is_deadtime_enabled(mem[&(FTM0 + 0x64)]));
    run(&pair.disable_deadtime(), &mut mem);
    assert!(!pair.is_deadtime_enabled(mem[&(FTM0 + 0x64)]));
    run(&pair.set_inversion(PairInversion::Inverted), &mut mem);
    assert_eq!(pair.inversion(mem[&(FTM0 + 0x90)]), PairInversion::Inverted);
    let (_even, _odd, back) = pair.into_channels::<2, 3>();
    run(&back, &mut mem);
    assert_eq!(mem[&(FTM0 + 0x64)] & 0xFF00, 0);
}

#[test]
fn quadrature_decoder() {
    let (mut q, ops) = QuadratureDecoder::<Ftm1>::new(QuadMode::CountDirection);
    assert_eq!(ops[6], RegOp::Write { addr: 0x4003_9080, width: Width::W32, value: 0x09 });
    assert_eq!(q.direction(0x04), Direction::Up);
    assert_eq!(q.direction(0), Direction::Down);
    assert_eq!(q.count(0x0001_FFFF), 0xFFFF);
    let (of, ops) = q.overflow_flag(0x80);
    assert!(of);
    assert_eq!(ops, vec![RegOp::Modify { addr: 0x4003_9000, width: Width::W32, clear: 0x80, set: 0 }]);
    assert!(!q.overflow_flag(0).0);
    let f = q.set_filter(0x1F, 0);
    assert_eq!(f[0], RegOp::Modify { addr: 0x4003_9078, width: Width::W32, clear: 0xFF, set: 0x0F });
    assert_eq!(f[1], RegOp::Modify { addr: 0x4003_9080, width: Width::W32, clear: 0xC0, set: 0x80 });
    let _ = Ftm0;
}
