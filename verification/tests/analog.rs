use std::collections::HashMap;

use mk20dx_hal::adc::{Adc, Adc0, Adc1, Averaging, CalibrationError, ContinuousScan, Resolution, ScanConfig};
use mk20dx_hal::clocks::Mcg;
use mk20dx_hal::cmp::{Cmp, Cmp0, CmpDacVref, Hysteresis, Input};
use mk20dx_hal::dac::{Dac, VrefSource};
use mk20dx_hal::dma::DmaChannels;
use mk20dx_hal::pdb::{Multiplier, Pdb, Prescaler, TriggerSource};
use mk20dx_hal::regs::{RegOp, Width};

fn run(ops: &[RegOp], mem: &mut HashMap<u32, u32>) {
    for op in ops {
        match *op {
            RegOp::Write { addr, value, .. } => {
                mem.insert(addr, value);
            }
            RegOp::Modify { addr, clear, set, .. } => {
                let old = *mem.get(&addr).unwrap_or(&0);
                mem.insert(addr, (old & !clear) | set);
            }
            _ => {}
        }
    }
}

#[test]
fn adc_init_and_settings() {
    let (clocks, _) = Mcg::new().freeze();
    let (mut adc, ops) = Adc::<Adc0>::new(&clocks);
    assert_eq!(ops[1], RegOp::Write { addr: 0x4003_B008, width: Width::W32, value: 0x59 });
    assert_eq!(ops[5], RegOp::Write { addr: 0x4003_B000, width: Width::W32, value: 0x1F });
    assert_eq!(adc.set_resolution(Resolution::Bits12)[0], RegOp::Modify { addr: 0x4003_B008, width: Width::W32, clear: 0x0C, set: 0x04 });
    assert_eq!(adc.set_averaging(Averaging::Avg32), vec![RegOp::Write { addr: 0x4003_B024, width: Width::W32, value: 0x07 }]);
    assert_eq!(adc.read(0x25)[0], RegOp::Write { addr: 0x4003_B000, width: Width::W32, value: 0x05 });
    assert_eq!(adc.result(0xABCD_1234), 0x1234);
    assert_eq!(Adc::<Adc1>::result_dma_addr(), 0x400B_B010);
}

#[test]
fn adc_calibration_gains() {
    let (clocks, _) = Mcg::new().freeze();
    let (mut adc, _) = Adc::<Adc0>::new(&clocks);
    let (cal, start) = adc.calibrate(0x59, 0x04);
    assert_eq!(start[1], RegOp::Write { addr: 0x4003_B024, width: Width::W32, value: 0x87 });
    let plus = [10u16, 20, 30, 40, 50, 60];
    let minus = [1u16, 1, 1, 1, 1, 1];
    let (res, ops) = adc.finish_calibration(cal, 0x00, &plus, &minus);
    assert_eq!(res, Ok(()));
    assert_eq!(ops[0], RegOp::Write { addr: 0x4003_B02C, width: Width::W32, value: 0x8000 | 105 });
    assert_eq!(ops[1], RegOp::Write { addr: 0x4003_B030, width: Width::W32, value: 0x8003 });
    assert_eq!(ops[2], RegOp::Write { addr: 0x4003_B008, width: Width::W32, value: 0x59 });
    assert_eq!(ops[3], RegOp::Write { addr: 0x4003_B024, width: Width::W32, value: 0x04 });
    let (res, ops) = adc.finish_calibration(cal, 0x40, &plus, &minus);
    assert_eq!(res, Err(CalibrationError));
    assert_eq!(ops.len(), 3);
}

#[test]
fn adc_two_channel_scan() {
    let (clocks, _) = Mcg::new().freeze();
    let (mut adc, _) = Adc::<Adc0>::new(&clocks);
    let (mut dma, _) = DmaChannels::split();
    let (mut pdb, _) = Pdb::new();
    let config = ScanConfig { channels: vec![5, 0x26], modulus: 1000, prescaler: Prescaler::Div1, multiplier: Multiplier::Mult1 };
    let (scan, ops): (ContinuousScan<1>, Vec<RegOp>) = adc.start_continuous_scan(&config, 0x2000_0100, 2, &mut dma.ch1, &mut pdb);
    assert_eq!(ops[3], RegOp::Write { addr: 0x4003_B004, width: Width::W32, value: 0x06 });
    assert!(ops.contains(&RegOp::Modify { addr: 0x4003_6010, width: Width::W32, clear: 0, set: 1 << 17 }));
    assert_eq!(*ops.last().unwrap(), RegOp::Modify { addr: 0x4003_6000, width: Width::W32, clear: 0, set: 0x0001_0000 });
    assert_eq!(scan.read_latest(1), 0x2000_0102);
    assert_eq!(scan.stop().len(), 3);
}

#[test]
fn dac_value_round_trip() {
    let (mut dac, _) = Dac::new();
    let mut mem = HashMap::new();
    run(&dac.set_value(0xFABC), &mut mem);
    let v = dac.get_value(mem[&0x400C_C000] as u8, mem[&0x400C_C001] as u8);
    assert_eq!(v, 0x0ABC);
    assert_eq!(dac.set_vref(VrefSource::Vref2)[0], RegOp::Modify { addr: 0x400C_C021, width: Width::W8, clear: 0x40, set: 0x40 });
}

#[test]
fn comparator_scr_writes_keep_flags() {
    let (mut c, ops) = Cmp::<Cmp0>::new(Input(1), Input::internal_dac());
    assert_eq!(ops[2], RegOp::Write { addr: 0x4007_3005, width: Width::W8, value: (1 << 3) | 7 });
    let scr = 0x40 | 0x04 | 0x02 | 0x01;
    assert_eq!(c.enable_rising_interrupt(scr), vec![RegOp::Write { addr: 0x4007_3003, width: Width::W8, value: 0x50 }]);
    assert_eq!(c.clear_flags(scr), vec![RegOp::Write { addr: 0x4007_3003, width: Width::W8, value: 0x46 }]);
    assert_eq!(c.disable_interrupts(0x58), vec![RegOp::Write { addr: 0x4007_3003, width: Width::W8, value: 0x40 }]);
    assert!(c.output(scr));
    assert!(c.rising_edge(scr));
    assert!(c.falling_edge(scr));
    assert_eq!(c.set_internal_dac(0xFF, CmpDacVref::Vin2)[0], RegOp::Write { addr: 0x4007_3004, width: Width::W8, value: 0x80 | 0x3F | 0x40 });
    assert_eq!(c.set_hysteresis(Hysteresis::Level2)[0], RegOp::Modify { addr: 0x4007_3000, width: Width::W8, clear: 3, set: 2 });
}

#[test]
fn pdb_configuration() {
    let (mut pdb, _) = Pdb::new();
    let ops = pdb.configure(TriggerSource::Software, Prescaler::Div8, Multiplier::Mult40, 500);
    assert_eq!(ops[0], RegOp::Write { addr: 0x4003_6000, width: Width::W32, value: (15 << 8) | (3 << 12) | (3 << 2) });
    assert_eq!(pdb.set_pretrigger_delay(1, 1, 77), vec![RegOp::Write { addr: 0x4003_6044, width: Width::W32, value: 77 }]);
    let (err, ops) = pdb.clear_errors(0, 0x0003);
    assert_eq!(err, 3);
    assert_eq!(ops.len(), 1);
    let (err, ops) = pdb.clear_errors(1, 0x0001_0000);
    assert_eq!(err, 0);
    assert!(ops.is_empty());
}
