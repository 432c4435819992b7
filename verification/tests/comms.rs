use mk20dx_hal::clocks::Mcg;
use mk20dx_hal::dma::DmaChannels;
use mk20dx_hal::i2c::{self, calc_frequency, on_i2c0_interrupt, plan_transaction, I2c, I2c0, OpKind};
use mk20dx_hal::regs::{RegOp, Width};
use mk20dx_hal::spi::{self, transfer_tx_bytes, Mode, Phase, Polarity, Spi, Spi0};
use mk20dx_hal::time::Hertz;
use mk20dx_hal::uart::{self, nb_flush, nb_read, nb_write, on_uart0_rx_tx_interrupt, Parity, RxStatus, Serial, Uart0, Uart2, WordLength};

#[test]
fn i2c_divider_closest_below() {
    assert_eq!(calc_frequency(36_000_000, 100_000), (38, 0));
    assert_eq!(calc_frequency(36_000_000, 400_000), (25, 0));
    assert_eq!(calc_frequency(48_000_000, 100_000), (39, 0));
    assert_eq!(calc_frequency(36_000_000, 1), (0, 0));
}

#[test]
fn i2c_init_program() {
    let (clocks, _) = Mcg::new().freeze();
    let (_bus, ops) = I2c::<I2c0>::init(i2c::Config::new(Hertz(100_000)), &clocks);
    assert_eq!(ops.len(), 5);
    assert_eq!(ops[2], RegOp::Write { addr: 0x4006_6001, width: Width::W8, value: 38 });
    assert_eq!(ops[4], RegOp::Write { addr: 0x4006_6002, width: Width::W8, value: 0x80 });
}

#[test]
fn i2c_status_decisions() {
    let (clocks, _) = Mcg::new().freeze();
    let (bus, _) = I2c::<I2c0>::init(i2c::Config::new(Hertz(100_000)), &clocks);
    assert_eq!(bus.transfer_result(0x12).0, Err(i2c::Error::ArbitrationLoss));
    assert_eq!(bus.transfer_result(0x02).0, Ok(()));
    assert_eq!(bus.address_ack(0x01), Err(i2c::Error::AddressNack));
    assert_eq!(bus.data_ack(0x01), Err(i2c::Error::DataNack));
    assert_eq!(bus.data_ack(0x00), Ok(()));
    let (wake, ops) = on_i2c0_interrupt(0x02);
    assert!(wake);
    assert_eq!(ops, vec![RegOp::Modify { addr: 0x4006_6002, width: Width::W8, clear: 0x40, set: 0 }]);
    assert!(!on_i2c0_interrupt(0).0);
}

#[test]
fn i2c_read_group_acks() {
    let (clocks, _) = Mcg::new().freeze();
    let (bus, _) = I2c::<I2c0>::init(i2c::Config::new(Hertz(100_000)), &clocks);
    let begin = bus.read_group_begin(1, true);
    assert_eq!(begin[0], RegOp::Write { addr: 0x4006_6002, width: Width::W8, value: 0x80 | 0x20 | 0x08 });
    assert!(bus.read_group_begin(0, false).is_empty());
    // Three bytes, ending in STOP: NACK is set before the last byte's
    // receive, STOP before the last byte is read.
    assert!(bus.read_byte_prep(0, 3, true).is_empty());
    assert_eq!(bus.read_byte_prep(1, 3, true), vec![RegOp::Write { addr: 0x4006_6002, width: Width::W8, value: 0xA8 }]);
    assert_eq!(bus.read_byte_prep(2, 3, true), vec![RegOp::Write { addr: 0x4006_6002, width: Width::W8, value: 0x80 }]);
    assert_eq!(bus.read_byte_prep(2, 3, false), vec![RegOp::Write { addr: 0x4006_6002, width: Width::W8, value: 0xB0 }]);
}

#[test]
fn i2c_transaction_groups() {
    let ops = vec![
        OpKind { is_read: false, len: 1 },
        OpKind { is_read: false, len: 2 },
        OpKind { is_read: true, len: 3 },
        OpKind { is_read: true, len: 4 },
        OpKind { is_read: false, len: 1 },
    ];
    let plan = plan_transaction(&ops);
    assert_eq!(plan.len(), 3);
    assert_eq!((plan[0].first, plan[0].end, plan[0].is_read, plan[0].repeated_start, plan[0].stop), (0, 2, false, false, false));
    assert_eq!((plan[1].first, plan[1].end, plan[1].read_total, plan[1].repeated_start), (2, 4, 7, true));
    assert_eq!((plan[2].first, plan[2].end, plan[2].stop), (4, 5, true));
    assert!(plan_transaction(&Vec::new()).is_empty());
}

#[test]
fn spi_baud_selection() {
    assert_eq!(spi::calc_baud(36_000_000, 1_000_000), (3, 2, false));
    assert_eq!(spi::calc_baud(36_000_000, 4_000_000), (2, 1, true));
    assert_eq!(spi::calc_baud(48_000_000, 12_000_000), (0, 0, false));
    assert_eq!(spi::calc_baud(36_000_000, 1), (0, 0, false));
}

#[test]
fn spi_init_ctar() {
    let (clocks, _) = Mcg::new().freeze();
    let config = spi::Config::new(Hertz(1_000_000)).mode(Mode::mode_3());
    assert_eq!(config.mode, Mode { polarity: Polarity::IdleHigh, phase: Phase::CaptureOnSecondTransition });
    let (_spi, ops) = Spi::<Spi0>::new(config, &clocks);
    assert_eq!(ops[1], RegOp::Write { addr: 0x4002_C000, width: Width::W32, value: 0x8001_0001 });
    assert_eq!(ops[4], RegOp::Write { addr: 0x4002_C00C, width: Width::W32, value: 0x3800_0000 | 0x0600_0000 | (2 << 16) | 3 });
}

#[test]
fn spi_transfer_steps() {
    let (clocks, _) = Mcg::new().freeze();
    let (mut s, _) = Spi::<Spi0>::new(spi::Config::new(Hertz(1_000_000)), &clocks);
    let start = s.transfer_start(0xA5);
    assert_eq!(start[2], RegOp::Write { addr: 0x4002_C034, width: Width::W32, value: 0x0001_00A5 });
    assert_eq!(s.transfer_finish(0x0008_0000).0, Err(spi::Error::Overrun));
    let (ok, ops) = s.transfer_finish(0x0002_0000);
    assert_eq!(ok, Ok(()));
    assert_eq!(ops, vec![RegOp::Write { addr: 0x4002_C02C, width: Width::W32, value: 0x0002_0000 }]);
    assert_eq!(s.rx_byte(0x1234_56C3), 0xC3);
}

#[test]
fn spi_full_duplex_padding() {
    assert_eq!(transfer_tx_bytes(4, &[1, 2]), vec![1, 2, 0, 0]);
    assert_eq!(transfer_tx_bytes(1, &[1, 2, 3]), vec![1, 2, 3]);
    assert_eq!(transfer_tx_bytes(0, &[]), Vec::<u8>::new());
}

#[test]
fn uart_baud_divisor() {
    assert_eq!(uart::calc_baud(72_000_000, 115_200), (39, 2));
    assert_eq!(uart::calc_baud(36_000_000, 9600), (234, 12));
    assert_eq!(uart::calc_baud(1000, 1_000_000), (1, 0));
}

#[test]
fn uart_config_and_init() {
    let (clocks, _) = Mcg::new().freeze();
    let config = uart::Config::new(Hertz(115_200)).parity(Parity::Even);
    assert_eq!(config.word_length, WordLength::Bits8);
    let (_s, ops) = Serial::<Uart0>::new(config, &clocks);
    assert_eq!(ops[2], RegOp::Write { addr: 0x4006_A00A, width: Width::W8, value: 2 });
    assert_eq!(ops[3], RegOp::Write { addr: 0x4006_A002, width: Width::W8, value: 0x12 });
    assert_eq!(ops[5], RegOp::Write { addr: 0x4006_A001, width: Width::W8, value: 39 });
    let (_s2, ops2) = Serial::<Uart2>::new(uart::Config::new(Hertz(9600)), &clocks);
    assert_eq!(ops2[3], RegOp::Write { addr: 0x4006_C002, width: Width::W8, value: 0 });
    assert_eq!(ops2[5], RegOp::Write { addr: 0x4006_C001, width: Width::W8, value: 234 });
}

#[test]
fn uart_nonblocking_decisions() {
    assert_eq!(nb_read::<Uart0>(0x0A).0, RxStatus::Failed(uart::Error::Overrun));
    assert_eq!(nb_read::<Uart0>(0x02).0, RxStatus::Failed(uart::Error::Framing));
    assert_eq!(nb_read::<Uart0>(0x04).0, RxStatus::Failed(uart::Error::Noise));
    let (st, ops) = nb_read::<Uart0>(0x21);
    assert_eq!(st, RxStatus::Failed(uart::Error::Parity));
    assert_eq!(ops, vec![RegOp::Read { addr: 0x4006_A007, width: Width::W8 }]);
    assert_eq!(nb_read::<Uart0>(0x00).0, RxStatus::WouldBlock);
    assert_eq!(nb_read::<Uart0>(0x20).0, RxStatus::Ready);
    assert!(nb_write::<Uart0>(0x00, 7).is_none());
    assert_eq!(nb_write::<Uart0>(0x80, 7), Some(vec![RegOp::Write { addr: 0x4006_A007, width: Width::W8, value: 7 }]));
    assert!(nb_flush(0x40));
    assert!(!nb_flush(0x80));
}

#[test]
fn uart_interrupt_wakes() {
    let (w, ops) = on_uart0_rx_tx_interrupt(0xC0);
    assert!(w.tx && !w.rx);
    assert_eq!(ops.len(), 2);
    let (w, ops) = on_uart0_rx_tx_interrupt(0x20);
    assert!(w.rx && !w.tx);
    assert!(ops.is_empty());
}

#[test]
fn uart_dma_transmit() {
    let (clocks, _) = Mcg::new().freeze();
    let (mut s, _) = Serial::<Uart0>::new(uart::Config::new(Hertz(115_200)), &clocks);
    let (mut chans, _) = DmaChannels::split();
    let ops = s.write_dma(0x2000_0000, 16, &mut chans.ch2);
    assert_eq!(ops[5], RegOp::Write { addr: 0x4000_9050, width: Width::W32, value: 0x4006_A007 });
    assert_eq!(ops[12], RegOp::Write { addr: 0x4002_1002, width: Width::W8, value: 3 | 0x80 });
    assert_eq!(*ops.last().unwrap(), RegOp::Write { addr: 0x4000_801B, width: Width::W8, value: 2 });
    assert_eq!(Serial::<Uart0>::data_dma_addr(), 0x4006_A007);
}
