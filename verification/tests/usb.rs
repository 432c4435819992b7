use mk20dx_hal::clocks::Mcg;
use mk20dx_hal::regs::{RegOp, Width};
use mk20dx_hal::usb::{
    bd_byte_count, bd_pid, bdt_index, make_bd_desc, EndpointAddress, EndpointType, PollResult, PollTokens, UsbBus,
    UsbDirection, UsbError,
};

const BDT: u32 = 0x2000_0000;
const BUFS: u32 = 0x2000_1000;

fn bus() -> UsbBus {
    let (clocks, _) = Mcg::new().freeze();
    let (bus, _) = UsbBus::new(&clocks, BDT, BUFS);
    bus
}

#[test]
fn descriptor_fields() {
    let d = make_bd_desc(64, true, true, true, false);
    assert_eq!(d, (64 << 16) | 0x80 | 0x40 | 0x08);
    assert_eq!(bd_byte_count(d), 64);
    assert_eq!(bd_pid(0x0D << 2), 0x0D);
    assert_eq!(bd_byte_count(make_bd_desc(0x7FF, false, false, false, true)), 0x3FF);
    assert_eq!(bdt_index(3, true, true), 15);
    assert_eq!(bdt_index(0, false, false), 0);
}

#[test]
fn endpoint_allocation() {
    let mut b = bus();
    let ep0 = b.alloc_ep(UsbDirection::Out, None, EndpointType::Control, 64, 0).unwrap();
    assert_eq!(ep0.index(), 0);
    let ep0_in = b.alloc_ep(UsbDirection::In, Some(EndpointAddress::from_parts(0, UsbDirection::In)), EndpointType::Control, 64, 0).unwrap();
    assert_eq!(ep0_in, EndpointAddress(0x80));
    let ep1 = b.alloc_ep(UsbDirection::In, None, EndpointType::Bulk, 64, 0).unwrap();
    assert_eq!(ep1.index(), 1);
    assert_eq!(ep1.direction(), UsbDirection::In);
    assert_eq!(
        b.alloc_ep(UsbDirection::In, Some(EndpointAddress(0x81)), EndpointType::Interrupt, 8, 1),
        Err(UsbError::InvalidEndpoint)
    );
    assert_eq!(b.alloc_ep(UsbDirection::In, None, EndpointType::Bulk, 65, 0), Err(UsbError::EndpointMemoryOverflow));
    for _ in 2..16 {
        assert!(b.alloc_ep(UsbDirection::Out, None, EndpointType::Bulk, 64, 0).is_ok());
    }
    assert_eq!(b.alloc_ep(UsbDirection::Out, None, EndpointType::Bulk, 64, 0), Err(UsbError::EndpointOverflow));
}

#[test]
fn write_flips_bank_and_toggle() {
    let mut b = bus();
    let ep = b.alloc_ep(UsbDirection::In, None, EndpointType::Bulk, 64, 0).unwrap();
    assert_eq!(b.tx_bank(1), 6);
    let (n, ops) = b.write(ep, 100, 0).unwrap();
    assert_eq!(n, 64);
    assert_eq!(ops, vec![
        RegOp::Write { addr: BDT + 8 * 6 + 4, width: Width::W32, value: BUFS + 64 * 6 },
        RegOp::Write { addr: BDT + 8 * 6, width: Width::W32, value: (64 << 16) | 0x80 | 0x08 },
    ]);
    assert_eq!(b.tx_bank(1), 7);
    let (n, ops) = b.write(ep, 3, 0).unwrap();
    assert_eq!(n, 3);
    assert_eq!(ops[1], RegOp::Write { addr: BDT + 8 * 7, width: Width::W32, value: (3 << 16) | 0x80 | 0x40 | 0x08 });
    assert_eq!(b.write(ep, 3, 0x80), Err(UsbError::WouldBlock));
    assert_eq!(b.write(EndpointAddress(0x85), 3, 0), Err(UsbError::InvalidEndpoint));
}

#[test]
fn stalled_endpoint_refuses_writes() {
    let mut b = bus();
    let ep = b.alloc_ep(UsbDirection::In, None, EndpointType::Interrupt, 8, 1).unwrap();
    let _ = b.set_stalled(ep, true);
    assert!(b.is_stalled(ep));
    assert_eq!(b.write(ep, 1, 0), Err(UsbError::InvalidState));
    let _ = b.set_stalled(ep, false);
    assert!(!b.is_stalled(ep));
    assert!(b.write(ep, 1, 0).is_ok());
}

#[test]
fn address_and_suspend() {
    let b = bus();
    assert_eq!(b.set_device_address(0xFF), vec![RegOp::Write { addr: 0x4007_2098, width: Width::W8, value: 0x7F }]);
    assert!(b.suspend().is_empty());
}

#[test]
fn poll_reports_reset_first() {
    let b = bus();
    let none = PollTokens { ep_out: 0, ep_in_complete: 0, ep_setup: 0 };
    let (res, ops) = b.poll_finish(0x01 | 0x10, 0, none);
    assert_eq!(res, PollResult::Reset);
    assert_eq!(ops, vec![RegOp::Write { addr: 0x4007_2080, width: Width::W8, value: 0x01 }]);
    let (res, _) = b.poll_finish(0x00, 0, none);
    assert_eq!(res, PollResult::NoEvent);
    let some = PollTokens { ep_out: 2, ep_in_complete: 0, ep_setup: 0 };
    let (res, _) = b.poll_finish(0x10, 0, some);
    assert_eq!(res, PollResult::Data { ep_out: 2, ep_in_complete: 0, ep_setup: 0 });
    let (res, _) = b.poll_finish(0x10, 0, none);
    assert_eq!(res, PollResult::Suspend);
}
