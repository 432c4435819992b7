//! Watchdog (WDOG): the unlock sequence and disable.

use vstd::prelude::*;

use crate::regs::{RegOp, Width, write_op};

verus! {

/// WDOG register addresses (16-bit registers).
pub const WDOG_STCTRLH: u32 = 0x4005_2000;
pub const WDOG_UNLOCK: u32 = 0x4005_200E;
/// The two unlock keys, written in this order.
pub const UNLOCK_KEY1: u32 = 0xC520;
pub const UNLOCK_KEY2: u32 = 0xD928;
/// STCTRLH reset value with WDOGEN cleared.
pub const STCTRLH_DISABLED: u32 = 0x01D2;

/// The program that disables the watchdog: the two unlock keys, then
/// STCTRLH at its reset value with WDOGEN clear. The keys must land within
/// 20 bus cycles of each other and the STCTRLH write within 256 bus cycles
/// of the unlock, so it runs with interrupts masked.
pub open spec fn disable_program() -> Seq<RegOp> {
    seq![
        RegOp::Write { addr: WDOG_UNLOCK, width: Width::W16, value: UNLOCK_KEY1 },
        RegOp::Write { addr: WDOG_UNLOCK, width: Width::W16, value: UNLOCK_KEY2 },
        RegOp::Write { addr: WDOG_STCTRLH, width: Width::W16, value: STCTRLH_DISABLED },
    ]
}

/// The watchdog peripheral.
pub struct Wdog;

/// Watchdog control.
pub trait WdogExt {
    /// Disable the watchdog (see [`disable_program`]).
    fn disable(self) -> (r: Vec<RegOp>)
        ensures
            r@ == disable_program();
}

impl WdogExt for Wdog {
    fn disable(self) -> (r: Vec<RegOp>) {
        let mut ops = write_op(WDOG_UNLOCK, Width::W16, UNLOCK_KEY1);
        ops.push(RegOp::Write { addr: WDOG_UNLOCK, width: Width::W16, value: UNLOCK_KEY2 });
        ops.push(RegOp::Write { addr: WDOG_STCTRLH, width: Width::W16, value: STCTRLH_DISABLED });
        ops
    }
}

} // verus!
