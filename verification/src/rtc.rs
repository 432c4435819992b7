//! Real-Time Clock: a 32-bit seconds counter on the 32.768 kHz oscillator,
//! with an alarm.

use vstd::prelude::*;

use crate::regs::{RegOp, Width, write_op, modify_op};

verus! {

/// RTC register addresses.
pub const RTC_TSR: u32 = 0x4003_D000;
pub const RTC_TAR: u32 = 0x4003_D008;
pub const RTC_CR: u32 = 0x4003_D010;
pub const RTC_SR: u32 = 0x4003_D014;
pub const RTC_IER: u32 = 0x4003_D01C;
pub const SIM_SCGC6: u32 = 0x4004_803C;
/// SIM_SCGC6 clock gate of the RTC.
pub const SCGC6_RTC: u32 = 0x2000_0000;

/// CR bits.
pub const CR_SWR: u32 = 0x0001;
pub const CR_OSCE: u32 = 0x0100;
pub const CR_SC8P: u32 = 0x0800;
pub const CR_SC2P: u32 = 0x2000;
/// SR bits.
pub const SR_TIF: u32 = 0x01;
pub const SR_TAF: u32 = 0x04;
pub const SR_TCE: u32 = 0x10;
/// IER bits.
pub const IER_TAIE: u32 = 0x04;
pub const IER_TSIE: u32 = 0x10;

/// The time is invalid (SR.TIF): it has not been set since power-on.
#[derive(Clone, Copy, Debug, PartialEq, Eq, Structural)]
pub struct TimeInvalid;

/// The program that brings the RTC up once its clock gate is on, given CR
/// and SR: software reset released if set, the oscillator enabled with
/// about 10 pF of load if it is off, every interrupt disabled, and the
/// counter started if the time is valid and it is not running.
pub open spec fn init_program(cr: u32, sr: u32) -> Seq<RegOp> {
    (if cr & CR_SWR != 0 { seq![RegOp::Modify { addr: RTC_CR, width: Width::W32, clear: CR_SWR, set: 0 }] } else { Seq::empty() })
        + (if cr & CR_OSCE == 0 {
            seq![RegOp::Modify { addr: RTC_CR, width: Width::W32, clear: 0, set: CR_OSCE | CR_SC8P | CR_SC2P }]
        } else {
            Seq::empty()
        })
        + seq![RegOp::Write { addr: RTC_IER, width: Width::W32, value: 0 }]
        + (if sr & SR_TIF == 0 && sr & SR_TCE == 0 { seq![RegOp::Write { addr: RTC_SR, width: Width::W32, value: SR_TCE }] } else { Seq::empty() })
}

/// Real-time clock driver.
pub struct Rtc {
    _private: (),
}

impl Rtc {
    /// Enable the RTC clock gate; then read CR and SR for [`Rtc::new`].
    pub fn clock_gate() -> (r: Vec<RegOp>)
        ensures
            r@ == seq![RegOp::Modify { addr: SIM_SCGC6, width: Width::W32, clear: 0, set: SCGC6_RTC }],
    {
        modify_op(SIM_SCGC6, Width::W32, 0, SCGC6_RTC)
    }

    /// Bring the RTC up, given CR and SR (see [`init_program`]).
    pub fn new(cr: u32, sr: u32) -> (r: (Self, Vec<RegOp>))
        ensures
            r.1@ == init_program(cr, sr),
    {
        let mut ops: Vec<RegOp> = Vec::new();
        if cr & CR_SWR != 0 {
            ops.push(RegOp::Modify { addr: RTC_CR, width: Width::W32, clear: CR_SWR, set: 0 });
        }
        if cr & CR_OSCE == 0 {
            ops.push(RegOp::Modify { addr: RTC_CR, width: Width::W32, clear: 0, set: CR_OSCE | CR_SC8P | CR_SC2P });
        }
        ops.push(RegOp::Write { addr: RTC_IER, width: Width::W32, value: 0 });
        if sr & SR_TIF == 0 && sr & SR_TCE == 0 {
            ops.push(RegOp::Write { addr: RTC_SR, width: Width::W32, value: SR_TCE });
        }
        proof {
            let a: Seq<RegOp> = if cr & CR_SWR != 0 { seq![RegOp::Modify { addr: RTC_CR, width: Width::W32, clear: CR_SWR, set: 0 }] } else { Seq::empty() };
            assert(a + Seq::<RegOp>::empty() =~= a);
        }
        (Rtc { _private: () }, ops)
    }

    /// Whether the time is valid, given SR (TIF clear).
    pub fn time_is_valid(&self, sr: u32) -> (r: bool)
        ensures
            r == (sr & SR_TIF == 0),
    {
        sr & SR_TIF == 0
    }

    /// The time in seconds, given SR and TSR; `TimeInvalid` when TIF is set.
    pub fn seconds(&self, sr: u32, tsr: u32) -> (r: Result<u32, TimeInvalid>)
        ensures
            sr & SR_TIF != 0 ==> r == Err::<u32, TimeInvalid>(TimeInvalid),
            sr & SR_TIF == 0 ==> r == Ok::<u32, TimeInvalid>(tsr),
    {
        if sr & SR_TIF != 0 {
            return Err(TimeInvalid);
        }
        Ok(tsr)
    }

    /// Set the time: the counter is stopped (TSR is writable only then),
    /// TSR written, and the counter restarted.
    pub fn set_time(&mut self, seconds: u32) -> (r: Vec<RegOp>)
        ensures
            r@ == seq![
                RegOp::Write { addr: RTC_SR, width: Width::W32, value: 0 },
                RegOp::Write { addr: RTC_TSR, width: Width::W32, value: seconds },
                RegOp::Write { addr: RTC_SR, width: Width::W32, value: SR_TCE },
            ],
    {
        let mut ops = write_op(RTC_SR, Width::W32, 0);
        ops.push(RegOp::Write { addr: RTC_TSR, width: Width::W32, value: seconds });
        ops.push(RegOp::Write { addr: RTC_SR, width: Width::W32, value: SR_TCE });
        ops
    }

    /// Set the alarm time (TAR); the alarm fires when TSR equals it.
    pub fn set_alarm(&mut self, seconds: u32) -> (r: Vec<RegOp>)
        ensures
            r@ == seq![RegOp::Write { addr: RTC_TAR, width: Width::W32, value: seconds }],
    {
        write_op(RTC_TAR, Width::W32, seconds)
    }

    /// Whether the alarm fired, given SR (TAF).
    pub fn alarm_fired(&self, sr: u32) -> (r: bool)
        ensures
            r == (sr & SR_TAF != 0),
    {
        sr & SR_TAF != 0
    }

    /// Clear the alarm flag (any write to TAR does; 0 is written).
    pub fn clear_alarm(&mut self) -> (r: Vec<RegOp>)
        ensures
            r@ == seq![RegOp::Write { addr: RTC_TAR, width: Width::W32, value: 0 }],
    {
        write_op(RTC_TAR, Width::W32, 0)
    }

    /// Enable the alarm interrupt (IER.TAIE).
    pub fn enable_alarm_interrupt(&mut self) -> (r: Vec<RegOp>)
        ensures
            r@ == seq![RegOp::Modify { addr: RTC_IER, width: Width::W32, clear: IER_TAIE, set: IER_TAIE }],
    {
        modify_op(RTC_IER, Width::W32, IER_TAIE, IER_TAIE)
    }

    /// Disable the alarm interrupt.
    pub fn disable_alarm_interrupt(&mut self) -> (r: Vec<RegOp>)
        ensures
            r@ == seq![RegOp::Modify { addr: RTC_IER, width: Width::W32, clear: IER_TAIE, set: 0 }],
    {
        modify_op(RTC_IER, Width::W32, IER_TAIE, 0)
    }

    /// Enable the once-per-second interrupt (IER.TSIE).
    pub fn enable_seconds_interrupt(&mut self) -> (r: Vec<RegOp>)
        ensures
            r@ == seq![RegOp::Modify { addr: RTC_IER, width: Width::W32, clear: IER_TSIE, set: IER_TSIE }],
    {
        modify_op(RTC_IER, Width::W32, IER_TSIE, IER_TSIE)
    }

    /// Disable the once-per-second interrupt.
    pub fn disable_seconds_interrupt(&mut self) -> (r: Vec<RegOp>)
        ensures
            r@ == seq![RegOp::Modify { addr: RTC_IER, width: Width::W32, clear: IER_TSIE, set: 0 }],
    {
        modify_op(RTC_IER, Width::W32, IER_TSIE, 0)
    }

    /// Start the counter (SR.TCE).
    pub fn enable(&mut self) -> (r: Vec<RegOp>)
        ensures
            r@ == seq![RegOp::Write { addr: RTC_SR, width: Width::W32, value: SR_TCE }],
    {
        write_op(RTC_SR, Width::W32, SR_TCE)
    }

    /// Stop the counter.
    pub fn disable(&mut self) -> (r: Vec<RegOp>)
        ensures
            r@ == seq![RegOp::Write { addr: RTC_SR, width: Width::W32, value: 0 }],
    {
        write_op(RTC_SR, Width::W32, 0)
    }
}

/// The RTC peripheral.
pub struct RtcPeripheral;

/// Taking the real-time clock.
pub trait RtcExt {
    /// Bring the RTC up, given CR and SR read after [`Rtc::clock_gate`]
    /// (see [`init_program`]).
    fn rtc(self, cr: u32, sr: u32) -> (Rtc, Vec<RegOp>);
}

impl RtcExt for RtcPeripheral {
    fn rtc(self, cr: u32, sr: u32) -> (r: (Rtc, Vec<RegOp>))
        ensures
            r.1@ == init_program(cr, sr),
    {
        Rtc::new(cr, sr)
    }
}

} // verus!
