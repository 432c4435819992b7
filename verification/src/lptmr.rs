//! Low-Power Timer (LPTMR0): a 16-bit time counter that keeps running in
//! low-power modes, clocked from MCGIRCLK, the 1 kHz LPO, ERCLK32K or
//! OSCERCLK.

use vstd::prelude::*;

use crate::regs::{RegOp, Width, write_op, modify_op};

verus! {

/// LPTMR0 and SIM register addresses.
pub const LPTMR_CSR: u32 = 0x4004_0000;
pub const LPTMR_PSR: u32 = 0x4004_0004;
pub const LPTMR_CMR: u32 = 0x4004_0008;
pub const LPTMR_CNR: u32 = 0x4004_000C;
pub const SIM_SCGC5: u32 = 0x4004_8038;

/// CSR bits.
pub const CSR_TEN: u32 = 0x01;
pub const CSR_TIE: u32 = 0x40;
pub const CSR_TCF: u32 = 0x80;
/// PSR prescaler bypass bit.
pub const PSR_PBYP: u32 = 0x04;

/// Clock source of the timer.
#[derive(Clone, Copy, Debug, PartialEq, Eq, Structural)]
pub enum LptmrClock {
    /// MCGIRCLK (internal reference clock).
    McgIrClk,
    /// LPO, the 1 kHz low-power oscillator.
    Lpo1kHz,
    /// ERCLK32K, the 32.768 kHz oscillator.
    ErClk32k,
    /// OSCERCLK (external reference clock).
    OscErClk,
}

/// Prescaler divider.
#[derive(Clone, Copy, Debug, PartialEq, Eq, Structural)]
pub enum Prescaler {
    Bypass,
    Div2,
    Div4,
    Div8,
    Div16,
    Div32,
    Div64,
    Div128,
    Div256,
    Div512,
    Div1024,
    Div2048,
    Div4096,
    Div8192,
    Div16384,
    Div32768,
    Div65536,
}

/// PSR.PCS code of a clock source.
pub open spec fn pcs_code(c: LptmrClock) -> u32 {
    match c {
        LptmrClock::McgIrClk => 0,
        LptmrClock::Lpo1kHz => 1,
        LptmrClock::ErClk32k => 2,
        LptmrClock::OscErClk => 3,
    }
}

/// PSR.PRESCALE code of a divider (2^(code+1)); 0 for the bypass.
pub open spec fn prescale_code(p: Prescaler) -> u32 {
    match p {
        Prescaler::Bypass => 0,
        Prescaler::Div2 => 0,
        Prescaler::Div4 => 1,
        Prescaler::Div8 => 2,
        Prescaler::Div16 => 3,
        Prescaler::Div32 => 4,
        Prescaler::Div64 => 5,
        Prescaler::Div128 => 6,
        Prescaler::Div256 => 7,
        Prescaler::Div512 => 8,
        Prescaler::Div1024 => 9,
        Prescaler::Div2048 => 10,
        Prescaler::Div4096 => 11,
        Prescaler::Div8192 => 12,
        Prescaler::Div16384 => 13,
        Prescaler::Div32768 => 14,
        Prescaler::Div65536 => 15,
    }
}

/// The PSR value for a clock source and a prescaler: PCS, then PBYP for
/// the bypass, PRESCALE otherwise.
pub open spec fn psr_value(c: LptmrClock, p: Prescaler) -> u32 {
    if p == Prescaler::Bypass {
        pcs_code(c) | PSR_PBYP
    } else {
        pcs_code(c) | (prescale_code(p) << 3u32)
    }
}

/// The compare value for a period in milliseconds: one tick per ms on the
/// LPO, 32.768 ticks per ms (rounded down) on ERCLK32K, the period itself
/// on the other sources; capped at 65535, and at least 1.
pub open spec fn period_compare(period_ms: u32, clock: LptmrClock) -> u16 {
    let ticks: int = if clock == LptmrClock::ErClk32k { period_ms * 32768 / 1000 } else { period_ms as int };
    let capped: int = if ticks > 65535 { 65535 } else { ticks };
    if capped < 1 { 1u16 } else { capped as u16 }
}

/// The program that (re)starts the timer: disable, PSR, CMR, then enable
/// in time counter mode with reset on compare (TMS = 0, TFC = 0).
pub open spec fn start_program(psr: u32, compare: u16) -> Seq<RegOp> {
    seq![
        RegOp::Write { addr: LPTMR_CSR, width: Width::W32, value: 0 },
        RegOp::Write { addr: LPTMR_PSR, width: Width::W32, value: psr },
        RegOp::Write { addr: LPTMR_CMR, width: Width::W32, value: compare as u32 },
        RegOp::Write { addr: LPTMR_CSR, width: Width::W32, value: CSR_TEN },
    ]
}

fn pcs(clock: LptmrClock) -> (r: u32)
    ensures
        r == pcs_code(clock),
{
    match clock {
        LptmrClock::McgIrClk => 0,
        LptmrClock::Lpo1kHz => 1,
        LptmrClock::ErClk32k => 2,
        LptmrClock::OscErClk => 3,
    }
}

fn start_ops(psr: u32, compare: u16) -> (r: Vec<RegOp>)
    ensures
        r@ == start_program(psr, compare),
{
    let mut ops = write_op(LPTMR_CSR, Width::W32, 0);
    ops.push(RegOp::Write { addr: LPTMR_PSR, width: Width::W32, value: psr });
    ops.push(RegOp::Write { addr: LPTMR_CMR, width: Width::W32, value: compare as u32 });
    ops.push(RegOp::Write { addr: LPTMR_CSR, width: Width::W32, value: CSR_TEN });
    ops
}

/// Low-power timer driver.
pub struct Lptmr {
    _private: (),
}

/// What [`Lptmr::wait`] found.
#[derive(Clone, Copy, Debug, PartialEq, Eq, Structural)]
pub enum WaitResult {
    /// The compare flag was set (and is cleared by the program returned).
    Fired,
    /// The timer has not fired yet.
    WouldBlock,
}

impl Lptmr {
    /// Enable the LPTMR clock gate and stop the timer.
    pub fn new() -> (r: (Self, Vec<RegOp>))
        ensures
            r.1@ == seq![
                RegOp::Modify { addr: SIM_SCGC5, width: Width::W32, clear: 0, set: 0x01 },
                RegOp::Write { addr: LPTMR_CSR, width: Width::W32, value: 0 },
            ],
    {
        let mut ops = modify_op(SIM_SCGC5, Width::W32, 0, 0x01);
        ops.push(RegOp::Write { addr: LPTMR_CSR, width: Width::W32, value: 0 });
        (Lptmr { _private: () }, ops)
    }

    /// Start the timer with a period in milliseconds on `clock`, prescaler
    /// bypassed; the compare value is [`period_compare`].
    pub fn start(&mut self, period_ms: u32, clock: LptmrClock) -> (r: Vec<RegOp>)
        ensures
            r@ == start_program(pcs_code(clock) | PSR_PBYP, period_compare(period_ms, clock)),
            1 <= period_compare(period_ms, clock) <= 65535,
    {
        let psr: u32 = pcs(clock) | PSR_PBYP;
        let ticks: u64 = match clock {
            LptmrClock::ErClk32k => period_ms as u64 * 32768 / 1000,
            _ => period_ms as u64,
        };
        let capped: u64 = if ticks > 65535 { 65535 } else { ticks };
        let compare: u16 = if capped < 1 { 1 } else { capped as u16 };
        start_ops(psr, compare)
    }

    /// Start the timer with an explicit clock, prescaler and compare value
    /// (raised to at least 1).
    pub fn start_raw(&mut self, clock: LptmrClock, prescaler: Prescaler, compare: u16) -> (r: Vec<RegOp>)
        ensures
            r@ == start_program(psr_value(clock, prescaler), if compare < 1 { 1 } else { compare }),
    {
        let val: u32 = match prescaler {
            Prescaler::Bypass => 0,
            Prescaler::Div2 => 0,
            Prescaler::Div4 => 1,
            Prescaler::Div8 => 2,
            Prescaler::Div16 => 3,
            Prescaler::Div32 => 4,
            Prescaler::Div64 => 5,
            Prescaler::Div128 => 6,
            Prescaler::Div256 => 7,
            Prescaler::Div512 => 8,
            Prescaler::Div1024 => 9,
            Prescaler::Div2048 => 10,
            Prescaler::Div4096 => 11,
            Prescaler::Div8192 => 12,
            Prescaler::Div16384 => 13,
            Prescaler::Div32768 => 14,
            Prescaler::Div65536 => 15,
        };
        let psr: u32 = match prescaler {
            Prescaler::Bypass => pcs(clock) | PSR_PBYP,
            _ => pcs(clock) | (val << 3u32),
        };
        let compare: u16 = if compare < 1 { 1 } else { compare };
        start_ops(psr, compare)
    }

    /// Poll for a compare match, given CSR: when TCF is set, `Fired` and
    /// the write-one-to-clear of TCF; otherwise `WouldBlock` and nothing.
    pub fn wait(&mut self, csr: u32) -> (r: (WaitResult, Vec<RegOp>))
        ensures
            csr & CSR_TCF != 0 ==> r.0 == WaitResult::Fired && r.1@ == seq![RegOp::Modify { addr: LPTMR_CSR, width: Width::W32, clear: 0, set: CSR_TCF }],
            csr & CSR_TCF == 0 ==> r.0 == WaitResult::WouldBlock && r.1@ == Seq::<RegOp>::empty(),
    {
        if csr & CSR_TCF != 0 {
            (WaitResult::Fired, modify_op(LPTMR_CSR, Width::W32, 0, CSR_TCF))
        } else {
            (WaitResult::WouldBlock, Vec::new())
        }
    }

    /// Stop the timer.
    pub fn cancel(&mut self) -> (r: Vec<RegOp>)
        ensures
            r@ == seq![RegOp::Write { addr: LPTMR_CSR, width: Width::W32, value: 0 }],
    {
        write_op(LPTMR_CSR, Width::W32, 0)
    }

    /// The write that latches the current count into CNR; read CNR after it
    /// and decode it with [`Lptmr::count`].
    pub fn latch_count(&self) -> (r: Vec<RegOp>)
        ensures
            r@ == seq![RegOp::Write { addr: LPTMR_CNR, width: Width::W32, value: 0 }],
    {
        write_op(LPTMR_CNR, Width::W32, 0)
    }

    /// The counter value, given CNR read after the latch.
    pub fn count(&self, cnr: u32) -> (r: u16)
        ensures
            r == (cnr & 0xFFFF) as u16,
    {
        (cnr & 0xFFFF) as u16
    }

    /// Enable the timer interrupt (TIE).
    pub fn enable_interrupt(&mut self) -> (r: Vec<RegOp>)
        ensures
            r@ == seq![RegOp::Modify { addr: LPTMR_CSR, width: Width::W32, clear: CSR_TIE, set: CSR_TIE }],
    {
        modify_op(LPTMR_CSR, Width::W32, CSR_TIE, CSR_TIE)
    }

    /// Disable the timer interrupt.
    pub fn disable_interrupt(&mut self) -> (r: Vec<RegOp>)
        ensures
            r@ == seq![RegOp::Modify { addr: LPTMR_CSR, width: Width::W32, clear: CSR_TIE, set: 0 }],
    {
        modify_op(LPTMR_CSR, Width::W32, CSR_TIE, 0)
    }

    /// Clear the compare flag (TCF is write-one-to-clear).
    pub fn clear_flag(&mut self) -> (r: Vec<RegOp>)
        ensures
            r@ == seq![RegOp::Modify { addr: LPTMR_CSR, width: Width::W32, clear: 0, set: CSR_TCF }],
    {
        modify_op(LPTMR_CSR, Width::W32, 0, CSR_TCF)
    }

    /// Release the timer: it is stopped first.
    pub fn release(self) -> (r: Vec<RegOp>)
        ensures
            r@ == seq![RegOp::Write { addr: LPTMR_CSR, width: Width::W32, value: 0 }],
    {
        write_op(LPTMR_CSR, Width::W32, 0)
    }
}

/// On the LPO a period of 1 to 65535 ms is counted exactly: the compare
/// value is the period itself. On ERCLK32K one second is 32768 ticks.
pub proof fn lemma_period_compare_exact(period_ms: u32)
    ensures
        1 <= period_ms <= 65535 ==> period_compare(period_ms, LptmrClock::Lpo1kHz) == period_ms,
        period_compare(1000, LptmrClock::ErClk32k) == 32768,
        period_compare(0, LptmrClock::Lpo1kHz) == 1,
        period_ms > 65535 ==> period_compare(period_ms, LptmrClock::Lpo1kHz) == 65535,
{
}

/// The LPTMR0 peripheral.
pub struct Lptmr0Peripheral;

/// Taking the low-power timer.
pub trait LptmrExt {
    /// Enable the clock gate, stop the timer, and return the driver.
    fn lptmr(self) -> (Lptmr, Vec<RegOp>);
}

impl LptmrExt for Lptmr0Peripheral {
    fn lptmr(self) -> (r: (Lptmr, Vec<RegOp>))
        ensures
            r.1@ == seq![
                RegOp::Modify { addr: SIM_SCGC5, width: Width::W32, clear: 0, set: 0x01 },
                RegOp::Write { addr: LPTMR_CSR, width: Width::W32, value: 0 },
            ],
    {
        Lptmr::new()
    }
}

} // verus!
