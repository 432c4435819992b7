//! Periodic Interrupt Timer (PIT): four 32-bit down-counters on the bus
//! clock, each reloading from LDVAL and flagging TIF when it reaches zero.

use vstd::prelude::*;

use crate::clocks::Clocks;
use crate::regs::{RegOp, Width, write_op, modify_op};

verus! {

/// PIT and SIM register addresses.
pub const PIT_MCR: u32 = 0x4003_7000;
/// Channel 0's registers; channel n's are 16 * n further.
pub const PIT_LDVAL0: u32 = 0x4003_7100;
pub const PIT_CVAL0: u32 = 0x4003_7104;
pub const PIT_TCTRL0: u32 = 0x4003_7108;
pub const PIT_TFLG0: u32 = 0x4003_710C;
pub const SIM_SCGC6: u32 = 0x4004_803C;
/// SIM_SCGC6 clock gate of the PIT.
pub const SCGC6_PIT: u32 = 0x0080_0000;

/// TCTRL and TFLG bits.
pub const TCTRL_TEN: u32 = 0x01;
pub const TCTRL_TIE: u32 = 0x02;
pub const TFLG_TIF: u32 = 0x01;

/// Address of a channel register (`off` is channel 0's address).
pub open spec fn pit_reg(off: u32, ch: u8) -> u32 {
    (off + 16 * ch) as u32
}

fn reg(off: u32, ch: u8) -> (r: u32)
    requires
        ch < 4,
        off <= PIT_TFLG0,
    ensures
        r == pit_reg(off, ch),
{
    off + 16 * ch as u32
}

/// The load value for a period of `us` microseconds at `bus_clk` Hz: the
/// period in bus ticks, minus one (the counter counts LDVAL down to 0),
/// never below 0 and at most `u32::MAX`.
pub open spec fn period_ticks(us: u32, bus_clk: u32) -> u32 {
    let t: int = us * bus_clk / 1_000_000;
    if t == 0 {
        0
    } else if t - 1 > u32::MAX {
        u32::MAX
    } else {
        (t - 1) as u32
    }
}

/// The program that (re)starts a channel with load value `ticks`: stop,
/// load, clear the flag, start.
pub open spec fn start_program(ch: u8, ticks: u32) -> Seq<RegOp> {
    seq![
        RegOp::Modify { addr: pit_reg(PIT_TCTRL0, ch), width: Width::W32, clear: TCTRL_TEN, set: 0 },
        RegOp::Write { addr: pit_reg(PIT_LDVAL0, ch), width: Width::W32, value: ticks },
        RegOp::Write { addr: pit_reg(PIT_TFLG0, ch), width: Width::W32, value: TFLG_TIF },
        RegOp::Modify { addr: pit_reg(PIT_TCTRL0, ch), width: Width::W32, clear: 0, set: TCTRL_TEN },
    ]
}

fn ticks_for(us: u32, bus_clk: u32) -> (r: u32)
    ensures
        r == period_ticks(us, bus_clk),
{
    assert(us as u64 * bus_clk as u64 <= u64::MAX) by (nonlinear_arith)
        requires
            us <= u32::MAX,
            bus_clk <= u32::MAX,
    ;
    let prod: u64 = us as u64 * bus_clk as u64;
    let t: u64 = prod / 1_000_000;
    if t == 0 {
        0
    } else if t - 1 > u32::MAX as u64 {
        u32::MAX
    } else {
        (t - 1) as u32
    }
}

/// All four channels, as handed out by [`PitChannels::split`].
pub struct PitChannels {
    pub ch0: PitChannel<0>,
    pub ch1: PitChannel<1>,
    pub ch2: PitChannel<2>,
    pub ch3: PitChannel<3>,
}

/// One PIT channel; it knows the bus clock it counts.
pub struct PitChannel<const CH: u8> {
    bus_clk: u32,
}

/// What a poll of a channel found.
#[derive(Clone, Copy, Debug, PartialEq, Eq, Structural)]
pub enum PitPoll {
    /// The period elapsed.
    Expired,
    /// Not yet.
    Pending,
}

impl PitChannels {
    /// Enable the PIT (clock gate, MDIS clear, frozen in debug) and hand
    /// out the channels.
    pub fn split(clocks: &Clocks) -> (r: (Self, Vec<RegOp>))
        ensures
            r.1@ == seq![
                RegOp::Modify { addr: SIM_SCGC6, width: Width::W32, clear: 0, set: SCGC6_PIT },
                RegOp::Write { addr: PIT_MCR, width: Width::W32, value: 0x01 },
            ],
            r.0.ch0.bus() == clocks.bus_hz(),
            r.0.ch1.bus() == clocks.bus_hz(),
            r.0.ch2.bus() == clocks.bus_hz(),
            r.0.ch3.bus() == clocks.bus_hz(),
    {
        let bus_clk = clocks.bus_clk().raw();
        let mut ops = modify_op(SIM_SCGC6, Width::W32, 0, SCGC6_PIT);
        ops.push(RegOp::Write { addr: PIT_MCR, width: Width::W32, value: 0x01 });
        let chans = PitChannels {
            ch0: PitChannel { bus_clk },
            ch1: PitChannel { bus_clk },
            ch2: PitChannel { bus_clk },
            ch3: PitChannel { bus_clk },
        };
        (chans, ops)
    }
}

impl<const CH: u8> PitChannel<CH> {
    /// The bus clock the channel counts, in Hz.
    pub closed spec fn bus(&self) -> u32 {
        self.bus_clk
    }

    /// Start a periodic countdown of `period_us` microseconds (see
    /// [`period_ticks`]).
    pub fn start(&mut self, period_us: u32) -> (r: Vec<RegOp>)
        requires
            CH < 4,
        ensures
            r@ == start_program(CH, period_ticks(period_us, old(self).bus())),
            final(self).bus() == old(self).bus(),
    {
        let ticks = ticks_for(period_us, self.bus_clk);
        self.start_ticks(ticks)
    }

    /// Start a periodic countdown from `ticks` (see [`start_program`]).
    pub fn start_ticks(&mut self, ticks: u32) -> (r: Vec<RegOp>)
        requires
            CH < 4,
        ensures
            r@ == start_program(CH, ticks),
            final(self).bus() == old(self).bus(),
    {
        let mut ops = modify_op(reg(PIT_TCTRL0, CH), Width::W32, TCTRL_TEN, 0);
        ops.push(RegOp::Write { addr: reg(PIT_LDVAL0, CH), width: Width::W32, value: ticks });
        ops.push(RegOp::Write { addr: reg(PIT_TFLG0, CH), width: Width::W32, value: TFLG_TIF });
        ops.push(RegOp::Modify { addr: reg(PIT_TCTRL0, CH), width: Width::W32, clear: 0, set: TCTRL_TEN });
        ops
    }

    /// Poll for expiry, given TFLG: when TIF is set, `Expired` and the
    /// write that clears it; otherwise `Pending` and nothing.
    pub fn wait(&mut self, tflg: u32) -> (r: (PitPoll, Vec<RegOp>))
        requires
            CH < 4,
        ensures
            tflg & TFLG_TIF != 0 ==> r.0 == PitPoll::Expired && r.1@ == seq![RegOp::Write { addr: pit_reg(PIT_TFLG0, CH), width: Width::W32, value: TFLG_TIF }],
            tflg & TFLG_TIF == 0 ==> r.0 == PitPoll::Pending && r.1@ == Seq::<RegOp>::empty(),
    {
        if tflg & TFLG_TIF != 0 {
            (PitPoll::Expired, write_op(reg(PIT_TFLG0, CH), Width::W32, TFLG_TIF))
        } else {
            (PitPoll::Pending, Vec::new())
        }
    }

    /// Stop the channel.
    pub fn cancel(&mut self) -> (r: Vec<RegOp>)
        requires
            CH < 4,
        ensures
            r@ == seq![RegOp::Modify { addr: pit_reg(PIT_TCTRL0, CH), width: Width::W32, clear: TCTRL_TEN, set: 0 }],
    {
        modify_op(reg(PIT_TCTRL0, CH), Width::W32, TCTRL_TEN, 0)
    }

    /// The current count, given CVAL.
    pub fn current(&self, cval: u32) -> (r: u32)
        ensures
            r == cval,
    {
        cval
    }

    /// Enable the channel interrupt, with any stale flag cleared first.
    pub fn enable_interrupt(&mut self) -> (r: Vec<RegOp>)
        requires
            CH < 4,
        ensures
            r@ == seq![
                RegOp::Write { addr: pit_reg(PIT_TFLG0, CH), width: Width::W32, value: TFLG_TIF },
                RegOp::Modify { addr: pit_reg(PIT_TCTRL0, CH), width: Width::W32, clear: 0, set: TCTRL_TIE },
            ],
    {
        let mut ops = write_op(reg(PIT_TFLG0, CH), Width::W32, TFLG_TIF);
        ops.push(RegOp::Modify { addr: reg(PIT_TCTRL0, CH), width: Width::W32, clear: 0, set: TCTRL_TIE });
        ops
    }

    /// Disable the channel interrupt.
    pub fn disable_interrupt(&mut self) -> (r: Vec<RegOp>)
        requires
            CH < 4,
        ensures
            r@ == seq![RegOp::Modify { addr: pit_reg(PIT_TCTRL0, CH), width: Width::W32, clear: TCTRL_TIE, set: 0 }],
    {
        modify_op(reg(PIT_TCTRL0, CH), Width::W32, TCTRL_TIE, 0)
    }

    /// Whether the period elapsed, given TFLG.
    pub fn has_expired(&self, tflg: u32) -> (r: bool)
        ensures
            r == (tflg & TFLG_TIF != 0),
    {
        tflg & TFLG_TIF != 0
    }

    /// Clear the expiry flag (write one to clear).
    pub fn clear_interrupt(&mut self) -> (r: Vec<RegOp>)
        requires
            CH < 4,
        ensures
            r@ == seq![RegOp::Write { addr: pit_reg(PIT_TFLG0, CH), width: Width::W32, value: TFLG_TIF }],
    {
        write_op(reg(PIT_TFLG0, CH), Width::W32, TFLG_TIF)
    }

    /// Start a one-shot delay of `us` microseconds that ends with the
    /// channel interrupt: `None` for a zero delay (nothing to wait for);
    /// otherwise stop, load, clear the flag, and start with TIE set.
    pub fn delay_us(&mut self, us: u32) -> (r: Option<Vec<RegOp>>)
        requires
            CH < 4,
        ensures
            us == 0 ==> r is None,
            us != 0 ==> r is Some && r->Some_0@ == seq![
                RegOp::Modify { addr: pit_reg(PIT_TCTRL0, CH), width: Width::W32, clear: TCTRL_TEN, set: 0 },
                RegOp::Write { addr: pit_reg(PIT_LDVAL0, CH), width: Width::W32, value: period_ticks(us, old(self).bus()) },
                RegOp::Write { addr: pit_reg(PIT_TFLG0, CH), width: Width::W32, value: TFLG_TIF },
                RegOp::Write { addr: pit_reg(PIT_TCTRL0, CH), width: Width::W32, value: TCTRL_TEN | TCTRL_TIE },
            ],
            final(self).bus() == old(self).bus(),
    {
        if us == 0 {
            return None;
        }
        let ticks = ticks_for(us, self.bus_clk);
        let mut ops = modify_op(reg(PIT_TCTRL0, CH), Width::W32, TCTRL_TEN, 0);
        ops.push(RegOp::Write { addr: reg(PIT_LDVAL0, CH), width: Width::W32, value: ticks });
        ops.push(RegOp::Write { addr: reg(PIT_TFLG0, CH), width: Width::W32, value: TFLG_TIF });
        ops.push(RegOp::Write { addr: reg(PIT_TCTRL0, CH), width: Width::W32, value: TCTRL_TEN | TCTRL_TIE });
        Some(ops)
    }

    /// Poll a delay started by [`PitChannel::delay_us`], given TCTRL and
    /// TFLG: done when the interrupt handler already ran (TIE clear while
    /// TEN is set); done as well when the flag is set before the handler
    /// ran, which then clears it and TIE itself; otherwise pending.
    pub fn poll_delay(&mut self, tctrl: u32, tflg: u32) -> (r: (PitPoll, Vec<RegOp>))
        requires
            CH < 4,
        ensures
            tctrl & TCTRL_TIE == 0 && tctrl & TCTRL_TEN != 0 ==> r.0 == PitPoll::Expired && r.1@ == Seq::<RegOp>::empty(),
            !(tctrl & TCTRL_TIE == 0 && tctrl & TCTRL_TEN != 0) && tflg & TFLG_TIF != 0 ==> r.0 == PitPoll::Expired
                && r.1@ == isr_program(CH),
            !(tctrl & TCTRL_TIE == 0 && tctrl & TCTRL_TEN != 0) && tflg & TFLG_TIF == 0 ==> r.0 == PitPoll::Pending
                && r.1@ == Seq::<RegOp>::empty(),
    {
        if tctrl & TCTRL_TIE == 0 && tctrl & TCTRL_TEN != 0 {
            (PitPoll::Expired, Vec::new())
        } else if tflg & TFLG_TIF != 0 {
            (PitPoll::Expired, isr_ops(CH))
        } else {
            (PitPoll::Pending, Vec::new())
        }
    }
}

/// What the interrupt handler does when the flag is set: clear it and
/// disable the interrupt so it does not fire again.
pub open spec fn isr_program(ch: u8) -> Seq<RegOp> {
    seq![
        RegOp::Write { addr: pit_reg(PIT_TFLG0, ch), width: Width::W32, value: TFLG_TIF },
        RegOp::Modify { addr: pit_reg(PIT_TCTRL0, ch), width: Width::W32, clear: TCTRL_TIE, set: 0 },
    ]
}

fn isr_ops(ch: u8) -> (r: Vec<RegOp>)
    requires
        ch < 4,
    ensures
        r@ == isr_program(ch),
{
    let mut ops = write_op(reg(PIT_TFLG0, ch), Width::W32, TFLG_TIF);
    ops.push(RegOp::Modify { addr: reg(PIT_TCTRL0, ch), width: Width::W32, clear: TCTRL_TIE, set: 0 });
    ops
}

/// The interrupt handler of a channel, given its TFLG: whether to wake the
/// waiting task, and the program of [`isr_program`] when the flag is set.
fn on_pit_interrupt(ch: u8, tflg: u32) -> (r: (bool, Vec<RegOp>))
    requires
        ch < 4,
    ensures
        r.0 == (tflg & TFLG_TIF != 0),
        r.0 ==> r.1@ == isr_program(ch),
        !r.0 ==> r.1@ == Seq::<RegOp>::empty(),
{
    if tflg & TFLG_TIF != 0 {
        (true, isr_ops(ch))
    } else {
        (false, Vec::new())
    }
}

/// PIT channel 0 interrupt handler (see [`isr_program`]); `true` means
/// wake the task waiting on the channel.
pub fn on_pit0_interrupt(tflg: u32) -> (r: (bool, Vec<RegOp>))
    ensures
        r.0 == (tflg & TFLG_TIF != 0),
        r.0 ==> r.1@ == isr_program(0),
        !r.0 ==> r.1@ == Seq::<RegOp>::empty(),
{
    on_pit_interrupt(0, tflg)
}

/// PIT channel 1 interrupt handler.
pub fn on_pit1_interrupt(tflg: u32) -> (r: (bool, Vec<RegOp>))
    ensures
        r.0 == (tflg & TFLG_TIF != 0),
        r.0 ==> r.1@ == isr_program(1),
        !r.0 ==> r.1@ == Seq::<RegOp>::empty(),
{
    on_pit_interrupt(1, tflg)
}

/// PIT channel 2 interrupt handler.
pub fn on_pit2_interrupt(tflg: u32) -> (r: (bool, Vec<RegOp>))
    ensures
        r.0 == (tflg & TFLG_TIF != 0),
        r.0 ==> r.1@ == isr_program(2),
        !r.0 ==> r.1@ == Seq::<RegOp>::empty(),
{
    on_pit_interrupt(2, tflg)
}

/// PIT channel 3 interrupt handler.
pub fn on_pit3_interrupt(tflg: u32) -> (r: (bool, Vec<RegOp>))
    ensures
        r.0 == (tflg & TFLG_TIF != 0),
        r.0 ==> r.1@ == isr_program(3),
        !r.0 ==> r.1@ == Seq::<RegOp>::empty(),
{
    on_pit_interrupt(3, tflg)
}

/// Nanoseconds to whole microseconds, rounded up (saturating).
pub fn ns_to_us(ns: u32) -> (r: u32)
    ensures
        r == (if ns + 999 > u32::MAX { u32::MAX as int } else { ns + 999 }) / 1000,
{
    ns.saturating_add(999) / 1000
}

/// Milliseconds to microseconds (saturating).
pub fn ms_to_us(ms: u32) -> (r: u32)
    ensures
        r == if ms * 1000 > u32::MAX { u32::MAX as int } else { ms * 1000 },
{
    if ms > u32::MAX / 1000 {
        u32::MAX
    } else {
        ms * 1000
    }
}

} // verus!
