//! System Mode Controller: power mode protection, very low power run
//! (VLPR), and the wait and stop modes (STOP, VLPS, LLS, VLLS3/2/1).
//!
//! Entering a sleep mode ends in WFI, which the platform layer executes
//! between the program that prepares the mode and the one that follows
//! the wakeup.

use vstd::prelude::*;

use crate::regs::{RegOp, Width, write_op, modify_op};

verus! {

/// SMC and System Control Block register addresses.
pub const SMC_PMPROT: u32 = 0x4007_E000;
pub const SMC_PMCTRL: u32 = 0x4007_E001;
pub const SMC_VLLSCTRL: u32 = 0x4007_E002;
pub const SMC_PMSTAT: u32 = 0x4007_E003;
pub const SCB_SCR: u32 = 0xE000_ED10;

/// PMPROT bits.
pub const PMPROT_AVLLS: u32 = 0x02;
pub const PMPROT_ALLS: u32 = 0x08;
pub const PMPROT_AVLP: u32 = 0x20;
/// PMCTRL fields.
pub const PMCTRL_STOPM: u32 = 0x07;
pub const PMCTRL_STOPA: u32 = 0x08;
pub const PMCTRL_RUNM: u32 = 0x60;
pub const PMCTRL_RUNM_VLPR: u32 = 0x40;
/// SCR.SLEEPDEEP.
pub const SCR_SLEEPDEEP: u32 = 0x04;

/// PMSTAT values.
pub const PMSTAT_RUN: u8 = 1;
pub const PMSTAT_VLPR: u8 = 4;

/// Number of PMSTAT reads [`PowerControl::enter_vlpr`] allows for the
/// switch to be confirmed.
pub const VLPR_POLL_LIMIT: u32 = 1000;

/// Current power mode, as PMSTAT reports it.
#[derive(Clone, Copy, Debug, PartialEq, Eq, Structural)]
pub enum PowerMode {
    Run,
    Vlpr,
    Stop,
    Unknown(u8),
}

/// Stop mode to enter.
#[derive(Clone, Copy, Debug, PartialEq, Eq, Structural)]
pub enum StopMode {
    NormalStop,
    Vlps,
    Lls,
    Vlls3,
    Vlls2,
    Vlls1,
}

/// PMCTRL.STOPM code of a stop mode.
pub open spec fn stopm_code(m: StopMode) -> u32 {
    match m {
        StopMode::NormalStop => 0,
        StopMode::Vlps => 2,
        StopMode::Lls => 3,
        StopMode::Vlls3 => 4,
        StopMode::Vlls2 => 4,
        StopMode::Vlls1 => 4,
    }
}

/// VLLSCTRL.VLLSM code of a VLLS mode, if the mode is one.
pub open spec fn vllsm_code(m: StopMode) -> Option<u32> {
    match m {
        StopMode::Vlls3 => Some(3),
        StopMode::Vlls2 => Some(2),
        StopMode::Vlls1 => Some(1),
        _ => None,
    }
}

/// The program run before WFI to enter `mode`: STOPM, VLLSM for the VLLS
/// modes, and SLEEPDEEP.
pub open spec fn stop_entry_program(mode: StopMode) -> Seq<RegOp> {
    seq![RegOp::Modify { addr: SMC_PMCTRL, width: Width::W8, clear: PMCTRL_STOPM, set: stopm_code(mode) }]
        + match vllsm_code(mode) {
            Some(v) => seq![RegOp::Write { addr: SMC_VLLSCTRL, width: Width::W8, value: v }],
            None => Seq::empty(),
        }
        + seq![RegOp::Modify { addr: SCB_SCR, width: Width::W32, clear: 0, set: SCR_SLEEPDEEP }]
}

/// Progress of the switch to VLPR.
#[derive(Clone, Copy, Debug, PartialEq, Eq, Structural)]
pub enum VlprPoll {
    /// PMSTAT reports VLPR.
    Confirmed,
    /// Not yet; this many reads are left.
    Pending(u32),
    /// The reads ran out before PMSTAT reported VLPR.
    TimedOut,
}

/// The outcome of polling PMSTAT with the values `reads`, starting with
/// `remaining` reads allowed: confirmed at the first read of VLPR, timed
/// out when the allowed reads are used up first, pending otherwise.
pub open spec fn vlpr_outcome(remaining: u32, reads: Seq<u8>) -> VlprPoll
    decreases reads.len(),
{
    if reads.len() == 0 {
        VlprPoll::Pending(remaining)
    } else if reads[0] == PMSTAT_VLPR {
        VlprPoll::Confirmed
    } else if remaining <= 1 {
        VlprPoll::TimedOut
    } else {
        vlpr_outcome((remaining - 1) as u32, reads.drop_first())
    }
}

/// Power mode controller.
pub struct PowerControl {
    _private: (),
}

impl PowerControl {
    /// The mode controller has no clock gate; it is always accessible.
    pub fn new() -> (r: Self) {
        PowerControl { _private: () }
    }

    /// Allow the very low power modes (PMPROT.AVLP).
    pub fn allow_vlp(&mut self) -> (r: Vec<RegOp>)
        ensures
            r@ == seq![RegOp::Modify { addr: SMC_PMPROT, width: Width::W8, clear: 0, set: PMPROT_AVLP }],
    {
        modify_op(SMC_PMPROT, Width::W8, 0, PMPROT_AVLP)
    }

    /// Allow low leakage stop (PMPROT.ALLS).
    pub fn allow_lls(&mut self) -> (r: Vec<RegOp>)
        ensures
            r@ == seq![RegOp::Modify { addr: SMC_PMPROT, width: Width::W8, clear: 0, set: PMPROT_ALLS }],
    {
        modify_op(SMC_PMPROT, Width::W8, 0, PMPROT_ALLS)
    }

    /// Allow very low leakage stop (PMPROT.AVLLS).
    pub fn allow_vlls(&mut self) -> (r: Vec<RegOp>)
        ensures
            r@ == seq![RegOp::Modify { addr: SMC_PMPROT, width: Width::W8, clear: 0, set: PMPROT_AVLLS }],
    {
        modify_op(SMC_PMPROT, Width::W8, 0, PMPROT_AVLLS)
    }

    /// Allow every power mode in one write (PMPROT is write-once after
    /// reset).
    pub fn allow_all(&mut self) -> (r: Vec<RegOp>)
        ensures
            r@ == seq![RegOp::Write { addr: SMC_PMPROT, width: Width::W8, value: PMPROT_AVLP | PMPROT_ALLS | PMPROT_AVLLS }],
    {
        write_op(SMC_PMPROT, Width::W8, PMPROT_AVLP | PMPROT_ALLS | PMPROT_AVLLS)
    }

    /// The program run before WFI to enter wait mode: normal stop selected.
    pub fn enter_wait(&self) -> (r: Vec<RegOp>)
        ensures
            r@ == seq![RegOp::Modify { addr: SMC_PMCTRL, width: Width::W8, clear: PMCTRL_STOPM, set: 0 }],
    {
        modify_op(SMC_PMCTRL, Width::W8, PMCTRL_STOPM, 0)
    }

    /// Enter a stop mode: the program to run before WFI
    /// ([`stop_entry_program`]) and the one to run after the wakeup
    /// (SLEEPDEEP cleared). Whether the stop took effect is then
    /// `!stop_aborted(PMCTRL)`.
    pub fn enter_stop(&mut self, mode: StopMode) -> (r: (Vec<RegOp>, Vec<RegOp>))
        ensures
            r.0@ == stop_entry_program(mode),
            r.1@ == seq![RegOp::Modify { addr: SCB_SCR, width: Width::W32, clear: SCR_SLEEPDEEP, set: 0 }],
    {
        let code: u32 = match mode {
            StopMode::NormalStop => 0,
            StopMode::Vlps => 2,
            StopMode::Lls => 3,
            _ => 4,
        };
        let mut ops = modify_op(SMC_PMCTRL, Width::W8, PMCTRL_STOPM, code);
        match mode {
            StopMode::Vlls3 => ops.push(RegOp::Write { addr: SMC_VLLSCTRL, width: Width::W8, value: 3 }),
            StopMode::Vlls2 => ops.push(RegOp::Write { addr: SMC_VLLSCTRL, width: Width::W8, value: 2 }),
            StopMode::Vlls1 => ops.push(RegOp::Write { addr: SMC_VLLSCTRL, width: Width::W8, value: 1 }),
            _ => {},
        }
        ops.push(RegOp::Modify { addr: SCB_SCR, width: Width::W32, clear: 0, set: SCR_SLEEPDEEP });
        let after = modify_op(SCB_SCR, Width::W32, SCR_SLEEPDEEP, 0);
        (ops, after)
    }

    /// Request very low power run (PMCTRL.RUNM = VLPR). The switch is
    /// confirmed by polling PMSTAT with [`PowerControl::vlpr_step`],
    /// starting from the returned state, which allows
    /// [`VLPR_POLL_LIMIT`] reads.
    pub fn enter_vlpr(&mut self) -> (r: (VlprPoll, Vec<RegOp>))
        ensures
            r.0 == VlprPoll::Pending(VLPR_POLL_LIMIT),
            r.1@ == seq![RegOp::Modify { addr: SMC_PMCTRL, width: Width::W8, clear: PMCTRL_RUNM, set: PMCTRL_RUNM_VLPR }],
    {
        (VlprPoll::Pending(VLPR_POLL_LIMIT), modify_op(SMC_PMCTRL, Width::W8, PMCTRL_RUNM, PMCTRL_RUNM_VLPR))
    }

    /// One PMSTAT read while waiting for VLPR, with `remaining` reads
    /// allowed (this one included).
    pub fn vlpr_step(&self, remaining: u32, pmstat: u8) -> (r: VlprPoll)
        requires
            remaining >= 1,
        ensures
            r == vlpr_outcome(remaining, seq![pmstat]),
    {
        proof {
            reveal_with_fuel(vlpr_outcome, 2);
            assert(seq![pmstat].drop_first() =~= Seq::<u8>::empty());
        }
        if pmstat == PMSTAT_VLPR {
            VlprPoll::Confirmed
        } else if remaining <= 1 {
            VlprPoll::TimedOut
        } else {
            VlprPoll::Pending(remaining - 1)
        }
    }

    /// Return to normal run: RUNM cleared, then wait until PMSTAT reports
    /// run.
    pub fn exit_vlpr(&mut self) -> (r: Vec<RegOp>)
        ensures
            r@ == seq![
                RegOp::Modify { addr: SMC_PMCTRL, width: Width::W8, clear: PMCTRL_RUNM, set: 0 },
                RegOp::WaitUntil { addr: SMC_PMSTAT, width: Width::W8, mask: 0xFF, value: PMSTAT_RUN as u32 },
            ],
    {
        let mut ops = modify_op(SMC_PMCTRL, Width::W8, PMCTRL_RUNM, 0);
        ops.push(RegOp::WaitUntil { addr: SMC_PMSTAT, width: Width::W8, mask: 0xFF, value: PMSTAT_RUN as u32 });
        ops
    }

    /// The current power mode, given PMSTAT.
    pub fn current_mode(&self, pmstat: u8) -> (r: PowerMode)
        ensures
            r == if pmstat == PMSTAT_RUN {
                PowerMode::Run
            } else if pmstat == PMSTAT_VLPR {
                PowerMode::Vlpr
            } else {
                PowerMode::Unknown(pmstat)
            },
    {
        if pmstat == PMSTAT_RUN {
            PowerMode::Run
        } else if pmstat == PMSTAT_VLPR {
            PowerMode::Vlpr
        } else {
            PowerMode::Unknown(pmstat)
        }
    }

    /// Whether the last stop entry was aborted, given PMCTRL (STOPA).
    pub fn stop_aborted(&self, pmctrl: u8) -> (r: bool)
        ensures
            r == (pmctrl & 0x08 != 0),
    {
        pmctrl & 0x08 != 0
    }
}

/// Polling one read at a time with [`PowerControl::vlpr_step`] gives the
/// outcome of the whole sequence of reads: stepping from a pending state
/// through the rest of the reads continues the same poll.
pub proof fn lemma_vlpr_step_composes(remaining: u32, pmstat: u8, rest: Seq<u8>)
    requires
        remaining >= 1,
    ensures
        vlpr_outcome(remaining, seq![pmstat] + rest) == match vlpr_outcome(remaining, seq![pmstat]) {
            VlprPoll::Pending(m) => vlpr_outcome(m, rest),
            other => other,
        },
{
    reveal_with_fuel(vlpr_outcome, 2);
    assert((seq![pmstat] + rest)[0] == pmstat);
    assert((seq![pmstat] + rest).drop_first() =~= rest);
    assert(seq![pmstat].drop_first() =~= Seq::<u8>::empty());
}

/// The switch to VLPR times out only after the full number of reads: a
/// run of reads that never shows VLPR is still pending after fewer than
/// the allowed reads and has timed out after exactly that many.
pub proof fn lemma_vlpr_timeout_exact(remaining: u32, reads: Seq<u8>)
    requires
        remaining >= 1,
        forall|i: int| 0 <= i < reads.len() ==> reads[i] != PMSTAT_VLPR,
    ensures
        reads.len() < remaining ==> vlpr_outcome(remaining, reads) == VlprPoll::Pending((remaining - reads.len()) as u32),
        reads.len() >= remaining ==> vlpr_outcome(remaining, reads) == VlprPoll::TimedOut,
    decreases reads.len(),
{
    if reads.len() > 0 && remaining > 1 {
        lemma_vlpr_timeout_exact((remaining - 1) as u32, reads.drop_first());
    }
}

/// The SMC peripheral.
pub struct SmcPeripheral;

/// Taking the mode controller.
pub trait SmcExt {
    /// Return the power mode controller (there is no clock gate).
    fn power_control(self) -> PowerControl;
}

impl SmcExt for SmcPeripheral {
    fn power_control(self) -> (r: PowerControl) {
        PowerControl::new()
    }
}

} // verus!
