//! Clock tree configuration: MCG mode transitions (FEI → FBE → PBE → PEE
//! and PEE ⇄ BLPI) and the frozen clock frequencies they produce.

use vstd::prelude::*;

use crate::regs::{RegOp, Width};
use crate::time::Hertz;

verus! {

/// MCG control register 1.
pub const MCG_C1: u32 = 0x4006_4000;
/// MCG control register 2.
pub const MCG_C2: u32 = 0x4006_4001;
/// MCG control register 5 (PLL reference divider).
pub const MCG_C5: u32 = 0x4006_4004;
/// MCG control register 6 (PLL select, VCO divider).
pub const MCG_C6: u32 = 0x4006_4005;
/// MCG status register.
pub const MCG_S: u32 = 0x4006_4006;
/// OSC control register.
pub const OSC_CR: u32 = 0x4006_5000;
/// SIM system clock divider register 1.
pub const SIM_CLKDIV1: u32 = 0x4004_8044;

/// Frequency of the crystal on the Teensy 3.x boards.
pub const CRYSTAL_HZ: u32 = 16_000_000;

/// Frozen clock frequencies.
///
/// Returned by [`Mcg::freeze`] after the clock tree has been set up. It
/// records the resulting frequencies and serves as proof that clocks have
/// been configured.
#[derive(Clone, Copy, Debug)]
pub struct Clocks {
    core_clk: Hertz,
    bus_clk: Hertz,
    flash_clk: Hertz,
}

impl Clocks {
    /// Core clock frequency in hertz.
    pub closed spec fn core_hz(self) -> u32 {
        self.core_clk.0
    }

    /// Bus clock frequency in hertz.
    pub closed spec fn bus_hz(self) -> u32 {
        self.bus_clk.0
    }

    /// Flash clock frequency in hertz.
    pub closed spec fn flash_hz(self) -> u32 {
        self.flash_clk.0
    }

    /// Core / system clock frequency (OUTDIV1).
    pub fn core_clk(&self) -> (r: Hertz)
        ensures
            r.0 == self.core_hz(),
    {
        self.core_clk
    }

    /// Bus clock frequency (OUTDIV2). Used by most peripherals.
    pub fn bus_clk(&self) -> (r: Hertz)
        ensures
            r.0 == self.bus_hz(),
    {
        self.bus_clk
    }

    /// Flash clock frequency (OUTDIV4).
    pub fn flash_clk(&self) -> (r: Hertz)
        ensures
            r.0 == self.flash_hz(),
    {
        self.flash_clk
    }
}

/// Clock speed preset (16 MHz crystal).
#[derive(Clone, Copy, Debug, PartialEq, Eq, Structural)]
pub enum ClockSpeed {
    /// 72 MHz core, 36 MHz bus, 24 MHz flash — datasheet rated maximum.
    Mhz72,
    /// 96 MHz core, 48 MHz bus, 24 MHz flash — overclock, widely used.
    Mhz96,
    /// 120 MHz core, 60 MHz bus, 24 MHz flash — overclock, Teensy default.
    Mhz120,
}

/// PLL and divider settings of a preset:
/// `(PRDIV, VDIV, OUTDIV2, OUTDIV4, core Hz, bus Hz, flash Hz)`.
pub open spec fn preset(speed: ClockSpeed) -> (u8, u8, u8, u8, u32, u32, u32) {
    match speed {
        ClockSpeed::Mhz72 => (7, 12, 1, 2, 72_000_000, 36_000_000, 24_000_000),
        ClockSpeed::Mhz96 => (3, 0, 1, 3, 96_000_000, 48_000_000, 24_000_000),
        ClockSpeed::Mhz120 => (3, 6, 1, 4, 120_000_000, 60_000_000, 24_000_000),
    }
}

/// PLL output of a preset: `16 MHz / (PRDIV + 1) × (VDIV + 24)`.
pub open spec fn pll_hz(speed: ClockSpeed) -> int {
    CRYSTAL_HZ as int / (preset(speed).0 as int + 1) * (preset(speed).1 as int + 24)
}

/// The CLKDIV1 value for core ÷1, bus ÷(OUTDIV2+1), flash ÷(OUTDIV4+1).
pub open spec fn clkdiv1_value(outdiv2: u8, outdiv4: u8) -> u32 {
    ((outdiv2 as u32) << 24u32) | ((outdiv4 as u32) << 16u32)
}

/// The register program that moves the MCG from FEI to PEE at a preset.
pub open spec fn freeze_program(speed: ClockSpeed) -> Seq<RegOp> {
    let p = preset(speed);
    seq![
        RegOp::Write { addr: SIM_CLKDIV1, width: Width::W32, value: clkdiv1_value(p.2, p.3) },
        RegOp::Write { addr: OSC_CR, width: Width::W8, value: 0x8A },
        RegOp::Write { addr: MCG_C2, width: Width::W8, value: 0x24 },
        RegOp::Write { addr: MCG_C1, width: Width::W8, value: 0xA0 },
        RegOp::WaitUntil { addr: MCG_S, width: Width::W8, mask: 0x02, value: 0x02 },
        RegOp::WaitUntil { addr: MCG_S, width: Width::W8, mask: 0x0C, value: 0x08 },
        RegOp::WaitUntil { addr: MCG_S, width: Width::W8, mask: 0x10, value: 0x00 },
        RegOp::Write { addr: MCG_C5, width: Width::W8, value: p.0 as u32 },
        RegOp::Write { addr: MCG_C6, width: Width::W8, value: (p.1 as u32) | 0x40 },
        RegOp::WaitUntil { addr: MCG_S, width: Width::W8, mask: 0x20, value: 0x20 },
        RegOp::WaitUntil { addr: MCG_S, width: Width::W8, mask: 0x40, value: 0x40 },
        RegOp::Modify { addr: MCG_C1, width: Width::W8, clear: 0xC0, set: 0x00 },
        RegOp::WaitUntil { addr: MCG_S, width: Width::W8, mask: 0x0C, value: 0x0C },
    ]
}

/// MCG clock configuration builder.
pub struct Mcg {
    _private: (),
}

impl Mcg {
    /// Take the MCG for configuration.
    pub fn new() -> (r: Mcg) {
        Mcg { _private: () }
    }

    /// Configure the clock tree for the Teensy's 16 MHz crystal at the
    /// default 72 MHz preset.
    pub fn freeze(self) -> (r: (Clocks, Vec<RegOp>))
        ensures
            r.1@ == freeze_program(ClockSpeed::Mhz72),
            r.0.core_hz() == 72_000_000,
            r.0.bus_hz() == 36_000_000,
            r.0.flash_hz() == 24_000_000,
    {
        self.freeze_at(ClockSpeed::Mhz72)
    }

    /// Configure the clock tree at a specific speed preset.
    ///
    /// Sets the SIM dividers, starts the crystal oscillator, and walks the
    /// MCG through FEI → FBE → PBE → PEE, waiting for each transition.
    pub fn freeze_at(self, speed: ClockSpeed) -> (r: (Clocks, Vec<RegOp>))
        ensures
            r.1@ == freeze_program(speed),
            r.0.core_hz() == preset(speed).4,
            r.0.bus_hz() == preset(speed).5,
            r.0.flash_hz() == preset(speed).6,
            r.0.flash_hz() <= 25_000_000,
    {
        let (prdiv, vdiv, outdiv2, outdiv4, core_hz, bus_hz, flash_hz): (u8, u8, u8, u8, u32, u32, u32) =
            match speed {
            ClockSpeed::Mhz72 => (7, 12, 1, 2, 72_000_000, 36_000_000, 24_000_000),
            ClockSpeed::Mhz96 => (3, 0, 1, 3, 96_000_000, 48_000_000, 24_000_000),
            ClockSpeed::Mhz120 => (3, 6, 1, 4, 120_000_000, 60_000_000, 24_000_000),
        };
        let mut ops: Vec<RegOp> = Vec::new();
        ops.push(
            RegOp::Write {
                addr: SIM_CLKDIV1,
                width: Width::W32,
                value: ((outdiv2 as u32) << 24u32) | ((outdiv4 as u32) << 16u32),
            },
        );
        ops.push(RegOp::Write { addr: OSC_CR, width: Width::W8, value: 0x8A });
        ops.push(RegOp::Write { addr: MCG_C2, width: Width::W8, value: 0x24 });
        ops.push(RegOp::Write { addr: MCG_C1, width: Width::W8, value: 0xA0 });
        ops.push(RegOp::WaitUntil { addr: MCG_S, width: Width::W8, mask: 0x02, value: 0x02 });
        ops.push(RegOp::WaitUntil { addr: MCG_S, width: Width::W8, mask: 0x0C, value: 0x08 });
        ops.push(RegOp::WaitUntil { addr: MCG_S, width: Width::W8, mask: 0x10, value: 0x00 });
        ops.push(RegOp::Write { addr: MCG_C5, width: Width::W8, value: prdiv as u32 });
        ops.push(RegOp::Write { addr: MCG_C6, width: Width::W8, value: (vdiv as u32) | 0x40 });
        ops.push(RegOp::WaitUntil { addr: MCG_S, width: Width::W8, mask: 0x20, value: 0x20 });
        ops.push(RegOp::WaitUntil { addr: MCG_S, width: Width::W8, mask: 0x40, value: 0x40 });
        ops.push(RegOp::Modify { addr: MCG_C1, width: Width::W8, clear: 0xC0, set: 0x00 });
        ops.push(RegOp::WaitUntil { addr: MCG_S, width: Width::W8, mask: 0x0C, value: 0x0C });
        let clocks = Clocks {
            core_clk: Hertz(core_hz),
            bus_clk: Hertz(bus_hz),
            flash_clk: Hertz(flash_hz),
        };
        (clocks, ops)
    }
}

/// Every preset reports the frequencies its dividers produce from the
/// 16 MHz crystal: core = PLL, bus = PLL / (OUTDIV2 + 1),
/// flash = PLL / (OUTDIV4 + 1).
pub proof fn lemma_preset_frequencies_match_dividers(speed: ClockSpeed)
    ensures
        preset(speed).4 as int == pll_hz(speed),
        preset(speed).5 as int == pll_hz(speed) / (preset(speed).2 as int + 1),
        preset(speed).6 as int == pll_hz(speed) / (preset(speed).3 as int + 1),
{
    match speed {
        ClockSpeed::Mhz72 => {
            assert(CRYSTAL_HZ as int / 8 == 2_000_000);
            assert(2_000_000int * 36 == 72_000_000) by (nonlinear_arith);
            assert(pll_hz(speed) == 2_000_000int * 36);
            assert(pll_hz(speed) == 72_000_000);
            assert(72_000_000int / 2 == 36_000_000);
            assert(72_000_000int / 3 == 24_000_000);
        },
        ClockSpeed::Mhz96 => {
            assert(CRYSTAL_HZ as int / 4 == 4_000_000);
            assert(4_000_000int * 24 == 96_000_000) by (nonlinear_arith);
            assert(pll_hz(speed) == 4_000_000int * 24);
            assert(pll_hz(speed) == 96_000_000);
            assert(96_000_000int / 2 == 48_000_000);
            assert(96_000_000int / 4 == 24_000_000);
        },
        ClockSpeed::Mhz120 => {
            assert(CRYSTAL_HZ as int / 4 == 4_000_000);
            assert(4_000_000int * 30 == 120_000_000) by (nonlinear_arith);
            assert(pll_hz(speed) == 4_000_000int * 30);
            assert(pll_hz(speed) == 120_000_000);
            assert(120_000_000int / 2 == 60_000_000);
            assert(120_000_000int / 5 == 24_000_000);
        },
    }
}

proof fn lemma_clock_fields(o2: u32, o4: u32, prdiv: u32, vdiv: u32)
    requires
        o2 < 16,
        o4 < 16,
        prdiv < 32,
        vdiv < 32,
    ensures
        (((o2 << 24u32) | (o4 << 16u32)) >> 24u32) & 0xF == o2,
        (((o2 << 24u32) | (o4 << 16u32)) >> 16u32) & 0xF == o4,
        ((o2 << 24u32) | (o4 << 16u32)) >> 28u32 == 0,
        prdiv & 0x1F == prdiv,
        (vdiv | 0x40) & 0x1F == vdiv,
{
    assert((((o2 << 24u32) | (o4 << 16u32)) >> 24u32) & 0xF == o2
        && (((o2 << 24u32) | (o4 << 16u32)) >> 16u32) & 0xF == o4
        && ((o2 << 24u32) | (o4 << 16u32)) >> 28u32 == 0
        && prdiv & 0x1F == prdiv
        && (vdiv | 0x40) & 0x1F == vdiv) by (bit_vector)
        requires
            o2 < 16,
            o4 < 16,
            prdiv < 32,
            vdiv < 32,
    ;
}

/// Every preset reports what the program it writes produces, and keeps the
/// flash clock within its 25 MHz limit. From the 16 MHz crystal the PLL
/// runs at 16 MHz / (C5.PRDIV + 1) × (C6.VDIV + 24); CLKDIV1 leaves the core
/// undivided (OUTDIV1 = 0), so the core clock is the PLL, which is the
/// preset's named speed; the bus and flash clocks are the PLL divided by
/// OUTDIV2 + 1 and OUTDIV4 + 1 as written to CLKDIV1.
pub proof fn lemma_freeze_clock_limits(speed: ClockSpeed)
    ensures
        ({
            let prog = freeze_program(speed);
            let clkdiv = prog[0]->Write_value;
            let prdiv = prog[7]->Write_value & 0x1F;
            let vdiv = prog[8]->Write_value & 0x1F;
            let pll = 16_000_000int / (prdiv + 1) * (vdiv + 24);
            let p = preset(speed);
            &&& prog[0] is Write && prog[0]->Write_addr == SIM_CLKDIV1
            &&& prog[7] is Write && prog[7]->Write_addr == MCG_C5
            &&& prog[8] is Write && prog[8]->Write_addr == MCG_C6
            &&& clkdiv >> 28u32 == 0
            &&& p.4 as int == pll
            &&& p.5 as int == pll / (((clkdiv >> 24u32) & 0xF) + 1)
            &&& p.6 as int == pll / (((clkdiv >> 16u32) & 0xF) + 1)
            &&& p.6 <= 25_000_000
            &&& p.4 == match speed {
                ClockSpeed::Mhz72 => 72_000_000u32,
                ClockSpeed::Mhz96 => 96_000_000u32,
                ClockSpeed::Mhz120 => 120_000_000u32,
            }
        }),
{
    let p = preset(speed);
    lemma_preset_frequencies_match_dividers(speed);
    lemma_clock_fields(p.2 as u32, p.3 as u32, p.0 as u32, p.1 as u32);
    assert(clkdiv1_value(p.2, p.3) == ((p.2 as u32) << 24u32) | ((p.3 as u32) << 16u32));
}

// ----- BLPI (very low power run clocks) -----

/// Saved PEE-mode state for restoring after BLPI exit.
pub struct PeeState {
    core_clk: Hertz,
    bus_clk: Hertz,
    flash_clk: Hertz,
    clkdiv1: u32,
}

impl PeeState {
    /// The saved run-mode clocks.
    pub closed spec fn clocks(self) -> Clocks {
        Clocks { core_clk: self.core_clk, bus_clk: self.bus_clk, flash_clk: self.flash_clk }
    }

    /// The saved CLKDIV1 register value.
    pub closed spec fn saved_clkdiv1(self) -> u32 {
        self.clkdiv1
    }
}

/// Reduced-frequency clocks for VLPR mode (BLPI).
pub struct BlpiClocks {
    core_clk: Hertz,
    bus_clk: Hertz,
    flash_clk: Hertz,
}

impl BlpiClocks {
    /// Core clock frequency in hertz.
    pub closed spec fn core_hz(self) -> u32 {
        self.core_clk.0
    }

    /// Bus clock frequency in hertz.
    pub closed spec fn bus_hz(self) -> u32 {
        self.bus_clk.0
    }

    /// Flash clock frequency in hertz.
    pub closed spec fn flash_hz(self) -> u32 {
        self.flash_clk.0
    }

    /// Core clock frequency in BLPI mode.
    pub fn core_clk(&self) -> (r: Hertz)
        ensures
            r.0 == self.core_hz(),
    {
        self.core_clk
    }

    /// Bus clock frequency in BLPI mode.
    pub fn bus_clk(&self) -> (r: Hertz)
        ensures
            r.0 == self.bus_hz(),
    {
        self.bus_clk
    }

    /// Flash clock frequency in BLPI mode.
    pub fn flash_clk(&self) -> (r: Hertz)
        ensures
            r.0 == self.flash_hz(),
    {
        self.flash_clk
    }
}

/// CLKDIV1 for BLPI: core ÷1, bus ÷4, flash ÷4.
pub const BLPI_CLKDIV1: u32 = 0x0303_0000;

/// The register program PEE → PBE → FBE → FBI → BLPI.
pub open spec fn enter_blpi_program() -> Seq<RegOp> {
    seq![
        RegOp::Modify { addr: MCG_C1, width: Width::W8, clear: 0xC0, set: 0x80 },
        RegOp::WaitUntil { addr: MCG_S, width: Width::W8, mask: 0x0C, value: 0x08 },
        RegOp::Modify { addr: MCG_C6, width: Width::W8, clear: 0x40, set: 0x00 },
        RegOp::WaitUntil { addr: MCG_S, width: Width::W8, mask: 0x20, value: 0x00 },
        RegOp::Modify { addr: MCG_C1, width: Width::W8, clear: 0xC4, set: 0x44 },
        RegOp::WaitUntil { addr: MCG_S, width: Width::W8, mask: 0x0C, value: 0x04 },
        RegOp::WaitUntil { addr: MCG_S, width: Width::W8, mask: 0x10, value: 0x10 },
        RegOp::Modify { addr: MCG_C2, width: Width::W8, clear: 0x01, set: 0x01 },
        RegOp::WaitUntil { addr: MCG_S, width: Width::W8, mask: 0x01, value: 0x01 },
        RegOp::Modify { addr: MCG_C2, width: Width::W8, clear: 0x02, set: 0x02 },
        RegOp::Write { addr: SIM_CLKDIV1, width: Width::W32, value: BLPI_CLKDIV1 },
    ]
}

/// The register program BLPI → FBI → FBE → PBE → PEE, restoring `clkdiv1`.
pub open spec fn exit_blpi_program(clkdiv1: u32) -> Seq<RegOp> {
    seq![
        RegOp::Modify { addr: MCG_C2, width: Width::W8, clear: 0x02, set: 0x00 },
        RegOp::Modify { addr: MCG_C1, width: Width::W8, clear: 0xC4, set: 0x80 },
        RegOp::WaitUntil { addr: MCG_S, width: Width::W8, mask: 0x0C, value: 0x08 },
        RegOp::WaitUntil { addr: MCG_S, width: Width::W8, mask: 0x10, value: 0x00 },
        RegOp::Write { addr: SIM_CLKDIV1, width: Width::W32, value: clkdiv1 },
        RegOp::Modify { addr: MCG_C6, width: Width::W8, clear: 0x40, set: 0x40 },
        RegOp::WaitUntil { addr: MCG_S, width: Width::W8, mask: 0x20, value: 0x20 },
        RegOp::WaitUntil { addr: MCG_S, width: Width::W8, mask: 0x40, value: 0x40 },
        RegOp::Modify { addr: MCG_C1, width: Width::W8, clear: 0xC0, set: 0x00 },
        RegOp::WaitUntil { addr: MCG_S, width: Width::W8, mask: 0x0C, value: 0x0C },
    ]
}

impl Clocks {
    /// Transition MCG from PEE to BLPI for VLPR mode entry.
    ///
    /// `clkdiv1` is the current SIM CLKDIV1 value, saved for the way back.
    /// Returns the BLPI clocks (4 MHz core, 1 MHz bus and flash), the saved
    /// run-mode state, and the register program.
    pub fn enter_blpi(self, clkdiv1: u32) -> (r: (BlpiClocks, PeeState, Vec<RegOp>))
        ensures
            r.0.core_hz() == 4_000_000,
            r.0.bus_hz() == 1_000_000,
            r.0.flash_hz() == 1_000_000,
            r.1.clocks() == self,
            r.1.saved_clkdiv1() == clkdiv1,
            r.2@ == enter_blpi_program(),
    {
        let saved = PeeState {
            core_clk: self.core_clk,
            bus_clk: self.bus_clk,
            flash_clk: self.flash_clk,
            clkdiv1,
        };
        let mut ops: Vec<RegOp> = Vec::new();
        ops.push(RegOp::Modify { addr: MCG_C1, width: Width::W8, clear: 0xC0, set: 0x80 });
        ops.push(RegOp::WaitUntil { addr: MCG_S, width: Width::W8, mask: 0x0C, value: 0x08 });
        ops.push(RegOp::Modify { addr: MCG_C6, width: Width::W8, clear: 0x40, set: 0x00 });
        ops.push(RegOp::WaitUntil { addr: MCG_S, width: Width::W8, mask: 0x20, value: 0x00 });
        ops.push(RegOp::Modify { addr: MCG_C1, width: Width::W8, clear: 0xC4, set: 0x44 });
        ops.push(RegOp::WaitUntil { addr: MCG_S, width: Width::W8, mask: 0x0C, value: 0x04 });
        ops.push(RegOp::WaitUntil { addr: MCG_S, width: Width::W8, mask: 0x10, value: 0x10 });
        ops.push(RegOp::Modify { addr: MCG_C2, width: Width::W8, clear: 0x01, set: 0x01 });
        ops.push(RegOp::WaitUntil { addr: MCG_S, width: Width::W8, mask: 0x01, value: 0x01 });
        ops.push(RegOp::Modify { addr: MCG_C2, width: Width::W8, clear: 0x02, set: 0x02 });
        ops.push(RegOp::Write { addr: SIM_CLKDIV1, width: Width::W32, value: BLPI_CLKDIV1 });
        let blpi = BlpiClocks {
            core_clk: Hertz(4_000_000),
            bus_clk: Hertz(1_000_000),
            flash_clk: Hertz(1_000_000),
        };
        (blpi, saved, ops)
    }

    /// Transition MCG from BLPI back to PEE, restoring the saved dividers
    /// and frequencies.
    pub fn exit_blpi(blpi: BlpiClocks, saved: PeeState) -> (r: (Clocks, Vec<RegOp>))
        ensures
            r.0 == saved.clocks(),
            r.1@ == exit_blpi_program(saved.saved_clkdiv1()),
    {
        let mut ops: Vec<RegOp> = Vec::new();
        ops.push(RegOp::Modify { addr: MCG_C2, width: Width::W8, clear: 0x02, set: 0x00 });
        ops.push(RegOp::Modify { addr: MCG_C1, width: Width::W8, clear: 0xC4, set: 0x80 });
        ops.push(RegOp::WaitUntil { addr: MCG_S, width: Width::W8, mask: 0x0C, value: 0x08 });
        ops.push(RegOp::WaitUntil { addr: MCG_S, width: Width::W8, mask: 0x10, value: 0x00 });
        ops.push(RegOp::Write { addr: SIM_CLKDIV1, width: Width::W32, value: saved.clkdiv1 });
        ops.push(RegOp::Modify { addr: MCG_C6, width: Width::W8, clear: 0x40, set: 0x40 });
        ops.push(RegOp::WaitUntil { addr: MCG_S, width: Width::W8, mask: 0x20, value: 0x20 });
        ops.push(RegOp::WaitUntil { addr: MCG_S, width: Width::W8, mask: 0x40, value: 0x40 });
        ops.push(RegOp::Modify { addr: MCG_C1, width: Width::W8, clear: 0xC0, set: 0x00 });
        ops.push(RegOp::WaitUntil { addr: MCG_S, width: Width::W8, mask: 0x0C, value: 0x0C });
        let clocks = Clocks {
            core_clk: saved.core_clk,
            bus_clk: saved.bus_clk,
            flash_clk: saved.flash_clk,
        };
        (clocks, ops)
    }
}

} // verus!

verus! {

/// Entering BLPI leaves CLKDIV1 at the BLPI dividers, and leaving BLPI
/// puts back the CLKDIV1 value saved on entry, whatever it held before.
pub proof fn lemma_blpi_restores_dividers(saved_clkdiv1: u32, init: u32)
    ensures
        crate::regs::reg_after(enter_blpi_program(), SIM_CLKDIV1, init) == BLPI_CLKDIV1,
        crate::regs::reg_after(exit_blpi_program(saved_clkdiv1), SIM_CLKDIV1, init) == saved_clkdiv1,
{
    reveal_with_fuel(crate::regs::reg_after, 12);
    assert(enter_blpi_program().last().target() == SIM_CLKDIV1);
    let e = exit_blpi_program(saved_clkdiv1);
    assert(e.take(5).last().target() == SIM_CLKDIV1);
}

/// The MCG peripheral, before configuration.
pub struct McgPeripheral;

/// Taking the MCG for clock configuration.
pub trait McgExt {
    /// Consume the MCG peripheral and return the clock configuration builder.
    fn constrain(self) -> Mcg;
}

impl McgExt for McgPeripheral {
    fn constrain(self) -> (r: Mcg) {
        Mcg::new()
    }
}

} // verus!
