//! Low-Leakage Wakeup Unit: the pin edges and internal modules that can
//! wake the core from LLS and VLLSx.

use vstd::prelude::*;

use crate::regs::{RegOp, Width, write_op, modify_op, masked_update, field, lemma_modify_sets_field};

verus! {

/// LLWU register addresses (8-bit registers).
pub const LLWU_PE1: u32 = 0x4007_C000;
pub const LLWU_ME: u32 = 0x4007_C004;
pub const LLWU_F1: u32 = 0x4007_C005;
pub const LLWU_F2: u32 = 0x4007_C006;
pub const LLWU_F3: u32 = 0x4007_C007;

/// Wakeup pin input LLWU_P0 to LLWU_P15.
#[derive(Clone, Copy, Debug, PartialEq, Eq, Structural)]
pub enum LlwuPin {
    P0, P1, P2, P3, P4, P5, P6, P7, P8, P9, P10, P11, P12, P13, P14, P15,
}

/// The number of a wakeup pin.
pub open spec fn pin_number(p: LlwuPin) -> u8 {
    match p {
        LlwuPin::P0 => 0,
        LlwuPin::P1 => 1,
        LlwuPin::P2 => 2,
        LlwuPin::P3 => 3,
        LlwuPin::P4 => 4,
        LlwuPin::P5 => 5,
        LlwuPin::P6 => 6,
        LlwuPin::P7 => 7,
        LlwuPin::P8 => 8,
        LlwuPin::P9 => 9,
        LlwuPin::P10 => 10,
        LlwuPin::P11 => 11,
        LlwuPin::P12 => 12,
        LlwuPin::P13 => 13,
        LlwuPin::P14 => 14,
        LlwuPin::P15 => 15,
    }
}

impl LlwuPin {
    /// The pin's number (0 to 15).
    pub fn number(self) -> (r: u8)
        ensures
            r == pin_number(self),
            r < 16,
    {
        match self {
            LlwuPin::P0 => 0,
            LlwuPin::P1 => 1,
            LlwuPin::P2 => 2,
            LlwuPin::P3 => 3,
            LlwuPin::P4 => 4,
            LlwuPin::P5 => 5,
            LlwuPin::P6 => 6,
            LlwuPin::P7 => 7,
            LlwuPin::P8 => 8,
            LlwuPin::P9 => 9,
            LlwuPin::P10 => 10,
            LlwuPin::P11 => 11,
            LlwuPin::P12 => 12,
            LlwuPin::P13 => 13,
            LlwuPin::P14 => 14,
            LlwuPin::P15 => 15,
        }
    }
}

/// Pin edge that wakes the core.
#[derive(Clone, Copy, Debug, PartialEq, Eq, Structural)]
pub enum WakeEdge {
    Rising,
    Falling,
    AnyEdge,
}

/// Two-bit PE field code of an edge.
pub open spec fn edge_code(e: WakeEdge) -> u32 {
    match e {
        WakeEdge::Rising => 1,
        WakeEdge::Falling => 2,
        WakeEdge::AnyEdge => 3,
    }
}

/// Internal module wakeup source.
#[derive(Clone, Copy, Debug, PartialEq, Eq, Structural)]
pub enum LlwuModule {
    Lptmr,
    Cmp0,
    Cmp1,
    RtcAlarm,
    RtcSeconds,
}

/// The ME/F3 bit of a module.
pub open spec fn module_bit_of(m: LlwuModule) -> u32 {
    match m {
        LlwuModule::Lptmr => 0,
        LlwuModule::Cmp0 => 1,
        LlwuModule::Cmp1 => 2,
        LlwuModule::RtcAlarm => 5,
        LlwuModule::RtcSeconds => 7,
    }
}

fn module_bit(m: LlwuModule) -> (r: u32)
    ensures
        r == module_bit_of(m),
        r < 8,
{
    match m {
        LlwuModule::Lptmr => 0,
        LlwuModule::Cmp0 => 1,
        LlwuModule::Cmp1 => 2,
        LlwuModule::RtcAlarm => 5,
        LlwuModule::RtcSeconds => 7,
    }
}

/// The PE register of a pin (four pins per register).
pub open spec fn pe_reg(n: u8) -> u32 {
    (LLWU_PE1 + n / 4) as u32
}

/// The shift of a pin's two-bit field within its PE register.
pub open spec fn pe_shift(n: u8) -> u32 {
    ((n % 4) * 2) as u32
}

/// Wakeup unit driver.
pub struct Llwu {
    _private: (),
}

impl Llwu {
    /// The wakeup unit has no clock gate; it is always accessible.
    pub fn new() -> (r: Self) {
        Llwu { _private: () }
    }

    /// Let `pin` wake the core on `edge`: its PE field is set to the edge
    /// code, the other pins' fields are kept.
    pub fn enable_pin(&mut self, pin: LlwuPin, edge: WakeEdge) -> (r: Vec<RegOp>)
        ensures
            r@ == seq![RegOp::Modify {
                addr: pe_reg(pin_number(pin)),
                width: Width::W8,
                clear: 3u32 << pe_shift(pin_number(pin)),
                set: edge_code(edge) << pe_shift(pin_number(pin)),
            }],
    {
        let val: u32 = match edge {
            WakeEdge::Rising => 1,
            WakeEdge::Falling => 2,
            WakeEdge::AnyEdge => 3,
        };
        let n = pin.number();
        let shift: u32 = ((n % 4) * 2) as u32;
        modify_op(LLWU_PE1 + (n / 4) as u32, Width::W8, 3u32 << shift, val << shift)
    }

    /// Stop `pin` from waking the core: its PE field is cleared.
    pub fn disable_pin(&mut self, pin: LlwuPin) -> (r: Vec<RegOp>)
        ensures
            r@ == seq![RegOp::Modify { addr: pe_reg(pin_number(pin)), width: Width::W8, clear: 3u32 << pe_shift(pin_number(pin)), set: 0 }],
    {
        let n = pin.number();
        let shift: u32 = ((n % 4) * 2) as u32;
        modify_op(LLWU_PE1 + (n / 4) as u32, Width::W8, 3u32 << shift, 0)
    }

    /// Let an internal module wake the core (its ME bit set).
    pub fn enable_module(&mut self, module: LlwuModule) -> (r: Vec<RegOp>)
        ensures
            r@ == seq![RegOp::Modify { addr: LLWU_ME, width: Width::W8, clear: 0, set: 1u32 << module_bit_of(module) }],
    {
        modify_op(LLWU_ME, Width::W8, 0, 1u32 << module_bit(module))
    }

    /// Stop an internal module from waking the core.
    pub fn disable_module(&mut self, module: LlwuModule) -> (r: Vec<RegOp>)
        ensures
            r@ == seq![RegOp::Modify { addr: LLWU_ME, width: Width::W8, clear: 1u32 << module_bit_of(module), set: 0 }],
    {
        modify_op(LLWU_ME, Width::W8, 1u32 << module_bit(module), 0)
    }

    /// The pin wakeup flags, given F1 and F2: bit N is LLWU_PN.
    pub fn pin_flags(&self, f1: u8, f2: u8) -> (r: u16)
        ensures
            r == ((f2 as u16) << 8u16) | (f1 as u16),
    {
        ((f2 as u16) << 8u16) | (f1 as u16)
    }

    /// Whether `pin` caused a wakeup, given F1 and F2.
    pub fn pin_woke(&self, f1: u8, f2: u8, pin: LlwuPin) -> (r: bool)
        ensures
            r == (((((f2 as u16) << 8u16) | (f1 as u16)) & (1u16 << pin_number(pin))) != 0),
    {
        let flags = self.pin_flags(f1, f2);
        flags & (1u16 << pin.number()) != 0
    }

    /// Clear one pin's wakeup flag (write one to clear, in F1 or F2).
    pub fn clear_pin_flag(&mut self, pin: LlwuPin) -> (r: Vec<RegOp>)
        ensures
            pin_number(pin) < 8 ==> r@ == seq![RegOp::Write { addr: LLWU_F1, width: Width::W8, value: 1u32 << pin_number(pin) }],
            pin_number(pin) >= 8 ==> r@ == seq![RegOp::Write { addr: LLWU_F2, width: Width::W8, value: 1u32 << ((pin_number(pin) - 8) as u8) }],
    {
        let n = pin.number();
        if n < 8 {
            write_op(LLWU_F1, Width::W8, 1u32 << n)
        } else {
            write_op(LLWU_F2, Width::W8, 1u32 << (n - 8))
        }
    }

    /// Clear every pin wakeup flag.
    pub fn clear_all_pin_flags(&mut self) -> (r: Vec<RegOp>)
        ensures
            r@ == seq![
                RegOp::Write { addr: LLWU_F1, width: Width::W8, value: 0xFF },
                RegOp::Write { addr: LLWU_F2, width: Width::W8, value: 0xFF },
            ],
    {
        let mut ops = write_op(LLWU_F1, Width::W8, 0xFF);
        ops.push(RegOp::Write { addr: LLWU_F2, width: Width::W8, value: 0xFF });
        ops
    }

    /// The module wakeup flags, given F3.
    pub fn module_flags(&self, f3: u8) -> (r: u8)
        ensures
            r == f3,
    {
        f3
    }

    /// Whether `module` caused a wakeup, given F3.
    pub fn module_woke(&self, f3: u8, module: LlwuModule) -> (r: bool)
        ensures
            r == (f3 & (1u8 << module_bit_of(module)) != 0),
    {
        self.module_flags(f3) & (1u8 << module_bit(module)) != 0
    }
}

/// Enabling a pin stores its edge code in the pin's PE field and leaves the
/// fields of the other pins of that register as they were.
pub proof fn lemma_enable_pin_field(pin: LlwuPin, edge: WakeEdge, other: u8, old: u32)
    requires
        other < 16,
        pe_reg(other) == pe_reg(pin_number(pin)),
        other != pin_number(pin),
    ensures
        field(masked_update(old, 3u32 << pe_shift(pin_number(pin)), edge_code(edge) << pe_shift(pin_number(pin))), pe_shift(pin_number(pin)), 3) == edge_code(edge),
        field(masked_update(old, 3u32 << pe_shift(pin_number(pin)), edge_code(edge) << pe_shift(pin_number(pin))), pe_shift(other), 3) == field(old, pe_shift(other), 3),
{
    let s = pe_shift(pin_number(pin));
    let t = pe_shift(other);
    let v = edge_code(edge);
    assert(s <= 6 && t <= 6 && s != t && s % 2 == 0 && t % 2 == 0);
    assert((3u32 << s) >> s == 3 && v & 3 == v
        && ((((old & !(3u32 << s)) | (v << s)) >> t) & 3) == ((old >> t) & 3)) by (bit_vector)
        requires
            s <= 6,
            t <= 6,
            s != t,
            s % 2 == 0,
            t % 2 == 0,
            v < 4,
    ;
    lemma_modify_sets_field(old, s, 3, v);
}

/// The LLWU peripheral.
pub struct LlwuPeripheral;

/// Taking the wakeup unit.
pub trait LlwuExt {
    /// Return the wakeup unit driver (there is no clock gate).
    fn llwu(self) -> Llwu;
}

impl LlwuExt for LlwuPeripheral {
    fn llwu(self) -> (r: Llwu) {
        Llwu::new()
    }
}

} // verus!
