//! GPIO pins with type-state modes: disabled, input (floating, pull-up,
//! pull-down), output (push-pull, open-drain) and alternate functions.
//!
//! A pin is named by its port letter (as an ASCII byte, `b'A'` to `b'E'`)
//! and its number; mode changes consume the pin and return it in its new
//! mode together with the register program that makes the change.

use vstd::prelude::*;
use core::marker::PhantomData;

use crate::regs::{RegOp, Width, write_op, modify_op};

verus! {

/// SIM_SCGC5, which holds the port clock gates.
pub const SIM_SCGC5: u32 = 0x4004_8038;

/// PCR fields.
pub const PCR_PS: u32 = 0x01;
pub const PCR_PE: u32 = 0x02;
pub const PCR_ODE: u32 = 0x20;
pub const PCR_MUX_MASK: u32 = 0x700;
pub const PCR_MUX_GPIO: u32 = 0x100;

/// GPIO register offsets.
pub const GPIO_PDOR: u32 = 0x00;
pub const GPIO_PSOR: u32 = 0x04;
pub const GPIO_PCOR: u32 = 0x08;
pub const GPIO_PTOR: u32 = 0x0C;
pub const GPIO_PDIR: u32 = 0x10;
pub const GPIO_PDDR: u32 = 0x14;

/// Whether `port` names a port (`b'A'` to `b'E'`).
pub open spec fn valid_port(port: u8) -> bool {
    0x41 <= port <= 0x45
}

/// Base address of a port's pin control registers.
pub open spec fn port_base(port: u8) -> u32 {
    (0x4004_9000 + 0x1000 * (port - 0x41)) as u32
}

/// Base address of a port's GPIO registers.
pub open spec fn gpio_base(port: u8) -> u32 {
    (0x400F_F000 + 0x40 * (port - 0x41)) as u32
}

/// Address of pin `n`'s control register.
pub open spec fn pcr_reg(port: u8, n: u8) -> u32 {
    (port_base(port) + 4 * n) as u32
}

/// Address of a GPIO register of a port.
pub open spec fn gpio_reg(port: u8, off: u32) -> u32 {
    (gpio_base(port) + off) as u32
}

fn pcr(port: u8, n: u8) -> (r: u32)
    requires
        valid_port(port),
        n < 32,
    ensures
        r == pcr_reg(port, n),
{
    0x4004_9000 + 0x1000 * (port - 0x41) as u32 + 4 * n as u32
}

fn gpio(port: u8, off: u32) -> (r: u32)
    requires
        valid_port(port),
        off <= GPIO_PDDR,
    ensures
        r == gpio_reg(port, off),
{
    0x400F_F000 + 0x40 * (port - 0x41) as u32 + off
}

// ----- Mode type-states -----

/// Input mode with a pull setting.
pub struct Input<PULL> {
    _pull: PhantomData<PULL>,
}

/// Output mode with a driver type.
pub struct Output<TYPE> {
    _type: PhantomData<TYPE>,
}

/// Alternate function `MUX`.
pub struct Alternate<const MUX: u8>;

/// Pin disabled (reset state).
pub struct Disabled;

/// No pull resistor.
pub struct Floating;

/// Pull-up resistor.
pub struct PullUp;

/// Pull-down resistor.
pub struct PullDown;

/// Push-pull driver.
pub struct PushPull;

/// Open-drain driver.
pub struct OpenDrain;

/// Pin `N` of port `PORT` in mode `MODE`.
pub struct Pin<const PORT: u8, const N: u8, MODE> {
    _mode: PhantomData<MODE>,
}

/// The program of a switch to input: direction bit cleared, then PCR with
/// the GPIO function and the pull setting.
pub open spec fn input_program(port: u8, n: u8, pcr_value: u32) -> Seq<RegOp> {
    seq![
        RegOp::Modify { addr: gpio_reg(port, GPIO_PDDR), width: Width::W32, clear: 1u32 << n, set: 0 },
        RegOp::Write { addr: pcr_reg(port, n), width: Width::W32, value: pcr_value },
    ]
}

/// The program of a switch to output: direction bit set, then PCR with the
/// GPIO function and the driver type.
pub open spec fn output_program(port: u8, n: u8, pcr_value: u32) -> Seq<RegOp> {
    seq![
        RegOp::Modify { addr: gpio_reg(port, GPIO_PDDR), width: Width::W32, clear: 0, set: 1u32 << n },
        RegOp::Write { addr: pcr_reg(port, n), width: Width::W32, value: pcr_value },
    ]
}

fn direction_ops(port: u8, n: u8, output: bool, pcr_value: u32) -> (r: Vec<RegOp>)
    requires
        valid_port(port),
        n < 32,
    ensures
        output ==> r@ == output_program(port, n, pcr_value),
        !output ==> r@ == input_program(port, n, pcr_value),
{
    let b: u32 = 1u32 << n;
    let mut ops = if output {
        modify_op(gpio(port, GPIO_PDDR), Width::W32, 0, b)
    } else {
        modify_op(gpio(port, GPIO_PDDR), Width::W32, b, 0)
    };
    ops.push(RegOp::Write { addr: pcr(port, n), width: Width::W32, value: pcr_value });
    ops
}

impl<const PORT: u8, const N: u8, MODE> Pin<PORT, N, MODE> {
    /// Floating input: PCR = GPIO function, pull disabled.
    pub fn into_floating_input(self) -> (r: (Pin<PORT, N, Input<Floating>>, Vec<RegOp>))
        requires
            valid_port(PORT),
            N < 32,
        ensures
            r.1@ == input_program(PORT, N, PCR_MUX_GPIO),
    {
        (Pin { _mode: PhantomData }, direction_ops(PORT, N, false, PCR_MUX_GPIO))
    }

    /// Input with pull-up: PCR = GPIO function, PE and PS.
    pub fn into_pull_up_input(self) -> (r: (Pin<PORT, N, Input<PullUp>>, Vec<RegOp>))
        requires
            valid_port(PORT),
            N < 32,
        ensures
            r.1@ == input_program(PORT, N, PCR_MUX_GPIO | PCR_PE | PCR_PS),
    {
        (Pin { _mode: PhantomData }, direction_ops(PORT, N, false, PCR_MUX_GPIO | PCR_PE | PCR_PS))
    }

    /// Input with pull-down: PCR = GPIO function, PE.
    pub fn into_pull_down_input(self) -> (r: (Pin<PORT, N, Input<PullDown>>, Vec<RegOp>))
        requires
            valid_port(PORT),
            N < 32,
        ensures
            r.1@ == input_program(PORT, N, PCR_MUX_GPIO | PCR_PE),
    {
        (Pin { _mode: PhantomData }, direction_ops(PORT, N, false, PCR_MUX_GPIO | PCR_PE))
    }

    /// Push-pull output: PCR = GPIO function, open drain off.
    pub fn into_push_pull_output(self) -> (r: (Pin<PORT, N, Output<PushPull>>, Vec<RegOp>))
        requires
            valid_port(PORT),
            N < 32,
        ensures
            r.1@ == output_program(PORT, N, PCR_MUX_GPIO),
    {
        (Pin { _mode: PhantomData }, direction_ops(PORT, N, true, PCR_MUX_GPIO))
    }

    /// Open-drain output: PCR = GPIO function, ODE.
    pub fn into_open_drain_output(self) -> (r: (Pin<PORT, N, Output<OpenDrain>>, Vec<RegOp>))
        requires
            valid_port(PORT),
            N < 32,
        ensures
            r.1@ == output_program(PORT, N, PCR_MUX_GPIO | PCR_ODE),
    {
        (Pin { _mode: PhantomData }, direction_ops(PORT, N, true, PCR_MUX_GPIO | PCR_ODE))
    }

    /// Alternate function `MUX` (3 bits): only PCR.MUX changes.
    pub fn into_alternate<const MUX: u8>(self) -> (r: (Pin<PORT, N, Alternate<MUX>>, Vec<RegOp>))
        requires
            valid_port(PORT),
            N < 32,
        ensures
            r.1@ == seq![RegOp::Modify { addr: pcr_reg(PORT, N), width: Width::W32, clear: PCR_MUX_MASK, set: ((MUX & 0x07) as u32) << 8u32 }],
    {
        (Pin { _mode: PhantomData }, modify_op(pcr(PORT, N), Width::W32, PCR_MUX_MASK, ((MUX & 0x07) as u32) << 8u32))
    }
}

impl<const PORT: u8, const N: u8, PULL> Pin<PORT, N, Input<PULL>> {
    /// Address of the port's data input register (PDIR).
    pub fn input_addr(&self) -> (r: u32)
        requires
            valid_port(PORT),
        ensures
            r == gpio_reg(PORT, GPIO_PDIR),
    {
        gpio(PORT, GPIO_PDIR)
    }

    /// Whether the input is high, given PDIR.
    pub fn is_high(&self, pdir: u32) -> (r: bool)
        requires
            N < 32,
        ensures
            r == (pdir & (1u32 << N) != 0),
    {
        pdir & (1u32 << N) != 0
    }

    /// Whether the input is low, given PDIR.
    pub fn is_low(&self, pdir: u32) -> (r: bool)
        requires
            N < 32,
        ensures
            r == (pdir & (1u32 << N) == 0),
    {
        pdir & (1u32 << N) == 0
    }
}

impl<const PORT: u8, const N: u8, TYPE> Pin<PORT, N, Output<TYPE>> {
    /// Address of the port's data output register (PDOR).
    pub fn output_addr(&self) -> (r: u32)
        requires
            valid_port(PORT),
        ensures
            r == gpio_reg(PORT, GPIO_PDOR),
    {
        gpio(PORT, GPIO_PDOR)
    }

    /// Drive the pin high (PSOR: one write, no read-modify-write).
    pub fn set_high(&mut self) -> (r: Vec<RegOp>)
        requires
            valid_port(PORT),
            N < 32,
        ensures
            r@ == seq![RegOp::Write { addr: gpio_reg(PORT, GPIO_PSOR), width: Width::W32, value: 1u32 << N }],
    {
        write_op(gpio(PORT, GPIO_PSOR), Width::W32, 1u32 << N)
    }

    /// Drive the pin low (PCOR).
    pub fn set_low(&mut self) -> (r: Vec<RegOp>)
        requires
            valid_port(PORT),
            N < 32,
        ensures
            r@ == seq![RegOp::Write { addr: gpio_reg(PORT, GPIO_PCOR), width: Width::W32, value: 1u32 << N }],
    {
        write_op(gpio(PORT, GPIO_PCOR), Width::W32, 1u32 << N)
    }

    /// Toggle the pin (PTOR).
    pub fn toggle(&mut self) -> (r: Vec<RegOp>)
        requires
            valid_port(PORT),
            N < 32,
        ensures
            r@ == seq![RegOp::Write { addr: gpio_reg(PORT, GPIO_PTOR), width: Width::W32, value: 1u32 << N }],
    {
        write_op(gpio(PORT, GPIO_PTOR), Width::W32, 1u32 << N)
    }

    /// Whether the pin is driven high, given PDOR.
    pub fn is_set_high(&self, pdor: u32) -> (r: bool)
        requires
            N < 32,
        ensures
            r == (pdor & (1u32 << N) != 0),
    {
        pdor & (1u32 << N) != 0
    }

    /// Whether the pin is driven low, given PDOR.
    pub fn is_set_low(&self, pdor: u32) -> (r: bool)
        requires
            N < 32,
        ensures
            r == (pdor & (1u32 << N) == 0),
    {
        pdor & (1u32 << N) == 0
    }
}

/// Splitting a port into its pins.
pub trait GpioExt {
    type Pins;

    /// SIM_SCGC5 clock gate bit of the port.
    spec fn gate_bit() -> u32;

    /// Enable the port's clock gate and hand out its 32 pins, disabled.
    fn split(self) -> (r: (Self::Pins, Vec<RegOp>))
        ensures
            r.1@ == seq![RegOp::Modify { addr: SIM_SCGC5, width: Width::W32, clear: 0, set: Self::gate_bit() }];
}

/// Port A (its PORT and GPIO register blocks).
pub struct PortA;

/// The 32 pins of port A, as handed out by [`GpioExt::split`].
pub struct PortAPins {
    pub pa0: Pin<0x41, 0, Disabled>,
    pub pa1: Pin<0x41, 1, Disabled>,
    pub pa2: Pin<0x41, 2, Disabled>,
    pub pa3: Pin<0x41, 3, Disabled>,
    pub pa4: Pin<0x41, 4, Disabled>,
    pub pa5: Pin<0x41, 5, Disabled>,
    pub pa6: Pin<0x41, 6, Disabled>,
    pub pa7: Pin<0x41, 7, Disabled>,
    pub pa8: Pin<0x41, 8, Disabled>,
    pub pa9: Pin<0x41, 9, Disabled>,
    pub pa10: Pin<0x41, 10, Disabled>,
    pub pa11: Pin<0x41, 11, Disabled>,
    pub pa12: Pin<0x41, 12, Disabled>,
    pub pa13: Pin<0x41, 13, Disabled>,
    pub pa14: Pin<0x41, 14, Disabled>,
    pub pa15: Pin<0x41, 15, Disabled>,
    pub pa16: Pin<0x41, 16, Disabled>,
    pub pa17: Pin<0x41, 17, Disabled>,
    pub pa18: Pin<0x41, 18, Disabled>,
    pub pa19: Pin<0x41, 19, Disabled>,
    pub pa20: Pin<0x41, 20, Disabled>,
    pub pa21: Pin<0x41, 21, Disabled>,
    pub pa22: Pin<0x41, 22, Disabled>,
    pub pa23: Pin<0x41, 23, Disabled>,
    pub pa24: Pin<0x41, 24, Disabled>,
    pub pa25: Pin<0x41, 25, Disabled>,
    pub pa26: Pin<0x41, 26, Disabled>,
    pub pa27: Pin<0x41, 27, Disabled>,
    pub pa28: Pin<0x41, 28, Disabled>,
    pub pa29: Pin<0x41, 29, Disabled>,
    pub pa30: Pin<0x41, 30, Disabled>,
    pub pa31: Pin<0x41, 31, Disabled>,
}

impl GpioExt for PortA {
    type Pins = PortAPins;

    open spec fn gate_bit() -> u32 {
        0x200
    }

    fn split(self) -> (r: (PortAPins, Vec<RegOp>)) {
        let pins = PortAPins {
            pa0: Pin { _mode: PhantomData },
            pa1: Pin { _mode: PhantomData },
            pa2: Pin { _mode: PhantomData },
            pa3: Pin { _mode: PhantomData },
            pa4: Pin { _mode: PhantomData },
            pa5: Pin { _mode: PhantomData },
            pa6: Pin { _mode: PhantomData },
            pa7: Pin { _mode: PhantomData },
            pa8: Pin { _mode: PhantomData },
            pa9: Pin { _mode: PhantomData },
            pa10: Pin { _mode: PhantomData },
            pa11: Pin { _mode: PhantomData },
            pa12: Pin { _mode: PhantomData },
            pa13: Pin { _mode: PhantomData },
            pa14: Pin { _mode: PhantomData },
            pa15: Pin { _mode: PhantomData },
            pa16: Pin { _mode: PhantomData },
            pa17: Pin { _mode: PhantomData },
            pa18: Pin { _mode: PhantomData },
            pa19: Pin { _mode: PhantomData },
            pa20: Pin { _mode: PhantomData },
            pa21: Pin { _mode: PhantomData },
            pa22: Pin { _mode: PhantomData },
            pa23: Pin { _mode: PhantomData },
            pa24: Pin { _mode: PhantomData },
            pa25: Pin { _mode: PhantomData },
            pa26: Pin { _mode: PhantomData },
            pa27: Pin { _mode: PhantomData },
            pa28: Pin { _mode: PhantomData },
            pa29: Pin { _mode: PhantomData },
            pa30: Pin { _mode: PhantomData },
            pa31: Pin { _mode: PhantomData },
        };
        (pins, modify_op(SIM_SCGC5, Width::W32, 0, 0x200))
    }
}

/// Port B (its PORT and GPIO register blocks).
pub struct PortB;

/// The 32 pins of port B, as handed out by [`GpioExt::split`].
pub struct PortBPins {
    pub pb0: Pin<0x42, 0, Disabled>,
    pub pb1: Pin<0x42, 1, Disabled>,
    pub pb2: Pin<0x42, 2, Disabled>,
    pub pb3: Pin<0x42, 3, Disabled>,
    pub pb4: Pin<0x42, 4, Disabled>,
    pub pb5: Pin<0x42, 5, Disabled>,
    pub pb6: Pin<0x42, 6, Disabled>,
    pub pb7: Pin<0x42, 7, Disabled>,
    pub pb8: Pin<0x42, 8, Disabled>,
    pub pb9: Pin<0x42, 9, Disabled>,
    pub pb10: Pin<0x42, 10, Disabled>,
    pub pb11: Pin<0x42, 11, Disabled>,
    pub pb12: Pin<0x42, 12, Disabled>,
    pub pb13: Pin<0x42, 13, Disabled>,
    pub pb14: Pin<0x42, 14, Disabled>,
    pub pb15: Pin<0x42, 15, Disabled>,
    pub pb16: Pin<0x42, 16, Disabled>,
    pub pb17: Pin<0x42, 17, Disabled>,
    pub pb18: Pin<0x42, 18, Disabled>,
    pub pb19: Pin<0x42, 19, Disabled>,
    pub pb20: Pin<0x42, 20, Disabled>,
    pub pb21: Pin<0x42, 21, Disabled>,
    pub pb22: Pin<0x42, 22, Disabled>,
    pub pb23: Pin<0x42, 23, Disabled>,
    pub pb24: Pin<0x42, 24, Disabled>,
    pub pb25: Pin<0x42, 25, Disabled>,
    pub pb26: Pin<0x42, 26, Disabled>,
    pub pb27: Pin<0x42, 27, Disabled>,
    pub pb28: Pin<0x42, 28, Disabled>,
    pub pb29: Pin<0x42, 29, Disabled>,
    pub pb30: Pin<0x42, 30, Disabled>,
    pub pb31: Pin<0x42, 31, Disabled>,
}

impl GpioExt for PortB {
    type Pins = PortBPins;

    open spec fn gate_bit() -> u32 {
        0x400
    }

    fn split(self) -> (r: (PortBPins, Vec<RegOp>)) {
        let pins = PortBPins {
            pb0: Pin { _mode: PhantomData },
            pb1: Pin { _mode: PhantomData },
            pb2: Pin { _mode: PhantomData },
            pb3: Pin { _mode: PhantomData },
            pb4: Pin { _mode: PhantomData },
            pb5: Pin { _mode: PhantomData },
            pb6: Pin { _mode: PhantomData },
            pb7: Pin { _mode: PhantomData },
            pb8: Pin { _mode: PhantomData },
            pb9: Pin { _mode: PhantomData },
            pb10: Pin { _mode: PhantomData },
            pb11: Pin { _mode: PhantomData },
            pb12: Pin { _mode: PhantomData },
            pb13: Pin { _mode: PhantomData },
            pb14: Pin { _mode: PhantomData },
            pb15: Pin { _mode: PhantomData },
            pb16: Pin { _mode: PhantomData },
            pb17: Pin { _mode: PhantomData },
            pb18: Pin { _mode: PhantomData },
            pb19: Pin { _mode: PhantomData },
            pb20: Pin { _mode: PhantomData },
            pb21: Pin { _mode: PhantomData },
            pb22: Pin { _mode: PhantomData },
            pb23: Pin { _mode: PhantomData },
            pb24: Pin { _mode: PhantomData },
            pb25: Pin { _mode: PhantomData },
            pb26: Pin { _mode: PhantomData },
            pb27: Pin { _mode: PhantomData },
            pb28: Pin { _mode: PhantomData },
            pb29: Pin { _mode: PhantomData },
            pb30: Pin { _mode: PhantomData },
            pb31: Pin { _mode: PhantomData },
        };
        (pins, modify_op(SIM_SCGC5, Width::W32, 0, 0x400))
    }
}

/// Port C (its PORT and GPIO register blocks).
pub struct PortC;

/// The 32 pins of port C, as handed out by [`GpioExt::split`].
pub struct PortCPins {
    pub pc0: Pin<0x43, 0, Disabled>,
    pub pc1: Pin<0x43, 1, Disabled>,
    pub pc2: Pin<0x43, 2, Disabled>,
    pub pc3: Pin<0x43, 3, Disabled>,
    pub pc4: Pin<0x43, 4, Disabled>,
    pub pc5: Pin<0x43, 5, Disabled>,
    pub pc6: Pin<0x43, 6, Disabled>,
    pub pc7: Pin<0x43, 7, Disabled>,
    pub pc8: Pin<0x43, 8, Disabled>,
    pub pc9: Pin<0x43, 9, Disabled>,
    pub pc10: Pin<0x43, 10, Disabled>,
    pub pc11: Pin<0x43, 11, Disabled>,
    pub pc12: Pin<0x43, 12, Disabled>,
    pub pc13: Pin<0x43, 13, Disabled>,
    pub pc14: Pin<0x43, 14, Disabled>,
    pub pc15: Pin<0x43, 15, Disabled>,
    pub pc16: Pin<0x43, 16, Disabled>,
    pub pc17: Pin<0x43, 17, Disabled>,
    pub pc18: Pin<0x43, 18, Disabled>,
    pub pc19: Pin<0x43, 19, Disabled>,
    pub pc20: Pin<0x43, 20, Disabled>,
    pub pc21: Pin<0x43, 21, Disabled>,
    pub pc22: Pin<0x43, 22, Disabled>,
    pub pc23: Pin<0x43, 23, Disabled>,
    pub pc24: Pin<0x43, 24, Disabled>,
    pub pc25: Pin<0x43, 25, Disabled>,
    pub pc26: Pin<0x43, 26, Disabled>,
    pub pc27: Pin<0x43, 27, Disabled>,
    pub pc28: Pin<0x43, 28, Disabled>,
    pub pc29: Pin<0x43, 29, Disabled>,
    pub pc30: Pin<0x43, 30, Disabled>,
    pub pc31: Pin<0x43, 31, Disabled>,
}

impl GpioExt for PortC {
    type Pins = PortCPins;

    open spec fn gate_bit() -> u32 {
        0x800
    }

    fn split(self) -> (r: (PortCPins, Vec<RegOp>)) {
        let pins = PortCPins {
            pc0: Pin { _mode: PhantomData },
            pc1: Pin { _mode: PhantomData },
            pc2: Pin { _mode: PhantomData },
            pc3: Pin { _mode: PhantomData },
            pc4: Pin { _mode: PhantomData },
            pc5: Pin { _mode: PhantomData },
            pc6: Pin { _mode: PhantomData },
            pc7: Pin { _mode: PhantomData },
            pc8: Pin { _mode: PhantomData },
            pc9: Pin { _mode: PhantomData },
            pc10: Pin { _mode: PhantomData },
            pc11: Pin { _mode: PhantomData },
            pc12: Pin { _mode: PhantomData },
            pc13: Pin { _mode: PhantomData },
            pc14: Pin { _mode: PhantomData },
            pc15: Pin { _mode: PhantomData },
            pc16: Pin { _mode: PhantomData },
            pc17: Pin { _mode: PhantomData },
            pc18: Pin { _mode: PhantomData },
            pc19: Pin { _mode: PhantomData },
            pc20: Pin { _mode: PhantomData },
            pc21: Pin { _mode: PhantomData },
            pc22: Pin { _mode: PhantomData },
            pc23: Pin { _mode: PhantomData },
            pc24: Pin { _mode: PhantomData },
            pc25: Pin { _mode: PhantomData },
            pc26: Pin { _mode: PhantomData },
            pc27: Pin { _mode: PhantomData },
            pc28: Pin { _mode: PhantomData },
            pc29: Pin { _mode: PhantomData },
            pc30: Pin { _mode: PhantomData },
            pc31: Pin { _mode: PhantomData },
        };
        (pins, modify_op(SIM_SCGC5, Width::W32, 0, 0x800))
    }
}

/// Port D (its PORT and GPIO register blocks).
pub struct PortD;

/// The 32 pins of port D, as handed out by [`GpioExt::split`].
pub struct PortDPins {
    pub pd0: Pin<0x44, 0, Disabled>,
    pub pd1: Pin<0x44, 1, Disabled>,
    pub pd2: Pin<0x44, 2, Disabled>,
    pub pd3: Pin<0x44, 3, Disabled>,
    pub pd4: Pin<0x44, 4, Disabled>,
    pub pd5: Pin<0x44, 5, Disabled>,
    pub pd6: Pin<0x44, 6, Disabled>,
    pub pd7: Pin<0x44, 7, Disabled>,
    pub pd8: Pin<0x44, 8, Disabled>,
    pub pd9: Pin<0x44, 9, Disabled>,
    pub pd10: Pin<0x44, 10, Disabled>,
    pub pd11: Pin<0x44, 11, Disabled>,
    pub pd12: Pin<0x44, 12, Disabled>,
    pub pd13: Pin<0x44, 13, Disabled>,
    pub pd14: Pin<0x44, 14, Disabled>,
    pub pd15: Pin<0x44, 15, Disabled>,
    pub pd16: Pin<0x44, 16, Disabled>,
    pub pd17: Pin<0x44, 17, Disabled>,
    pub pd18: Pin<0x44, 18, Disabled>,
    pub pd19: Pin<0x44, 19, Disabled>,
    pub pd20: Pin<0x44, 20, Disabled>,
    pub pd21: Pin<0x44, 21, Disabled>,
    pub pd22: Pin<0x44, 22, Disabled>,
    pub pd23: Pin<0x44, 23, Disabled>,
    pub pd24: Pin<0x44, 24, Disabled>,
    pub pd25: Pin<0x44, 25, Disabled>,
    pub pd26: Pin<0x44, 26, Disabled>,
    pub pd27: Pin<0x44, 27, Disabled>,
    pub pd28: Pin<0x44, 28, Disabled>,
    pub pd29: Pin<0x44, 29, Disabled>,
    pub pd30: Pin<0x44, 30, Disabled>,
    pub pd31: Pin<0x44, 31, Disabled>,
}

impl GpioExt for PortD {
    type Pins = PortDPins;

    open spec fn gate_bit() -> u32 {
        0x1000
    }

    fn split(self) -> (r: (PortDPins, Vec<RegOp>)) {
        let pins = PortDPins {
            pd0: Pin { _mode: PhantomData },
            pd1: Pin { _mode: PhantomData },
            pd2: Pin { _mode: PhantomData },
            pd3: Pin { _mode: PhantomData },
            pd4: Pin { _mode: PhantomData },
            pd5: Pin { _mode: PhantomData },
            pd6: Pin { _mode: PhantomData },
            pd7: Pin { _mode: PhantomData },
            pd8: Pin { _mode: PhantomData },
            pd9: Pin { _mode: PhantomData },
            pd10: Pin { _mode: PhantomData },
            pd11: Pin { _mode: PhantomData },
            pd12: Pin { _mode: PhantomData },
            pd13: Pin { _mode: PhantomData },
            pd14: Pin { _mode: PhantomData },
            pd15: Pin { _mode: PhantomData },
            pd16: Pin { _mode: PhantomData },
            pd17: Pin { _mode: PhantomData },
            pd18: Pin { _mode: PhantomData },
            pd19: Pin { _mode: PhantomData },
            pd20: Pin { _mode: PhantomData },
            pd21: Pin { _mode: PhantomData },
            pd22: Pin { _mode: PhantomData },
            pd23: Pin { _mode: PhantomData },
            pd24: Pin { _mode: PhantomData },
            pd25: Pin { _mode: PhantomData },
            pd26: Pin { _mode: PhantomData },
            pd27: Pin { _mode: PhantomData },
            pd28: Pin { _mode: PhantomData },
            pd29: Pin { _mode: PhantomData },
            pd30: Pin { _mode: PhantomData },
            pd31: Pin { _mode: PhantomData },
        };
        (pins, modify_op(SIM_SCGC5, Width::W32, 0, 0x1000))
    }
}

/// Port E (its PORT and GPIO register blocks).
pub struct PortE;

/// The 32 pins of port E, as handed out by [`GpioExt::split`].
pub struct PortEPins {
    pub pe0: Pin<0x45, 0, Disabled>,
    pub pe1: Pin<0x45, 1, Disabled>,
    pub pe2: Pin<0x45, 2, Disabled>,
    pub pe3: Pin<0x45, 3, Disabled>,
    pub pe4: Pin<0x45, 4, Disabled>,
    pub pe5: Pin<0x45, 5, Disabled>,
    pub pe6: Pin<0x45, 6, Disabled>,
    pub pe7: Pin<0x45, 7, Disabled>,
    pub pe8: Pin<0x45, 8, Disabled>,
    pub pe9: Pin<0x45, 9, Disabled>,
    pub pe10: Pin<0x45, 10, Disabled>,
    pub pe11: Pin<0x45, 11, Disabled>,
    pub pe12: Pin<0x45, 12, Disabled>,
    pub pe13: Pin<0x45, 13, Disabled>,
    pub pe14: Pin<0x45, 14, Disabled>,
    pub pe15: Pin<0x45, 15, Disabled>,
    pub pe16: Pin<0x45, 16, Disabled>,
    pub pe17: Pin<0x45, 17, Disabled>,
    pub pe18: Pin<0x45, 18, Disabled>,
    pub pe19: Pin<0x45, 19, Disabled>,
    pub pe20: Pin<0x45, 20, Disabled>,
    pub pe21: Pin<0x45, 21, Disabled>,
    pub pe22: Pin<0x45, 22, Disabled>,
    pub pe23: Pin<0x45, 23, Disabled>,
    pub pe24: Pin<0x45, 24, Disabled>,
    pub pe25: Pin<0x45, 25, Disabled>,
    pub pe26: Pin<0x45, 26, Disabled>,
    pub pe27: Pin<0x45, 27, Disabled>,
    pub pe28: Pin<0x45, 28, Disabled>,
    pub pe29: Pin<0x45, 29, Disabled>,
    pub pe30: Pin<0x45, 30, Disabled>,
    pub pe31: Pin<0x45, 31, Disabled>,
}

impl GpioExt for PortE {
    type Pins = PortEPins;

    open spec fn gate_bit() -> u32 {
        0x2000
    }

    fn split(self) -> (r: (PortEPins, Vec<RegOp>)) {
        let pins = PortEPins {
            pe0: Pin { _mode: PhantomData },
            pe1: Pin { _mode: PhantomData },
            pe2: Pin { _mode: PhantomData },
            pe3: Pin { _mode: PhantomData },
            pe4: Pin { _mode: PhantomData },
            pe5: Pin { _mode: PhantomData },
            pe6: Pin { _mode: PhantomData },
            pe7: Pin { _mode: PhantomData },
            pe8: Pin { _mode: PhantomData },
            pe9: Pin { _mode: PhantomData },
            pe10: Pin { _mode: PhantomData },
            pe11: Pin { _mode: PhantomData },
            pe12: Pin { _mode: PhantomData },
            pe13: Pin { _mode: PhantomData },
            pe14: Pin { _mode: PhantomData },
            pe15: Pin { _mode: PhantomData },
            pe16: Pin { _mode: PhantomData },
            pe17: Pin { _mode: PhantomData },
            pe18: Pin { _mode: PhantomData },
            pe19: Pin { _mode: PhantomData },
            pe20: Pin { _mode: PhantomData },
            pe21: Pin { _mode: PhantomData },
            pe22: Pin { _mode: PhantomData },
            pe23: Pin { _mode: PhantomData },
            pe24: Pin { _mode: PhantomData },
            pe25: Pin { _mode: PhantomData },
            pe26: Pin { _mode: PhantomData },
            pe27: Pin { _mode: PhantomData },
            pe28: Pin { _mode: PhantomData },
            pe29: Pin { _mode: PhantomData },
            pe30: Pin { _mode: PhantomData },
            pe31: Pin { _mode: PhantomData },
        };
        (pins, modify_op(SIM_SCGC5, Width::W32, 0, 0x2000))
    }
}

} // verus!
