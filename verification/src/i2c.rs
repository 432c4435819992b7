//! I2C master driver: bus clock selection, register programs and the
//! transaction sequencing of the Kinetis I2C module.

use vstd::prelude::*;
use core::marker::PhantomData;

use crate::clocks::Clocks;
use crate::regs::{RegOp, Width};
use crate::time::Hertz;

verus! {

// ----- Configuration -----

/// I2C bus configuration.
pub struct Config {
    pub frequency: Hertz,
}

impl Config {
    /// Create a new configuration with the given SCL frequency.
    pub fn new(frequency: Hertz) -> (r: Config)
        ensures
            r.frequency == frequency,
    {
        Config { frequency }
    }
}

// ----- Error -----

/// I2C communication error.
#[derive(Clone, Copy, Debug, PartialEq, Eq, Structural)]
pub enum Error {
    /// Arbitration was lost during communication.
    ArbitrationLoss,
    /// Slave did not acknowledge its address.
    AddressNack,
    /// Slave did not acknowledge a data byte.
    DataNack,
}

// ----- Instances -----

/// An I2C module: register block base and clock gate bit in SIM_SCGC4.
pub trait I2cInstance {
    spec fn spec_base() -> u32;
    spec fn spec_clock_gate() -> u32;

    fn base() -> (r: u32)
        ensures
            r == Self::spec_base(),
            0x4000_0000 <= r <= 0x4010_0000;

    fn clock_gate() -> (r: u32)
        ensures
            r == Self::spec_clock_gate();
}

/// Marker type for I2C0.
pub struct I2c0;

/// Marker type for I2C1.
pub struct I2c1;

impl I2cInstance for I2c0 {
    open spec fn spec_base() -> u32 {
        0x4006_6000
    }

    open spec fn spec_clock_gate() -> u32 {
        0x40
    }

    fn base() -> (r: u32) {
        0x4006_6000
    }

    fn clock_gate() -> (r: u32) {
        0x40
    }
}

impl I2cInstance for I2c1 {
    open spec fn spec_base() -> u32 {
        0x4006_7000
    }

    open spec fn spec_clock_gate() -> u32 {
        0x80
    }

    fn base() -> (r: u32) {
        0x4006_7000
    }

    fn clock_gate() -> (r: u32) {
        0x80
    }
}

/// SIM clock gate register 4.
pub const SIM_SCGC4: u32 = 0x4004_8034;

/// Register offsets.
pub const I2C_F: u32 = 1;
pub const I2C_C1: u32 = 2;
pub const I2C_S: u32 = 3;
pub const I2C_D: u32 = 4;

/// C1 bits.
pub const C1_IICEN: u32 = 0x80;
pub const C1_IICIE: u32 = 0x40;
pub const C1_MST: u32 = 0x20;
pub const C1_TX: u32 = 0x10;
pub const C1_TXAK: u32 = 0x08;
pub const C1_RSTA: u32 = 0x04;

/// S bits.
pub const S_BUSY: u8 = 0x20;
pub const S_ARBL: u8 = 0x10;
pub const S_IICIF: u8 = 0x02;
pub const S_RXAK: u8 = 0x01;

// ----- Baud Rate Calculation -----

/// ICR divider table (index = ICR field value, value = SCL divider).
pub const ICR_DIVIDERS: [u16; 64] = [
    20, 22, 24, 26, 28, 30, 34, 40,
    28, 32, 36, 40, 44, 48, 56, 68,
    48, 56, 64, 72, 80, 88, 104, 128,
    80, 96, 112, 128, 144, 160, 192, 240,
    160, 192, 224, 256, 288, 320, 384, 480,
    320, 384, 448, 512, 576, 640, 768, 960,
    640, 768, 896, 1024, 1152, 1280, 1536, 1920,
    1280, 1536, 1792, 2048, 2304, 2560, 3072, 3840,
];

/// Multiplier selected by F.MULT (index 0-2).
pub open spec fn i2c_mult(m: int) -> int {
    if m == 0 {
        1
    } else if m == 1 {
        2
    } else {
        4
    }
}

/// SCL frequency of candidate `k` (MULT index `k / 64`, ICR `k % 64`).
pub open spec fn i2c_candidate_freq(bus_clk: u32, k: int) -> int {
    bus_clk as int / (i2c_mult(k / 64) * (ICR_DIVIDERS@[k % 64] as int))
}

/// The candidate number of an (ICR, MULT index) choice, in search order.
pub open spec fn i2c_candidate(icr: u8, mult: u8) -> int {
    mult as int * 64 + icr as int
}

proof fn lemma_icr_bounds(i: int)
    requires
        0 <= i < 64,
    ensures
        20 <= ICR_DIVIDERS@[i] <= 3840,
{
    assert(ICR_DIVIDERS@ =~= seq![
        20u16, 22, 24, 26, 28, 30, 34, 40,
        28, 32, 36, 40, 44, 48, 56, 68,
        48, 56, 64, 72, 80, 88, 104, 128,
        80, 96, 112, 128, 144, 160, 192, 240,
        160, 192, 224, 256, 288, 320, 384, 480,
        320, 384, 448, 512, 576, 640, 768, 960,
        640, 768, 896, 1024, 1152, 1280, 1536, 1920,
        1280, 1536, 1792, 2048, 2304, 2560, 3072, 3840,
    ]);
}

/// `(icr, mult)` is the divider choice for `target`: the highest SCL
/// frequency not above `target`, first in search order among equals, or
/// `(0, 0)` when nothing fits.
pub open spec fn i2c_divider_choice(bus_clk: u32, target: u32, icr: u8, mult: u8) -> bool {
    &&& icr < 64
    &&& mult < 3
    &&& (exists|k: int| 0 <= k < 192 && 0 < #[trigger] i2c_candidate_freq(bus_clk, k) <= target) ==> {
            let best = i2c_candidate(icr, mult);
            &&& 0 < i2c_candidate_freq(bus_clk, best) <= target
            &&& forall|k: int| 0 <= k < 192 && #[trigger] i2c_candidate_freq(bus_clk, k) <= target
                ==> i2c_candidate_freq(bus_clk, k) <= i2c_candidate_freq(bus_clk, best)
            &&& forall|k: int| 0 <= k < best && #[trigger] i2c_candidate_freq(bus_clk, k) <= target
                ==> i2c_candidate_freq(bus_clk, k) < i2c_candidate_freq(bus_clk, best)
        }
    &&& !(exists|k: int| 0 <= k < 192 && 0 < #[trigger] i2c_candidate_freq(bus_clk, k) <= target) ==> icr == 0 && mult == 0
}

/// Select ICR and MULT for the highest SCL frequency not exceeding `target`.
///
/// `SCL = bus_clk / (MULT × ICR_DIVIDERS[ICR])`. Among equal frequencies the
/// first in search order (MULT outer, ICR inner) wins. When no candidate gives
/// a non-zero frequency at or below `target`, returns `(0, 0)`.
pub fn calc_frequency(bus_clk: u32, target: u32) -> (r: (u8, u8))
    ensures
        i2c_divider_choice(bus_clk, target, r.0, r.1),
{
    let mut best_icr: u8 = 0;
    let mut best_mult: u8 = 0;
    let mut best_freq: u32 = 0;
    let mut k: usize = 0;
    while k < 192
        invariant
            k <= 192,
            best_icr < 64,
            best_mult < 3,
            best_freq == 0 ==> best_icr == 0 && best_mult == 0,
            best_freq > 0 ==> {
                let best = i2c_candidate(best_icr, best_mult);
                &&& best < k
                &&& best_freq as int == i2c_candidate_freq(bus_clk, best)
                &&& best_freq <= target
                &&& forall|j: int| 0 <= j < best && #[trigger] i2c_candidate_freq(bus_clk, j) <= target
                    ==> i2c_candidate_freq(bus_clk, j) < best_freq
            },
            forall|j: int| 0 <= j < k && #[trigger] i2c_candidate_freq(bus_clk, j) <= target
                ==> i2c_candidate_freq(bus_clk, j) <= best_freq,
        decreases 192 - k,
    {
        let mult_idx: u8 = (k / 64) as u8;
        let icr_idx: u8 = (k % 64) as u8;
        let mult: u32 = if mult_idx == 0 {
            1
        } else if mult_idx == 1 {
            2
        } else {
            4
        };
        proof {
            lemma_icr_bounds(k as int % 64);
        }
        let divider = ICR_DIVIDERS[icr_idx as usize];
        let freq = bus_clk / (mult * divider as u32);
        assert(freq as int == i2c_candidate_freq(bus_clk, k as int));
        assert(i2c_candidate(icr_idx, mult_idx) == k as int);
        if freq <= target && freq > best_freq {
            best_freq = freq;
            best_icr = icr_idx;
            best_mult = mult_idx;
        }
        k = k + 1;
    }
    (best_icr, best_mult)
}

} // verus!

verus! {

// ----- Driver -----

/// I2C master driver.
pub struct I2c<I2C> {
    _i2c: PhantomData<I2C>,
}

/// One operation of a transaction: a read or a write of `len` bytes.
#[derive(Clone, Copy, Debug, PartialEq, Eq, Structural)]
pub struct OpKind {
    pub is_read: bool,
    pub len: usize,
}

/// A maximal run of same-direction operations `first..end`, sent after one
/// (repeated) START and address byte.
#[derive(Clone, Copy, Debug, PartialEq, Eq, Structural)]
pub struct GroupPlan {
    pub first: usize,
    pub end: usize,
    pub is_read: bool,
    /// REPEATED START (every group but the first) rather than START.
    pub repeated_start: bool,
    /// STOP after the group (the last group only).
    pub stop: bool,
    /// Total bytes read by the group (0 for a write group).
    pub read_total: usize,
}

/// Total length of operations `a..b`.
pub open spec fn len_sum(ops: Seq<OpKind>, a: int, b: int) -> int
    decreases b - a,
{
    if b <= a {
        0
    } else {
        len_sum(ops, a, b - 1) + ops[b - 1].len as int
    }
}

/// `plan` splits operations `0..upto` into maximal same-direction runs,
/// with START on the first group, REPEATED START on the others, and STOP
/// after the group that ends the whole transaction.
pub open spec fn valid_plan(ops: Seq<OpKind>, plan: Seq<GroupPlan>, upto: int) -> bool {
    &&& plan.len() == 0 ==> upto == 0
    &&& plan.len() > 0 ==> plan[0].first == 0 && plan.last().end == upto
    &&& forall|k: int| 0 <= k < plan.len() - 1 ==> #[trigger] plan[k].end == plan[k + 1].first
    &&& forall|k: int| 0 <= k < plan.len() ==> {
        let g = #[trigger] plan[k];
        &&& g.first < g.end <= upto
        &&& forall|j: int| g.first <= j < g.end ==> #[trigger] ops[j].is_read == g.is_read
        &&& g.end < ops.len() ==> ops[g.end as int].is_read != g.is_read
        &&& g.repeated_start == (k > 0)
        &&& g.stop == (g.end == ops.len())
        &&& g.read_total == if g.is_read { len_sum(ops, g.first as int, g.end as int) } else { 0 }
    }
}

/// Split a transaction into groups of consecutive same-direction operations.
///
/// Adjacent operations of the same direction are sent without START or STOP
/// between them; a change of direction gets a REPEATED START and the address
/// again; STOP follows the last operation.
pub fn plan_transaction(ops: &Vec<OpKind>) -> (r: Vec<GroupPlan>)
    requires
        len_sum(ops@, 0, ops@.len() as int) <= usize::MAX,
    ensures
        valid_plan(ops@, r@, ops@.len() as int),
{
    let n = ops.len();
    let mut plan: Vec<GroupPlan> = Vec::new();
    let mut i: usize = 0;
    while i < n
        invariant
            i <= n,
            n == ops@.len(),
            len_sum(ops@, 0, n as int) <= usize::MAX,
            valid_plan(ops@, plan@, i as int),
            i < n && plan@.len() > 0 ==> ops@[i as int].is_read != plan@.last().is_read,
        decreases n - i,
    {
        let is_read = ops[i].is_read;
        let (end, total) = scan_group(ops, i);
        let g = GroupPlan {
            first: i,
            end,
            is_read,
            repeated_start: i != 0,
            stop: end == n,
            read_total: if is_read { total } else { 0 },
        };
        proof {
            lemma_plan_push(ops@, plan@, g);
        }
        plan.push(g);
        i = end;
    }
    plan
}

/// The end of the run of operations that share operation `i`'s direction,
/// and the total length of that run.
fn scan_group(ops: &Vec<OpKind>, i: usize) -> (r: (usize, usize))
    requires
        i < ops@.len(),
        len_sum(ops@, 0, ops@.len() as int) <= usize::MAX,
    ensures
        i < r.0 <= ops@.len(),
        r.1 as int == len_sum(ops@, i as int, r.0 as int),
        forall|j: int| i <= j < r.0 ==> #[trigger] ops@[j].is_read == ops@[i as int].is_read,
        r.0 < ops@.len() ==> ops@[r.0 as int].is_read != ops@[i as int].is_read,
{
    let n = ops.len();
    let is_read = ops[i].is_read;
    let mut end: usize = i + 1;
    let mut total: usize = ops[i].len;
    proof {
        reveal_with_fuel(len_sum, 2);
        assert(len_sum(ops@, i as int, i as int + 1) == ops@[i as int].len);
    }
    while end < n && ops[end].is_read == is_read
        invariant
            i < end <= n,
            n == ops@.len(),
            is_read == ops@[i as int].is_read,
            len_sum(ops@, 0, n as int) <= usize::MAX,
            total as int == len_sum(ops@, i as int, end as int),
            forall|j: int| i <= j < end ==> #[trigger] ops@[j].is_read == is_read,
        decreases n - end,
    {
        proof {
            lemma_len_sum_mono(ops@, i as int, end as int + 1, n as int);
        }
        total = total + ops[end].len;
        end = end + 1;
    }
    (end, total)
}

/// Appending the next maximal group keeps a plan valid.
proof fn lemma_plan_push(ops: Seq<OpKind>, plan: Seq<GroupPlan>, g: GroupPlan)
    requires
        g.first < ops.len(),
        valid_plan(ops, plan, g.first as int),
        plan.len() > 0 ==> ops[g.first as int].is_read != plan.last().is_read,
        g.is_read == ops[g.first as int].is_read,
        g.first < g.end <= ops.len(),
        forall|j: int| g.first <= j < g.end ==> #[trigger] ops[j].is_read == g.is_read,
        g.end < ops.len() ==> ops[g.end as int].is_read != g.is_read,
        g.repeated_start == (g.first != 0),
        g.stop == (g.end == ops.len()),
        g.read_total == if g.is_read { len_sum(ops, g.first as int, g.end as int) } else { 0 },
    ensures
        valid_plan(ops, plan.push(g), g.end as int),
        g.end < ops.len() ==> ops[g.end as int].is_read != plan.push(g).last().is_read,
{
    let p = plan.push(g);
    assert(plan.len() == 0 <==> g.first == 0);
    assert forall|k: int| 0 <= k < p.len() implies {
        let h = #[trigger] p[k];
        &&& h.first < h.end <= g.end
        &&& forall|j: int| h.first <= j < h.end ==> #[trigger] ops[j].is_read == h.is_read
        &&& h.end < ops.len() ==> ops[h.end as int].is_read != h.is_read
        &&& h.repeated_start == (k > 0)
        &&& h.stop == (h.end == ops.len())
        &&& h.read_total == if h.is_read { len_sum(ops, h.first as int, h.end as int) } else { 0 }
    } by {
        if k < plan.len() {
            assert(p[k] == plan[k]);
            assert(plan[k].end <= g.first);
        }
    }
    assert forall|k: int| 0 <= k < p.len() - 1 implies #[trigger] p[k].end == p[k + 1].first by {
        if k < plan.len() - 1 {
            assert(p[k] == plan[k] && p[k + 1] == plan[k + 1]);
        }
    }
}

/// Lengths are non-negative, so a sub-range's total is at most the whole's.
proof fn lemma_len_sum_mono(ops: Seq<OpKind>, a: int, b: int, c: int)
    requires
        0 <= a <= b <= c,
    ensures
        len_sum(ops, a, b) <= len_sum(ops, a, c),
        len_sum(ops, a, c) <= len_sum(ops, 0, c),
    decreases c - a,
{
    if b < c {
        lemma_len_sum_mono(ops, a, b, c - 1);
    }
    lemma_len_sum_nonneg(ops, 0, a);
    lemma_len_sum_split(ops, 0, a, c);
}

proof fn lemma_len_sum_nonneg(ops: Seq<OpKind>, a: int, b: int)
    ensures
        len_sum(ops, a, b) >= 0,
    decreases b - a,
{
    if b > a {
        lemma_len_sum_nonneg(ops, a, b - 1);
    }
}

proof fn lemma_len_sum_split(ops: Seq<OpKind>, a: int, b: int, c: int)
    requires
        a <= b <= c,
    ensures
        len_sum(ops, a, c) == len_sum(ops, a, b) + len_sum(ops, b, c),
    decreases c - b,
{
    if b < c {
        lemma_len_sum_split(ops, a, b, c - 1);
    }
}

} // verus!

verus! {

/// The address byte: 7-bit address and the R/W bit.
pub open spec fn address_byte(addr: u8, read: bool) -> u32 {
    (((addr as u32) << 1u32) & 0xFF) | (if read { 1u32 } else { 0u32 })
}

impl<I2C: I2cInstance> I2c<I2C> {
    /// Enable the clock gate and configure the module for `config`:
    /// disable, set the divider from [`calc_frequency`], clear pending
    /// flags, enable.
    pub fn init(config: Config, clocks: &Clocks) -> (r: (I2c<I2C>, Vec<RegOp>))
        ensures
            ({
                let (icr, mult) = (r.1@[2]->Write_value & 0x3F, r.1@[2]->Write_value >> 6u32);
                &&& r.1@.len() == 5
                &&& r.1@[0] == RegOp::Modify { addr: SIM_SCGC4, width: Width::W32, clear: 0, set: I2C::spec_clock_gate() }
                &&& r.1@[1] == RegOp::Write { addr: (I2C::spec_base() + I2C_C1) as u32, width: Width::W8, value: 0 }
                &&& r.1@[2] is Write
                &&& r.1@[2]->Write_addr == (I2C::spec_base() + I2C_F) as u32
                &&& r.1@[2]->Write_width == Width::W8
                &&& i2c_divider_choice(clocks.bus_hz(), config.frequency.0, icr as u8, mult as u8)
                &&& r.1@[3] == RegOp::Write { addr: (I2C::spec_base() + I2C_S) as u32, width: Width::W8, value: (S_IICIF | S_ARBL) as u32 }
                &&& r.1@[4] == RegOp::Write { addr: (I2C::spec_base() + I2C_C1) as u32, width: Width::W8, value: C1_IICEN }
            }),
    {
        let base = I2C::base();
        let (icr, mult) = calc_frequency(clocks.bus_clk().raw(), config.frequency.raw());
        let f: u32 = ((mult as u32) << 6u32) | (icr as u32);
        assert(f & 0x3F == icr as u32 && f >> 6u32 == mult as u32) by (bit_vector)
            requires
                f == ((mult as u32) << 6u32) | (icr as u32),
                icr < 64,
                mult < 3,
        ;
        let mut ops: Vec<RegOp> = Vec::new();
        ops.push(RegOp::Modify { addr: SIM_SCGC4, width: Width::W32, clear: 0, set: I2C::clock_gate() });
        ops.push(RegOp::Write { addr: base + I2C_C1, width: Width::W8, value: 0 });
        ops.push(RegOp::Write { addr: base + I2C_F, width: Width::W8, value: f });
        ops.push(RegOp::Write { addr: base + I2C_S, width: Width::W8, value: (S_IICIF | S_ARBL) as u32 });
        ops.push(RegOp::Write { addr: base + I2C_C1, width: Width::W8, value: C1_IICEN });
        (I2c { _i2c: PhantomData }, ops)
    }

    /// Address of the status register S.
    pub fn status_addr(&self) -> (r: u32)
        ensures
            r == I2C::spec_base() + I2C_S,
    {
        I2C::base() + I2C_S
    }

    /// Address of the data register (read to take a received byte).
    pub fn data_addr(&self) -> (r: u32)
        ensures
            r == I2C::spec_base() + I2C_D,
    {
        I2C::base() + I2C_D
    }

    /// Poll for the end of a byte transfer (S.IICIF set); afterwards read S
    /// and pass it to [`transfer_result`](Self::transfer_result).
    pub fn wait_transfer(&self) -> (r: Vec<RegOp>)
        ensures
            r@ == seq![RegOp::WaitUntil { addr: (I2C::spec_base() + I2C_S) as u32, width: Width::W8, mask: S_IICIF as u32, value: S_IICIF as u32 }],
    {
        let mut ops: Vec<RegOp> = Vec::new();
        ops.push(RegOp::WaitUntil { addr: I2C::base() + I2C_S, width: Width::W8, mask: S_IICIF as u32, value: S_IICIF as u32 });
        ops
    }

    /// Outcome of a completed byte transfer given status `s`: arbitration
    /// loss clears ARBL and IICIF and fails; otherwise IICIF is cleared.
    pub fn transfer_result(&self, s: u8) -> (r: (Result<(), Error>, Vec<RegOp>))
        ensures
            s & S_ARBL != 0 ==> r.0 == Err::<(), Error>(Error::ArbitrationLoss) && r.1@ == seq![
                RegOp::Write { addr: (I2C::spec_base() + I2C_S) as u32, width: Width::W8, value: (S_ARBL | S_IICIF) as u32 },
            ],
            s & S_ARBL == 0 ==> r.0 == Ok::<(), Error>(()) && r.1@ == seq![
                RegOp::Write { addr: (I2C::spec_base() + I2C_S) as u32, width: Width::W8, value: S_IICIF as u32 },
            ],
    {
        let mut ops: Vec<RegOp> = Vec::new();
        if s & S_ARBL != 0 {
            ops.push(RegOp::Write { addr: I2C::base() + I2C_S, width: Width::W8, value: (S_ARBL | S_IICIF) as u32 });
            (Err(Error::ArbitrationLoss), ops)
        } else {
            ops.push(RegOp::Write { addr: I2C::base() + I2C_S, width: Width::W8, value: S_IICIF as u32 });
            (Ok(()), ops)
        }
    }

    /// Generate START and send the address byte: wait for the bus to be
    /// idle, take master transmit, write the address, wait for the transfer.
    pub fn start(&self, addr: u8, read: bool) -> (r: Vec<RegOp>)
        ensures
            r@ == seq![
                RegOp::WaitUntil { addr: (I2C::spec_base() + I2C_S) as u32, width: Width::W8, mask: S_BUSY as u32, value: 0 },
                RegOp::Write { addr: (I2C::spec_base() + I2C_C1) as u32, width: Width::W8, value: C1_IICEN | C1_MST | C1_TX },
                RegOp::Write { addr: (I2C::spec_base() + I2C_D) as u32, width: Width::W8, value: address_byte(addr, read) },
                RegOp::WaitUntil { addr: (I2C::spec_base() + I2C_S) as u32, width: Width::W8, mask: S_IICIF as u32, value: S_IICIF as u32 },
            ],
    {
        let base = I2C::base();
        let ab: u32 = (((addr as u32) << 1u32) & 0xFF) | if read { 1u32 } else { 0u32 };
        let mut ops: Vec<RegOp> = Vec::new();
        ops.push(RegOp::WaitUntil { addr: base + I2C_S, width: Width::W8, mask: S_BUSY as u32, value: 0 });
        ops.push(RegOp::Write { addr: base + I2C_C1, width: Width::W8, value: C1_IICEN | C1_MST | C1_TX });
        ops.push(RegOp::Write { addr: base + I2C_D, width: Width::W8, value: ab });
        ops.push(RegOp::WaitUntil { addr: base + I2C_S, width: Width::W8, mask: S_IICIF as u32, value: S_IICIF as u32 });
        ops
    }

    /// Generate REPEATED START and send the address byte.
    pub fn repeated_start(&self, addr: u8, read: bool) -> (r: Vec<RegOp>)
        ensures
            r@ == seq![
                RegOp::Write { addr: (I2C::spec_base() + I2C_C1) as u32, width: Width::W8, value: C1_IICEN | C1_MST | C1_TX | C1_RSTA },
                RegOp::Write { addr: (I2C::spec_base() + I2C_D) as u32, width: Width::W8, value: address_byte(addr, read) },
                RegOp::WaitUntil { addr: (I2C::spec_base() + I2C_S) as u32, width: Width::W8, mask: S_IICIF as u32, value: S_IICIF as u32 },
            ],
    {
        let base = I2C::base();
        let ab: u32 = (((addr as u32) << 1u32) & 0xFF) | if read { 1u32 } else { 0u32 };
        let mut ops: Vec<RegOp> = Vec::new();
        ops.push(RegOp::Write { addr: base + I2C_C1, width: Width::W8, value: C1_IICEN | C1_MST | C1_TX | C1_RSTA });
        ops.push(RegOp::Write { addr: base + I2C_D, width: Width::W8, value: ab });
        ops.push(RegOp::WaitUntil { addr: base + I2C_S, width: Width::W8, mask: S_IICIF as u32, value: S_IICIF as u32 });
        ops
    }

    /// Whether the address was acknowledged, given the status read after
    /// the address transfer.
    pub fn address_ack(&self, s: u8) -> (r: Result<(), Error>)
        ensures
            r == if s & S_RXAK != 0 { Err::<(), Error>(Error::AddressNack) } else { Ok::<(), Error>(()) },
    {
        if s & S_RXAK != 0 {
            Err(Error::AddressNack)
        } else {
            Ok(())
        }
    }

    /// Whether a data byte was acknowledged, given the status read after it.
    pub fn data_ack(&self, s: u8) -> (r: Result<(), Error>)
        ensures
            r == if s & S_RXAK != 0 { Err::<(), Error>(Error::DataNack) } else { Ok::<(), Error>(()) },
    {
        if s & S_RXAK != 0 {
            Err(Error::DataNack)
        } else {
            Ok(())
        }
    }

    /// Generate STOP (MST 1 → 0).
    pub fn stop(&self) -> (r: Vec<RegOp>)
        ensures
            r@ == seq![RegOp::Write { addr: (I2C::spec_base() + I2C_C1) as u32, width: Width::W8, value: C1_IICEN }],
    {
        let mut ops: Vec<RegOp> = Vec::new();
        ops.push(RegOp::Write { addr: I2C::base() + I2C_C1, width: Width::W8, value: C1_IICEN });
        ops
    }

    /// Send one data byte in master transmit mode and wait for the transfer.
    pub fn write_byte(&self, byte: u8) -> (r: Vec<RegOp>)
        ensures
            r@ == seq![
                RegOp::Write { addr: (I2C::spec_base() + I2C_D) as u32, width: Width::W8, value: byte as u32 },
                RegOp::WaitUntil { addr: (I2C::spec_base() + I2C_S) as u32, width: Width::W8, mask: S_IICIF as u32, value: S_IICIF as u32 },
            ],
    {
        let base = I2C::base();
        let mut ops: Vec<RegOp> = Vec::new();
        ops.push(RegOp::Write { addr: base + I2C_D, width: Width::W8, value: byte as u32 });
        ops.push(RegOp::WaitUntil { addr: base + I2C_S, width: Width::W8, mask: S_IICIF as u32, value: S_IICIF as u32 });
        ops
    }

    /// Enter master receive for a group of `total` bytes.
    ///
    /// An empty group only stops (when it ends the transaction). A single
    /// byte is NACKed from the start; longer groups ACK. A dummy read of D
    /// starts the first reception.
    pub fn read_group_begin(&self, total: usize, generate_stop: bool) -> (r: Vec<RegOp>)
        ensures
            total == 0 && generate_stop ==> r@ == seq![RegOp::Write { addr: (I2C::spec_base() + I2C_C1) as u32, width: Width::W8, value: C1_IICEN }],
            total == 0 && !generate_stop ==> r@ == Seq::<RegOp>::empty(),
            total == 1 ==> r@ == seq![
                RegOp::Write { addr: (I2C::spec_base() + I2C_C1) as u32, width: Width::W8, value: C1_IICEN | C1_MST | C1_TXAK },
                RegOp::Read { addr: (I2C::spec_base() + I2C_D) as u32, width: Width::W8 },
            ],
            total > 1 ==> r@ == seq![
                RegOp::Write { addr: (I2C::spec_base() + I2C_C1) as u32, width: Width::W8, value: C1_IICEN | C1_MST },
                RegOp::Read { addr: (I2C::spec_base() + I2C_D) as u32, width: Width::W8 },
            ],
    {
        let base = I2C::base();
        let mut ops: Vec<RegOp> = Vec::new();
        if total == 0 {
            if generate_stop {
                ops.push(RegOp::Write { addr: base + I2C_C1, width: Width::W8, value: C1_IICEN });
            }
            return ops;
        }
        if total == 1 {
            ops.push(RegOp::Write { addr: base + I2C_C1, width: Width::W8, value: C1_IICEN | C1_MST | C1_TXAK });
        } else {
            ops.push(RegOp::Write { addr: base + I2C_C1, width: Width::W8, value: C1_IICEN | C1_MST });
        }
        ops.push(RegOp::Read { addr: base + I2C_D, width: Width::W8 });
        ops
    }

    /// What to do before taking byte `g` of `total` from D (after its
    /// transfer completed): NACK the next one when it is the last, and for
    /// the last byte either STOP or switch to transmit so that reading D
    /// starts no further reception.
    pub fn read_byte_prep(&self, g: usize, total: usize, generate_stop: bool) -> (r: Vec<RegOp>)
        requires
            g < total,
        ensures
            r@ == (if total > 1 && g == total - 2 {
                seq![RegOp::Write { addr: (I2C::spec_base() + I2C_C1) as u32, width: Width::W8, value: C1_IICEN | C1_MST | C1_TXAK }]
            } else {
                Seq::<RegOp>::empty()
            }) + (if g == total - 1 {
                if generate_stop {
                    seq![RegOp::Write { addr: (I2C::spec_base() + I2C_C1) as u32, width: Width::W8, value: C1_IICEN }]
                } else {
                    seq![RegOp::Write { addr: (I2C::spec_base() + I2C_C1) as u32, width: Width::W8, value: C1_IICEN | C1_MST | C1_TX }]
                }
            } else {
                Seq::<RegOp>::empty()
            }),
    {
        let base = I2C::base();
        let mut ops: Vec<RegOp> = Vec::new();
        if total > 1 && g == total - 2 {
            ops.push(RegOp::Write { addr: base + I2C_C1, width: Width::W8, value: C1_IICEN | C1_MST | C1_TXAK });
        }
        if g == total - 1 {
            if generate_stop {
                ops.push(RegOp::Write { addr: base + I2C_C1, width: Width::W8, value: C1_IICEN });
            } else {
                ops.push(RegOp::Write { addr: base + I2C_C1, width: Width::W8, value: C1_IICEN | C1_MST | C1_TX });
            }
        }
        ops
    }

    /// Interrupt service for async waiting: when IICIF is set, mask the
    /// interrupt (the waiting task reads and clears the status) and wake.
    /// Returns whether to wake and the register program.
    pub fn interrupt_action(s: u8) -> (r: (bool, Vec<RegOp>))
        ensures
            s & S_IICIF != 0 ==> r.0 && r.1@ == seq![RegOp::Modify { addr: (I2C::spec_base() + I2C_C1) as u32, width: Width::W8, clear: C1_IICIE, set: 0 }],
            s & S_IICIF == 0 ==> !r.0 && r.1@ == Seq::<RegOp>::empty(),
    {
        let mut ops: Vec<RegOp> = Vec::new();
        if s & S_IICIF != 0 {
            ops.push(RegOp::Modify { addr: I2C::base() + I2C_C1, width: Width::W8, clear: C1_IICIE, set: 0 });
            (true, ops)
        } else {
            (false, ops)
        }
    }
}

/// I2C0 interrupt handler, given S (see [`I2c::interrupt_action`]):
/// whether to wake the waiting task, and the program that masks the
/// interrupt.
pub fn on_i2c0_interrupt(s: u8) -> (r: (bool, Vec<RegOp>))
    ensures
        s & S_IICIF != 0 ==> r.0 && r.1@ == seq![RegOp::Modify { addr: (I2c0::spec_base() + I2C_C1) as u32, width: Width::W8, clear: C1_IICIE, set: 0 }],
        s & S_IICIF == 0 ==> !r.0 && r.1@ == Seq::<RegOp>::empty(),
{
    I2c::<I2c0>::interrupt_action(s)
}

/// I2C1 interrupt handler, given S.
pub fn on_i2c1_interrupt(s: u8) -> (r: (bool, Vec<RegOp>))
    ensures
        s & S_IICIF != 0 ==> r.0 && r.1@ == seq![RegOp::Modify { addr: (I2c1::spec_base() + I2C_C1) as u32, width: Width::W8, clear: C1_IICIE, set: 0 }],
        s & S_IICIF == 0 ==> !r.0 && r.1@ == Seq::<RegOp>::empty(),
{
    I2c::<I2c1>::interrupt_action(s)
}

} // verus!
