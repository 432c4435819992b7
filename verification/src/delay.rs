//! SysTick delay planning: a delay in nanoseconds becomes a series of
//! SysTick reload values, each within the 24-bit reload register.

use vstd::prelude::*;

use crate::clocks::Clocks;

verus! {

/// Largest SysTick reload value (24 bits).
pub const MAX_RELOAD: u32 = 0x00FF_FFFF;

/// Sum of a sequence of reload values.
pub open spec fn reload_sum(s: Seq<u32>) -> int
    decreases s.len(),
{
    if s.len() == 0 {
        0
    } else {
        reload_sum(s.drop_last()) + s.last() as int
    }
}

/// Core clock cycles for `ns` nanoseconds, rounded up.
pub open spec fn delay_cycles(ns: u32, cycles_per_us: u32) -> int {
    (ns as int * cycles_per_us as int + 999) / 1000
}

/// SysTick-based delay provider.
///
/// The SysTick reload register is 24 bits wide, limiting a single count to
/// ~233 ms at 72 MHz; longer delays run as several consecutive counts.
pub struct Delay {
    cycles_per_us: u32,
}

impl Delay {
    /// Core clock cycles per microsecond this delay counts with.
    pub closed spec fn spec_cycles_per_us(self) -> u32 {
        self.cycles_per_us
    }

    /// Create a delay provider for the frozen core clock.
    pub fn new(clocks: &Clocks) -> (r: Delay)
        ensures
            r.spec_cycles_per_us() == clocks.core_hz() / 1_000_000,
    {
        let cycles_per_us = clocks.core_clk().to_raw() / 1_000_000;
        Delay { cycles_per_us }
    }

    /// Core clock cycles per microsecond.
    pub fn cycles_per_us(&self) -> (r: u32)
        ensures
            r == self.spec_cycles_per_us(),
    {
        self.cycles_per_us
    }

    /// The SysTick reload values that make up a delay of `ns` nanoseconds.
    ///
    /// The values add up to the delay in core cycles (rounded up); every one
    /// but the last is the full 24-bit reload, and none is zero.
    pub fn delay_ns(&mut self, ns: u32) -> (r: Vec<u32>)
        ensures
            *final(self) == *old(self),
            reload_sum(r@) == delay_cycles(ns, old(self).spec_cycles_per_us()),
            forall|i: int| 0 <= i < r@.len() ==> 0 < #[trigger] r@[i] <= MAX_RELOAD,
            forall|i: int| 0 <= i < r@.len() - 1 ==> #[trigger] r@[i] == MAX_RELOAD,
    {
        let cpu = self.cycles_per_us;
        assert(ns as int * cpu as int <= 0xFFFF_FFFE_0000_0001int) by (nonlinear_arith)
            requires
                ns <= 0xFFFF_FFFFu32,
                cpu <= 0xFFFF_FFFFu32,
        ;
        let product: u64 = ns as u64 * cpu as u64;
        let cycles: u64 = (product + 999) / 1000;
        let mut remaining: u64 = cycles;
        let mut reloads: Vec<u32> = Vec::new();
        while remaining > 0
            invariant
                reload_sum(reloads@) + remaining as int == cycles as int,
                forall|i: int| 0 <= i < reloads@.len() ==> 0 < #[trigger] reloads@[i] <= MAX_RELOAD,
                remaining > 0 ==> forall|i: int| 0 <= i < reloads@.len() ==> #[trigger] reloads@[i] == MAX_RELOAD,
                forall|i: int| 0 <= i < reloads@.len() - 1 ==> #[trigger] reloads@[i] == MAX_RELOAD,
            decreases remaining,
        {
            let reload: u32 = if remaining > MAX_RELOAD as u64 {
                MAX_RELOAD
            } else {
                remaining as u32
            };
            let ghost before = reloads@;
            reloads.push(reload);
            assert(reloads@.drop_last() == before);
            remaining = remaining - reload as u64;
        }
        reloads
    }
}

} // verus!
