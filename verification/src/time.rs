//! Frequencies in hertz.

use vstd::prelude::*;

verus! {

/// A frequency in hertz.
#[derive(Clone, Copy, Debug, PartialEq, Eq, Structural)]
pub struct Hertz(pub u32);

impl Hertz {
    /// A frequency of `raw` hertz.
    pub fn from_raw(raw: u32) -> (r: Hertz)
        ensures
            r.0 == raw,
    {
        Hertz(raw)
    }

    /// The frequency in hertz.
    pub fn to_raw(&self) -> (r: u32)
        ensures
            r == self.0,
    {
        self.0
    }

    /// The frequency in hertz.
    pub fn raw(&self) -> (r: u32)
        ensures
            r == self.0,
    {
        self.0
    }
}

/// A frequency in kilohertz.
#[derive(Clone, Copy, Debug, PartialEq, Eq, Structural)]
pub struct KiloHertz(pub u32);

/// A frequency in megahertz.
#[derive(Clone, Copy, Debug, PartialEq, Eq, Structural)]
pub struct MegaHertz(pub u32);

/// Frequencies from plain numbers: `8_000_000.Hz()`, `400.kHz()`, `72.MHz()`.
#[allow(non_snake_case)]
pub trait U32Ext {
    fn Hz(self) -> Hertz;

    fn kHz(self) -> KiloHertz;

    fn MHz(self) -> MegaHertz;
}

#[allow(non_snake_case)]
impl U32Ext for u32 {
    fn Hz(self) -> (r: Hertz)
        ensures
            r.0 == self,
    {
        Hertz(self)
    }

    fn kHz(self) -> (r: KiloHertz)
        ensures
            r.0 == self,
    {
        KiloHertz(self)
    }

    fn MHz(self) -> (r: MegaHertz)
        ensures
            r.0 == self,
    {
        MegaHertz(self)
    }
}

} // verus!
