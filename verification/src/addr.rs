//! Memory addresses carrying both the raw address as issued by the
//! accessing party and the address relative to the current device.

use vstd::prelude::*;

verus! {

/// A memory address within system memory. Provides both the raw address and
/// the relative address so that devices can report both in diagnostics, and
/// so that nested devices can re-offset without losing the original address.
#[derive(Copy, Clone, Debug)]
pub struct Addr {
    /// Raw address, originating from game code.
    pub raw: u16,
    /// Address relative to the start of a particular memory device.
    pub relative: u16,
}

impl Addr {
    /// The relative address never exceeds the raw address: it is the raw
    /// address minus the cumulative offsets applied by enclosing devices.
    pub open spec fn wf(&self) -> bool {
        self.relative <= self.raw
    }

    /// Gets the raw address that this Addr points at.
    pub fn raw(&self) -> (r: u16)
        ensures
            r == self.raw,
    {
        self.raw
    }

    /// Gets the address this Addr points at relative to the start of some
    /// unspecified device.
    pub fn relative(&self) -> (r: u16)
        ensures
            r == self.relative,
    {
        self.relative
    }

    /// Gets the relative address as a usize for convenient indexing.
    pub fn index(&self) -> (r: usize)
        ensures
            r == self.relative as usize,
    {
        self.relative as usize
    }

    /// Gets the current offset: the total shift applied by enclosing devices.
    pub fn offset(&self) -> (r: u16)
        requires
            self.wf(),
        ensures
            r == self.raw - self.relative,
    {
        self.raw - self.relative
    }

    /// Constructs a new address, offsetting the relative address by the
    /// specified amount. Shifting past the start of the device is a wiring
    /// bug, ruled out by the precondition.
    pub fn offset_by(&self, shift: u16) -> (a: Addr)
        requires
            shift <= self.relative,
        ensures
            a.raw == self.raw,
            a.relative == self.relative - shift,
    {
        Addr { raw: self.raw, relative: (self.relative - shift) }
    }
}

impl From<u16> for Addr {
    /// Create a new address from a raw address. No offset is applied, so
    /// initially both the raw and relative addresses are the same.
    fn from(raw: u16) -> (a: Self) {
        Addr { raw, relative: raw }
    }
}

impl vstd::std_specs::convert::FromSpecImpl<u16> for Addr {
    open spec fn obeys_from_spec() -> bool {
        true
    }

    open spec fn from_spec(raw: u16) -> Self {
        Addr { raw, relative: raw }
    }
}

} // verus!
